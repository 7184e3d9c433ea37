//! The Activity pane's scroll state machine: whether the view follows new
//! content at the bottom, how many items arrived while the reader was
//! scrolled up, a wholesale reload that must not be announced as new
//! activity, and a saved reading position restored once its backlog is back.
//!
//! Positions are whatever the renderer measures in (`P`): the machine only
//! carries them. The renderer turns a measurement into the two facts the
//! machine decides on: whether the view is within the bottom threshold, and
//! whether a reveal measured zero.

use vstd::prelude::*;

verus! {

/// A deliberately preserved reading position, saved across a room switch or
/// a backlog reload.
#[derive(Clone, Copy, PartialEq, Debug)]
pub struct SavedView<P> {
    /// The scroll offset to restore.
    pub scroll_top: P,
    /// The item count seen at save time: the baseline the new-item count is
    /// derived from once the backlog is reloaded.
    pub item_count: usize,
}

/// The scroll adjustment the renderer should apply.
#[derive(Clone, Copy, PartialEq, Debug)]
pub enum ScrollAction<P> {
    /// Leave the scroll position where the user put it.
    Stay,
    /// Jump to the newest content.
    ToBottom,
    /// Restore a specific offset.
    ToOffset(P),
}

/// The scroll state machine.
#[derive(Clone, Copy, PartialEq, Debug)]
pub struct ScrollModel<P> {
    /// Whether the view follows new content at the bottom.
    pub stick_to_bottom: bool,
    /// The count of items that arrived while scrolled up; cleared on
    /// reaching the bottom.
    pub new_item_count: usize,
    last_scroll_top: P,
    restore_pending: Option<SavedView<P>>,
    reload_baseline: bool,
    item_count: usize,
}

/// The scroll state as plain values: what a [`ScrollModel`] holds.
pub struct ScrollState<P> {
    /// Whether the view follows the bottom.
    pub stick_to_bottom: bool,
    /// The announced new-item count.
    pub new_item_count: usize,
    /// The offset of the last user scroll.
    pub last_scroll_top: P,
    /// The saved view waiting for its backlog, if any.
    pub restore_pending: Option<SavedView<P>>,
    /// Whether a wholesale reload is in flight or just completed.
    pub reload_baseline: bool,
    /// The item count last seen.
    pub item_count: usize,
}

impl<P: Copy> View for ScrollModel<P> {
    type V = ScrollState<P>;

    closed spec fn view(&self) -> ScrollState<P> {
        ScrollState {
            stick_to_bottom: self.stick_to_bottom,
            new_item_count: self.new_item_count,
            last_scroll_top: self.last_scroll_top,
            restore_pending: self.restore_pending,
            reload_baseline: self.reload_baseline,
            item_count: self.item_count,
        }
    }
}

impl<P: Copy> ScrollState<P> {
    /// The model after a user scroll to `scroll_top`, `near_bottom` telling
    /// whether it lies within the bottom threshold.
    pub open spec fn scrolled(self, scroll_top: P, near_bottom: bool) -> Self {
        ScrollState {
            last_scroll_top: scroll_top,
            stick_to_bottom: near_bottom,
            new_item_count: if near_bottom { 0 } else { self.new_item_count },
            ..self
        }
    }

    /// The model and action after the item count became `count`, `loading`
    /// while a resync is in flight.
    pub open spec fn items_changed(self, count: usize, loading: bool) -> (Self, ScrollAction<P>) {
        let follow = if self.stick_to_bottom { ScrollAction::ToBottom } else { ScrollAction::Stay };
        if loading {
            (
                ScrollState {
                    reload_baseline: true,
                    item_count: if self.item_count <= count { self.item_count } else { count },
                    ..self
                },
                follow,
            )
        } else {
            match self.restore_pending {
                Some(saved) => if count >= saved.item_count {
                    (
                        ScrollState {
                            new_item_count: (count - saved.item_count) as usize,
                            item_count: count,
                            restore_pending: None,
                            reload_baseline: false,
                            ..self
                        },
                        ScrollAction::ToOffset(saved.scroll_top),
                    )
                } else {
                    (ScrollState { item_count: count, ..self }, ScrollAction::Stay)
                },
                None => {
                    let delta: int = if count >= self.item_count { count - self.item_count } else { 0 };
                    if self.reload_baseline {
                        (ScrollState { item_count: count, reload_baseline: false, ..self }, follow)
                    } else if self.stick_to_bottom {
                        (ScrollState { item_count: count, new_item_count: 0, ..self }, ScrollAction::ToBottom)
                    } else {
                        let total = self.new_item_count + delta;
                        (
                            ScrollState {
                                item_count: count,
                                new_item_count: if total <= usize::MAX { total as usize } else { usize::MAX },
                                ..self
                            },
                            ScrollAction::Stay,
                        )
                    }
                },
            }
        }
    }

    /// The action on a layout change, `measured_zero` telling whether a
    /// reveal measured the pane as empty.
    pub open spec fn synced(self, measured_zero: bool) -> ScrollAction<P> {
        if self.restore_pending is Some {
            ScrollAction::Stay
        } else if self.stick_to_bottom {
            ScrollAction::ToBottom
        } else if measured_zero {
            ScrollAction::ToOffset(self.last_scroll_top)
        } else {
            ScrollAction::Stay
        }
    }

    /// The reading position to save, at offset `scroll_top`.
    pub open spec fn saved(self, scroll_top: P) -> Option<SavedView<P>> {
        if self.stick_to_bottom {
            None
        } else {
            Some(SavedView { scroll_top, item_count: self.item_count })
        }
    }

    /// The model re-seeded from a saved view on returning to a room.
    pub open spec fn restored(self, saved: Option<SavedView<P>>) -> Self {
        ScrollState {
            stick_to_bottom: saved is None,
            restore_pending: saved,
            new_item_count: 0,
            reload_baseline: false,
            ..self
        }
    }

}

impl<P: Copy> ScrollModel<P> {
    /// A fresh model, following the bottom; `origin` is the top offset.
    pub fn new(origin: P) -> (r: Self)
        ensures
            r@ == (ScrollState {
                stick_to_bottom: true,
                new_item_count: 0,
                last_scroll_top: origin,
                restore_pending: None,
                reload_baseline: false,
                item_count: 0,
            }),
    {
        ScrollModel {
            stick_to_bottom: true,
            new_item_count: 0,
            last_scroll_top: origin,
            restore_pending: None,
            reload_baseline: false,
            item_count: 0,
        }
    }

    /// A user scroll to `scroll_top`: within the bottom threshold the view
    /// follows the bottom and the new-item count clears; above it the view
    /// is released. A user scroll is never fought.
    pub fn on_scroll(&mut self, scroll_top: P, near_bottom: bool) -> (r: ScrollAction<P>)
        ensures
            final(self)@ == old(self)@.scrolled(scroll_top, near_bottom),
            r == ScrollAction::<P>::Stay,
    {
        self.last_scroll_top = scroll_top;
        if near_bottom {
            self.stick_to_bottom = true;
            self.new_item_count = 0;
        } else {
            self.stick_to_bottom = false;
        }
        ScrollAction::Stay
    }

    /// The item count became `count` (`loading` while a resync is in
    /// flight). A resync marks a reload baseline so its backlog is not
    /// announced; a pending restore applies once its backlog is back; a
    /// completed reload rebases silently; otherwise the view follows the
    /// bottom or counts the new items.
    pub fn on_items_changed(&mut self, count: usize, loading: bool) -> (r: ScrollAction<P>)
        ensures
            (final(self)@, r) == old(self)@.items_changed(count, loading),
    {
        if loading {
            self.reload_baseline = true;
            if count < self.item_count {
                self.item_count = count;
            }
            return if self.stick_to_bottom {
                ScrollAction::ToBottom
            } else {
                ScrollAction::Stay
            };
        }
        if let Some(saved) = self.restore_pending {
            if count >= saved.item_count {
                self.new_item_count = count - saved.item_count;
                self.item_count = count;
                self.restore_pending = None;
                self.reload_baseline = false;
                return ScrollAction::ToOffset(saved.scroll_top);
            }
            self.item_count = count;
            return ScrollAction::Stay;
        }
        let delta = count.saturating_sub(self.item_count);
        self.item_count = count;
        if self.reload_baseline {
            self.reload_baseline = false;
            return if self.stick_to_bottom {
                ScrollAction::ToBottom
            } else {
                ScrollAction::Stay
            };
        }
        if self.stick_to_bottom {
            self.new_item_count = 0;
            ScrollAction::ToBottom
        } else {
            self.new_item_count = self.new_item_count.saturating_add(delta);
            ScrollAction::Stay
        }
    }

    /// The target on a layout change: a pending restore is left to the
    /// backlog reload; a following view sticks to the bottom; a reveal that
    /// measured zero reinstates the last reading offset.
    pub fn sync(&self, measured_zero: bool) -> (r: ScrollAction<P>)
        ensures
            r == self@.synced(measured_zero),
    {
        if self.restore_pending.is_some() {
            return ScrollAction::Stay;
        }
        if self.stick_to_bottom {
            return ScrollAction::ToBottom;
        }
        if measured_zero {
            return ScrollAction::ToOffset(self.last_scroll_top);
        }
        ScrollAction::Stay
    }

    /// The deliberate reading position at `scroll_top`, to survive a room
    /// switch; `None` for a view left at the bottom, which re-opens at its
    /// newest event.
    pub fn save_view(&self, scroll_top: P) -> (r: Option<SavedView<P>>)
        ensures
            r == self@.saved(scroll_top),
    {
        if self.stick_to_bottom {
            None
        } else {
            Some(SavedView { scroll_top, item_count: self.item_count })
        }
    }

    /// Re-seed the model on returning to a room: nothing saved follows the
    /// bottom; a saved view is restored once its backlog reloads. Either way
    /// a fresh open announces no new activity.
    pub fn restore(&mut self, saved: Option<SavedView<P>>)
        ensures
            final(self)@ == old(self)@.restored(saved),
    {
        match saved {
            None => {
                self.stick_to_bottom = true;
                self.restore_pending = None;
            },
            Some(view) => {
                self.stick_to_bottom = false;
                self.restore_pending = Some(view);
            },
        }
        self.new_item_count = 0;
        self.reload_baseline = false;
    }

    /// The reader asked for the newest content: follow the bottom again and
    /// clear the count.
    pub fn jump_to_new(&mut self) -> (r: ScrollAction<P>)
        ensures
            final(self)@ == (ScrollState { stick_to_bottom: true, new_item_count: 0, ..old(self)@ }),
            r == ScrollAction::<P>::ToBottom,
    {
        self.stick_to_bottom = true;
        self.new_item_count = 0;
        ScrollAction::ToBottom
    }
}

/// Saving a reading position and restoring it into any model brings the
/// reader back to it: once the backlog is reloaded to at least the saved
/// count, the restore jumps to the saved offset exactly once, announces only
/// the items that arrived since the save, and leaves nothing pending.
pub proof fn lemma_save_restore_round_trip<P: Copy>(
    m: ScrollState<P>,
    scroll_top: P,
    other: ScrollState<P>,
    count: usize,
)
    requires
        !m.stick_to_bottom,
        count >= m.item_count,
    ensures
        ({
            let saved = m.saved(scroll_top);
            let (after, action) = other.restored(saved).items_changed(count, false);
            &&& saved is Some
            &&& action == ScrollAction::ToOffset(scroll_top)
            &&& after.new_item_count == count - m.item_count
            &&& after.restore_pending is None
            &&& !after.stick_to_bottom
        }),
{
}

/// A view left at the bottom saves nothing and re-opens following the
/// bottom.
pub proof fn lemma_bottom_view_reopens_at_newest<P: Copy>(m: ScrollState<P>, scroll_top: P, other: ScrollState<P>, measured_zero: bool)
    requires
        m.stick_to_bottom,
    ensures
        m.saved(scroll_top) is None,
        other.restored(m.saved(scroll_top)).stick_to_bottom,
        other.restored(m.saved(scroll_top)).synced(measured_zero) == ScrollAction::<P>::ToBottom,
{
}

/// A wholesale reload is not announced as new activity: a resync followed
/// by its reloaded backlog leaves the new-item count as it was.
pub proof fn lemma_reload_is_not_new_activity<P: Copy>(m: ScrollState<P>, during: usize, after: usize)
    requires
        m.restore_pending is None,
    ensures
        ({
            let (mid, _) = m.items_changed(during, true);
            let (end, _) = mid.items_changed(after, false);
            &&& end.new_item_count == m.new_item_count
            &&& end.item_count == after
            &&& !end.reload_baseline
        }),
{
}

/// While a saved position waits for its backlog, a layout change never
/// moves the view.
pub proof fn lemma_sync_yields_to_a_pending_restore<P: Copy>(m: ScrollState<P>, saved: SavedView<P>, measured_zero: bool)
    ensures
        m.restored(Some(saved)).synced(measured_zero) == ScrollAction::<P>::Stay,
{
}

} // verus!
