//! The router's decisions: the route is the navigation state, and these are
//! the rules that keep the URL honest. A malformed or unknown path is the
//! recoverable Rooms state, rewritten by a replace; a non-canonical spelling
//! is rewritten to its canonical one by a replace; the last open room is
//! restored only from the bare root, pushed on top of the Rooms list; and
//! navigating to the path already shown pushes no duplicate entry.
//!
//! The route type and its grammar (parsing a path, spelling a route) belong
//! to the platform's navigation model; the router is generic over it and
//! takes the parse and the canonical spelling as given.

use vstd::prelude::*;

use crate::text::str_eq;

verus! {

/// One navigation intent: where to go, and whether it replaces the current
/// history entry rather than pushing a new one.
#[derive(Clone, PartialEq, Eq, Debug)]
pub struct NavIntent<R> {
    /// The destination route.
    pub route: R,
    /// Replace (canonicalizing and fail-safe rewrites) rather than push (an
    /// ordinary navigation).
    pub replace: bool,
}

impl<R> NavIntent<R> {
    /// A pushing navigation.
    pub fn push(route: R) -> (r: Self)
        ensures
            r.route == route,
            !r.replace,
    {
        NavIntent { route, replace: false }
    }

    /// A replacing navigation.
    pub fn replace(route: R) -> (r: Self)
        ensures
            r.route == route,
            r.replace,
    {
        NavIntent { route, replace: true }
    }
}

/// How the initial URL resolves at mount. Applied in order: show `route`;
/// if `replace_to` is set, rewrite the URL to it by a replace; if
/// `restore_push` is set, push it on top.
#[derive(Clone, PartialEq, Eq, Debug)]
pub struct MountResolution<R> {
    /// What the raw URL means after parsing and fallback.
    pub route: R,
    /// The canonical route to rewrite the URL to, when the raw spelling was
    /// not canonical or did not parse.
    pub replace_to: Option<R>,
    /// The last open room, pushed on top, when the raw path was the bare
    /// root and a last room is known.
    pub restore_push: Option<R>,
}

/// The route shown once every mount action is applied.
pub open spec fn final_route_spec<R>(m: MountResolution<R>) -> R {
    match m.restore_push {
        Some(r) => r,
        None => match m.replace_to {
            Some(r) => r,
            None => m.route,
        },
    }
}

impl<R: Clone> MountResolution<R> {
    /// The route actually shown after every mount action is applied.
    pub fn final_route(&self) -> (r: R)
        ensures
            cloned::<R>(final_route_spec(*self), r),
    {
        match &self.restore_push {
            Some(r) => r.clone(),
            None => match &self.replace_to {
                Some(r) => r.clone(),
                None => self.route.clone(),
            },
        }
    }
}

/// The fail-safe parse: a path that parsed is its route; one that did not
/// is `rooms`, and the fallback is reported so the caller replaces the URL.
pub fn parse_or_rooms<R>(parsed: Option<R>, rooms: R) -> (r: (R, bool))
    ensures
        match parsed {
            Some(p) => r == (p, false),
            None => r == (rooms, true),
        },
{
    match parsed {
        Some(route) => (route, false),
        None => (rooms, true),
    }
}

/// Whether a raw path is the bare root (`/` or empty).
pub open spec fn is_bare_root(raw_path: Seq<char>) -> bool {
    raw_path == seq!['/'] || raw_path.len() == 0
}

/// Resolve the initial URL at mount. `raw_path` is the path as loaded;
/// `route` is what it means after the fail-safe parse (`fell_back` when it
/// did not parse); `canonical` is that route's canonical spelling; and
/// `last_room` is the route of the last open room, if one is remembered.
/// The URL is rewritten by a replace whenever the parse fell back or the
/// spelling was not canonical; the last room is restored only from the bare
/// root, so an explicit route always wins.
pub fn resolve_mount<R: Clone>(
    raw_path: &str,
    route: R,
    fell_back: bool,
    canonical: &str,
    last_room: Option<R>,
) -> (r: MountResolution<R>)
    ensures
        r.route == route,
        (fell_back || raw_path@ != canonical@) ==> (r.replace_to matches Some(t) && cloned::<R>(route, t)),
        !(fell_back || raw_path@ != canonical@) ==> r.replace_to is None,
        r.restore_push == if is_bare_root(raw_path@) { last_room } else { None },
{
    proof {
        reveal_strlit("/");
        assert("/"@ =~= seq!['/']);
    }
    let root = str_eq(raw_path, "/");
    let empty = raw_path.unicode_len() == 0;
    let bare = root || empty;
    assert(bare == is_bare_root(raw_path@));
    let replace_to = if fell_back || !str_eq(raw_path, canonical) {
        Some(route.clone())
    } else {
        None
    };
    let restore_push = if bare {
        last_room
    } else {
        None
    };
    MountResolution { route, replace_to, restore_push }
}

/// Whether navigating from the path shown to `to_path` pushes a new history
/// entry: never for the path already shown, so Back is not stranded on a
/// duplicate.
pub fn should_push(current_path: &str, to_path: &str) -> (r: bool)
    ensures
        r == (current_path@ != to_path@),
{
    !str_eq(current_path, to_path)
}

/// A push to `route`, made a replace when it would duplicate the path shown.
pub fn push_intent<R>(current_path: &str, route: R, to_path: &str) -> (r: NavIntent<R>)
    ensures
        r.route == route,
        r.replace == (current_path@ == to_path@),
{
    let replace = !should_push(current_path, to_path);
    NavIntent { route, replace }
}

/// An explicit route always wins over the remembered room: off the bare
/// root nothing is restored, and from the bare root the restored room is
/// what is finally shown.
pub proof fn lemma_restore_only_from_the_bare_root<R>(m: MountResolution<R>, raw_path: Seq<char>, last_room: Option<R>)
    requires
        m.restore_push == (if is_bare_root(raw_path) { last_room } else { None }),
    ensures
        !is_bare_root(raw_path) ==> m.restore_push is None,
        (is_bare_root(raw_path) && last_room is Some) ==> final_route_spec(m) == last_room->0,
{
}

} // verus!
