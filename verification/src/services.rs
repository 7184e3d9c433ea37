//! The platform services every target supplies to the shell: preferences,
//! external URLs, the clipboard and the current route.
//!
//! [`PlatformServicesImpl`] is the seam a target implements and
//! [`PlatformServices`] forwards to;
//! [`WebPlatformServices`] is the deterministic in-memory implementation the
//! browser build and the tests use. It records what it was asked to do, so
//! the effects can be read back.

use vstd::prelude::*;

use crate::ordmap::OrdStrMap;

verus! {

/// A target's platform services.
pub trait PlatformServicesImpl {
    /// The preferences the services hold.
    spec fn preferences_view(&self) -> Map<Seq<char>, Seq<char>>;

    /// The route last navigated to (empty before any navigation).
    spec fn route_view(&self) -> Seq<char>;

    /// The last text written to the clipboard (`None` before any write).
    spec fn clipboard_view(&self) -> Option<Seq<char>>;

    /// The external URLs opened so far, in order.
    spec fn opened_view(&self) -> Seq<Seq<char>>;

    /// The services' internal consistency.
    spec fn inv(&self) -> bool;

    /// The stored preference under `key`.
    fn preference(&self, key: &str) -> (r: Option<String>)
        requires
            self.inv(),
        ensures
            match r {
                Some(v) => self.preferences_view().contains_key(key@)
                    && self.preferences_view()[key@] == v@,
                None => !self.preferences_view().contains_key(key@),
            };

    /// Store `value` under `key`, replacing any previous value.
    fn set_preference(&mut self, key: &str, value: &str)
        requires
            old(self).inv(),
        ensures
            final(self).inv(),
            final(self).preferences_view() == old(self).preferences_view().insert(key@, value@),
            final(self).route_view() == old(self).route_view();

    /// Open an external URL.
    fn open_url(&mut self, url: &str)
        requires
            old(self).inv(),
        ensures
            final(self).inv(),
            final(self).opened_view() == old(self).opened_view().push(url@),
            final(self).clipboard_view() == old(self).clipboard_view(),
            final(self).preferences_view() == old(self).preferences_view(),
            final(self).route_view() == old(self).route_view();

    /// Replace the clipboard's text.
    fn write_clipboard(&mut self, text: &str)
        requires
            old(self).inv(),
        ensures
            final(self).inv(),
            final(self).clipboard_view() == Some(text@),
            final(self).opened_view() == old(self).opened_view(),
            final(self).preferences_view() == old(self).preferences_view(),
            final(self).route_view() == old(self).route_view();

    /// Navigate to `route`.
    fn navigate(&mut self, route: &str)
        requires
            old(self).inv(),
        ensures
            final(self).inv(),
            final(self).preferences_view() == old(self).preferences_view(),
            final(self).route_view() == route@;

    /// The current route.
    fn route(&self) -> (r: String)
        requires
            self.inv(),
        ensures
            r@ == self.route_view();
}

/// The in-memory services: preferences in a sorted map, plus a record of
/// the clipboard, the URLs opened (in order) and the current route.
pub struct WebPlatformServices {
    preferences: OrdStrMap,
    clipboard: Option<String>,
    opened_urls: Vec<String>,
    route: Option<String>,
}

impl WebPlatformServices {
    /// Fresh services: no preferences, nothing opened, no clipboard text, no
    /// route.
    pub fn new() -> (r: Self)
        ensures
            r.inv(),
            r.preferences_view() == Map::<Seq<char>, Seq<char>>::empty(),
            r.route_view() == Seq::<char>::empty(),
            r.clipboard_view() is None,
            r.opened_view() == Seq::<Seq<char>>::empty(),
    {
        let r = WebPlatformServices {
            preferences: OrdStrMap::new(),
            clipboard: None,
            opened_urls: Vec::new(),
            route: None,
        };
        proof {
            assert(r.opened_view() =~= Seq::<Seq<char>>::empty());
        }
        r
    }

    /// The last text written to the clipboard, if any.
    pub fn last_clipboard(&self) -> (r: Option<String>)
        ensures
            match r {
                Some(s) => self.clipboard_view() == Some(s@),
                None => self.clipboard_view() is None,
            },
    {
        match &self.clipboard {
            Some(s) => Some(s.clone()),
            None => None,
        }
    }

    /// The URLs opened so far, in order.
    pub fn opened_urls(&self) -> (r: Vec<String>)
        ensures
            r@.map_values(|s: String| s@) == self.opened_view(),
    {
        let mut out: Vec<String> = Vec::new();
        let mut i: usize = 0;
        while i < self.opened_urls.len()
            invariant
                i <= self.opened_urls@.len(),
                out@.map_values(|s: String| s@) =~= self.opened_urls@.subrange(0, i as int).map_values(|s: String| s@),
            decreases self.opened_urls.len() - i,
        {
            let ghost before = out@;
            let u = self.opened_urls[i].clone();
            out.push(u);
            proof {
                assert(self.opened_urls@.subrange(0, i + 1) =~= self.opened_urls@.subrange(0, i as int).push(self.opened_urls@[i as int]));
                assert(out@ =~= before.push(u));
                assert(out@.map_values(|s: String| s@) =~= before.map_values(|s: String| s@).push(u@));
            }
            i = i + 1;
        }
        proof {
            assert(self.opened_urls@.subrange(0, i as int) =~= self.opened_urls@);
        }
        out
    }
}

impl Default for WebPlatformServices {
    fn default() -> (r: Self)
        ensures
            r.inv(),
            r.preferences_view() == Map::<Seq<char>, Seq<char>>::empty(),
            r.route_view() == Seq::<char>::empty(),
    {
        WebPlatformServices::new()
    }
}

impl PlatformServicesImpl for WebPlatformServices {
    closed spec fn preferences_view(&self) -> Map<Seq<char>, Seq<char>> {
        self.preferences@
    }

    closed spec fn route_view(&self) -> Seq<char> {
        match self.route {
            Some(r) => r@,
            None => Seq::empty(),
        }
    }

    closed spec fn clipboard_view(&self) -> Option<Seq<char>> {
        match self.clipboard {
            Some(s) => Some(s@),
            None => None,
        }
    }

    closed spec fn opened_view(&self) -> Seq<Seq<char>> {
        self.opened_urls@.map_values(|s: String| s@)
    }

    closed spec fn inv(&self) -> bool {
        self.preferences.wf()
    }

    fn preference(&self, key: &str) -> (r: Option<String>) {
        match self.preferences.get(key) {
            Some(v) => Some(v.clone()),
            None => None,
        }
    }

    fn set_preference(&mut self, key: &str, value: &str) {
        self.preferences.insert(key.to_owned(), value.to_owned());
    }

    fn open_url(&mut self, url: &str) {
        self.opened_urls.push(url.to_owned());
        proof {
            assert(self.opened_view() =~= old(self).opened_view().push(url@));
        }
    }

    fn write_clipboard(&mut self, text: &str) {
        self.clipboard = Some(text.to_owned());
    }

    fn navigate(&mut self, route: &str) {
        self.route = Some(route.to_owned());
    }

    fn route(&self) -> (r: String) {
        match &self.route {
            Some(r) => r.clone(),
            None => String::new(),
        }
    }
}

/// The services handed to the shell: one implementation behind the seam,
/// every call forwarded to it.
pub struct PlatformServices<S: PlatformServicesImpl> {
    inner: S,
}

impl<S: PlatformServicesImpl> PlatformServices<S> {
    /// The implementation's preferences.
    pub closed spec fn preferences_view(&self) -> Map<Seq<char>, Seq<char>> {
        self.inner.preferences_view()
    }

    /// The implementation's current route.
    pub closed spec fn route_view(&self) -> Seq<char> {
        self.inner.route_view()
    }

    /// The implementation's clipboard text.
    pub closed spec fn clipboard_view(&self) -> Option<Seq<char>> {
        self.inner.clipboard_view()
    }

    /// The external URLs the implementation opened, in order.
    pub closed spec fn opened_view(&self) -> Seq<Seq<char>> {
        self.inner.opened_view()
    }

    /// The implementation's consistency.
    pub closed spec fn inv(&self) -> bool {
        self.inner.inv()
    }

    /// Wrap an implementation.
    pub fn new(inner: S) -> (r: Self)
        ensures
            r.inv() == inner.inv(),
            r.preferences_view() == inner.preferences_view(),
            r.route_view() == inner.route_view(),
            r.clipboard_view() == inner.clipboard_view(),
            r.opened_view() == inner.opened_view(),
    {
        PlatformServices { inner }
    }

    /// A stored preference, or `None` if unset.
    pub fn preference(&self, key: &str) -> (r: Option<String>)
        requires
            self.inv(),
        ensures
            match r {
                Some(v) => self.preferences_view().contains_key(key@)
                    && self.preferences_view()[key@] == v@,
                None => !self.preferences_view().contains_key(key@),
            },
    {
        self.inner.preference(key)
    }

    /// Persist a preference under `key`.
    pub fn set_preference(&mut self, key: &str, value: &str)
        requires
            old(self).inv(),
        ensures
            final(self).inv(),
            final(self).preferences_view() == old(self).preferences_view().insert(key@, value@),
            final(self).route_view() == old(self).route_view(),
    {
        self.inner.set_preference(key, value);
    }

    /// Open an external URL.
    pub fn open_url(&mut self, url: &str)
        requires
            old(self).inv(),
        ensures
            final(self).inv(),
            final(self).opened_view() == old(self).opened_view().push(url@),
            final(self).clipboard_view() == old(self).clipboard_view(),
            final(self).preferences_view() == old(self).preferences_view(),
            final(self).route_view() == old(self).route_view(),
    {
        self.inner.open_url(url);
    }

    /// Write plain text to the clipboard.
    pub fn write_clipboard(&mut self, text: &str)
        requires
            old(self).inv(),
        ensures
            final(self).inv(),
            final(self).clipboard_view() == Some(text@),
            final(self).opened_view() == old(self).opened_view(),
            final(self).preferences_view() == old(self).preferences_view(),
            final(self).route_view() == old(self).route_view(),
    {
        self.inner.write_clipboard(text);
    }

    /// Navigate the in-app route.
    pub fn navigate(&mut self, route: &str)
        requires
            old(self).inv(),
        ensures
            final(self).inv(),
            final(self).preferences_view() == old(self).preferences_view(),
            final(self).route_view() == route@,
    {
        self.inner.navigate(route);
    }

    /// The current in-app route.
    pub fn route(&self) -> (r: String)
        requires
            self.inv(),
        ensures
            r@ == self.route_view(),
    {
        self.inner.route()
    }
}

impl PlatformServices<WebPlatformServices> {
    /// The in-memory services, wrapped for the shell.
    pub fn web_default() -> (r: Self)
        ensures
            r.inv(),
            r.preferences_view() == Map::<Seq<char>, Seq<char>>::empty(),
            r.route_view() == Seq::<char>::empty(),
            r.clipboard_view() is None,
            r.opened_view() == Seq::<Seq<char>>::empty(),
    {
        PlatformServices::new(WebPlatformServices::new())
    }
}

} // verus!
