//! The notification manager: the registered click callback and the
//! identifier-to-URL metadata recorded when notifications are shown.

use vstd::prelude::*;

use crate::click::{opt_text, ActionModel, ClickAction, ClickModel, NotificationClick};
use crate::links::{route_click, route_for, valid_notification_url, ClickRoute, RouteModel};
use crate::text::text_eq;

verus! {

/// The abstract state of a [`NotificationManager`].
pub struct ManagerModel<C> {
    /// The callback that clicks are dispatched to.
    pub callback: Option<C>,
    /// The deep link recorded for each notification identifier.
    pub metadata: Map<Seq<char>, Seq<char>>,
}

impl<C> ManagerModel<C> {
    /// The state after `callback` replaces the registered callback.
    pub open spec fn with_callback(self, callback: C) -> Self {
        ManagerModel { callback: Some(callback), ..self }
    }

    /// The state after `url` is recorded for `id`.
    pub open spec fn with_link(self, id: Seq<char>, url: Seq<char>) -> Self {
        ManagerModel { metadata: self.metadata.insert(id, url), ..self }
    }

    /// The state after notification `id` is shown, with `url` as its deep link.
    pub open spec fn shown(self, id: Seq<char>, url: Option<Seq<char>>) -> Self {
        match url {
            Some(u) => self.with_link(id, u),
            None => self,
        }
    }

    /// The deep link recorded for `id`.
    pub open spec fn link_of(self, id: Seq<char>) -> Option<Seq<char>> {
        if self.metadata.contains_key(id) {
            Some(self.metadata[id])
        } else {
            None
        }
    }

    /// The click event that a backend report of `action` on `id` resolves to.
    pub open spec fn click_for(self, id: Seq<char>, action: ActionModel) -> ClickModel {
        ClickModel { id, url: self.link_of(id), action }
    }
}

/// One recorded identifier and its deep link.
struct MetadataEntry {
    id: String,
    url: String,
}

/// Identifiers are unique among the entries.
spec fn ids_unique(s: Seq<MetadataEntry>) -> bool {
    forall|i: int, j: int| 0 <= i < s.len() && 0 <= j < s.len() && s[i].id@ == s[j].id@ ==> i == j
}

spec fn has_id(s: Seq<MetadataEntry>, k: Seq<char>) -> bool {
    exists|i: int| 0 <= i < s.len() && #[trigger] s[i].id@ == k
}

spec fn entries_view(s: Seq<MetadataEntry>) -> Map<Seq<char>, Seq<char>> {
    Map::new(
        |k: Seq<char>| has_id(s, k),
        |k: Seq<char>| s[choose|i: int| 0 <= i < s.len() && #[trigger] s[i].id@ == k].url@,
    )
}

proof fn lemma_entry_lookup(s: Seq<MetadataEntry>, i: int)
    requires
        ids_unique(s),
        0 <= i < s.len(),
    ensures
        entries_view(s).contains_key(s[i].id@),
        entries_view(s)[s[i].id@] == s[i].url@,
{
    let k = s[i].id@;
    assert(has_id(s, k));
    let j = choose|j: int| 0 <= j < s.len() && #[trigger] s[j].id@ == k;
    assert(j == i);
}

proof fn lemma_entry_push(s: Seq<MetadataEntry>, e: MetadataEntry)
    requires
        ids_unique(s),
        !has_id(s, e.id@),
    ensures
        ids_unique(s.push(e)),
        entries_view(s.push(e)) == entries_view(s).insert(e.id@, e.url@),
{
    let t = s.push(e);
    assert forall|i: int, j: int| 0 <= i < t.len() && 0 <= j < t.len() && t[i].id@ == t[j].id@ implies i == j by {
        if i < s.len() && j == s.len() {
            assert(s[i].id@ == e.id@);
        }
        if j < s.len() && i == s.len() {
            assert(s[j].id@ == e.id@);
        }
    }
    assert forall|k: Seq<char>| #[trigger] has_id(t, k) == (has_id(s, k) || k == e.id@) by {
        if has_id(s, k) {
            let i = choose|i: int| 0 <= i < s.len() && #[trigger] s[i].id@ == k;
            assert(t[i].id@ == k);
        }
        if k == e.id@ {
            assert(t[s.len() as int].id@ == k);
        }
        if has_id(t, k) && k != e.id@ {
            let i = choose|i: int| 0 <= i < t.len() && #[trigger] t[i].id@ == k;
            assert(s[i].id@ == k);
        }
    }
    let m = entries_view(t);
    let n = entries_view(s).insert(e.id@, e.url@);
    assert forall|k: Seq<char>| m.contains_key(k) implies m[k] == n[k] by {
        let i = choose|i: int| 0 <= i < t.len() && #[trigger] t[i].id@ == k;
        lemma_entry_lookup(t, i);
        if i < s.len() {
            lemma_entry_lookup(s, i);
        }
    }
    assert(m =~= n);
}

proof fn lemma_entry_replace(s: Seq<MetadataEntry>, i: int, e: MetadataEntry)
    requires
        ids_unique(s),
        0 <= i < s.len(),
        s[i].id@ == e.id@,
    ensures
        ids_unique(s.update(i, e)),
        entries_view(s.update(i, e)) == entries_view(s).insert(e.id@, e.url@),
{
    let t = s.update(i, e);
    assert forall|a: int, b: int| 0 <= a < t.len() && 0 <= b < t.len() && t[a].id@ == t[b].id@ implies a == b by {
        assert(s[a].id@ == t[a].id@);
        assert(s[b].id@ == t[b].id@);
    }
    assert forall|k: Seq<char>| #[trigger] has_id(t, k) == has_id(s, k) by {
        if has_id(s, k) {
            let j = choose|j: int| 0 <= j < s.len() && #[trigger] s[j].id@ == k;
            assert(t[j].id@ == k);
        }
        if has_id(t, k) {
            let j = choose|j: int| 0 <= j < t.len() && #[trigger] t[j].id@ == k;
            assert(s[j].id@ == k);
        }
    }
    lemma_entry_lookup(s, i);
    let m = entries_view(t);
    let n = entries_view(s).insert(e.id@, e.url@);
    assert forall|k: Seq<char>| m.contains_key(k) implies m[k] == n[k] by {
        let j = choose|j: int| 0 <= j < t.len() && #[trigger] t[j].id@ == k;
        lemma_entry_lookup(t, j);
        if j != i {
            lemma_entry_lookup(s, j);
        }
    }
    assert(m =~= n);
}

/// The route the default click policy gives a backend report of `action` on
/// notification `id`, in manager state `m`: the click resolved against the
/// recorded links, routed by [`route_for`] with the link rules' verdict on
/// its URL.
pub open spec fn default_route<C>(m: ManagerModel<C>, id: Seq<char>, action: ActionModel) -> RouteModel {
    let c = m.click_for(id, action);
    route_for(
        c.action,
        c.url,
        match c.url {
            Some(u) => valid_notification_url(u),
            None => false,
        },
    )
}

/// What a backend is asked to render for one notification.
pub struct RenderRequest {
    /// The native notification identifier.
    pub id: String,
    /// The notification title.
    pub title: String,
    /// The notification body.
    pub body: String,
}

/// The registered click callback and the deep link recorded for each
/// notification, keyed by notification identifier.
pub struct NotificationManager<C> {
    callback: Option<C>,
    metadata: Vec<MetadataEntry>,
}

impl<C> View for NotificationManager<C> {
    type V = ManagerModel<C>;

    closed spec fn view(&self) -> ManagerModel<C> {
        ManagerModel { callback: self.callback, metadata: entries_view(self.metadata@) }
    }
}

impl<C> NotificationManager<C> {
    /// One metadata entry per identifier.
    #[verifier::type_invariant]
    spec fn wf(&self) -> bool {
        ids_unique(self.metadata@)
    }

    /// A manager with no callback and no recorded metadata.
    pub fn new() -> (r: Self)
        ensures
            r@.callback is None,
            r@.metadata == Map::<Seq<char>, Seq<char>>::empty(),
    {
        let r = NotificationManager { callback: None, metadata: Vec::new() };
        assert(entries_view(r.metadata@) =~= Map::<Seq<char>, Seq<char>>::empty());
        r
    }

    /// The position of the entry recorded for `id`.
    fn find_entry(&self, id: &str) -> (r: Option<usize>)
        ensures
            match r {
                Some(i) => i < self.metadata@.len() && self.metadata@[i as int].id@ == id@,
                None => !has_id(self.metadata@, id@),
            },
    {
        let mut i: usize = 0;
        while i < self.metadata.len()
            invariant
                0 <= i <= self.metadata@.len(),
                forall|j: int| 0 <= j < i ==> self.metadata@[j].id@ != id@,
            decreases self.metadata@.len() - i,
        {
            if text_eq(self.metadata[i].id.as_str(), id) {
                return Some(i);
            }
            i = i + 1;
        }
        None
    }

    /// Installs `callback`, replacing any callback registered before.
    pub fn set_callback(&mut self, callback: C)
        ensures
            final(self)@ == old(self)@.with_callback(callback),
    {
        proof {
            use_type_invariant(&*self);
        }
        self.callback = Some(callback);
    }

    /// The registered callback.
    pub fn callback(&self) -> (r: Option<&C>)
        ensures
            (r is Some) == (self@.callback is Some),
            r matches Some(c) ==> *c == self@.callback->0,
    {
        self.callback.as_ref()
    }

    /// Records `url` as the deep link of notification `id`.
    pub fn store_metadata(&mut self, id: String, url: String)
        ensures
            final(self)@ == old(self)@.with_link(id@, url@),
    {
        proof {
            use_type_invariant(&*self);
        }
        let e = MetadataEntry { id, url };
        let found = self.find_entry(e.id.as_str());
        let mut entries: Vec<MetadataEntry> = Vec::new();
        std::mem::swap(&mut entries, &mut self.metadata);
        match found {
            Some(i) => {
                proof {
                    lemma_entry_replace(entries@, i as int, e);
                }
                entries.set(i, e);
            },
            None => {
                proof {
                    lemma_entry_push(entries@, e);
                }
                entries.push(e);
            },
        }
        self.metadata = entries;
    }

    /// The deep link recorded for notification `id`.
    pub fn get_metadata(&self, id: &str) -> (r: Option<String>)
        ensures
            opt_text(r) == self@.link_of(id@),
    {
        proof {
            use_type_invariant(self);
        }
        match self.find_entry(id) {
            Some(i) => {
                proof {
                    lemma_entry_lookup(self.metadata@, i as int);
                }
                Some(self.metadata[i].url.clone())
            },
            None => None,
        }
    }

    /// Shows notification `id`: records `url` as its deep link, when there is
    /// one, and only then hands back what the backend must render, so that a
    /// click arriving as soon as the notification is on screen finds its link.
    pub fn show_notification(&mut self, id: String, title: String, body: String, url: Option<String>) -> (r: RenderRequest)
        ensures
            final(self)@ == old(self)@.shown(id@, opt_text(url)),
            r.id@ == id@,
            r.title@ == title@,
            r.body@ == body@,
    {
        match url {
            Some(u) => {
                let key = id.clone();
                self.store_metadata(key, u);
            },
            None => {},
        }
        RenderRequest { id, title, body }
    }

    /// The click event for a backend report of `action` on notification `id`,
    /// with the deep link recorded for `id`.
    pub fn resolve_click(&self, id: String, action: ClickAction) -> (r: NotificationClick)
        ensures
            r@ == self@.click_for(id@, action@),
    {
        let url = self.get_metadata(id.as_str());
        NotificationClick { id, url, action }
    }

    /// The click event for a backend report of `action` on notification `id`,
    /// and the callback it goes to, if one is registered. A host that shares
    /// the manager behind a lock reads both under the lock and calls the
    /// callback after releasing it, so that the callback may use the manager.
    pub fn prepare_dispatch(&self, id: String, action: ClickAction) -> (r: (NotificationClick, Option<&C>))
        ensures
            r.0@ == self@.click_for(id@, action@),
            (r.1 is Some) == (self@.callback is Some),
            r.1 matches Some(c) ==> *c == self@.callback->0,
    {
        (self.resolve_click(id, action), self.callback.as_ref())
    }

    /// Resolves a backend report of `action` on notification `id` and routes
    /// the click by the default click policy.
    pub fn route_default_click(&self, id: String, action: ClickAction) -> (r: ClickRoute)
        ensures
            r@ == default_route(self@, id@, action@),
    {
        route_click(self.resolve_click(id, action))
    }
}

impl<C: Fn(NotificationClick)> NotificationManager<C> {
    /// Resolves a backend report of `action` on notification `id` and hands the
    /// click to the registered callback; with no callback registered the click
    /// is dropped. Returns whether a callback ran.
    pub fn handle_click(&self, id: String, action: ClickAction) -> (dispatched: bool)
        requires
            self@.callback matches Some(cb) ==> forall|c: NotificationClick| cb.requires((c,)),
        ensures
            dispatched == (self@.callback is Some),
            self@.callback matches Some(cb) ==> exists|c: NotificationClick|
                c@ == self@.click_for(id@, action@) && #[trigger] cb.ensures((c,), ()),
    {
        let (click, callback) = self.prepare_dispatch(id, action);
        match callback {
            Some(cb) => {
                let ghost c = click;
                cb(click);
                assert(cb.ensures((c,), ()));
                true
            },
            None => false,
        }
    }
}

} // verus!

verus! {

/// A place for the process's notification manager that is filled at most
/// once; before that, every lookup finds nothing.
pub struct ManagerSlot<T> {
    value: Option<T>,
}

impl<T> ManagerSlot<T> {
    /// What the slot holds.
    pub closed spec fn contents(&self) -> Option<T> {
        self.value
    }

    /// An empty slot.
    pub fn new() -> (r: Self)
        ensures
            r.contents() is None,
    {
        ManagerSlot { value: None }
    }

    /// Fills the slot with `value` if it is empty; a slot that is already
    /// filled keeps its first value. Returns whether `value` was stored.
    pub fn init(&mut self, value: T) -> (installed: bool)
        ensures
            installed == (old(self).contents() is None),
            final(self).contents() == (if installed {
                Some(value)
            } else {
                old(self).contents()
            }),
    {
        if self.value.is_none() {
            self.value = Some(value);
            true
        } else {
            false
        }
    }

    /// The value stored by `init`; `None`, every time, before that.
    pub fn get(&self) -> (r: Option<&T>)
        ensures
            (r is Some) == (self.contents() is Some),
            r matches Some(v) ==> *v == self.contents()->0,
    {
        self.value.as_ref()
    }
}

} // verus!

verus! {

/// A click reported for a notification right after it was shown with a URL
/// resolves to that URL, whatever the kind of click.
pub proof fn lemma_shown_link_resolves<C>(m: ManagerModel<C>, id: Seq<char>, url: Seq<char>, action: ActionModel)
    ensures
        m.shown(id, Some(url)).click_for(id, action).url == Some(url),
{
}

/// A click reported for an identifier with no recorded link resolves to no
/// URL, with the identifier and the kind of click kept.
pub proof fn lemma_unknown_id_resolves_to_none<C>(m: ManagerModel<C>, id: Seq<char>, action: ActionModel)
    requires
        !m.metadata.contains_key(id),
    ensures
        m.click_for(id, action) == (ClickModel { id, url: None, action }),
{
}

/// Of two callbacks registered one after the other, only the second stays
/// registered, and the recorded links are untouched.
pub proof fn lemma_last_callback_wins<C>(m: ManagerModel<C>, first: C, second: C)
    ensures
        m.with_callback(first).with_callback(second).callback == Some(second),
        m.with_callback(first).with_callback(second).metadata == m.metadata,
{
}

/// Showing a notification leaves what a click on any other identifier
/// resolves to as it was, and two notifications with different identifiers
/// may be shown in either order with the same outcome.
pub proof fn lemma_disjoint_ids_independent<C>(
    m: ManagerModel<C>,
    id1: Seq<char>,
    url1: Option<Seq<char>>,
    id2: Seq<char>,
    url2: Option<Seq<char>>,
    action: ActionModel,
)
    requires
        id1 != id2,
    ensures
        m.shown(id1, url1).click_for(id2, action) == m.click_for(id2, action),
        m.shown(id1, url1).shown(id2, url2) == m.shown(id2, url2).shown(id1, url1),
{
    let a = m.shown(id1, url1).shown(id2, url2);
    let b = m.shown(id2, url2).shown(id1, url1);
    assert(a.metadata =~= b.metadata);
}

/// Under the default policy, a click reported right after a notification was
/// shown with a URL leads to that URL: it is emitted where it passes the link
/// rules and rejected otherwise, unless the click is a dismissal.
pub proof fn lemma_shown_link_routes<C>(m: ManagerModel<C>, id: Seq<char>, url: Seq<char>, action: ActionModel)
    requires
        !(action is Dismiss),
    ensures
        default_route(m.shown(id, Some(url)), id, action) == (if valid_notification_url(url) {
            RouteModel::NavigateAndFocus(url)
        } else {
            RouteModel::RejectAndFocus(url)
        }),
{
}

/// Under the default policy, a click on an identifier with no recorded link
/// opens the app without a destination, or does nothing for a dismissal.
pub proof fn lemma_unknown_id_opens_app<C>(m: ManagerModel<C>, id: Seq<char>, action: ActionModel)
    requires
        !m.metadata.contains_key(id),
    ensures
        default_route(m, id, action) == (if action is Dismiss {
            RouteModel::Dismissed
        } else {
            RouteModel::Focus
        }),
{
}

/// Under the default policy, a dismissal never leads to navigation, whatever
/// link was recorded for the notification.
pub proof fn lemma_dismissal_never_navigates<C>(m: ManagerModel<C>, id: Seq<char>)
    ensures
        default_route(m, id, ActionModel::Dismiss) == RouteModel::Dismissed,
{
}

/// Under the default policy, a click navigates exactly when it is no
/// dismissal and the link recorded for its notification passes the link
/// rules; a recorded link that fails them is rejected, never opened.
pub proof fn lemma_navigation_only_to_allowed_links<C>(
    m: ManagerModel<C>,
    id: Seq<char>,
    action: ActionModel,
    url: Seq<char>,
)
    ensures
        (default_route(m, id, action) == RouteModel::NavigateAndFocus(url)) == (!(action is Dismiss) && m.link_of(
            id,
        ) == Some(url) && valid_notification_url(url)),
        (default_route(m, id, action) == RouteModel::RejectAndFocus(url)) == (!(action is Dismiss) && m.link_of(
            id,
        ) == Some(url) && !valid_notification_url(url)),
{
}

} // verus!
