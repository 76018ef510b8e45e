//! The state of browser sessions. The browser itself (tabs, navigation,
//! page content) is driven outside; a session records what the browser
//! did and decides which page, tab and history entry comes next.
use vstd::prelude::*;
use crate::text::owned;

verus! {

/// The state of one page (tab) of a session.
#[derive(Clone, Debug)]
pub struct PageState {
    pub id: String,
    pub url: String,
    pub title: String,
    pub status: String,
    pub load_time_ms: u64,
}

/// A page state as plain values.
pub struct PageView {
    pub id: Seq<char>,
    pub url: Seq<char>,
    pub title: Seq<char>,
    pub status: Seq<char>,
    pub load_time_ms: u64,
}

impl View for PageState {
    type V = PageView;

    open spec fn view(&self) -> PageView {
        PageView {
            id: self.id@,
            url: self.url@,
            title: self.title@,
            status: self.status@,
            load_time_ms: self.load_time_ms,
        }
    }
}

impl PageState {
    /// A copy of the page state.
    pub fn duplicate(&self) -> (r: Self)
        ensures
            r@ == self@,
    {
        PageState {
            id: self.id.clone(),
            url: self.url.clone(),
            title: self.title.clone(),
            status: self.status.clone(),
            load_time_ms: self.load_time_ms,
        }
    }
}

/// An entry of the navigation history.
#[derive(Clone, Debug)]
pub struct HistoryEntry {
    pub url: String,
    pub title: String,
}

/// A history entry as plain values.
pub struct HistoryView {
    pub url: Seq<char>,
    pub title: Seq<char>,
}

impl View for HistoryEntry {
    type V = HistoryView;

    open spec fn view(&self) -> HistoryView {
        HistoryView { url: self.url@, title: self.title@ }
    }
}

impl HistoryEntry {
    /// A copy of the entry.
    pub fn duplicate(&self) -> (r: Self)
        ensures
            r@ == self@,
    {
        HistoryEntry { url: self.url.clone(), title: self.title.clone() }
    }
}

/// The views of a sequence of page states.
pub open spec fn pages_view(v: Seq<PageState>) -> Seq<PageView> {
    v.map_values(|p: PageState| p@)
}

/// The views of a sequence of history entries.
pub open spec fn history_view(v: Seq<HistoryEntry>) -> Seq<HistoryView> {
    v.map_values(|h: HistoryEntry| h@)
}

/// The views of a sequence of strings.
pub open spec fn ids_view(v: Seq<String>) -> Seq<Seq<char>> {
    v.map_values(|s: String| s@)
}

/// The views of an optional string.
pub open spec fn opt_str(o: Option<String>) -> Option<Seq<char>> {
    match o {
        Some(s) => Some(s@),
        None => None,
    }
}

/// The history after recording a navigation to `entry` from position
/// `index`: the entries after the current one are dropped, then the new
/// entry is appended.
pub open spec fn history_after_visit(h: Seq<HistoryView>, index: int, entry: HistoryView) -> Seq<HistoryView> {
    if index < h.len() {
        h.take(index + 1).push(entry)
    } else {
        h.push(entry)
    }
}

/// The pages after recording `page`: the first page with the same id is
/// replaced, or `page` is appended when there is none.
pub open spec fn pages_after_update(ps: Seq<PageView>, page: PageView) -> Seq<PageView> {
    if exists|i: int| 0 <= i < ps.len() && ps[i].id == page.id {
        ps.update(first_page_with(ps, page.id), page)
    } else {
        ps.push(page)
    }
}

/// The position of the first page with id `id`.
pub open spec fn first_page_with(ps: Seq<PageView>, id: Seq<char>) -> int {
    choose|i: int| 0 <= i < ps.len() && ps[i].id == id && forall|j: int| 0 <= j < i ==> ps[j].id != id
}


/// The position of the first page with id `id`, if any.
pub fn find_page(pages: &Vec<PageState>, id: &str) -> (r: Option<usize>)
    ensures
        r matches Some(i) ==> i < pages@.len() && pages@[i as int].id@ == id@
            && forall|j: int| 0 <= j < i ==> pages@[j].id@ != id@,
        r is None ==> forall|j: int| 0 <= j < pages@.len() ==> pages@[j].id@ != id@,
{
    let mut i: usize = 0;
    while i < pages.len()
        invariant
            i <= pages@.len(),
            forall|j: int| 0 <= j < i ==> pages@[j].id@ != id@,
        decreases pages@.len() - i,
    {
        if crate::text::str_equal(pages[i].id.as_str(), id) {
            return Some(i);
        }
        i = i + 1;
    }
    None
}

/// What a new tab shows.
pub enum NewTabTarget {
    /// The tab loads this URL and shows what the browser loaded.
    Load(String),
    /// The tab shows the blank page, with this URL and title.
    Blank { url: String, title: String },
}

/// What a tab opened with `url` shows: a given URL other than
/// `about:blank` is loaded; without a URL, or with `about:blank`, the tab
/// shows the blank page `about:blank` titled "New Tab".
pub fn new_tab_target(url: Option<&str>) -> (r: NewTabTarget)
    ensures
        match url {
            Some(u) => u@ != "about:blank"@ ==> (r matches NewTabTarget::Load(v) && v@ == u@),
            None => true,
        },
        (url is None || url->Some_0@ == "about:blank"@) ==> (r matches NewTabTarget::Blank { url: b, title }
            && b@ == "about:blank"@ && title@ == "New Tab"@),
{
    match url {
        Some(u) => {
            if !crate::text::str_equal(u, "about:blank") {
                return NewTabTarget::Load(owned(u));
            }
        },
        None => {},
    }
    NewTabTarget::Blank { url: owned("about:blank"), title: owned("New Tab") }
}

/// The position of `id` among `ids`, if it is there.
pub fn find_id(ids: &Vec<String>, id: &str) -> (r: Option<usize>)
    ensures
        r matches Some(i) ==> i < ids@.len() && ids@[i as int]@ == id@,
        r is None ==> !ids_view(ids@).contains(id@),
{
    let mut i: usize = 0;
    while i < ids.len()
        invariant
            i <= ids@.len(),
            forall|j: int| 0 <= j < i ==> ids@[j]@ != id@,
        decreases ids@.len() - i,
    {
        if crate::text::str_equal(ids[i].as_str(), id) {
            return Some(i);
        }
        i = i + 1;
    }
    proof {
        if ids_view(ids@).contains(id@) {
            let j = choose|j: int| 0 <= j < ids_view(ids@).len() && ids_view(ids@)[j] == id@;
            assert(ids@[j]@ == id@);
        }
    }
    None
}

/// Records `page` in `pages` (see `pages_after_update`).
fn upsert_page(pages: &mut Vec<PageState>, page: PageState)
    ensures
        pages_view(final(pages)@) == pages_after_update(pages_view(old(pages)@), page@),
{
    let ghost ps = pages_view(pages@);
    match find_page(pages, page.id.as_str()) {
        Some(i) => {
            proof {
                assert(ps[i as int].id == page@.id);
                let c = first_page_with(ps, page@.id);
                assert(0 <= c < ps.len() && ps[c].id == page@.id && forall|j: int| 0 <= j < c ==> ps[j].id != page@.id) by {
                    assert(forall|j: int| 0 <= j < i ==> ps[j].id != page@.id);
                }
                if c < i {
                    assert(ps[c].id != page@.id);
                } else if c > i {
                    assert(ps[i as int].id != page@.id);
                }
            }
            let ghost pv = page@;
            pages.set(i, page);
            assert(pages_view(pages@) =~= ps.update(i as int, pv));
        },
        None => {
            let ghost pv = page@;
            pages.push(page);
            assert(pages_view(pages@) =~= ps.push(pv));
        },
    }
}

/// Why a session operation was refused.
#[derive(Debug, PartialEq, Eq, Structural)]
pub enum SessionError {
    /// No tab of the session has this id.
    TabNotFound,
    /// The session has no history entry before the current one.
    NoBackHistory,
    /// The session has no history entry after the current one.
    NoForwardHistory,
    /// The session has no page to reload.
    NoActivePage,
}

/// What a navigation needs before the browser can load the page.
pub struct NavigationStart {
    /// A tab must be opened first.
    pub open_tab: bool,
    /// The active tab must be registered under `page_id`.
    pub register_tab: bool,
    /// The page being navigated.
    pub page_id: String,
}

/// A browser session: its pages, active page, tabs and navigation history.
pub struct BrowserSession {
    pub id: String,
    pub profile_id: Option<String>,
    pub proxy: Option<String>,
    pub stealth_level: String,
    /// All tabs' page metadata.
    pub pages: Vec<PageState>,
    /// The id of the active page.
    pub current_page: Option<String>,
    /// The navigation history.
    pub history: Vec<HistoryEntry>,
    /// The current position in the history.
    pub history_index: usize,
    /// Whether a browser tab is active.
    pub has_tab: bool,
    /// The page ids that have a registered tab, in registration order.
    pub tabs: Vec<String>,
}

impl BrowserSession {
    /// No page id has two registered tabs.
    pub open spec fn well_formed(&self) -> bool {
        &&& ids_view(self.tabs@).no_duplicates()
        &&& history_position(self.history@.len(), self.history_index as nat)
    }

    /// A session with no pages, tabs or history.
    pub fn new(id: String, profile_id: Option<String>, proxy: Option<String>, stealth_level: String) -> (r: Self)
        ensures
            r.id@ == id@,
            opt_str(r.profile_id) == opt_str(profile_id),
            opt_str(r.proxy) == opt_str(proxy),
            r.stealth_level@ == stealth_level@,
            r.pages@.len() == 0,
            r.current_page is None,
            r.history@.len() == 0,
            r.history_index == 0,
            !r.has_tab,
            r.tabs@.len() == 0,
            r.well_formed(),
    {
        BrowserSession {
            id,
            profile_id,
            proxy,
            stealth_level,
            pages: Vec::new(),
            current_page: None,
            history: Vec::new(),
            history_index: 0,
            has_tab: false,
            tabs: Vec::new(),
        }
    }

    /// Registers `id` as having a tab, unless it already has one.
    fn register_tab(&mut self, id: &str)
        requires
            old(self).well_formed(),
        ensures
            final(self).well_formed(),
            ids_view(final(self).tabs@) == (if ids_view(old(self).tabs@).contains(id@) {
                ids_view(old(self).tabs@)
            } else {
                ids_view(old(self).tabs@).push(id@)
            }),
            final(self).pages@ == old(self).pages@,
            final(self).history@ == old(self).history@,
            final(self).history_index == old(self).history_index,
            final(self).current_page == old(self).current_page,
            final(self).has_tab == old(self).has_tab,
    {
        match find_id(&self.tabs, id) {
            Some(i) => {
                assert(ids_view(self.tabs@)[i as int] == id@);
            },
            None => {
                let ghost before = ids_view(self.tabs@);
                self.tabs.push(owned(id));
                assert(ids_view(self.tabs@) =~= before.push(id@));
            },
        }
    }

    /// Prepares a navigation: when no tab is active, a tab is opened and
    /// registered under the fresh id `fresh_id`, which becomes the current
    /// page; when a tab is active but no page is current, the active tab is
    /// registered under `fresh_id`, which becomes current. The page being
    /// navigated is the current page.
    pub fn begin_navigation(&mut self, fresh_id: &str) -> (r: NavigationStart)
        requires
            old(self).well_formed(),
        ensures
            final(self).well_formed(),
            r.open_tab == !old(self).has_tab,
            r.register_tab == (!old(self).has_tab || old(self).current_page is None),
            r.page_id@ == (if r.register_tab { fresh_id@ } else { old(self).current_page->Some_0@ }),
            opt_str(final(self).current_page) == Some(r.page_id@),
            final(self).has_tab,
            r.register_tab ==> ids_view(final(self).tabs@).contains(fresh_id@),
            !r.register_tab ==> final(self).tabs@ == old(self).tabs@,
            final(self).pages@ == old(self).pages@,
            final(self).history@ == old(self).history@,
            final(self).history_index == old(self).history_index,
    {
        let open_tab = !self.has_tab;
        let register = open_tab || self.current_page.is_none();
        if register {
            self.register_tab(fresh_id);
            self.current_page = Some(owned(fresh_id));
            self.has_tab = true;
            proof {
                if ids_view(old(self).tabs@).contains(fresh_id@) {
                } else {
                    assert(ids_view(self.tabs@).last() == fresh_id@);
                }
            }
            NavigationStart { open_tab, register_tab: true, page_id: owned(fresh_id) }
        } else {
            let page_id = match &self.current_page {
                Some(p) => p.clone(),
                None => owned(fresh_id),
            };
            NavigationStart { open_tab, register_tab: false, page_id }
        }
    }

    /// Opens a new tab as page `page_id`: the new tab becomes the active
    /// tab and `page_id` the current page.
    pub fn register_new_tab(&mut self, page_id: &str)
        requires
            old(self).well_formed(),
        ensures
            final(self).well_formed(),
            final(self).has_tab,
            opt_str(final(self).current_page) == Some(page_id@),
            ids_view(final(self).tabs@).contains(page_id@),
            final(self).pages@ == old(self).pages@,
            final(self).history@ == old(self).history@,
            final(self).history_index == old(self).history_index,
    {
        self.register_tab(page_id);
        proof {
            if !ids_view(old(self).tabs@).contains(page_id@) {
                assert(ids_view(self.tabs@).last() == page_id@);
            }
        }
        self.has_tab = true;
        self.current_page = Some(owned(page_id));
    }

    /// Records the page a new tab loaded; the history is unchanged.
    pub fn record_new_tab(&mut self, page_id: &str, url: &str, title: &str) -> (r: PageState)
        ensures
            old(self).well_formed() ==> final(self).well_formed(),
            r@ == (PageView { id: page_id@, url: url@, title: title@, status: "loaded"@, load_time_ms: 10 }),
            pages_view(final(self).pages@) == pages_view(old(self).pages@).push(r@),
            final(self).history@ == old(self).history@,
            final(self).history_index == old(self).history_index,
            final(self).tabs@ == old(self).tabs@,
            final(self).has_tab == old(self).has_tab,
            final(self).current_page == old(self).current_page,
    {
        let page = PageState {
            id: owned(page_id),
            url: owned(url),
            title: owned(title),
            status: owned("loaded"),
            load_time_ms: 10,
        };
        let ghost before = pages_view(self.pages@);
        self.pages.push(page.duplicate());
        assert(pages_view(self.pages@) =~= before.push(page@));
        page
    }

    /// Makes the tab of page `tab_id` the active tab and `tab_id` the
    /// current page; refused, with nothing changed, when no tab has that id.
    pub fn switch_tab(&mut self, tab_id: &str) -> (r: Result<(), SessionError>)
        ensures
            old(self).well_formed() ==> final(self).well_formed(),
            r is Ok <==> ids_view(old(self).tabs@).contains(tab_id@),
            r is Ok ==> opt_str(final(self).current_page) == Some(tab_id@) && final(self).has_tab,
            r is Err ==> r == Err::<(), SessionError>(SessionError::TabNotFound) && final(self).current_page
                == old(self).current_page && final(self).has_tab == old(self).has_tab,
            final(self).tabs@ == old(self).tabs@,
            final(self).pages@ == old(self).pages@,
            final(self).history@ == old(self).history@,
            final(self).history_index == old(self).history_index,
    {
        match find_id(&self.tabs, tab_id) {
            Some(i) => {
                assert(ids_view(self.tabs@)[i as int] == tab_id@);
                self.has_tab = true;
                self.current_page = Some(owned(tab_id));
                Ok(())
            },
            None => Err(SessionError::TabNotFound),
        }
    }

    /// Closes the current page's tab: its tab registration and its first
    /// page state are removed (the returned id names the tab to close, when
    /// it had one). The first remaining registered tab, if any, becomes
    /// active and current; otherwise no tab is active, no page is current
    /// and all page states are dropped.
    pub fn close_current_tab(&mut self) -> (r: Option<String>)
        requires
            old(self).well_formed(),
        ensures
            final(self).well_formed(),
            ({
                let closing = old(self).current_page;
                let tabs0 = ids_view(old(self).tabs@);
                let tabs1 = match closing {
                    Some(c) => tabs0.remove_value(c@),
                    None => tabs0,
                };
                &&& ids_view(final(self).tabs@) == tabs1
                &&& opt_str(r) == (match closing {
                    Some(c) => if tabs0.contains(c@) { Some(c@) } else { None },
                    None => None,
                })
                &&& if tabs1.len() > 0 {
                    &&& opt_str(final(self).current_page) == Some(tabs1[0])
                    &&& final(self).has_tab
                    &&& pages_view(final(self).pages@) == (match closing {
                        Some(c) => if exists|i: int| 0 <= i < old(self).pages@.len() && old(self).pages@[i].id@ == c@ {
                            pages_view(old(self).pages@).remove(first_page_with(pages_view(old(self).pages@), c@))
                        } else {
                            pages_view(old(self).pages@)
                        },
                        None => pages_view(old(self).pages@),
                    })
                } else {
                    &&& final(self).current_page is None
                    &&& !final(self).has_tab
                    &&& final(self).pages@.len() == 0
                }
            }),
            final(self).history@ == old(self).history@,
            final(self).history_index == old(self).history_index,
    {
        let mut closed: Option<String> = None;
        let ghost tabs0 = ids_view(self.tabs@);
        let ghost ps0 = pages_view(self.pages@);
        match &self.current_page {
            Some(page_id) => {
                let pid = page_id.clone();
                match find_id(&self.tabs, pid.as_str()) {
                    Some(i) => {
                        let ghost idx = i as int;
                        proof {
                            assert(tabs0[idx] == pid@);
                            assert(tabs0.remove_value(pid@) == tabs0.remove(idx)) by {
                                let f = tabs0.index_of_first(pid@);
                                tabs0.index_of_first_ensures(pid@);
                                assert(f == Some(idx)) by {
                                    if f->Some_0 != idx {
                                        assert(tabs0[f->Some_0] == tabs0[idx]);
                                    }
                                }
                            }
                        }
                        let removed = self.tabs.remove(i);
                        assert(ids_view(self.tabs@) =~= tabs0.remove(idx));
                        closed = Some(removed);
                    },
                    None => {
                        proof {
                            tabs0.index_of_first_ensures(pid@);
                            assert(tabs0.remove_value(pid@) == tabs0);
                        }
                    },
                }
                match find_page(&self.pages, pid.as_str()) {
                    Some(i) => {
                        proof {
                            let c = first_page_with(ps0, pid@);
                            assert(ps0[i as int].id == pid@);
                            assert(forall|j: int| 0 <= j < i ==> ps0[j].id != pid@);
                            if c < i {
                                assert(ps0[c].id != pid@);
                            } else if c > i {
                                assert(ps0[i as int].id != pid@);
                            }
                        }
                        self.pages.remove(i);
                        assert(pages_view(self.pages@) =~= ps0.remove(i as int));
                    },
                    None => {},
                }
            },
            None => {},
        }
        proof {
            assert(tabs0.remove_value(Seq::<char>::empty()) == tabs0.remove_value(Seq::<char>::empty()));
        }
        if self.tabs.len() > 0 {
            self.current_page = Some(self.tabs[0].clone());
            self.has_tab = true;
        } else {
            self.current_page = None;
            self.has_tab = false;
            self.pages.clear();
        }
        closed
    }

    /// Moves one entry back in the history: the entry before the current
    /// one becomes current and is returned; refused when the current entry
    /// is the first.
    pub fn step_back(&mut self) -> (r: Result<HistoryEntry, SessionError>)
        requires
            old(self).well_formed(),
        ensures
            final(self).well_formed(),
            back_move(old(self).history_index as nat) == (if r is Ok {
                Some(final(self).history_index as nat)
            } else {
                None
            }),
            r is Ok <==> old(self).history_index > 0,
            r matches Ok(e) ==> final(self).history_index == old(self).history_index - 1
                && e@ == old(self).history@[final(self).history_index as int]@,
            r is Err ==> r == Err::<HistoryEntry, SessionError>(SessionError::NoBackHistory)
                && final(self).history_index == old(self).history_index,
            final(self).history@ == old(self).history@,
            final(self).pages@ == old(self).pages@,
            final(self).tabs@ == old(self).tabs@,
            final(self).has_tab == old(self).has_tab,
            final(self).current_page == old(self).current_page,
    {
        if self.history_index > 0 {
            self.history_index = self.history_index - 1;
            Ok(self.history[self.history_index].duplicate())
        } else {
            Err(SessionError::NoBackHistory)
        }
    }

    /// Moves one entry forward in the history: the entry after the current
    /// one becomes current and is returned; refused when the current entry
    /// is the last.
    pub fn step_forward(&mut self) -> (r: Result<HistoryEntry, SessionError>)
        ensures
            old(self).well_formed() ==> final(self).well_formed(),
            forward_move(old(self).history@.len(), old(self).history_index as nat) == (if r is Ok {
                Some(final(self).history_index as nat)
            } else {
                None
            }),
            r is Ok <==> old(self).history_index + 1 < old(self).history@.len(),
            r matches Ok(e) ==> final(self).history_index == old(self).history_index + 1
                && e@ == old(self).history@[final(self).history_index as int]@,
            r is Err ==> r == Err::<HistoryEntry, SessionError>(SessionError::NoForwardHistory)
                && final(self).history_index == old(self).history_index,
            final(self).history@ == old(self).history@,
            final(self).pages@ == old(self).pages@,
            final(self).tabs@ == old(self).tabs@,
            final(self).has_tab == old(self).has_tab,
            final(self).current_page == old(self).current_page,
    {
        if self.history_index < self.history.len() && self.history_index + 1 < self.history.len() {
            self.history_index = self.history_index + 1;
            Ok(self.history[self.history_index].duplicate())
        } else {
            Err(SessionError::NoForwardHistory)
        }
    }

    /// Records the page the browser shows after moving in the history: the
    /// current page (or, when there is none, the page `fresh_id`) gets the
    /// URL and title shown, and becomes current.
    pub fn record_history_move(&mut self, fresh_id: &str, url: &str, title: &str) -> (r: PageState)
        ensures
            old(self).well_formed() ==> final(self).well_formed(),
            r@ == (PageView {
                id: match old(self).current_page {
                    Some(c) => c@,
                    None => fresh_id@,
                },
                url: url@,
                title: title@,
                status: "loaded"@,
                load_time_ms: 200,
            }),
            pages_view(final(self).pages@) == pages_after_update(pages_view(old(self).pages@), r@),
            opt_str(final(self).current_page) == Some(r@.id),
            final(self).history@ == old(self).history@,
            final(self).history_index == old(self).history_index,
            final(self).tabs@ == old(self).tabs@,
            final(self).has_tab == old(self).has_tab,
    {
        let page_id = match &self.current_page {
            Some(c) => c.clone(),
            None => owned(fresh_id),
        };
        let page = PageState {
            id: page_id.clone(),
            url: owned(url),
            title: owned(title),
            status: owned("loaded"),
            load_time_ms: 200,
        };
        upsert_page(&mut self.pages, page.duplicate());
        self.current_page = Some(page_id);
        page
    }

    /// Records a reload that showed `url` titled `title`: the current page's
    /// state (the first state with the current page's id) takes them and is
    /// returned; refused when no page is current or the current page has no
    /// recorded state.
    pub fn record_reload(&mut self, url: &str, title: &str) -> (r: Result<PageState, SessionError>)
        ensures
            old(self).well_formed() ==> final(self).well_formed(),
            r is Ok <==> (old(self).current_page matches Some(c) && exists|i: int|
                0 <= i < old(self).pages@.len() && old(self).pages@[i].id@ == c@),
            r matches Ok(p) ==> exists|i: int| {
                &&& 0 <= i < old(self).pages@.len()
                &&& old(self).current_page is Some
                &&& (#[trigger] old(self).pages@[i]).id@ == old(self).current_page->Some_0@
                &&& forall|j: int| 0 <= j < i ==> old(self).pages@[j].id@ != old(self).current_page->Some_0@
                &&& p@ == (PageView { url: url@, title: title@, ..old(self).pages@[i]@ })
                &&& pages_view(final(self).pages@) == pages_view(old(self).pages@).update(i, p@)
            },
            r is Err ==> r == Err::<PageState, SessionError>(SessionError::NoActivePage)
                && final(self).pages@ == old(self).pages@,
            final(self).history@ == old(self).history@,
            final(self).history_index == old(self).history_index,
            final(self).tabs@ == old(self).tabs@,
            final(self).has_tab == old(self).has_tab,
            final(self).current_page == old(self).current_page,
    {
        let found = match &self.current_page {
            Some(c) => find_page(&self.pages, c.as_str()),
            None => None,
        };
        let i = match found {
            Some(i) => i,
            None => {
                return Err(SessionError::NoActivePage);
            },
        };
        let old_page = self.pages[i].duplicate();
        let page = PageState {
            id: old_page.id,
            url: owned(url),
            title: owned(title),
            status: old_page.status,
            load_time_ms: old_page.load_time_ms,
        };
        let ghost before = pages_view(self.pages@);
        self.pages.set(i, page.duplicate());
        assert(pages_view(self.pages@) =~= before.update(i as int, page@));
        Ok(page)
    }

    /// The state of the current page, if there is a current page with a
    /// recorded state (the first state with its id).
    pub fn current_page_state(&self) -> (r: Option<&PageState>)
        ensures
            r matches Some(p) ==> self.current_page matches Some(c) && exists|i: int|
                0 <= i < self.pages@.len() && self.pages@[i] == *p && p.id@ == c@
                && forall|j: int| 0 <= j < i ==> self.pages@[j].id@ != c@,
            r is None ==> match self.current_page {
                Some(c) => forall|j: int| 0 <= j < self.pages@.len() ==> self.pages@[j].id@ != c@,
                None => true,
            },
    {
        match &self.current_page {
            Some(id) => match find_page(&self.pages, id.as_str()) {
                Some(i) => Some(&self.pages[i]),
                None => None,
            },
            None => None,
        }
    }

    /// Prepares a navigation as `begin_navigation` does, with a new random
    /// page id for a page that must be registered.
    pub fn start_navigation(&mut self) -> (r: NavigationStart)
        requires
            old(self).well_formed(),
        ensures
            final(self).well_formed(),
            r.open_tab == !old(self).has_tab,
            r.register_tab == (!old(self).has_tab || old(self).current_page is None),
            r.register_tab ==> r.page_id@.len() == 36,
            !r.register_tab ==> r.page_id@ == old(self).current_page->Some_0@,
            opt_str(final(self).current_page) == Some(r.page_id@),
            final(self).has_tab,
            r.register_tab ==> ids_view(final(self).tabs@).contains(r.page_id@),
            !r.register_tab ==> final(self).tabs@ == old(self).tabs@,
            final(self).pages@ == old(self).pages@,
            final(self).history@ == old(self).history@,
            final(self).history_index == old(self).history_index,
    {
        let id = fresh_id();
        self.begin_navigation(id.as_str())
    }

    /// Opens a new tab under a new random page id, which is returned: the
    /// tab becomes the active one and its page the current page.
    pub fn open_tab_page(&mut self) -> (r: String)
        requires
            old(self).well_formed(),
        ensures
            r@.len() == 36,
            final(self).well_formed(),
            final(self).has_tab,
            opt_str(final(self).current_page) == Some(r@),
            ids_view(final(self).tabs@).contains(r@),
            final(self).pages@ == old(self).pages@,
            final(self).history@ == old(self).history@,
            final(self).history_index == old(self).history_index,
    {
        let id = fresh_id();
        self.register_new_tab(id.as_str());
        id
    }

    /// Records the page shown after moving in the history, as
    /// `record_history_move` does, with a new random page id when no page
    /// is current.
    pub fn record_history_step(&mut self, url: &str, title: &str) -> (r: PageState)
        ensures
            old(self).well_formed() ==> final(self).well_formed(),
            old(self).current_page matches Some(c) ==> r@.id == c@,
            old(self).current_page is None ==> r@.id.len() == 36,
            r@.url == url@,
            r@.title == title@,
            r@.status == "loaded"@,
            r@.load_time_ms == 200,
            pages_view(final(self).pages@) == pages_after_update(pages_view(old(self).pages@), r@),
            opt_str(final(self).current_page) == Some(r@.id),
            final(self).history@ == old(self).history@,
            final(self).history_index == old(self).history_index,
            final(self).tabs@ == old(self).tabs@,
            final(self).has_tab == old(self).has_tab,
    {
        let id = fresh_id();
        self.record_history_move(id.as_str(), url, title)
    }

    /// Records a completed navigation of page `page_id` to `requested_url`,
    /// which the browser loaded as `actual_url` titled `title`: the history
    /// drops the entries after the current one and gains the requested URL,
    /// which becomes current; the page state is recorded and its page
    /// becomes current.
    pub fn record_navigation(&mut self, page_id: &str, requested_url: &str, actual_url: &str, title: &str, load_time_ms: u64) -> (r: PageState)
        ensures
            old(self).well_formed() ==> final(self).well_formed(),
            r@ == (PageView { id: page_id@, url: actual_url@, title: title@, status: "loaded"@, load_time_ms }),
            history_view(final(self).history@) == history_after_visit(
                history_view(old(self).history@),
                old(self).history_index as int,
                HistoryView { url: requested_url@, title: title@ },
            ),
            final(self).history_index == final(self).history@.len() - 1,
            pages_view(final(self).pages@) == pages_after_update(pages_view(old(self).pages@), r@),
            opt_str(final(self).current_page) == Some(page_id@),
            final(self).tabs@ == old(self).tabs@,
            final(self).has_tab == old(self).has_tab,
    {
        let page = PageState {
            id: owned(page_id),
            url: owned(actual_url),
            title: owned(title),
            status: owned("loaded"),
            load_time_ms,
        };
        let ghost h = history_view(self.history@);
        if self.history_index < self.history.len() {
            self.history.truncate(self.history_index + 1);
            assert(history_view(self.history@) =~= h.take(old(self).history_index + 1));
        }
        let ghost h2 = history_view(self.history@);
        self.history.push(HistoryEntry { url: owned(requested_url), title: owned(title) });
        assert(history_view(self.history@) =~= h2.push(HistoryView { url: requested_url@, title: title@ }));
        self.history_index = self.history.len() - 1;
        upsert_page(&mut self.pages, page.duplicate());
        self.current_page = Some(owned(page_id));
        page
    }
}


/// Whether `index` is a position a history of `len` entries can stand at:
/// one of its entries, or the start of an empty history.
pub open spec fn history_position(len: nat, index: nat) -> bool {
    index < len || (len == 0 && index == 0)
}

/// Where a move back leads from history position `index`: one entry back,
/// none from the first entry.
pub open spec fn back_move(index: nat) -> Option<nat> {
    if index > 0 {
        Some((index - 1) as nat)
    } else {
        None
    }
}

/// Where a move forward leads from history position `index` in a history
/// of `len` entries: one entry forward, none from the last entry.
pub open spec fn forward_move(len: nat, index: nat) -> Option<nat> {
    if index + 1 < len {
        Some(index + 1)
    } else {
        None
    }
}

/// In every well-formed session, going back and then forward returns to the
/// history entry the session stood at, and going forward and then back does
/// too.
pub proof fn lemma_back_forward_inverse(s: BrowserSession)
    requires
        s.well_formed(),
    ensures
        back_move(s.history_index as nat) matches Some(b) ==> forward_move(s.history@.len(), b)
            == Some(s.history_index as nat),
        forward_move(s.history@.len(), s.history_index as nat) matches Some(f) ==> back_move(f)
            == Some(s.history_index as nat),
{
}

proof fn lemma_first_with_from(ps: Seq<PageView>, id: Seq<char>, lo: int) -> (i: int)
    requires
        0 <= lo <= ps.len(),
        forall|j: int| 0 <= j < lo ==> ps[j].id != id,
        exists|i: int| lo <= i < ps.len() && ps[i].id == id,
    ensures
        0 <= i < ps.len() && ps[i].id == id && forall|j: int| 0 <= j < i ==> ps[j].id != id,
    decreases ps.len() - lo,
{
    if ps[lo].id == id {
        lo
    } else {
        lemma_first_with_from(ps, id, lo + 1)
    }
}

/// Recording a page state leaves it as the first state with its id, so
/// that reading the current page gives it back; every state of another page
/// stays where it was, and the list grows only when the id is new.
pub proof fn lemma_page_update_reads_back(ps: Seq<PageView>, page: PageView)
    ensures
        ({
            let r = pages_after_update(ps, page);
            &&& exists|i: int| 0 <= i < r.len() && r[i] == page && forall|j: int| 0 <= j < i ==> #[trigger] r[j].id != page.id
            &&& forall|j: int| 0 <= j < ps.len() && ps[j].id != page.id ==> #[trigger] r[j] == ps[j]
            &&& r.len() == (if exists|i: int| 0 <= i < ps.len() && ps[i].id == page.id { ps.len() } else { ps.len() + 1 })
        }),
{
    let r = pages_after_update(ps, page);
    if exists|i: int| 0 <= i < ps.len() && ps[i].id == page.id {
        let w = lemma_first_with_from(ps, page.id, 0);
        let f = first_page_with(ps, page.id);
        assert(0 <= f < ps.len() && ps[f].id == page.id && forall|j: int| 0 <= j < f ==> ps[j].id != page.id);
        assert(f == w) by {
            if f < w {
                assert(ps[f].id != page.id);
            } else if w < f {
                assert(ps[w].id != page.id);
            }
        }
        assert(r[f] == page);
        assert(forall|j: int| 0 <= j < f ==> r[j] == ps[j]);
    } else {
        assert(r[ps.len() as int] == page);
        assert(forall|j: int| 0 <= j < ps.len() ==> r[j] == ps[j]);
    }
}

/// After a navigation the visited entry is the last and current one, the
/// entries that followed the former position are gone, and there is no
/// entry to move forward to.
pub proof fn lemma_visit_ends_history(h: Seq<HistoryView>, index: int, entry: HistoryView)
    requires
        0 <= index <= h.len(),
    ensures
        ({
            let h2 = history_after_visit(h, index, entry);
            &&& h2.last() == entry
            &&& forward_move(h2.len(), (h2.len() - 1) as nat) is None
            &&& h2.drop_last() == (if index < h.len() { h.take(index + 1) } else { h })
            &&& (back_move((h2.len() - 1) as nat) is Some <==> h2.len() > 1)
        }),
{
    let h2 = history_after_visit(h, index, entry);
    if index < h.len() {
        assert(h2.drop_last() =~= h.take(index + 1));
    } else {
        assert(h2.drop_last() =~= h);
    }
}

/// A new random id for a session or a page: a version 4 UUID made by
/// `uuid::Uuid::new_v4`, in the hyphenated text form its `Display` writes.
/// The contract claims only the length of that form (36 characters); the
/// value is random.
#[verifier::external_body]
fn fresh_id() -> (r: String)
    ensures
        r@.len() == 36,
{
    uuid::Uuid::new_v4().to_string()
}

/// The browser sessions of a server, keyed by session id.
pub struct SessionManager {
    /// The sessions, in creation order.
    pub sessions: Vec<BrowserSession>,
    /// Whether the browser has been launched.
    pub browser_launched: bool,
    /// The server metrics the manager keeps up to date.
    pub metrics: crate::observability::Metrics,
}

/// The stealth level a profile gives a session: its own, or "high"
/// without a profile.
pub open spec fn profile_level(profile: Option<(Option<String>, String)>) -> Seq<char> {
    match profile {
        Some(p) => p.1@,
        None => "high"@,
    }
}

/// The ids of a sequence of sessions.
pub open spec fn session_ids(v: Seq<BrowserSession>) -> Seq<Seq<char>> {
    v.map_values(|s: BrowserSession| s.id@)
}

impl SessionManager {
    /// Session ids are unique, every session is well formed, and the
    /// active-session metric counts the sessions.
    pub open spec fn well_formed(&self) -> bool {
        &&& session_ids(self.sessions@).no_duplicates()
        &&& forall|i: int| 0 <= i < self.sessions@.len() ==> (#[trigger] self.sessions@[i]).well_formed()
        &&& self.metrics.active_sessions == self.sessions@.len()
    }

    /// A manager with no sessions and no browser.
    pub fn new() -> (r: Self)
        ensures
            r.well_formed(),
            r.sessions@.len() == 0,
            !r.browser_launched,
    {
        SessionManager { sessions: Vec::new(), browser_launched: false, metrics: crate::observability::Metrics::new() }
    }

    /// Records that the browser has been launched.
    pub fn mark_browser_launched(&mut self)
        ensures
            final(self).browser_launched,
            final(self).sessions@ == old(self).sessions@,
            final(self).metrics == old(self).metrics,
    {
        self.browser_launched = true;
    }

    /// The position of the session with id `session_id`, if any.
    pub fn position(&self, session_id: &str) -> (r: Option<usize>)
        ensures
            r matches Some(i) ==> i < self.sessions@.len() && self.sessions@[i as int].id@ == session_id@,
            r is None ==> !session_ids(self.sessions@).contains(session_id@),
    {
        let mut i: usize = 0;
        while i < self.sessions.len()
            invariant
                i <= self.sessions@.len(),
                forall|j: int| 0 <= j < i ==> self.sessions@[j].id@ != session_id@,
            decreases self.sessions@.len() - i,
        {
            if crate::text::str_equal(self.sessions[i].id.as_str(), session_id) {
                return Some(i);
            }
            i = i + 1;
        }
        proof {
            if session_ids(self.sessions@).contains(session_id@) {
                let j = choose|j: int| 0 <= j < self.sessions@.len() && session_ids(self.sessions@)[j] == session_id@;
                assert(self.sessions@[j].id@ == session_id@);
            }
        }
        None
    }

    /// Adds the session `session_id` (replacing a session with the same id),
    /// with the proxy and stealth level of its profile when one was found,
    /// and stealth "high" otherwise; the active-session metric follows.
    pub fn create_session(&mut self, session_id: &str, profile_id: Option<String>, profile: Option<(Option<String>, String)>) -> (r: String)
        requires
            old(self).well_formed(),
            old(self).sessions@.len() < i64::MAX,
        ensures
            final(self).well_formed(),
            r@ == session_id@,
            session_ids(final(self).sessions@).contains(session_id@),
            final(self).browser_launched == old(self).browser_launched,
            final(self).metrics.navigations_total == old(self).metrics.navigations_total,
            session_ids(old(self).sessions@).contains(session_id@) ==> final(self).sessions@.len() == old(self).sessions@.len(),
            !session_ids(old(self).sessions@).contains(session_id@) ==> final(self).sessions@.len() == old(self).sessions@.len() + 1,
            forall|i: int| 0 <= i < final(self).sessions@.len() && final(self).sessions@[i].id@ == session_id@
                ==> ({
                    let s = #[trigger] final(self).sessions@[i];
                    &&& opt_str(s.profile_id) == opt_str(profile_id)
                    &&& s.stealth_level@ == profile_level(profile)
                    &&& s.pages@.len() == 0
                    &&& s.history@.len() == 0
                    &&& !s.has_tab
                }),
    {
        let ghost expected_level = profile_level(profile);
        let (proxy, stealth_level) = match profile {
            Some(p) => (p.0, p.1),
            None => (None, owned("high")),
        };
        assert(stealth_level@ == expected_level);
        let session = BrowserSession::new(owned(session_id), profile_id, proxy, stealth_level);
        let ghost sv = session;
        let ghost ids0 = session_ids(self.sessions@);
        let ghost old_sessions = self.sessions@;
        match self.position(session_id) {
            Some(i) => {
                self.sessions.set(i, session);
                assert(session_ids(self.sessions@) =~= ids0.update(i as int, session_id@));
                assert(ids0[i as int] == session_id@);
                assert(session_ids(self.sessions@) =~= ids0);
                assert(session_ids(self.sessions@)[i as int] == session_id@);
                proof {
                    assert forall|j: int| 0 <= j < self.sessions@.len() && self.sessions@[j].id@ == session_id@ implies j == i by {
                        assert(ids0[j] == ids0[i as int]);
                    }
                }
            },
            None => {
                self.sessions.push(session);
                assert(session_ids(self.sessions@) =~= ids0.push(session_id@));
                assert(session_ids(self.sessions@)[ids0.len() as int] == session_id@);
                proof {
                    assert forall|j: int| 0 <= j < self.sessions@.len() && self.sessions@[j].id@ == session_id@ implies j == ids0.len() by {
                        if j < ids0.len() {
                            assert(ids0[j] == session_id@);
                            assert(ids0.contains(session_id@));
                        }
                    }
                }
            },
        }
        assert(forall|j: int| 0 <= j < self.sessions@.len() && self.sessions@[j].id@ == session_id@ ==> self.sessions@[j] == sv);
        assert forall|j: int| 0 <= j < self.sessions@.len() implies (#[trigger] self.sessions@[j]).well_formed() by {
            if self.sessions@[j] != sv {
                assert(old_sessions.contains(self.sessions@[j]) || self.sessions@[j] == sv);
            }
        }
        crate::observability::set_active_sessions(&mut self.metrics, self.sessions.len() as i64);
        owned(session_id)
    }

    /// Removes and returns the session `session_id`, if there is one; the
    /// active-session metric follows.
    pub fn remove_session(&mut self, session_id: &str) -> (r: Option<BrowserSession>)
        requires
            old(self).well_formed(),
        ensures
            final(self).well_formed(),
            r is Some <==> session_ids(old(self).sessions@).contains(session_id@),
            r matches Some(s) ==> s.id@ == session_id@,
            session_ids(final(self).sessions@) == session_ids(old(self).sessions@).remove_value(session_id@),
            final(self).browser_launched == old(self).browser_launched,
    {
        let ghost ids0 = session_ids(self.sessions@);
        match self.position(session_id) {
            Some(i) => {
                proof {
                    assert(ids0[i as int] == session_id@);
                    let f = ids0.index_of_first(session_id@);
                    ids0.index_of_first_ensures(session_id@);
                    if f->Some_0 != i as int {
                        assert(ids0[f->Some_0] == ids0[i as int]);
                    }
                }
                let s = self.sessions.remove(i);
                assert(session_ids(self.sessions@) =~= ids0.remove(i as int));
                crate::observability::set_active_sessions(&mut self.metrics, self.sessions.len() as i64);
                Some(s)
            },
            None => {
                proof {
                    ids0.index_of_first_ensures(session_id@);
                }
                None
            },
        }
    }

    /// The session `session_id`, if there is one.
    pub fn get_session(&self, session_id: &str) -> (r: Option<&BrowserSession>)
        ensures
            r is Some <==> session_ids(self.sessions@).contains(session_id@),
            r matches Some(s) ==> s.id@ == session_id@ && self.sessions@.contains(*s),
    {
        match self.position(session_id) {
            Some(i) => {
                assert(session_ids(self.sessions@)[i as int] == session_id@);
                Some(&self.sessions[i])
            },
            None => None,
        }
    }

    /// The id of the first session, if there is one.
    pub fn first_session_id(&self) -> (r: Option<String>)
        ensures
            r is Some <==> self.sessions@.len() > 0,
            r matches Some(id) ==> id@ == self.sessions@[0].id@,
    {
        if self.sessions.len() > 0 {
            Some(self.sessions[0].id.clone())
        } else {
            None
        }
    }

    /// Creates a session under a new random id, as `create_session` does,
    /// and returns the id.
    pub fn open_session(&mut self, profile_id: Option<String>, profile: Option<(Option<String>, String)>) -> (r: String)
        requires
            old(self).well_formed(),
            old(self).sessions@.len() < i64::MAX,
        ensures
            final(self).well_formed(),
            r@.len() == 36,
            session_ids(final(self).sessions@).contains(r@),
            final(self).browser_launched == old(self).browser_launched,
            final(self).metrics.navigations_total == old(self).metrics.navigations_total,
            session_ids(old(self).sessions@).contains(r@) ==> final(self).sessions@.len() == old(self).sessions@.len(),
            !session_ids(old(self).sessions@).contains(r@) ==> final(self).sessions@.len() == old(self).sessions@.len() + 1,
            forall|i: int| 0 <= i < final(self).sessions@.len() && final(self).sessions@[i].id@ == r@
                ==> ({
                    let s = #[trigger] final(self).sessions@[i];
                    &&& opt_str(s.profile_id) == opt_str(profile_id)
                    &&& s.stealth_level@ == profile_level(profile)
                    &&& s.pages@.len() == 0
                    &&& s.history@.len() == 0
                    &&& !s.has_tab
                }),
    {
        let id = fresh_id();
        self.create_session(id.as_str(), profile_id, profile)
    }

    /// Closes everything: the browser is dropped, all sessions are removed
    /// and the active-session metric is zero.
    pub fn shutdown(&mut self)
        ensures
            final(self).well_formed(),
            final(self).sessions@.len() == 0,
            !final(self).browser_launched,
            final(self).metrics.active_sessions == 0,
    {
        self.browser_launched = false;
        self.sessions.clear();
        crate::observability::set_active_sessions(&mut self.metrics, 0);
    }
}


/// Removing a session leaves no session with its id: ids are unique, so
/// the one occurrence removed was the only one; the other ids stay.
pub proof fn lemma_removed_session_gone(ids: Seq<Seq<char>>, id: Seq<char>, other: Seq<char>)
    requires
        ids.no_duplicates(),
    ensures
        !ids.remove_value(id).contains(id),
        other != id ==> (ids.remove_value(id).contains(other) <==> ids.contains(other)),
{
    if ids.contains(id) {
        let f = ids.index_of_first(id);
        ids.index_of_first_ensures(id);
        let r = ids.remove_value(id);
        assert(r == ids.remove(f->0));
        assert forall|k: int| 0 <= k < r.len() implies r[k] != id by {
            if k < f->0 {
                assert(r[k] == ids[k]);
            } else {
                assert(r[k] == ids[k + 1]);
            }
        }
        assert forall|x: Seq<char>| x != id implies (r.contains(x) <==> ids.contains(x)) by {
            if ids.contains(x) {
                let k = choose|k: int| 0 <= k < ids.len() && ids[k] == x;
                if k < f->0 {
                    assert(r[k] == x);
                } else {
                    assert(k != f->0);
                    assert(r[k - 1] == x);
                }
            }
            if r.contains(x) {
                let k = choose|k: int| 0 <= k < r.len() && r[k] == x;
                if k < f->0 {
                    assert(ids[k] == x);
                } else {
                    assert(ids[k + 1] == x);
                }
            }
        }
    } else {
        ids.index_of_first_ensures(id);
        assert(ids.index_of_first(id) is None);
        assert(ids.remove_value(id) == ids);
    }
}

} // verus!
