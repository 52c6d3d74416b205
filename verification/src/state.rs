//! The registry of open tabs: which tabs exist, which one is active, and what
//! each of them currently shows.

use vstd::prelude::*;
use vstd::string::StringExecFns;
use std::collections::HashMap;
use std::collections::hash_map::Entry;
use crate::text::{decimal, extract_title, push_decimal, title_of};

verus! {

broadcast use vstd::std_specs::hash::group_hash_axioms;

/// Identifier of a tab, unique for the lifetime of a registry.
pub type TabId = usize;

/// What one tab currently shows.
#[derive(Debug)]
pub struct TabState {
    /// Identifier of the tab.
    pub id: TabId,
    /// Address of the current page.
    pub url: String,
    /// Title of the current page.
    pub title: String,
    /// Whether the tab's history has an older entry.
    pub can_go_back: bool,
    /// Whether the tab's history has a newer entry.
    pub can_go_forward: bool,
    /// Whether the renderer is still loading the page.
    pub is_loading: bool,
}

impl Clone for TabState {
    fn clone(&self) -> (copy: Self)
        ensures
            copy == *self,
    {
        TabState {
            id: self.id,
            url: self.url.clone(),
            title: self.title.clone(),
            can_go_back: self.can_go_back,
            can_go_forward: self.can_go_forward,
            is_loading: self.is_loading,
        }
    }
}

impl TabState {
    /// Whether this is the state of a tab that was just opened on `url`.
    pub open spec fn is_fresh(self, id: TabId, url: String) -> bool {
        &&& self.id == id
        &&& self.url == url
        &&& self.title@ == title_of(url@)
        &&& !self.can_go_back
        &&& !self.can_go_forward
        &&& !self.is_loading
    }

    /// This state with another address, and the title that goes with it.
    pub open spec fn with_url(self, url: String, after: TabState) -> bool {
        &&& after.id == self.id
        &&& after.url == url
        &&& after.title@ == title_of(url@)
        &&& after.can_go_back == self.can_go_back
        &&& after.can_go_forward == self.can_go_forward
        &&& after.is_loading == self.is_loading
    }

    /// The state of a tab that was just opened on `url`.
    pub fn new(id: TabId, url: String) -> (tab: Self)
        ensures
            tab.is_fresh(id, url),
    {
        let title = Self::extract_title(url.as_str());
        TabState { id, url, title, can_go_back: false, can_go_forward: false, is_loading: false }
    }

    /// The title that stands in for a page until it reports its own.
    pub fn extract_title(url: &str) -> (title: String)
        ensures
            title@ == title_of(url@),
    {
        extract_title(url)
    }

    /// Points the tab at another address; the title follows the address.
    pub fn set_url(&mut self, url: String)
        ensures
            old(self).with_url(url, *final(self)),
    {
        self.title = Self::extract_title(url.as_str());
        self.url = url;
    }

    /// Sets the title that the page reported.
    pub fn set_title(&mut self, title: String)
        ensures
            *final(self) == (TabState { title, ..*old(self) }),
    {
        self.title = title;
    }
}

/// The smallest element of `ids`, or `None` if there is none.
pub open spec fn lowest_of(ids: Set<TabId>) -> Option<TabId> {
    if exists|m: TabId| is_lowest(ids, m) {
        Some(choose|m: TabId| is_lowest(ids, m))
    } else {
        None
    }
}

/// `m` is in `ids`, and nothing in `ids` is smaller.
pub open spec fn is_lowest(ids: Set<TabId>, m: TabId) -> bool {
    ids.contains(m) && forall|id: TabId| ids.contains(id) ==> m <= id
}

/// `lowest_of` is `None` exactly for the empty set, and otherwise the one
/// element that no other is smaller than.
pub proof fn lemma_lowest_of(ids: Set<TabId>, m: TabId)
    ensures
        is_lowest(ids, m) ==> lowest_of(ids) == Some(m),
        lowest_of(ids) == Some(m) ==> is_lowest(ids, m),
{
    if is_lowest(ids, m) {
        let chosen = choose|c: TabId| is_lowest(ids, c);
        assert(chosen <= m && m <= chosen);
    }
}

/// The mathematical content of a [`StateManager`].
pub struct RegistryState {
    /// The open tabs by their identifiers.
    pub tabs: Map<TabId, TabState>,
    /// The active tab.
    pub active: Option<TabId>,
    /// The identifier that the next tab will get.
    pub next_id: TabId,
    /// Application settings by their keys.
    pub settings: Map<Seq<char>, Seq<char>>,
}

impl RegistryState {
    /// There are finitely many tabs, every one of them was numbered before
    /// `next_id`, and one of them is active unless there is none.
    pub open spec fn well_formed(self) -> bool {
        &&& self.tabs.dom().finite()
        &&& forall|id: TabId| self.tabs.contains_key(id) ==> id < self.next_id
        &&& match self.active {
            Some(active) => self.tabs.contains_key(active),
            None => self.tabs.dom() =~= Set::empty(),
        }
    }

    /// A registry without tabs or settings.
    pub open spec fn empty() -> Self {
        RegistryState { tabs: Map::empty(), active: None, next_id: 0, settings: Map::empty() }
    }

    /// The registry after `tab` was opened under the next identifier. It
    /// becomes active only if no tab was.
    pub open spec fn create(self, tab: TabState) -> Self {
        RegistryState {
            tabs: self.tabs.insert(self.next_id, tab),
            active: if self.active is None {
                Some(self.next_id)
            } else {
                self.active
            },
            next_id: (self.next_id + 1) as TabId,
            ..self
        }
    }

    /// The registry after tab `id` was closed. If it was the active one, the
    /// remaining tab with the lowest identifier takes over.
    pub open spec fn close(self, id: TabId) -> Self {
        RegistryState {
            tabs: self.tabs.remove(id),
            active: if self.active == Some(id) {
                lowest_of(self.tabs.remove(id).dom())
            } else {
                self.active
            },
            ..self
        }
    }

    /// The registry with tab `id` active.
    pub open spec fn switch(self, id: TabId) -> Self {
        RegistryState { active: Some(id), ..self }
    }

    /// The state of the active tab.
    pub open spec fn active_tab(self) -> Option<TabState> {
        match self.active {
            Some(id) if self.tabs.contains_key(id) => Some(self.tabs[id]),
            _ => None,
        }
    }
}

/// What `close_tab` and `switch_tab` say of an identifier that no tab has.
pub open spec fn not_found_message(id: TabId) -> Seq<char> {
    "Tab "@ + decimal(id as nat) + " not found"@
}

fn not_found(id: TabId) -> (message: String)
    ensures
        message@ == not_found_message(id),
{
    let mut message = "Tab ".to_owned();
    push_decimal(&mut message, id);
    message.append(" not found");
    message
}

/// The registry of open tabs and of application settings.
pub struct StateManager {
    tabs: HashMap<TabId, TabState>,
    active_tab_id: Option<TabId>,
    next_tab_id: TabId,
    settings: Vec<(String, String)>,
}

/// The settings that a list of pairs stands for; a later pair wins over an
/// earlier one with the same key.
pub open spec fn settings_of(pairs: Seq<(String, String)>) -> Map<Seq<char>, Seq<char>>
    decreases pairs.len(),
{
    if pairs.len() == 0 {
        Map::empty()
    } else {
        settings_of(pairs.drop_last()).insert(pairs.last().0@, pairs.last().1@)
    }
}

impl View for StateManager {
    type V = RegistryState;

    closed spec fn view(&self) -> RegistryState {
        RegistryState {
            tabs: self.tabs@,
            active: self.active_tab_id,
            next_id: self.next_tab_id,
            settings: settings_of(self.settings@),
        }
    }
}

impl StateManager {
    /// The invariant of the registry: see [`RegistryState::well_formed`].
    pub closed spec fn well_formed(&self) -> bool {
        &&& self@.well_formed()
        &&& distinct_keys(self.settings@)
    }

    /// A well-formed registry has a well-formed content.
    pub proof fn lemma_content_well_formed(&self)
        requires
            self.well_formed(),
        ensures
            self@.well_formed(),
    {
    }

    /// A registry without tabs.
    pub fn new() -> (manager: Self)
        ensures
            manager.well_formed(),
            manager@ == RegistryState::empty(),
    {
        StateManager {
            tabs: HashMap::new(),
            active_tab_id: None,
            next_tab_id: 0,
            settings: Vec::new(),
        }
    }

    /// Whether there is an identifier left for another tab.
    pub fn has_free_id(&self) -> (free: bool)
        ensures
            free == (self@.next_id < usize::MAX),
    {
        self.next_tab_id < usize::MAX
    }

    /// Opens a tab on `url` and returns its identifier. The first tab of a
    /// registry becomes the active one.
    pub fn create_tab(&mut self, url: String) -> (id: TabId)
        requires
            old(self).well_formed(),
            old(self)@.next_id < usize::MAX,
        ensures
            final(self).well_formed(),
            id == old(self)@.next_id,
            final(self)@.tabs.contains_key(id),
            final(self)@.tabs[id].is_fresh(id, url),
            final(self)@ == old(self)@.create(final(self)@.tabs[id]),
    {
        let tab_id = self.next_tab_id;
        self.next_tab_id += 1;
        let tab = TabState::new(tab_id, url);
        self.tabs.insert(tab_id, tab);
        if self.active_tab_id.is_none() {
            self.active_tab_id = Some(tab_id);
        }
        tab_id
    }

    /// The remaining tab with the lowest identifier.
    fn lowest_tab(&self) -> (lowest: Option<TabId>)
        ensures
            lowest == lowest_of(self.tabs@.dom()),
    {
        let mut lowest: Option<TabId> = None;
        assert(self.tabs@.dom() =~= Set::empty() ==> lowest_of(self.tabs@.dom()) is None);
        for key in it: self.tabs.keys()
            invariant
                it.seq().unref().to_set() == self.tabs@.dom(),
                self.tabs@.dom() =~= Set::empty() ==> lowest_of(self.tabs@.dom()) is None,
                match lowest {
                    None => it.index() == 0,
                    Some(m) => {
                        &&& exists|j: int| 0 <= j < it.index() && *#[trigger] it.seq()[j] == m
                        &&& forall|j: int| 0 <= j < it.index() ==> m <= *#[trigger] it.seq()[j]
                    },
                },
                it.index() == it.seq().len() ==> lowest == lowest_of(self.tabs@.dom()),
        {
            let ghost before = lowest;
            lowest = match lowest {
                None => Some(*key),
                Some(m) => if *key < m {
                    Some(*key)
                } else {
                    Some(m)
                },
            };
            proof {
                let m = lowest.unwrap();
                assert(*it.seq()[it.index()] == *key);
                assert(exists|j: int| 0 <= j < it.index() + 1 && *#[trigger] it.seq()[j] == m) by {
                    if before is Some && m == before.unwrap() {
                        assert(exists|j: int| 0 <= j < it.index() && *#[trigger] it.seq()[j] == m);
                    } else {
                        assert(*it.seq()[it.index()] == m);
                    }
                }
                assert(it.index() + 1 == it.seq().len() ==> is_lowest(self.tabs@.dom(), m)) by {
                    if it.index() + 1 == it.seq().len() {
                        assert forall|j: int|
                            0 <= j < it.seq().len() && *#[trigger] it.seq()[j]
                                == m implies it.seq().unref()[j] == m by {}
                        assert(exists|j: int|
                            0 <= j < it.seq().len() && #[trigger] it.seq().unref()[j] == m);
                        assert(it.seq().unref().contains(m));
                        assert(it.seq().unref().to_set().contains(m));
                        assert forall|id: TabId| self.tabs@.dom().contains(id) implies m <= id by {
                            assert(it.seq().unref().to_set().contains(id));
                            assert(it.seq().unref().contains(id));
                            assert(exists|k: int|
                                0 <= k < it.seq().len() && *#[trigger] it.seq()[k] == id);
                        }
                    }
                }
                lemma_lowest_of(self.tabs@.dom(), m);
            }
        }
        lowest
    }

    /// Closes tab `id`. If it was the active tab, the remaining tab with the
    /// lowest identifier becomes active. Fails, and changes nothing, if there
    /// is no such tab.
    pub fn close_tab(&mut self, id: TabId) -> (result: Result<(), String>)
        requires
            old(self).well_formed(),
        ensures
            final(self).well_formed(),
            match result {
                Ok(()) => old(self)@.tabs.contains_key(id) && final(self)@ == old(self)@.close(id),
                Err(message) => !old(self)@.tabs.contains_key(id) && final(self)@ == old(self)@
                    && message@ == not_found_message(id),
            },
    {
        if self.tabs.remove(&id).is_none() {
            assert(self.tabs@ == old(self).tabs@);
            return Err(not_found(id));
        }
        if self.active_tab_id == Some(id) {
            self.active_tab_id = self.lowest_tab();
            proof {
                match self.active_tab_id {
                    Some(m) => {
                        lemma_lowest_of(self.tabs@.dom(), m);
                    },
                    None => {
                        assert forall|x: TabId| !self.tabs@.dom().contains(x) by {
                            if self.tabs@.dom().contains(x) {
                                lemma_has_lowest(self.tabs@.dom(), x);
                            }
                        }
                    },
                }
            }
        }
        Ok(())
    }

    /// Makes tab `id` the active one. Fails, and changes nothing, if there is
    /// no such tab.
    pub fn switch_tab(&mut self, id: TabId) -> (result: Result<(), String>)
        requires
            old(self).well_formed(),
        ensures
            final(self).well_formed(),
            match result {
                Ok(()) => old(self)@.tabs.contains_key(id) && final(self)@ == old(self)@.switch(id),
                Err(message) => !old(self)@.tabs.contains_key(id) && final(self)@ == old(self)@
                    && message@ == not_found_message(id),
            },
    {
        if !self.tabs.contains_key(&id) {
            return Err(not_found(id));
        }
        self.active_tab_id = Some(id);
        Ok(())
    }
}

impl StateManager {
    /// The state of tab `id`.
    pub fn get_tab(&self, id: TabId) -> (tab: Option<&TabState>)
        ensures
            match tab {
                Some(state) => self@.tabs.contains_key(id) && *state == self@.tabs[id],
                None => !self@.tabs.contains_key(id),
            },
    {
        self.tabs.get(&id)
    }

    /// The state of tab `id`, open to changes. Whatever the caller leaves
    /// behind is the tab's new state; nothing else in the registry changes.
    pub fn get_tab_mut(&mut self, id: TabId) -> (tab: Option<&mut TabState>)
        requires
            old(self).well_formed(),
        ensures
            final(self).well_formed(),
            match tab {
                Some(state) => {
                    &&& old(self)@.tabs.contains_key(id)
                    &&& *state == old(self)@.tabs[id]
                    &&& final(self)@ == (RegistryState {
                        tabs: old(self)@.tabs.insert(id, *final(state)),
                        ..old(self)@
                    })
                },
                None => !old(self)@.tabs.contains_key(id) && final(self)@ == old(self)@,
            },
    {
        match self.tabs.entry(id) {
            Entry::Occupied(occupied) => Some(occupied.into_mut()),
            Entry::Vacant(_) => {
                assert(old(self).tabs@.remove(id) =~= old(self).tabs@);
                None
            },
        }
    }
}

impl RegistryState {
    /// The registry with `tab` in place of the state of tab `id`.
    pub open spec fn with_tab(self, id: TabId, tab: TabState) -> Self {
        RegistryState { tabs: self.tabs.insert(id, tab), ..self }
    }
}

impl StateManager {
    /// The state of the active tab; `None` when no tab is open.
    pub fn get_active_tab(&self) -> (tab: Option<&TabState>)
        requires
            self.well_formed(),
        ensures
            match tab {
                Some(state) => self@.active_tab() == Some(*state),
                None => self@.active_tab() is None && self@.tabs.dom() =~= Set::empty(),
            },
    {
        match self.active_tab_id {
            Some(id) => self.tabs.get(&id),
            None => None,
        }
    }

    /// The state of the active tab, open to changes; `None` when no tab is
    /// open.
    pub fn get_active_tab_mut(&mut self) -> (tab: Option<&mut TabState>)
        requires
            old(self).well_formed(),
        ensures
            final(self).well_formed(),
            match tab {
                Some(state) => {
                    &&& old(self)@.active_tab() == Some(*state)
                    &&& final(self)@ == old(self)@.with_tab(
                        old(self)@.active.unwrap(),
                        *final(state),
                    )
                },
                None => old(self)@.active is None && final(self)@ == old(self)@,
            },
    {
        match self.active_tab_id {
            Some(id) => self.get_tab_mut(id),
            None => None,
        }
    }

    /// The states of all open tabs, in no particular order.
    pub fn get_all_tabs(&self) -> (all: Vec<&TabState>)
        ensures
            all@.len() == self@.tabs.dom().len(),
            all@.unref().to_set() == self@.tabs.values(),
    {
        let mut all: Vec<&TabState> = Vec::new();
        for tab in it: self.tabs.values()
            invariant
                it.seq().unref().to_set() == self.tabs@.values(),
                it.seq().len() == self.tabs@.dom().len(),
                all@ == it.seq().subrange(0, it.index()),
                it.index() == it.seq().len() ==> all@ == it.seq(),
        {
            all.push(tab);
            assert(it.seq().subrange(0, it.index() + 1) == it.seq().subrange(0, it.index()).push(
                it.seq()[it.index()],
            ));
        }
        all
    }

    /// Number of open tabs.
    pub fn tab_count(&self) -> (count: usize)
        ensures
            count == self@.tabs.dom().len(),
    {
        self.tabs.len()
    }

    /// Identifier of the active tab.
    pub fn active_tab_id(&self) -> (active: Option<TabId>)
        ensures
            active == self@.active,
    {
        self.active_tab_id
    }

    /// Sets the title of tab `id`. Does nothing if the tab is gone.
    pub fn update_tab_title(&mut self, id: TabId, title: String)
        requires
            old(self).well_formed(),
        ensures
            final(self).well_formed(),
            final(self)@ == (if old(self)@.tabs.contains_key(id) {
                old(self)@.with_tab(id, TabState { title, ..old(self)@.tabs[id] })
            } else {
                old(self)@
            }),
    {
        if let Some(tab) = self.get_tab_mut(id) {
            tab.set_title(title);
        }
    }

    /// Points tab `id` at another address; its title follows. Does nothing if
    /// the tab is gone.
    pub fn update_tab_url(&mut self, id: TabId, url: String)
        requires
            old(self).well_formed(),
        ensures
            final(self).well_formed(),
            !old(self)@.tabs.contains_key(id) ==> final(self)@ == old(self)@,
            old(self)@.tabs.contains_key(id) ==> {
                &&& final(self)@.tabs.contains_key(id)
                &&& old(self)@.tabs[id].with_url(url, final(self)@.tabs[id])
                &&& final(self)@ == old(self)@.with_tab(id, final(self)@.tabs[id])
            },
    {
        if let Some(tab) = self.get_tab_mut(id) {
            tab.set_url(url);
        }
    }

    /// Records whether tab `id` is loading. Does nothing if the tab is gone.
    pub fn set_tab_loading(&mut self, id: TabId, loading: bool)
        requires
            old(self).well_formed(),
        ensures
            final(self).well_formed(),
            final(self)@ == (if old(self)@.tabs.contains_key(id) {
                old(self)@.with_tab(id, TabState { is_loading: loading, ..old(self)@.tabs[id] })
            } else {
                old(self)@
            }),
    {
        if let Some(tab) = self.get_tab_mut(id) {
            tab.is_loading = loading;
        }
    }

    /// Records in which directions tab `id` can navigate. Does nothing if
    /// the tab is gone.
    pub fn set_tab_nav_state(&mut self, id: TabId, can_go_back: bool, can_go_forward: bool)
        requires
            old(self).well_formed(),
        ensures
            final(self).well_formed(),
            final(self)@ == (if old(self)@.tabs.contains_key(id) {
                old(self)@.with_tab(
                    id,
                    TabState { can_go_back, can_go_forward, ..old(self)@.tabs[id] },
                )
            } else {
                old(self)@
            }),
    {
        if let Some(tab) = self.get_tab_mut(id) {
            tab.can_go_back = can_go_back;
            tab.can_go_forward = can_go_forward;
        }
    }
}

/// No two pairs have the same key.
pub open spec fn distinct_keys(pairs: Seq<(String, String)>) -> bool {
    forall|i: int, j: int| 0 <= i < j < pairs.len() ==> pairs[i].0@ != pairs[j].0@
}

/// Under distinct keys, the pair at `index` is what its key is mapped to.
proof fn lemma_settings_hit(pairs: Seq<(String, String)>, index: int)
    requires
        distinct_keys(pairs),
        0 <= index < pairs.len(),
    ensures
        settings_of(pairs).contains_key(pairs[index].0@),
        settings_of(pairs)[pairs[index].0@] == pairs[index].1@,
    decreases pairs.len(),
{
    if index < pairs.len() - 1 {
        lemma_settings_hit(pairs.drop_last(), index);
    }
}

/// A key that no pair has is not mapped.
proof fn lemma_settings_miss(pairs: Seq<(String, String)>, key: Seq<char>)
    requires
        forall|i: int| 0 <= i < pairs.len() ==> pairs[i].0@ != key,
    ensures
        !settings_of(pairs).contains_key(key),
    decreases pairs.len(),
{
    if pairs.len() > 0 {
        lemma_settings_miss(pairs.drop_last(), key);
    }
}

/// Replacing the pair at `index` by one with the same key maps that key to
/// the new value and leaves every other key alone.
proof fn lemma_settings_replace(pairs: Seq<(String, String)>, index: int, pair: (String, String))
    requires
        distinct_keys(pairs),
        0 <= index < pairs.len(),
        pairs[index].0@ == pair.0@,
    ensures
        settings_of(pairs.update(index, pair)) == settings_of(pairs).insert(pair.0@, pair.1@),
        distinct_keys(pairs.update(index, pair)),
    decreases pairs.len(),
{
    let replaced = pairs.update(index, pair);
    if index == pairs.len() - 1 {
        assert(replaced.drop_last() == pairs.drop_last());
        assert(settings_of(replaced) =~= settings_of(pairs).insert(pair.0@, pair.1@));
    } else {
        lemma_settings_replace(pairs.drop_last(), index, pair);
        assert(replaced.drop_last() == pairs.drop_last().update(index, pair));
        assert(replaced.last() == pairs.last());
        assert(pairs.last().0@ != pair.0@);
        assert(settings_of(replaced) =~= settings_of(pairs).insert(pair.0@, pair.1@));
    }
}

impl StateManager {
    /// The value of setting `key`.
    pub fn get_setting(&self, key: &str) -> (value: Option<&String>)
        requires
            self.well_formed(),
        ensures
            match value {
                Some(text) => self@.settings.contains_key(key@) && text@ == self@.settings[key@],
                None => !self@.settings.contains_key(key@),
            },
    {
        let wanted = key.to_owned();
        let mut i: usize = 0;
        while i < self.settings.len()
            invariant
                i <= self.settings.len(),
                wanted@ == key@,
                distinct_keys(self.settings@),
                forall|k: int| 0 <= k < i ==> self.settings@[k].0@ != key@,
            decreases self.settings.len() - i,
        {
            if self.settings[i].0 == wanted {
                proof {
                    lemma_settings_hit(self.settings@, i as int);
                }
                return Some(&self.settings[i].1);
            }
            i += 1;
        }
        proof {
            lemma_settings_miss(self.settings@, key@);
        }
        None
    }

    /// Sets `key` to `value`, whether or not it had a value before.
    pub fn set_setting(&mut self, key: String, value: String)
        requires
            old(self).well_formed(),
        ensures
            final(self).well_formed(),
            final(self)@ == (RegistryState {
                settings: old(self)@.settings.insert(key@, value@),
                ..old(self)@
            }),
    {
        let mut i: usize = 0;
        while i < self.settings.len()
            invariant
                i <= self.settings.len(),
                *self == *old(self),
                self.well_formed(),
                forall|k: int| 0 <= k < i ==> self.settings@[k].0@ != key@,
            decreases self.settings.len() - i,
        {
            if self.settings[i].0 == key {
                proof {
                    lemma_settings_replace(self.settings@, i as int, (key, value));
                }
                self.settings.set(i, (key, value));
                return ;
            }
            i += 1;
        }
        proof {
            assert(self.settings@.push((key, value)).drop_last() == self.settings@);
        }
        self.settings.push((key, value));
    }
}

/// Closing the active one of exactly two tabs makes the other one active.
pub proof fn law_close_active_of_two(state: RegistryState, closed: TabId, other: TabId)
    requires
        state.well_formed(),
        closed != other,
        state.tabs.dom() =~= set![closed, other],
        state.active == Some(closed),
    ensures
        state.close(closed).active == Some(other),
        state.close(closed).tabs.dom() =~= set![other],
        state.close(closed).well_formed(),
{
    let left = state.tabs.remove(closed).dom();
    assert(is_lowest(left, other));
    lemma_lowest_of(left, other);
}

/// Closing a tab that is not the active one leaves the active tab as it is.
pub proof fn law_close_inactive_keeps_active(state: RegistryState, closed: TabId)
    requires
        state.well_formed(),
        state.tabs.contains_key(closed),
        state.active != Some(closed),
    ensures
        state.close(closed).active == state.active,
        state.close(closed).well_formed(),
{
}

/// Whatever tab is closed, the registry stays well-formed: if a tab is left,
/// one of the tabs that are left is active.
pub proof fn law_close_keeps_active_present(state: RegistryState, closed: TabId)
    requires
        state.well_formed(),
        state.tabs.contains_key(closed),
    ensures
        state.close(closed).well_formed(),
        state.close(closed).tabs.dom().len() == state.tabs.dom().len() - 1,
        state.close(closed).active is None <==> state.close(closed).tabs.dom() =~= Set::empty(),
{
    let left = state.tabs.remove(closed).dom();
    if state.active == Some(closed) {
        match lowest_of(left) {
            Some(m) => {
                lemma_lowest_of(left, m);
            },
            None => {
                assert forall|x: TabId| !left.contains(x) by {
                    if left.contains(x) {
                        lemma_has_lowest(left, x);
                    }
                }
            },
        }
    }
}

impl Default for StateManager {
    fn default() -> (manager: Self)
        ensures
            manager.well_formed(),
            manager@ == RegistryState::empty(),
    {
        StateManager::new()
    }
}

/// A finite set of identifiers that holds `member` has a lowest element.
proof fn lemma_has_lowest(ids: Set<TabId>, member: TabId)
    requires
        ids.finite(),
        ids.contains(member),
    ensures
        lowest_of(ids) is Some,
    decreases member,
{
    if forall|id: TabId| ids.contains(id) ==> member <= id {
        assert(is_lowest(ids, member));
    } else {
        let smaller = choose|id: TabId| ids.contains(id) && !(member <= id);
        lemma_has_lowest(ids, smaller);
    }
}

} // verus!
