//! The navigation coordinator. It takes a request through its stages,
//! validating the address, waiting for the renderer and then for the store,
//! and keeps the history of the tab, the tab's state and the metrics in step.
//!
//! The coordinator performs no input or output. Each of its functions takes
//! one event, moves the state on and says what the caller has to do next:
//! load an address, persist a visit, or hand a command to the renderer.
//! Events carry the time at which they happened, on the clock of the metrics
//! collector.

use vstd::prelude::*;
use vstd::string::StringExecFns;
use std::collections::HashMap;
use std::collections::hash_map::Entry;
use crate::address::{normalize_url, parsed_url};
use crate::error::BrowserError;
use crate::history::{HistoryState, TabHistory};
use crate::metrics::{Metrics, MetricsState};
use crate::state::{not_found_message, RegistryState, StateManager, TabId, TabState};
use crate::text::{extract_title, title_of};

verus! {

broadcast use vstd::std_specs::hash::group_hash_axioms;

/// What a navigation request came to: the address to load, the title that
/// stands in for the page, and whether the visit belongs in the history.
#[derive(Debug)]
pub struct NavigationResult {
    /// Address of the page.
    pub url: String,
    /// Title taken from the address.
    pub title: String,
    /// Whether the visit is to be added to the history.
    pub should_add_history: bool,
}

impl Clone for NavigationResult {
    fn clone(&self) -> (copy: Self)
        ensures
            copy == *self,
    {
        NavigationResult {
            url: self.url.clone(),
            title: self.title.clone(),
            should_add_history: self.should_add_history,
        }
    }
}

impl NavigationResult {
    /// Whether this is the result for the page at `url`.
    pub open spec fn is_for(self, url: Seq<char>) -> bool {
        &&& self.url@ == url
        &&& self.title@ == title_of(url)
        &&& self.should_add_history
    }
}

/// What the renderer can be told to do with the page it shows.
#[derive(Debug, Clone, Copy, PartialEq, Eq, Structural)]
pub enum RendererCommand {
    GoBack,
    GoForward,
    Reload,
    Stop,
}

impl RendererCommand {
    /// The script that carries the command out in the page.
    pub open spec fn script_text(self) -> Seq<char> {
        match self {
            RendererCommand::GoBack => "window.history.back()"@,
            RendererCommand::GoForward => "window.history.forward()"@,
            RendererCommand::Reload => "window.location.reload()"@,
            RendererCommand::Stop => "window.stop()"@,
        }
    }

    /// The command in words, as error messages name it.
    pub open spec fn label_text(self) -> Seq<char> {
        match self {
            RendererCommand::GoBack => "Go back"@,
            RendererCommand::GoForward => "Go forward"@,
            RendererCommand::Reload => "Reload"@,
            RendererCommand::Stop => "Stop"@,
        }
    }

    /// The script that carries the command out in the page.
    pub fn script(&self) -> (script: &'static str)
        ensures
            script@ == self.script_text(),
    {
        match self {
            RendererCommand::GoBack => "window.history.back()",
            RendererCommand::GoForward => "window.history.forward()",
            RendererCommand::Reload => "window.location.reload()",
            RendererCommand::Stop => "window.stop()",
        }
    }

    /// The command in words.
    pub fn label(&self) -> (label: &'static str)
        ensures
            label@ == self.label_text(),
    {
        match self {
            RendererCommand::GoBack => "Go back",
            RendererCommand::GoForward => "Go forward",
            RendererCommand::Reload => "Reload",
            RendererCommand::Stop => "Stop",
        }
    }
}

/// A load that the renderer was asked for and has not answered yet.
struct PendingLoad {
    tab: Option<TabId>,
    url: String,
    started: u64,
}

/// The mathematical content of a pending load.
pub struct LoadingState {
    /// The tab that was active when the request came in.
    pub tab: Option<TabId>,
    /// The address that is being loaded.
    pub url: Seq<char>,
    /// When the request came in.
    pub started: u64,
}

/// The mathematical content of a [`NavigationService`].
pub struct NavigationState {
    /// The open tabs.
    pub registry: RegistryState,
    /// The history of each open tab.
    pub histories: Map<TabId, HistoryState>,
    /// What the metrics collector has recorded.
    pub metrics: MetricsState,
    /// Address of the page that was loaded last.
    pub current_url: Option<Seq<char>>,
    /// The load in progress, if there is one.
    pub loading: Option<LoadingState>,
    /// Whether a content surface exists.
    pub surface: bool,
}

/// The reason given for an address that does not parse.
pub open spec fn invalid_url_reason(detail: Seq<char>) -> Seq<char> {
    "Invalid URL: "@ + detail
}

/// What is said when a command needs a content surface and there is none.
pub open spec fn no_surface_message() -> Seq<char> {
    "Content WebView not initialized"@
}

/// What is recorded when the store could not persist a visit.
pub open spec fn save_failed_message(detail: Seq<char>) -> Seq<char> {
    "History save failed: "@ + detail
}

/// Time from `started` to `now`; zero if the clock was read out of order.
pub open spec fn elapsed(started: u64, now: u64) -> u64 {
    if now >= started {
        (now - started) as u64
    } else {
        0
    }
}

impl NavigationState {
    /// Every open tab has a history, and nothing else has one.
    pub open spec fn well_formed(self) -> bool {
        &&& self.registry.well_formed()
        &&& self.histories.dom() == self.registry.tabs.dom()
        &&& forall|id: TabId| #[trigger]
            self.histories.contains_key(id) ==> self.histories[id].well_formed()
    }

    /// Whether `after` is this state with tab `tab` showing the entry under
    /// the cursor of `history`, no longer loading, and nothing else changed
    /// in the registry.
    pub open spec fn tab_shows(self, after: RegistryState, tab: TabId, history: HistoryState) -> bool {
        &&& after.tabs.contains_key(tab)
        &&& after == self.registry.with_tab(tab, after.tabs[tab])
        &&& after.tabs[tab].id == self.registry.tabs[tab].id
        &&& history.current() matches Some(entry)
        &&& after.tabs[tab].url@ == entry.url@
        &&& after.tabs[tab].title@ == (match entry.title {
            Some(title) => title@,
            None => title_of(entry.url@),
        })
        &&& after.tabs[tab].can_go_back == history.can_go_back()
        &&& after.tabs[tab].can_go_forward == history.can_go_forward()
        &&& !after.tabs[tab].is_loading
    }

    /// This state with the active tab loading and a load of `url` in
    /// progress since `now`.
    pub open spec fn begin_load(self, url: Seq<char>, now: u64) -> Self {
        NavigationState {
            registry: match self.registry.active {
                Some(tab) => self.registry.with_tab(
                    tab,
                    TabState { is_loading: true, ..self.registry.tabs[tab] },
                ),
                None => self.registry,
            },
            loading: Some(LoadingState { tab: self.registry.active, url, started: now }),
            ..self
        }
    }

    /// What a request to show `url` at `now` comes to. An address that is no
    /// absolute URL is refused with `NavigationFailed` and changes nothing;
    /// any other starts a load.
    pub open spec fn navigate_result(
        self,
        url: Seq<char>,
        now: u64,
        result: Result<NavigationResult, BrowserError>,
        after: Self,
    ) -> bool {
        match result {
            Ok(request) => {
                &&& parsed_url(url) is Ok
                &&& request.is_for(url)
                &&& after == self.begin_load(url, now)
            },
            Err(error) => {
                &&& parsed_url(url) matches Err(detail)
                &&& error matches BrowserError::NavigationFailed { url: refused, reason }
                &&& refused@ == url
                &&& reason@ == invalid_url_reason(detail)
                &&& after == self
            },
        }
    }

    /// This state with the active tab no longer loading.
    pub open spec fn stopped(self) -> Self {
        NavigationState {
            registry: match self.registry.active {
                Some(tab) => self.registry.with_tab(
                    tab,
                    TabState { is_loading: false, ..self.registry.tabs[tab] },
                ),
                None => self.registry,
            },
            ..self
        }
    }

    /// What a command for the renderer comes to. Without a content surface
    /// it is refused with `ConfigError` and changes nothing. With one, the
    /// command is passed on; going back or forward moves the active tab
    /// through its history first, and stopping ends its loading.
    pub open spec fn command_result(
        self,
        command: RendererCommand,
        result: Result<RendererCommand, BrowserError>,
        after: Self,
    ) -> bool {
        if !self.surface {
            &&& result matches Err(BrowserError::ConfigError(message))
            &&& message@ == no_surface_message()
            &&& after == self
        } else {
            &&& result == Ok::<RendererCommand, BrowserError>(command)
            &&& match command {
                RendererCommand::GoBack => match self.registry.active {
                    Some(tab) => self.stepped(self.histories[tab].back(), after),
                    None => after == self,
                },
                RendererCommand::GoForward => match self.registry.active {
                    Some(tab) => self.stepped(self.histories[tab].forward(), after),
                    None => after == self,
                },
                RendererCommand::Reload => after == self,
                RendererCommand::Stop => after == self.stopped(),
            }
        }
    }

    /// Whether `after` is this state once the load `load` has succeeded at
    /// `now`: the tab that asked for it has visited the page, unless it was
    /// closed in the meantime; the navigation is counted as a success; the
    /// page is the current one; nothing is loading any more.
    pub open spec fn load_succeeded(self, load: LoadingState, now: u64, after: Self) -> bool {
        &&& after.metrics == self.metrics.record_navigation(
            true,
            elapsed(load.started, now),
            now,
        )
        &&& after.current_url == Some(load.url)
        &&& after.loading is None
        &&& after.surface == self.surface
        &&& match load.tab {
            Some(tab) if self.registry.tabs.contains_key(tab) => {
                &&& after.histories == self.histories.insert(tab, after.histories[tab])
                &&& after.histories[tab].entries.len() > 0
                &&& after.histories[tab] == self.histories[tab].push(
                    after.histories[tab].entries.last(),
                )
                &&& after.histories[tab].entries.last().url@ == load.url
                &&& after.histories[tab].entries.last().title matches Some(title) && title@
                    == title_of(load.url)
                &&& self.tab_shows(after.registry, tab, after.histories[tab])
            },
            _ => after.histories == self.histories && after.registry == self.registry,
        }
    }

    /// Whether `after` is this state once the load `load` has failed at
    /// `now`: the navigation is counted as a failure, the tab that asked for
    /// it is no longer loading, and nothing else has changed.
    pub open spec fn load_failed(self, load: LoadingState, now: u64, after: Self) -> bool {
        &&& after.metrics == self.metrics.record_navigation(
            false,
            elapsed(load.started, now),
            now,
        )
        &&& after.current_url == self.current_url
        &&& after.loading is None
        &&& after.surface == self.surface
        &&& after.histories == self.histories
        &&& match load.tab {
            Some(tab) if self.registry.tabs.contains_key(tab) => after.registry
                == self.registry.with_tab(
                tab,
                TabState { is_loading: false, ..self.registry.tabs[tab] },
            ),
            _ => after.registry == self.registry,
        }
    }

    /// Whether `after` is this state once the active tab has moved through
    /// its history to `moved`: the tab shows the entry that it has arrived
    /// at, and the address of the page that was loaded last stays as it is.
    pub open spec fn stepped(self, moved: HistoryState, after: Self) -> bool {
        let tab = self.registry.active.unwrap();
        &&& after.metrics == self.metrics
        &&& after.loading == self.loading
        &&& after.surface == self.surface
        &&& after.current_url == self.current_url
        &&& after.histories == self.histories.insert(tab, moved)
        &&& if moved == self.histories[tab] {
            after.registry == self.registry
        } else {
            self.tab_shows(after.registry, tab, moved)
        }
    }
}

/// The views of the histories in `histories`.
pub open spec fn history_states(histories: Map<TabId, TabHistory>) -> Map<TabId, HistoryState> {
    histories.map_values(|history: TabHistory| history@)
}

/// The navigation coordinator.
pub struct NavigationService {
    tabs: StateManager,
    histories: HashMap<TabId, TabHistory>,
    metrics: Metrics,
    current_url: Option<String>,
    pending: Option<PendingLoad>,
    surface: bool,
}

impl View for NavigationService {
    type V = NavigationState;

    closed spec fn view(&self) -> NavigationState {
        NavigationState {
            registry: self.tabs@,
            histories: history_states(self.histories@),
            metrics: self.metrics@,
            current_url: match self.current_url {
                None => None,
                Some(url) => Some(url@),
            },
            loading: match self.pending {
                None => None,
                Some(load) => Some(
                    LoadingState { tab: load.tab, url: load.url@, started: load.started },
                ),
            },
            surface: self.surface,
        }
    }
}

impl NavigationService {
    /// The invariant of the coordinator: see
    /// [`NavigationState::well_formed`].
    pub closed spec fn well_formed(&self) -> bool {
        &&& self.tabs.well_formed()
        &&& self@.well_formed()
    }

    /// A coordinator without tabs and without a content surface that reports
    /// to `metrics`.
    pub fn new(metrics: Metrics) -> (service: Self)
        ensures
            service.well_formed(),
            service@ == (NavigationState {
                registry: RegistryState::empty(),
                histories: Map::empty(),
                metrics: metrics@,
                current_url: None,
                loading: None,
                surface: false,
            }),
    {
        let service = NavigationService {
            tabs: StateManager::new(),
            histories: HashMap::new(),
            metrics,
            current_url: None,
            pending: None,
            surface: false,
        };
        assert(history_states(service.histories@) =~= Map::empty());
        service
    }

    /// Address of the page that was loaded last.
    pub fn current_url(&self) -> (url: Option<&str>)
        ensures
            match url {
                None => self@.current_url is None,
                Some(text) => self@.current_url == Some(text@),
            },
    {
        match &self.current_url {
            None => None,
            Some(url) => Some(url.as_str()),
        }
    }

    /// The metrics collector.
    pub fn metrics(&self) -> (metrics: &Metrics)
        ensures
            metrics@ == self@.metrics,
    {
        &self.metrics
    }

    /// The registry of open tabs.
    pub fn tabs(&self) -> (tabs: &StateManager)
        ensures
            tabs@ == self@.registry,
            self.well_formed() ==> tabs.well_formed(),
    {
        &self.tabs
    }

    /// Whether a content surface exists.
    pub fn has_surface(&self) -> (surface: bool)
        ensures
            surface == self@.surface,
    {
        self.surface
    }

    /// Records that the content surface has been created.
    pub fn surface_created(&mut self)
        requires
            old(self).well_formed(),
        ensures
            final(self).well_formed(),
            final(self)@ == (NavigationState { surface: true, ..old(self)@ }),
    {
        self.surface = true;
    }
}

impl NavigationService {
    /// Opens a tab on `url`, with an empty history, and returns its
    /// identifier. The first tab becomes the active one.
    pub fn create_tab(&mut self, url: String) -> (id: TabId)
        requires
            old(self).well_formed(),
            old(self)@.registry.next_id < usize::MAX,
        ensures
            final(self).well_formed(),
            id == old(self)@.registry.next_id,
            final(self)@.registry.tabs.contains_key(id),
            final(self)@.registry.tabs[id].is_fresh(id, url),
            final(self)@ == (NavigationState {
                registry: old(self)@.registry.create(final(self)@.registry.tabs[id]),
                histories: old(self)@.histories.insert(id, HistoryState::empty()),
                ..old(self)@
            }),
    {
        let id = self.tabs.create_tab(url);
        self.histories.insert(id, TabHistory::new());
        proof {
            assert(history_states(self.histories@) =~= history_states(old(self).histories@).insert(
                id,
                HistoryState::empty(),
            ));
        }
        id
    }

    /// Closes tab `id` and drops its history. If it was the active tab, the
    /// remaining tab with the lowest identifier becomes active. Fails, and
    /// changes nothing, if there is no such tab.
    pub fn close_tab(&mut self, id: TabId) -> (result: Result<(), String>)
        requires
            old(self).well_formed(),
        ensures
            final(self).well_formed(),
            match result {
                Ok(()) => {
                    &&& old(self)@.registry.tabs.contains_key(id)
                    &&& final(self)@ == (NavigationState {
                        registry: old(self)@.registry.close(id),
                        histories: old(self)@.histories.remove(id),
                        ..old(self)@
                    })
                },
                Err(message) => {
                    &&& !old(self)@.registry.tabs.contains_key(id)
                    &&& final(self)@ == old(self)@
                    &&& message@ == not_found_message(id)
                },
            },
    {
        match self.tabs.close_tab(id) {
            Ok(()) => {
                self.histories.remove(&id);
                proof {
                    assert(history_states(self.histories@) =~= history_states(
                        old(self).histories@,
                    ).remove(id));
                    self.tabs.lemma_content_well_formed();
                }
                Ok(())
            },
            Err(message) => Err(message),
        }
    }

    /// Makes tab `id` the active one. Fails, and changes nothing, if there is
    /// no such tab.
    pub fn switch_tab(&mut self, id: TabId) -> (result: Result<(), String>)
        requires
            old(self).well_formed(),
        ensures
            final(self).well_formed(),
            match result {
                Ok(()) => {
                    &&& old(self)@.registry.tabs.contains_key(id)
                    &&& final(self)@ == (NavigationState {
                        registry: old(self)@.registry.switch(id),
                        ..old(self)@
                    })
                },
                Err(message) => {
                    &&& !old(self)@.registry.tabs.contains_key(id)
                    &&& final(self)@ == old(self)@
                    &&& message@ == not_found_message(id)
                },
            },
    {
        self.tabs.switch_tab(id)
    }

    /// Takes a request to show `url` that came in at `now`.
    ///
    /// An address that is no absolute URL is refused with `NavigationFailed`,
    /// whose reason starts with `Invalid URL: `, and nothing changes. For any
    /// other address the active tab starts loading, the request is noted as
    /// the load in progress, and the result names the address that the
    /// caller is to hand to the renderer. The outcome of that load comes back
    /// through [`Self::load_succeeded`] or [`Self::load_failed`].
    pub fn navigate(&mut self, url: &str, now: u64) -> (result: Result<
        NavigationResult,
        BrowserError,
    >)
        requires
            old(self).well_formed(),
        ensures
            final(self).well_formed(),
            old(self)@.navigate_result(url@, now, result, final(self)@),
    {
        match normalize_url(url) {
            Err(detail) => {
                let mut reason = "Invalid URL: ".to_owned();
                reason.append(detail.as_str());
                Err(BrowserError::NavigationFailed { url: url.to_owned(), reason })
            },
            Ok(_) => {
                let tab = self.tabs.active_tab_id();
                if let Some(id) = tab {
                    self.tabs.set_tab_loading(id, true);
                }
                self.pending = Some(PendingLoad { tab, url: url.to_owned(), started: now });
                proof {
                    self.tabs.lemma_content_well_formed();
                    assert(self@.histories.dom() =~= self@.registry.tabs.dom());
                }
                Ok(
                    NavigationResult {
                        url: url.to_owned(),
                        title: extract_title(url),
                        should_add_history: true,
                    },
                )
            },
        }
    }
}

impl NavigationService {
    /// Moves the history of tab `tab` on to a visit of `url` and makes the
    /// tab show it. Does nothing if the tab is gone.
    fn visit(&mut self, tab: TabId, url: &String, title: &String)
        requires
            old(self).well_formed(),
            title@ == title_of(url@),
        ensures
            final(self).well_formed(),
            final(self)@.metrics == old(self)@.metrics,
            final(self)@.current_url == old(self)@.current_url,
            final(self)@.loading == old(self)@.loading,
            final(self)@.surface == old(self)@.surface,
            if old(self)@.registry.tabs.contains_key(tab) {
                &&& final(self)@.histories == old(self)@.histories.insert(
                    tab,
                    final(self)@.histories[tab],
                )
                &&& final(self)@.histories[tab].entries.len() > 0
                &&& final(self)@.histories[tab] == old(self)@.histories[tab].push(
                    final(self)@.histories[tab].entries.last(),
                )
                &&& final(self)@.histories[tab].entries.last().url@ == url@
                &&& final(self)@.histories[tab].entries.last().title matches Some(text) && text@
                    == title@
                &&& old(self)@.tab_shows(final(self)@.registry, tab, final(self)@.histories[tab])
            } else {
                final(self)@.histories == old(self)@.histories && final(self)@.registry == old(
                    self,
                )@.registry
            },
    {
        proof {
            self.tabs.lemma_content_well_formed();
        }
        let mut flags: Option<(bool, bool)> = None;
        match self.histories.entry(tab) {
            Entry::Occupied(occupied) => {
                let history = occupied.into_mut();
                history.push(url.clone(), Some(title.clone()));
                flags = Some((history.can_go_back(), history.can_go_forward()));
            },
            Entry::Vacant(_) => {
                assert(old(self).histories@.remove(tab) =~= old(self).histories@);
            },
        }
        proof {
            if old(self)@.registry.tabs.contains_key(tab) {
                assert(history_states(self.histories@) =~= history_states(
                    old(self).histories@,
                ).insert(tab, self.histories@[tab]@));
            }
        }
        if let Some((can_go_back, can_go_forward)) = flags {
            if let Some(state) = self.tabs.get_tab_mut(tab) {
                state.url = url.clone();
                state.title = title.clone();
                state.can_go_back = can_go_back;
                state.can_go_forward = can_go_forward;
                state.is_loading = false;
            }
        }
        proof {
            self.tabs.lemma_content_well_formed();
            assert(self@.histories.dom() =~= self@.registry.tabs.dom());
        }
    }

    /// Takes the renderer's word, given at `now`, that the load in progress
    /// has succeeded.
    ///
    /// The tab that asked for the page visits it: the page is pushed onto the
    /// tab's history and the tab shows it. A tab that was closed in the
    /// meantime is left out. The navigation is counted as a success with the
    /// time that the load took, and the page becomes the current one. The
    /// result names the visit that the caller is to hand to the store; how
    /// that went comes back through [`Self::history_saved`]. Without a load
    /// in progress nothing changes and nothing is returned.
    pub fn load_succeeded(&mut self, now: u64) -> (visit: Option<NavigationResult>)
        requires
            old(self).well_formed(),
        ensures
            final(self).well_formed(),
            match old(self)@.loading {
                None => visit is None && final(self)@ == old(self)@,
                Some(load) => {
                    &&& visit matches Some(page) && page.is_for(load.url)
                    &&& old(self)@.load_succeeded(load, now, final(self)@)
                },
            },
    {
        match self.pending.take() {
            None => None,
            Some(load) => {
                let title = extract_title(load.url.as_str());
                self.metrics.record_navigation_at(true, now.saturating_sub(load.started), now);
                if let Some(tab) = load.tab {
                    self.visit(tab, &load.url, &title);
                }
                self.current_url = Some(load.url.clone());
                Some(NavigationResult { url: load.url, title, should_add_history: true })
            },
        }
    }

    /// Takes the renderer's word, given at `now`, that the load in progress
    /// has failed for `reason`.
    ///
    /// The navigation is counted as a failure, the tab that asked for the
    /// page stops loading, and the error to show is returned. Without a load
    /// in progress nothing changes and nothing is returned.
    pub fn load_failed(&mut self, reason: &str, now: u64) -> (error: Option<BrowserError>)
        requires
            old(self).well_formed(),
        ensures
            final(self).well_formed(),
            match old(self)@.loading {
                None => error is None && final(self)@ == old(self)@,
                Some(load) => {
                    &&& error matches Some(BrowserError::NavigationFailed { url, reason: given })
                    &&& url@ == load.url
                    &&& given@ == reason@
                    &&& old(self)@.load_failed(load, now, final(self)@)
                },
            },
    {
        match self.pending.take() {
            None => None,
            Some(load) => {
                self.metrics.record_navigation_at(false, now.saturating_sub(load.started), now);
                if let Some(tab) = load.tab {
                    self.tabs.set_tab_loading(tab, false);
                }
                proof {
                    self.tabs.lemma_content_well_formed();
                    assert(self@.histories.dom() =~= self@.registry.tabs.dom());
                }
                Some(BrowserError::NavigationFailed { url: load.url, reason: reason.to_owned() })
            },
        }
    }

    /// Takes the store's word, given at `now`, on a visit that it was asked
    /// to persist. A failure is counted as an error in the metrics; it does
    /// not undo the navigation.
    pub fn history_saved(&mut self, outcome: Result<(), String>, now: u64)
        requires
            old(self).well_formed(),
        ensures
            final(self).well_formed(),
            final(self)@ == (match outcome {
                Ok(()) => old(self)@,
                Err(detail) => NavigationState {
                    metrics: old(self)@.metrics.record_error(save_failed_message(detail@), now),
                    ..old(self)@
                },
            }),
    {
        if let Err(detail) = outcome {
            let mut message = "History save failed: ".to_owned();
            message.append(detail.as_str());
            self.metrics.record_error_at(message.as_str(), now);
        }
    }
}

impl NavigationService {
    /// Moves the active tab one step through its history, back or forward,
    /// and makes it show the entry it arrives at.
    fn step(&mut self, tab: TabId, back: bool)
        requires
            old(self).well_formed(),
            old(self)@.registry.active == Some(tab),
        ensures
            final(self).well_formed(),
            old(self)@.stepped(
                if back {
                    old(self)@.histories[tab].back()
                } else {
                    old(self)@.histories[tab].forward()
                },
                final(self)@,
            ),
    {
        proof {
            self.tabs.lemma_content_well_formed();
        }
        let mut shown: Option<(String, String, bool, bool)> = None;
        match self.histories.entry(tab) {
            Entry::Occupied(occupied) => {
                let history = occupied.into_mut();
                let page = match if back {
                    history.go_back()
                } else {
                    history.go_forward()
                } {
                    None => None,
                    Some(entry) => {
                        let title = match &entry.title {
                            Some(title) => title.clone(),
                            None => extract_title(entry.url.as_str()),
                        };
                        Some((entry.url.clone(), title))
                    },
                };
                if let Some((url, title)) = page {
                    shown = Some((url, title, history.can_go_back(), history.can_go_forward()));
                }
            },
            Entry::Vacant(_) => {
                assert(false);
            },
        }
        proof {
            assert(history_states(self.histories@) =~= history_states(old(self).histories@).insert(
                tab,
                self.histories@[tab]@,
            ));
        }
        if let Some((url, title, can_go_back, can_go_forward)) = shown {
            if let Some(state) = self.tabs.get_tab_mut(tab) {
                state.url = url;
                state.title = title;
                state.can_go_back = can_go_back;
                state.can_go_forward = can_go_forward;
                state.is_loading = false;
            }
        }
        proof {
            self.tabs.lemma_content_well_formed();
            assert(self@.histories.dom() =~= self@.registry.tabs.dom());
        }
    }

    /// The error for a command that needs a content surface when there is
    /// none.
    fn no_surface() -> (error: BrowserError)
        ensures
            error matches BrowserError::ConfigError(message) && message@ == no_surface_message(),
    {
        BrowserError::ConfigError("Content WebView not initialized".to_owned())
    }

    /// Goes back one entry in the history of the active tab and returns the
    /// command for the renderer. The tab shows the entry it arrives at; the
    /// address of the page that was loaded last is left alone. Fails with
    /// `ConfigError` if there is no content surface yet.
    pub fn go_back(&mut self) -> (result: Result<RendererCommand, BrowserError>)
        requires
            old(self).well_formed(),
        ensures
            final(self).well_formed(),
            old(self)@.command_result(RendererCommand::GoBack, result, final(self)@),
    {
        if !self.surface {
            return Err(Self::no_surface());
        }
        if let Some(tab) = self.tabs.active_tab_id() {
            self.step(tab, true);
        }
        Ok(RendererCommand::GoBack)
    }

    /// Goes forward one entry in the history of the active tab and returns
    /// the command for the renderer. The tab shows the entry it arrives at;
    /// the address of the page that was loaded last is left alone. Fails
    /// with `ConfigError` if there is no content surface yet.
    pub fn go_forward(&mut self) -> (result: Result<RendererCommand, BrowserError>)
        requires
            old(self).well_formed(),
        ensures
            final(self).well_formed(),
            old(self)@.command_result(RendererCommand::GoForward, result, final(self)@),
    {
        if !self.surface {
            return Err(Self::no_surface());
        }
        if let Some(tab) = self.tabs.active_tab_id() {
            self.step(tab, false);
        }
        Ok(RendererCommand::GoForward)
    }

    /// Returns the command that makes the renderer load the current page
    /// again. Fails with `ConfigError` if there is no content surface yet.
    pub fn reload(&mut self) -> (result: Result<RendererCommand, BrowserError>)
        requires
            old(self).well_formed(),
        ensures
            final(self).well_formed(),
            old(self)@.command_result(RendererCommand::Reload, result, final(self)@),
    {
        if !self.surface {
            return Err(Self::no_surface());
        }
        Ok(RendererCommand::Reload)
    }

    /// Ends the loading of the active tab and returns the command that makes
    /// the renderer stop. Fails with `ConfigError` if there is no content
    /// surface yet.
    pub fn stop(&mut self) -> (result: Result<RendererCommand, BrowserError>)
        requires
            old(self).well_formed(),
        ensures
            final(self).well_formed(),
            old(self)@.command_result(RendererCommand::Stop, result, final(self)@),
    {
        if !self.surface {
            return Err(Self::no_surface());
        }
        if let Some(tab) = self.tabs.active_tab_id() {
            self.tabs.set_tab_loading(tab, false);
        }
        proof {
            self.tabs.lemma_content_well_formed();
            assert(self@.histories.dom() =~= self@.registry.tabs.dom());
        }
        Ok(RendererCommand::Stop)
    }

    /// The error for a command that the renderer could not carry out: a
    /// failed navigation of the current page, with the command and the
    /// renderer's words as the reason.
    pub fn command_failed(&self, command: RendererCommand, detail: &str) -> (error: BrowserError)
        ensures
            error matches BrowserError::NavigationFailed { url, reason },
            error->NavigationFailed_url@ == (match self@.current_url {
                Some(url) => url,
                None => Seq::empty(),
            }),
            error->NavigationFailed_reason@ == command.label_text() + " failed: "@ + detail@,
    {
        let url = match &self.current_url {
            Some(url) => url.clone(),
            None => String::new(),
        };
        let mut reason = command.label().to_owned();
        reason.append(" failed: ");
        reason.append(detail);
        BrowserError::NavigationFailed { url, reason }
    }
}

impl NavigationService {
    /// Takes the renderer's word that the page in tab `id` has the title
    /// `title`. Does nothing if the tab is gone.
    pub fn update_tab_title(&mut self, id: TabId, title: String)
        requires
            old(self).well_formed(),
        ensures
            final(self).well_formed(),
            final(self)@ == (if old(self)@.registry.tabs.contains_key(id) {
                NavigationState {
                    registry: old(self)@.registry.with_tab(
                        id,
                        TabState { title, ..old(self)@.registry.tabs[id] },
                    ),
                    ..old(self)@
                }
            } else {
                old(self)@
            }),
    {
        self.tabs.update_tab_title(id, title);
        proof {
            self.tabs.lemma_content_well_formed();
            assert(self@.histories.dom() =~= self@.registry.tabs.dom());
        }
    }

    /// Takes the renderer's word on whether tab `id` is loading. Does
    /// nothing if the tab is gone.
    pub fn set_tab_loading(&mut self, id: TabId, loading: bool)
        requires
            old(self).well_formed(),
        ensures
            final(self).well_formed(),
            final(self)@ == (if old(self)@.registry.tabs.contains_key(id) {
                NavigationState {
                    registry: old(self)@.registry.with_tab(
                        id,
                        TabState { is_loading: loading, ..old(self)@.registry.tabs[id] },
                    ),
                    ..old(self)@
                }
            } else {
                old(self)@
            }),
    {
        self.tabs.set_tab_loading(id, loading);
        proof {
            self.tabs.lemma_content_well_formed();
            assert(self@.histories.dom() =~= self@.registry.tabs.dom());
        }
    }
}

impl NavigationService {
    /// Counts an error that was reported at `now` in the metrics.
    pub fn record_error(&mut self, message: &str, now: u64)
        requires
            old(self).well_formed(),
        ensures
            final(self).well_formed(),
            final(self)@ == (NavigationState {
                metrics: old(self)@.metrics.record_error(message@, now),
                ..old(self)@
            }),
    {
        self.metrics.record_error_at(message, now);
    }
}

} // verus!
