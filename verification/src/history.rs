//! Back/forward navigation history of one tab, kept as a sequence of entries
//! and a cursor that marks the current page.

use vstd::prelude::*;
use std::time::Instant;
use crate::clock::instant_now;

verus! {

/// One visited page.
#[derive(Debug)]
pub struct HistoryEntry {
    /// Address of the page.
    pub url: String,
    /// Title of the page, where one is known.
    pub title: Option<String>,
    /// When the entry was created.
    pub visit_time: Instant,
}

impl HistoryEntry {
    /// Creates an entry for `url`, stamped with the time of the call.
    pub fn new(url: String, title: Option<String>) -> (entry: Self)
        ensures
            entry.url == url,
            entry.title == title,
    {
        HistoryEntry { url, title, visit_time: instant_now() }
    }
}

impl Clone for HistoryEntry {
    fn clone(&self) -> (copy: Self)
        ensures
            copy == *self,
    {
        let title = match &self.title {
            None => None,
            Some(text) => Some(text.clone()),
        };
        HistoryEntry { url: self.url.clone(), title, visit_time: self.visit_time.clone() }
    }
}

/// The mathematical content of a [`TabHistory`]: the entries in the order of
/// their visits, and the position of the current one.
pub struct HistoryState {
    /// The entries, oldest first.
    pub entries: Seq<HistoryEntry>,
    /// Index of the current entry.
    pub cursor: Option<int>,
}

impl HistoryState {
    /// The cursor is absent exactly when there is no entry, and otherwise
    /// points at one.
    pub open spec fn well_formed(self) -> bool {
        match self.cursor {
            None => self.entries.len() == 0,
            Some(i) => 0 <= i < self.entries.len(),
        }
    }

    /// The history of a tab that has not visited anything.
    pub open spec fn empty() -> Self {
        HistoryState { entries: Seq::empty(), cursor: None }
    }

    /// There is an entry before the cursor.
    pub open spec fn can_go_back(self) -> bool {
        self.cursor matches Some(i) && i > 0
    }

    /// There is an entry after the cursor.
    pub open spec fn can_go_forward(self) -> bool {
        self.cursor matches Some(i) && i < self.entries.len() - 1
    }

    /// The entry under the cursor.
    pub open spec fn current(self) -> Option<HistoryEntry> {
        match self.cursor {
            None => None,
            Some(i) => Some(self.entries[i]),
        }
    }

    /// Entries up to and including the cursor; all of them when the history
    /// is empty.
    pub open spec fn kept_by_push(self) -> Seq<HistoryEntry> {
        match self.cursor {
            None => self.entries,
            Some(i) => self.entries.subrange(0, i + 1),
        }
    }

    /// A visit of `entry`: whatever lies after the cursor is dropped, the
    /// entry is appended and becomes the current one.
    pub open spec fn push(self, entry: HistoryEntry) -> Self {
        HistoryState {
            entries: self.kept_by_push().push(entry),
            cursor: Some(self.kept_by_push().len() as int),
        }
    }

    /// One step towards the oldest entry; no change at the first entry or in
    /// an empty history.
    pub open spec fn back(self) -> Self {
        if self.can_go_back() {
            HistoryState { entries: self.entries, cursor: Some(self.cursor.unwrap() - 1) }
        } else {
            self
        }
    }

    /// One step towards the newest entry; no change at the last entry or in
    /// an empty history.
    pub open spec fn forward(self) -> Self {
        if self.can_go_forward() {
            HistoryState { entries: self.entries, cursor: Some(self.cursor.unwrap() + 1) }
        } else {
            self
        }
    }
}

/// One step of browsing, as far as the history is concerned.
pub enum HistoryOp {
    /// A visit of a new page.
    Push(HistoryEntry),
    /// The back button.
    Back,
    /// The forward button.
    Forward,
}

impl HistoryState {
    /// The state after one step.
    pub open spec fn apply(self, op: HistoryOp) -> Self {
        match op {
            HistoryOp::Push(entry) => self.push(entry),
            HistoryOp::Back => self.back(),
            HistoryOp::Forward => self.forward(),
        }
    }

    /// The state that a sequence of steps leaves behind, starting from an
    /// empty history.
    pub open spec fn replay(ops: Seq<HistoryOp>) -> Self
        decreases ops.len(),
    {
        if ops.len() == 0 {
            Self::empty()
        } else {
            Self::replay(ops.drop_last()).apply(ops.last())
        }
    }
}

/// Every step keeps a well-formed history well-formed.
pub proof fn lemma_apply_well_formed(state: HistoryState, op: HistoryOp)
    requires
        state.well_formed(),
    ensures
        state.apply(op).well_formed(),
{
}

/// Whatever the steps, the history they leave behind is well-formed.
pub proof fn lemma_replay_well_formed(ops: Seq<HistoryOp>)
    ensures
        HistoryState::replay(ops).well_formed(),
    decreases ops.len(),
{
    if ops.len() > 0 {
        lemma_replay_well_formed(ops.drop_last());
        lemma_apply_well_formed(HistoryState::replay(ops.drop_last()), ops.last());
    }
}

/// Going back and then forward leaves the history exactly as it was, the
/// current entry included. The one position left out is the first entry of a
/// history that has newer ones: there `back` does nothing and `forward` then
/// moves on.
pub proof fn law_back_then_forward_restores(ops: Seq<HistoryOp>)
    requires
        HistoryState::replay(ops).can_go_back() || !HistoryState::replay(ops).can_go_forward(),
    ensures
        HistoryState::replay(ops).back().forward() == HistoryState::replay(ops),
        HistoryState::replay(ops).back().forward().current() == HistoryState::replay(
            ops,
        ).current(),
{
    lemma_replay_well_formed(ops);
}

/// Going forward and then back leaves the history exactly as it was. The one
/// position left out is the last entry of a history that has older ones.
pub proof fn law_forward_then_back_restores(ops: Seq<HistoryOp>)
    requires
        HistoryState::replay(ops).can_go_forward() || !HistoryState::replay(ops).can_go_back(),
    ensures
        HistoryState::replay(ops).forward().back() == HistoryState::replay(ops),
{
    lemma_replay_well_formed(ops);
}

/// `can_go_back` and `can_go_forward` follow the cursor exactly: neither
/// holds in an empty history or in one with a single entry, going back is
/// possible everywhere but at the first entry, going forward everywhere but
/// at the last.
pub proof fn law_boundaries_follow_cursor(ops: Seq<HistoryOp>)
    ensures
        ({
            let h = HistoryState::replay(ops);
            &&& h.entries.len() == 0 ==> h.cursor is None && !h.can_go_back() && !h.can_go_forward()
            &&& h.entries.len() == 1 ==> h.cursor == Some(0int) && !h.can_go_back()
                && !h.can_go_forward()
            &&& h.entries.len() > 0 ==> h.cursor is Some
            &&& h.cursor matches Some(i) ==> {
                &&& 0 <= i < h.entries.len()
                &&& h.can_go_back() == (i != 0)
                &&& h.can_go_forward() == (i != h.entries.len() - 1)
            }
        }),
{
    lemma_replay_well_formed(ops);
}

/// A visit from a position that is not the last keeps every entry up to and
/// including the cursor, drops every entry after it, and puts the new entry
/// right behind the cursor, where it becomes the current one.
pub proof fn law_push_discards_forward_entries(state: HistoryState, entry: HistoryEntry)
    requires
        state.well_formed(),
        state.can_go_forward(),
    ensures
        ({
            let i = state.cursor.unwrap();
            let after = state.push(entry);
            &&& after.entries.len() == i + 2
            &&& forall|k: int| 0 <= k <= i ==> after.entries[k] == state.entries[k]
            &&& after.entries[i + 1] == entry
            &&& after.cursor == Some(i + 1)
            &&& !after.can_go_forward()
            &&& after.well_formed()
        }),
{
}

/// The entry that an optional reference points at.
pub open spec fn pointee(entry: Option<&HistoryEntry>) -> Option<HistoryEntry> {
    match entry {
        None => None,
        Some(e) => Some(*e),
    }
}

/// Navigation history of one tab.
#[derive(Debug)]
pub struct TabHistory {
    entries: Vec<HistoryEntry>,
    current_index: Option<usize>,
}

impl View for TabHistory {
    type V = HistoryState;

    closed spec fn view(&self) -> HistoryState {
        HistoryState {
            entries: self.entries@,
            cursor: match self.current_index {
                None => None,
                Some(i) => Some(i as int),
            },
        }
    }
}

impl Clone for TabHistory {
    fn clone(&self) -> (copy: Self)
        ensures
            copy@ == self@,
    {
        proof {
            use_type_invariant(self);
        }
        let mut entries: Vec<HistoryEntry> = Vec::new();
        let mut i: usize = 0;
        while i < self.entries.len()
            invariant
                i <= self.entries.len(),
                entries@ == self.entries@.subrange(0, i as int),
            decreases self.entries.len() - i,
        {
            entries.push(self.entries[i].clone());
            i += 1;
        }
        assert(entries@ == self.entries@);
        TabHistory { entries, current_index: self.current_index }
    }
}

impl Default for TabHistory {
    fn default() -> (history: Self)
        ensures
            history@ == HistoryState::empty(),
    {
        TabHistory::new()
    }
}

impl TabHistory {
    #[verifier::type_invariant]
    spec fn inv(self) -> bool {
        self@.well_formed()
    }

    /// An empty history.
    pub fn new() -> (history: Self)
        ensures
            history@ == HistoryState::empty(),
    {
        TabHistory { entries: Vec::new(), current_index: None }
    }

    /// Visits `url`: forward history beyond the cursor is discarded, the new
    /// entry is appended and becomes current.
    pub fn push(&mut self, url: String, title: Option<String>)
        ensures
            final(self)@.entries.last().url == url,
            final(self)@.entries.last().title == title,
            final(self)@ == old(self)@.push(final(self)@.entries.last()),
            final(self)@.well_formed(),
    {
        proof {
            use_type_invariant(&*self);
        }
        let entry = HistoryEntry::new(url, title);
        let mut taken = TabHistory::new();
        std::mem::swap(self, &mut taken);
        let TabHistory { mut entries, current_index } = taken;
        let cursor = match current_index {
            None => 0,
            Some(index) => {
                assert(index < entries.len());
                entries.truncate(index + 1);
                index + 1
            },
        };
        entries.push(entry);
        *self = TabHistory { entries, current_index: Some(cursor) };
    }

    /// Whether an older entry lies before the cursor.
    pub fn can_go_back(&self) -> (possible: bool)
        ensures
            possible == self@.can_go_back(),
    {
        match self.current_index {
            None => false,
            Some(index) => index > 0,
        }
    }

    /// Whether a newer entry lies after the cursor.
    pub fn can_go_forward(&self) -> (possible: bool)
        ensures
            possible == self@.can_go_forward(),
    {
        proof {
            use_type_invariant(self);
        }
        match self.current_index {
            None => false,
            Some(index) => index < self.entries.len() - 1,
        }
    }

    /// Steps back one entry and returns it, or returns `None` and changes
    /// nothing when there is no older entry.
    pub fn go_back(&mut self) -> (entry: Option<&HistoryEntry>)
        ensures
            final(self)@ == old(self)@.back(),
            final(self)@.well_formed(),
            pointee(entry) == (if old(self)@.can_go_back() {
                final(self)@.current()
            } else {
                None
            }),
    {
        proof {
            use_type_invariant(&*self);
        }
        if let Some(index) = self.current_index {
            if index > 0 {
                self.current_index = Some(index - 1);
                return Some(&self.entries[index - 1]);
            }
        }
        None
    }

    /// Steps forward one entry and returns it, or returns `None` and changes
    /// nothing when there is no newer entry.
    pub fn go_forward(&mut self) -> (entry: Option<&HistoryEntry>)
        ensures
            final(self)@ == old(self)@.forward(),
            final(self)@.well_formed(),
            pointee(entry) == (if old(self)@.can_go_forward() {
                final(self)@.current()
            } else {
                None
            }),
    {
        proof {
            use_type_invariant(&*self);
        }
        if let Some(index) = self.current_index {
            if index < self.entries.len() - 1 {
                self.current_index = Some(index + 1);
                return Some(&self.entries[index + 1]);
            }
        }
        None
    }

    /// The entry under the cursor.
    pub fn current(&self) -> (entry: Option<&HistoryEntry>)
        ensures
            pointee(entry) == self@.current(),
    {
        proof {
            use_type_invariant(self);
        }
        match self.current_index {
            None => None,
            Some(index) => Some(&self.entries[index]),
        }
    }

    /// Address of the current entry.
    pub fn current_url(&self) -> (url: Option<&str>)
        ensures
            match url {
                None => self@.current() is None,
                Some(text) => self@.current() matches Some(e) && text@ == e.url@,
            },
    {
        match self.current() {
            None => None,
            Some(entry) => Some(entry.url.as_str()),
        }
    }

    /// Title of the current entry, where it has one.
    pub fn current_title(&self) -> (title: Option<&str>)
        ensures
            match title {
                None => !(self@.current() matches Some(e) && e.title is Some),
                Some(text) => self@.current() matches Some(e) && e.title matches Some(t) && text@
                    == t@,
            },
    {
        match self.current() {
            None => None,
            Some(entry) => match &entry.title {
                None => None,
                Some(text) => Some(text.as_str()),
            },
        }
    }

    /// Number of entries, those after the cursor included.
    pub fn len(&self) -> (count: usize)
        ensures
            count == self@.entries.len(),
            self@.well_formed(),
    {
        proof {
            use_type_invariant(self);
        }
        self.entries.len()
    }

    /// Whether nothing has been visited yet.
    pub fn is_empty(&self) -> (empty: bool)
        ensures
            empty == (self@.entries.len() == 0),
    {
        self.entries.is_empty()
    }

    /// All entries, oldest first.
    pub fn entries(&self) -> (all: &[HistoryEntry])
        ensures
            all@ == self@.entries,
    {
        self.entries.as_slice()
    }

    /// Position of the cursor.
    pub fn current_index(&self) -> (index: Option<usize>)
        ensures
            match index {
                None => self@.cursor is None,
                Some(i) => self@.cursor == Some(i as int),
            },
            self@.well_formed(),
    {
        proof {
            use_type_invariant(self);
        }
        self.current_index
    }
}

} // verus!
