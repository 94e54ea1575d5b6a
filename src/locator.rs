//! The decisions of a test search: which walked entries are searched, and
//! when the walk stops.
//!
//! The caller walks the tree and searches files; the [`Locator`] is told of
//! each entry and of each search result, and says what to do next. Its ghost
//! trace records every entry offered together with what searching it found.

use vstd::prelude::*;
use crate::naming::{is_test_file, is_test_file_path};

verus! {

/// The type of a walked entry, as far as the walk could determine it.
#[derive(Clone, Copy, Debug, PartialEq, Eq, Structural)]
pub enum EntryKind {
    File,
    Other,
    Unknown,
}

/// One item of a directory walk.
pub enum WalkItem {
    /// An entry that could not be read.
    Failed,
    Entry { kind: EntryKind, path: String },
}

/// Whether the search looks into this item: a regular file whose name ends
/// in `_test.go`.
pub open spec fn is_candidate(item: WalkItem) -> bool {
    match item {
        WalkItem::Entry { kind, path } => kind == EntryKind::File && is_test_file_path(path@),
        WalkItem::Failed => false,
    }
}

pub open spec fn item_path(item: WalkItem) -> Seq<char> {
    match item {
        WalkItem::Entry { path, .. } => path@,
        WalkItem::Failed => Seq::empty(),
    }
}

/// A visited item that was searched and holds a matching declaration.
pub open spec fn is_hit(v: (WalkItem, bool)) -> bool {
    is_candidate(v.0) && v.1
}

/// The path of the first hit of a trace, in walk order.
pub open spec fn first_hit(t: Seq<(WalkItem, bool)>) -> Option<Seq<char>>
    decreases t.len(),
{
    if t.len() == 0 {
        None
    } else {
        match first_hit(t.drop_last()) {
            Some(p) => Some(p),
            None => if is_hit(t.last()) {
                Some(item_path(t.last().0))
            } else {
                None
            },
        }
    }
}

/// The paths of the candidates of a trace, in walk order.
pub open spec fn candidate_paths(t: Seq<(WalkItem, bool)>) -> Seq<Seq<char>>
    decreases t.len(),
{
    if t.len() == 0 {
        Seq::empty()
    } else {
        let rest = candidate_paths(t.drop_last());
        if is_candidate(t.last().0) {
            rest.push(item_path(t.last().0))
        } else {
            rest
        }
    }
}

#[derive(Clone, Copy, Debug, PartialEq, Eq, Structural)]
pub enum Phase {
    /// Waiting for the next item of the walk.
    Walking,
    /// Waiting for the result of searching the last item.
    Searching,
    /// A matching file was found; the walk is over.
    Found,
    /// The walk ended without a match.
    Exhausted,
}

pub struct Locator {
    pub phase: Phase,
    /// The path of the item whose search result is awaited, or of the match.
    pub pending: String,
    /// Every item offered, with what searching it found (`false` when it was
    /// not searched).
    pub visits: Ghost<Seq<(WalkItem, bool)>>,
    /// The paths searched, in order.
    pub searched: Ghost<Seq<Seq<char>>>,
}

impl Locator {
    pub open spec fn wf(&self) -> bool {
        &&& self.searched@ == candidate_paths(self.visits@)
        &&& (self.phase == Phase::Walking || self.phase == Phase::Exhausted) ==> first_hit(
            self.visits@,
        ) is None
        &&& self.phase == Phase::Searching ==> {
            &&& self.visits@.len() > 0
            &&& is_candidate(self.visits@.last().0)
            &&& !self.visits@.last().1
            &&& first_hit(self.visits@) is None
            &&& self.pending@ == item_path(self.visits@.last().0)
        }
        &&& self.phase == Phase::Found ==> first_hit(self.visits@) == Some(self.pending@)
    }

    /// A search that has seen nothing yet.
    pub fn new() -> (r: Locator)
        ensures
            r.wf(),
            r.phase == Phase::Walking,
            r.visits@ == Seq::<(WalkItem, bool)>::empty(),
            r.searched@ == Seq::<Seq<char>>::empty(),
    {
        Locator {
            phase: Phase::Walking,
            pending: String::new(),
            visits: Ghost(Seq::empty()),
            searched: Ghost(Seq::empty()),
        }
    }

    /// Takes the next item of the walk; returns whether it must be searched.
    pub fn offer(&mut self, item: WalkItem) -> (search: bool)
        requires
            old(self).wf(),
            old(self).phase == Phase::Walking,
        ensures
            final(self).wf(),
            search == is_candidate(item),
            final(self).visits@ == old(self).visits@.push((item, false)),
            final(self).searched@ == (if search {
                old(self).searched@.push(item_path(item))
            } else {
                old(self).searched@
            }),
            final(self).phase == (if search {
                Phase::Searching
            } else {
                Phase::Walking
            }),
    {
        let ghost g = item;
        let ghost t = self.visits@.push((item, false));
        let search = match item {
            WalkItem::Entry { kind, path } => {
                if kind == EntryKind::File && is_test_file(path.as_str()) {
                    self.pending = path;
                    true
                } else {
                    false
                }
            },
            WalkItem::Failed => false,
        };
        self.visits = Ghost(t);
        proof {
            assert(t.drop_last() =~= old(self).visits@);
        }
        self.searched = Ghost(
            if search {
                old(self).searched@.push(item_path(g))
            } else {
                old(self).searched@
            },
        );
        self.phase = if search {
            Phase::Searching
        } else {
            Phase::Walking
        };
        search
    }

    /// Takes the result of searching the last item; returns its path when it
    /// holds a match, which ends the walk.
    pub fn report(&mut self, found: bool) -> (r: Option<String>)
        requires
            old(self).wf(),
            old(self).phase == Phase::Searching,
        ensures
            final(self).wf(),
            final(self).visits@ == old(self).visits@.update(
                old(self).visits@.len() - 1,
                (old(self).visits@.last().0, found),
            ),
            final(self).searched@ == old(self).searched@,
            r is Some == found,
            final(self).phase == (if found {
                Phase::Found
            } else {
                Phase::Walking
            }),
            match r {
                Some(p) => first_hit(final(self).visits@) == Some(p@),
                None => first_hit(final(self).visits@) is None,
            },
    {
        let ghost old_t = self.visits@;
        let ghost t = old_t.update(old_t.len() - 1, (old_t.last().0, found));
        proof {
            assert(t.drop_last() =~= old_t.drop_last());
            assert(t.last() == (old_t.last().0, found));
            assert(candidate_paths(t) == candidate_paths(old_t));
        }
        self.visits = Ghost(t);
        if found {
            self.phase = Phase::Found;
            Some(self.pending.clone())
        } else {
            self.phase = Phase::Walking;
            None
        }
    }

    /// Ends the walk after its last item: nothing was found.
    pub fn finish(&mut self)
        requires
            old(self).wf(),
            old(self).phase == Phase::Walking,
        ensures
            final(self).wf(),
            final(self).phase == Phase::Exhausted,
            final(self).visits@ == old(self).visits@,
            final(self).searched@ == candidate_paths(final(self).visits@),
            first_hit(final(self).visits@) is None,
    {
        self.phase = Phase::Exhausted;
    }
}

/// A trace without hits has no first hit.
pub proof fn lemma_no_hit(t: Seq<(WalkItem, bool)>)
    requires
        forall|k: int| 0 <= k < t.len() ==> !is_hit(#[trigger] t[k]),
    ensures
        first_hit(t) is None,
    decreases t.len(),
{
    if t.len() > 0 {
        lemma_no_hit(t.drop_last());
    }
}

/// The first hit is the earliest searched item that matched.
pub proof fn lemma_earliest_hit(t: Seq<(WalkItem, bool)>, i: int)
    requires
        0 <= i < t.len(),
        is_hit(t[i]),
        forall|k: int| 0 <= k < i ==> !is_hit(#[trigger] t[k]),
    ensures
        first_hit(t) == Some(item_path(t[i].0)),
    decreases t.len(),
{
    if i == t.len() - 1 {
        lemma_no_hit(t.drop_last());
    } else {
        lemma_earliest_hit(t.drop_last(), i);
    }
}

/// When exactly one searched file matches, the search returns its path,
/// whatever other entries the walk holds.
pub proof fn law_single_match_is_found(t: Seq<(WalkItem, bool)>, i: int)
    requires
        0 <= i < t.len(),
        is_hit(t[i]),
        forall|k: int| 0 <= k < t.len() && k != i ==> !is_hit(#[trigger] t[k]),
    ensures
        first_hit(t) == Some(item_path(t[i].0)),
{
    lemma_earliest_hit(t, i);
}

/// When no searched file matches, the search finds nothing.
pub proof fn law_no_match_not_found(t: Seq<(WalkItem, bool)>)
    requires
        forall|k: int| 0 <= k < t.len() ==> !is_hit(#[trigger] t[k]),
    ensures
        first_hit(t) is None,
{
    lemma_no_hit(t);
}

/// When two searched files match, the search returns exactly one path: that
/// of the one met first in the walk.
pub proof fn law_two_matches_first_wins(t: Seq<(WalkItem, bool)>, i: int, j: int)
    requires
        0 <= i < j < t.len(),
        is_hit(t[i]),
        is_hit(t[j]),
        forall|k: int| 0 <= k < t.len() && k != i && k != j ==> !is_hit(#[trigger] t[k]),
    ensures
        first_hit(t) == Some(item_path(t[i].0)),
{
    lemma_earliest_hit(t, i);
}

} // verus!

verus! {

/// Records whether a file search met a matching line.
pub struct SimpleSink {
    pub found: bool,
}

impl SimpleSink {
    /// A sink that has seen no match.
    pub fn new() -> (r: SimpleSink)
        ensures
            !r.found,
    {
        SimpleSink { found: false }
    }

    /// Forgets any earlier match, before the next file is searched.
    pub fn reset(&mut self)
        ensures
            !final(self).found,
    {
        self.found = false
    }

    /// Records a matching line; returns whether the search should go on,
    /// which it should not: one match settles the file.
    pub fn matched(&mut self) -> (go_on: bool)
        ensures
            final(self).found,
            !go_on,
    {
        self.found = true;
        false
    }
}

} // verus!
