//! Traversal bookkeeping for the directory walk.
//!
//! The file system itself is outside this crate: the caller enumerates a
//! directory's children and reports them here, and processes one file and
//! reports the outcome here. What is proved is the bookkeeping between those
//! calls: when the work stack runs empty, the files that were visited are
//! exactly the regular files that the enumerated listings offered — each of
//! them once — and a file whose processing failed changes nothing about the
//! rest of the traversal.

use vstd::prelude::*;
use vstd::seq_lib::group_to_multiset_ensures;
use vstd::seq_lib::lemma_multiset_commutative;
use vstd::multiset::group_multiset_axioms;
use vstd::multiset::Multiset;

verus! {

broadcast use group_to_multiset_ensures, group_multiset_axioms;

/// One directory entry as the file system reported it: its path and whether
/// it is itself a directory to recurse into.
#[derive(Clone, Debug)]
pub struct WalkEntry {
    pub path: String,
    pub is_dir: bool,
}

/// The abstract form of a directory entry.
pub struct EntryModel {
    pub path: Seq<char>,
    pub is_dir: bool,
}

impl View for WalkEntry {
    type V = EntryModel;

    open spec fn view(&self) -> EntryModel {
        EntryModel { path: self.path@, is_dir: self.is_dir }
    }
}

/// What the walk asks its caller to do next.
#[derive(Debug)]
pub enum WalkAction {
    /// Enumerate this directory's children and report them.
    EnterDirectory(String),
    /// Run the image pipeline on this regular file and report the outcome.
    VisitFile(String),
    /// Nothing reachable is left.
    Finished,
}

/// The paths of the regular files among a listing's entries, in order.
pub open spec fn file_paths(es: Seq<EntryModel>) -> Seq<Seq<char>>
    decreases es.len(),
{
    if es.len() == 0 {
        Seq::empty()
    } else if es.last().is_dir {
        file_paths(es.drop_last())
    } else {
        file_paths(es.drop_last()).push(es.last().path)
    }
}

/// The abstract state of a walk.
pub struct WalkModel {
    /// The work stack: entries not yet handled, the next one last.
    pub pending: Seq<EntryModel>,
    /// The regular files handled so far, in visit order.
    pub visited: Seq<Seq<char>>,
    /// The visited files whose processing failed, in visit order.
    pub failed: Seq<Seq<char>>,
    /// Every regular file any reported listing has offered so far.
    pub offered: Seq<Seq<char>>,
}

impl WalkModel {
    /// The walk's accounting balances: every offered file is either already
    /// visited or still on the work stack, with multiplicity.
    pub open spec fn wf(self) -> bool {
        self.visited.to_multiset().add(file_paths(self.pending).to_multiset())
            == self.offered.to_multiset()
    }

    /// The work stack has run empty.
    pub open spec fn finished(self) -> bool {
        self.pending.len() == 0
    }
}

/// A walk begins with the root directory as its only pending entry.
pub open spec fn walk_init(root: Seq<char>) -> WalkModel {
    WalkModel {
        pending: seq![EntryModel { path: root, is_dir: true }],
        visited: Seq::empty(),
        failed: Seq::empty(),
        offered: Seq::empty(),
    }
}

/// A directory's listing arrives: the directory leaves the stack and its
/// entries take its place; its regular files are now offered.
pub open spec fn step_directory(m: WalkModel, entries: Seq<EntryModel>) -> WalkModel {
    WalkModel {
        pending: m.pending.drop_last() + entries,
        offered: m.offered + file_paths(entries),
        ..m
    }
}

/// A file's processing finished: the file leaves the stack and is recorded
/// as visited — and, when it failed, as failed. Nothing else changes,
/// whichever way it went.
pub open spec fn step_file(m: WalkModel, ok: bool) -> WalkModel {
    WalkModel {
        pending: m.pending.drop_last(),
        visited: m.visited.push(m.pending.last().path),
        failed: if ok {
            m.failed
        } else {
            m.failed.push(m.pending.last().path)
        },
        ..m
    }
}

/// An empty sequence carries an empty multiset.
proof fn lemma_empty_to_multiset<A>(s: Seq<A>)
    requires
        s.len() == 0,
    ensures
        s.to_multiset() == Multiset::<A>::empty(),
{
    assert forall|a: A| s.to_multiset().count(a) == 0 by {
        assert(!s.contains(a));
    }
    assert(s.to_multiset() =~= Multiset::<A>::empty());
}

/// Splitting a stack splits the regular files on it.
proof fn lemma_file_paths_add(a: Seq<EntryModel>, b: Seq<EntryModel>)
    ensures
        file_paths(a + b) == file_paths(a) + file_paths(b),
    decreases b.len(),
{
    if b.len() == 0 {
        assert(a + b =~= a);
        assert(file_paths(a) + file_paths(b) =~= file_paths(a));
    } else {
        lemma_file_paths_add(a, b.drop_last());
        assert((a + b).drop_last() =~= a + b.drop_last());
        assert((a + b).last() == b.last());
        if b.last().is_dir {
            assert(file_paths(b) == file_paths(b.drop_last()));
        } else {
            assert(file_paths(b) == file_paths(b.drop_last()).push(b.last().path));
            assert(file_paths(a) + file_paths(b.drop_last()).push(b.last().path) =~= (file_paths(a)
                + file_paths(b.drop_last())).push(b.last().path));
        }
    }
}

/// The walk in progress, driven by the caller one action at a time.
pub struct DirectoryWalker {
    pending: Vec<WalkEntry>,
    visited: Vec<String>,
    failed: Vec<String>,
    offered: Ghost<Seq<Seq<char>>>,
}

impl View for DirectoryWalker {
    type V = WalkModel;

    closed spec fn view(&self) -> WalkModel {
        WalkModel {
            pending: self.pending@.map_values(|e: WalkEntry| e@),
            visited: self.visited@.map_values(|s: String| s@),
            failed: self.failed@.map_values(|s: String| s@),
            offered: self.offered@,
        }
    }
}

impl DirectoryWalker {
    /// Starts a walk at the resolved root directory.
    pub fn new(root: String) -> (w: Self)
        ensures
            w@ == walk_init(root@),
            w@.wf(),
    {
        let mut pending: Vec<WalkEntry> = Vec::new();
        pending.push(WalkEntry { path: root, is_dir: true });
        let w = DirectoryWalker {
            pending,
            visited: Vec::new(),
            failed: Vec::new(),
            offered: Ghost(Seq::empty()),
        };
        proof {
            assert(w@.pending =~= walk_init(w.pending@[0].path@).pending);
            assert(w@.visited =~= Seq::<Seq<char>>::empty());
            assert(w@.failed =~= Seq::<Seq<char>>::empty());
            assert(w@.pending.drop_last() =~= Seq::<EntryModel>::empty());
            assert(file_paths(w@.pending) == file_paths(w@.pending.drop_last()));
            lemma_empty_to_multiset(w@.visited);
            lemma_empty_to_multiset(file_paths(w@.pending));
            lemma_empty_to_multiset(w@.offered);
            assert(w@.visited.to_multiset().add(file_paths(w@.pending).to_multiset())
                =~= w@.offered.to_multiset());
        }
        w
    }

    /// What the caller must do next: enumerate a directory, process a file,
    /// or stop.
    pub fn next_action(&self) -> (a: WalkAction)
        ensures
            self@.finished() ==> a is Finished,
            !self@.finished() && self@.pending.last().is_dir ==> (a matches
                WalkAction::EnterDirectory(p) && p@ == self@.pending.last().path),
            !self@.finished() && !self@.pending.last().is_dir ==> (a matches WalkAction::VisitFile(
                p,
            ) && p@ == self@.pending.last().path),
    {
        if self.pending.len() == 0 {
            WalkAction::Finished
        } else {
            let e = &self.pending[self.pending.len() - 1];
            if e.is_dir {
                WalkAction::EnterDirectory(e.path.clone())
            } else {
                WalkAction::VisitFile(e.path.clone())
            }
        }
    }

    /// Reports the children of the directory the walk asked about. The
    /// listing's regular files become owed visits.
    pub fn on_directory_entries(&mut self, entries: Vec<WalkEntry>)
        requires
            old(self)@.wf(),
            !old(self)@.finished(),
            old(self)@.pending.last().is_dir,
        ensures
            final(self)@ == step_directory(old(self)@, entries@.map_values(|e: WalkEntry| e@)),
            final(self)@.wf(),
    {
        let ghost before = self@;
        let ghost entry_views = entries@.map_values(|e: WalkEntry| e@);
        let mut entries = entries;
        self.pending.pop();
        proof {
            assert(self@.pending =~= before.pending.drop_last());
        }
        self.pending.append(&mut entries);
        proof {
            self.offered@ = self.offered@ + file_paths(entry_views);
        }
        proof {
            assert(self@.pending =~= before.pending.drop_last() + entry_views);
            assert(self@ =~= step_directory(before, entry_views));
            // The accounting still balances: the popped entry was a
            // directory, so the stack's files gained exactly the listing's.
            assert(file_paths(before.pending) == file_paths(before.pending.drop_last()));
            lemma_file_paths_add(before.pending.drop_last(), entry_views);
            lemma_multiset_commutative(
                file_paths(before.pending.drop_last()),
                file_paths(entry_views),
            );
            lemma_multiset_commutative(before.offered, file_paths(entry_views));
            assert(self@.visited.to_multiset().add(file_paths(self@.pending).to_multiset())
                =~= self@.offered.to_multiset());
        }
    }

    /// Reports that the file the walk asked about was processed, and whether
    /// processing succeeded. A failure is recorded and the walk goes on
    /// exactly as on success.
    pub fn on_file_visited(&mut self, ok: bool)
        requires
            old(self)@.wf(),
            !old(self)@.finished(),
            !old(self)@.pending.last().is_dir,
        ensures
            final(self)@ == step_file(old(self)@, ok),
            final(self)@.wf(),
    {
        let ghost before = self@;
        let popped = self.pending.pop();
        match popped {
            Some(e) => {
                if !ok {
                    self.failed.push(e.path.clone());
                }
                self.visited.push(e.path);
            },
            None => {
                proof {
                    assert(false);
                }
            },
        }
        proof {
            assert(self@.pending =~= before.pending.drop_last());
            assert(self@.visited =~= before.visited.push(before.pending.last().path));
            if ok {
                assert(self@.failed =~= before.failed);
            } else {
                assert(self@.failed =~= before.failed.push(before.pending.last().path));
            }
            assert(self@ =~= step_file(before, ok));
            // The accounting still balances: the file moved from the stack's
            // files to the visited ones.
            assert(file_paths(before.pending) == file_paths(before.pending.drop_last()).push(
                before.pending.last().path,
            ));
            assert(self@.visited.to_multiset().add(file_paths(self@.pending).to_multiset())
                =~= self@.offered.to_multiset());
        }
    }

    /// The files visited so far, in visit order.
    pub fn visited(&self) -> (v: &Vec<String>)
        ensures
            v@.map_values(|s: String| s@) == self@.visited,
    {
        &self.visited
    }

    /// The visited files whose processing failed, in visit order.
    pub fn failed(&self) -> (v: &Vec<String>)
        ensures
            v@.map_values(|s: String| s@) == self@.failed,
    {
        &self.failed
    }
}

/// Once the walk has finished, the visited files are exactly the regular
/// files the listings offered: each reachable regular file was visited
/// exactly as often as it was encountered — once, on an unchanging file
/// system — no matter in which order the entries were handled.
pub proof fn lemma_every_offered_file_visited_once(m: WalkModel)
    requires
        m.wf(),
        m.finished(),
    ensures
        m.visited.to_multiset() == m.offered.to_multiset(),
        forall|p: Seq<char>|
            #[trigger] m.visited.to_multiset().count(p) == m.offered.to_multiset().count(p),
{
    assert(m.pending =~= Seq::<EntryModel>::empty());
    assert(file_paths(m.pending) == Seq::<Seq<char>>::empty());
    assert(m.visited.to_multiset().add(file_paths(m.pending).to_multiset())
        =~= m.visited.to_multiset());
}

/// On an unchanging file system no listing offers the same regular file
/// twice, and then no file is visited twice either: the walk neither skips
/// nor revisits.
pub proof fn lemma_finished_walk_has_no_revisits(m: WalkModel)
    requires
        m.wf(),
        m.finished(),
        m.offered.no_duplicates(),
    ensures
        m.visited.no_duplicates(),
{
    lemma_every_offered_file_visited_once(m);
    m.offered.lemma_multiset_has_no_duplicates();
    m.visited.lemma_multiset_has_no_duplicates_conv();
}

/// A file whose processing failed does not disturb the walk: the remaining
/// work, the visit record and the offered files are the same as if it had
/// succeeded; only the failure record differs.
pub proof fn lemma_file_failure_does_not_stop_walk(m: WalkModel)
    requires
        !m.finished(),
        !m.pending.last().is_dir,
    ensures
        step_file(m, false).pending == step_file(m, true).pending,
        step_file(m, false).visited == step_file(m, true).visited,
        step_file(m, false).offered == step_file(m, true).offered,
{
}

} // verus!
