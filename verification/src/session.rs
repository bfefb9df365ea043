//! The interactive deleter: selecting, confirming, removing — one state
//! machine whose decisions are all here, while the terminal prompts and the
//! filesystem removals stay with the caller.

use vstd::prelude::*;

verus! {

/// Where the deleter stands.
pub enum Phase {
    /// Nothing was found: the run ends with no prompt at all.
    NoFiles,
    /// Waiting for the multi-selection over the found paths.
    Selecting,
    /// Waiting for the yes/no confirmation.
    Confirming,
    /// Confirmed: the selected paths are handed out one by one.
    Removing,
    /// The user answered no: the run ends with nothing deleted.
    Declined,
    /// Every selected path was handed out.
    Finished,
    /// A removal failed both as a directory and as a plain file: the run
    /// aborts and the remaining selection is left untouched.
    Failed,
}

/// One deletion session over the matcher's findings. Paths leave only
/// through `next_removal`, one by one, in selection order, and only after a
/// selection and a positive confirmation.
pub struct Session {
    pub found: Vec<String>,
    pub to_delete: Vec<String>,
    pub next: usize,
    pub phase: Phase,
}

impl Session {
    pub open spec fn wf(self) -> bool {
        self.next <= self.to_delete@.len()
    }

    /// Opens the session. With no matches at all the session is over before
    /// any prompt; otherwise the selection prompt is next.
    pub fn start(found: Vec<String>) -> (s: Session)
        ensures
            s.wf(),
            s.found == found,
            s.to_delete@.len() == 0,
            s.next == 0,
            s.phase is NoFiles <==> found@.len() == 0,
            found@.len() > 0 ==> s.phase is Selecting,
    {
        let phase = if found.len() == 0 {
            Phase::NoFiles
        } else {
            Phase::Selecting
        };
        Session { found, to_delete: Vec::new(), next: 0, phase }
    }

    /// Records the multi-selection: `to_delete` becomes exactly the found
    /// paths at the chosen indices, in the order chosen — empty when nothing
    /// was chosen. Confirmation is next either way.
    pub fn select(&mut self, chosen: &Vec<usize>)
        requires
            old(self).wf(),
            old(self).phase is Selecting,
            forall|i: int| 0 <= i < chosen@.len() ==> chosen@[i] < old(self).found@.len(),
        ensures
            final(self).wf(),
            final(self).phase is Confirming,
            final(self).found == old(self).found,
            final(self).next == 0,
            final(self).to_delete@.len() == chosen@.len(),
            forall|i: int|
                0 <= i < chosen@.len() ==> final(self).to_delete@[i] == old(self).found@[chosen@[i] as int],
    {
        let mut td: Vec<String> = Vec::new();
        let mut i: usize = 0;
        while i < chosen.len()
            invariant
                i <= chosen@.len(),
                td@.len() == i,
                forall|k: int| 0 <= k < chosen@.len() ==> chosen@[k] < self.found@.len(),
                forall|k: int| 0 <= k < i ==> td@[k] == self.found@[chosen@[k] as int],
            decreases chosen@.len() - i,
        {
            td.push(self.found[chosen[i]].clone());
            i = i + 1;
        }
        self.to_delete = td;
        self.next = 0;
        self.phase = Phase::Confirming;
    }

    /// Records the confirmation answer: yes moves on to removing with the
    /// selection intact, no ends the run with nothing deleted.
    pub fn confirm(&mut self, yes: bool)
        requires
            old(self).wf(),
            old(self).phase is Confirming,
        ensures
            final(self).wf(),
            final(self).found == old(self).found,
            final(self).to_delete == old(self).to_delete,
            final(self).next == 0,
            yes ==> final(self).phase is Removing,
            !yes ==> final(self).phase is Declined,
    {
        self.next = 0;
        self.phase = if yes {
            Phase::Removing
        } else {
            Phase::Declined
        };
    }

    /// Hands out the next selected path to remove, in selection order;
    /// `None` once every selected path was handed out, which finishes the
    /// run.
    pub fn next_removal(&mut self) -> (r: Option<String>)
        requires
            old(self).wf(),
            old(self).phase is Removing,
        ensures
            final(self).wf(),
            final(self).found == old(self).found,
            final(self).to_delete == old(self).to_delete,
            match r {
                Some(path) => {
                    &&& old(self).next < old(self).to_delete@.len()
                    &&& path == old(self).to_delete@[old(self).next as int]
                    &&& final(self).next == old(self).next + 1
                    &&& final(self).phase is Removing
                },
                None => {
                    &&& old(self).next == old(self).to_delete@.len()
                    &&& final(self).next == old(self).next
                    &&& final(self).phase is Finished
                },
            },
    {
        if self.next < self.to_delete.len() {
            let p = self.to_delete[self.next].clone();
            self.next = self.next + 1;
            Some(p)
        } else {
            self.phase = Phase::Finished;
            None
        }
    }

    /// Records that a removal failed both as a directory and as a plain
    /// file: the run aborts, and no further path is handed out.
    pub fn removal_failed(&mut self)
        requires
            old(self).wf(),
            old(self).phase is Removing,
        ensures
            final(self).wf(),
            final(self).found == old(self).found,
            final(self).to_delete == old(self).to_delete,
            final(self).next == old(self).next,
            final(self).phase is Failed,
    {
        self.phase = Phase::Failed;
    }
}

} // verus!
