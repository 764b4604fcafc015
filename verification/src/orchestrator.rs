//! The build loop's decision core: which target to hand to the external
//! build collaborator next, and what a recorded exit status means for the
//! rest of the run. The first non-zero exit code aborts the whole run; no
//! later target is ever scheduled after it.

use vstd::prelude::*;
use crate::target::Target;

verus! {

/// The state of a sequential multi-target build run.
///
/// The surrounding binary drives the loop: as long as [`BuildRun::next_target`]
/// yields a target, it invokes the external build collaborator for it and
/// records the resulting exit status with [`BuildRun::record_exit`].
pub struct BuildRun {
    /// The resolved target set, in build order.
    pub targets: Vec<Target>,
    /// How many targets have been built successfully so far.
    pub done: usize,
    /// The first non-zero exit code, if a build has failed.
    pub failure: Option<i32>,
}

impl BuildRun {
    /// Well-formedness: progress stays in bounds, and a recorded failure is
    /// a real one (non-zero, with the failing target still pending).
    pub open spec fn wf(self) -> bool {
        &&& self.targets@.len() <= usize::MAX
        &&& self.done <= self.targets@.len()
        &&& (self.failure matches Some(c) ==> c != 0 && self.done < self.targets@.len())
    }

    /// The target the build collaborator must be invoked for next, if the
    /// run is still going.
    pub open spec fn next_target_spec(self) -> Option<Target> {
        if self.failure is Some {
            None
        } else if self.done < self.targets@.len() {
            Some(self.targets@[self.done as int])
        } else {
            None
        }
    }

    /// Whether every target has been built successfully — the condition that
    /// gates artifact collection.
    pub open spec fn all_succeeded_spec(self) -> bool {
        self.failure is None && self.done == self.targets@.len()
    }

    /// The state after recording one exit status for the pending target.
    pub open spec fn step_spec(self, code: i32) -> BuildRun {
        if code == 0 {
            BuildRun { done: (self.done + 1) as usize, ..self }
        } else {
            BuildRun { failure: Some(code), ..self }
        }
    }

    /// Starts a run over a non-empty resolved target set.
    pub fn new(targets: Vec<Target>) -> (r: BuildRun)
        requires
            targets@.len() > 0,
        ensures
            r.wf(),
            r.targets@ == targets@,
            r.done == 0,
            r.failure is None,
    {
        let n = targets.len();
        proof {
            assert(n == targets@.len());
        }
        BuildRun { targets, done: 0, failure: None }
    }

    /// The next target to invoke the build collaborator for, or `None` once
    /// the run has finished (successfully or not).
    pub fn next_target(&self) -> (r: Option<Target>)
        requires
            self.wf(),
        ensures
            r == self.next_target_spec(),
    {
        if self.failure.is_some() {
            None
        } else if self.done < self.targets.len() {
            Some(self.targets[self.done])
        } else {
            None
        }
    }

    /// Records the exit status of the build for the pending target: zero
    /// advances the run, anything else aborts it with that code.
    pub fn record_exit(&mut self, code: i32)
        requires
            old(self).wf(),
            old(self).next_target_spec() is Some,
        ensures
            final(self).wf(),
            *final(self) == old(self).step_spec(code),
    {
        if code == 0 {
            proof {
                assert(old(self).done < old(self).targets@.len());
            }
            self.done = self.done + 1;
        } else {
            self.failure = Some(code);
        }
    }

    /// Whether every target was built successfully.
    pub fn all_succeeded(&self) -> (r: bool)
        requires
            self.wf(),
        ensures
            r == self.all_succeeded_spec(),
    {
        self.failure.is_none() && self.done == self.targets.len()
    }

    /// The exit code of the whole run, once no target is pending: the first
    /// failing build's own code, or zero after full success.
    pub fn exit_code(&self) -> (r: i32)
        requires
            self.wf(),
            self.next_target_spec() is None,
        ensures
            self.failure matches Some(c) ==> r == c && r != 0,
            self.failure is None ==> r == 0 && self.all_succeeded_spec(),
    {
        match self.failure {
            Some(c) => c,
            None => 0,
        }
    }
}

/// The state after recording a whole sequence of exit statuses, each step
/// taken only while a target is still pending.
pub open spec fn apply_exits(r: BuildRun, codes: Seq<i32>) -> BuildRun
    decreases codes.len(),
{
    if codes.len() == 0 {
        r
    } else if r.next_target_spec() is Some {
        apply_exits(r.step_spec(codes[0]), codes.skip(1))
    } else {
        r
    }
}

/// Law: once a build has failed, no further target is ever scheduled, and
/// the recorded failure code survives whatever is recorded afterwards —
/// the run stops at the first non-zero exit code.
pub proof fn lemma_no_build_after_failure(r: BuildRun, codes: Seq<i32>)
    requires
        r.failure is Some,
    ensures
        apply_exits(r, codes) == r,
        apply_exits(r, codes).next_target_spec() is None,
{
    if codes.len() != 0 {
        assert(r.next_target_spec() is None);
    }
}

/// Law: recording a zero exit for every pending target leads to the fully
/// successful state that gates artifact collection.
pub proof fn lemma_all_zero_succeeds(r: BuildRun, codes: Seq<i32>)
    requires
        r.wf(),
        r.failure is None,
        codes.len() == r.targets@.len() - r.done,
        forall|i: int| 0 <= i < codes.len() ==> codes[i] == 0,
    ensures
        apply_exits(r, codes).all_succeeded_spec(),
    decreases codes.len(),
{
    if codes.len() > 0 {
        assert(codes[0] == 0);
        assert forall|j: int| 0 <= j < codes.skip(1).len() implies codes.skip(1)[j] == 0 by {
            assert(codes.skip(1)[j] == codes[j + 1]);
        }
        lemma_all_zero_succeeds(r.step_spec(codes[0]), codes.skip(1));
    }
}

/// Law: if the first non-zero exit code in the recorded sequence is
/// `codes[i]`, the run ends with exactly that failure, after exactly `i`
/// successful builds beyond the current progress.
pub proof fn lemma_first_failure_wins(r: BuildRun, codes: Seq<i32>, i: int)
    requires
        r.wf(),
        r.failure is None,
        0 <= i < codes.len(),
        codes.len() <= r.targets@.len() - r.done,
        forall|j: int| 0 <= j < i ==> codes[j] == 0,
        codes[i] != 0,
    ensures
        apply_exits(r, codes).failure == Some(codes[i]),
        apply_exits(r, codes).done == r.done + i,
        apply_exits(r, codes).next_target_spec() is None,
    decreases i,
{
    if i == 0 {
        let failed = r.step_spec(codes[0]);
        lemma_no_build_after_failure(failed, codes.skip(1));
    } else {
        assert(codes[0] == 0);
        assert forall|j: int| 0 <= j < i - 1 implies codes.skip(1)[j] == 0 by {
            assert(codes.skip(1)[j] == codes[j + 1]);
        }
        assert(codes.skip(1)[i - 1] == codes[i]);
        lemma_first_failure_wins(r.step_spec(codes[0]), codes.skip(1), i - 1);
    }
}

} // verus!
