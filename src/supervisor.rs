//! The four subtasks of an authority's session under one exit signal, and
//! the one question asked of them: did any of them fail?
use vstd::prelude::*;

verus! {

/// The subtasks run for a session in which this node is an authority.
#[derive(Clone, Copy, Debug, PartialEq, Eq, Structural)]
pub enum SubtaskKind {
    Member,
    Aggregator,
    ChainTracker,
    DataStore,
}

/// How far a subtask has got.
#[derive(Clone, Copy, Debug, PartialEq, Eq, Structural)]
pub enum SubtaskStatus {
    Running,
    /// It finished without error after the shared exit signal fired.
    StoppedOnExit,
    /// It finished with an error, or before the exit signal fired.
    StoppedAbnormally,
}

/// What the supervisor can tell so far.
#[derive(Clone, Copy, Debug, PartialEq, Eq, Structural)]
pub enum Verdict {
    /// Some subtask is still running and none has failed.
    Pending,
    /// Some subtask stopped abnormally.
    Failed,
    /// Every subtask stopped because of the exit signal.
    Succeeded,
}

/// The supervisor's state as plain values.
pub struct SupervisorView {
    pub exit_fired: bool,
    pub member: SubtaskStatus,
    pub aggregator: SubtaskStatus,
    pub chain_tracker: SubtaskStatus,
    pub data_store: SubtaskStatus,
}

impl SupervisorView {
    pub open spec fn status(&self, kind: SubtaskKind) -> SubtaskStatus {
        match kind {
            SubtaskKind::Member => self.member,
            SubtaskKind::Aggregator => self.aggregator,
            SubtaskKind::ChainTracker => self.chain_tracker,
            SubtaskKind::DataStore => self.data_store,
        }
    }

    pub open spec fn some_abnormal(&self) -> bool {
        exists|k: SubtaskKind| self.status(k) == SubtaskStatus::StoppedAbnormally
    }

    pub open spec fn all_on_exit(&self) -> bool {
        forall|k: SubtaskKind| self.status(k) == SubtaskStatus::StoppedOnExit
    }

    pub open spec fn all_stopped(&self) -> bool {
        forall|k: SubtaskKind| self.status(k) != SubtaskStatus::Running
    }

    pub open spec fn verdict(&self) -> Verdict {
        if self.some_abnormal() {
            Verdict::Failed
        } else if self.all_on_exit() {
            Verdict::Succeeded
        } else {
            Verdict::Pending
        }
    }

    /// The state after subtask `kind` finished, without error when `ok`.
    pub open spec fn after_finish(self, kind: SubtaskKind, ok: bool) -> SupervisorView {
        if self.status(kind) != SubtaskStatus::Running {
            self
        } else {
            let s = if self.exit_fired && ok {
                SubtaskStatus::StoppedOnExit
            } else {
                SubtaskStatus::StoppedAbnormally
            };
            match kind {
                SubtaskKind::Member => SupervisorView { member: s, ..self },
                SubtaskKind::Aggregator => SupervisorView { aggregator: s, ..self },
                SubtaskKind::ChainTracker => SupervisorView { chain_tracker: s, ..self },
                SubtaskKind::DataStore => SupervisorView { data_store: s, ..self },
            }
        }
    }
}

/// Tracks the subtasks of one authority session.
pub struct Subtasks {
    exit_fired: bool,
    member: SubtaskStatus,
    aggregator: SubtaskStatus,
    chain_tracker: SubtaskStatus,
    data_store: SubtaskStatus,
}

impl View for Subtasks {
    type V = SupervisorView;

    closed spec fn view(&self) -> SupervisorView {
        SupervisorView {
            exit_fired: self.exit_fired,
            member: self.member,
            aggregator: self.aggregator,
            chain_tracker: self.chain_tracker,
            data_store: self.data_store,
        }
    }
}

impl Subtasks {
    /// A subtask counts as stopped by the exit signal only once it fired.
    pub open spec fn wf(&self) -> bool {
        forall|k: SubtaskKind| #[trigger] self@.status(k) == SubtaskStatus::StoppedOnExit ==> self@.exit_fired
    }

    pub fn new() -> (r: Self)
        ensures
            r.wf(),
            !r@.exit_fired,
            forall|k: SubtaskKind| #[trigger] r@.status(k) == SubtaskStatus::Running,
    {
        Subtasks {
            exit_fired: false,
            member: SubtaskStatus::Running,
            aggregator: SubtaskStatus::Running,
            chain_tracker: SubtaskStatus::Running,
            data_store: SubtaskStatus::Running,
        }
    }

    pub fn status(&self, kind: SubtaskKind) -> (r: SubtaskStatus)
        ensures
            r == self@.status(kind),
    {
        match kind {
            SubtaskKind::Member => self.member,
            SubtaskKind::Aggregator => self.aggregator,
            SubtaskKind::ChainTracker => self.chain_tracker,
            SubtaskKind::DataStore => self.data_store,
        }
    }

    /// Fires the shared exit signal.
    pub fn fire_exit(&mut self)
        requires
            old(self).wf(),
        ensures
            final(self).wf(),
            final(self)@ == (SupervisorView { exit_fired: true, ..old(self)@ }),
    {
        self.exit_fired = true;
    }

    /// Records that subtask `kind` finished, without error when `ok`. Only
    /// the first report of a subtask counts.
    pub fn finished(&mut self, kind: SubtaskKind, ok: bool)
        requires
            old(self).wf(),
        ensures
            final(self).wf(),
            final(self)@ == old(self)@.after_finish(kind, ok),
    {
        if self.status(kind) != SubtaskStatus::Running {
            return;
        }
        let s = if self.exit_fired && ok {
            SubtaskStatus::StoppedOnExit
        } else {
            SubtaskStatus::StoppedAbnormally
        };
        match kind {
            SubtaskKind::Member => self.member = s,
            SubtaskKind::Aggregator => self.aggregator = s,
            SubtaskKind::ChainTracker => self.chain_tracker = s,
            SubtaskKind::DataStore => self.data_store = s,
        }
        proof {
            assert forall|k: SubtaskKind| #[trigger] self@.status(k) == SubtaskStatus::StoppedOnExit
                implies self@.exit_fired by {
                if k != kind {
                    assert(self@.status(k) == old(self)@.status(k));
                }
            }
        }
    }

    fn any_abnormal(&self) -> (r: bool)
        ensures
            r == self@.some_abnormal(),
    {
        let r = self.member == SubtaskStatus::StoppedAbnormally || self.aggregator
            == SubtaskStatus::StoppedAbnormally || self.chain_tracker
            == SubtaskStatus::StoppedAbnormally || self.data_store
            == SubtaskStatus::StoppedAbnormally;
        proof {
            if r {
                if self.member == SubtaskStatus::StoppedAbnormally {
                    assert(self@.status(SubtaskKind::Member) == SubtaskStatus::StoppedAbnormally);
                } else if self.aggregator == SubtaskStatus::StoppedAbnormally {
                    assert(self@.status(SubtaskKind::Aggregator)
                        == SubtaskStatus::StoppedAbnormally);
                } else if self.chain_tracker == SubtaskStatus::StoppedAbnormally {
                    assert(self@.status(SubtaskKind::ChainTracker)
                        == SubtaskStatus::StoppedAbnormally);
                } else {
                    assert(self@.status(SubtaskKind::DataStore)
                        == SubtaskStatus::StoppedAbnormally);
                }
            }
        }
        r
    }

    /// Whether every subtask has stopped; `stop` waits for this.
    pub fn all_stopped(&self) -> (r: bool)
        ensures
            r == self@.all_stopped(),
    {
        let r = self.member != SubtaskStatus::Running && self.aggregator
            != SubtaskStatus::Running && self.chain_tracker != SubtaskStatus::Running
            && self.data_store != SubtaskStatus::Running;
        proof {
            if !r {
                if self.member == SubtaskStatus::Running {
                    assert(self@.status(SubtaskKind::Member) == SubtaskStatus::Running);
                } else if self.aggregator == SubtaskStatus::Running {
                    assert(self@.status(SubtaskKind::Aggregator) == SubtaskStatus::Running);
                } else if self.chain_tracker == SubtaskStatus::Running {
                    assert(self@.status(SubtaskKind::ChainTracker) == SubtaskStatus::Running);
                } else {
                    assert(self@.status(SubtaskKind::DataStore) == SubtaskStatus::Running);
                }
            }
        }
        r
    }

    /// `Failed` as soon as one subtask stopped abnormally, `Succeeded` once
    /// all four stopped because of the exit signal, `Pending` otherwise.
    pub fn verdict(&self) -> (r: Verdict)
        ensures
            r == self@.verdict(),
    {
        if self.any_abnormal() {
            return Verdict::Failed;
        }
        let all_on_exit = self.member == SubtaskStatus::StoppedOnExit && self.aggregator
            == SubtaskStatus::StoppedOnExit && self.chain_tracker == SubtaskStatus::StoppedOnExit
            && self.data_store == SubtaskStatus::StoppedOnExit;
        proof {
            if !all_on_exit {
                if self.member != SubtaskStatus::StoppedOnExit {
                    assert(self@.status(SubtaskKind::Member) != SubtaskStatus::StoppedOnExit);
                } else if self.aggregator != SubtaskStatus::StoppedOnExit {
                    assert(self@.status(SubtaskKind::Aggregator) != SubtaskStatus::StoppedOnExit);
                } else if self.chain_tracker != SubtaskStatus::StoppedOnExit {
                    assert(self@.status(SubtaskKind::ChainTracker)
                        != SubtaskStatus::StoppedOnExit);
                } else {
                    assert(self@.status(SubtaskKind::DataStore) != SubtaskStatus::StoppedOnExit);
                }
            } else {
                assert forall|k: SubtaskKind| self@.status(k) == SubtaskStatus::StoppedOnExit by {
                    match k {
                        SubtaskKind::Member => {},
                        SubtaskKind::Aggregator => {},
                        SubtaskKind::ChainTracker => {},
                        SubtaskKind::DataStore => {},
                    }
                }
            }
        }
        if all_on_exit {
            Verdict::Succeeded
        } else {
            Verdict::Pending
        }
    }

    /// The supervisor reports success only when each of the four subtasks
    /// stopped without error after the exit signal fired, and reports
    /// failure as soon as any one stopped for another reason.
    pub proof fn lemma_success_only_on_exit(&self)
        requires
            self.wf(),
        ensures
            self@.verdict() == Verdict::Succeeded ==> self@.exit_fired && forall|k: SubtaskKind|
                #[trigger] self@.status(k) == SubtaskStatus::StoppedOnExit,
            self@.verdict() == Verdict::Failed <==> exists|k: SubtaskKind|
                #[trigger] self@.status(k) == SubtaskStatus::StoppedAbnormally,
    {
        if self@.verdict() == Verdict::Succeeded {
            assert(self@.status(SubtaskKind::Member) == SubtaskStatus::StoppedOnExit);
        }
    }
}

/// A subtask that finishes before the exit signal fires, with or without an
/// error, makes the supervisor report failure.
pub proof fn lemma_early_finish_fails(v: SupervisorView, kind: SubtaskKind, ok: bool)
    requires
        !v.exit_fired,
        v.status(kind) == SubtaskStatus::Running,
    ensures
        v.after_finish(kind, ok).verdict() == Verdict::Failed,
{
    assert(v.after_finish(kind, ok).status(kind) == SubtaskStatus::StoppedAbnormally);
}

} // verus!
