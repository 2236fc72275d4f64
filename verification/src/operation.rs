//! The staged workflow tracker.
//!
//! A workflow is an ordered sequence of named stages declared implicitly
//! by the call sequence. Each transition appends one progress event to the
//! operation's event log, in strict chronological order; the surface that
//! shows progress drains that log outside this crate. Single-entity
//! workflows are fail-fast: `fail` ends the whole operation, and no stage
//! transitions once the operation is terminal.

use vstd::prelude::*;

verus! {

/// Where a stage stands in its lifecycle. A stage is created pending,
/// runs on `start`, and ends in exactly one of completed or failed.
#[derive(Debug, PartialEq, Eq)]
pub enum StageStatus {
    Pending,
    Running,
    Completed,
    Failed,
}

/// One named stage and its current status.
#[derive(Debug, PartialEq, Eq)]
pub struct StageRecord {
    pub name: String,
    pub status: StageStatus,
}

/// The status a progress event reports for its stage.
#[derive(Debug, PartialEq, Eq)]
pub enum EventStatus {
    Started,
    Completed,
    Failed,
}

/// One progress event: operation name, stage name, what happened, and an
/// optional message (carried only by failures).
#[derive(Debug, PartialEq, Eq)]
pub struct StageEvent {
    pub operation: String,
    pub stage: String,
    pub status: EventStatus,
    pub message: Option<String>,
}

/// Whether the operation is still running or has reached a terminal
/// state.
#[derive(Debug, PartialEq, Eq)]
pub enum OperationOutcome {
    Active,
    Succeeded,
    Failed,
}

/// A named multi-stage workflow: its stages so far and the events emitted
/// so far, in order.
pub struct StagedOperation {
    pub name: String,
    pub stages: Vec<StageRecord>,
    pub events: Vec<StageEvent>,
    pub outcome: OperationOutcome,
}

/// The mathematical shadow of a stage record.
pub struct StageModel {
    pub name: Seq<char>,
    pub status: StageStatus,
}

/// The mathematical shadow of a progress event.
pub struct EventModel {
    pub operation: Seq<char>,
    pub stage: Seq<char>,
    pub status: EventStatus,
    pub message: Option<Seq<char>>,
}

/// The mathematical shadow of an operation.
pub struct OperationModel {
    pub name: Seq<char>,
    pub stages: Seq<StageModel>,
    pub events: Seq<EventModel>,
    pub outcome: OperationOutcome,
}

impl View for StageRecord {
    type V = StageModel;

    open spec fn view(&self) -> StageModel {
        StageModel { name: self.name@, status: self.status }
    }
}

impl View for StageEvent {
    type V = EventModel;

    open spec fn view(&self) -> EventModel {
        EventModel {
            operation: self.operation@,
            stage: self.stage@,
            status: self.status,
            message: match self.message {
                Some(m) => Some(m@),
                None => None,
            },
        }
    }
}

impl View for StagedOperation {
    type V = OperationModel;

    open spec fn view(&self) -> OperationModel {
        OperationModel {
            name: self.name@,
            stages: self.stages@.map_values(|r: StageRecord| r@),
            events: self.events@.map_values(|e: StageEvent| e@),
            outcome: self.outcome,
        }
    }
}

/// The "stage started" event.
pub open spec fn started_event(operation: Seq<char>, stage: Seq<char>) -> EventModel {
    EventModel { operation, stage, status: EventStatus::Started, message: None }
}

/// The "stage completed" event.
pub open spec fn completed_event(operation: Seq<char>, stage: Seq<char>) -> EventModel {
    EventModel { operation, stage, status: EventStatus::Completed, message: None }
}

/// The "stage failed" event, carrying the failure message.
pub open spec fn failed_event(operation: Seq<char>, stage: Seq<char>, message: Seq<char>) -> EventModel {
    EventModel { operation, stage, status: EventStatus::Failed, message: Some(message) }
}

/// A fresh operation: no stages, no events, still active.
pub open spec fn new_operation_spec(name: Seq<char>) -> OperationModel {
    OperationModel {
        name,
        stages: Seq::empty(),
        events: Seq::empty(),
        outcome: OperationOutcome::Active,
    }
}

/// A new stage may open only while the operation is active and no stage
/// is still running.
pub open spec fn can_open_stage(op: OperationModel) -> bool {
    &&& op.outcome is Active
    &&& (op.stages.len() == 0 || op.stages.last().status is Completed)
}

/// The named stage is the one currently running.
pub open spec fn stage_running(op: OperationModel, stage: Seq<char>) -> bool {
    &&& op.outcome is Active
    &&& op.stages.len() > 0
    &&& op.stages.last().status is Running
    &&& op.stages.last().name == stage
}

/// The operation after `start(stage)`: one new running stage, one
/// "started" event.
pub open spec fn start_spec(op: OperationModel, stage: Seq<char>) -> OperationModel {
    OperationModel {
        stages: op.stages.push(StageModel { name: stage, status: StageStatus::Running }),
        events: op.events.push(started_event(op.name, stage)),
        ..op
    }
}

/// The operation after `fail(stage, message)`: the running stage is
/// failed, one "failed" event is emitted, and the operation is terminal.
pub open spec fn fail_spec(op: OperationModel, stage: Seq<char>, message: Seq<char>) -> OperationModel {
    OperationModel {
        stages: op.stages.update(
            op.stages.len() - 1,
            StageModel { name: op.stages.last().name, status: StageStatus::Failed },
        ),
        events: op.events.push(failed_event(op.name, stage, message)),
        outcome: OperationOutcome::Failed,
        ..op
    }
}

/// The operation after `move_on(from, to)`: the running stage is
/// completed and the next one started, with one event for each
/// transition, in that order.
pub open spec fn move_on_spec(op: OperationModel, from: Seq<char>, to: Seq<char>) -> OperationModel {
    OperationModel {
        stages: op.stages.update(
            op.stages.len() - 1,
            StageModel { name: op.stages.last().name, status: StageStatus::Completed },
        ).push(StageModel { name: to, status: StageStatus::Running }),
        events: op.events.push(completed_event(op.name, from)).push(started_event(op.name, to)),
        ..op
    }
}

/// The operation after `complete(stage)`: the final stage is completed,
/// the terminal "completed" event is emitted, and the operation has
/// succeeded.
pub open spec fn complete_spec(op: OperationModel, stage: Seq<char>) -> OperationModel {
    OperationModel {
        stages: op.stages.update(
            op.stages.len() - 1,
            StageModel { name: op.stages.last().name, status: StageStatus::Completed },
        ),
        events: op.events.push(completed_event(op.name, stage)),
        outcome: OperationOutcome::Succeeded,
        ..op
    }
}

impl StagedOperation {
    /// A fresh operation under the given name.
    pub fn new(name: String) -> (r: StagedOperation)
        ensures
            r@ == new_operation_spec(name@),
    {
        let r = StagedOperation {
            name,
            stages: Vec::new(),
            events: Vec::new(),
            outcome: OperationOutcome::Active,
        };
        proof {
            assert(r@.stages =~= Seq::<StageModel>::empty());
            assert(r@.events =~= Seq::<EventModel>::empty());
        }
        r
    }

    /// Marks the stage running and emits its "started" event.
    pub fn start(&mut self, stage: String) -> (r: Result<(), String>)
        requires
            can_open_stage(old(self)@),
        ensures
            final(self)@ == start_spec(old(self)@, stage@),
            r == Ok::<(), String>(()),
    {
        let operation = self.name.clone();
        let stage_copy = stage.clone();
        self.stages.push(StageRecord { name: stage, status: StageStatus::Running });
        self.events.push(
            StageEvent { operation, stage: stage_copy, status: EventStatus::Started, message: None },
        );
        proof {
            assert(self@.stages =~= start_spec(old(self)@, stage@).stages);
            assert(self@.events =~= start_spec(old(self)@, stage@).events);
        }
        Ok(())
    }

    /// Marks the running stage failed, emits the "failed" event carrying
    /// the message, ends the operation, and returns the error the caller
    /// must propagate.
    pub fn fail(&mut self, stage: String, message: String) -> (r: Result<(), String>)
        requires
            stage_running(old(self)@, stage@),
        ensures
            final(self)@ == fail_spec(old(self)@, stage@, message@),
            r == Err::<(), String>(message),
    {
        let last = self.stages.pop().unwrap();
        self.stages.push(StageRecord { name: last.name, status: StageStatus::Failed });
        let operation = self.name.clone();
        self.events.push(
            StageEvent {
                operation,
                stage,
                status: EventStatus::Failed,
                message: Some(message.clone()),
            },
        );
        self.outcome = OperationOutcome::Failed;
        proof {
            assert(self@.stages =~= fail_spec(old(self)@, stage@, message@).stages);
            assert(self@.events =~= fail_spec(old(self)@, stage@, message@).events);
        }
        Err(message)
    }

    /// Completes the running stage and starts the next one, emitting one
    /// event per transition so multi-stage workflows chain without a gap.
    pub fn move_on(&mut self, from: String, to: String) -> (r: Result<(), String>)
        requires
            stage_running(old(self)@, from@),
        ensures
            final(self)@ == move_on_spec(old(self)@, from@, to@),
            r == Ok::<(), String>(()),
    {
        let last = self.stages.pop().unwrap();
        self.stages.push(StageRecord { name: last.name, status: StageStatus::Completed });
        let operation = self.name.clone();
        self.events.push(
            StageEvent { operation, stage: from, status: EventStatus::Completed, message: None },
        );
        let operation2 = self.name.clone();
        let to_copy = to.clone();
        self.stages.push(StageRecord { name: to, status: StageStatus::Running });
        self.events.push(
            StageEvent { operation: operation2, stage: to_copy, status: EventStatus::Started, message: None },
        );
        proof {
            assert(self@.stages =~= move_on_spec(old(self)@, from@, to@).stages);
            assert(self@.events =~= move_on_spec(old(self)@, from@, to@).events);
        }
        Ok(())
    }

    /// Marks the final stage completed and emits the terminal "completed"
    /// event.
    pub fn complete(&mut self, stage: String) -> (r: Result<(), String>)
        requires
            stage_running(old(self)@, stage@),
        ensures
            final(self)@ == complete_spec(old(self)@, stage@),
            r == Ok::<(), String>(()),
    {
        let last = self.stages.pop().unwrap();
        self.stages.push(StageRecord { name: last.name, status: StageStatus::Completed });
        let operation = self.name.clone();
        self.events.push(
            StageEvent { operation, stage, status: EventStatus::Completed, message: None },
        );
        self.outcome = OperationOutcome::Succeeded;
        proof {
            assert(self@.stages =~= complete_spec(old(self)@, stage@).stages);
            assert(self@.events =~= complete_spec(old(self)@, stage@).events);
        }
        Ok(())
    }

    /// The single point where a fallible external call is wired into the
    /// state machine: passes a success through unchanged, and fails the
    /// stage if and only if the result is an error.
    pub fn fail_if_err<T>(&mut self, stage: String, result: Result<T, String>) -> (out: Result<
        T,
        String,
    >)
        requires
            result is Err ==> stage_running(old(self)@, stage@),
        ensures
            match result {
                Ok(_) => *final(self) == *old(self) && out == result,
                Err(m) => final(self)@ == fail_spec(old(self)@, stage@, m@) && out == Err::<
                    T,
                    String,
                >(m),
            },
    {
        match result {
            Ok(v) => Ok(v),
            Err(m) => {
                match self.fail(stage, m) {
                    Err(msg) => Err(msg),
                    Ok(_) => unreached(),
                }
            },
        }
    }
}

/// Law: a `start` followed by a `fail` on a fresh operation emits exactly
/// two events — "started" then "failed" — and leaves the operation
/// terminal, its one stage failed.
pub proof fn lemma_start_then_fail(name: Seq<char>, stage: Seq<char>, message: Seq<char>)
    ensures
        ({
            let m = fail_spec(start_spec(new_operation_spec(name), stage), stage, message);
            &&& m.events.len() == 2
            &&& m.events[0] == started_event(name, stage)
            &&& m.events[1] == failed_event(name, stage, message)
            &&& m.outcome is Failed
            &&& m.stages.len() == 1
            &&& m.stages[0] == (StageModel { name: stage, status: StageStatus::Failed })
        }),
{
    let m = fail_spec(start_spec(new_operation_spec(name), stage), stage, message);
    assert(m.events =~= seq![started_event(name, stage), failed_event(name, stage, message)]);
    assert(m.stages =~= seq![StageModel { name: stage, status: StageStatus::Failed }]);
}

/// The chain of `move_on` steps from stage `k` to the last stage.
pub open spec fn run_moves(op: OperationModel, names: Seq<Seq<char>>, k: int) -> OperationModel
    decreases names.len() - k,
{
    if k + 1 < names.len() {
        run_moves(move_on_spec(op, names[k], names[k + 1]), names, k + 1)
    } else {
        op
    }
}

/// The operation after a whole workflow of the given stages: `start` on
/// the first, `move_on` through each adjacent pair, `complete` on the
/// last.
pub open spec fn chain_result(name: Seq<char>, names: Seq<Seq<char>>) -> OperationModel
    recommends
        names.len() >= 1,
{
    complete_spec(
        run_moves(start_spec(new_operation_spec(name), names[0]), names, 0),
        names[names.len() - 1],
    )
}

proof fn lemma_run_moves(op: OperationModel, names: Seq<Seq<char>>, k: int)
    requires
        0 <= k < names.len(),
        op.outcome is Active,
        op.stages.len() > 0,
        op.stages.last() == (StageModel { name: names[k], status: StageStatus::Running }),
    ensures
        ({
            let m = run_moves(op, names, k);
            let n = names.len() as int;
            let e0 = op.events.len() as int;
            &&& m.name == op.name
            &&& m.outcome is Active
            &&& m.stages.len() > 0
            &&& m.stages.last() == (StageModel {
                name: names[n - 1],
                status: StageStatus::Running,
            })
            &&& m.events.len() == e0 + 2 * (n - 1 - k)
            &&& (forall|j: int| 0 <= j < e0 ==> m.events[j] == op.events[j])
            &&& (forall|i: int|
                k <= i < n - 1 ==> m.events[e0 + 2 * (i - k)] == completed_event(
                    op.name,
                    #[trigger] names[i],
                ))
            &&& (forall|i: int|
                k < i < n ==> m.events[e0 + 2 * (i - k) - 1] == started_event(
                    op.name,
                    #[trigger] names[i],
                ))
        }),
    decreases names.len() - k,
{
    let n = names.len() as int;
    let e0 = op.events.len() as int;
    if k + 1 < n {
        let op2 = move_on_spec(op, names[k], names[k + 1]);
        assert(op2.stages.last() == (StageModel {
            name: names[k + 1],
            status: StageStatus::Running,
        }));
        lemma_run_moves(op2, names, k + 1);
        let m = run_moves(op, names, k);
        assert(m == run_moves(op2, names, k + 1));
        assert(op2.events.len() == e0 + 2);
        assert(op2.events[e0] == completed_event(op.name, names[k]));
        assert(op2.events[e0 + 1] == started_event(op.name, names[k + 1]));
        assert forall|i: int| k <= i < n - 1 implies m.events[e0 + 2 * (i - k)] == completed_event(
            op.name,
            #[trigger] names[i],
        ) by {
            if i == k {
                assert(m.events[e0] == op2.events[e0]);
            } else {
                assert(m.events[(e0 + 2) + 2 * (i - (k + 1))] == completed_event(
                    op.name,
                    names[i],
                ));
                assert((e0 + 2) + 2 * (i - (k + 1)) == e0 + 2 * (i - k));
            }
        }
        assert forall|i: int| k < i < n implies m.events[e0 + 2 * (i - k) - 1] == started_event(
            op.name,
            #[trigger] names[i],
        ) by {
            if i == k + 1 {
                assert(m.events[e0 + 1] == op2.events[e0 + 1]);
            } else {
                assert(m.events[(e0 + 2) + 2 * (i - (k + 1)) - 1] == started_event(
                    op.name,
                    names[i],
                ));
                assert((e0 + 2) + 2 * (i - (k + 1)) - 1 == e0 + 2 * (i - k) - 1);
            }
        }
    }
}

/// Law: a workflow of `n` stages — `start`, `move_on` through each
/// adjacent pair, `complete` — emits exactly `2 * n` events, strictly
/// ordered: for each stage, its "started" event and then its "completed"
/// event (`n` started events, `n - 1` completions from `move_on`, and the
/// final completion), and the operation ends succeeded.
pub proof fn lemma_stage_chain(name: Seq<char>, names: Seq<Seq<char>>)
    requires
        names.len() >= 1,
    ensures
        ({
            let m = chain_result(name, names);
            let n = names.len() as int;
            &&& m.events.len() == 2 * n
            &&& (forall|i: int| 0 <= i < n ==> m.events[2 * i] == started_event(name, names[i]))
            &&& (forall|i: int|
                0 <= i < n ==> m.events[2 * i + 1] == completed_event(name, names[i]))
            &&& m.outcome is Succeeded
        }),
{
    let n = names.len() as int;
    let m0 = new_operation_spec(name);
    let m1 = start_spec(m0, names[0]);
    assert(m1.events =~= seq![started_event(name, names[0])]);
    assert(m1.stages.last() == (StageModel { name: names[0], status: StageStatus::Running }));
    lemma_run_moves(m1, names, 0);
    let m2 = run_moves(m1, names, 0);
    let m = chain_result(name, names);
    assert(m == complete_spec(m2, names[n - 1]));
    assert(m.events.len() == 2 * n);
    assert forall|i: int| 0 <= i < n implies m.events[2 * i] == started_event(name, names[i]) by {
        if i == 0 {
            assert(m.events[0] == m2.events[0]);
            assert(m2.events[0] == m1.events[0]);
        } else {
            assert(m2.events[1 + 2 * (i - 0) - 1] == started_event(name, names[i]));
            assert(1 + 2 * (i - 0) - 1 == 2 * i);
            assert(m.events[2 * i] == m2.events[2 * i]);
        }
    }
    assert forall|i: int| 0 <= i < n implies m.events[2 * i + 1] == completed_event(
        name,
        names[i],
    ) by {
        if i < n - 1 {
            assert(m.events[2 * i + 1] == m2.events[1 + 2 * i]);
            assert(m2.events[1 + 2 * i] == completed_event(name, names[i]));
        } else {
            assert(m.events[2 * n - 1] == completed_event(name, names[n - 1]));
        }
    }
}

} // verus!
