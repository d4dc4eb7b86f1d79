use vstd::prelude::*;

use crate::command::SimplexCommand;
use crate::flow::{
    boot_of, received_text_of, resume_of, start_of, startup_flow, startup_step, Answer, AnswerView,
    Flow, FlowView, Need, NeedView, StepView,
};
use crate::flow::lemma_startup_step;
use crate::model::{EventView, SimplexEvent};
use crate::steps::{boot, received_text, resume, start};

verus! {

/// Where the worker stands between two moves.
#[derive(Clone, Copy, Debug, PartialEq, Eq, Structural)]
pub enum Phase {
    /// The worker's start is under way: it opens the database and loads the active profile.
    Starting,
    /// No flow waits: the worker takes the next command or event of the core.
    Ready,
    /// A flow of a command or of an event waits for an answer.
    Busy,
    /// The worker has stopped.
    Stopped,
}

/// The worker: where it stands, and the flow that waits for an answer.
pub struct Worker {
    pub phase: Phase,
    flow: Flow,
}

pub struct WorkerView {
    pub phase: Phase,
    pub flow: FlowView,
}

impl DeepView for Worker {
    type V = WorkerView;

    closed spec fn deep_view(&self) -> WorkerView {
        WorkerView { phase: self.phase, flow: self.flow.deep_view() }
    }
}

/// What the worker is handed: the answer its flow waits for, a command of the interface, or
/// the text of an event that the core sent on its own.
pub enum Input {
    Answer(Answer),
    Command(SimplexCommand),
    Received(String),
}

pub enum InputView {
    Answer(AnswerView),
    Command(SimplexCommand),
    Received(Seq<char>),
}

impl DeepView for Input {
    type V = InputView;

    open spec fn deep_view(&self) -> InputView {
        match self {
            Input::Answer(a) => InputView::Answer(a.deep_view()),
            Input::Command(c) => InputView::Command(*c),
            Input::Received(t) => InputView::Received(t@),
        }
    }
}

/// What the worker reports and needs after one move.
pub struct Move {
    pub events: Vec<SimplexEvent>,
    pub need: Need,
}

pub struct MoveView {
    pub events: Seq<EventView>,
    pub need: NeedView,
}

impl DeepView for Move {
    type V = MoveView;

    open spec fn deep_view(&self) -> MoveView {
        MoveView { events: self.events.deep_view(), need: self.need.deep_view() }
    }
}

/// Where the worker stands after a step that needs `need`, taken from `from`.
pub open spec fn phase_after(from: Phase, need: NeedView) -> Phase {
    match need {
        NeedView::Done => Phase::Ready,
        NeedView::Halt => Phase::Stopped,
        _ => if from == Phase::Starting {
            Phase::Starting
        } else {
            Phase::Busy
        },
    }
}

/// The step the worker takes when it is handed `input`, if it takes it now: an answer only
/// while a flow waits, and a command or an event only when no flow waits and the start is over.
/// Downloads go into `directory`.
pub open spec fn taken(w: WorkerView, input: InputView, directory: Seq<char>) -> Option<StepView> {
    match input {
        InputView::Answer(a) => if w.phase == Phase::Starting || w.phase == Phase::Busy {
            Some(resume_of(w.flow, a))
        } else {
            None
        },
        InputView::Command(c) => if w.phase == Phase::Ready {
            Some(start_of(c, directory))
        } else {
            None
        },
        InputView::Received(t) => if w.phase == Phase::Ready {
            Some(received_text_of(t))
        } else {
            None
        },
    }
}

/// The worker after it is handed `input`.
pub open spec fn worker_after(w: WorkerView, input: InputView, directory: Seq<char>) -> WorkerView {
    match taken(w, input, directory) {
        Some(s) => WorkerView { phase: phase_after(w.phase, s.need), flow: s.flow },
        None => w,
    }
}

/// The worker before anything is handed to it.
pub open spec fn booted(data_directory: Seq<char>) -> WorkerView {
    WorkerView { phase: Phase::Starting, flow: boot_of(data_directory).flow }
}

impl Worker {
    /// Starts the worker for the data directory `data_directory`: it makes the directory first.
    pub fn boot(data_directory: &str) -> (r: (Worker, Move))
        ensures
            r.0.deep_view() == booted(data_directory@),
            r.1.events.deep_view() == boot_of(data_directory@).events,
            r.1.need.deep_view() == boot_of(data_directory@).need,
    {
        let s = boot(data_directory);
        (Worker { phase: Phase::Starting, flow: s.flow }, Move { events: s.events, need: s.need })
    }

    /// Hands `input` to the worker. It is taken when `taken` says so, and the worker reports
    /// and needs what that step does; otherwise it is given back and nothing changes.
    pub fn feed(&mut self, input: Input, directory: &str) -> (r: Result<Move, Input>)
        ensures
            final(self).deep_view() == worker_after(old(self).deep_view(), input.deep_view(), directory@),
            match r {
                Ok(m) => taken(old(self).deep_view(), input.deep_view(), directory@) == Some(
                    StepView {
                        flow: final(self).deep_view().flow,
                        events: m.events.deep_view(),
                        need: m.need.deep_view(),
                    },
                ),
                Err(back) => taken(old(self).deep_view(), input.deep_view(), directory@) is None
                    && back.deep_view() == input.deep_view(),
            },
    {
        let from = self.phase;
        let waiting = from == Phase::Starting || from == Phase::Busy;
        let s = match input {
            Input::Answer(a) => {
                if !waiting {
                    return Err(Input::Answer(a));
                }
                let mut flow = Flow::Idle;
                core::mem::swap(&mut flow, &mut self.flow);
                resume(flow, a)
            },
            Input::Command(c) => {
                if from != Phase::Ready {
                    return Err(Input::Command(c));
                }
                start(c, directory)
            },
            Input::Received(t) => {
                if from != Phase::Ready {
                    return Err(Input::Received(t));
                }
                received_text(t.as_str())
            },
        };
        self.phase = match s.need {
            Need::Done => Phase::Ready,
            Need::Halt => Phase::Stopped,
            _ => if from == Phase::Starting {
                Phase::Starting
            } else {
                Phase::Busy
            },
        };
        self.flow = s.flow;
        Ok(Move { events: s.events, need: s.need })
    }
}

/// The worker after it is handed `inputs` in turn from `w`.
pub open spec fn worker_run(w: WorkerView, inputs: Seq<InputView>, directory: Seq<char>) -> WorkerView
    decreases inputs.len(),
{
    if inputs.len() == 0 {
        w
    } else {
        worker_run(worker_after(w, inputs[0], directory), inputs.drop_first(), directory)
    }
}

/// The events the worker reports when it is handed `inputs` in turn from `w`.
pub open spec fn worker_events(w: WorkerView, inputs: Seq<InputView>, directory: Seq<char>) -> Seq<EventView>
    decreases inputs.len(),
{
    if inputs.len() == 0 {
        seq![]
    } else {
        let now = match taken(w, inputs[0], directory) {
            Some(s) => s.events,
            None => seq![],
        };
        now + worker_events(worker_after(w, inputs[0], directory), inputs.drop_first(), directory)
    }
}

/// The first stages of the start, before the profiles are loaded.
spec fn before_profiles(f: FlowView) -> bool {
    f is Booting || f is Opening || f is BootProfiles
}

/// What holds of the worker once `reported` has been reported since its start: until the start
/// is over, it waits in a stage of the start; nothing is reported before the profiles are loaded
/// or the start fails; and a worker that takes commands has reported how the start ended.
spec fn run_invariant(w: WorkerView, reported: Seq<EventView>) -> bool {
    &&& w.phase == Phase::Starting ==> startup_flow(w.flow)
    &&& reported.len() == 0 ==> w.phase == Phase::Starting && before_profiles(w.flow)
    &&& reported.len() > 0 ==> (reported[0] is ProfilesLoaded || reported[0] is Failed)
    &&& (w.phase == Phase::Ready || w.phase == Phase::Busy) ==> started(reported)
}

/// Whether `events` hold the event by which the start ended: no active profile, or the active
/// profile ready.
pub open spec fn started(events: Seq<EventView>) -> bool {
    exists|i: int| 0 <= i < events.len() && (#[trigger] events[i] is NoActiveUser || events[i] is Ready)
}

proof fn lemma_run_step(w: WorkerView, reported: Seq<EventView>, input: InputView, directory: Seq<char>)
    requires
        run_invariant(w, reported),
    ensures
        ({
            let now = match taken(w, input, directory) {
                Some(s) => s.events,
                None => seq![],
            };
            run_invariant(worker_after(w, input, directory), reported + now)
        }),
{
    let now = match taken(w, input, directory) {
        Some(s) => s.events,
        None => seq![],
    };
    let all = reported + now;
    if let Some(s) = taken(w, input, directory) {
        if w.phase == Phase::Starting {
            if let InputView::Answer(a) = input {
                lemma_startup_step(StepView { flow: w.flow, events: seq![], need: NeedView::Done }, a);
                assert(startup_step(s));
            }
            if s.need is Done {
                let i = s.events.len() - 1;
                assert(all[reported.len() + i] == s.events[i]);
            }
        }
        if reported.len() > 0 {
            assert(all[0] == reported[0]);
        } else if s.events.len() > 0 {
            assert(all[0] == s.events[0]);
        }
        if started(reported) {
            let i = choose|i: int| 0 <= i < reported.len() && (#[trigger] reported[i] is NoActiveUser
                || reported[i] is Ready);
            assert(all[i] == reported[i]);
        }
    } else {
        assert(all =~= reported);
    }
}

proof fn lemma_run(w: WorkerView, reported: Seq<EventView>, inputs: Seq<InputView>, directory: Seq<char>, k: int)
    requires
        run_invariant(w, reported),
        0 <= k <= inputs.len(),
    ensures
        run_invariant(
            worker_run(w, inputs.take(k), directory),
            reported + worker_events(w, inputs.take(k), directory),
        ),
        reported + worker_events(w, inputs, directory) == (reported + worker_events(w, inputs.take(k), directory))
            + worker_events(worker_run(w, inputs.take(k), directory), inputs.skip(k), directory),
    decreases k,
{
    if k == 0 {
        assert(inputs.take(0) =~= Seq::<InputView>::empty());
        assert(inputs.skip(0) =~= inputs);
        assert(reported + Seq::<EventView>::empty() =~= reported);
    } else {
        let first = inputs[0];
        let now = match taken(w, first, directory) {
            Some(s) => s.events,
            None => seq![],
        };
        let w1 = worker_after(w, first, directory);
        lemma_run_step(w, reported, first, directory);
        let rest = inputs.drop_first();
        lemma_run(w1, reported + now, rest, directory, k - 1);
        assert(inputs.take(k).drop_first() =~= rest.take(k - 1));
        assert(inputs.take(k)[0] == first);
        assert(inputs.skip(k) =~= rest.skip(k - 1));
        assert(worker_events(w, inputs.take(k), directory) == now + worker_events(w1, rest.take(k - 1), directory));
        assert(worker_events(w, inputs, directory) == now + worker_events(w1, rest, directory));
        assert(reported + worker_events(w, inputs.take(k), directory) =~= (reported + now) + worker_events(
            w1,
            rest.take(k - 1),
            directory,
        ));
        assert(reported + worker_events(w, inputs, directory) =~= (reported + now) + worker_events(w1, rest, directory));
    }
}

/// The order of the worker's reports: the first event it reports is the list of profiles, or
/// the failure that stopped its start; it takes a command only once no flow waits and its
/// start has ended, and by then it has reported how it ended: no active profile, or the active
/// profile ready.
pub proof fn lemma_worker_start_order(data_directory: Seq<char>, inputs: Seq<InputView>, directory: Seq<char>)
    ensures
        ({
            let ev = boot_of(data_directory).events + worker_events(booted(data_directory), inputs, directory);
            ev.len() > 0 ==> (ev[0] is ProfilesLoaded || ev[0] is Failed)
        }),
        forall|k: int|
            0 <= k < inputs.len() && #[trigger] inputs[k] is Command && taken(
                worker_run(booted(data_directory), inputs.take(k), directory),
                inputs[k],
                directory,
            ) is Some ==> {
                &&& worker_run(booted(data_directory), inputs.take(k), directory).phase == Phase::Ready
                &&& started(boot_of(data_directory).events + worker_events(booted(data_directory), inputs.take(k), directory))
            },
{
    let w0 = booted(data_directory);
    let e0 = boot_of(data_directory).events;
    assert(e0 =~= Seq::<EventView>::empty());
    assert(run_invariant(w0, e0));
    lemma_run(w0, e0, inputs, directory, inputs.len() as int);
    assert(inputs.take(inputs.len() as int) =~= inputs);
    assert forall|k: int|
        0 <= k < inputs.len() && #[trigger] inputs[k] is Command && taken(
            worker_run(w0, inputs.take(k), directory),
            inputs[k],
            directory,
        ) is Some implies {
            &&& worker_run(w0, inputs.take(k), directory).phase == Phase::Ready
            &&& started(e0 + worker_events(w0, inputs.take(k), directory))
        } by {
        lemma_run(w0, e0, inputs, directory, k);
    }
}

} // verus!
