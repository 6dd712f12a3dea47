//! The life of a hidden automation webview: it is opened, given time to load, made to run a
//! script, given time to finish, and closed. The handler performs each step and reports back;
//! this state machine decides the next one.
use vstd::prelude::*;

verus! {

/// Where a hidden automation run stands.
#[derive(Clone, Copy, Debug, PartialEq, Eq, Structural)]
pub enum RunPhase {
    /// Not started.
    Ready,
    /// The window is being opened.
    Opening,
    /// Waiting for the page to load.
    Loading,
    /// The script is being run.
    Scripting,
    /// Waiting before the window is closed.
    Lingering,
    /// The window is being closed.
    Closing,
    /// Over; nothing more happens.
    Finished,
}

/// What the handler reports to the run.
pub enum RunEvent {
    /// Start the run.
    Begin,
    /// Opening the window succeeded, or failed with this message.
    Opened(Result<(), String>),
    /// The last action requested is done.
    Done,
}

/// What the run asks the handler to do next.
pub enum RunAction {
    /// Open a hidden, focus-less window labelled `label` on `url`.
    Open { label: String, url: String },
    /// Sleep this many milliseconds.
    Wait { millis: u64 },
    /// Run `js` in the window labelled `label`, if it is still open.
    RunScript { label: String, js: String },
    /// Close the window labelled `label`, if it is still open.
    Close { label: String },
    /// Report this result to the caller; the run is over.
    Finish(Result<(), String>),
    /// The event was not expected now; do nothing.
    Nothing,
}

/// A `RunEvent` as a value.
pub enum EventValue {
    Begin,
    Opened(Result<(), Seq<char>>),
    Done,
}

/// A `RunAction` as a value.
pub enum ActionValue {
    Open(Seq<char>, Seq<char>),
    Wait(u64),
    RunScript(Seq<char>, Seq<char>),
    Close(Seq<char>),
    Finish(Result<(), Seq<char>>),
    Nothing,
}

/// The settings of a run and where it stands.
pub struct RunState {
    pub label: Seq<char>,
    pub url: Seq<char>,
    pub js: Seq<char>,
    pub delay_ms: u64,
    pub close_delay_ms: u64,
    pub phase: RunPhase,
}

/// A result whose error message is taken as its characters.
pub open spec fn result_value(r: Result<(), String>) -> Result<(), Seq<char>> {
    match r {
        Ok(()) => Ok(()),
        Err(e) => Err(e@),
    }
}

impl View for RunEvent {
    type V = EventValue;

    open spec fn view(&self) -> EventValue {
        match self {
            RunEvent::Begin => EventValue::Begin,
            RunEvent::Opened(r) => EventValue::Opened(result_value(*r)),
            RunEvent::Done => EventValue::Done,
        }
    }
}

impl View for RunAction {
    type V = ActionValue;

    open spec fn view(&self) -> ActionValue {
        match self {
            RunAction::Open { label, url } => ActionValue::Open(label@, url@),
            RunAction::Wait { millis } => ActionValue::Wait(*millis),
            RunAction::RunScript { label, js } => ActionValue::RunScript(label@, js@),
            RunAction::Close { label } => ActionValue::Close(label@),
            RunAction::Finish(r) => ActionValue::Finish(result_value(*r)),
            RunAction::Nothing => ActionValue::Nothing,
        }
    }
}

/// The state `s` in phase `p`.
pub open spec fn in_phase(s: RunState, p: RunPhase) -> RunState {
    RunState { phase: p, ..s }
}

/// One step of a run: the state after event `e` in state `s`, and the action asked for.
pub open spec fn step_of(s: RunState, e: EventValue) -> (RunState, ActionValue) {
    match (s.phase, e) {
        (RunPhase::Ready, EventValue::Begin) => (
            in_phase(s, RunPhase::Opening),
            ActionValue::Open(s.label, s.url),
        ),
        (RunPhase::Opening, EventValue::Opened(Ok(()))) => (
            in_phase(s, RunPhase::Loading),
            ActionValue::Wait(s.delay_ms),
        ),
        (RunPhase::Opening, EventValue::Opened(Err(m))) => (
            in_phase(s, RunPhase::Finished),
            ActionValue::Finish(Err(m)),
        ),
        (RunPhase::Loading, EventValue::Done) => (
            in_phase(s, RunPhase::Scripting),
            ActionValue::RunScript(s.label, s.js),
        ),
        (RunPhase::Scripting, EventValue::Done) => (
            in_phase(s, RunPhase::Lingering),
            ActionValue::Wait(s.close_delay_ms),
        ),
        (RunPhase::Lingering, EventValue::Done) => (
            in_phase(s, RunPhase::Closing),
            ActionValue::Close(s.label),
        ),
        (RunPhase::Closing, EventValue::Done) => (
            in_phase(s, RunPhase::Finished),
            ActionValue::Finish(Ok(())),
        ),
        _ => (s, ActionValue::Nothing),
    }
}

/// The state after the events `es`, and the actions asked for on the way.
pub open spec fn run_of(s: RunState, es: Seq<EventValue>) -> (RunState, Seq<ActionValue>)
    decreases es.len(),
{
    if es.len() == 0 {
        (s, Seq::empty())
    } else {
        let (s1, a) = step_of(s, es[0]);
        let (s2, rest) = run_of(s1, es.drop_first());
        (s2, seq![a] + rest)
    }
}

/// A hidden automation run.
pub struct HiddenRun {
    label: String,
    url: String,
    js: String,
    delay_ms: u64,
    close_delay_ms: u64,
    phase: RunPhase,
}

impl View for HiddenRun {
    type V = RunState;

    closed spec fn view(&self) -> RunState {
        RunState {
            label: self.label@,
            url: self.url@,
            js: self.js@,
            delay_ms: self.delay_ms,
            close_delay_ms: self.close_delay_ms,
            phase: self.phase,
        }
    }
}

impl HiddenRun {
    /// A run, not started, of the window `label` on `url` running `js` after `delay_ms`
    /// milliseconds and closed `close_delay_ms` milliseconds later.
    pub fn new(label: String, url: String, js: String, delay_ms: u64, close_delay_ms: u64) -> (r:
        Self)
        ensures
            r@ == (RunState {
                label: label@,
                url: url@,
                js: js@,
                delay_ms,
                close_delay_ms,
                phase: RunPhase::Ready,
            }),
    {
        HiddenRun { label, url, js, delay_ms, close_delay_ms, phase: RunPhase::Ready }
    }

    /// Where the run stands.
    pub fn phase(&self) -> (p: RunPhase)
        ensures
            p == self@.phase,
    {
        self.phase
    }

    /// Takes in what the handler reports and says what to do next.
    pub fn step(&mut self, event: RunEvent) -> (action: RunAction)
        ensures
            (final(self)@, action@) == step_of(old(self)@, event@),
    {
        match (self.phase, event) {
            (RunPhase::Ready, RunEvent::Begin) => {
                self.phase = RunPhase::Opening;
                RunAction::Open { label: self.label.clone(), url: self.url.clone() }
            },
            (RunPhase::Opening, RunEvent::Opened(Ok(()))) => {
                self.phase = RunPhase::Loading;
                RunAction::Wait { millis: self.delay_ms }
            },
            (RunPhase::Opening, RunEvent::Opened(Err(m))) => {
                self.phase = RunPhase::Finished;
                RunAction::Finish(Err(m))
            },
            (RunPhase::Loading, RunEvent::Done) => {
                self.phase = RunPhase::Scripting;
                RunAction::RunScript { label: self.label.clone(), js: self.js.clone() }
            },
            (RunPhase::Scripting, RunEvent::Done) => {
                self.phase = RunPhase::Lingering;
                RunAction::Wait { millis: self.close_delay_ms }
            },
            (RunPhase::Lingering, RunEvent::Done) => {
                self.phase = RunPhase::Closing;
                RunAction::Close { label: self.label.clone() }
            },
            (RunPhase::Closing, RunEvent::Done) => {
                self.phase = RunPhase::Finished;
                RunAction::Finish(Ok(()))
            },
            _ => RunAction::Nothing,
        }
    }
}

/// A run whose window opens asks, in this order, to open the window, wait the load delay, run
/// the script, wait the close delay, close the window, and report success; then it is over.
pub proof fn law_run_order(s: RunState)
    requires
        s.phase == RunPhase::Ready,
    ensures
        run_of(
            s,
            seq![
                EventValue::Begin,
                EventValue::Opened(Ok(())),
                EventValue::Done,
                EventValue::Done,
                EventValue::Done,
                EventValue::Done,
            ],
        ) == (
            in_phase(s, RunPhase::Finished),
            seq![
                ActionValue::Open(s.label, s.url),
                ActionValue::Wait(s.delay_ms),
                ActionValue::RunScript(s.label, s.js),
                ActionValue::Wait(s.close_delay_ms),
                ActionValue::Close(s.label),
                ActionValue::Finish(Ok(())),
            ],
        ),
{
    let es = seq![
        EventValue::Begin,
        EventValue::Opened(Ok(())),
        EventValue::Done,
        EventValue::Done,
        EventValue::Done,
        EventValue::Done,
    ];
    reveal_with_fuel(run_of, 7);
    assert(es.drop_first() =~= seq![
        EventValue::Opened(Ok(())),
        EventValue::Done,
        EventValue::Done,
        EventValue::Done,
        EventValue::Done,
    ]);
    assert(es.drop_first().drop_first() =~= seq![
        EventValue::Done,
        EventValue::Done,
        EventValue::Done,
        EventValue::Done,
    ]);
    assert(es.drop_first().drop_first().drop_first() =~= seq![
        EventValue::Done,
        EventValue::Done,
        EventValue::Done,
    ]);
    assert(es.drop_first().drop_first().drop_first().drop_first() =~= seq![
        EventValue::Done,
        EventValue::Done,
    ]);
    assert(es.drop_first().drop_first().drop_first().drop_first().drop_first() =~= seq![
        EventValue::Done,
    ]);
    assert(es.drop_first().drop_first().drop_first().drop_first().drop_first().drop_first()
        =~= Seq::<EventValue>::empty());
    let r = run_of(s, es);
    assert(r.1 =~= seq![
        ActionValue::Open(s.label, s.url),
        ActionValue::Wait(s.delay_ms),
        ActionValue::RunScript(s.label, s.js),
        ActionValue::Wait(s.close_delay_ms),
        ActionValue::Close(s.label),
        ActionValue::Finish(Ok(())),
    ]);
}

/// A run whose window fails to open reports that failure right away and never runs the script
/// or waits.
pub proof fn law_open_failure_reported(s: RunState, message: Seq<char>)
    requires
        s.phase == RunPhase::Ready,
    ensures
        run_of(s, seq![EventValue::Begin, EventValue::Opened(Err(message))]) == (
            in_phase(s, RunPhase::Finished),
            seq![ActionValue::Open(s.label, s.url), ActionValue::Finish(Err(message))],
        ),
{
    let es = seq![EventValue::Begin, EventValue::Opened(Err(message))];
    reveal_with_fuel(run_of, 3);
    assert(es.drop_first() =~= seq![EventValue::Opened(Err(message))]);
    assert(es.drop_first().drop_first() =~= Seq::<EventValue>::empty());
    let r = run_of(s, es);
    assert(r.1 =~= seq![ActionValue::Open(s.label, s.url), ActionValue::Finish(Err(message))]);
}

/// A finished run stays finished and asks for nothing, whatever is reported to it.
pub proof fn law_finished_is_final(s: RunState, es: Seq<EventValue>)
    requires
        s.phase == RunPhase::Finished,
    ensures
        run_of(s, es).0 == s,
        forall|i: int| 0 <= i < es.len() ==> run_of(s, es).1[i] == ActionValue::Nothing,
        run_of(s, es).1.len() == es.len(),
    decreases es.len(),
{
    if es.len() > 0 {
        law_finished_is_final(s, es.drop_first());
        assert forall|i: int| 0 <= i < es.len() implies run_of(s, es).1[i] == ActionValue::Nothing by {
            if i > 0 {
                assert(run_of(s, es).1[i] == run_of(s, es.drop_first()).1[i - 1]);
            }
        }
    }
}

} // verus!
