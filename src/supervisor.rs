//! The per-job supervisor as a state machine: from its state and one input
//! (something that happened to the job) to its next state, the events it
//! publishes and the effects the runtime must carry out.
use vstd::prelude::*;
use crate::classify::{
    AUDIO_MSG, AUDIO_TRIGGER, EXTRACT_MSG, EXTRACT_TRIGGER, MERGE_MSG, MERGE_TRIGGER, WEBPAGE_MSG,
    WEBPAGE_TRIGGER, classify_stderr, classify_stdout, info_if, is_progress_line, stderr_event,
    stdout_events,
};
use crate::text::has_substring;
use crate::event::{
    EventView, ProgressEvent, events_view, lemma_terminal_count_add, lemma_terminal_count_one,
    terminal_count,
};

verus! {

/// Seconds a finished job stays registered, so that observers receive its terminal event.
pub const LINGER_SECS: u64 = 3;
/// Published when the downloader could not be started.
pub const SPAWN_FAILED_MSG: &'static str = "Gagal menjalankan yt-dlp: ";
/// Published when the downloader could not be killed.
pub const KILL_FAILED_MSG: &'static str = "Gagal membatalkan unduhan: ";
/// Published when the download failed or left no artifact.
pub const DOWNLOAD_FAILED_MSG: &'static str = "Gagal mengunduh atau file tidak ditemukan.";
/// Published when a cancellation starts.
pub const CANCEL_STARTED_MSG: &'static str = "Proses pembatalan unduhan dimulai.";
/// Prefix of the message for a failed read of standard output.
pub const STDOUT_FAILED_MSG: &'static str = "Stdout error: ";
/// Prefix of the message for a failed read of standard error.
pub const STDERR_FAILED_MSG: &'static str = "Stderr error: ";

/// Where a job stands.
#[derive(Clone, Copy, Debug, PartialEq, Eq, Structural)]
pub enum Phase {
    /// The downloader is being launched.
    Starting,
    /// Both output streams are being drained.
    Running,
    /// A kill was requested and is awaited.
    Canceling,
    /// Finishing: the process's exit status is awaited.
    AwaitingExit,
    /// Finishing: the output directory is being searched for the artifact.
    Scanning,
    /// Finishing: the terminal event is out; observers get a grace period.
    Lingering,
    /// The job is gone from the registry.
    Done,
}

/// One of the downloader's two output streams.
#[derive(Clone, Copy, Debug, PartialEq, Eq, Structural)]
pub enum Stream {
    Stdout,
    Stderr,
}

/// Something that happened to a job.
#[derive(Clone, Debug, PartialEq, Eq)]
pub enum JobInput {
    /// The downloader started.
    Spawned,
    /// The downloader could not be started; the text says why.
    SpawnFailed(String),
    /// A line was read from a stream.
    Line(Stream, String),
    /// A stream reached its end.
    Closed(Stream),
    /// Reading a stream failed; the text says why.
    StreamFailed(Stream, String),
    /// The job's cancellation trigger fired.
    CancelFired,
    /// The kill signal was delivered and the process reaped.
    KillDone,
    /// The kill failed; the text says why.
    KillFailed(String),
    /// The process exited; `true` for a successful status.
    Exited(bool),
    /// The artifact search is over, with the file name it found.
    ArtifactScanned(Option<String>),
    /// The grace period after the terminal event is over.
    GraceElapsed,
}

/// Model of a [`JobInput`].
pub enum InputView {
    Spawned,
    SpawnFailed(Seq<char>),
    Line(Stream, Seq<char>),
    Closed(Stream),
    StreamFailed(Stream, Seq<char>),
    CancelFired,
    KillDone,
    KillFailed(Seq<char>),
    Exited(bool),
    ArtifactScanned(Option<Seq<char>>),
    GraceElapsed,
}

impl View for JobInput {
    type V = InputView;

    open spec fn view(&self) -> InputView {
        match self {
            JobInput::Spawned => InputView::Spawned,
            JobInput::SpawnFailed(m) => InputView::SpawnFailed(m@),
            JobInput::Line(st, l) => InputView::Line(*st, l@),
            JobInput::Closed(st) => InputView::Closed(*st),
            JobInput::StreamFailed(st, m) => InputView::StreamFailed(*st, m@),
            JobInput::CancelFired => InputView::CancelFired,
            JobInput::KillDone => InputView::KillDone,
            JobInput::KillFailed(m) => InputView::KillFailed(m@),
            JobInput::Exited(ok) => InputView::Exited(*ok),
            JobInput::ArtifactScanned(f) => InputView::ArtifactScanned(
                match f {
                    Some(n) => Some(n@),
                    None => None,
                },
            ),
            JobInput::GraceElapsed => InputView::GraceElapsed,
        }
    }
}

/// Work the runtime carries out for the supervisor.
#[derive(Clone, Copy, Debug, PartialEq, Eq, Structural)]
pub enum Effect {
    /// Send the process a kill signal and await its exit.
    Kill,
    /// Remove the job's cancellation trigger from the registry.
    DisarmCancel,
    /// Await the process's exit status.
    AwaitExit,
    /// Search the output directory for the job's artifact.
    ScanArtifacts,
    /// Wait the grace period before deregistering.
    Linger,
    /// Remove the job from the registry.
    Deregister,
}

/// The supervisor of one job.
pub struct Supervisor {
    pub phase: Phase,
    pub stdout_open: bool,
    pub stderr_open: bool,
    /// A terminal event has been published.
    pub terminal_sent: bool,
    /// A failure that the terminal event must report.
    pub failure: Option<String>,
}

/// Model of a [`Supervisor`].
pub struct SupervisorView {
    pub phase: Phase,
    pub stdout_open: bool,
    pub stderr_open: bool,
    pub terminal_sent: bool,
    pub failure: Option<Seq<char>>,
}

impl View for Supervisor {
    type V = SupervisorView;

    open spec fn view(&self) -> SupervisorView {
        SupervisorView {
            phase: self.phase,
            stdout_open: self.stdout_open,
            stderr_open: self.stderr_open,
            terminal_sent: self.terminal_sent,
            failure: match self.failure {
                Some(m) => Some(m@),
                None => None,
            },
        }
    }
}

/// What one step yields: events to publish, in order, then effects to carry out.
pub struct Reaction {
    pub events: Vec<ProgressEvent>,
    pub effects: Vec<Effect>,
}

/// Model of one step: next state, published events, effects.
pub struct StepView {
    pub state: SupervisorView,
    pub events: Seq<EventView>,
    pub effects: Seq<Effect>,
}

/// The state of a job that has just been registered.
pub open spec fn initial() -> SupervisorView {
    SupervisorView {
        phase: Phase::Starting,
        stdout_open: false,
        stderr_open: false,
        terminal_sent: false,
        failure: None,
    }
}

/// A finishing phase: the process is no longer drained and cannot be cancelled.
pub open spec fn is_finishing(p: Phase) -> bool {
    p == Phase::AwaitingExit || p == Phase::Scanning || p == Phase::Lingering
}

/// Events are published only while no terminal event has been.
pub open spec fn gate(sent: bool, evs: Seq<EventView>) -> Seq<EventView> {
    if sent {
        Seq::empty()
    } else {
        evs
    }
}

/// No change, nothing published, nothing to do.
pub open spec fn ignore(s: SupervisorView) -> StepView {
    StepView { state: s, events: Seq::empty(), effects: Seq::empty() }
}

/// Moves to `phase` and publishes `e` as the terminal event, unless one was published before.
pub open spec fn conclude(s: SupervisorView, phase: Phase, e: EventView, effects: Seq<Effect>) -> StepView {
    StepView {
        state: SupervisorView { phase, terminal_sent: true, ..s },
        events: gate(s.terminal_sent, seq![e]),
        effects,
    }
}

/// Leaves the running phase: the process can no longer be cancelled, its exit is awaited.
pub open spec fn stop_draining(s: SupervisorView) -> StepView {
    StepView {
        state: SupervisorView { phase: Phase::AwaitingExit, ..s },
        events: Seq::empty(),
        effects: seq![Effect::DisarmCancel, Effect::AwaitExit],
    }
}

pub open spec fn stream_failed_msg(st: Stream, m: Seq<char>) -> Seq<char> {
    match st {
        Stream::Stdout => STDOUT_FAILED_MSG@ + m,
        Stream::Stderr => STDERR_FAILED_MSG@ + m,
    }
}

pub open spec fn next_running(s: SupervisorView, i: InputView) -> StepView {
    match i {
        InputView::Line(Stream::Stdout, l) => StepView {
            state: s,
            events: gate(s.terminal_sent, stdout_events(l)),
            effects: Seq::empty(),
        },
        InputView::Line(Stream::Stderr, l) => match stderr_event(l) {
            Some(e) => conclude(s, Phase::Running, e, Seq::empty()),
            None => ignore(s),
        },
        InputView::Closed(Stream::Stdout) => if s.stderr_open {
            ignore(SupervisorView { stdout_open: false, ..s })
        } else {
            stop_draining(SupervisorView { stdout_open: false, ..s })
        },
        InputView::Closed(Stream::Stderr) => if s.stdout_open {
            ignore(SupervisorView { stderr_open: false, ..s })
        } else {
            stop_draining(SupervisorView { stderr_open: false, ..s })
        },
        InputView::StreamFailed(st, m) => stop_draining(
            SupervisorView { failure: Some(stream_failed_msg(st, m)), ..s },
        ),
        InputView::CancelFired => StepView {
            state: SupervisorView { phase: Phase::Canceling, ..s },
            events: gate(s.terminal_sent, seq![EventView::Info(CANCEL_STARTED_MSG@)]),
            effects: seq![Effect::Kill],
        },
        _ => ignore(s),
    }
}

pub open spec fn next_awaiting_exit(s: SupervisorView, ok: bool) -> StepView {
    if s.terminal_sent {
        StepView {
            state: SupervisorView { phase: Phase::Lingering, ..s },
            events: Seq::empty(),
            effects: seq![Effect::Linger],
        }
    } else {
        match s.failure {
            Some(m) => conclude(s, Phase::Lingering, EventView::Error(m), seq![Effect::Linger]),
            None => if ok {
                StepView {
                    state: SupervisorView { phase: Phase::Scanning, ..s },
                    events: Seq::empty(),
                    effects: seq![Effect::ScanArtifacts],
                }
            } else {
                conclude(
                    s,
                    Phase::Lingering,
                    EventView::Error(DOWNLOAD_FAILED_MSG@),
                    seq![Effect::Linger],
                )
            },
        }
    }
}

/// One step of the supervisor.
pub open spec fn next(s: SupervisorView, i: InputView) -> StepView {
    match s.phase {
        Phase::Starting => match i {
            InputView::Spawned => ignore(
                SupervisorView { phase: Phase::Running, stdout_open: true, stderr_open: true, ..s },
            ),
            InputView::SpawnFailed(m) => conclude(
                s,
                Phase::Lingering,
                EventView::Error(SPAWN_FAILED_MSG@ + m),
                seq![Effect::DisarmCancel, Effect::Linger],
            ),
            _ => ignore(s),
        },
        Phase::Running => next_running(s, i),
        Phase::Canceling => match i {
            InputView::KillDone => conclude(
                s,
                Phase::AwaitingExit,
                EventView::Canceled,
                seq![Effect::DisarmCancel, Effect::AwaitExit],
            ),
            InputView::KillFailed(m) => conclude(
                s,
                Phase::AwaitingExit,
                EventView::Error(KILL_FAILED_MSG@ + m),
                seq![Effect::DisarmCancel, Effect::AwaitExit],
            ),
            _ => ignore(s),
        },
        Phase::AwaitingExit => match i {
            InputView::Exited(ok) => next_awaiting_exit(s, ok),
            _ => ignore(s),
        },
        Phase::Scanning => match i {
            InputView::ArtifactScanned(Some(f)) => conclude(
                s,
                Phase::Lingering,
                EventView::Complete(f),
                seq![Effect::Linger],
            ),
            InputView::ArtifactScanned(None) => conclude(
                s,
                Phase::Lingering,
                EventView::Error(DOWNLOAD_FAILED_MSG@),
                seq![Effect::Linger],
            ),
            _ => ignore(s),
        },
        Phase::Lingering => match i {
            InputView::GraceElapsed => StepView {
                state: SupervisorView { phase: Phase::Done, ..s },
                events: Seq::empty(),
                effects: seq![Effect::Deregister],
            },
            _ => ignore(s),
        },
        Phase::Done => ignore(s),
    }
}

/// `r`, with the supervisor now in `s`, is the step `expect`.
pub open spec fn reacts(s: SupervisorView, r: Reaction, expect: StepView) -> bool {
    &&& s == expect.state
    &&& events_view(r.events@) == expect.events
    &&& r.effects@ == expect.effects
}

impl Reaction {
    fn quiet() -> (r: Reaction)
        ensures
            r.events@.len() == 0,
            r.effects@ == Seq::<Effect>::empty(),
    {
        Reaction { events: Vec::new(), effects: no_effects() }
    }
}

fn no_effects() -> (r: Vec<Effect>)
    ensures
        r@ == Seq::<Effect>::empty(),
{
    let r: Vec<Effect> = Vec::new();
    assert(r@ =~= Seq::<Effect>::empty());
    r
}

fn effects1(a: Effect) -> (r: Vec<Effect>)
    ensures
        r@ == seq![a],
{
    let mut r: Vec<Effect> = Vec::new();
    r.push(a);
    assert(r@ =~= seq![a]);
    r
}

fn effects2(a: Effect, b: Effect) -> (r: Vec<Effect>)
    ensures
        r@ == seq![a, b],
{
    let mut r: Vec<Effect> = Vec::new();
    r.push(a);
    r.push(b);
    assert(r@ =~= seq![a, b]);
    r
}

fn prefixed(prefix: &str, detail: &str) -> (r: String)
    ensures
        r@ == prefix@ + detail@,
{
    let mut r = prefix.to_owned();
    r.append(detail);
    r
}

impl Supervisor {
    /// The supervisor of a job that has just been registered.
    pub fn new() -> (r: Supervisor)
        ensures
            r@ == initial(),
    {
        Supervisor {
            phase: Phase::Starting,
            stdout_open: false,
            stderr_open: false,
            terminal_sent: false,
            failure: None,
        }
    }

    fn gated(&self, evs: Vec<ProgressEvent>) -> (r: Vec<ProgressEvent>)
        ensures
            events_view(r@) == gate(self.terminal_sent, events_view(evs@)),
    {
        if self.terminal_sent {
            let r: Vec<ProgressEvent> = Vec::new();
            assert(events_view(r@) =~= Seq::<EventView>::empty());
            r
        } else {
            evs
        }
    }

    fn conclude(&mut self, phase: Phase, e: ProgressEvent, effects: Vec<Effect>) -> (r: Reaction)
        ensures
            reacts(final(self)@, r, conclude(old(self)@, phase, e@, effects@)),
    {
        let ghost e_view = e@;
        let events = if self.terminal_sent {
            let v: Vec<ProgressEvent> = Vec::new();
            assert(events_view(v@) =~= Seq::<EventView>::empty());
            v
        } else {
            let v = vec![e];
            assert(events_view(v@) =~= seq![e_view]);
            v
        };
        self.phase = phase;
        self.terminal_sent = true;
        Reaction { events, effects }
    }

    fn stop_draining(&mut self) -> (r: Reaction)
        ensures
            reacts(final(self)@, r, stop_draining(old(self)@)),
    {
        self.phase = Phase::AwaitingExit;
        let r = Reaction { events: Vec::new(), effects: effects2(Effect::DisarmCancel, Effect::AwaitExit) };
        assert(events_view(r.events@) =~= Seq::<EventView>::empty());
        r
    }

    fn step_running(&mut self, input: JobInput) -> (r: Reaction)
        requires
            old(self).phase == Phase::Running,
        ensures
            reacts(final(self)@, r, next_running(old(self)@, input@)),
    {
        match input {
            JobInput::Line(Stream::Stdout, l) => {
                let evs = classify_stdout(l.as_str());
                let events = self.gated(evs);
                assert(self@.failure == old(self)@.failure);
                Reaction { events, effects: no_effects() }
            },
            JobInput::Line(Stream::Stderr, l) => match classify_stderr(l.as_str()) {
                Some(e) => {
                    let effects = no_effects();
                    self.conclude(Phase::Running, e, effects)
                },
                None => {
                    let r = Reaction::quiet();
                    assert(events_view(r.events@) =~= Seq::<EventView>::empty());
                    r
                },
            },
            JobInput::Closed(Stream::Stdout) => {
                self.stdout_open = false;
                if self.stderr_open {
                    let r = Reaction::quiet();
                    assert(events_view(r.events@) =~= Seq::<EventView>::empty());
                    r
                } else {
                    self.stop_draining()
                }
            },
            JobInput::Closed(Stream::Stderr) => {
                self.stderr_open = false;
                if self.stdout_open {
                    let r = Reaction::quiet();
                    assert(events_view(r.events@) =~= Seq::<EventView>::empty());
                    r
                } else {
                    self.stop_draining()
                }
            },
            JobInput::StreamFailed(st, m) => {
                let msg = match st {
                    Stream::Stdout => prefixed(STDOUT_FAILED_MSG, m.as_str()),
                    Stream::Stderr => prefixed(STDERR_FAILED_MSG, m.as_str()),
                };
                self.failure = Some(msg);
                self.stop_draining()
            },
            JobInput::CancelFired => {
                let evs = vec![ProgressEvent::Info(CANCEL_STARTED_MSG.to_owned())];
                assert(events_view(evs@) =~= seq![EventView::Info(CANCEL_STARTED_MSG@)]);
                let events = self.gated(evs);
                self.phase = Phase::Canceling;
                Reaction { events, effects: effects1(Effect::Kill) }
            },
            _ => {
                let r = Reaction::quiet();
                assert(events_view(r.events@) =~= Seq::<EventView>::empty());
                r
            },
        }
    }

    fn step_awaiting_exit(&mut self, ok: bool) -> (r: Reaction)
        requires
            old(self).phase == Phase::AwaitingExit,
        ensures
            reacts(final(self)@, r, next_awaiting_exit(old(self)@, ok)),
    {
        if self.terminal_sent {
            self.phase = Phase::Lingering;
            let r = Reaction { events: Vec::new(), effects: effects1(Effect::Linger) };
            assert(self@.failure == old(self)@.failure);
            assert(events_view(r.events@) =~= Seq::<EventView>::empty());
            return r;
        }
        let reported = match &self.failure {
            Some(m) => Some(m.clone()),
            None => None,
        };
        match reported {
            Some(m) => {
                let r = self.conclude(Phase::Lingering, ProgressEvent::Error(m), effects1(Effect::Linger));
                assert(self@.failure == old(self)@.failure);
                r
            },
            None => {
                if ok {
                    self.phase = Phase::Scanning;
                    assert(self@.failure == old(self)@.failure);
                    let r = Reaction { events: Vec::new(), effects: effects1(Effect::ScanArtifacts) };
                    assert(events_view(r.events@) =~= Seq::<EventView>::empty());
                    r
                } else {
                    let e = ProgressEvent::Error(DOWNLOAD_FAILED_MSG.to_owned());
                    self.conclude(Phase::Lingering, e, effects1(Effect::Linger))
                }
            },
        }
    }

    /// Advances the supervisor by one input.
    pub fn step(&mut self, input: JobInput) -> (r: Reaction)
        ensures
            reacts(final(self)@, r, next(old(self)@, input@)),
    {
        match self.phase {
            Phase::Starting => match input {
                JobInput::Spawned => {
                    self.phase = Phase::Running;
                    self.stdout_open = true;
                    self.stderr_open = true;
                    let r = Reaction::quiet();
                    assert(events_view(r.events@) =~= Seq::<EventView>::empty());
                    r
                },
                JobInput::SpawnFailed(m) => {
                    let e = ProgressEvent::Error(prefixed(SPAWN_FAILED_MSG, m.as_str()));
                    self.conclude(Phase::Lingering, e, effects2(Effect::DisarmCancel, Effect::Linger))
                },
                _ => {
                    let r = Reaction::quiet();
                    assert(events_view(r.events@) =~= Seq::<EventView>::empty());
                    r
                },
            },
            Phase::Running => self.step_running(input),
            Phase::Canceling => match input {
                JobInput::KillDone => {
                    self.conclude(
                        Phase::AwaitingExit,
                        ProgressEvent::Canceled,
                        effects2(Effect::DisarmCancel, Effect::AwaitExit),
                    )
                },
                JobInput::KillFailed(m) => {
                    let e = ProgressEvent::Error(prefixed(KILL_FAILED_MSG, m.as_str()));
                    self.conclude(Phase::AwaitingExit, e, effects2(Effect::DisarmCancel, Effect::AwaitExit))
                },
                _ => {
                    let r = Reaction::quiet();
                    assert(events_view(r.events@) =~= Seq::<EventView>::empty());
                    r
                },
            },
            Phase::AwaitingExit => match input {
                JobInput::Exited(ok) => self.step_awaiting_exit(ok),
                _ => {
                    let r = Reaction::quiet();
                    assert(events_view(r.events@) =~= Seq::<EventView>::empty());
                    r
                },
            },
            Phase::Scanning => match input {
                JobInput::ArtifactScanned(Some(f)) => {
                    self.conclude(Phase::Lingering, ProgressEvent::Complete(f), effects1(Effect::Linger))
                },
                JobInput::ArtifactScanned(None) => {
                    let e = ProgressEvent::Error(DOWNLOAD_FAILED_MSG.to_owned());
                    self.conclude(Phase::Lingering, e, effects1(Effect::Linger))
                },
                _ => {
                    let r = Reaction::quiet();
                    assert(events_view(r.events@) =~= Seq::<EventView>::empty());
                    r
                },
            },
            Phase::Lingering => match input {
                JobInput::GraceElapsed => {
                    self.phase = Phase::Done;
                    let r = Reaction { events: Vec::new(), effects: effects1(Effect::Deregister) };
                    assert(events_view(r.events@) =~= Seq::<EventView>::empty());
                    r
                },
                _ => {
                    let r = Reaction::quiet();
                    assert(events_view(r.events@) =~= Seq::<EventView>::empty());
                    r
                },
            },
            Phase::Done => {
                let r = Reaction::quiet();
                assert(events_view(r.events@) =~= Seq::<EventView>::empty());
                r
            },
        }
    }
}

} // verus!

verus! {

/// The steps of the supervisor from `s` over `inputs`, in order: the final
/// state, every event published and every effect requested.
pub open spec fn run(s: SupervisorView, inputs: Seq<InputView>) -> StepView
    decreases inputs.len(),
{
    if inputs.len() == 0 {
        ignore(s)
    } else {
        let a = run(s, inputs.drop_last());
        let b = next(a.state, inputs.last());
        StepView { state: b.state, events: a.events + b.events, effects: a.effects + b.effects }
    }
}


/// How many kill requests `effs` holds.
pub open spec fn kill_count(effs: Seq<Effect>) -> nat
    decreases effs.len(),
{
    if effs.len() == 0 {
        0
    } else {
        kill_count(effs.drop_last()) + if effs.last() == Effect::Kill {
            1nat
        } else {
            0nat
        }
    }
}


proof fn lemma_kill_count_add(a: Seq<Effect>, b: Seq<Effect>)
    ensures
        kill_count(a + b) == kill_count(a) + kill_count(b),
    decreases b.len(),
{
    if b.len() > 0 {
        assert((a + b).drop_last() =~= a + b.drop_last());
        lemma_kill_count_add(a, b.drop_last());
    } else {
        assert(a + b =~= a);
    }
}


proof fn lemma_kill_count_small(a: Effect, b: Effect)
    ensures
        kill_count(seq![a]) == if a == Effect::Kill {
            1nat
        } else {
            0nat
        },
        kill_count(seq![a, b]) == kill_count(seq![a]) + kill_count(seq![b]),
{
    reveal_with_fuel(kill_count, 3);
    assert(seq![a].drop_last() =~= Seq::<Effect>::empty());
    assert(seq![b].drop_last() =~= Seq::<Effect>::empty());
    assert(seq![a, b].drop_last() =~= seq![a]);
}

proof fn lemma_info_if_quiet(hit: bool, msg: Seq<char>)
    ensures
        terminal_count(info_if(hit, msg)) == 0,
{
    if hit {
        lemma_terminal_count_one(EventView::Info(msg));
    }
}

proof fn lemma_stdout_quiet(line: Seq<char>)
    ensures
        terminal_count(stdout_events(line)) == 0,
{

    if is_progress_line(line) {
        lemma_terminal_count_one(EventView::Progress(line));
    } else {
        let a = info_if(has_substring(line, WEBPAGE_TRIGGER@), WEBPAGE_MSG@);
        let b = info_if(has_substring(line, EXTRACT_TRIGGER@), EXTRACT_MSG@);
        let c = info_if(has_substring(line, AUDIO_TRIGGER@), AUDIO_MSG@);
        let d = info_if(has_substring(line, MERGE_TRIGGER@), MERGE_MSG@);
        lemma_info_if_quiet(has_substring(line, WEBPAGE_TRIGGER@), WEBPAGE_MSG@);
        lemma_info_if_quiet(has_substring(line, EXTRACT_TRIGGER@), EXTRACT_MSG@);
        lemma_info_if_quiet(has_substring(line, AUDIO_TRIGGER@), AUDIO_MSG@);
        lemma_info_if_quiet(has_substring(line, MERGE_TRIGGER@), MERGE_MSG@);
        lemma_terminal_count_add(a, b);
        lemma_terminal_count_add(a + b, c);
        lemma_terminal_count_add(a + b + c, d);
    }
}

/// What every prefix of a run from the initial state satisfies.
pub open spec fn run_invariant(t: StepView) -> bool {
    &&& !t.state.terminal_sent ==> terminal_count(t.events) == 0
    &&& t.state.terminal_sent ==> terminal_count(t.events) == 1 && t.events.len() > 0
        && t.events.last().is_terminal()
    &&& (t.state.phase == Phase::Lingering || t.state.phase == Phase::Done)
        ==> t.state.terminal_sent
    &&& (t.state.phase == Phase::Starting || t.state.phase == Phase::Running) ==> kill_count(
        t.effects,
    ) == 0
    &&& kill_count(t.effects) <= 1
}

/// One step's own contribution obeys the rules that keep [`run_invariant`].
proof fn lemma_step_shape(s: SupervisorView, i: InputView)
    requires
        (s.phase == Phase::Lingering || s.phase == Phase::Done) ==> s.terminal_sent,
    ensures
        ({
            let b = next(s, i);
            &&& s.terminal_sent ==> b.events.len() == 0 && b.state.terminal_sent
            &&& !s.terminal_sent && b.state.terminal_sent ==> terminal_count(b.events) == 1
                && b.events.len() > 0 && b.events.last().is_terminal()
            &&& !s.terminal_sent && !b.state.terminal_sent ==> terminal_count(b.events) == 0
            &&& (b.state.phase == Phase::Lingering || b.state.phase == Phase::Done)
                ==> b.state.terminal_sent
            &&& kill_count(b.effects) <= 1
            &&& kill_count(b.effects) == 1 ==> s.phase == Phase::Running && b.state.phase
                == Phase::Canceling
            &&& (b.state.phase == Phase::Starting || b.state.phase == Phase::Running) ==> (
            s.phase == Phase::Starting || s.phase == Phase::Running)
        }),
{
    let b = next(s, i);
    lemma_kill_count_small(Effect::DisarmCancel, Effect::AwaitExit);
    lemma_kill_count_small(Effect::DisarmCancel, Effect::Linger);
    lemma_kill_count_small(Effect::Linger, Effect::Linger);
    lemma_kill_count_small(Effect::ScanArtifacts, Effect::ScanArtifacts);
    lemma_kill_count_small(Effect::Deregister, Effect::Deregister);
    lemma_kill_count_small(Effect::Kill, Effect::Kill);
    lemma_kill_count_small(Effect::AwaitExit, Effect::AwaitExit);
    assert(kill_count(Seq::<Effect>::empty()) == 0);
    assert(terminal_count(Seq::<EventView>::empty()) == 0);
    match i {
        InputView::Line(Stream::Stdout, l) => {
            lemma_stdout_quiet(l);
        },
        InputView::Line(Stream::Stderr, l) => {
            if let Some(e) = stderr_event(l) {
                lemma_terminal_count_one(e);
            }
        },
        InputView::SpawnFailed(m) => {
            lemma_terminal_count_one(EventView::Error(SPAWN_FAILED_MSG@ + m));
        },
        InputView::KillFailed(m) => {
            lemma_terminal_count_one(EventView::Error(KILL_FAILED_MSG@ + m));
        },
        InputView::ArtifactScanned(Some(f)) => {
            lemma_terminal_count_one(EventView::Complete(f));
        },
        _ => {},
    }
    lemma_terminal_count_one(EventView::Canceled);
    lemma_terminal_count_one(EventView::Error(DOWNLOAD_FAILED_MSG@));
    lemma_terminal_count_one(EventView::Info(CANCEL_STARTED_MSG@));
    if let Some(m) = s.failure {
        lemma_terminal_count_one(EventView::Error(m));
    }
}

/// Every prefix of a run from the initial state satisfies [`run_invariant`].
pub proof fn lemma_run_invariant(inputs: Seq<InputView>)
    ensures
        run_invariant(run(initial(), inputs)),
    decreases inputs.len(),
{
    if inputs.len() == 0 {
        assert(kill_count(Seq::<Effect>::empty()) == 0);
        assert(terminal_count(Seq::<EventView>::empty()) == 0);
    } else {
        let a = run(initial(), inputs.drop_last());
        lemma_run_invariant(inputs.drop_last());
        let b = next(a.state, inputs.last());
        lemma_step_shape(a.state, inputs.last());
        lemma_terminal_count_add(a.events, b.events);
        lemma_kill_count_add(a.effects, b.effects);
        if b.events.len() == 0 {
            assert(a.events + b.events =~= a.events);
        } else {
            assert((a.events + b.events).last() == b.events.last());
        }
    }
}

/// A job publishes at most one terminal event and nothing after it; once it
/// has reached its grace period (or is done), it has published exactly one,
/// and that event was the last it published.
pub proof fn lemma_single_terminal(inputs: Seq<InputView>)
    ensures
        ({
            let t = run(initial(), inputs);
            &&& terminal_count(t.events) <= 1
            &&& terminal_count(t.events) == 1 ==> t.events.last().is_terminal()
            &&& (t.state.phase == Phase::Lingering || t.state.phase == Phase::Done)
                ==> terminal_count(t.events) == 1
        }),
{
    lemma_run_invariant(inputs);
}

/// However often its cancellation fires, a job asks for at most one kill.
pub proof fn lemma_single_kill(inputs: Seq<InputView>)
    ensures
        kill_count(run(initial(), inputs).effects) <= 1,
{
    lemma_run_invariant(inputs);
}

/// A cancellation that reaches a finishing job changes nothing: no event,
/// no effect, the same state, so its terminal event is the one it would
/// have had without it.
pub proof fn lemma_cancel_when_finishing(s: SupervisorView)
    requires
        is_finishing(s.phase),
    ensures
        next(s, InputView::CancelFired) == ignore(s),
{
}

/// Running over `a + b` is running over `a`, then over `b` from where `a` left off.
pub proof fn lemma_run_append(s: SupervisorView, a: Seq<InputView>, b: Seq<InputView>)
    ensures
        ({
            let x = run(s, a);
            let y = run(x.state, b);
            run(s, a + b) == StepView {
                state: y.state,
                events: x.events + y.events,
                effects: x.effects + y.effects,
            }
        }),
    decreases b.len(),
{
    let x = run(s, a);
    if b.len() == 0 {
        assert(a + b =~= a);
        assert(x.events + Seq::<EventView>::empty() =~= x.events);
        assert(x.effects + Seq::<Effect>::empty() =~= x.effects);
    } else {
        assert((a + b).drop_last() =~= a + b.drop_last());
        assert((a + b).last() == b.last());
        lemma_run_append(s, a, b.drop_last());
        let y0 = run(x.state, b.drop_last());
        let z = next(y0.state, b.last());
        assert(x.events + y0.events + z.events =~= x.events + (y0.events + z.events));
        assert(x.effects + y0.effects + z.effects =~= x.effects + (y0.effects + z.effects));
    }
}

/// A cancellation that arrives once a job is finishing leaves the whole rest
/// of the run as it would have been without it: the same events (hence the
/// same terminal event), the same effects, the same final state.
pub proof fn lemma_late_cancel_is_void(a: Seq<InputView>, b: Seq<InputView>)
    requires
        is_finishing(run(initial(), a).state.phase),
    ensures
        run(initial(), a + seq![InputView::CancelFired] + b) == run(initial(), a + b),
{
    let c = seq![InputView::CancelFired];
    let x = run(initial(), a);
    lemma_run_append(initial(), a, c);
    assert(c.drop_last() =~= Seq::<InputView>::empty());
    assert(c.last() == InputView::CancelFired);
    assert(run(x.state, c.drop_last()) == ignore(x.state));
    lemma_cancel_when_finishing(x.state);
    assert(run(x.state, c).state == x.state);
    assert(run(x.state, c).events =~= Seq::<EventView>::empty());
    assert(run(x.state, c).effects =~= Seq::<Effect>::empty());
    assert(x.events + Seq::<EventView>::empty() =~= x.events);
    assert(x.effects + Seq::<Effect>::empty() =~= x.effects);
    assert(run(initial(), a + c) == x);
    lemma_run_append(initial(), a + c, b);
    lemma_run_append(initial(), a, b);
}

/// Inputs that take a job from `s` to its end whichever way the runtime
/// answers last: a failed launch, a cancellation, a failed exit, a missing
/// artifact, then the end of the grace period.
pub open spec fn closing_inputs(s: SupervisorView) -> Seq<InputView> {
    match s.phase {
        Phase::Starting => seq![InputView::SpawnFailed(Seq::empty()), InputView::GraceElapsed],
        Phase::Running => seq![
            InputView::CancelFired,
            InputView::KillDone,
            InputView::Exited(false),
            InputView::GraceElapsed,
        ],
        Phase::Canceling => seq![InputView::KillDone, InputView::Exited(false), InputView::GraceElapsed],
        Phase::AwaitingExit => seq![InputView::Exited(false), InputView::GraceElapsed],
        Phase::Scanning => seq![InputView::ArtifactScanned(None), InputView::GraceElapsed],
        Phase::Lingering => seq![InputView::GraceElapsed],
        Phase::Done => Seq::empty(),
    }
}

proof fn lemma_run_one(s: SupervisorView, i: InputView)
    ensures
        run(s, seq![i]).state == next(s, i).state,
{
    assert(seq![i].drop_last() =~= Seq::<InputView>::empty());
    assert(run(s, Seq::<InputView>::empty()) == ignore(s));
}

proof fn lemma_closing_reaches_done(s: SupervisorView)
    ensures
        run(s, closing_inputs(s)).state.phase == Phase::Done,
    decreases closing_inputs(s).len(),
{
    let c = closing_inputs(s);
    if c.len() > 0 {
        let head = seq![c[0]];
        let tail = c.drop_first();
        assert(c =~= head + tail);
        lemma_run_append(s, head, tail);
        lemma_run_one(s, c[0]);
        let s1 = next(s, c[0]).state;
        if tail.len() > 0 {
            assert(closing_inputs(s1) =~= tail);
            lemma_closing_reaches_done(s1);
        } else {
            assert(run(s1, tail) == ignore(s1));
        }
    } else {
        assert(run(s, c) == ignore(s));
    }
}

/// No job is ever stuck: from any point of any run, the answers the runtime
/// gives bring the job to its end, and by then it has published exactly one
/// terminal event, as its last event.
pub proof fn lemma_always_concludes(a: Seq<InputView>)
    ensures
        ({
            let t = run(initial(), a + closing_inputs(run(initial(), a).state));
            &&& t.state.phase == Phase::Done
            &&& terminal_count(t.events) == 1
            &&& t.events.last().is_terminal()
        }),
{
    let s = run(initial(), a).state;
    lemma_run_append(initial(), a, closing_inputs(s));
    lemma_closing_reaches_done(s);
    lemma_single_terminal(a + closing_inputs(s));
}

} // verus!
