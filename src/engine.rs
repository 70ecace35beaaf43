use crate::discovery::Target;
use crate::error::SpeedTestError;
use crate::events::Notice;
use crate::snapshot::TargetDownloadInformation;
use vstd::prelude::*;

verus! {

/// Where a measurement run stands.
#[derive(Debug, Clone, Copy, PartialEq, Eq, Structural)]
pub enum Phase {
    /// Waiting for the discovery service's list of targets.
    Resolving,
    /// Learning the size of each target in turn.
    Probing,
    /// Reading the body of each target in turn.
    Downloading,
    /// Every target was read to its end.
    Finished,
    /// The run stopped on an error.
    Failed,
}

/// What the driver observed after carrying out the last command.
#[derive(Debug, PartialEq)]
pub enum Event {
    /// The discovery service answered with these targets.
    Resolved(Vec<Target>),
    /// The discovery request failed, for the reason given.
    ResolveFailed(String),
    /// The size request of the current target succeeded, with the announced
    /// body size if the answer had one.
    Probed(Option<u64>),
    /// The size request of the current target failed.
    ProbeFailed,
    /// A chunk of `len` bytes of the current target's body arrived,
    /// `elapsed` nanoseconds after the run's first body request.
    Chunk { len: usize, elapsed: u128 },
    /// The current target's body ended, `elapsed` nanoseconds after the run's
    /// first body request.
    StreamEnded { elapsed: u128 },
    /// The current target's body could not be requested or read.
    TransferFailed,
}

/// What the driver is to do next.
#[derive(Debug, PartialEq)]
pub enum Command {
    /// Ask for the size of target `index`, without its body.
    Probe { index: usize, url: String },
    /// Request the body of target `index` and report its first chunk.
    Download { index: usize, url: String },
    /// Report the next chunk of the body being read.
    ReadChunk,
    /// The run is over, with this outcome.
    Done(Result<TargetDownloadInformation, SpeedTestError>),
}

/// The answer to one event: notifications to hand to every observer, in
/// order, and then the next command.
#[derive(Debug, PartialEq)]
pub struct Step {
    pub notices: Vec<Notice>,
    pub command: Command,
}

/// The state of a run as a mathematical value.
pub struct RunView {
    pub phase: Phase,
    pub targets: Seq<Target>,
    /// Announced sizes of the targets probed so far.
    pub sizes: Seq<u64>,
    /// The target being probed or read.
    pub current: nat,
    /// Bytes of the current target's body read so far.
    pub received: u64,
    pub info: TargetDownloadInformation,
    /// Every notification handed out so far.
    pub trace: Seq<Notice>,
}

/// The outcome of one event: the new state, the notifications and the command.
pub struct Transition {
    pub state: RunView,
    pub notices: Seq<Notice>,
    pub command: Command,
}

pub open spec fn sum(s: Seq<u64>) -> int
    decreases s.len(),
{
    if s.len() == 0 {
        0
    } else {
        sum(s.drop_last()) + s.last() as int
    }
}

pub open spec fn later(a: u128, b: u128) -> u128 {
    if a <= b {
        b
    } else {
        a
    }
}

/// Every notification comes no later than each one after it and than `info`.
pub open spec fn ordered(t: Seq<Notice>, info: TargetDownloadInformation) -> bool {
    &&& forall|i: int, j: int|
        0 <= i < j < t.len() ==> (#[trigger] t[i]).info().precedes((#[trigger] t[j]).info())
    &&& forall|i: int| 0 <= i < t.len() ==> (#[trigger] t[i]).info().precedes(info)
}

/// A run that started and did not finish: one start with nothing read,
/// followed by progress notifications only.
pub open spec fn opened(t: Seq<Notice>, info: TargetDownloadInformation) -> bool {
    &&& t.len() >= 1
    &&& t[0] is Download
    &&& t[0].info().bytes_downloaded == 0
    &&& forall|i: int| 0 < i < t.len() ==> #[trigger] t[i] is Downloading
    &&& ordered(t, info)
}

/// A finished run: an opened one, closed by one notification of the end
/// that carries `info`.
pub open spec fn closed(t: Seq<Notice>, info: TargetDownloadInformation) -> bool {
    &&& t.len() >= 2
    &&& opened(t.drop_last(), info)
    &&& t.last() == Notice::Downloaded(info)
    &&& ordered(t, info)
}

/// What holds of every state that a run can reach.
pub open spec fn inv(v: RunView) -> bool {
    &&& v.info.total_bytes == sum(v.sizes)
    &&& v.sizes.len() <= v.targets.len()
    &&& match v.phase {
        Phase::Resolving => {
            &&& v.sizes.len() == 0
            &&& v.current == 0
            &&& v.received == 0
            &&& v.info == TargetDownloadInformation::zero()
            &&& v.trace.len() == 0
        },
        Phase::Probing => {
            &&& v.sizes.len() == v.current
            &&& v.current < v.targets.len()
            &&& v.received == 0
            &&& v.info.bytes_downloaded == 0
            &&& v.info.time_elapsed == 0
            &&& v.trace.len() == 0
        },
        Phase::Downloading => {
            &&& v.sizes.len() == v.targets.len()
            &&& v.current < v.targets.len()
            &&& v.received <= v.sizes[v.current as int]
            &&& v.info.bytes_downloaded == sum(v.sizes.take(v.current as int)) + v.received
            &&& opened(v.trace, v.info)
        },
        Phase::Finished => {
            &&& v.sizes.len() == v.targets.len()
            &&& v.info.bytes_downloaded == v.info.total_bytes
            &&& closed(v.trace, v.info)
        },
        Phase::Failed => {
            &&& v.info.bytes_downloaded <= v.info.total_bytes
            &&& (v.trace.len() == 0 || opened(v.trace, v.info))
        },
    }
}

/// Which events a state waits for.
pub open spec fn accepts(v: RunView, e: Event) -> bool {
    match v.phase {
        Phase::Resolving => e is Resolved || e is ResolveFailed,
        Phase::Probing => e is Probed || e is ProbeFailed,
        Phase::Downloading => e is Chunk || e is StreamEnded || e is TransferFailed,
        Phase::Finished => false,
        Phase::Failed => false,
    }
}

/// Stop the run with `err`; what was handed out stays as it was.
pub open spec fn fail(v: RunView, err: SpeedTestError) -> Transition {
    Transition {
        state: RunView { phase: Phase::Failed, ..v },
        notices: seq![],
        command: Command::Done(Err(err)),
    }
}

/// Every target was probed: announce the start, then read the first body,
/// or finish at once when there is none.
pub open spec fn begin_download(v: RunView) -> Transition {
    let start = Notice::Download(v.info);
    if v.targets.len() == 0 {
        let end = Notice::Downloaded(v.info);
        Transition {
            state: RunView { phase: Phase::Finished, trace: v.trace.push(start).push(end), ..v },
            notices: seq![start, end],
            command: Command::Done(Ok(v.info)),
        }
    } else {
        Transition {
            state: RunView {
                phase: Phase::Downloading,
                current: 0,
                received: 0,
                trace: v.trace.push(start),
                ..v
            },
            notices: seq![start],
            command: Command::Download { index: 0, url: v.targets[0].url },
        }
    }
}

/// The name of the target being probed or read.
pub open spec fn current_name(v: RunView) -> String {
    v.targets[v.current as int].name
}

/// What a run does on event `e` in state `v`.
pub open spec fn next(v: RunView, e: Event) -> Transition {
    match e {
        Event::Resolved(ts) => {
            let w = RunView {
                phase: Phase::Probing,
                targets: ts@,
                sizes: seq![],
                current: 0,
                ..v
            };
            if ts@.len() == 0 {
                begin_download(w)
            } else {
                Transition {
                    state: w,
                    notices: seq![],
                    command: Command::Probe { index: 0, url: ts@[0].url },
                }
            }
        },
        Event::ResolveFailed(reason) => fail(v, SpeedTestError::Metadata(reason)),
        Event::Probed(size) => match size {
            None => fail(v, SpeedTestError::Probe(current_name(v))),
            Some(n) => {
                if v.info.total_bytes + n > u64::MAX {
                    fail(v, SpeedTestError::InternalOverflow)
                } else {
                    let w = RunView {
                        sizes: v.sizes.push(n),
                        current: v.current + 1,
                        info: TargetDownloadInformation {
                            total_bytes: (v.info.total_bytes + n) as u64,
                            ..v.info
                        },
                        ..v
                    };
                    if w.current == v.targets.len() {
                        begin_download(w)
                    } else {
                        Transition {
                            state: w,
                            notices: seq![],
                            command: Command::Probe {
                                index: w.current as usize,
                                url: v.targets[w.current as int].url,
                            },
                        }
                    }
                }
            },
        },
        Event::ProbeFailed => fail(v, SpeedTestError::Probe(current_name(v))),
        Event::Chunk { len, elapsed } => {
            if v.received + len > v.sizes[v.current as int] {
                fail(v, SpeedTestError::Transfer(current_name(v)))
            } else {
                let info = TargetDownloadInformation {
                    bytes_downloaded: (v.info.bytes_downloaded + len) as u64,
                    total_bytes: v.info.total_bytes,
                    time_elapsed: later(v.info.time_elapsed, elapsed),
                };
                let n = Notice::Downloading(info);
                Transition {
                    state: RunView {
                        received: (v.received + len) as u64,
                        info,
                        trace: v.trace.push(n),
                        ..v
                    },
                    notices: seq![n],
                    command: Command::ReadChunk,
                }
            }
        },
        Event::StreamEnded { elapsed } => {
            if v.received < v.sizes[v.current as int] {
                fail(v, SpeedTestError::Transfer(current_name(v)))
            } else {
                let info = TargetDownloadInformation {
                    time_elapsed: later(v.info.time_elapsed, elapsed),
                    ..v.info
                };
                if v.current + 1 == v.targets.len() {
                    let end = Notice::Downloaded(info);
                    Transition {
                        state: RunView {
                            phase: Phase::Finished,
                            current: v.current + 1,
                            received: 0,
                            info,
                            trace: v.trace.push(end),
                            ..v
                        },
                        notices: seq![end],
                        command: Command::Done(Ok(info)),
                    }
                } else {
                    Transition {
                        state: RunView { current: v.current + 1, received: 0, info, ..v },
                        notices: seq![],
                        command: Command::Download {
                            index: (v.current + 1) as usize,
                            url: v.targets[v.current + 1 as int].url,
                        },
                    }
                }
            }
        },
        Event::TransferFailed => fail(v, SpeedTestError::Transfer(current_name(v))),
    }
}


proof fn lemma_sum_push(s: Seq<u64>, n: u64)
    ensures
        sum(s.push(n)) == sum(s) + n,
{
    assert(s.push(n).drop_last() =~= s);
}

proof fn lemma_sum_take_step(s: Seq<u64>, k: int)
    requires
        0 <= k < s.len(),
    ensures
        sum(s.take(k + 1)) == sum(s.take(k)) + s[k],
{
    assert(s.take(k + 1).drop_last() =~= s.take(k));
}

proof fn lemma_sum_take_bounded(s: Seq<u64>, k: int)
    requires
        0 <= k <= s.len(),
    ensures
        sum(s.take(k)) <= sum(s),
    decreases s.len() - k,
{
    if k == s.len() {
        assert(s.take(k) =~= s);
    } else {
        lemma_sum_take_step(s, k);
        lemma_sum_take_bounded(s, k + 1);
    }
}

proof fn lemma_ordered_push(
    t: Seq<Notice>,
    info: TargetDownloadInformation,
    n: Notice,
)
    requires
        ordered(t, info),
        info.precedes(n.info()),
    ensures
        ordered(t.push(n), n.info()),
{
    let u = t.push(n);
    assert forall|i: int, j: int| 0 <= i < j < u.len() implies (#[trigger] u[i]).info().precedes(
        (#[trigger] u[j]).info(),
    ) by {
        if j < t.len() {
            assert(t[i].info().precedes(t[j].info()));
        } else {
            assert(t[i].info().precedes(info));
        }
    }
    assert forall|i: int| 0 <= i < u.len() implies (#[trigger] u[i]).info().precedes(n.info()) by {
        if i < t.len() {
            assert(t[i].info().precedes(info));
        }
    }
}

proof fn lemma_opened_push(t: Seq<Notice>, info: TargetDownloadInformation, n: Notice)
    requires
        opened(t, info),
        n is Downloading,
        info.precedes(n.info()),
    ensures
        opened(t.push(n), n.info()),
{
    lemma_ordered_push(t, info, n);
    let u = t.push(n);
    assert forall|i: int| 0 < i < u.len() implies #[trigger] u[i] is Downloading by {
        if i < t.len() {
            assert(t[i] is Downloading);
        }
    }
}

proof fn lemma_begin_download_keeps_inv(w: RunView)
    requires
        w.phase == Phase::Probing,
        w.sizes.len() == w.targets.len(),
        w.current == w.targets.len(),
        w.info.total_bytes == sum(w.sizes),
        w.received == 0,
        w.info.bytes_downloaded == 0,
        w.info.time_elapsed == 0,
        w.trace.len() == 0,
    ensures
        inv(begin_download(w).state),
        begin_download(w).state.trace == w.trace + begin_download(w).notices,
{
    let t = begin_download(w);
    let start = Notice::Download(w.info);
    lemma_ordered_push(w.trace, w.info, start);
    assert(opened(w.trace.push(start), w.info));
    assert(w.sizes.take(0) =~= Seq::<u64>::empty());
    if w.targets.len() == 0 {
        let end = Notice::Downloaded(w.info);
        lemma_ordered_push(w.trace.push(start), w.info, end);
        assert(w.trace.push(start).push(end).drop_last() =~= w.trace.push(start));
        assert(t.state.trace =~= w.trace + t.notices);
    } else {
        assert(t.state.trace =~= w.trace + t.notices);
    }
}

/// Every event that a state waits for leads to a state of the same kind, and
/// the notifications handed out are those of the transition, appended.
pub proof fn lemma_next_keeps_inv(v: RunView, e: Event)
    requires
        inv(v),
        accepts(v, e),
    ensures
        inv(next(v, e).state),
        next(v, e).state.trace == v.trace + next(v, e).notices,
{
    let t = next(v, e);
    match e {
        Event::Resolved(ts) => {
            let w = RunView { phase: Phase::Probing, targets: ts@, sizes: seq![], current: 0, ..v };
            assert(sum(w.sizes) == 0);
            if ts@.len() == 0 {
                lemma_begin_download_keeps_inv(w);
            } else {
                assert(v.trace + t.notices =~= v.trace);
            }
        },
        Event::Probed(size) => {
            match size {
                None => {
                    assert(v.trace + t.notices =~= v.trace);
                },
                Some(n) => {
                    if v.info.total_bytes + n > u64::MAX {
                        assert(v.trace + t.notices =~= v.trace);
                    } else {
                        lemma_sum_push(v.sizes, n);
                        let w = RunView {
                            sizes: v.sizes.push(n),
                            current: v.current + 1,
                            info: TargetDownloadInformation {
                                total_bytes: (v.info.total_bytes + n) as u64,
                                ..v.info
                            },
                            ..v
                        };
                        if w.current == v.targets.len() {
                            lemma_begin_download_keeps_inv(w);
                        } else {
                            assert(v.trace + t.notices =~= v.trace);
                        }
                    }
                },
            }
        },
        Event::Chunk { len, elapsed } => {
            lemma_sum_take_step(v.sizes, v.current as int);
            lemma_sum_take_bounded(v.sizes, v.current as int + 1);
            if v.received + len > v.sizes[v.current as int] {
                assert(v.trace + t.notices =~= v.trace);
            } else {
                let n = Notice::Downloading(t.state.info);
                lemma_opened_push(v.trace, v.info, n);
                assert(v.trace + t.notices =~= v.trace.push(n));
            }
        },
        Event::StreamEnded { elapsed } => {
            lemma_sum_take_step(v.sizes, v.current as int);
            lemma_sum_take_bounded(v.sizes, v.current as int + 1);
            if v.received < v.sizes[v.current as int] {
                assert(v.trace + t.notices =~= v.trace);
            } else {
                let info = t.state.info;
                let w = RunView { info, ..v };
                lemma_ordered_push(v.trace, v.info, Notice::Downloading(info));
                assert(ordered(v.trace, info));
                if v.current + 1 == v.targets.len() {
                    let end = Notice::Downloaded(info);
                    assert(v.sizes.take(v.targets.len() as int) =~= v.sizes);
                    lemma_ordered_push(v.trace, info, end);
                    assert(v.trace.push(end).drop_last() =~= v.trace);
                    assert(v.trace + t.notices =~= v.trace.push(end));
                } else {
                    assert(v.trace + t.notices =~= v.trace);
                }
            }
        },
        _ => {
            assert(v.trace + t.notices =~= v.trace);
            if v.phase == Phase::Downloading {
                lemma_sum_take_step(v.sizes, v.current as int);
                lemma_sum_take_bounded(v.sizes, v.current as int + 1);
            }
        },
    }
}

/// One measurement run. A driver carries out each command, reports what it
/// observed as an event, and hands each notification to the observers.
pub struct Measurement {
    phase: Phase,
    targets: Vec<Target>,
    sizes: Vec<u64>,
    current: usize,
    received: u64,
    info: TargetDownloadInformation,
    trace: Ghost<Seq<Notice>>,
}

impl View for Measurement {
    type V = RunView;

    closed spec fn view(&self) -> RunView {
        RunView {
            phase: self.phase,
            targets: self.targets@,
            sizes: self.sizes@,
            current: self.current as nat,
            received: self.received,
            info: self.info,
            trace: self.trace@,
        }
    }
}

impl Measurement {
    pub open spec fn wf(&self) -> bool {
        inv(self@)
    }

    /// A run that waits for the discovery service's answer.
    pub fn new() -> (r: Measurement)
        ensures
            r.wf(),
            r@ == (RunView {
                phase: Phase::Resolving,
                targets: seq![],
                sizes: seq![],
                current: 0,
                received: 0,
                info: TargetDownloadInformation::zero(),
                trace: seq![],
            }),
    {
        let r = Measurement {
            phase: Phase::Resolving,
            targets: Vec::new(),
            sizes: Vec::new(),
            current: 0,
            received: 0,
            info: TargetDownloadInformation { bytes_downloaded: 0, total_bytes: 0, time_elapsed: 0 },
            trace: Ghost(Seq::empty()),
        };
        assert(r@.targets =~= seq![]);
        assert(r@.sizes =~= seq![]);
        assert(r@.trace =~= seq![]);
        r
    }

    pub fn phase(&self) -> (r: Phase)
        ensures
            r == self@.phase,
    {
        self.phase
    }

    /// The counters as they stand.
    pub fn snapshot(&self) -> (r: TargetDownloadInformation)
        ensures
            r == self@.info,
    {
        self.info
    }

    /// Whether the run waits for an event of the kind of `event`.
    pub fn accepts_event(&self, event: &Event) -> (r: bool)
        ensures
            r == accepts(self@, *event),
    {
        match self.phase {
            Phase::Resolving => matches!(event, Event::Resolved(_) | Event::ResolveFailed(_)),
            Phase::Probing => matches!(event, Event::Probed(_) | Event::ProbeFailed),
            Phase::Downloading => matches!(
                event,
                Event::Chunk { .. } | Event::StreamEnded { .. } | Event::TransferFailed
            ),
            Phase::Finished => false,
            Phase::Failed => false,
        }
    }

    fn stop(&mut self, err: SpeedTestError) -> (r: Step)
        ensures
            final(self)@ == fail(old(self)@, err).state,
            r.notices@ == fail(old(self)@, err).notices,
            r.command == fail(old(self)@, err).command,
    {
        self.phase = Phase::Failed;
        let r = Step { notices: Vec::new(), command: Command::Done(Err(err)) };
        assert(r.notices@ =~= seq![]);
        r
    }

    fn current_name(&self) -> (r: String)
        requires
            self.current < self.targets.len(),
        ensures
            r == current_name(self@),
    {
        self.targets[self.current].name.clone()
    }

    fn begin_download(&mut self) -> (r: Step)
        requires
            old(self).sizes.len() == old(self).targets.len(),
        ensures
            final(self)@ == begin_download(old(self)@).state,
            r.notices@ == begin_download(old(self)@).notices,
            r.command == begin_download(old(self)@).command,
    {
        let start = Notice::Download(self.info);
        let mut notices: Vec<Notice> = Vec::new();
        notices.push(start);
        if self.targets.len() == 0 {
            let end = Notice::Downloaded(self.info);
            notices.push(end);
            self.phase = Phase::Finished;
            self.trace = Ghost(self.trace@.push(start).push(end));
            assert(notices@ =~= seq![start, end]);
            Step { notices, command: Command::Done(Ok(self.info)) }
        } else {
            self.phase = Phase::Downloading;
            self.current = 0;
            self.received = 0;
            self.trace = Ghost(self.trace@.push(start));
            assert(notices@ =~= seq![start]);
            Step { notices, command: Command::Download { index: 0, url: self.targets[0].url.clone() } }
        }
    }

    /// Takes what the driver observed and answers with the notifications to
    /// hand out and the next command.
    pub fn on_event(&mut self, event: Event) -> (r: Step)
        requires
            old(self).wf(),
            accepts(old(self)@, event),
        ensures
            final(self).wf(),
            final(self)@ == next(old(self)@, event).state,
            r.notices@ == next(old(self)@, event).notices,
            r.command == next(old(self)@, event).command,
    {
        let ghost v = self@;
        let ghost e = event;
        proof {
            lemma_next_keeps_inv(v, e);
        }
        match event {
            Event::Resolved(ts) => {
                self.phase = Phase::Probing;
                self.targets = ts;
                self.sizes = Vec::new();
                self.current = 0;
                assert(self.sizes@ =~= seq![]);
                if self.targets.len() == 0 {
                    self.begin_download()
                } else {
                    let r = Step {
                        notices: Vec::new(),
                        command: Command::Probe { index: 0, url: self.targets[0].url.clone() },
                    };
                    assert(r.notices@ =~= seq![]);
                    r
                }
            },
            Event::ResolveFailed(reason) => self.stop(SpeedTestError::Metadata(reason)),
            Event::Probed(size) => match size {
                None => {
                    let name = self.current_name();
                    self.stop(SpeedTestError::Probe(name))
                },
                Some(n) => {
                    if n > u64::MAX - self.info.total_bytes {
                        self.stop(SpeedTestError::InternalOverflow)
                    } else {
                        self.sizes.push(n);
                        self.current = self.current + 1;
                        self.info.total_bytes = self.info.total_bytes + n;
                        if self.current == self.targets.len() {
                            self.begin_download()
                        } else {
                            let r = Step {
                                notices: Vec::new(),
                                command: Command::Probe {
                                    index: self.current,
                                    url: self.targets[self.current].url.clone(),
                                },
                            };
                            assert(r.notices@ =~= seq![]);
                            r
                        }
                    }
                },
            },
            Event::ProbeFailed => {
                let name = self.current_name();
                self.stop(SpeedTestError::Probe(name))
            },
            Event::Chunk { len, elapsed } => {
                let len64 = len as u64;
                if len64 > self.sizes[self.current] - self.received {
                    let name = self.current_name();
                    self.stop(SpeedTestError::Transfer(name))
                } else {
                    self.received = self.received + len64;
                    self.info.bytes_downloaded = self.info.bytes_downloaded + len64;
                    if self.info.time_elapsed < elapsed {
                        self.info.time_elapsed = elapsed;
                    }
                    let n = Notice::Downloading(self.info);
                    self.trace = Ghost(self.trace@.push(n));
                    let mut notices: Vec<Notice> = Vec::new();
                    notices.push(n);
                    assert(notices@ =~= seq![n]);
                    Step { notices, command: Command::ReadChunk }
                }
            },
            Event::StreamEnded { elapsed } => {
                if self.received < self.sizes[self.current] {
                    let name = self.current_name();
                    self.stop(SpeedTestError::Transfer(name))
                } else {
                    if self.info.time_elapsed < elapsed {
                        self.info.time_elapsed = elapsed;
                    }
                    self.current = self.current + 1;
                    self.received = 0;
                    if self.current == self.targets.len() {
                        let end = Notice::Downloaded(self.info);
                        self.phase = Phase::Finished;
                        self.trace = Ghost(self.trace@.push(end));
                        let mut notices: Vec<Notice> = Vec::new();
                        notices.push(end);
                        assert(notices@ =~= seq![end]);
                        Step { notices, command: Command::Done(Ok(self.info)) }
                    } else {
                        let r = Step {
                            notices: Vec::new(),
                            command: Command::Download {
                                index: self.current,
                                url: self.targets[self.current].url.clone(),
                            },
                        };
                        assert(r.notices@ =~= seq![]);
                        r
                    }
                }
            },
            Event::TransferFailed => {
                let name = self.current_name();
                self.stop(SpeedTestError::Transfer(name))
            },
        }
    }
}

} // verus!
