//! The selector-process adapter.
//!
//! The adapter orchestrates one selection: it spawns the external selector
//! program with its input endpoint piped (and its output endpoint piped only
//! when capture is requested), streams every candidate line into the
//! program's input, closes the input to signal end-of-stream, and — only in
//! capture mode — reads the program's output after it exits and narrows it
//! to its first character, the Selected Value.
//!
//! The process work itself (spawning, pipe writes, waiting) cannot be done
//! here; an unverified shell performs it. The adapter is therefore a state
//! machine: [`Adapter::next_command`] says what the shell must do next, and
//! [`Adapter::step`] consumes the outcome of that action. The machine's
//! contracts pin the protocol order — all writes, then the input close, and
//! only then any read of the output — which is exactly the discipline that
//! avoids the two-way pipe deadlock with a well-behaved selector program.

use vstd::prelude::*;
use vstd::string::StrSliceExecFns;
use vstd::string::StringExecFns;
use crate::errors::PickError;

verus! {

/// How the external program's output endpoint is routed: piped back to the
/// adapter (capture mode) or inherited, so an interactive selector's UI still
/// reaches the real terminal.
#[derive(Clone, Copy, Debug, PartialEq, Eq, Structural)]
pub enum OutputRouting {
    Piped,
    Inherited,
}

/// One selection request: the command vector of the external selector
/// program (first element the executable, the rest literal arguments, no
/// shell interpretation), the candidate display lines in the order the
/// program must see them, and whether the program's output is captured.
pub struct SelectorRequest {
    pub program: Vec<String>,
    pub candidates: Vec<String>,
    pub capture: bool,
}

impl SelectorRequest {
    /// The command vector is non-empty and no candidate holds an embedded
    /// newline.
    pub open spec fn wf(self) -> bool {
        &&& self.program@.len() > 0
        &&& forall|i: int|
            0 <= i < self.candidates@.len() ==> !self.candidates@[i]@.contains('\n')
    }

    /// Decide well-formedness, so that a caller outside the library can
    /// test it before starting a selection.
    pub fn is_wf(&self) -> (b: bool)
        ensures
            b == self.wf(),
    {
        if self.program.len() == 0 {
            return false;
        }
        let mut i: usize = 0;
        while i < self.candidates.len()
            invariant
                i <= self.candidates@.len(),
                self.program@.len() > 0,
                forall|j: int| 0 <= j < i ==> !self.candidates@[j]@.contains('\n'),
            decreases self.candidates@.len() - i,
        {
            let line = &self.candidates[i];
            let m: usize = line.as_str().unicode_len();
            let mut j: usize = 0;
            while j < m
                invariant
                    j <= m,
                    m == line@.len(),
                    i < self.candidates@.len(),
                    line@ == self.candidates@[i as int]@,
                    forall|k: int| 0 <= k < j ==> line@[k] != '\n',
                decreases m - j,
            {
                if line.as_str().get_char(j) == '\n' {
                    proof {
                        assert(line@.contains('\n')) by {
                            assert(line@[j as int] == '\n');
                        }
                        assert(!self.wf()) by {
                            assert(self.candidates@[i as int]@.contains('\n'));
                        }
                    }
                    return false;
                }
                j += 1;
            }
            proof {
                assert(!line@.contains('\n'));
            }
            i += 1;
        }
        true
    }
}

/// Where one selection stands.
#[derive(Clone, Copy, Debug)]
pub enum AdapterPhase {
    /// Nothing has happened yet; the program must be spawned.
    Start,
    /// The program is running; `next` candidates have been streamed into its
    /// input so far.
    Streaming { next: usize },
    /// Every candidate was streamed and the input endpoint is closed; the
    /// captured output is awaited.
    Draining,
    /// The selection finished; in capture mode `selected` holds the Selected
    /// Value, otherwise it is `None`.
    Done { selected: Option<char> },
    /// The selection failed.
    Failed { error: PickError },
}

/// The next action the unverified shell must perform for the adapter.
pub enum AdapterCommand {
    /// Spawn the request's program, input endpoint piped, output endpoint
    /// routed as given.
    Spawn { routing: OutputRouting },
    /// Write `line` (a candidate terminated by a newline) to the program's
    /// input. A failed write is non-fatal: the program may already have
    /// stopped reading.
    WriteLine { line: String },
    /// Close the program's input endpoint to signal end-of-stream.
    CloseInput,
    /// Wait for the program to exit and read its whole captured output.
    AwaitOutput,
    /// Nothing is left to do.
    Finish,
}

/// What the shell observed while performing the last command.
pub enum AdapterEvent {
    /// The spawn attempt returned; `ok` is false when the executable could
    /// not be started.
    Spawned { ok: bool },
    /// One write attempt finished, successfully or not; either way the line
    /// is considered delivered (best effort).
    LineWritten,
    /// The input endpoint is closed.
    InputClosed,
    /// The program exited and `output` is everything it wrote to its
    /// captured output endpoint.
    OutputRead { output: String },
}

/// The Selected Value of a captured output: its first character; an empty
/// output yields `EmptySelection`.
pub open spec fn spec_selection(output: Seq<char>) -> Result<char, PickError> {
    if output.len() > 0 {
        Ok(output[0])
    } else {
        Err(PickError::EmptySelection)
    }
}

/// Narrow a captured output to the Selected Value: the output's first
/// character. An empty output is exactly the `EmptySelection` failure.
pub fn extract_selection(output: &String) -> (r: Result<char, PickError>)
    ensures
        r == spec_selection(output@),
{
    if output.as_str().unicode_len() == 0 {
        Err(PickError::EmptySelection)
    } else {
        Ok(output.as_str().get_char(0))
    }
}

/// The state machine of one selection.
pub struct Adapter {
    pub request: SelectorRequest,
    pub phase: AdapterPhase,
}

impl Adapter {
    /// The request is well formed and the streaming cursor never passes the
    /// end of the candidate list.
    pub open spec fn wf(self) -> bool {
        &&& self.request.wf()
        &&& match self.phase {
            AdapterPhase::Streaming { next } => next <= self.request.candidates@.len(),
            _ => true,
        }
    }

    /// Begin a selection for `request`.
    pub fn new(request: SelectorRequest) -> (r: Adapter)
        requires
            request.wf(),
        ensures
            r.wf(),
            r.request == request,
            r.phase is Start,
    {
        Adapter { request, phase: AdapterPhase::Start }
    }

    /// The machine has reached a final phase.
    pub open spec fn is_finished(self) -> bool {
        self.phase is Done || self.phase is Failed
    }

    /// Which events the protocol admits in the current phase: a spawn
    /// outcome at the start, one write per candidate while streaming, the
    /// input close once every candidate is out, and the captured output only
    /// after the close.
    pub open spec fn expects(self, e: AdapterEvent) -> bool {
        match (self.phase, e) {
            (AdapterPhase::Start, AdapterEvent::Spawned { .. }) => true,
            (AdapterPhase::Streaming { next }, AdapterEvent::LineWritten) => next
                < self.request.candidates@.len(),
            (AdapterPhase::Streaming { next }, AdapterEvent::InputClosed) => next
                == self.request.candidates@.len(),
            (AdapterPhase::Draining, AdapterEvent::OutputRead { .. }) => true,
            _ => false,
        }
    }

    /// The transition relation of the machine. An event the protocol does
    /// not admit leaves the machine unchanged.
    pub open spec fn spec_step(self, e: AdapterEvent) -> Adapter {
        let phase = match (self.phase, e) {
            (AdapterPhase::Start, AdapterEvent::Spawned { ok }) => if ok {
                AdapterPhase::Streaming { next: 0 }
            } else {
                AdapterPhase::Failed { error: PickError::SpawnFailed }
            },
            (AdapterPhase::Streaming { next }, AdapterEvent::LineWritten) => if next
                < self.request.candidates@.len() {
                AdapterPhase::Streaming { next: (next + 1) as usize }
            } else {
                self.phase
            },
            (AdapterPhase::Streaming { next }, AdapterEvent::InputClosed) => if next
                == self.request.candidates@.len() {
                if self.request.capture {
                    AdapterPhase::Draining
                } else {
                    AdapterPhase::Done { selected: None }
                }
            } else {
                self.phase
            },
            (AdapterPhase::Draining, AdapterEvent::OutputRead { output }) => match spec_selection(
                output@,
            ) {
                Ok(c) => AdapterPhase::Done { selected: Some(c) },
                Err(error) => AdapterPhase::Failed { error },
            },
            _ => self.phase,
        };
        Adapter { request: self.request, phase }
    }

    /// What the shell must do next. The command is a function of the phase:
    /// spawn first (output piped exactly when capture is requested), then
    /// the candidates in order, each terminated by a newline, then the input
    /// close, then — in capture mode only — the output read.
    pub fn next_command(&self) -> (r: AdapterCommand)
        requires
            self.wf(),
        ensures
            self.phase is Start ==> (r matches AdapterCommand::Spawn { routing } && (routing
                is Piped <==> self.request.capture)),
            (self.phase matches AdapterPhase::Streaming { next } && next
                < self.request.candidates@.len()) ==> (r matches AdapterCommand::WriteLine { line }
                && line@ == self.request.candidates@[self.phase->Streaming_next as int]@.push('\n')),
            (self.phase matches AdapterPhase::Streaming { next } && next
                == self.request.candidates@.len()) ==> r is CloseInput,
            self.phase is Draining ==> r is AwaitOutput,
            self.is_finished() ==> r is Finish,
    {
        match self.phase {
            AdapterPhase::Start => {
                let routing = if self.request.capture {
                    OutputRouting::Piped
                } else {
                    OutputRouting::Inherited
                };
                AdapterCommand::Spawn { routing }
            },
            AdapterPhase::Streaming { next } => {
                if next < self.request.candidates.len() {
                    let mut line = self.request.candidates[next].clone();
                    line.append("\n");
                    proof {
                        reveal_strlit("\n");
                        assert(line@ =~= self.request.candidates@[next as int]@.push('\n'));
                    }
                    AdapterCommand::WriteLine { line }
                } else {
                    AdapterCommand::CloseInput
                }
            },
            AdapterPhase::Draining => AdapterCommand::AwaitOutput,
            AdapterPhase::Done { .. } => AdapterCommand::Finish,
            AdapterPhase::Failed { .. } => AdapterCommand::Finish,
        }
    }

    /// Consume the outcome of the last command and advance the machine.
    pub fn step(&mut self, e: AdapterEvent)
        requires
            old(self).wf(),
            old(self).expects(e),
        ensures
            final(self).wf(),
            *final(self) == old(self).spec_step(e),
    {
        match (self.phase, e) {
            (AdapterPhase::Start, AdapterEvent::Spawned { ok }) => {
                if ok {
                    self.phase = AdapterPhase::Streaming { next: 0 };
                } else {
                    self.phase = AdapterPhase::Failed { error: PickError::SpawnFailed };
                }
            },
            (AdapterPhase::Streaming { next }, AdapterEvent::LineWritten) => {
                proof {
                    assert(self.request.candidates.len() == self.request.candidates@.len());
                }
                self.phase = AdapterPhase::Streaming { next: next + 1 };
            },
            (AdapterPhase::Streaming { .. }, AdapterEvent::InputClosed) => {
                if self.request.capture {
                    self.phase = AdapterPhase::Draining;
                } else {
                    self.phase = AdapterPhase::Done { selected: None };
                }
            },
            (AdapterPhase::Draining, AdapterEvent::OutputRead { output }) => {
                self.phase = match extract_selection(&output) {
                    Ok(c) => AdapterPhase::Done { selected: Some(c) },
                    Err(error) => AdapterPhase::Failed { error },
                };
            },
            _ => {
            },
        }
    }

    /// The result of a finished selection: the Selected Value (absent when
    /// capture was off), or the failure.
    pub fn outcome(&self) -> (r: Result<Option<char>, PickError>)
        requires
            self.is_finished(),
        ensures
            (self.phase matches AdapterPhase::Done { selected } ==> r == Result::<
                Option<char>,
                PickError,
            >::Ok(selected)),
            (self.phase matches AdapterPhase::Failed { error } ==> r == Result::<
                Option<char>,
                PickError,
            >::Err(error)),
    {
        match self.phase {
            AdapterPhase::Done { selected } => Ok(selected),
            AdapterPhase::Failed { error } => Err(error),
            _ => Err(PickError::SpawnFailed),
        }
    }
}

/// The machine after a whole sequence of events, first event first.
pub open spec fn run_steps(a: Adapter, events: Seq<AdapterEvent>) -> Adapter
    decreases events.len(),
{
    if events.len() == 0 {
        a
    } else {
        run_steps(a.spec_step(events[0]), events.drop_first())
    }
}

/// Running a single event is one transition.
pub proof fn lemma_run_one(a: Adapter, e: AdapterEvent)
    ensures
        run_steps(a, seq![e]) == a.spec_step(e),
{
    assert(seq![e][0] == e);
    assert(seq![e].drop_first() =~= Seq::<AdapterEvent>::empty());
    assert(run_steps(a.spec_step(e), Seq::<AdapterEvent>::empty()) == a.spec_step(e));
}

/// Running a concatenation of event sequences is running one after the
/// other.
pub proof fn lemma_run_steps_app(a: Adapter, s1: Seq<AdapterEvent>, s2: Seq<AdapterEvent>)
    ensures
        run_steps(a, s1 + s2) == run_steps(run_steps(a, s1), s2),
    decreases s1.len(),
{
    if s1.len() == 0 {
        assert(s1 + s2 =~= s2);
    } else {
        assert((s1 + s2).drop_first() =~= s1.drop_first() + s2);
        assert((s1 + s2)[0] == s1[0]);
        lemma_run_steps_app(a.spec_step(s1[0]), s1.drop_first(), s2);
    }
}

/// While streaming, `k` write events advance the cursor by `k`: the machine
/// that still owed `k` candidates has afterwards streamed them all.
pub proof fn lemma_streaming_run(a: Adapter, k: nat)
    requires
        a.phase matches AdapterPhase::Streaming { next } && next + k
            == a.request.candidates@.len(),
    ensures
        run_steps(a, Seq::new(k, |i: int| AdapterEvent::LineWritten)) == (Adapter {
            request: a.request,
            phase: AdapterPhase::Streaming {
                next: a.request.candidates@.len() as usize,
            },
        }),
    decreases k,
{
    let events = Seq::new(k, |i: int| AdapterEvent::LineWritten);
    assert(a.request.candidates.len() == a.request.candidates@.len());
    if k == 0 {
        assert(a.phase == AdapterPhase::Streaming {
            next: a.request.candidates@.len() as usize,
        });
    } else {
        let a2 = a.spec_step(AdapterEvent::LineWritten);
        assert(events[0] == AdapterEvent::LineWritten);
        assert(events.drop_first() =~= Seq::new((k - 1) as nat, |i: int| AdapterEvent::LineWritten));
        lemma_streaming_run(a2, (k - 1) as nat);
    }
}

/// The event sequence of a complete, successful protocol run in capture
/// mode: the spawn succeeds, one write per candidate, the input close, and
/// the captured output.
pub open spec fn capture_run_events(n: nat, output: String) -> Seq<AdapterEvent> {
    seq![AdapterEvent::Spawned { ok: true }] + Seq::new(n, |i: int| AdapterEvent::LineWritten)
        + seq![AdapterEvent::InputClosed, AdapterEvent::OutputRead { output }]
}

/// The event sequence of a complete protocol run without capture: the spawn
/// succeeds, one write per candidate, the input close; no output is read.
pub open spec fn no_capture_run_events(n: nat) -> Seq<AdapterEvent> {
    seq![AdapterEvent::Spawned { ok: true }] + Seq::new(n, |i: int| AdapterEvent::LineWritten)
        + seq![AdapterEvent::InputClosed]
}

/// A complete capture run from the start phase ends with the machine still
/// carrying its request, and in the phase that `spec_selection` of the
/// captured output dictates.
pub proof fn lemma_capture_run(req: SelectorRequest, out: String)
    requires
        req.wf(),
        req.capture,
    ensures
        ({
            let fin = run_steps(
                Adapter { request: req, phase: AdapterPhase::Start },
                capture_run_events(req.candidates@.len(), out),
            );
            &&& fin.request == req
            &&& fin.phase == (match spec_selection(out@) {
                Ok(c) => AdapterPhase::Done { selected: Some(c) },
                Err(error) => AdapterPhase::Failed { error },
            })
        }),
{
    let a0 = Adapter { request: req, phase: AdapterPhase::Start };
    let n = req.candidates@.len();
    assert(req.candidates.len() == req.candidates@.len());
    let spawn = seq![AdapterEvent::Spawned { ok: true }];
    let writes = Seq::new(n, |i: int| AdapterEvent::LineWritten);
    let tail = seq![AdapterEvent::InputClosed, AdapterEvent::OutputRead { output: out }];
    lemma_run_steps_app(a0, spawn, writes + tail);
    assert(spawn + (writes + tail) =~= capture_run_events(n, out));
    lemma_run_one(a0, AdapterEvent::Spawned { ok: true });
    let a1 = run_steps(a0, spawn);
    assert(a1.phase == AdapterPhase::Streaming { next: 0 });
    lemma_run_steps_app(a1, writes, tail);
    lemma_streaming_run(a1, n);
    let a2 = run_steps(a1, writes);
    let a3 = a2.spec_step(AdapterEvent::InputClosed);
    assert(a3.phase is Draining);
    assert(tail =~= seq![AdapterEvent::InputClosed] + seq![
        AdapterEvent::OutputRead { output: out },
    ]);
    lemma_run_steps_app(
        a2,
        seq![AdapterEvent::InputClosed],
        seq![AdapterEvent::OutputRead { output: out }],
    );
    lemma_run_one(a2, AdapterEvent::InputClosed);
    lemma_run_one(a3, AdapterEvent::OutputRead { output: out });
}

/// With any selector program that echoes its first input line unmodified,
/// the Selected Value of a non-empty candidate stream is the first character
/// of the first candidate line. (`out`, what the program echoed, is the
/// first candidate line including its terminating newline.)
pub proof fn lemma_first_line_echo_selects_first_char(req: SelectorRequest, out: String)
    requires
        req.wf(),
        req.capture,
        req.candidates@.len() > 0,
        req.candidates@[0]@.len() > 0,
        out@ == req.candidates@[0]@.push('\n'),
    ensures
        run_steps(
            Adapter { request: req, phase: AdapterPhase::Start },
            capture_run_events(req.candidates@.len(), out),
        ).phase == (AdapterPhase::Done { selected: Some(req.candidates@[0]@[0]) }),
{
    lemma_capture_run(req, out);
    assert(out@[0] == req.candidates@[0]@[0]);
}

/// For an empty candidate stream in capture mode, with a program that
/// produces no output on empty input, the run fails with `EmptySelection`.
pub proof fn lemma_empty_stream_fails(req: SelectorRequest, out: String)
    requires
        req.wf(),
        req.capture,
        req.candidates@.len() == 0,
        out@.len() == 0,
    ensures
        run_steps(
            Adapter { request: req, phase: AdapterPhase::Start },
            capture_run_events(req.candidates@.len(), out),
        ).phase == (AdapterPhase::Failed { error: PickError::EmptySelection }),
{
    lemma_capture_run(req, out);
}

/// Without capture, a complete run ends with no Selected Value, whatever the
/// program wrote to its inherited output: the value is never fabricated.
pub proof fn lemma_no_capture_no_value(req: SelectorRequest)
    requires
        req.wf(),
        !req.capture,
    ensures
        run_steps(
            Adapter { request: req, phase: AdapterPhase::Start },
            no_capture_run_events(req.candidates@.len()),
        ).phase == (AdapterPhase::Done { selected: None }),
{
    let a0 = Adapter { request: req, phase: AdapterPhase::Start };
    let n = req.candidates@.len();
    assert(req.candidates.len() == req.candidates@.len());
    let spawn = seq![AdapterEvent::Spawned { ok: true }];
    let writes = Seq::new(n, |i: int| AdapterEvent::LineWritten);
    let tail = seq![AdapterEvent::InputClosed];
    lemma_run_steps_app(a0, spawn, writes + tail);
    assert(spawn + (writes + tail) =~= no_capture_run_events(n));
    lemma_run_one(a0, AdapterEvent::Spawned { ok: true });
    let a1 = run_steps(a0, spawn);
    assert(a1.phase == AdapterPhase::Streaming { next: 0 });
    lemma_run_steps_app(a1, writes, tail);
    lemma_streaming_run(a1, n);
    let a2 = run_steps(a1, writes);
    lemma_run_one(a2, AdapterEvent::InputClosed);
}

/// The adapter is deterministic: the outcome is a function of the request
/// and of the external program's observable behaviour (the event sequence)
/// alone, so two invocations with the same candidate stream and the same
/// deterministic program select the same value.
pub proof fn lemma_adapter_deterministic(a1: Adapter, a2: Adapter, events: Seq<AdapterEvent>)
    requires
        a1 == a2,
    ensures
        run_steps(a1, events) == run_steps(a2, events),
{
}

} // verus!
