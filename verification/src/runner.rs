//! The remote command runner, modeled on what the caller's polling loop
//! observes: chunks of output, end-of-output, and interrupts. The
//! `CommandRun` machine consumes one observation at a time and tells the
//! caller what to do next; `execute_trace` is the whole runner as a function
//! of the full observation trace plus the exit status read at the end.

use vstd::prelude::*;
use crate::errors::DeployError;

verus! {

/// How a command's output is handled.
#[derive(Clone, Copy, PartialEq, Eq, Structural, Debug)]
pub enum OutputMode {
    /// Capture standard output and standard error fully in memory and hand
    /// them back once the remote process exits; nothing is displayed live.
    Buffered,
    /// Write output to the local terminal as it arrives, standard output
    /// and standard error merged into one stream; watch for an interrupt
    /// between reads.
    Streaming,
}

/// One observation the caller's polling loop makes on the open channel.
pub enum PollEvent {
    /// A chunk of output arrived: standard output in buffered mode, the
    /// merged stream in streaming mode.
    Data(Vec<u8>),
    /// A chunk of standard error arrived (buffered mode only).
    ErrData(Vec<u8>),
    /// The remote side signalled end-of-output.
    Eof,
    /// An interrupt arrived since the last poll (streaming mode only; in
    /// buffered mode nothing watches for interrupts).
    Interrupted,
}

/// What the caller must do right after handing an observation in.
pub enum PollAction {
    /// Keep polling.
    Continue,
    /// Write these bytes to the local terminal now, then keep polling.
    Display(Vec<u8>),
    /// Send end-of-input to the remote channel, close it, and stop polling.
    /// The remote process may keep running undetected by this tool; that is
    /// a known limitation, not a promise of remote termination.
    CloseChannel,
    /// End-of-output: stop polling and wait for the remote close.
    StopPolling,
}

/// What a successfully finished command hands back.
pub struct CommandOutput {
    /// The captured standard output: exactly the chunks that arrived, in
    /// order, when the command ran buffered; empty after streaming, whose
    /// output already went to the terminal.
    pub stdout: Vec<u8>,
    /// The captured standard error, on the same terms as `stdout`.
    pub stderr: Vec<u8>,
    /// Whether an interrupt closed the channel before natural end-of-output.
    pub cancelled: bool,
}

/// The state of one remote command execution between polls.
pub struct CommandRun {
    /// The command line handed to the remote shell.
    pub command: String,
    /// How output is handled.
    pub mode: OutputMode,
    /// Captured standard output (buffered mode; stays empty when streaming).
    pub stdout: Vec<u8>,
    /// Captured standard error (buffered mode; stays empty when streaming).
    pub stderr: Vec<u8>,
    /// An interrupt ended the polling early.
    pub cancelled: bool,
    /// Polling is over: end-of-output was seen, or an interrupt closed the
    /// channel.
    pub polling_done: bool,
}

impl CommandRun {
    /// Streaming captures nothing, and a cancellation both ends the polling
    /// and can only happen in streaming mode.
    pub open spec fn wf(self) -> bool {
        &&& (self.mode is Streaming ==> self.stdout@ == Seq::<u8>::empty() && self.stderr@
            == Seq::<u8>::empty())
        &&& (self.cancelled ==> self.polling_done && self.mode is Streaming)
    }

    /// A fresh run of `command`, before the first poll.
    pub fn new(command: String, mode: OutputMode) -> (r: CommandRun)
        ensures
            r.command == command,
            r.mode == mode,
            r.stdout@ == Seq::<u8>::empty(),
            r.stderr@ == Seq::<u8>::empty(),
            !r.cancelled,
            !r.polling_done,
            r.wf(),
    {
        CommandRun {
            command,
            mode,
            stdout: Vec::new(),
            stderr: Vec::new(),
            cancelled: false,
            polling_done: false,
        }
    }

    /// Consumes one observation. Output is appended to the capture when
    /// buffered and handed back for display when streaming; end-of-output
    /// ends the polling; an interrupt — the first one wins — marks the run
    /// cancelled and tells the caller to send end-of-input and close the
    /// channel without waiting for the command to complete.
    pub fn on_event(&mut self, ev: PollEvent) -> (a: PollAction)
        requires
            old(self).wf(),
            !old(self).polling_done,
            ev is ErrData ==> old(self).mode is Buffered,
            ev is Interrupted ==> old(self).mode is Streaming,
        ensures
            final(self).wf(),
            final(self).command == old(self).command,
            final(self).mode == old(self).mode,
            match ev {
                PollEvent::Data(b) => {
                    &&& !final(self).polling_done
                    &&& !final(self).cancelled
                    &&& final(self).stderr == old(self).stderr
                    &&& (old(self).mode is Buffered ==> final(self).stdout@ == old(self).stdout@
                        + b@ && a is Continue)
                    &&& (old(self).mode is Streaming ==> final(self).stdout == old(self).stdout
                        && (a matches PollAction::Display(shown) && shown@ == b@))
                },
                PollEvent::ErrData(b) => {
                    &&& !final(self).polling_done
                    &&& !final(self).cancelled
                    &&& final(self).stdout == old(self).stdout
                    &&& final(self).stderr@ == old(self).stderr@ + b@
                    &&& a is Continue
                },
                PollEvent::Eof => {
                    &&& final(self).polling_done
                    &&& !final(self).cancelled
                    &&& final(self).stdout == old(self).stdout
                    &&& final(self).stderr == old(self).stderr
                    &&& a is StopPolling
                },
                PollEvent::Interrupted => {
                    &&& final(self).polling_done
                    &&& final(self).cancelled
                    &&& final(self).stdout == old(self).stdout
                    &&& final(self).stderr == old(self).stderr
                    &&& a is CloseChannel
                },
            },
    {
        match ev {
            PollEvent::Data(b) => {
                match self.mode {
                    OutputMode::Buffered => {
                        let mut chunk = b;
                        self.stdout.append(&mut chunk);
                        PollAction::Continue
                    },
                    OutputMode::Streaming => PollAction::Display(b),
                }
            },
            PollEvent::ErrData(b) => {
                let mut chunk = b;
                self.stderr.append(&mut chunk);
                PollAction::Continue
            },
            PollEvent::Eof => {
                self.polling_done = true;
                PollAction::StopPolling
            },
            PollEvent::Interrupted => {
                self.cancelled = true;
                self.polling_done = true;
                PollAction::CloseChannel
            },
        }
    }

    /// The outcome of the command once the remote side has fully closed and
    /// reported its exit status. Exit status zero succeeds and hands back
    /// what buffered mode captured; any other status is a `Command` error
    /// carrying the command text, the remote exit code unchanged, and — in buffered
    /// mode — the captured standard error.
    pub fn finish(self, exit_code: i32) -> (r: Result<CommandOutput, DeployError>)
        requires
            self.wf(),
            self.polling_done,
        ensures
            exit_code == 0 <==> r is Ok,
            match r {
                Ok(out) => {
                    &&& out.stdout == self.stdout
                    &&& out.stderr == self.stderr
                    &&& out.cancelled == self.cancelled
                },
                Err(e) => {
                    &&& e matches DeployError::Command {
                        command: ecmd,
                        exit_code: ecode,
                        stderr: ecaptured,
                    }
                    &&& ecmd@ == self.command@
                    &&& ecode == exit_code
                    &&& (match ecaptured {
                        Some(bytes) => self.mode is Buffered && bytes@ == self.stderr@,
                        None => self.mode is Streaming,
                    })
                },
            },
    {
        if exit_code == 0 {
            Ok(CommandOutput { stdout: self.stdout, stderr: self.stderr, cancelled: self.cancelled })
        } else {
            let stderr = match self.mode {
                OutputMode::Buffered => Some(self.stderr),
                OutputMode::Streaming => None,
            };
            Err(DeployError::Command { command: self.command, exit_code, stderr })
        }
    }
}

/// An observation that ends the polling loop.
pub open spec fn is_terminal(ev: PollEvent) -> bool {
    ev is Eof || ev is Interrupted
}

/// A well-formed observation trace: at least one observation, exactly the
/// last one terminal — end-of-output, or an interrupt when streaming —
/// standard error only in buffered mode, interrupts only in streaming mode.
pub open spec fn trace_wf(evs: Seq<PollEvent>, mode: OutputMode) -> bool {
    &&& evs.len() > 0
    &&& is_terminal(evs.last())
    &&& forall|i: int| 0 <= i < evs.len() - 1 ==> !is_terminal(#[trigger] evs[i])
    &&& forall|i: int|
        0 <= i < evs.len() ==> ((#[trigger] evs[i]) is ErrData ==> mode is Buffered)
    &&& forall|i: int|
        0 <= i < evs.len() ==> ((#[trigger] evs[i]) is Interrupted ==> mode is Streaming)
}

/// The standard-output bytes of a trace, in arrival order.
pub open spec fn trace_stdout(evs: Seq<PollEvent>) -> Seq<u8>
    decreases evs.len(),
{
    if evs.len() == 0 {
        Seq::empty()
    } else {
        trace_stdout(evs.drop_last()) + (match evs.last() {
            PollEvent::Data(b) => b@,
            _ => Seq::<u8>::empty(),
        })
    }
}

/// The standard-error bytes of a trace, in arrival order.
pub open spec fn trace_stderr(evs: Seq<PollEvent>) -> Seq<u8>
    decreases evs.len(),
{
    if evs.len() == 0 {
        Seq::empty()
    } else {
        trace_stderr(evs.drop_last()) + (match evs.last() {
            PollEvent::ErrData(b) => b@,
            _ => Seq::<u8>::empty(),
        })
    }
}

/// Whether the trace ended in an interrupt rather than natural end-of-output.
pub open spec fn trace_cancelled(evs: Seq<PollEvent>) -> bool {
    evs.len() > 0 && evs.last() is Interrupted
}

/// A cancellation ends the run at once: in a well-formed trace an
/// interrupt, wherever it occurs, is the last observation — nothing is read
/// after it and natural end-of-output is not waited for — the run it ends
/// is marked cancelled, and such a trace only arises in streaming mode.
pub proof fn lemma_interrupt_ends_trace(evs: Seq<PollEvent>, mode: OutputMode, i: int)
    requires
        trace_wf(evs, mode),
        0 <= i < evs.len(),
        evs[i] is Interrupted,
    ensures
        i == evs.len() - 1,
        trace_cancelled(evs),
        mode is Streaming,
{
}

/// A byte-for-byte copy of `v`.
fn clone_bytes(v: &Vec<u8>) -> (r: Vec<u8>)
    ensures
        r@ == v@,
{
    let mut r: Vec<u8> = Vec::new();
    let mut i: usize = 0;
    while i < v.len()
        invariant
            i <= v@.len(),
            r@ == v@.subrange(0, i as int),
        decreases v@.len() - i,
    {
        r.push(v[i]);
        i = i + 1;
        proof {
            assert(r@ =~= v@.subrange(0, i as int));
        }
    }
    proof {
        assert(v@.subrange(0, v@.len() as int) =~= v@);
    }
    r
}

/// Executes one remote command, given everything the channel delivered: the
/// observations in arrival order and the exit status read after the close.
/// Buffered mode returns the captured standard output exactly as it
/// arrived; streaming mode returns nothing, its output already displayed. A
/// nonzero exit status becomes a `Command` error carrying that very code.
pub fn execute_trace(command: String, mode: OutputMode, events: Vec<PollEvent>, exit_code: i32) -> (r:
    Result<CommandOutput, DeployError>)
    requires
        trace_wf(events@, mode),
    ensures
        exit_code == 0 <==> r is Ok,
        match r {
            Ok(out) => {
                &&& (mode is Buffered ==> out.stdout@ == trace_stdout(events@) && out.stderr@
                    == trace_stderr(events@))
                &&& (mode is Streaming ==> out.stdout@ == Seq::<u8>::empty() && out.stderr@
                    == Seq::<u8>::empty())
                &&& out.cancelled == trace_cancelled(events@)
            },
            Err(e) => {
                &&& e matches DeployError::Command {
                    command: ecmd,
                    exit_code: ecode,
                    stderr: ecaptured,
                }
                &&& ecmd@ == command@
                &&& ecode == exit_code
                &&& (match ecaptured {
                    Some(bytes) => mode is Buffered && bytes@ == trace_stderr(events@),
                    None => mode is Streaming,
                })
            },
        },
{
    let mut run = CommandRun::new(command, mode);
    let n = events.len();
    let mut i: usize = 0;
    while i < n
        invariant
            trace_wf(events@, mode),
            n == events@.len(),
            i <= n,
            run.wf(),
            run.command == command,
            run.mode == mode,
            i < n ==> !run.polling_done,
            i == n ==> run.polling_done,
            mode is Buffered ==> run.stdout@ == trace_stdout(events@.subrange(0, i as int)),
            mode is Buffered ==> run.stderr@ == trace_stderr(events@.subrange(0, i as int)),
            run.cancelled == (i == n && trace_cancelled(events@)),
        decreases n - i,
    {
        let ghost pre = events@.subrange(0, i as int);
        let ghost post = events@.subrange(0, i + 1 as int);
        proof {
            assert(post.drop_last() =~= pre);
            assert(post.last() == events@[i as int]);
        }
        match &events[i] {
            PollEvent::Data(b) => {
                run.on_event(PollEvent::Data(clone_bytes(b)));
            },
            PollEvent::ErrData(b) => {
                run.on_event(PollEvent::ErrData(clone_bytes(b)));
            },
            PollEvent::Eof => {
                run.on_event(PollEvent::Eof);
            },
            PollEvent::Interrupted => {
                run.on_event(PollEvent::Interrupted);
            },
        }
        i = i + 1;
    }
    proof {
        assert(events@.subrange(0, n as int) =~= events@);
    }
    run.finish(exit_code)
}

} // verus!
