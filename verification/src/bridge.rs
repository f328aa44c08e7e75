//! The process bridge: sole owner of the consumer end of the delivery
//! channel that a reader thread fills with the child's output lines, and of
//! the bridge's place in the child's lifecycle.
//!
//! The channel is a `std::sync::mpsc` one; pulling a line off it is the only
//! operation taken on trust here. Every line consumed is recorded, in the
//! order received, in a ghost history that the contracts speak of.

use vstd::prelude::*;
use crate::errors::WrapperError;
use crate::protocol::framed_command;
use crate::protocol::frame_command;
use crate::protocol::has_player_list_shape;
use crate::protocol::is_ready_line;
use crate::protocol::line_is_ready;
use crate::protocol::parse_players;
use crate::protocol::parse_player_list;

verus! {

/// Where the bridge stands in the child's lifecycle.
#[derive(Debug, Clone, Copy, PartialEq, Eq, Structural)]
pub enum BridgeState {
    /// The child is spinning up; the readiness marker has not been seen.
    Starting,
    /// The readiness marker has been seen; commands may be issued.
    Ready,
    /// The stop command has been issued; the child has not exited yet.
    Stopping,
    /// The child's exit has been observed and recorded.
    Stopped,
    /// The delivery channel's producer disappeared unexpectedly.
    Dead,
}

/// What one blocking receive from the delivery channel produced.
enum RecvOutcome {
    Line(String),
    Closed,
}

/// What one non-blocking poll of the delivery channel produced.
enum PollOutcome {
    Line(String),
    Empty,
    Closed,
}

#[verifier::external_type_specification]
#[verifier::external_body]
#[verifier::reject_recursive_types(T)]
pub struct ExReceiver<T>(std::sync::mpsc::Receiver<T>);

/// Relies on `std::sync::mpsc::Receiver::recv`: blocks until a message is
/// available and yields queued messages in the order they were sent, or
/// reports the channel closed once every sender is dropped and the queue is
/// empty; it never panics. Which of the two comes back depends on the
/// producer thread, so nothing is promised of the outcome.
#[verifier::external_body]
fn recv_line(rx: &std::sync::mpsc::Receiver<String>) -> (r: RecvOutcome) {
    match rx.recv() {
        Ok(line) => RecvOutcome::Line(line),
        Err(_) => RecvOutcome::Closed,
    }
}

/// Relies on `std::sync::mpsc::Receiver::try_recv`: yields a queued message
/// in the order sent, or reports the channel empty or closed, without ever
/// blocking and without panicking. The outcome depends on the producer
/// thread, so nothing is promised of it.
#[verifier::external_body]
fn try_recv_line(rx: &std::sync::mpsc::Receiver<String>) -> (r: PollOutcome) {
    match rx.try_recv() {
        Ok(line) => PollOutcome::Line(line),
        Err(std::sync::mpsc::TryRecvError::Empty) => PollOutcome::Empty,
        Err(std::sync::mpsc::TryRecvError::Disconnected) => PollOutcome::Closed,
    }
}

/// The bridge between callers and the supervised child process. It owns the
/// consumer end of the delivery channel; the caller owns the child's process
/// handle and input stream, writes out the command lines this bridge
/// prepares, and reports the exits it observes.
///
/// Every operation takes `&mut self`, so two operations on one bridge can
/// never interleave: one call's receive cannot consume the line another
/// call is waiting for. Callers on several threads put the bridge behind a
/// single lock and hold it for a whole operation.
pub struct Wrapper {
    stdout: std::sync::mpsc::Receiver<String>,
    state: BridgeState,
    server_jar_path: String,
    history: Ghost<Seq<Seq<char>>>,
}

impl Wrapper {
    /// Where the bridge stands in the child's lifecycle.
    pub closed spec fn bridge_state(&self) -> BridgeState {
        self.state
    }

    /// Every line pulled off the delivery channel so far, oldest first.
    pub closed spec fn consumed(&self) -> Seq<Seq<char>> {
        self.history@
    }

    /// The path of the jar the child was launched from.
    pub closed spec fn jar_path(&self) -> Seq<char> {
        self.server_jar_path@
    }

    /// A bridge for a freshly spawned child, holding the consumer end of its
    /// delivery channel; the child has yet to announce readiness.
    pub fn new(stdout: std::sync::mpsc::Receiver<String>, server_jar_path: &str) -> (w: Wrapper)
        ensures
            w.bridge_state() == BridgeState::Starting,
            w.consumed() == Seq::<Seq<char>>::empty(),
            w.jar_path() == server_jar_path@,
    {
        Wrapper {
            stdout,
            state: BridgeState::Starting,
            server_jar_path: String::from_str(server_jar_path),
            history: Ghost(Seq::empty()),
        }
    }

    /// Consumes and discards lines from the delivery channel until one
    /// carries the readiness marker. Returns `Ok(true)` once a marker line
    /// arrives (the bridge is then ready), `Ok(false)` if `max_lines` lines
    /// arrived and none carried the marker, and the broken-pipe error if the
    /// channel closed first. No timeout is enforced: an unresponsive child
    /// that stays silent blocks this call.
    pub fn wait_for_server_to_spin_up(&mut self, max_lines: u64) -> (r: Result<
        bool,
        WrapperError,
    >)
        ensures
            final(self).jar_path() == old(self).jar_path(),
            final(self).consumed().take(old(self).consumed().len() as int) == old(self).consumed(),
            forall|i: int|
                old(self).consumed().len() <= i < final(self).consumed().len() - 1
                    ==> !is_ready_line(#[trigger] final(self).consumed()[i]),
            r matches Ok(true) ==> {
                &&& final(self).bridge_state() == BridgeState::Ready
                &&& final(self).consumed().len() > old(self).consumed().len()
                &&& is_ready_line(final(self).consumed().last())
            },
            r matches Ok(false) ==> {
                &&& final(self).bridge_state() == old(self).bridge_state()
                &&& final(self).consumed().len() == old(self).consumed().len() + max_lines
                &&& forall|i: int|
                    old(self).consumed().len() <= i < final(self).consumed().len()
                        ==> !is_ready_line(#[trigger] final(self).consumed()[i])
            },
            r matches Err(e) ==> {
                &&& e == WrapperError::BrokenPipe
                &&& final(self).bridge_state() == BridgeState::Dead
                &&& forall|i: int|
                    old(self).consumed().len() <= i < final(self).consumed().len()
                        ==> !is_ready_line(#[trigger] final(self).consumed()[i])
            },
    {
        let ghost pre = *self;
        let mut remaining: u64 = max_lines;
        proof {
            assert(self.consumed().take(pre.consumed().len() as int) =~= pre.consumed());
        }
        while remaining > 0
            invariant
                pre == *old(self),
                remaining <= max_lines,
                self.jar_path() == pre.jar_path(),
                self.bridge_state() == pre.bridge_state(),
                self.consumed().take(pre.consumed().len() as int) == pre.consumed(),
                self.consumed().len() == pre.consumed().len() + (max_lines - remaining),
                forall|i: int|
                    pre.consumed().len() <= i < self.consumed().len() ==> !is_ready_line(
                        #[trigger] self.consumed()[i],
                    ),
            decreases remaining,
        {
            match recv_line(&self.stdout) {
                RecvOutcome::Line(l) => {
                    let ready = line_is_ready(l.as_str());
                    self.history = Ghost(self.history@.push(l@));
                    proof {
                        assert(self.consumed().take(pre.consumed().len() as int)
                            =~= pre.consumed());
                    }
                    if ready {
                        self.state = BridgeState::Ready;
                        return Ok(true);
                    }
                },
                RecvOutcome::Closed => {
                    self.state = BridgeState::Dead;
                    return Err(WrapperError::BrokenPipe);
                },
            }
            remaining = remaining - 1;
        }
        Ok(false)
    }

    /// Discards the lines queued on the delivery channel, stopping at the
    /// first empty-queue observation, without ever blocking. At most
    /// `drain_budget` lines are discarded, so the call terminates even
    /// against a child that keeps writing.
    fn drain_queued(&mut self, drain_budget: u64) -> (r: Result<(), WrapperError>)
        ensures
            final(self).jar_path() == old(self).jar_path(),
            final(self).consumed().len() >= old(self).consumed().len(),
            final(self).consumed().take(old(self).consumed().len() as int) == old(self).consumed(),
            r matches Ok(()) ==> final(self).bridge_state() == old(self).bridge_state(),
            r matches Err(e) ==> {
                &&& e == WrapperError::BrokenPipe
                &&& final(self).bridge_state() == BridgeState::Dead
            },
    {
        let ghost pre = *self;
        let mut remaining: u64 = drain_budget;
        proof {
            assert(self.consumed().take(pre.consumed().len() as int) =~= pre.consumed());
        }
        while remaining > 0
            invariant
                pre == *old(self),
                self.jar_path() == pre.jar_path(),
                self.bridge_state() == pre.bridge_state(),
                self.consumed().len() >= pre.consumed().len(),
                self.consumed().take(pre.consumed().len() as int) == pre.consumed(),
            decreases remaining,
        {
            match try_recv_line(&self.stdout) {
                PollOutcome::Line(l) => {
                    self.history = Ghost(self.history@.push(l@));
                    proof {
                        assert(self.consumed().take(pre.consumed().len() as int)
                            =~= pre.consumed());
                    }
                },
                PollOutcome::Empty => {
                    return Ok(());
                },
                PollOutcome::Closed => {
                    self.state = BridgeState::Dead;
                    return Err(WrapperError::BrokenPipe);
                },
            }
            remaining = remaining - 1;
        }
        Ok(())
    }

    /// Prepares `cmd` for the child: drains and discards any lines already
    /// queued on the delivery channel (stdout chatter the child wrote on its
    /// own; at most `drain_budget` of them; never blocking), and returns the
    /// command framed with its terminating newline, for the caller to write
    /// to the child's input stream. No response is awaited or interpreted.
    pub fn run_custom_command(&mut self, cmd: &str, drain_budget: u64) -> (r: Result<
        String,
        WrapperError,
    >)
        ensures
            final(self).jar_path() == old(self).jar_path(),
            final(self).consumed().len() >= old(self).consumed().len(),
            final(self).consumed().take(old(self).consumed().len() as int) == old(self).consumed(),
            r matches Ok(framed) ==> {
                &&& framed@ == framed_command(cmd@)
                &&& final(self).bridge_state() == old(self).bridge_state()
            },
            r matches Err(e) ==> {
                &&& e == WrapperError::BrokenPipe
                &&& final(self).bridge_state() == BridgeState::Dead
            },
    {
        match self.drain_queued(drain_budget) {
            Ok(()) => Ok(frame_command(cmd)),
            Err(e) => Err(e),
        }
    }

    /// Prepares the fixed stop command: drains queued chatter, moves the
    /// bridge to Stopping, and returns the framed command for the caller to
    /// write; the caller then waits on the child's exit and reports it
    /// through `record_exit`.
    pub fn begin_stop(&mut self, drain_budget: u64) -> (r: Result<String, WrapperError>)
        ensures
            final(self).jar_path() == old(self).jar_path(),
            final(self).consumed().len() >= old(self).consumed().len(),
            final(self).consumed().take(old(self).consumed().len() as int) == old(self).consumed(),
            r matches Ok(framed) ==> {
                &&& framed@ == framed_command("/stop"@)
                &&& final(self).bridge_state() == BridgeState::Stopping
            },
            r matches Err(e) ==> {
                &&& e == WrapperError::BrokenPipe
                &&& final(self).bridge_state() == BridgeState::Dead
            },
    {
        match self.run_custom_command("/stop", drain_budget) {
            Ok(framed) => {
                self.state = BridgeState::Stopping;
                Ok(framed)
            },
            Err(e) => Err(e),
        }
    }

    /// Prepares the fixed player-list query: drains queued chatter and
    /// returns the framed query for the caller to write; the response line
    /// is then read through `receive_player_list`.
    pub fn begin_list_players(&mut self, drain_budget: u64) -> (r: Result<String, WrapperError>)
        ensures
            final(self).jar_path() == old(self).jar_path(),
            final(self).consumed().len() >= old(self).consumed().len(),
            final(self).consumed().take(old(self).consumed().len() as int) == old(self).consumed(),
            r matches Ok(framed) ==> {
                &&& framed@ == framed_command("/list"@)
                &&& final(self).bridge_state() == old(self).bridge_state()
            },
            r matches Err(e) ==> {
                &&& e == WrapperError::BrokenPipe
                &&& final(self).bridge_state() == BridgeState::Dead
            },
    {
        self.run_custom_command("/list", drain_budget)
    }

    /// Performs exactly one blocking receive from the delivery channel,
    /// expecting the next line to answer the player-list query, and returns
    /// the names it carries. The channel closing is the broken-pipe error; a
    /// line without the `...: name1, name2` shape is a protocol violation.
    pub fn receive_player_list(&mut self) -> (r: Result<Vec<String>, WrapperError>)
        ensures
            final(self).jar_path() == old(self).jar_path(),
            final(self).consumed().take(old(self).consumed().len() as int) == old(self).consumed(),
            r matches Ok(names) ==> {
                &&& final(self).consumed().len() == old(self).consumed().len() + 1
                &&& has_player_list_shape(final(self).consumed().last())
                &&& names.deep_view() == parse_players(final(self).consumed().last())
                &&& final(self).bridge_state() == old(self).bridge_state()
            },
            r matches Err(e) ==> e == WrapperError::BrokenPipe || e
                == WrapperError::ProtocolViolation,
            r matches Err(e) && e == WrapperError::BrokenPipe ==> {
                &&& final(self).bridge_state() == BridgeState::Dead
                &&& final(self).consumed() == old(self).consumed()
            },
            r matches Err(e) && e == WrapperError::ProtocolViolation ==> {
                &&& final(self).consumed().len() == old(self).consumed().len() + 1
                &&& !has_player_list_shape(final(self).consumed().last())
                &&& final(self).bridge_state() == old(self).bridge_state()
            },
    {
        let ghost pre = *self;
        match recv_line(&self.stdout) {
            RecvOutcome::Closed => {
                self.state = BridgeState::Dead;
                proof {
                    assert(self.consumed().take(pre.consumed().len() as int) =~= pre.consumed());
                }
                Err(WrapperError::BrokenPipe)
            },
            RecvOutcome::Line(l) => {
                self.history = Ghost(self.history@.push(l@));
                proof {
                    assert(self.consumed().take(pre.consumed().len() as int) =~= pre.consumed());
                }
                parse_player_list(l.as_str())
            },
        }
    }

    /// Records the child's exit as the operating system reported it: `code`
    /// carries the exit status code when the child exited on its own, and is
    /// empty when a signal terminated it. Only a zero code is success; any
    /// other outcome is the exit-failure error carrying the same detail.
    pub fn record_exit(&mut self, code: Option<i32>) -> (r: Result<(), WrapperError>)
        ensures
            final(self).jar_path() == old(self).jar_path(),
            final(self).consumed() == old(self).consumed(),
            final(self).bridge_state() == BridgeState::Stopped,
            code == Some(0i32) <==> r matches Ok(()),
            r matches Err(e) ==> e == WrapperError::ExitFailure(code),
    {
        self.state = BridgeState::Stopped;
        match code {
            Some(c) => {
                if c == 0 {
                    Ok(())
                } else {
                    Err(WrapperError::ExitFailure(Some(c)))
                }
            },
            None => Err(WrapperError::ExitFailure(None)),
        }
    }

    /// Installs the delivery channel of a freshly spawned replacement child;
    /// the old consumer end is discarded with the old child, and the bridge
    /// starts over awaiting readiness.
    pub fn adopt_new_process(&mut self, stdout: std::sync::mpsc::Receiver<String>)
        ensures
            final(self).jar_path() == old(self).jar_path(),
            final(self).bridge_state() == BridgeState::Starting,
            final(self).consumed() == Seq::<Seq<char>>::empty(),
    {
        self.stdout = stdout;
        self.state = BridgeState::Starting;
        self.history = Ghost(Seq::empty());
    }

    /// The path of the jar the child runs, for spawning a replacement.
    pub fn jar_path_str(&self) -> (r: &str)
        ensures
            r@ == self.jar_path(),
    {
        self.server_jar_path.as_str()
    }

    /// Where the bridge stands in the child's lifecycle.
    pub fn current_state(&self) -> (s: BridgeState)
        ensures
            s == self.bridge_state(),
    {
        self.state
    }
}

/// Whether the recovery path may go on to spawn a replacement child after
/// trying to put the old one down: the orderly stop succeeded, or the
/// forcible kill succeeded, or the kill failed only with the invalid-input
/// error kind, which the kill call reports when the child was already gone.
pub fn restart_may_proceed(
    stop_succeeded: bool,
    kill_failed: bool,
    kill_error_was_invalid_input: bool,
) -> (r: bool)
    ensures
        r == (stop_succeeded || !kill_failed || kill_error_was_invalid_input),
{
    stop_succeeded || !kill_failed || kill_error_was_invalid_input
}

} // verus!
