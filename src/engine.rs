//! The decisions of the UDP exchange engine.
//!
//! The engine owns an outbound socket, at most one listening socket served
//! by a background receive loop, and a log file. The sockets, the loop's
//! thread and the file are driven by the caller; this module holds the
//! engine's state and decides each step: whether a receiver may start,
//! what stopping requires, what a send's outcome means, and what each
//! receive attempt adds to the log.

use crate::clock::{local_now, LocalTime};
use crate::entry::{log_line, log_line_view};
use vstd::prelude::*;
use vstd::string::StringSliceAdditionalSpecFns;

verus! {

/// The errors that the engine reports.
#[derive(Debug)]
pub enum EngineError {
    /// A receiver is already active; it must be stopped first.
    AlreadyRunning,
    /// The target is not a `host:port` socket address.
    InvalidAddress(String),
    /// The send timed out: the destination is likely unreachable.
    Unreachable(String),
    /// The socket accepted fewer bytes than the message holds.
    ShortSend { sent: usize, expected: usize },
    /// Any other failure of the network or the file system.
    Io(String),
}

/// The engine's state as a value.
pub ghost struct EngineModel {
    pub output_file: Seq<char>,
    pub send_port: u16,
    pub receive_port: Option<u16>,
}

/// Starting a receiver on `port`: the next state, and whether it started.
/// A second receiver is never started while one is active.
pub open spec fn start_step(m: EngineModel, port: u16) -> (EngineModel, bool) {
    if m.receive_port is Some {
        (m, false)
    } else {
        (EngineModel { receive_port: Some(port), ..m }, true)
    }
}

/// Stopping the receiver: the next state, and whether an active receiver
/// had to be shut down and joined.
pub open spec fn stop_step(m: EngineModel) -> (EngineModel, bool) {
    (EngineModel { receive_port: None, ..m }, m.receive_port is Some)
}

/// What the caller does to carry out a stop.
#[derive(Clone, Copy, Debug, PartialEq, Eq)]
pub enum StopAction {
    /// No receiver was active: nothing to do.
    Nothing,
    /// Clear the running flag, then wait for the receive loop to flush its
    /// log writer and exit.
    JoinReceiver,
}

/// The engine's state: the log file, the outbound socket's local port, and
/// the port of the active receiver, if any.
pub struct UdpMessageHandler {
    output_file: String,
    send_port: u16,
    receive_port: Option<u16>,
}

impl View for UdpMessageHandler {
    type V = EngineModel;

    closed spec fn view(&self) -> EngineModel {
        EngineModel {
            output_file: self.output_file@,
            send_port: self.send_port,
            receive_port: self.receive_port,
        }
    }
}

impl UdpMessageHandler {
    /// A fresh engine logging to `output_file`, whose outbound socket is
    /// bound to `local_send_port`; no receiver is active.
    pub fn new(output_file: &str, local_send_port: u16) -> (r: Self)
        ensures
            r@ == (EngineModel {
                output_file: output_file@,
                send_port: local_send_port,
                receive_port: None,
            }),
    {
        UdpMessageHandler {
            output_file: String::from_str(output_file),
            send_port: local_send_port,
            receive_port: None,
        }
    }

    /// Whether a receiver is active.
    pub fn is_receiving(&self) -> (r: bool)
        ensures
            r == (self@.receive_port is Some),
    {
        self.receive_port.is_some()
    }

    /// Whether a receiver may start now: the already-running error while
    /// one is active. The caller binds the listening socket only on `Ok`.
    pub fn begin_start(&self) -> (r: Result<(), EngineError>)
        ensures
            r is Ok <==> self@.receive_port is None,
            r is Err ==> r == Err::<(), EngineError>(EngineError::AlreadyRunning),
    {
        if self.receive_port.is_some() {
            Err(EngineError::AlreadyRunning)
        } else {
            Ok(())
        }
    }

    /// Records a receiver on `port`, bound by the caller. While one is
    /// active the state is left as it is and the already-running error
    /// comes back.
    pub fn start_receiver(&mut self, port: u16) -> (r: Result<(), EngineError>)
        ensures
            (final(self)@, r is Ok) == start_step(old(self)@, port),
            r is Err ==> r == Err::<(), EngineError>(EngineError::AlreadyRunning),
    {
        if self.receive_port.is_some() {
            Err(EngineError::AlreadyRunning)
        } else {
            self.receive_port = Some(port);
            Ok(())
        }
    }

    /// Stops the receiver. Stopping with none active does nothing; otherwise
    /// the caller clears the running flag and joins the receive loop, which
    /// flushes the log before it ends.
    pub fn stop_receiver(&mut self) -> (r: StopAction)
        ensures
            (final(self)@, r == StopAction::JoinReceiver) == stop_step(old(self)@),
    {
        if self.receive_port.is_some() {
            self.receive_port = None;
            StopAction::JoinReceiver
        } else {
            StopAction::Nothing
        }
    }

    /// The local port of the outbound socket, fixed at construction.
    pub fn local_send_port(&self) -> (r: u16)
        ensures
            r == self@.send_port,
    {
        self.send_port
    }

    /// The port of the active receiver.
    pub fn receive_port(&self) -> (r: Option<u16>)
        ensures
            r == self@.receive_port,
    {
        self.receive_port
    }

    /// The path of the log file.
    pub fn output_file(&self) -> (r: &String)
        ensures
            r@ == self@.output_file,
    {
        &self.output_file
    }
}

/// Once a receiver has started on `port`, starting another on the same
/// port is refused with the state unchanged, so the first receiver keeps
/// running on it.
pub proof fn lemma_second_start_rejected(m: EngineModel, port: u16)
    requires
        start_step(m, port).1,
    ensures
        ({
            let m1 = start_step(m, port).0;
            &&& m1.receive_port == Some(port)
            &&& start_step(m1, port) == (m1, false)
        }),
{
}

/// After a stop, a start on the same port succeeds, whatever the state
/// before.
pub proof fn lemma_restart_after_stop(m: EngineModel, port: u16)
    ensures
        ({
            let (m1, started) = start_step(stop_step(m).0, port);
            &&& started
            &&& m1.receive_port == Some(port)
            &&& m1.output_file == m.output_file
            &&& m1.send_port == m.send_port
        }),
{
}

/// Stopping twice in a row is the same as stopping once: the second stop
/// finds nothing to shut down and changes nothing.
pub proof fn lemma_stop_idempotent(m: EngineModel)
    ensures
        ({
            let m1 = stop_step(m).0;
            stop_step(m1) == (m1, false)
        }),
{
}

/// The outbound socket's port never changes: neither starting nor
/// stopping a receiver touches it, nor the log file.
pub proof fn lemma_send_port_fixed(m: EngineModel, port: u16)
    ensures
        start_step(m, port).0.send_port == m.send_port,
        start_step(m, port).0.output_file == m.output_file,
        stop_step(m).0.send_port == m.send_port,
        stop_step(m).0.output_file == m.output_file,
{
}

/// How a send on the outbound socket failed.
#[derive(Debug)]
pub enum SendFailure {
    /// The bounded send timeout ran out.
    TimedOut,
    /// Any other socket error, as text.
    Other(String),
}

/// The result of sending `message` to `target` when the socket reported
/// `sent`: the byte count when the whole message went out, else an error.
pub open spec fn send_result_view(
    target: Seq<char>,
    message_len: usize,
    sent: Result<usize, SendFailure>,
    r: Result<usize, EngineError>,
) -> bool {
    match sent {
        Ok(n) => if n == message_len {
            r == Ok::<usize, EngineError>(n)
        } else {
            r == Err::<usize, EngineError>(
                EngineError::ShortSend { sent: n, expected: message_len },
            )
        },
        Err(SendFailure::TimedOut) => match r {
            Err(EngineError::Unreachable(t)) => t@ == target,
            _ => false,
        },
        Err(SendFailure::Other(e)) => match r {
            Err(EngineError::Io(m)) => m@ == e@,
            _ => false,
        },
    }
}

/// Whether a send may go out: the invalid-address error, without touching
/// the network, where `target` did not parse as a socket address.
pub fn plan_send(target: &str, address_parsed: bool) -> (r: Result<(), EngineError>)
    ensures
        r is Ok <==> address_parsed,
        match r {
            Err(EngineError::InvalidAddress(t)) => t@ == target@,
            Err(_) => false,
            Ok(_) => true,
        },
{
    if address_parsed {
        Ok(())
    } else {
        Err(EngineError::InvalidAddress(String::from_str(target)))
    }
}

/// What a send of `message` to `target` returns, given what the socket
/// reported. `Ok` carries the message's byte length and nothing else; a
/// timeout is surfaced as an unreachable destination; no failure is
/// dropped.
pub fn finish_send(target: &str, message: &str, sent: Result<usize, SendFailure>) -> (r: Result<
    usize,
    EngineError,
>)
    ensures
        send_result_view(target@, message.spec_bytes().len() as usize, sent, r),
        r is Ok ==> r->Ok_0 == message.spec_bytes().len() as usize,
        r is Ok <==> (sent is Ok && sent->Ok_0 == message.spec_bytes().len() as usize),
{
    let len = message.len();
    match sent {
        Ok(n) => {
            if n == len {
                Ok(n)
            } else {
                Err(EngineError::ShortSend { sent: n, expected: len })
            }
        },
        Err(SendFailure::TimedOut) => Err(EngineError::Unreachable(String::from_str(target))),
        Err(SendFailure::Other(e)) => Err(EngineError::Io(e)),
    }
}

/// One attempt of the receive loop to read a datagram.
#[derive(Debug)]
pub enum RecvOutcome {
    /// A datagram with `payload` arrived from `source` (`ip:port`).
    Datagram { payload: Vec<u8>, source: String },
    /// The read timeout ran out with nothing received.
    TimedOut,
    /// The read failed for another reason, given as text.
    Failed(String),
}

/// What the receive loop does after one read attempt.
#[derive(Debug)]
pub enum LoopAction {
    /// Append this entry to the log writer.
    Append(String),
    /// Report this status text to the owner, and go on.
    Report(String),
    /// Nothing to do: check the running flag and read again.
    Idle,
}

/// The status text for a failed read.
pub open spec fn receive_error_text(e: Seq<char>) -> Seq<char> {
    "receive error: "@ + e
}

/// What the receive loop does with `outcome`, the datagram having arrived
/// at `time`: exactly one log entry per datagram, binary payloads
/// included; a timeout is no error; any other failure is reported and the
/// loop goes on.
pub fn receive_step(outcome: &RecvOutcome, time: &LocalTime) -> (r: LoopAction)
    ensures
        match outcome {
            RecvOutcome::Datagram { payload, source } => match r {
                LoopAction::Append(line) => line@ == log_line_view(*time, source@, payload@),
                _ => false,
            },
            RecvOutcome::TimedOut => r is Idle,
            RecvOutcome::Failed(e) => match r {
                LoopAction::Report(m) => m@ == receive_error_text(e@),
                _ => false,
            },
        },
{
    match outcome {
        RecvOutcome::Datagram { payload, source } => LoopAction::Append(
            log_line(time, source.as_str(), payload.as_slice()),
        ),
        RecvOutcome::TimedOut => LoopAction::Idle,
        RecvOutcome::Failed(e) => {
            let mut m = String::new();
            m.append("receive error: ");
            m.append(e.as_str());
            LoopAction::Report(m)
        },
    }
}

/// What the receive loop does with `outcome`, stamped with the local time
/// at which it is handled: as [`receive_step`] says, for some well-formed
/// time read from the clock.
pub fn on_receive(outcome: &RecvOutcome) -> (r: LoopAction)
    ensures
        exists|t: LocalTime|
            t.wf() && match outcome {
                RecvOutcome::Datagram { payload, source } => match r {
                    LoopAction::Append(line) => line@ == log_line_view(t, source@, payload@),
                    _ => false,
                },
                RecvOutcome::TimedOut => r is Idle,
                RecvOutcome::Failed(e) => match r {
                    LoopAction::Report(m) => m@ == receive_error_text(e@),
                    _ => false,
                },
            },
{
    let now = local_now();
    receive_step(outcome, &now)
}

} // verus!
