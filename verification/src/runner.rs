//! The probe runner: a state machine that decides what a run does next. Its
//! owner does the work on the network and the clock, and reports each result
//! as an event.
//!
//! ```text
//!            Wake, probes left                Reply that parses
//!   Ready ----------------------> AwaitingReply ----------------> Ready
//!     |                               |
//!     | Wake, none left               | short reply, or the transport failed
//!     v                               v
//!  Finished                        Aborted
//! ```

use crate::error::PingError;
use crate::packet::{
    checksum_is_valid, create_echo_request, encoded_echo_request, lemma_encoded_echo_request,
    parse_echo_reply, sequence_number_field, type_field, DEFAULT_DATA_SIZE, DEFAULT_HEADER_SIZE,
    ECHO_REQUEST,
};
use crate::stats::{lemma_all_answered, summarize, ProbeOutcome, ProbeSummary};
use vstd::prelude::*;

verus! {

/// The sequence number of the first probe of a run.
pub const INITIAL_SEQUENCE_NUMBER: u16 = 1;

/// Number of probes in a run.
pub const NUMBER_OF_PACKETS_TO_SEND: u16 = 5;

/// Pause after each probe, in milliseconds.
pub const DEFAULT_INTERVAL_MS: u64 = 1000;

/// What a run is made with.
#[derive(Clone, Copy, Debug, PartialEq, Eq, Structural)]
pub struct ProbeConfig {
    /// Number of payload bytes in each request.
    pub payload_size: u8,
    /// Number of bytes that each request keeps for its header.
    pub header_size: u8,
    /// Number of probes to send.
    pub probe_count: u16,
    /// Pause after each probe, in milliseconds.
    pub interval_ms: u64,
}

impl ProbeConfig {
    /// The length of each request, header and payload.
    pub open spec fn packet_len(self) -> nat {
        (self.payload_size + self.header_size) as nat
    }

    /// The length of each request, header and payload.
    pub fn packet_size(&self) -> (size: usize)
        ensures
            size == self.packet_len(),
    {
        self.payload_size as usize + self.header_size as usize
    }
}

impl Default for ProbeConfig {
    /// Five probes of 8 and 56 bytes, one second apart.
    fn default() -> (config: Self)
        ensures
            config == (ProbeConfig {
                payload_size: DEFAULT_DATA_SIZE,
                header_size: DEFAULT_HEADER_SIZE,
                probe_count: NUMBER_OF_PACKETS_TO_SEND,
                interval_ms: DEFAULT_INTERVAL_MS,
            }),
    {
        ProbeConfig {
            payload_size: DEFAULT_DATA_SIZE,
            header_size: DEFAULT_HEADER_SIZE,
            probe_count: NUMBER_OF_PACKETS_TO_SEND,
            interval_ms: DEFAULT_INTERVAL_MS,
        }
    }
}

/// Where a run stands.
#[derive(Clone, Copy, Debug, PartialEq, Eq, Structural)]
pub enum Phase {
    /// Between two probes: the next `Wake` starts a probe or ends the run.
    Ready,
    /// A request is in the packet buffer and its reply is awaited.
    AwaitingReply,
    /// Every probe was answered. The summary can be had.
    Finished,
    /// The run was given up.
    Aborted,
}

/// What the owner of a run reports to it.
#[derive(Clone, Copy, Debug)]
pub enum Event<'a> {
    /// The run starts, or the pause after a probe is over.
    Wake,
    /// A packet came in, `elapsed_ms` milliseconds after the probe started.
    Reply { packet: &'a [u8], elapsed_ms: u64 },
    /// The request could not be sent.
    TransmitFailed,
    /// Waiting for the reply failed.
    ReceiveFailed,
}

/// What the owner of a run is to do next.
#[derive(Clone, Copy, Debug, PartialEq, Eq, Structural)]
pub enum Action {
    /// Start the clock, send the packet buffer to the destination, wait for
    /// the next incoming packet and report it, or the failure.
    Transmit,
    /// A probe was answered: tell so, then pause and report `Wake`.
    Report {
        /// Length of the request.
        bytes: usize,
        /// Sequence number that the reply carries.
        sequence_number: u16,
        /// Round-trip time in milliseconds.
        elapsed_ms: u64,
        /// Length of the pause in milliseconds.
        pause_ms: u64,
    },
    /// The run is complete: tell its summary.
    Finish,
    /// The run is given up for this reason. No summary is told.
    Abort(PingError),
    /// The event does not belong to the phase and changed nothing.
    Ignored,
}

/// A run as its contracts see it.
pub struct RunnerView {
    /// What the run was made with.
    pub config: ProbeConfig,
    /// Where the run stands.
    pub phase: Phase,
    /// What the packet buffer holds.
    pub packet: Seq<u8>,
    /// The outcomes of the probes so far, in the order of the probes.
    pub outcomes: Seq<ProbeOutcome>,
}

impl RunnerView {
    /// The sequence number of the probe that comes after those that have an
    /// outcome.
    pub open spec fn next_sequence_number(self) -> u16 {
        (INITIAL_SEQUENCE_NUMBER + self.outcomes.len()) as u16
    }

    /// What holds of every run: the buffer has the length that the
    /// configuration asks for, no probe has more than one outcome, every
    /// outcome is a success, a request that awaits its reply is an echo
    /// request with the sequence number of its probe and a valid checksum,
    /// and a finished run has an outcome for each probe.
    pub open spec fn wf(self) -> bool {
        &&& self.packet.len() == self.config.packet_len()
        &&& self.outcomes.len() <= self.config.probe_count
        &&& forall|i: int| 0 <= i < self.outcomes.len() ==> self.outcomes[i] is Success
        &&& self.phase == Phase::AwaitingReply ==> {
            &&& self.outcomes.len() < self.config.probe_count
            &&& self.packet.len() >= DEFAULT_HEADER_SIZE
            &&& type_field(self.packet) == ECHO_REQUEST
            &&& sequence_number_field(self.packet) == self.next_sequence_number()
            &&& checksum_is_valid(self.packet)
        }
        &&& self.phase == Phase::Finished ==> self.outcomes.len() == self.config.probe_count
    }

    /// The run in another phase.
    pub open spec fn in_phase(self, phase: Phase) -> RunnerView {
        RunnerView { phase, ..self }
    }

    /// The state that follows `self` on `event`, and what is to be done.
    pub open spec fn step(self, event: Event<'_>) -> (RunnerView, Action) {
        match (self.phase, event) {
            (Phase::Ready, Event::Wake) => {
                if self.outcomes.len() >= self.config.probe_count {
                    (self.in_phase(Phase::Finished), Action::Finish)
                } else if self.packet.len() < DEFAULT_HEADER_SIZE {
                    (self.in_phase(Phase::Aborted), Action::Abort(PingError::BufferTooSmall))
                } else {
                    (
                        RunnerView {
                            phase: Phase::AwaitingReply,
                            packet: encoded_echo_request(self.packet, self.next_sequence_number()),
                            ..self
                        },
                        Action::Transmit,
                    )
                }
            },
            (Phase::AwaitingReply, Event::Reply { packet, elapsed_ms }) => {
                if packet@.len() < DEFAULT_HEADER_SIZE {
                    (self.in_phase(Phase::Aborted), Action::Abort(PingError::InvalidEchoReply))
                } else {
                    (
                        RunnerView {
                            phase: Phase::Ready,
                            outcomes: self.outcomes.push(ProbeOutcome::Success(elapsed_ms)),
                            ..self
                        },
                        Action::Report {
                            bytes: self.packet.len() as usize,
                            sequence_number: sequence_number_field(packet@),
                            elapsed_ms,
                            pause_ms: self.config.interval_ms,
                        },
                    )
                }
            },
            (Phase::AwaitingReply, Event::TransmitFailed) => (
                self.in_phase(Phase::Aborted),
                Action::Abort(PingError::TransmissionError),
            ),
            (Phase::AwaitingReply, Event::ReceiveFailed) => (
                self.in_phase(Phase::Aborted),
                Action::Abort(PingError::ReceiveError),
            ),
            _ => (self, Action::Ignored),
        }
    }
}

/// Every step keeps what holds of every run.
pub proof fn lemma_step_preserves_wf(pre: RunnerView, event: Event<'_>)
    requires
        pre.wf(),
    ensures
        pre.step(event).0.wf(),
        pre.step(event).0.config == pre.config,
{
    if pre.phase == Phase::Ready && event is Wake && pre.outcomes.len() < pre.config.probe_count
        && pre.packet.len() >= DEFAULT_HEADER_SIZE {
        lemma_encoded_echo_request(pre.packet, pre.next_sequence_number());
    }
}

/// A run of probes: the configuration, the phase, the packet buffer and the
/// outcomes so far.
pub struct ProbeRunner {
    config: ProbeConfig,
    phase: Phase,
    buffer: Vec<u8>,
    outcomes: Vec<ProbeOutcome>,
}

impl View for ProbeRunner {
    type V = RunnerView;

    closed spec fn view(&self) -> RunnerView {
        RunnerView {
            config: self.config,
            phase: self.phase,
            packet: self.buffer@,
            outcomes: self.outcomes@,
        }
    }
}

impl ProbeRunner {
    /// Every run there is meets `RunnerView::wf`.
    #[verifier::type_invariant]
    spec fn inv(self) -> bool {
        self@.wf()
    }

    /// A run that has not started, with a packet buffer of zeros.
    pub fn new(config: ProbeConfig) -> (runner: ProbeRunner)
        ensures
            runner@.wf(),
            runner@ == (RunnerView {
                config,
                phase: Phase::Ready,
                packet: Seq::new(config.packet_len(), |i: int| 0u8),
                outcomes: Seq::empty(),
            }),
    {
        let buffer = vec![0u8; config.packet_size()];
        assert(buffer@ =~= Seq::new(config.packet_len(), |i: int| 0u8));
        ProbeRunner { config, phase: Phase::Ready, buffer, outcomes: Vec::new() }
    }

    /// Takes the run one step on: `event` is what happened; the result is the
    /// run after it and what is to be done next.
    pub fn step(self, event: Event<'_>) -> (next: (ProbeRunner, Action))
        ensures
            self@.wf(),
            next.0@.wf(),
            (next.0@, next.1) == self@.step(event),
    {
        proof {
            use_type_invariant(&self);
            lemma_step_preserves_wf(self@, event);
        }
        let ProbeRunner { config, phase, mut buffer, mut outcomes } = self;
        match (phase, event) {
            (Phase::Ready, Event::Wake) => {
                let index = outcomes.len();
                if index >= config.probe_count as usize {
                    (ProbeRunner { config, phase: Phase::Finished, buffer, outcomes }, Action::Finish)
                } else {
                    let sequence_number = INITIAL_SEQUENCE_NUMBER + index as u16;
                    match create_echo_request(buffer.as_mut_slice(), sequence_number) {
                        Ok(_) => (
                            ProbeRunner { config, phase: Phase::AwaitingReply, buffer, outcomes },
                            Action::Transmit,
                        ),
                        Err(error) => (
                            ProbeRunner { config, phase: Phase::Aborted, buffer, outcomes },
                            Action::Abort(error),
                        ),
                    }
                }
            },
            (Phase::AwaitingReply, Event::Reply { packet, elapsed_ms }) => {
                match parse_echo_reply(packet) {
                    Ok(reply) => {
                        outcomes.push(ProbeOutcome::Success(elapsed_ms));
                        let report = Action::Report {
                            bytes: buffer.len(),
                            sequence_number: reply.sequence_number,
                            elapsed_ms,
                            pause_ms: config.interval_ms,
                        };
                        (ProbeRunner { config, phase: Phase::Ready, buffer, outcomes }, report)
                    },
                    Err(error) => (
                        ProbeRunner { config, phase: Phase::Aborted, buffer, outcomes },
                        Action::Abort(error),
                    ),
                }
            },
            (Phase::AwaitingReply, Event::TransmitFailed) => (
                ProbeRunner { config, phase: Phase::Aborted, buffer, outcomes },
                Action::Abort(PingError::TransmissionError),
            ),
            (Phase::AwaitingReply, Event::ReceiveFailed) => (
                ProbeRunner { config, phase: Phase::Aborted, buffer, outcomes },
                Action::Abort(PingError::ReceiveError),
            ),
            _ => (ProbeRunner { config, phase, buffer, outcomes }, Action::Ignored),
        }
    }

    /// The statistics of the run, once it is finished: every probe was sent
    /// and answered, so nothing was lost.
    pub fn summary(&self) -> (summary: Option<ProbeSummary>)
        ensures
            self@.wf(),
            summary is Some <==> self@.phase == Phase::Finished,
            summary matches Some(s) ==> {
                &&& s.summarizes(self@.outcomes)
                &&& s.transmitted == self@.config.probe_count
                &&& s.received == s.transmitted
                &&& s.loss_percent == 0
            },
    {
        proof {
            use_type_invariant(self);
        }
        if self.phase == Phase::Finished {
            proof {
                lemma_all_answered(self.outcomes@);
            }
            Some(summarize(self.outcomes.as_slice()))
        } else {
            None
        }
    }

    /// The configuration of the run.
    pub fn config(&self) -> (config: ProbeConfig)
        ensures
            config == self@.config,
    {
        self.config
    }

    /// Where the run stands.
    pub fn phase(&self) -> (phase: Phase)
        ensures
            phase == self@.phase,
    {
        self.phase
    }

    /// The packet buffer: after `Action::Transmit`, the request to send.
    pub fn packet(&self) -> (packet: &[u8])
        ensures
            packet@ == self@.packet,
    {
        self.buffer.as_slice()
    }

    /// The outcomes of the probes so far, in the order of the probes.
    pub fn outcomes(&self) -> (outcomes: &[ProbeOutcome])
        ensures
            outcomes@ == self@.outcomes,
    {
        self.outcomes.as_slice()
    }
}

} // verus!
