//! The per-device session engine: request correlation and loop decisions.
//!
//! One session exists per open device. A dedicated worker loop owns the
//! transport and drives the session: it hands every command, incoming frame
//! and transport fault to the session, and the session decides -- it
//! allocates request ids, encodes frames, correlates responses to
//! outstanding requests, tracks the running sweep and publishes the shared
//! device state. The loop performs only the I/O the session cannot:
//! writing and reading frames and delivering the returned actions.

use vstd::prelude::*;
use crate::analog_output::AnalogOutputState;
use crate::codec::{
    fill_ax_frame_legacy, fill_ax_frame_modern, fill_data_frame_legacy, fill_data_frame_modern,
    fill_init_frame_legacy, fill_init_frame_modern, fill_px_frame_legacy, fill_px_frame_modern,
    fill_stop_frame_legacy, spec_ax_legacy_filled, spec_ax_modern_filled, spec_data_legacy_filled,
    spec_data_legacy_result, spec_data_modern_filled, spec_data_modern_result,
    spec_init_legacy_filled, spec_init_modern_filled, spec_px_legacy_filled,
    spec_px_modern_filled, spec_stop_legacy_filled,
};
use crate::commands::{Command, DataRequestConfig};
use crate::data_requests::{
    append_channel_data, collate_samples, parse_legacy_samples, spec_channel_readings,
    spec_collated_sample_ok, spec_complete_samples, spec_legacy_sample_count,
    spec_legacy_sample_ok, Collators, Sample,
};
use crate::errors::EncodeError;
use crate::power::{PowerState, PowerStatus, PowerUsage};
use crate::pulse_output::PulseOutputState;
use crate::responses::{StatusResponse, StatusResponseLegacy};
use vstd::arithmetic::div_mod::{
    lemma_add_mod_noop, lemma_fundamental_div_mod, lemma_mod_division_less_than_divisor,
    lemma_small_mod,
};

verus! {

/// The two wire-protocol generations, fixed at session construction.
#[derive(Debug, PartialEq, Eq, Structural, Copy, Clone)]
pub enum Generation {
    Legacy,
    Modern,
}

/// The running state of one data sweep: its configuration, the samples
/// still owed, and the per-channel reassembly buffers.
#[derive(Debug, PartialEq, Clone)]
pub struct SweepState {
    pub config: DataRequestConfig,
    pub remaining: u32,
    pub collators: Collators,
}

/// An outstanding request, as the correlation table holds it.
#[derive(Debug, PartialEq, Clone)]
pub enum ActiveRequest {
    Initialize { power_on: bool },
    SetAnalogOutput { channel: usize, state: AnalogOutputState },
    SetPulseOutput { channel: usize, state: PulseOutputState },
    RequestData(SweepState),
    StopData,
}

/// What the entry freshly inserted for a command must hold: the command's
/// own parameters, and for a data request its full budget and empty
/// buffers.
pub open spec fn spec_entry_for(cmd: Command, e: ActiveRequest) -> bool {
    match cmd {
        Command::Initialize { power_on } => e == ActiveRequest::Initialize { power_on },
        Command::SetAnalogOutput { channel, state, .. } => e == ActiveRequest::SetAnalogOutput {
            channel,
            state,
        },
        Command::SetPulseOutput { channel, state, .. } => e == ActiveRequest::SetPulseOutput {
            channel,
            state,
        },
        Command::RequestData(config) => {
            &&& e matches ActiveRequest::RequestData(sw)
            &&& e->RequestData_0.config == config
            &&& e->RequestData_0.remaining == config.total_samples
            &&& (forall|i: int| 0 <= i < 4 ==> e->RequestData_0.collators.at(i).len() == 0)
        },
        Command::StopData => e == ActiveRequest::StopData,
        Command::Quit => false,
    }
}

/// What the session loop is told to do after a frame is processed.
pub enum SessionAction {
    /// A pure status heartbeat: the shared state was refreshed, nothing
    /// else.
    Heartbeat,
    /// A response referenced a request the table does not hold: a
    /// recoverable protocol inconsistency, worth a warning.
    UnknownRequest { request_id: u8 },
    /// A frame arrived that no decision applies to; nothing to do.
    Ignored,
    /// Initialization confirmed: release the waiting opener.
    InitializeDone { request_id: u8 },
    /// An analog-output request was confirmed: commit the state and reply
    /// to the handle.
    AnalogOutputConfirmed { request_id: u8, channel: usize, state: AnalogOutputState },
    /// A pulse-output request was confirmed: commit the state and reply to
    /// the handle.
    PulseOutputConfirmed { request_id: u8, channel: usize, state: PulseOutputState },
    /// A modern device accepted a data request; its sample stream follows
    /// on the channel endpoints.
    SweepStarted { request_id: u8 },
    /// Samples were decoded for the running sweep: forward them, publish
    /// the new budget, and close the stream when it finished.
    SweepProgress { request_id: u8, samples: Vec<Sample>, remaining: u32, finished: bool },
    /// A stop command was acknowledged: the sweep, if one was still
    /// running, is over and its budget is void.
    SweepStopped { request_id: u8, cancelled: Option<u8> },
}

/// The request id that follows `id`: ids wrap from 255 back to 1, never
/// touching 0, which marks an unsolicited status frame.
pub open spec fn spec_next_id(id: u8) -> u8 {
    if id == 255 {
        1
    } else {
        (id + 1) as u8
    }
}

/// The id allocated by the `k`-th allocation after starting from `start`.
pub open spec fn spec_id_after(start: u8, k: nat) -> u8
    decreases k,
{
    if k == 0 {
        start
    } else {
        spec_next_id(spec_id_after(start, (k - 1) as nat))
    }
}

proof fn lemma_id_after_formula(start: u8, k: nat)
    requires
        k >= 1,
    ensures
        spec_id_after(start, k) == ((start + k - 1) % 255) + 1,
    decreases k,
{
    reveal_with_fuel(spec_id_after, 3);
    if k == 1 {
        if start == 255 {
            assert(255int % 255 == 0) by (nonlinear_arith);
        } else {
            lemma_small_mod(start as nat, 255);
        }
    } else {
        lemma_id_after_formula(start, (k - 1) as nat);
        let p = (start + k - 2) % 255;
        lemma_mod_division_less_than_divisor(start + k - 2, 255);
        lemma_add_mod_noop(start + k - 2, 1, 255);
        lemma_small_mod(1nat, 255);
        if p + 1 == 255 {
            assert(255int % 255 == 0) by (nonlinear_arith);
        } else {
            lemma_small_mod((p + 1) as nat, 255);
        }
    }
}

/// Request ids are never reused while outstanding: among any run of up to
/// 254 consecutively allocated ids, all are pairwise distinct -- and none
/// of them is the reserved id 0.
pub proof fn lemma_request_ids_distinct(start: u8, i: nat, j: nat)
    requires
        1 <= i < j,
        j - i < 255,
    ensures
        spec_id_after(start, i) != spec_id_after(start, j),
        spec_id_after(start, i) != 0,
{
    lemma_id_after_formula(start, i);
    lemma_id_after_formula(start, j);
    lemma_mod_division_less_than_divisor(start + i - 1, 255);
    lemma_mod_division_less_than_divisor(start + j - 1, 255);
    let a = start + i - 1;
    let d = j - i;
    if (a % 255) == ((a + d) % 255) {
        lemma_fundamental_div_mod(a, 255);
        lemma_fundamental_div_mod(a + d, 255);
        let q1 = a / 255;
        let q2 = (a + d) / 255;
        assert(d == 255 * (q2 - q1)) by (nonlinear_arith)
            requires
                a == 255 * q1 + a % 255,
                a + d == 255 * q2 + (a + d) % 255,
                (a % 255) == ((a + d) % 255),
        ;
        assert(d < 255 && d >= 1);
        assert(255 * (q2 - q1) >= 255 || 255 * (q2 - q1) <= 0) by (nonlinear_arith);
    }
}

/// The engine of one open device: the request-correlation state, the
/// running sweep, and the shared observable device state, advanced one
/// decision at a time by the worker loop.
pub struct Session {
    /// Which wire protocol this device speaks.
    pub generation: Generation,
    /// The most recently allocated request id.
    pub request_id: u8,
    /// The correlation table, indexed by request id; slot 0 stays empty.
    pub table: Vec<Option<ActiveRequest>>,
    /// The id of the running sweep of a legacy device.
    pub active_data_request: Option<u8>,
    /// The one outstanding control request of a modern device.
    pub active_comms: Option<(u8, ActiveRequest)>,
    /// The running sweep of a modern device.
    pub active_data: Option<(u8, SweepState)>,
    /// The firmware version, unknown until the first status frame.
    pub fw_version: Option<u16>,
    /// The power status the latest status frame reported.
    pub power_status: PowerStatus,
    /// Whether a transport fault or a quit has ended the session.
    pub stopped: bool,
}

impl Session {
    /// The structural invariant: the table spans every possible id.
    pub open spec fn wf(self) -> bool {
        self.table@.len() == 256
    }

    /// A fresh session: no outstanding requests, nothing known yet.
    pub fn new(generation: Generation) -> (r: Session)
        ensures
            r.wf(),
            r.generation == generation,
            r.request_id == 0,
            forall|i: int| 0 <= i < 256 ==> r.table@[i] is None,
            r.active_data_request is None,
            r.active_comms is None,
            r.active_data is None,
            r.fw_version is None,
            r.power_status == PowerStatus::unknown(),
            !r.stopped,
    {
        let mut table: Vec<Option<ActiveRequest>> = Vec::new();
        let mut i: usize = 0;
        while i < 256
            invariant
                table@.len() == i,
                i <= 256,
                forall|k: int| 0 <= k < i ==> table@[k] is None,
            decreases 256 - i,
        {
            table.push(None);
            i += 1;
        }
        Session {
            generation,
            request_id: 0,
            table,
            active_data_request: None,
            active_comms: None,
            active_data: None,
            fw_version: None,
            power_status: PowerStatus { state: PowerState::Unknown, usage: PowerUsage::Unmeasured },
            stopped: false,
        }
    }

    /// Whether the session is still running: no transport fault and no
    /// quit has ended it.
    pub fn is_running(&self) -> (r: bool)
        ensures
            r == !self.stopped,
    {
        !self.stopped
    }

    /// Ends the session: a transport fault or a quit was observed. All
    /// further traffic stops; blocked callers are to be released by the
    /// loop.
    pub fn mark_stopped(&mut self)
        ensures
            *final(self) == (Session { stopped: true, ..*old(self) }),
    {
        self.stopped = true;
    }

    /// The firmware version of the latest status frame, if any arrived.
    pub fn firmware_version(&self) -> (r: Option<u16>)
        ensures
            r == self.fw_version,
    {
        self.fw_version
    }

    /// The power status the latest status frame reported.
    pub fn power_status(&self) -> (r: PowerStatus)
        ensures
            r == self.power_status,
    {
        self.power_status
    }

    /// Whether a sweep is currently running, so the loop knows to poll its
    /// cancellation signal and its data endpoints.
    pub fn has_active_sweep(&self) -> (r: bool)
        ensures
            r == (self.active_data_request is Some || self.active_data is Some),
    {
        self.active_data_request.is_some() || self.active_data.is_some()
    }
}

/// A frame of 65 zero bytes, the canvas every legacy command is painted
/// on.
pub open spec fn spec_zero65() -> Seq<u8> {
    Seq::new(65, |i: int| 0u8)
}

/// A frame of 64 zero bytes, the canvas every modern command is painted
/// on.
pub open spec fn spec_zero64() -> Seq<u8> {
    Seq::new(64, |i: int| 0u8)
}

/// Whether a command's channel index names a real output channel; the
/// device has two of each kind.
pub open spec fn spec_command_ok(cmd: Command) -> bool {
    match cmd {
        Command::SetAnalogOutput { channel, .. } => channel < 2,
        Command::SetPulseOutput { channel, .. } => channel < 2,
        _ => true,
    }
}

/// Whether encoding a command for a legacy device succeeds, and with which
/// parameter error it fails: only pulse timing and data-sweep parameters
/// can be refused.
pub open spec fn spec_legacy_encode_result(cmd: Command) -> Result<(), EncodeError> {
    match cmd {
        Command::SetPulseOutput { state, .. } => {
            if crate::pulse_output::spec_registers_ok(state) {
                Ok(())
            } else {
                Err(crate::pulse_output::spec_registers_err(state))
            }
        },
        Command::RequestData(config) => spec_data_legacy_result(config),
        _ => Ok(()),
    }
}

/// What the one frame a legacy command sends must hold, before the request
/// id is stamped into byte 2.
pub open spec fn spec_legacy_frame_ok(cmd: Command, f: Seq<u8>) -> bool {
    match cmd {
        Command::Initialize { power_on } => spec_init_legacy_filled(spec_zero65(), f, power_on),
        Command::SetAnalogOutput { channel, state, .. } => spec_ax_legacy_filled(
            spec_zero65(),
            f,
            channel as int,
            state,
        ),
        Command::SetPulseOutput { channel, state, .. } => spec_px_legacy_filled(
            spec_zero65(),
            f,
            channel as int,
            state,
        ),
        Command::RequestData(config) => spec_data_legacy_filled(spec_zero65(), f, config),
        Command::StopData => spec_stop_legacy_filled(spec_zero65(), f),
        Command::Quit => false,
    }
}

/// The sample budget an entry still owes; anything but a running data
/// request owes none.
pub open spec fn spec_remaining_at(e: Option<ActiveRequest>) -> int {
    match e {
        Some(ActiveRequest::RequestData(sw)) => sw.remaining as int,
        _ => 0,
    }
}

/// The budget left after the device reports `n` more finished samples: it
/// never rises and never sinks below zero.
pub open spec fn spec_dec(remaining: u32, n: u32) -> u32 {
    if n <= remaining {
        (remaining - n) as u32
    } else {
        0u32
    }
}

impl Session {
    /// Allocates the next request id: one past the last, wrapping from 255
    /// back to 1 and skipping the reserved 0.
    fn alloc_request_id(&mut self) -> (r: u8)
        ensures
            r == spec_next_id(old(self).request_id),
            r != 0,
            *final(self) == (Session { request_id: r, ..*old(self) }),
    {
        let id: u8 = if self.request_id == 255 {
            1
        } else {
            self.request_id + 1
        };
        self.request_id = id;
        id
    }

    /// Forgets the running legacy sweep if it is the one a finished
    /// request names.
    fn filter_active_data_request(&mut self, id: u8)
        ensures
            final(self).active_data_request == (if old(self).active_data_request == Some(id) {
                None
            } else {
                old(self).active_data_request
            }),
            final(self).generation == old(self).generation,
            final(self).request_id == old(self).request_id,
            final(self).table == old(self).table,
            final(self).active_comms == old(self).active_comms,
            final(self).active_data == old(self).active_data,
            final(self).fw_version == old(self).fw_version,
            final(self).power_status == old(self).power_status,
            final(self).stopped == old(self).stopped,
    {
        let adr = self.active_data_request;
        match adr {
            Some(current) => {
                if current == id {
                    self.active_data_request = None;
                }
            },
            None => {},
        }
    }

    /// Frames one command for a legacy device and books it as outstanding:
    /// the next request id is allocated and stamped into the frame, and the
    /// command enters the correlation table under it, a data request with
    /// its full budget. A command whose parameters the codec refuses is
    /// dropped: nothing is sent, nothing is booked, the id is not spent,
    /// and the error is handed back to the caller.
    pub fn prepare_legacy(&mut self, cmd: Command) -> (r: Result<([u8; 65], u8), EncodeError>)
        requires
            old(self).wf(),
            old(self).generation is Legacy,
            !old(self).stopped,
            !(cmd is Quit),
            spec_command_ok(cmd),
        ensures
            final(self).wf(),
            r is Ok <==> spec_legacy_encode_result(cmd) is Ok,
            r is Err ==> r->Err_0 == spec_legacy_encode_result(cmd)->Err_0 && *final(self) == *old(self),
            r is Ok ==> ({
                let frame = r->Ok_0.0;
                let id = r->Ok_0.1;
                &&& id == spec_next_id(old(self).request_id)
                &&& id != 0
                &&& final(self).request_id == id
                &&& frame@[2] == id
                &&& spec_legacy_frame_ok(cmd, frame@.update(2, 0u8))
                &&& final(self).table@.len() == 256
                &&& (forall|j: int|
                    0 <= j < 256 && j != id ==> final(self).table@[j] == old(self).table@[j])
                &&& final(self).table@[id as int] matches Some(e) && spec_entry_for(cmd, e)
                &&& (cmd is RequestData ==> final(self).active_data_request == Some(id))
                &&& (!(cmd is RequestData) ==> final(self).active_data_request == old(self).active_data_request)
                &&& final(self).generation == old(self).generation
                &&& final(self).stopped == old(self).stopped
                &&& final(self).fw_version == old(self).fw_version
                &&& final(self).power_status == old(self).power_status
                &&& final(self).active_comms == old(self).active_comms
                &&& final(self).active_data == old(self).active_data
            }),
    {
        let mut frame: [u8; 65] = [0; 65];
        let entry: ActiveRequest = match &cmd {
            Command::Quit => {
                return Err(EncodeError::NoChannelsOn);
            },
            Command::Initialize { power_on } => {
                fill_init_frame_legacy(*power_on, &mut frame);
                ActiveRequest::Initialize { power_on: *power_on }
            },
            Command::SetAnalogOutput { channel, state, .. } => {
                fill_ax_frame_legacy(*channel, state, &mut frame);
                ActiveRequest::SetAnalogOutput { channel: *channel, state: *state }
            },
            Command::SetPulseOutput { channel, state, .. } => {
                match fill_px_frame_legacy(*channel, state, &mut frame) {
                    Ok(()) => {},
                    Err(e) => {
                        return Err(e);
                    },
                }
                ActiveRequest::SetPulseOutput { channel: *channel, state: *state }
            },
            Command::RequestData(config) => {
                match fill_data_frame_legacy(config, &mut frame) {
                    Ok(()) => {},
                    Err(e) => {
                        return Err(e);
                    },
                }
                ActiveRequest::RequestData(
                    SweepState {
                        config: *config,
                        remaining: config.total_samples,
                        collators: Collators::new(),
                    },
                )
            },
            Command::StopData => {
                fill_stop_frame_legacy(&mut frame);
                ActiveRequest::StopData
            },
        };

        let ghost filled = frame@;
        let id: u8 = self.alloc_request_id();
        frame[2] = id;
        proof {
            assert(frame@.update(2, 0u8) =~= filled);
        }
        self.table[id as usize] = Some(entry);
        if matches!(cmd, Command::RequestData(..)) {
            self.active_data_request = Some(id);
        }
        Ok((frame, id))
    }

    /// Decodes one legacy reply frame and applies it: the shared firmware
    /// version and power status are always refreshed; then, unless the
    /// frame is a pure heartbeat, the referenced request is looked up and
    /// closed out -- a confirmation releases its handle, a data reply is
    /// decoded into samples and charged against the sweep's budget, which
    /// never rises, and a stop acknowledgment voids the running sweep. A
    /// reply for an id the table does not hold is reported and discarded.
    pub fn process_frame_legacy(&mut self, frame: &[u8; 64]) -> (r: SessionAction)
        requires
            old(self).wf(),
            old(self).generation is Legacy,
            !old(self).stopped,
        ensures
            final(self).wf(),
            final(self).generation == old(self).generation,
            final(self).request_id == old(self).request_id,
            final(self).stopped == old(self).stopped,
            final(self).active_comms == old(self).active_comms,
            final(self).active_data == old(self).active_data,
            final(self).fw_version == Some((frame@[0] & 0x3F) as u16),
            final(self).power_status == (PowerStatus {
                state: PowerState::spec_from_code((frame@[0] & 0xC0) >> 6),
                usage: PowerUsage::LegacyRaw(frame@[1]),
            }),
            forall|i: int|
                0 <= i < 256 ==> spec_remaining_at(#[trigger] final(self).table@[i])
                    <= spec_remaining_at(old(self).table@[i]),
            ({
                let id = frame@[2];
                let entry = old(self).table@[id as int];
                let adr1 = if old(self).active_data_request == Some(id) {
                    None
                } else {
                    old(self).active_data_request
                };
                &&& (id == 0 ==> (r is Heartbeat) && final(self).table@ == old(self).table@ && final(self).active_data_request == old(self).active_data_request)
                &&& (id != 0 ==> ((entry is None) ==> r == (SessionAction::UnknownRequest {
                    request_id: id,
                }) && final(self).table@ == old(self).table@ && final(self).active_data_request
                    == old(self).active_data_request))
                &&& ((id != 0 && entry is Some) ==> ({
                    let e = entry->Some_0;
                    &&& (e matches ActiveRequest::Initialize { .. } ==> r
                        == (SessionAction::InitializeDone { request_id: id }) && final(self).table@ == old(self).table@.update(id as int, None) && final(self).active_data_request == adr1)
                    &&& (e matches ActiveRequest::SetAnalogOutput { channel, state } ==> r
                        == (SessionAction::AnalogOutputConfirmed { request_id: id, channel, state })
                        && final(self).table@ == old(self).table@.update(id as int, None) && final(self).active_data_request == adr1)
                    &&& (e matches ActiveRequest::SetPulseOutput { channel, state } ==> r
                        == (SessionAction::PulseOutputConfirmed { request_id: id, channel, state })
                        && final(self).table@ == old(self).table@.update(id as int, None) && final(self).active_data_request == adr1)
                    &&& (e matches ActiveRequest::StopData ==> r == (SessionAction::SweepStopped {
                        request_id: id,
                        cancelled: adr1,
                    }) && final(self).active_data_request is None && (adr1 matches Some(did)
                        ==> final(self).table@ == old(self).table@.update(id as int, None).update(
                        did as int,
                        None,
                    )) && (adr1 is None ==> final(self).table@ == old(self).table@.update(
                        id as int,
                        None,
                    )))
                    &&& (e matches ActiveRequest::RequestData(sw) ==> {
                        let reported = frame@[3] as u32;
                        let rem2 = spec_dec(sw.remaining, reported);
                        &&& (r matches SessionAction::SweepProgress {
                            request_id,
                            samples,
                            remaining,
                            finished,
                        } ==> {
                            &&& request_id == id
                            &&& remaining == rem2
                            &&& (finished <==> rem2 == 0)
                            &&& samples@.len() == spec_legacy_sample_count(
                                sw.config.channels,
                                frame@,
                            )
                            &&& (forall|j: int|
                                0 <= j < samples@.len() ==> spec_legacy_sample_ok(
                                    sw.config.channels,
                                    frame@,
                                    j,
                                    #[trigger] samples@[j],
                                ))
                        })
                        &&& (r is SweepProgress)
                        &&& (rem2 == 0 ==> final(self).table@ == old(self).table@.update(
                            id as int,
                            None,
                        ) && final(self).active_data_request == adr1)
                        &&& (rem2 != 0 ==> (final(self).table@[id as int] matches Some(e2)
                            && e2 matches ActiveRequest::RequestData(sw2) && sw2.config
                            == sw.config && sw2.remaining == rem2 && sw2.collators
                            == sw.collators) && (forall|j: int|
                            0 <= j < 256 && j != id ==> final(self).table@[j] == old(self).table@[j]) && final(self).active_data_request == old(self).active_data_request)
                    })
                }))
            }),
    {
        let resp = StatusResponseLegacy::new(frame.as_slice());
        self.fw_version = Some(resp.fw_version as u16);
        self.power_status = PowerStatus {
            state: resp.power_state,
            usage: PowerUsage::LegacyRaw(resp.power_usage),
        };
        if resp.request_id == 0 {
            return SessionAction::Heartbeat;
        }
        let id = resp.request_id;
        let id_us = id as usize;
        let mut entry: Option<ActiveRequest> = None;
        core::mem::swap(&mut entry, &mut self.table[id_us]);
        match entry {
            None => SessionAction::UnknownRequest { request_id: id },
            Some(ActiveRequest::Initialize { .. }) => {
                self.filter_active_data_request(id);
                SessionAction::InitializeDone { request_id: id }
            },
            Some(ActiveRequest::SetAnalogOutput { channel, state }) => {
                self.filter_active_data_request(id);
                SessionAction::AnalogOutputConfirmed { request_id: id, channel, state }
            },
            Some(ActiveRequest::SetPulseOutput { channel, state }) => {
                self.filter_active_data_request(id);
                SessionAction::PulseOutputConfirmed { request_id: id, channel, state }
            },
            Some(ActiveRequest::StopData) => {
                self.filter_active_data_request(id);
                let cancelled = self.active_data_request;
                match self.active_data_request {
                    Some(did) => {
                        self.table[did as usize] = None;
                        self.active_data_request = None;
                    },
                    None => {},
                }
                SessionAction::SweepStopped { request_id: id, cancelled }
            },
            Some(ActiveRequest::RequestData(sw)) => {
                let (samples, reported) = parse_legacy_samples(&sw.config.channels, frame);
                let rem2: u32 = if reported <= sw.remaining {
                    sw.remaining - reported
                } else {
                    0
                };
                let finished = rem2 == 0;
                if finished {
                    self.filter_active_data_request(id);
                } else {
                    self.table[id_us] = Some(
                        ActiveRequest::RequestData(
                            SweepState {
                                config: sw.config,
                                remaining: rem2,
                                collators: sw.collators,
                            },
                        ),
                    );
                }
                SessionAction::SweepProgress { request_id: id, samples, remaining: rem2, finished }
            },
        }
    }
}

/// Whether encoding a command for a modern device succeeds, and with
/// which parameter error it fails: only data-sweep parameters can be
/// refused.
pub open spec fn spec_modern_encode_result(cmd: Command) -> Result<(), EncodeError> {
    match cmd {
        Command::RequestData(config) => spec_data_modern_result(config),
        _ => Ok(()),
    }
}

/// What the one frame a modern command sends must hold, before the request
/// id and opcode are stamped into bytes 0 and 1.
pub open spec fn spec_modern_frame_ok(cmd: Command, f: Seq<u8>) -> bool {
    match cmd {
        Command::Initialize { power_on } => spec_init_modern_filled(spec_zero64(), f, power_on),
        Command::SetAnalogOutput { channel, state, frequency_bits, amplitude_bits } => {
            spec_ax_modern_filled(
                spec_zero64(),
                f,
                channel as int,
                state,
                frequency_bits,
                amplitude_bits,
            )
        },
        Command::SetPulseOutput { channel, state, frequency_bits, duty_bits } => {
            spec_px_modern_filled(
                spec_zero64(),
                f,
                channel as int,
                state,
                frequency_bits,
                duty_bits,
            )
        },
        Command::RequestData(config) => spec_data_modern_filled(spec_zero64(), f, config),
        Command::StopData => f == spec_zero64(),
        Command::Quit => false,
    }
}

/// The budget left after `n` more samples were collated: it never rises
/// and never sinks below zero.
pub open spec fn spec_dec_int(remaining: u32, n: int) -> u32 {
    if n >= remaining {
        0u32
    } else {
        (remaining - n) as u32
    }
}

impl Session {
    /// Frames one command for a modern device and books it as the single
    /// outstanding control request: the next request id and the command's
    /// opcode are stamped into the frame header, and the command waits in
    /// the control slot, a data request with its full budget. A command
    /// whose parameters the codec refuses is dropped: nothing is sent,
    /// nothing is booked, the id is not spent, and the error is handed
    /// back.
    pub fn prepare_modern(&mut self, cmd: Command) -> (r: Result<([u8; 64], u8), EncodeError>)
        requires
            old(self).wf(),
            old(self).generation is Modern,
            !old(self).stopped,
            !(cmd is Quit),
            spec_command_ok(cmd),
            old(self).active_comms is None,
        ensures
            final(self).wf(),
            r is Ok <==> spec_modern_encode_result(cmd) is Ok,
            r is Err ==> r->Err_0 == spec_modern_encode_result(cmd)->Err_0 && *final(self) == *old(self),
            r is Ok ==> ({
                let frame = r->Ok_0.0;
                let id = r->Ok_0.1;
                &&& id == spec_next_id(old(self).request_id)
                &&& id != 0
                &&& final(self).request_id == id
                &&& frame@[0] == id
                &&& frame@[1] == cmd.spec_id_byte()
                &&& spec_modern_frame_ok(cmd, frame@.update(0, 0u8).update(1, 0u8))
                &&& (final(self).active_comms matches Some(p) && p.0 == id && spec_entry_for(
                    cmd,
                    p.1,
                ))
                &&& final(self).table@ == old(self).table@
                &&& final(self).active_data_request == old(self).active_data_request
                &&& final(self).active_data == old(self).active_data
                &&& final(self).generation == old(self).generation
                &&& final(self).stopped == old(self).stopped
                &&& final(self).fw_version == old(self).fw_version
                &&& final(self).power_status == old(self).power_status
            }),
    {
        let mut frame: [u8; 64] = [0; 64];
        let entry: ActiveRequest = match &cmd {
            Command::Quit => {
                return Err(EncodeError::NoChannelsOn);
            },
            Command::Initialize { power_on } => {
                fill_init_frame_modern(*power_on, &mut frame);
                ActiveRequest::Initialize { power_on: *power_on }
            },
            Command::SetAnalogOutput { channel, state, frequency_bits, amplitude_bits } => {
                fill_ax_frame_modern(*channel, state, *frequency_bits, *amplitude_bits, &mut frame);
                ActiveRequest::SetAnalogOutput { channel: *channel, state: *state }
            },
            Command::SetPulseOutput { channel, state, frequency_bits, duty_bits } => {
                fill_px_frame_modern(*channel, state, *frequency_bits, *duty_bits, &mut frame);
                ActiveRequest::SetPulseOutput { channel: *channel, state: *state }
            },
            Command::RequestData(config) => {
                match fill_data_frame_modern(config, &mut frame) {
                    Ok(()) => {},
                    Err(e) => {
                        return Err(e);
                    },
                }
                ActiveRequest::RequestData(
                    SweepState {
                        config: *config,
                        remaining: config.total_samples,
                        collators: Collators::new(),
                    },
                )
            },
            Command::StopData => ActiveRequest::StopData,
        };

        let ghost filled = frame@;
        let id: u8 = self.alloc_request_id();
        frame[0] = id;
        let opcode = cmd.id_byte();
        frame[1] = opcode;
        proof {
            assert(frame@.update(0, 0u8).update(1, 0u8) =~= filled);
            if cmd is StopData {
                assert(filled =~= spec_zero64());
            }
        }
        self.active_comms = Some((id, entry));
        Ok((frame, id))
    }

    /// Decodes one modern status frame and applies it: the shared firmware
    /// version and power status are always refreshed; then, unless the
    /// frame is a pure heartbeat, it is matched against the single
    /// outstanding control request -- a confirmation releases its handle,
    /// an accepted data request becomes the running sweep, and a stop
    /// acknowledgment voids it. A reply while nothing is outstanding is
    /// reported and discarded; one for a different id is ignored.
    pub fn process_status_modern(&mut self, frame: &[u8; 64]) -> (r: SessionAction)
        requires
            old(self).wf(),
            old(self).generation is Modern,
            !old(self).stopped,
        ensures
            final(self).wf(),
            final(self).generation == old(self).generation,
            final(self).request_id == old(self).request_id,
            final(self).stopped == old(self).stopped,
            final(self).table@ == old(self).table@,
            final(self).active_data_request == old(self).active_data_request,
            final(self).fw_version == Some(crate::responses::spec_u16_at(frame@, 1)),
            final(self).power_status == (PowerStatus {
                state: PowerState::spec_from_code(frame@[3]),
                usage: PowerUsage::ModernBits(crate::responses::spec_u32_at(frame@, 4)),
            }),
            ({
                let id = frame@[0];
                let comms = old(self).active_comms;
                &&& (id == 0 ==> (r is Heartbeat) && final(self).active_comms == comms && final(self).active_data == old(self).active_data)
                &&& ((id != 0 && comms is None) ==> r == (SessionAction::UnknownRequest {
                    request_id: id,
                }) && final(self).active_comms == comms && final(self).active_data == old(self).active_data)
                &&& ((id != 0 && comms is Some) ==> ({
                    let cid = comms->Some_0.0;
                    let e = comms->Some_0.1;
                    &&& (cid != id ==> (r is Ignored) && final(self).active_comms == comms
                        && final(self).active_data == old(self).active_data)
                    &&& (cid == id ==> {
                        &&& (e matches ActiveRequest::Initialize { .. } ==> r
                            == (SessionAction::InitializeDone { request_id: id }) && final(self).active_comms is None && final(self).active_data == old(self).active_data)
                        &&& (e matches ActiveRequest::SetAnalogOutput { channel, state } ==> r
                            == (SessionAction::AnalogOutputConfirmed {
                            request_id: id,
                            channel,
                            state,
                        }) && final(self).active_comms is None && final(self).active_data == old(self).active_data)
                        &&& (e matches ActiveRequest::SetPulseOutput { channel, state } ==> r
                            == (SessionAction::PulseOutputConfirmed {
                            request_id: id,
                            channel,
                            state,
                        }) && final(self).active_comms is None && final(self).active_data == old(self).active_data)
                        &&& (e matches ActiveRequest::StopData ==> ({
                            let cancelled = match old(self).active_data {
                                Some(p) => Some(p.0),
                                None => None,
                            };
                            r == (SessionAction::SweepStopped { request_id: id, cancelled })
                                && final(self).active_comms is None && final(self).active_data is None
                        }))
                        &&& (e matches ActiveRequest::RequestData(sw) ==> r
                            == (SessionAction::SweepStarted { request_id: id }) && final(self).active_comms is None && (final(self).active_data matches Some(p) && p.0
                            == id && p.1 == sw))
                    })
                }))
            }),
    {
        let resp = StatusResponse::new(frame.as_slice());
        self.fw_version = Some(resp.fw_version);
        self.power_status = PowerStatus {
            state: resp.power_state,
            usage: PowerUsage::ModernBits(resp.power_usage_bits),
        };
        if resp.request_id == 0 {
            return SessionAction::Heartbeat;
        }
        let id = resp.request_id;
        let mut comms: Option<(u8, ActiveRequest)> = None;
        core::mem::swap(&mut comms, &mut self.active_comms);
        match comms {
            None => SessionAction::UnknownRequest { request_id: id },
            Some((cid, e)) => {
                if cid != id {
                    self.active_comms = Some((cid, e));
                    return SessionAction::Ignored;
                }
                match e {
                    ActiveRequest::Initialize { .. } => SessionAction::InitializeDone {
                        request_id: id,
                    },
                    ActiveRequest::SetAnalogOutput { channel, state } => {
                        SessionAction::AnalogOutputConfirmed { request_id: id, channel, state }
                    },
                    ActiveRequest::SetPulseOutput { channel, state } => {
                        SessionAction::PulseOutputConfirmed { request_id: id, channel, state }
                    },
                    ActiveRequest::StopData => {
                        let cancelled: Option<u8> = match &self.active_data {
                            Some(p) => Some(p.0),
                            None => None,
                        };
                        self.active_data = None;
                        SessionAction::SweepStopped { request_id: id, cancelled }
                    },
                    ActiveRequest::RequestData(sw) => {
                        self.active_data = Some((id, sw));
                        SessionAction::SweepStarted { request_id: id }
                    },
                }
            },
        }
    }

    /// Feeds one frame from a channel's dedicated data endpoint into the
    /// running sweep: when the frame belongs to the sweep -- the channel is
    /// active and the frame's header names the sweep's request id -- its
    /// readings join that channel's reassembly buffer, and the caller is
    /// told whether anything arrived. A stray frame changes nothing.
    pub fn process_channel_frame_modern(&mut self, ch: usize, frame: &[u8; 64]) -> (r: bool)
        requires
            old(self).wf(),
            old(self).generation is Modern,
            !old(self).stopped,
            ch < 4,
        ensures
            final(self).wf(),
            final(self).generation == old(self).generation,
            final(self).request_id == old(self).request_id,
            final(self).stopped == old(self).stopped,
            final(self).table@ == old(self).table@,
            final(self).active_data_request == old(self).active_data_request,
            final(self).active_comms == old(self).active_comms,
            final(self).fw_version == old(self).fw_version,
            final(self).power_status == old(self).power_status,
            ({
                let accept = {
                    &&& old(self).active_data matches Some(p)
                    &&& p.1.config.channels[ch as int].is_on
                    &&& frame@[0] == p.0
                };
                &&& r == accept
                &&& (!accept ==> final(self).active_data == old(self).active_data)
                &&& (accept ==> ({
                    let p = old(self).active_data->Some_0;
                    &&& (final(self).active_data matches Some(p2) && p2.0 == p.0 && p2.1.config
                        == p.1.config && p2.1.remaining == p.1.remaining && (forall|i: int|
                        0 <= i < 4 ==> p2.1.collators.at(i) == (if i == ch {
                            p.1.collators.at(i) + spec_channel_readings(frame@)
                        } else {
                            p.1.collators.at(i)
                        })))
                }))
            }),
    {
        let mut data: Option<(u8, SweepState)> = None;
        core::mem::swap(&mut data, &mut self.active_data);
        match data {
            None => false,
            Some((did, mut sw)) => {
                let on = sw.config.channels[ch].is_on;
                let fid = frame[0];
                if on && fid == did {
                    if ch == 0 {
                        append_channel_data(&mut sw.collators.ch0, frame);
                    } else if ch == 1 {
                        append_channel_data(&mut sw.collators.ch1, frame);
                    } else if ch == 2 {
                        append_channel_data(&mut sw.collators.ch2, frame);
                    } else {
                        append_channel_data(&mut sw.collators.ch3, frame);
                    }
                    self.active_data = Some((did, sw));
                    true
                } else {
                    self.active_data = Some((did, sw));
                    false
                }
            },
        }
    }

    /// Collates the running sweep's reassembly buffers into aligned
    /// samples and charges them against its budget, which never rises.
    /// When the budget reaches zero the sweep is over and leaves the
    /// session; leftover readings of a sweep that goes on are kept for the
    /// next cycle. Without a running sweep there is nothing to do.
    pub fn collate_modern(&mut self) -> (r: SessionAction)
        requires
            old(self).wf(),
            old(self).generation is Modern,
            !old(self).stopped,
        ensures
            final(self).wf(),
            final(self).generation == old(self).generation,
            final(self).request_id == old(self).request_id,
            final(self).stopped == old(self).stopped,
            final(self).table@ == old(self).table@,
            final(self).active_data_request == old(self).active_data_request,
            final(self).active_comms == old(self).active_comms,
            final(self).fw_version == old(self).fw_version,
            final(self).power_status == old(self).power_status,
            old(self).active_data is None ==> (r is Ignored) && final(self).active_data == old(self).active_data,
            old(self).active_data matches Some(p) ==> ({
                let did = p.0;
                let sw = p.1;
                let m = spec_complete_samples(sw.config.channels, sw.collators);
                let rem2 = spec_dec_int(sw.remaining, m);
                &&& (r matches SessionAction::SweepProgress {
                    request_id,
                    samples,
                    remaining,
                    finished,
                } ==> {
                    &&& request_id == did
                    &&& remaining == rem2
                    &&& (finished <==> rem2 == 0)
                    &&& samples@.len() == m
                    &&& (forall|j: int|
                        0 <= j < samples@.len() ==> spec_collated_sample_ok(
                            sw.config.channels,
                            sw.collators,
                            j,
                            #[trigger] samples@[j],
                        ))
                })
                &&& (r is SweepProgress)
                &&& rem2 <= sw.remaining
                &&& (rem2 == 0 ==> final(self).active_data is None)
                &&& (rem2 != 0 ==> (final(self).active_data matches Some(p2) && p2.0 == did
                    && p2.1.config == sw.config && p2.1.remaining == rem2 && (forall|i: int|
                    0 <= i < 4 ==> p2.1.collators.at(i) == (if sw.config.channels[i].is_on {
                        sw.collators.at(i).skip(m)
                    } else {
                        sw.collators.at(i)
                    }))))
            }),
    {
        let mut data: Option<(u8, SweepState)> = None;
        core::mem::swap(&mut data, &mut self.active_data);
        match data {
            None => SessionAction::Ignored,
            Some((did, mut sw)) => {
                let samples = collate_samples(&sw.config.channels, &mut sw.collators);
                let m: usize = samples.len();
                let rem2: u32 = if m >= (sw.remaining as usize) {
                    0
                } else {
                    (sw.remaining - (m as u32)) as u32
                };
                let finished = rem2 == 0;
                if !finished {
                    self.active_data = Some(
                        (did, SweepState { config: sw.config, remaining: rem2, collators: sw.collators }),
                    );
                }
                SessionAction::SweepProgress { request_id: did, samples, remaining: rem2, finished }
            },
        }
    }
}

} // verus!