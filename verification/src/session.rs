//! One session with the radio: the frames that bring its two channels up and
//! take them down, and the merging of what the radio sends into the live
//! telemetry. The caller moves the bytes: it writes the frames, in order and
//! with a pause after each, and hands over what it reads.

use vstd::prelude::*;
use vstd::slice::slice_subrange;
use crate::ant::channel::{
    spec_parse_message, AntChannel, ChannelDescriptor, MESG_BROADCAST_DATA,
};
use crate::ant::fec::{lemma_merge_decoded, merge_payload, FecParser, PAGE_GENERAL_FE_DATA};
use crate::ant::hrm::{spec_heart_rate, HrmParser};
use crate::ant::TrainerData;

verus! {

/// The channel of the trainer.
pub const FEC_CHANNEL_NUMBER: u8 = 0;

/// The channel of the heart-rate strap.
pub const HRM_CHANNEL_NUMBER: u8 = 1;

/// Milliseconds to wait after each configuration frame, for the radio to
/// acknowledge it.
pub const INTER_FRAME_DELAY_MS: u64 = 50;

/// Bytes of a broadcast payload: the channel number and a page of eight.
pub const BROADCAST_PAYLOAD_LEN: usize = 9;

/// A channel that searches for any device.
pub open spec fn wildcard(channel_number: u8) -> ChannelDescriptor {
    ChannelDescriptor { channel_number, network_number: 0, device_number: 0, transmission_type: 0 }
}

/// The frames that bring a session up: the trainer's channel with reset and
/// network key first, then the strap's channel.
pub open spec fn spec_connect_frames() -> Seq<Seq<u8>> {
    wildcard(FEC_CHANNEL_NUMBER).init_sequence() + wildcard(HRM_CHANNEL_NUMBER).hrm_init_sequence()
}

/// The telemetry after a read of `buffer` from the radio. A broadcast frame
/// of the trainer's channel merges its page; one of the strap's channel
/// sets the heart rate where it carries one. Anything else changes nothing:
/// no frame, another message, another channel, a payload under nine bytes.
pub open spec fn spec_merge_frame(data: TrainerData, buffer: Seq<u8>) -> TrainerData {
    match spec_parse_message(buffer) {
        Some((msg_id, channel, payload)) => {
            if msg_id != MESG_BROADCAST_DATA || payload.len() < BROADCAST_PAYLOAD_LEN {
                data
            } else if channel == FEC_CHANNEL_NUMBER {
                merge_payload(data, payload.subrange(1, 9))
            } else if channel == HRM_CHANNEL_NUMBER {
                match spec_heart_rate(payload.subrange(1, 9)) {
                    Some(heart_rate) => TrainerData { heart_rate, ..data },
                    None => data,
                }
            } else {
                data
            }
        },
        None => data,
    }
}

/// Merges what was read from the radio into the telemetry.
pub fn merge_frame(data: &mut TrainerData, buffer: &[u8])
    ensures
        *final(data) == spec_merge_frame(*old(data), buffer@),
{
    if let Some((msg_id, channel, payload)) = AntChannel::parse_message(buffer) {
        if msg_id == MESG_BROADCAST_DATA && payload.len() >= BROADCAST_PAYLOAD_LEN {
            let page_bytes: &[u8] = slice_subrange(payload.as_slice(), 1, 9);
            if channel == FEC_CHANNEL_NUMBER {
                if let Some(page) = FecParser::parse_data_page(page_bytes) {
                    proof {
                        lemma_merge_decoded(page, page_bytes@, None, *data);
                    }
                    FecParser::update_trainer_data(data, &page);
                }
            } else if channel == HRM_CHANNEL_NUMBER {
                if let Some(heart_rate) = HrmParser::parse_heart_rate(page_bytes) {
                    data.heart_rate = heart_rate;
                }
            }
        }
    }
}

/// A frame of the trainer's channel leaves the heart rate as it was, unless
/// it is a page 16 that carries one.
pub proof fn lemma_trainer_keeps_heart_rate(data: TrainerData, buffer: Seq<u8>)
    requires
        spec_parse_message(buffer) matches Some((_, channel, payload)) && channel
            == FEC_CHANNEL_NUMBER && (payload.len() >= BROADCAST_PAYLOAD_LEN ==> payload[1]
            != PAGE_GENERAL_FE_DATA || payload[7] == 0xFF),
    ensures
        spec_merge_frame(data, buffer).heart_rate == data.heart_rate,
{
}

/// A frame of the strap's channel leaves power, speed and cadence as they
/// were.
pub proof fn lemma_strap_sets_heart_rate_only(data: TrainerData, buffer: Seq<u8>)
    requires
        spec_parse_message(buffer) matches Some((_, channel, _)) && channel == HRM_CHANNEL_NUMBER,
    ensures
        spec_merge_frame(data, buffer).power == data.power,
        spec_merge_frame(data, buffer).speed == data.speed,
        spec_merge_frame(data, buffer).cadence == data.cadence,
{
}

/// Where a session stands.
#[derive(Clone, Copy, Debug)]
pub enum LinkPhase {
    /// No channel is up.
    Disconnected,
    /// The channels are being brought up: this many frames of
    /// `connect_frames` are written.
    BringingUp(usize),
    /// Both channels are up.
    Connected,
}

/// The state of a session.
pub struct SessionState {
    pub trainer_data: TrainerData,
    pub phase: LinkPhase,
}

/// The frame to write next: the first of the bring-up that is not written
/// yet. There is none outside a bring-up.
pub open spec fn spec_next_frame(state: SessionState) -> Option<Seq<u8>> {
    match state.phase {
        LinkPhase::BringingUp(written) if written < spec_connect_frames().len() => Some(
            spec_connect_frames()[written as int],
        ),
        _ => None,
    }
}

/// The state once the next frame is written and the radio had its time to
/// acknowledge it: one frame further, and connected after the last. Outside
/// a bring-up nothing changes.
pub open spec fn spec_frame_written(state: SessionState) -> SessionState {
    match state.phase {
        LinkPhase::BringingUp(written) => SessionState {
            phase: if written + 1 >= spec_connect_frames().len() {
                LinkPhase::Connected
            } else {
                LinkPhase::BringingUp((written + 1) as usize)
            },
            ..state
        },
        _ => state,
    }
}

/// The state after `count` frames of a bring-up are written.
pub open spec fn spec_frames_written(state: SessionState, count: nat) -> SessionState
    decreases count,
{
    if count == 0 {
        state
    } else {
        spec_frame_written(spec_frames_written(state, (count - 1) as nat))
    }
}

/// The frames that take a session down: a close for each channel, the
/// trainer's first, where the channels are up.
pub open spec fn spec_disconnect_frames(state: SessionState) -> Seq<Seq<u8>> {
    match state.phase {
        LinkPhase::Connected => seq![
            wildcard(FEC_CHANNEL_NUMBER).close_channel(),
            wildcard(HRM_CHANNEL_NUMBER).close_channel(),
        ],
        _ => Seq::empty(),
    }
}

/// A bring-up hands out the frames of `connect_frames` in order, one for
/// each frame written, and ends connected when the last is written, not
/// before.
pub proof fn lemma_bring_up_in_order(state: SessionState, count: nat)
    requires
        state.phase == LinkPhase::BringingUp(0),
        count <= spec_connect_frames().len(),
    ensures
        spec_connect_frames().len() == 12,
        spec_frames_written(state, count).trainer_data == state.trainer_data,
        count < 12 ==> spec_frames_written(state, count).phase == LinkPhase::BringingUp(
            count as usize,
        ) && spec_next_frame(spec_frames_written(state, count)) == Some(
            spec_connect_frames()[count as int],
        ),
        count == 12 ==> spec_frames_written(state, count).phase == LinkPhase::Connected,
    decreases count,
{
    if count > 0 {
        lemma_bring_up_in_order(state, (count - 1) as nat);
    }
}

/// A session with the radio: the live telemetry and the phase of the link.
pub struct AntSession {
    trainer_data: TrainerData,
    phase: LinkPhase,
}

impl View for AntSession {
    type V = SessionState;

    closed spec fn view(&self) -> SessionState {
        SessionState { trainer_data: self.trainer_data, phase: self.phase }
    }
}

impl AntSession {
    /// A session that is not connected, its telemetry at rest.
    pub fn new() -> (session: Self)
        ensures
            session@ == (SessionState {
                trainer_data: TrainerData { power: 0, speed: 0, cadence: 0, heart_rate: 0 },
                phase: LinkPhase::Disconnected,
            }),
    {
        Self { trainer_data: TrainerData::new(0, 0, 0, 0), phase: LinkPhase::Disconnected }
    }

    /// The frames that bring a session up, in the order in which they are
    /// written.
    pub fn connect_frames() -> (frames: Vec<Vec<u8>>)
        ensures
            frames.deep_view() == spec_connect_frames(),
    {
        let mut frames: Vec<Vec<u8>> = AntChannel::new(FEC_CHANNEL_NUMBER).get_init_sequence();
        let mut more: Vec<Vec<u8>> = AntChannel::new(HRM_CHANNEL_NUMBER).get_hrm_init_sequence();
        let ghost first = frames.deep_view();
        let ghost second = more.deep_view();
        frames.append(&mut more);
        assert(frames.deep_view() =~~= first + second);
        frames
    }

    /// Begins a bring-up, once the transport is open: no frame is written
    /// yet.
    pub fn begin_connect(&mut self)
        ensures
            final(self)@ == (SessionState { phase: LinkPhase::BringingUp(0), ..old(self)@ }),
    {
        self.phase = LinkPhase::BringingUp(0);
    }

    /// The frame to write next in a bring-up; `None` outside one.
    pub fn next_frame(&self) -> (frame: Option<Vec<u8>>)
        ensures
            match frame {
                Some(bytes) => spec_next_frame(self@) == Some(bytes@),
                None => spec_next_frame(self@) is None,
            },
    {
        match self.phase {
            LinkPhase::BringingUp(written) => {
                let mut frames: Vec<Vec<u8>> = Self::connect_frames();
                if written < frames.len() {
                    let ghost all = frames.deep_view();
                    let frame: Vec<u8> = frames.remove(written);
                    assert(frame@ == all[written as int]);
                    Some(frame)
                } else {
                    None
                }
            },
            _ => None,
        }
    }

    /// Records that the frame of `next_frame` was written and the
    /// inter-frame delay has passed.
    pub fn frame_written(&mut self)
        ensures
            final(self)@ == spec_frame_written(old(self)@),
    {
        if let LinkPhase::BringingUp(written) = self.phase {
            let frames: usize = Self::connect_frames().len();
            assert(frames == spec_connect_frames().len());
            self.phase = if written >= frames - 1 {
                LinkPhase::Connected
            } else {
                LinkPhase::BringingUp(written + 1)
            };
        }
    }

    /// Records that the transport failed: the session is not connected.
    pub fn transport_failed(&mut self)
        ensures
            final(self)@ == (SessionState { phase: LinkPhase::Disconnected, ..old(self)@ }),
    {
        self.phase = LinkPhase::Disconnected;
    }

    /// Ends the session and gives the frames to write to close its
    /// channels.
    pub fn disconnect(&mut self) -> (frames: Vec<Vec<u8>>)
        ensures
            frames.deep_view() == spec_disconnect_frames(old(self)@),
            final(self)@ == (SessionState { phase: LinkPhase::Disconnected, ..old(self)@ }),
    {
        let mut frames: Vec<Vec<u8>> = Vec::new();
        if let LinkPhase::Connected = self.phase {
            frames.push(AntChannel::new(FEC_CHANNEL_NUMBER).close_channel());
            frames.push(AntChannel::new(HRM_CHANNEL_NUMBER).close_channel());
        }
        assert(frames.deep_view() =~~= spec_disconnect_frames(self@));
        self.phase = LinkPhase::Disconnected;
        frames
    }

    /// Whether both channels are up.
    pub fn is_connected(&self) -> (connected: bool)
        ensures
            connected == (self@.phase is Connected),
    {
        match self.phase {
            LinkPhase::Connected => true,
            _ => false,
        }
    }

    /// The live telemetry.
    pub fn get_trainer_data(&self) -> (data: TrainerData)
        ensures
            data == self@.trainer_data,
    {
        self.trainer_data
    }

    /// Takes what one read from the radio gave, the empty buffer where the
    /// read timed out, and answers the telemetry after it. A session that is
    /// not connected takes nothing and answers `None`.
    pub fn poll_trainer_data(&mut self, buffer: &[u8]) -> (data: Option<TrainerData>)
        ensures
            final(self)@ == (SessionState {
                trainer_data: if old(self)@.phase is Connected {
                    spec_merge_frame(old(self)@.trainer_data, buffer@)
                } else {
                    old(self)@.trainer_data
                },
                ..old(self)@
            }),
            data == if old(self)@.phase is Connected {
                Some(final(self)@.trainer_data)
            } else {
                None
            },
    {
        if !self.is_connected() {
            return None;
        }
        if buffer.len() == 0 {
            proof {
                lemma_no_frame_in_nothing(self.trainer_data, buffer@);
            }
            return Some(self.trainer_data);
        }
        merge_frame(&mut self.trainer_data, buffer);
        Some(self.trainer_data)
    }
}

/// An empty read changes nothing.
pub proof fn lemma_no_frame_in_nothing(data: TrainerData, buffer: Seq<u8>)
    requires
        buffer.len() == 0,
    ensures
        spec_merge_frame(data, buffer) == data,
{
    assert(buffer.skip(0) =~= buffer);
}

} // verus!
