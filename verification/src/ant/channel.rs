//! The ANT message codec and the configuration frames that bring a slave
//! channel up.
//!
//! A frame is `[SYNC][LEN][MSG_ID][payload..][CHECKSUM]`: `LEN` counts the
//! payload bytes, and the checksum is the XOR of every byte before it.

use vstd::prelude::*;
use vstd::slice::slice_subrange;
use crate::bytes::{append_bytes, copy_bytes, le16, u16_bytes};

verus! {

// Messages from the host to the radio.
pub const MESG_BROADCAST_DATA: u8 = 0x4E;

pub const MESG_CHANNEL_ID: u8 = 0x51;

pub const MESG_CHANNEL_FREQUENCY: u8 = 0x45;

pub const MESG_CHANNEL_PERIOD: u8 = 0x43;

pub const MESG_NETWORK_KEY: u8 = 0x46;

pub const MESG_ASSIGN_CHANNEL: u8 = 0x42;

pub const MESG_OPEN_CHANNEL: u8 = 0x4B;

pub const MESG_CLOSE_CHANNEL: u8 = 0x4C;

pub const MESG_SYSTEM_RESET: u8 = 0x4A;

pub const MESG_REQUEST_MESSAGE: u8 = 0x4D;

// Messages from the radio to the host.
pub const MESG_RESPONSE_EVENT: u8 = 0x40;

pub const MESG_CHANNEL_STATUS: u8 = 0x52;

pub const MESG_CAPABILITIES: u8 = 0x54;

/// Offset of the ANT+ band above 2400 MHz.
pub const ANT_PLUS_RF_FREQUENCY: u8 = 57;

/// Device type of fitness equipment.
pub const FEC_DEVICE_TYPE: u8 = 17;

/// Channel period of fitness equipment, in 1/32768 s: four messages a second.
pub const FEC_CHANNEL_PERIOD: u16 = 8192;

/// Device type of a heart-rate monitor.
pub const HRM_DEVICE_TYPE: u8 = 120;

/// Channel period of a heart-rate monitor, in 1/32768 s.
pub const HRM_CHANNEL_PERIOD: u16 = 8070;

pub const CHANNEL_TYPE_SLAVE: u8 = 0x00;

pub const CHANNEL_TYPE_MASTER: u8 = 0x10;

// Codes of a response or event message.
pub const RESPONSE_NO_ERROR: u8 = 0x00;

pub const EVENT_RX_SEARCH_TIMEOUT: u8 = 0x01;

pub const EVENT_RX_FAIL: u8 = 0x02;

pub const EVENT_TX: u8 = 0x03;

pub const EVENT_TRANSFER_RX_FAILED: u8 = 0x04;

pub const EVENT_TRANSFER_TX_COMPLETED: u8 = 0x05;

pub const EVENT_TRANSFER_TX_FAILED: u8 = 0x06;

pub const EVENT_CHANNEL_CLOSED: u8 = 0x07;

pub const EVENT_RX_FAIL_GO_TO_SEARCH: u8 = 0x08;

pub const EVENT_CHANNEL_COLLISION: u8 = 0x09;

/// The byte that starts every frame.
pub const ANT_SYNC_BYTE: u8 = 0xA4;

/// The public network key that all ANT+ devices share.
pub open spec fn network_key() -> Seq<u8> {
    seq![0xB9u8, 0xA5u8, 0x21u8, 0xFBu8, 0xBDu8, 0x72u8, 0xC3u8, 0x45u8]
}

/// The XOR of all bytes of a sequence.
pub open spec fn xor_fold(bytes: Seq<u8>) -> u8
    decreases bytes.len(),
{
    if bytes.len() == 0 {
        0
    } else {
        xor_fold(bytes.drop_last()) ^ bytes.last()
    }
}

/// A frame without its checksum.
pub open spec fn frame_head(msg_id: u8, payload: Seq<u8>) -> Seq<u8> {
    seq![ANT_SYNC_BYTE, (payload.len() % 256) as u8, msg_id] + payload
}

/// The frame that carries `payload` under `msg_id`. The length byte holds
/// the payload length modulo 256.
pub open spec fn frame(msg_id: u8, payload: Seq<u8>) -> Seq<u8> {
    frame_head(msg_id, payload).push(xor_fold(frame_head(msg_id, payload)))
}

/// The number of bytes before the first sync byte; the length of the buffer
/// where it holds none.
pub open spec fn sync_offset(buffer: Seq<u8>) -> nat
    decreases buffer.len(),
{
    if buffer.len() == 0 || buffer[0] == ANT_SYNC_BYTE {
        0
    } else {
        1 + sync_offset(buffer.drop_first())
    }
}

/// What a window that starts with a sync byte decodes to: message id,
/// channel and payload, where the window is long enough for its length byte
/// and its checksum holds. The channel is the first payload byte, or 0 for
/// an empty payload.
pub open spec fn parse_window(window: Seq<u8>) -> Option<(u8, u8, Seq<u8>)> {
    if window.len() < 4 {
        None
    } else if window.len() < 4 + window[1] {
        None
    } else if xor_fold(window.take(3 + window[1])) != window[3 + window[1]] {
        None
    } else {
        Some(
            (
                window[2],
                if window[1] > 0 {
                    window[3]
                } else {
                    0
                },
                window.subrange(3, 3 + window[1]),
            ),
        )
    }
}

/// What a buffer decodes to: the window from its first sync byte on.
pub open spec fn spec_parse_message(buffer: Seq<u8>) -> Option<(u8, u8, Seq<u8>)> {
    parse_window(buffer.skip(sync_offset(buffer) as int))
}

/// The first sync byte stands where no byte before it is one.
pub proof fn lemma_sync_offset(buffer: Seq<u8>, at: int)
    requires
        0 <= at <= buffer.len(),
        forall|j: int| 0 <= j < at ==> buffer[j] != ANT_SYNC_BYTE,
        at == buffer.len() || buffer[at] == ANT_SYNC_BYTE,
    ensures
        sync_offset(buffer) == at,
    decreases at,
{
    if at > 0 {
        let rest = buffer.drop_first();
        assert forall|j: int| 0 <= j < at - 1 implies rest[j] != ANT_SYNC_BYTE by {
            assert(rest[j] == buffer[j + 1]);
        }
        lemma_sync_offset(rest, at - 1);
    }
}

/// The offset of the first sync byte is within the buffer, no byte before it
/// is a sync byte, and the byte at it is one unless the buffer holds none.
pub proof fn lemma_sync_offset_first(buffer: Seq<u8>)
    ensures
        sync_offset(buffer) <= buffer.len(),
        forall|j: int| 0 <= j < sync_offset(buffer) ==> buffer[j] != ANT_SYNC_BYTE,
        sync_offset(buffer) < buffer.len() ==> buffer[sync_offset(buffer) as int] == ANT_SYNC_BYTE,
    decreases buffer.len(),
{
    if buffer.len() == 0 || buffer[0] == ANT_SYNC_BYTE {
    } else {
        let rest = buffer.drop_first();
        lemma_sync_offset_first(rest);
        assert forall|j: int| 0 <= j < sync_offset(buffer) implies buffer[j] != ANT_SYNC_BYTE by {
            if j > 0 {
                assert(buffer[j] == rest[j - 1]);
            }
        }
        if sync_offset(buffer) < buffer.len() {
            assert(buffer[sync_offset(buffer) as int] == rest[sync_offset(rest) as int]);
        }
    }
}

/// Round trip: a frame built from a payload of at most 255 bytes decodes to
/// its message id, its first payload byte as the channel (0 for an empty
/// payload) and the payload.
pub proof fn lemma_build_then_parse(msg_id: u8, payload: Seq<u8>)
    requires
        payload.len() <= 255,
    ensures
        spec_parse_message(frame(msg_id, payload)) == Some(
            (
                msg_id,
                if payload.len() > 0 {
                    payload[0]
                } else {
                    0u8
                },
                payload,
            ),
        ),
{
    let head = frame_head(msg_id, payload);
    let built = frame(msg_id, payload);
    assert(sync_offset(built) == 0);
    assert(built.skip(0) =~= built);
    assert(built[1] == payload.len());
    assert(built.take(3 + payload.len() as int) =~= head);
    assert(built.subrange(3, 3 + payload.len() as int) =~= payload);
}

/// Sync recovery: bytes before a buffer that hold no sync byte do not
/// change what the buffer decodes to.
pub proof fn lemma_junk_prefix_skipped(junk: Seq<u8>, buffer: Seq<u8>)
    requires
        forall|j: int| 0 <= j < junk.len() ==> junk[j] != ANT_SYNC_BYTE,
    ensures
        spec_parse_message(junk + buffer) == spec_parse_message(buffer),
{
    let whole = junk + buffer;
    let at = junk.len() + sync_offset(buffer);
    lemma_sync_offset_first(buffer);
    assert forall|j: int| 0 <= j < at implies whole[j] != ANT_SYNC_BYTE by {
        if j >= junk.len() {
            assert(whole[j] == buffer[j - junk.len()]);
        }
    }
    if at < whole.len() {
        assert(whole[at as int] == buffer[sync_offset(buffer) as int]);
    }
    lemma_sync_offset(whole, at as int);
    assert(whole.skip(at as int) =~= buffer.skip(sync_offset(buffer) as int));
}

/// Where the bytes before a buffer hold a sync byte, the first of them
/// decides what is decoded: the window from it on, the buffer included.
pub proof fn lemma_first_sync_decides(junk: Seq<u8>, buffer: Seq<u8>)
    requires
        exists|j: int| 0 <= j < junk.len() && junk[j] == ANT_SYNC_BYTE,
    ensures
        sync_offset(junk) < junk.len(),
        spec_parse_message(junk + buffer) == parse_window(
            junk.skip(sync_offset(junk) as int) + buffer,
        ),
{
    let whole = junk + buffer;
    let at = sync_offset(junk) as int;
    lemma_sync_offset_first(junk);
    assert(at < junk.len()) by {
        let j = choose|j: int| 0 <= j < junk.len() && junk[j] == ANT_SYNC_BYTE;
        assert(junk[j] == ANT_SYNC_BYTE);
    }
    assert forall|j: int| 0 <= j < at implies whole[j] != ANT_SYNC_BYTE by {
        assert(whole[j] == junk[j]);
    }
    assert(whole[at] == junk[at]);
    lemma_sync_offset(whole, at);
    assert(whole.skip(at) =~= junk.skip(at) + buffer);
}

/// XOR can be reordered, undoes itself, and changes a byte unless it is by
/// zero.
proof fn lemma_xor_algebra(a: u8, b: u8, c: u8)
    by (bit_vector)
    ensures
        (a ^ b) ^ c == (a ^ c) ^ b,
        (a ^ b) ^ b == a,
        (a ^ b) ^ (b ^ c) == a ^ c,
        a ^ b == a ==> b == 0,
{
}

/// A single bit of a byte is not zero.
proof fn lemma_bit_mask(bit: u8)
    by (bit_vector)
    requires
        bit < 8,
    ensures
        1u8 << bit != 0,
{
}

/// Replacing one byte changes the XOR of a sequence by the XOR of the old
/// and the new byte.
pub proof fn lemma_xor_fold_update(bytes: Seq<u8>, at: int, value: u8)
    requires
        0 <= at < bytes.len(),
    ensures
        xor_fold(bytes.update(at, value)) == (xor_fold(bytes) ^ bytes[at]) ^ value,
    decreases bytes.len(),
{
    let changed = bytes.update(at, value);
    let before = xor_fold(bytes.drop_last());
    if at == bytes.len() - 1 {
        assert(changed.drop_last() =~= bytes.drop_last());
        lemma_xor_algebra(before, bytes[at], value);
    } else {
        assert(changed.drop_last() =~= bytes.drop_last().update(at, value));
        lemma_xor_fold_update(bytes.drop_last(), at, value);
        lemma_xor_algebra(before, bytes[at], bytes.last());
        lemma_xor_algebra(before ^ bytes[at], value, bytes.last());
    }
}

/// A sequence with bit `bit` of the byte at `at` inverted.
pub open spec fn flip_bit(bytes: Seq<u8>, at: int, bit: u8) -> Seq<u8> {
    bytes.update(at, bytes[at] ^ (1u8 << bit))
}

/// Whether the frame of `payload`, with a bit of its sync byte or of its
/// length byte inverted, frames nothing by accident: with the sync byte
/// gone, the bytes after it decode to nothing; with the length changed, the
/// frame is too short for the new length or the checksum of the new window
/// fails. Bytes from the message id on need no such condition.
pub open spec fn header_flip_frames_nothing(msg_id: u8, payload: Seq<u8>, at: int, bit: u8)
    -> bool {
    let built = frame(msg_id, payload);
    let flipped = flip_bit(built, at, bit);
    &&& at == 0 ==> spec_parse_message(built.drop_first()) is None
    &&& at == 1 ==> flipped[1] > payload.len() || xor_fold(flipped.take(3 + flipped[1]))
        != flipped[3 + flipped[1]]
}

/// A frame with one bit inverted decodes to nothing: the checksum catches
/// every flip from the message id on, and a flip in the sync or length byte
/// unless what remains frames something by accident.
pub proof fn lemma_bit_flip_rejected(msg_id: u8, payload: Seq<u8>, at: int, bit: u8)
    requires
        payload.len() <= 255,
        0 <= at < payload.len() + 4,
        bit < 8,
        header_flip_frames_nothing(msg_id, payload, at, bit),
    ensures
        spec_parse_message(flip_bit(frame(msg_id, payload), at, bit)) is None,
{
    let head = frame_head(msg_id, payload);
    let built = frame(msg_id, payload);
    let mask = 1u8 << bit;
    let flipped = flip_bit(built, at, bit);
    let size = payload.len() as int;
    lemma_bit_mask(bit);
    lemma_xor_algebra(built[at], mask, 0);
    assert(flipped[at] != built[at]);
    if at == 0 {
        let junk = seq![flipped[0]];
        assert(flipped =~= junk + built.drop_first());
        lemma_junk_prefix_skipped(junk, built.drop_first());
    } else {
        assert(sync_offset(flipped) == 0);
        assert(flipped.skip(0) =~= flipped);
        if at > 1 {
            assert(flipped[1] == size);
            assert(built.take(3 + size) =~= head);
            if at == 3 + size {
                assert(flipped.take(3 + size) =~= head);
                lemma_xor_algebra(xor_fold(head), mask, 0);
            } else {
                assert(flipped.take(3 + size) =~= head.update(at, head[at] ^ mask));
                lemma_xor_fold_update(head, at, head[at] ^ mask);
                lemma_xor_algebra(xor_fold(head), head[at], mask);
                lemma_xor_algebra(xor_fold(head), mask, 0);
            }
        }
    }
}

/// The XOR of the bytes from `from` up to, not including, `to`.
fn xor_range(bytes: &[u8], from: usize, to: usize) -> (sum: u8)
    requires
        from <= to <= bytes.len(),
    ensures
        sum == xor_fold(bytes@.subrange(from as int, to as int)),
{
    let mut sum: u8 = 0;
    let mut i: usize = from;
    while i < to
        invariant
            from <= i <= to <= bytes.len(),
            sum == xor_fold(bytes@.subrange(from as int, i as int)),
        decreases to - i,
    {
        proof {
            assert(bytes@.subrange(from as int, i + 1).drop_last() =~= bytes@.subrange(
                from as int,
                i as int,
            ));
        }
        sum = sum ^ bytes[i];
        i += 1;
    }
    sum
}

/// What identifies a channel: its number on the radio, its network, and the
/// device it searches for.
pub struct ChannelDescriptor {
    pub channel_number: u8,
    pub network_number: u8,
    pub device_number: u16,
    pub transmission_type: u8,
}

impl ChannelDescriptor {
    /// The frame that resets the radio.
    pub open spec fn reset_system() -> Seq<u8> {
        frame(MESG_SYSTEM_RESET, seq![0x00u8])
    }

    /// The frame that loads the ANT+ key into this channel's network.
    pub open spec fn set_network_key(&self) -> Seq<u8> {
        frame(MESG_NETWORK_KEY, seq![self.network_number] + network_key())
    }

    /// The frame that assigns the channel with the given channel type.
    pub open spec fn assign(&self, channel_type: u8) -> Seq<u8> {
        frame(
            MESG_ASSIGN_CHANNEL,
            seq![self.channel_number, channel_type, self.network_number],
        )
    }

    /// The frame that sets the channel id for a device type: channel, device
    /// number low byte first, device type, transmission type.
    pub open spec fn channel_id(&self, device_type: u8) -> Seq<u8> {
        frame(
            MESG_CHANNEL_ID,
            seq![self.channel_number] + le16(self.device_number) + seq![
                device_type,
                self.transmission_type,
            ],
        )
    }

    /// The frame that tunes the channel to the ANT+ frequency.
    pub open spec fn set_channel_frequency(&self) -> Seq<u8> {
        frame(MESG_CHANNEL_FREQUENCY, seq![self.channel_number, ANT_PLUS_RF_FREQUENCY])
    }

    /// The frame that sets the channel period, low byte first.
    pub open spec fn channel_period(&self, period: u16) -> Seq<u8> {
        frame(MESG_CHANNEL_PERIOD, seq![self.channel_number] + le16(period))
    }

    /// The frame that opens the channel.
    pub open spec fn open_channel(&self) -> Seq<u8> {
        frame(MESG_OPEN_CHANNEL, seq![self.channel_number])
    }

    /// The frame that closes the channel.
    pub open spec fn close_channel(&self) -> Seq<u8> {
        frame(MESG_CLOSE_CHANNEL, seq![self.channel_number])
    }

    /// The frames that bring up the first channel, for fitness equipment:
    /// reset, network key, assign as slave, channel id, frequency, period,
    /// open.
    pub open spec fn init_sequence(&self) -> Seq<Seq<u8>> {
        seq![
            Self::reset_system(),
            self.set_network_key(),
            self.assign(CHANNEL_TYPE_SLAVE),
            self.channel_id(FEC_DEVICE_TYPE),
            self.set_channel_frequency(),
            self.channel_period(FEC_CHANNEL_PERIOD),
            self.open_channel(),
        ]
    }

    /// The frames that bring up a further channel, for a heart-rate monitor.
    /// The radio was reset and holds the network key already.
    pub open spec fn hrm_init_sequence(&self) -> Seq<Seq<u8>> {
        seq![
            self.assign(CHANNEL_TYPE_SLAVE),
            self.channel_id(HRM_DEVICE_TYPE),
            self.set_channel_frequency(),
            self.channel_period(HRM_CHANNEL_PERIOD),
            self.open_channel(),
        ]
    }
}

/// A slave channel to one kind of device. Device number 0 and transmission
/// type 0 are wildcards: the radio bonds to the first device of the
/// requested type that answers.
pub struct AntChannel {
    channel_number: u8,
    network_number: u8,
    device_number: u16,
    transmission_type: u8,
}

impl View for AntChannel {
    type V = ChannelDescriptor;

    closed spec fn view(&self) -> ChannelDescriptor {
        ChannelDescriptor {
            channel_number: self.channel_number,
            network_number: self.network_number,
            device_number: self.device_number,
            transmission_type: self.transmission_type,
        }
    }
}

impl AntChannel {
    /// A channel on network 0 that searches for any device.
    pub fn new(channel_number: u8) -> (channel: Self)
        ensures
            channel@ == (ChannelDescriptor {
                channel_number,
                network_number: 0,
                device_number: 0,
                transmission_type: 0,
            }),
    {
        Self { channel_number, network_number: 0, device_number: 0, transmission_type: 0 }
    }

    /// A channel on network 0 that searches for one device.
    pub fn with_device(channel_number: u8, device_number: u16, transmission_type: u8) -> (channel:
        Self)
        ensures
            channel@ == (ChannelDescriptor {
                channel_number,
                network_number: 0,
                device_number,
                transmission_type,
            }),
    {
        Self { channel_number, network_number: 0, device_number, transmission_type }
    }

    /// The number of the channel on the radio.
    pub fn channel_number(&self) -> (number: u8)
        ensures
            number == self@.channel_number,
    {
        self.channel_number
    }

    /// Builds the frame that carries `data` under `msg_id`.
    pub fn build_message(msg_id: u8, data: &[u8]) -> (msg: Vec<u8>)
        ensures
            msg@ == frame(msg_id, data@),
    {
        let mut msg: Vec<u8> = Vec::new();
        msg.push(ANT_SYNC_BYTE);
        msg.push((data.len() % 256) as u8);
        msg.push(msg_id);
        append_bytes(&mut msg, data);
        let checksum: u8 = xor_range(msg.as_slice(), 0, msg.len());
        proof {
            assert(msg@.subrange(0, msg@.len() as int) =~= msg@);
            assert(msg@ =~= frame_head(msg_id, data@));
        }
        msg.push(checksum);
        msg
    }

    /// Decodes the frame at the first sync byte of `buffer`: its message id,
    /// its channel and its payload. Bytes before the sync byte are skipped;
    /// a truncated frame and a wrong checksum give `None`.
    pub fn parse_message(buffer: &[u8]) -> (parsed: Option<(u8, u8, Vec<u8>)>)
        ensures
            match parsed {
                Some((msg_id, channel, data)) => spec_parse_message(buffer@) == Some(
                    (msg_id, channel, data@),
                ),
                None => spec_parse_message(buffer@) is None,
            },
    {
        let mut at: usize = 0;
        while at < buffer.len() && buffer[at] != ANT_SYNC_BYTE
            invariant
                at <= buffer.len(),
                forall|j: int| 0 <= j < at ==> buffer@[j] != ANT_SYNC_BYTE,
            decreases buffer.len() - at,
        {
            at += 1;
        }
        proof {
            lemma_sync_offset(buffer@, at as int);
        }
        let window: &[u8] = slice_subrange(buffer, at, buffer.len());
        assert(window@ == buffer@.skip(at as int));
        if window.len() < 4 {
            return None;
        }
        let length: usize = window[1] as usize;
        let msg_id: u8 = window[2];
        if window.len() < 4 + length {
            return None;
        }
        let checksum_pos: usize = 3 + length;
        let calculated: u8 = xor_range(window, 0, checksum_pos);
        proof {
            assert(window@.subrange(0, checksum_pos as int) =~= window@.take(checksum_pos as int));
        }
        if calculated != window[checksum_pos] {
            return None;
        }
        let channel: u8 = if length > 0 {
            window[3]
        } else {
            0
        };
        let data: Vec<u8> = copy_bytes(slice_subrange(window, 3, checksum_pos));
        Some((msg_id, channel, data))
    }

    /// Resets the radio.
    pub fn reset_system() -> (msg: Vec<u8>)
        ensures
            msg@ == ChannelDescriptor::reset_system(),
    {
        let payload: [u8; 1] = [0x00];
        assert(payload@ =~= seq![0x00u8]);
        Self::build_message(MESG_SYSTEM_RESET, payload.as_slice())
    }

    /// Loads the ANT+ network key. The radio needs it before a channel opens.
    pub fn set_network_key(&self) -> (msg: Vec<u8>)
        ensures
            msg@ == self@.set_network_key(),
    {
        let payload: [u8; 9] = [
            self.network_number,
            0xB9,
            0xA5,
            0x21,
            0xFB,
            0xBD,
            0x72,
            0xC3,
            0x45,
        ];
        assert(payload@ =~= seq![self.network_number] + network_key());
        Self::build_message(MESG_NETWORK_KEY, payload.as_slice())
    }

    /// Assigns the channel as a slave, which receives.
    pub fn assign_channel(&self) -> (msg: Vec<u8>)
        ensures
            msg@ == self@.assign(CHANNEL_TYPE_SLAVE),
    {
        let payload: [u8; 3] = [self.channel_number, CHANNEL_TYPE_SLAVE, self.network_number];
        assert(payload@ =~= seq![self.channel_number, CHANNEL_TYPE_SLAVE, self.network_number]);
        Self::build_message(MESG_ASSIGN_CHANNEL, payload.as_slice())
    }

    /// Assigns the channel as a master, which transmits.
    pub fn assign_channel_master(&self) -> (msg: Vec<u8>)
        ensures
            msg@ == self@.assign(CHANNEL_TYPE_MASTER),
    {
        let payload: [u8; 3] = [self.channel_number, CHANNEL_TYPE_MASTER, self.network_number];
        assert(payload@ =~= seq![self.channel_number, CHANNEL_TYPE_MASTER, self.network_number]);
        Self::build_message(MESG_ASSIGN_CHANNEL, payload.as_slice())
    }

    fn channel_id(&self, device_type: u8) -> (msg: Vec<u8>)
        ensures
            msg@ == self@.channel_id(device_type),
    {
        let device: [u8; 2] = u16_bytes(self.device_number);
        let payload: [u8; 5] = [
            self.channel_number,
            device[0],
            device[1],
            device_type,
            self.transmission_type,
        ];
        assert(payload@ =~= seq![self.channel_number] + le16(self.device_number) + seq![
            device_type,
            self.transmission_type,
        ]);
        Self::build_message(MESG_CHANNEL_ID, payload.as_slice())
    }

    fn channel_period(&self, period: u16) -> (msg: Vec<u8>)
        ensures
            msg@ == self@.channel_period(period),
    {
        let ticks: [u8; 2] = u16_bytes(period);
        let payload: [u8; 3] = [self.channel_number, ticks[0], ticks[1]];
        assert(payload@ =~= seq![self.channel_number] + le16(period));
        Self::build_message(MESG_CHANNEL_PERIOD, payload.as_slice())
    }

    /// Sets the channel id to search for fitness equipment.
    pub fn set_channel_id(&self) -> (msg: Vec<u8>)
        ensures
            msg@ == self@.channel_id(FEC_DEVICE_TYPE),
    {
        self.channel_id(FEC_DEVICE_TYPE)
    }

    /// Tunes the channel to 2457 MHz.
    pub fn set_channel_frequency(&self) -> (msg: Vec<u8>)
        ensures
            msg@ == self@.set_channel_frequency(),
    {
        let payload: [u8; 2] = [self.channel_number, ANT_PLUS_RF_FREQUENCY];
        assert(payload@ =~= seq![self.channel_number, ANT_PLUS_RF_FREQUENCY]);
        Self::build_message(MESG_CHANNEL_FREQUENCY, payload.as_slice())
    }

    /// Sets the channel id to search for a heart-rate monitor.
    pub fn set_channel_id_hrm(&self) -> (msg: Vec<u8>)
        ensures
            msg@ == self@.channel_id(HRM_DEVICE_TYPE),
    {
        self.channel_id(HRM_DEVICE_TYPE)
    }

    /// Sets the channel period of a heart-rate monitor.
    pub fn set_channel_period_hrm(&self) -> (msg: Vec<u8>)
        ensures
            msg@ == self@.channel_period(HRM_CHANNEL_PERIOD),
    {
        self.channel_period(HRM_CHANNEL_PERIOD)
    }

    /// Sets the channel period of fitness equipment.
    pub fn set_channel_period(&self) -> (msg: Vec<u8>)
        ensures
            msg@ == self@.channel_period(FEC_CHANNEL_PERIOD),
    {
        self.channel_period(FEC_CHANNEL_PERIOD)
    }

    /// Opens the channel: the radio starts to search and receive.
    pub fn open_channel(&self) -> (msg: Vec<u8>)
        ensures
            msg@ == self@.open_channel(),
    {
        let payload: [u8; 1] = [self.channel_number];
        assert(payload@ =~= seq![self.channel_number]);
        Self::build_message(MESG_OPEN_CHANNEL, payload.as_slice())
    }

    /// Closes the channel.
    pub fn close_channel(&self) -> (msg: Vec<u8>)
        ensures
            msg@ == self@.close_channel(),
    {
        let payload: [u8; 1] = [self.channel_number];
        assert(payload@ =~= seq![self.channel_number]);
        Self::build_message(MESG_CLOSE_CHANNEL, payload.as_slice())
    }

    /// Asks the radio for the status of the channel.
    pub fn request_channel_status(&self) -> (msg: Vec<u8>)
        ensures
            msg@ == frame(MESG_REQUEST_MESSAGE, seq![self@.channel_number, MESG_CHANNEL_STATUS]),
    {
        let payload: [u8; 2] = [self.channel_number, MESG_CHANNEL_STATUS];
        assert(payload@ =~= seq![self.channel_number, MESG_CHANNEL_STATUS]);
        Self::build_message(MESG_REQUEST_MESSAGE, payload.as_slice())
    }

    /// Asks the radio for its capabilities.
    pub fn request_capabilities(&self) -> (msg: Vec<u8>)
        ensures
            msg@ == frame(MESG_REQUEST_MESSAGE, seq![0x00u8, MESG_CAPABILITIES]),
    {
        let payload: [u8; 2] = [0x00, MESG_CAPABILITIES];
        assert(payload@ =~= seq![0x00u8, MESG_CAPABILITIES]);
        Self::build_message(MESG_REQUEST_MESSAGE, payload.as_slice())
    }

    /// The frames that bring up the channel for fitness equipment, in the
    /// order in which they are sent.
    pub fn get_init_sequence(&self) -> (frames: Vec<Vec<u8>>)
        ensures
            frames.deep_view() == self@.init_sequence(),
    {
        let frames: Vec<Vec<u8>> = vec![
            Self::reset_system(),
            self.set_network_key(),
            self.assign_channel(),
            self.set_channel_id(),
            self.set_channel_frequency(),
            self.set_channel_period(),
            self.open_channel(),
        ];
        assert(frames.deep_view() =~~= self@.init_sequence());
        frames
    }

    /// The frames that bring up the channel for a heart-rate monitor, once
    /// the first channel is up.
    pub fn get_hrm_init_sequence(&self) -> (frames: Vec<Vec<u8>>)
        ensures
            frames.deep_view() == self@.hrm_init_sequence(),
    {
        let frames: Vec<Vec<u8>> = vec![
            self.assign_channel(),
            self.set_channel_id_hrm(),
            self.set_channel_frequency(),
            self.set_channel_period_hrm(),
            self.open_channel(),
        ];
        assert(frames.deep_view() =~~= self@.hrm_init_sequence());
        frames
    }
}

impl Default for AntChannel {
    fn default() -> (channel: Self)
        ensures
            channel@ == (ChannelDescriptor {
                channel_number: 0,
                network_number: 0,
                device_number: 0,
                transmission_type: 0,
            }),
    {
        Self::new(0)
    }
}

} // verus!
