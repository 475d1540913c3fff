use notchrider::ant::channel::AntChannel;
use notchrider::ant::TrainerData;
use notchrider::session::{
    merge_frame, AntSession, BROADCAST_PAYLOAD_LEN, FEC_CHANNEL_NUMBER, HRM_CHANNEL_NUMBER,
    INTER_FRAME_DELAY_MS,
};

/// Brings a session up as a transport that never fails would, and gives the
/// frames that were written.
fn bring_up(session: &mut AntSession) -> Vec<Vec<u8>> {
    let mut written = Vec::new();
    session.begin_connect();
    while let Some(frame) = session.next_frame() {
        written.push(frame);
        session.frame_written();
    }
    written
}

fn broadcast(channel: u8, page: [u8; 8]) -> Vec<u8> {
    let mut payload = vec![channel];
    payload.extend_from_slice(&page);
    AntChannel::build_message(0x4E, &payload)
}

fn fields(data: TrainerData) -> (u16, u32, u8, u8) {
    (data.power, data.speed, data.cadence, data.heart_rate)
}

#[test]
fn connect_writes_twelve_frames_in_order() {
    let frames = AntSession::connect_frames();
    assert_eq!(frames.len(), 12);
    let fec = AntChannel::new(0).get_init_sequence();
    let hrm = AntChannel::new(1).get_hrm_init_sequence();
    assert_eq!(&frames[..7], &fec[..]);
    assert_eq!(&frames[7..], &hrm[..]);
    let ids: Vec<u8> = frames.iter().map(|frame| frame[2]).collect();
    assert_eq!(
        ids,
        vec![0x4A, 0x46, 0x42, 0x51, 0x45, 0x43, 0x4B, 0x42, 0x51, 0x45, 0x43, 0x4B]
    );
    // Device types 17 and 120, periods 8192 and 8070.
    assert_eq!(frames[3][6], 17);
    assert_eq!(frames[8][6], 120);
    assert_eq!(&frames[5][4..6], &8192u16.to_le_bytes());
    assert_eq!(&frames[10][4..6], &8070u16.to_le_bytes());
    assert_eq!(FEC_CHANNEL_NUMBER, 0);
    assert_eq!(HRM_CHANNEL_NUMBER, 1);
    assert_eq!(INTER_FRAME_DELAY_MS, 50);
    assert_eq!(BROADCAST_PAYLOAD_LEN, 9);
}

#[test]
fn a_session_connects_and_disconnects() {
    let mut session = AntSession::new();
    assert!(!session.is_connected());
    assert_eq!(fields(session.get_trainer_data()), (0, 0, 0, 0));
    assert!(session.next_frame().is_none());
    assert!(session.disconnect().is_empty());

    let written = bring_up(&mut session);
    assert_eq!(written, AntSession::connect_frames());
    assert!(session.is_connected());
    assert!(session.next_frame().is_none());
    let frames = session.disconnect();
    assert_eq!(
        frames,
        vec![AntChannel::new(0).close_channel(), AntChannel::new(1).close_channel()]
    );
    assert_eq!(frames[0], vec![0xA4, 0x01, 0x4C, 0x00, 0xA4 ^ 0x01 ^ 0x4C]);
    assert!(!session.is_connected());
    assert!(session.disconnect().is_empty());
}

#[test]
fn a_bring_up_connects_with_its_last_frame() {
    let frames = AntSession::connect_frames();
    let mut session = AntSession::new();
    session.frame_written();
    assert!(!session.is_connected());
    assert!(session.next_frame().is_none());

    session.begin_connect();
    for frame in &frames {
        assert!(!session.is_connected());
        assert_eq!(session.next_frame().as_ref(), Some(frame));
        // Asking again hands out the same frame.
        assert_eq!(session.next_frame().as_ref(), Some(frame));
        session.frame_written();
    }
    assert!(session.is_connected());
    session.frame_written();
    assert!(session.is_connected());
    assert!(session.next_frame().is_none());

    // A new bring-up starts over.
    session.begin_connect();
    assert!(!session.is_connected());
    assert_eq!(session.next_frame(), Some(frames[0].clone()));
}

#[test]
fn a_failed_transport_disconnects() {
    let mut session = AntSession::new();
    session.begin_connect();
    session.frame_written();
    session.frame_written();
    session.transport_failed();
    assert!(!session.is_connected());
    assert!(session.next_frame().is_none());
    assert!(session.disconnect().is_empty());

    bring_up(&mut session);
    assert!(session.is_connected());
    session.transport_failed();
    assert!(!session.is_connected());
    assert!(session.poll_trainer_data(&[]).is_none());
    assert!(session.disconnect().is_empty());

    // Nothing is closed in the middle of a bring-up.
    session.begin_connect();
    session.frame_written();
    assert!(session.disconnect().is_empty());
    assert!(session.next_frame().is_none());
}

#[test]
fn polling_merges_one_frame() {
    let mut session = AntSession::new();
    let trainer = broadcast(0, [0x19, 10, 85, 0, 0, 0xF4, 0x01, 0x00]);
    assert!(session.poll_trainer_data(&trainer).is_none());
    assert_eq!(fields(session.get_trainer_data()), (0, 0, 0, 0));

    session.begin_connect();
    assert!(session.poll_trainer_data(&trainer).is_none());
    bring_up(&mut session);
    let data = session.poll_trainer_data(&trainer).expect("connected");
    assert_eq!(fields(data), (500, 0, 85, 0));
    let data = session.poll_trainer_data(&[]).expect("connected");
    assert_eq!(fields(data), (500, 0, 85, 0));

    let general = broadcast(0, [0x10, 25, 100, 50, 0x10, 0x27, 0xFF, 0x30]);
    let data = session.poll_trainer_data(&general).expect("connected");
    assert_eq!(fields(data), (500, 360_000, 85, 0));

    let strap = broadcast(1, [0x04, 0, 0, 0, 0, 0, 0, 142]);
    let data = session.poll_trainer_data(&strap).expect("connected");
    assert_eq!(fields(data), (500, 360_000, 85, 142));
    assert_eq!(fields(session.get_trainer_data()), (500, 360_000, 85, 142));

    session.disconnect();
    assert!(session.poll_trainer_data(&trainer).is_none());
    assert_eq!(fields(session.get_trainer_data()), (500, 360_000, 85, 142));
}

#[test]
fn the_trainer_sets_the_heart_rate_only_where_it_has_one() {
    let mut data = TrainerData::new(1, 2, 3, 4);
    merge_frame(&mut data, &broadcast(0, [0x10, 25, 0, 0, 0xE8, 0x03, 0xFF, 0x30]));
    assert_eq!(fields(data), (1, 36_000, 3, 4));
    merge_frame(&mut data, &broadcast(0, [0x10, 25, 0, 0, 0xFF, 0xFF, 77, 0x30]));
    assert_eq!(fields(data), (1, 0, 3, 77));
    merge_frame(&mut data, &broadcast(0, [0x19, 1, 0xFF, 0, 0, 100, 0, 0]));
    assert_eq!(fields(data), (100, 0, 3, 77));
    merge_frame(&mut data, &broadcast(0, [0x50, 0xFF, 0xFF, 2, 1, 0, 10, 0]));
    assert_eq!(fields(data), (100, 0, 3, 77));
}

#[test]
fn the_strap_sets_the_heart_rate_only() {
    let mut data = TrainerData::new(1, 2, 3, 4);
    merge_frame(&mut data, &broadcast(1, [0x19, 9, 9, 9, 9, 9, 9, 150]));
    assert_eq!(fields(data), (1, 2, 3, 150));
    merge_frame(&mut data, &broadcast(1, [0x10, 9, 9, 9, 9, 9, 9, 0]));
    assert_eq!(fields(data), (1, 2, 3, 150));
}

#[test]
fn other_frames_change_nothing() {
    let before = TrainerData::new(1, 2, 3, 4);
    let page = [0x19, 10, 85, 0, 0, 0xF4, 0x01, 0x00];

    let mut data = before;
    merge_frame(&mut data, &broadcast(2, page));
    assert_eq!(fields(data), fields(before));

    // Another message id.
    let mut payload = vec![0u8];
    payload.extend_from_slice(&page);
    merge_frame(&mut data, &AntChannel::build_message(0x4F, &payload));
    assert_eq!(fields(data), fields(before));

    // A payload of eight bytes holds a page of seven.
    merge_frame(&mut data, &AntChannel::build_message(0x4E, &payload[..8]));
    assert_eq!(fields(data), fields(before));

    // A wrong checksum.
    let mut broken = broadcast(0, page);
    broken[5] ^= 0x40;
    merge_frame(&mut data, &broken);
    assert_eq!(fields(data), fields(before));

    merge_frame(&mut data, &[]);
    merge_frame(&mut data, &[0xA4, 0x09, 0x4E]);
    assert_eq!(fields(data), fields(before));

    // A longer payload is read up to its ninth byte.
    payload.extend_from_slice(&[1, 2, 3]);
    merge_frame(&mut data, &AntChannel::build_message(0x4E, &payload));
    assert_eq!(fields(data), (500, 2, 85, 4));
}
