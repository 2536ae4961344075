use microscope::command::{DeviceEvent, Error, LogMessageLevel};
use microscope::packet::{cobs_frame_length, encode_init_signature, find_zero, PacketReader, COM_INIT_STR};
use microscope::uart::{log_event, CommandAssembler};

#[test]
fn signature_packet_is_written_at_the_start() {
    let mut buf = [7u8; 24];
    assert_eq!(encode_init_signature(&mut buf), Ok(19));
    assert_eq!(&buf[..19], COM_INIT_STR.as_bytes());
    assert_eq!(&buf[19..], &[7, 7, 7, 7, 7]);
    let mut small = [0u8; 18];
    assert!(matches!(encode_init_signature(&mut small), Err(Error::BufferTooSmall)));
}

#[test]
fn frame_length_is_the_position_of_the_terminator() {
    assert!(matches!(cobs_frame_length(&[3, 1, 2, 0, 9, 0]), Ok(3)));
    assert!(matches!(cobs_frame_length(&[3, 1, 2]), Err(Error::BufferTooSmall)));
    assert_eq!(find_zero(&[0]), Some(0));
    assert_eq!(find_zero(&[]), None);
}

#[test]
fn reader_waits_for_the_signature_then_splits_packets() {
    let mut r = PacketReader::new();
    assert!(!r.is_synced());
    let mut bytes = vec![1u8, 2];
    bytes.extend_from_slice(COM_INIT_STR.as_bytes());
    bytes.push(0);
    bytes.extend_from_slice(&[5, 6, 0, 8]);
    r.feed(&bytes);
    let p = r.next_packet();
    assert!(r.is_synced());
    assert_eq!(p, Some(vec![5, 6, 0]));
    assert_eq!(r.pending_len(), 1);
    assert_eq!(r.next_packet(), None);
    r.feed(&[9, 0]);
    assert_eq!(r.next_packet(), Some(vec![8, 9, 0]));
}

#[test]
fn reader_without_signature_keeps_everything() {
    let mut r = PacketReader::new();
    r.feed(&[0u8; 30]);
    assert_eq!(r.next_packet(), None);
    assert!(!r.is_synced());
    assert_eq!(r.pending_len(), 30);
}

#[test]
fn assembler_hands_out_one_command_per_read() {
    let mut a = CommandAssembler::new();
    assert_eq!(a.receive(&[1, 2]), None);
    assert_eq!(a.receive(&[3, 0, 4, 0]), Some(vec![1, 2, 3]));
    assert_eq!(a.receive(&[]), None);
    assert_eq!(a.receive(&[5]), Some(vec![4]));
    assert_eq!(a.receive(&[0]), Some(vec![5]));
}

#[test]
fn assembler_drops_reads_that_do_not_fit() {
    let mut a = CommandAssembler::new();
    assert_eq!(a.receive(&[1u8; 200]), None);
    assert_eq!(a.receive(&[2u8; 60]), None);
    let mut tail = vec![3u8; 55];
    tail.push(0);
    let cmd = a.receive(&tail).unwrap();
    assert_eq!(cmd.len(), 255);
    assert_eq!(cmd[0], 1);
    assert_eq!(cmd[254], 3);
}

#[test]
fn board_log_events_keep_their_text() {
    match log_event(LogMessageLevel::Info, "Firmware started.") {
        DeviceEvent::LogMessage { level, message } => {
            assert_eq!(level, LogMessageLevel::Info);
            assert_eq!(message.as_str(), "Firmware started.");
        }
        _ => panic!("expected a log message"),
    }
}
