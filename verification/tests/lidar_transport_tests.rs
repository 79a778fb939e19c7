use expressone::lidar_constants::{CMD_START_STREAM, CMD_STOP_STREAM, FRAME_HEADER, FRAME_LENGTH};
use expressone::lidar_transport::LidarTransport;

/// Builds a datagram as the scanner sends it.
fn datagram(frame_index: u16, count: u8, index: u8, payload: &[u8]) -> Vec<u8> {
    let length_field = (payload.len() + 6) as u16;
    let mut d = Vec::new();
    d.extend_from_slice(&FRAME_HEADER);
    d.push((length_field >> 8) as u8);
    d.push(length_field as u8);
    d.push(0); // checksum, filled below
    d.push(0x02); // type
    d.push((frame_index >> 8) as u8);
    d.push(frame_index as u8);
    d.push(count);
    d.push(index);
    d.extend_from_slice(payload);
    let sum = d[7..].iter().fold(0u8, |a, &b| a.wrapping_add(b));
    d[6] = sum;
    d
}

fn payload(len: usize, seed: u8) -> Vec<u8> {
    (0..len).map(|i| (i as u8).wrapping_mul(7).wrapping_add(seed)).collect()
}

#[test]
fn two_sub_packets_make_one_frame() {
    let mut t = LidarTransport::new("192.168.8.11", 2112, 5);
    let a = payload(811, 1);
    let b = payload(811, 2);
    assert_eq!(t.read_and_reassemble(&datagram(7, 2, 0, &a)), None);
    let out = t.read_and_reassemble(&datagram(7, 2, 1, &b)).unwrap();
    assert_eq!(out.len(), FRAME_LENGTH);
    assert_eq!(&out[..811], &a[..]);
    assert_eq!(&out[811..], &b[..]);
    assert_eq!(t.iteration_count(), 1);
}

#[test]
fn four_sub_packets_with_intensity() {
    let mut t = LidarTransport::new("lidar", 2112, 5);
    let parts: Vec<Vec<u8>> = (0..4).map(|i| payload(811, i as u8)).collect();
    for i in 0..3 {
        assert_eq!(t.read_and_reassemble(&datagram(1, 4, i, &parts[i as usize])), None);
    }
    let out = t.read_and_reassemble(&datagram(1, 4, 3, &parts[3])).unwrap();
    assert_eq!(out.len(), 3244);
    assert_eq!(out, parts.concat());
}

#[test]
fn sub_packets_in_any_order_complete_the_frame() {
    let mut t = LidarTransport::new("lidar", 2112, 5);
    let a = payload(811, 3);
    let b = payload(811, 4);
    assert_eq!(t.read_and_reassemble(&datagram(9, 2, 1, &b)), None);
    let out = t.read_and_reassemble(&datagram(9, 2, 0, &a)).unwrap();
    assert_eq!(out, [a, b].concat());
}

#[test]
fn bad_checksum_is_ignored() {
    let mut t = LidarTransport::new("lidar", 2112, 5);
    let a = payload(811, 1);
    let b = payload(811, 2);
    assert_eq!(t.read_and_reassemble(&datagram(3, 2, 0, &a)), None);
    let mut bad = datagram(3, 2, 1, &b);
    bad[6] = bad[6].wrapping_add(1);
    assert_eq!(t.read_and_reassemble(&bad), None);
    // the good copy still completes the frame: the bad one changed nothing
    let out = t.read_and_reassemble(&datagram(3, 2, 1, &b)).unwrap();
    assert_eq!(out.len(), 1622);
}

#[test]
fn bad_header_length_and_sub_fields_are_ignored() {
    let mut t = LidarTransport::new("lidar", 2112, 5);
    let a = payload(811, 1);
    let mut bad_header = datagram(3, 2, 0, &a);
    bad_header[0] = 0xFB;
    assert_eq!(t.read_and_reassemble(&bad_header), None);
    let mut truncated = datagram(3, 2, 0, &a);
    truncated.pop();
    assert_eq!(t.read_and_reassemble(&truncated), None);
    assert_eq!(t.read_and_reassemble(&datagram(3, 5, 0, &a)), None);
    assert_eq!(t.read_and_reassemble(&datagram(3, 1, 0, &a)), None);
    assert_eq!(t.read_and_reassemble(&datagram(3, 2, 4, &a)), None);
    let too_long = payload(1489, 0);
    assert_eq!(t.read_and_reassemble(&datagram(3, 2, 0, &too_long)), None);
    assert_eq!(t.read_and_reassemble(&[]), None);
    // none of them was stored: a lone sub-packet 1 does not complete a frame
    assert_eq!(t.read_and_reassemble(&datagram(3, 2, 1, &a)), None);
}

#[test]
fn sub_packet_of_another_frame_blocks_completion() {
    let mut t = LidarTransport::new("lidar", 2112, 5);
    let a = payload(811, 1);
    assert_eq!(t.read_and_reassemble(&datagram(10, 2, 0, &a)), None);
    assert_eq!(t.read_and_reassemble(&datagram(11, 2, 1, &a)), None);
    // sub-packet 0 of frame 11 arrives: now both slots hold frame 11
    assert!(t.read_and_reassemble(&datagram(11, 2, 0, &a)).is_some());
}

#[test]
fn wrong_total_length_is_dropped_and_slots_cleared() {
    let mut t = LidarTransport::new("lidar", 2112, 5);
    let a = payload(100, 1);
    assert_eq!(t.read_and_reassemble(&datagram(4, 2, 0, &a)), None);
    assert_eq!(t.read_and_reassemble(&datagram(4, 2, 1, &a)), None);
    assert_eq!(t.iteration_count(), 0);
    // the slots were emptied: sub-packet 1 alone completes nothing
    assert_eq!(t.read_and_reassemble(&datagram(5, 2, 1, &payload(811, 0))), None);
}

fn delivered_with_skip(skip: u32, frames: u16) -> Vec<bool> {
    let mut t = LidarTransport::new("lidar", 2112, 5);
    t.set_skip(skip);
    let a = payload(811, 1);
    let mut delivered = Vec::new();
    for f in 0..frames {
        assert_eq!(t.read_and_reassemble(&datagram(f, 2, 0, &a)), None);
        delivered.push(t.read_and_reassemble(&datagram(f, 2, 1, &a)).is_some());
    }
    assert_eq!(t.iteration_count(), frames as u64);
    delivered
}

#[test]
fn skip_one_halves_the_rate() {
    assert_eq!(delivered_with_skip(1, 4), vec![true, false, true, false]);
}

#[test]
fn skip_n_drops_one_frame_in_n_plus_one() {
    assert_eq!(delivered_with_skip(2, 6), vec![true, true, false, true, true, false]);
    assert_eq!(delivered_with_skip(0, 3), vec![true, true, true]);
}

#[test]
fn oversized_length_field_is_ignored() {
    let mut t = LidarTransport::new("192.168.8.11", 2112, 5);
    t.connect();
    let d = [0xFA, 0x5A, 0xA5, 0xAA, 0xFF, 0xFF, 0x00, 0x00, 0x00, 0x00, 0x02, 0x00];
    assert_eq!(t.read_and_reassemble(&d), None);
}

#[test]
fn connect_resets_counters_and_disconnect_drops_slots() {
    let mut t = LidarTransport::new("lidar", 2112, 5);
    let a = payload(811, 1);
    assert_eq!(t.read_and_reassemble(&datagram(1, 2, 0, &a)), None);
    assert!(t.read_and_reassemble(&datagram(1, 2, 1, &a)).is_some());
    assert_eq!(t.iteration_count(), 1);
    t.connect();
    assert_eq!(t.iteration_count(), 0);
    assert_eq!(t.read_and_reassemble(&datagram(2, 2, 0, &a)), None);
    t.disconnect();
    assert_eq!(t.read_and_reassemble(&datagram(2, 2, 1, &a)), None);
}

#[test]
fn configuration_getters() {
    let t = LidarTransport::new("192.168.0.10", 2112, 7);
    assert_eq!(t.remote_addr(), "192.168.0.10");
    assert_eq!(t.port(), 2112);
    assert_eq!(t.timeout_secs(), 7);
    assert_eq!(CMD_START_STREAM.len(), 8);
    assert_eq!(CMD_STOP_STREAM, CMD_START_STREAM);
}
