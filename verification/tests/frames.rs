use microscope::frames::{mjpeg_part, push_turned_plane, turn_frame};

#[test]
fn turning_reverses_rows_and_columns() {
    let plane = [1u8, 2, 3, 99, 4, 5, 6, 99];
    let mut out = Vec::new();
    push_turned_plane(&mut out, &plane, 3, 2, 4);
    assert_eq!(out, vec![6, 5, 4, 3, 2, 1]);
}

#[test]
fn turning_a_frame_packs_three_planes() {
    let y: Vec<u8> = (0..16).collect();
    let u = [100u8, 101, 102, 103];
    let v = [200u8, 201, 202, 203];
    let out = turn_frame(&y, &u, &v, 4, 4, 4, 2, 2);
    assert_eq!(out.len(), 24);
    let expected_y: Vec<u8> = (0..16).rev().collect();
    assert_eq!(&out[..16], &expected_y[..]);
    assert_eq!(&out[16..20], &[103, 102, 101, 100]);
    assert_eq!(&out[20..24], &[203, 202, 201, 200]);
}

#[test]
fn pixel_positions_after_turning() {
    let w = 5usize;
    let h = 3usize;
    let stride = 7usize;
    let plane: Vec<u8> = (0..(stride * h) as u8).collect();
    let mut out = Vec::new();
    push_turned_plane(&mut out, &plane, w, h, stride);
    for i in 0..h {
        for j in 0..w {
            assert_eq!(out[i * w + j], plane[(h - 1 - i) * stride + (w - 1 - j)]);
        }
    }
}

#[test]
fn empty_planes() {
    let mut out = vec![9u8];
    push_turned_plane(&mut out, &[], 0, 0, 0);
    assert_eq!(out, vec![9]);
}

#[test]
fn mjpeg_parts_carry_length_and_boundary() {
    let part = mjpeg_part(&[0xff, 0xd8, 0xff]);
    let mut expected = b"--microscope-video-frame\r\nContent-Type: image/jpeg\r\nContent-Length: 3\r\n\r\n".to_vec();
    expected.extend_from_slice(&[0xff, 0xd8, 0xff]);
    expected.extend_from_slice(b"\r\n");
    assert_eq!(part, expected);
}
