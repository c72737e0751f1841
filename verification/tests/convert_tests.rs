use swiftbot_camera::convert::{yuyv422_to_rgb24, yuyv_to_rgb};

#[test]
fn black_level_pair_converts_to_black() {
    // Y = 16 is the BT.601 black level; neutral chroma.
    let src = vec![16u8, 128, 16, 128];
    let rgb = yuyv_to_rgb(&src);
    assert_eq!(rgb, vec![0u8, 0, 0, 0, 0, 0]);
}

#[test]
fn white_level_pair_converts_to_white() {
    // Y = 235 is the BT.601 white level; neutral chroma.
    let src = vec![235u8, 128, 235, 128];
    let rgb = yuyv_to_rgb(&src);
    assert_eq!(rgb, vec![255u8, 255, 255, 255, 255, 255]);
}

#[test]
fn mid_gray_pair_converts_to_uniform_gray() {
    let src = vec![128u8, 128, 128, 128];
    let rgb = yuyv_to_rgb(&src);
    assert_eq!(rgb, vec![130u8, 130, 130, 130, 130, 130]);
}

#[test]
fn saturated_red_pair() {
    // Y = 81, U = 90, V = 240 is a strong red sample.
    let src = vec![81u8, 90, 81, 240];
    let rgb = yuyv_to_rgb(&src);
    assert_eq!(rgb, vec![254u8, 0, 0, 254, 0, 0]);
}

#[test]
fn output_length_is_six_bytes_per_complete_pair() {
    assert_eq!(yuyv_to_rgb(&[]).len(), 0);
    assert_eq!(yuyv_to_rgb(&[128u8; 4]).len(), 6);
    assert_eq!(yuyv_to_rgb(&[128u8; 8]).len(), 12);
    assert_eq!(yuyv_to_rgb(&[128u8; 4000]).len(), 6000);
}

#[test]
fn trailing_partial_pair_is_dropped() {
    // Seven bytes hold one complete pair and a three-byte remainder.
    let src = vec![128u8, 128, 128, 128, 200, 200, 200];
    let rgb = yuyv_to_rgb(&src);
    assert_eq!(rgb, vec![130u8, 130, 130, 130, 130, 130]);
}

#[test]
fn in_place_conversion_stops_at_destination_capacity() {
    // Two source pairs but room for only one output pixel pair: the second
    // pair is dropped and the residual destination byte keeps its value.
    let src = vec![128u8; 8];
    let mut dest = vec![7u8; 7];
    yuyv422_to_rgb24(&src, &mut dest);
    assert_eq!(dest, vec![130u8, 130, 130, 130, 130, 130, 7]);
}

#[test]
fn in_place_conversion_leaves_tail_beyond_converted_pairs() {
    let src = vec![128u8; 8];
    let mut dest = vec![9u8; 13];
    yuyv422_to_rgb24(&src, &mut dest);
    let mut expected = vec![130u8; 12];
    expected.push(9);
    assert_eq!(dest, expected);
}

#[test]
fn in_place_conversion_with_empty_source_changes_nothing() {
    let src: Vec<u8> = Vec::new();
    let mut dest = vec![5u8; 10];
    yuyv422_to_rgb24(&src, &mut dest);
    assert_eq!(dest, vec![5u8; 10]);
}

#[test]
fn every_output_stays_in_byte_range_across_extremes() {
    // Extreme luma and chroma corners must clamp, not wrap.
    let corners = [0u8, 255];
    for &y in &corners {
        for &u in &corners {
            for &v in &corners {
                let src = vec![y, u, y, v];
                let rgb = yuyv_to_rgb(&src);
                assert_eq!(rgb.len(), 6);
                // All u8 by type; check the two pixels agree since they
                // share luma and chroma here.
                assert_eq!(&rgb[0..3], &rgb[3..6]);
            }
        }
    }
}
