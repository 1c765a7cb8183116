use cyan_skillfish_governor_smu::codec::{decode_u32, mv_to_vid, pack_s16, pack_u32, vid_to_mv};

#[test]
fn test_vid_conversion() {
    let test_values = [
        (1000, mv_to_vid(1000)),
        (1125, mv_to_vid(1125)),
        (1200, mv_to_vid(1200)),
        (1325, mv_to_vid(1325)),
        (1550, mv_to_vid(1550)),
    ];

    for (mv, vid) in test_values {
        let converted_back = vid_to_mv(vid);
        println!("{} mV -> VID {} -> {} mV", mv, vid, converted_back);
        assert!(
            (converted_back as i32 - mv as i32).abs() <= 1,
            "Conversion failed: {} mV -> VID {} -> {} mV",
            mv,
            vid,
            converted_back
        );
    }
}

#[test]
fn test_specific_values() {
    let vid_1125 = mv_to_vid(1125);
    let back_to_mv = vid_to_mv(vid_1125);
    println!("1125 mV -> VID: {} -> {} mV", vid_1125, back_to_mv);
    assert_eq!(back_to_mv, 1125);

    assert_eq!(mv_to_vid(1550), 0);
    assert_eq!(vid_to_mv(0), 1550);

    let vid_1000 = mv_to_vid(1000);
    println!("1000 mV -> VID: {}", vid_1000);
    assert_eq!(vid_1000, 88);
}

#[test]
fn vid_round_trip_over_usable_range() {
    for vid in 0..=88u32 {
        assert_eq!(mv_to_vid(vid_to_mv(vid)), vid);
    }
}

#[test]
fn mv_round_trip_near_grid() {
    let near = [0, 1, 5, 6, 7, 11, 12, 13, 18, 19, 20, 24];
    for mv in 1000..=1550u32 {
        let back = vid_to_mv(mv_to_vid(mv)) as i64;
        let err = (back - mv as i64).abs();
        if near.contains(&((1550 - mv) % 25)) {
            assert!(err <= 1, "{} mV came back as {}", mv, back);
        } else {
            assert!(err <= 3, "{} mV came back as {}", mv, back);
        }
    }
    // 1548 mV lies 2 mV from the VID grid.
    assert_eq!(vid_to_mv(mv_to_vid(1548)), 1550);
}

#[test]
fn vid_exact_values() {
    assert_eq!(mv_to_vid(1200), 56);
    assert_eq!(vid_to_mv(56), 1200);
    assert_eq!(vid_to_mv(1), 1544);
    assert_eq!(vid_to_mv(2), 1538);
    assert_eq!(vid_to_mv(3), 1531);
    assert_eq!(mv_to_vid(1538), 2);
}

#[test]
fn vid_saturates_at_ends() {
    assert_eq!(mv_to_vid(1600), 0);
    assert_eq!(mv_to_vid(u32::MAX), 0);
    assert_eq!(mv_to_vid(0), 248);
    assert_eq!(vid_to_mv(248), 0);
    assert_eq!(vid_to_mv(249), 0);
    assert_eq!(vid_to_mv(u32::MAX), 0);
}

#[test]
fn packers() {
    assert_eq!(pack_u32(0xDEAD_BEEF), 0xDEAD_BEEF);
    assert_eq!(decode_u32(42), 42);
    assert_eq!(pack_s16(5), 5);
    assert_eq!(pack_s16(-1), 0xFFFF_FFFF);
    assert_eq!(pack_s16(i16::MIN), 0xFFFF_8000);
}
