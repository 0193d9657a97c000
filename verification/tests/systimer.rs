use embassy_esp32c3::systimer::{target_words, time_from_words, TargetWords};

#[test]
fn timestamps_split_into_high_and_low_words() {
    assert_eq!(target_words(0x0000_0001_0000_0002), TargetWords { hi: 1, lo: 2 });
    assert_eq!(target_words(30_000_000), TargetWords { hi: 0, lo: 30_000_000 });
    assert_eq!(target_words(u64::MAX), TargetWords { hi: u32::MAX, lo: u32::MAX });
}

#[test]
fn counter_words_combine_into_a_time() {
    assert_eq!(time_from_words(1, 2), 0x0000_0001_0000_0002);
    assert_eq!(time_from_words(0, 0), 0);
    assert_eq!(time_from_words(0xABCD, 0x1234_5678), 0x0000_ABCD_1234_5678);
}

#[test]
fn splitting_and_combining_round_trips() {
    for t in [0u64, 1, 0xFFFF_FFFF, 0x1_0000_0000, 0x000F_FFFF_FFFF_FFFF, u64::MAX] {
        let w = target_words(t);
        assert_eq!(time_from_words(w.hi, w.lo), t);
    }
}
