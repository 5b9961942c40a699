use std::collections::HashMap;
use video_service::quality::{
    checked_get_quality, convert_quality, get_image_quality, get_quality, update_image_quality,
    update_latency, update_test_latency, ImageQuality, QualityTable,
};

#[test]
fn preset_values() {
    assert_eq!(ImageQuality::NotSet.value(), 0);
    assert_eq!(ImageQuality::Low.value(), 2);
    assert_eq!(ImageQuality::Balanced.value(), 3);
    assert_eq!(ImageQuality::Best.value(), 4);
}

#[test]
fn presets_convert_to_fixed_pairs() {
    assert_eq!(convert_quality(ImageQuality::Balanced.value()), 66 << 8 | 12);
    assert_eq!(convert_quality(ImageQuality::Low.value()), 50 << 8 | 18);
    assert_eq!(convert_quality(ImageQuality::Best.value()), 100 << 8 | 12);
    assert_eq!(convert_quality(3), 16908);
    assert_eq!(convert_quality(2), 12818);
    assert_eq!(convert_quality(4), 25612);
}

#[test]
fn converting_a_preset_twice_gives_the_same_value() {
    for level in [ImageQuality::Balanced, ImageQuality::Low, ImageQuality::Best] {
        let first = convert_quality(level.value());
        let second = convert_quality(level.value());
        assert_eq!(first, second);
        assert!(first > 0);
    }
}

#[test]
fn raw_pair_is_rescaled() {
    // bitrate 50, quantizer 10: bitrate doubled, quantizer (100 - 10) * 36 / 100
    assert_eq!(convert_quality(50 << 8 | 10), 100 << 8 | 32);
    // quantizer 0 maps to 36, quantizer 100 to 0
    assert_eq!(convert_quality(200 << 8), 400 << 8 | 36);
    assert_eq!(convert_quality(1 << 8 | 100), 2 << 8);
    assert_eq!(convert_quality(255 << 8 | 50), 510 << 8 | 18);
}

#[test]
fn raw_pair_without_bitrate_is_no_preference() {
    assert_eq!(convert_quality(0), 0);
    assert_eq!(convert_quality(99), 0);
    assert_eq!(convert_quality(0x7F0000 | 17), 0);
}

#[test]
fn raw_pair_ignores_bits_above_the_pair() {
    assert_eq!(convert_quality(0x10000 | 50 << 8 | 10), 100 << 8 | 32);
    assert_eq!(convert_quality(-1), -55);
}

#[test]
fn quantizer_beyond_hundred_converts_to_a_negative_value() {
    assert_eq!(convert_quality(50 << 8 | 200), -36);
    assert_eq!(convert_quality(50 << 8 | 255), -55);
    assert_eq!(convert_quality(50 << 8 | 101), 100 << 8);
}

#[test]
fn update_stores_converted_request() {
    let mut table = QualityTable::new();
    update_image_quality(&mut table, 1, Some(ImageQuality::Best.value()));
    update_image_quality(&mut table, 2, Some(50 << 8 | 10));
    assert_eq!(table.entries.get(&1), Some(&25612));
    assert_eq!(table.entries.get(&2), Some(&25632));
    update_image_quality(&mut table, 1, Some(ImageQuality::Low.value()));
    assert_eq!(table.entries.get(&1), Some(&12818));
    assert_eq!(table.entries.len(), 2);
}

#[test]
fn update_removes_on_none_and_on_no_preference() {
    let mut table = QualityTable::new();
    update_image_quality(&mut table, 1, Some(4));
    update_image_quality(&mut table, 2, Some(4));
    update_image_quality(&mut table, 3, Some(4));
    update_image_quality(&mut table, 1, None);
    assert!(!table.entries.contains_key(&1));
    update_image_quality(&mut table, 2, Some(0));
    assert!(!table.entries.contains_key(&2));
    update_image_quality(&mut table, 3, Some(50 << 8 | 200));
    assert!(!table.entries.contains_key(&3));
    update_image_quality(&mut table, 9, None);
    assert!(table.entries.is_empty());
}

#[test]
fn effective_quality_defaults_to_balanced() {
    let table = QualityTable::new();
    assert_eq!(get_image_quality(&table), 16908);
}

#[test]
fn effective_quality_is_the_weakest_entry() {
    let mut table = QualityTable::new();
    update_image_quality(&mut table, 1, Some(ImageQuality::Best.value()));
    assert_eq!(get_image_quality(&table), 25612);
    update_image_quality(&mut table, 2, Some(ImageQuality::Low.value()));
    update_image_quality(&mut table, 3, Some(ImageQuality::Balanced.value()));
    let q = get_image_quality(&table);
    assert_eq!(q, 12818);
    for v in table.entries.values() {
        assert!(q <= *v);
        assert!((q >> 8) & 0xFF <= (*v >> 8) & 0xFF);
    }
    update_image_quality(&mut table, 2, None);
    assert_eq!(get_image_quality(&table), 16908);
}

#[test]
fn effective_quality_of_one_entry_is_that_entry() {
    let mut table = QualityTable::new();
    table.entries.insert(5, 7);
    assert_eq!(get_image_quality(&table), 7);
    table.entries.insert(6, -3);
    assert_eq!(get_image_quality(&table), -3);
}

#[test]
fn encoder_params_follow_the_formula() {
    // 1920 * 1080 / 1000 = 2073 thousands of pixels
    assert_eq!(get_quality(1920, 1080, 25612), (2073, 12, 56, 7));
    assert_eq!(get_quality(1920, 1080, 16908), (1368, 12, 56, 7));
    assert_eq!(get_quality(1920, 1080, 12818), (1036, 18, 56, 7));
    assert_eq!(get_quality(1280, 720, 100 << 8 | 32), (921, 32, 56, 7));
}

#[test]
fn encoder_params_use_only_the_low_byte_of_the_bitrate() {
    // 400 << 8: the bitrate field reads 400 & 0xFF = 144
    assert_eq!(get_quality(1000, 1000, 400 << 8 | 36), (1440, 36, 56, 7));
}

#[test]
fn bitrate_scales_with_the_pixel_count() {
    let q = 25612;
    let base = get_quality(1000, 1000, q).0;
    assert_eq!(base, 1000);
    assert_eq!(get_quality(2000, 1000, q).0, 2 * base);
    assert_eq!(get_quality(3000, 1000, q).0, 3 * base);
    assert_eq!(get_quality(1000, 5000, q).0, 5 * base);
    assert!(get_quality(1920, 1080, q).0 <= get_quality(1920, 1200, q).0);
}

#[test]
fn bitrate_is_zero_without_pixels() {
    assert_eq!(get_quality(0, 0, 25612).0, 0);
    assert_eq!(get_quality(0, 1080, 25612).0, 0);
    assert_eq!(get_quality(1920, 0, 25612).0, 0);
    // under a thousand pixels the bitrate is zero too
    assert_eq!(get_quality(10, 10, 25612).0, 0);
    assert_eq!(get_quality(1000, 1, 25612).0, 1);
    // and with a bitrate fraction of nothing
    assert_eq!(get_quality(1920, 1080, 12).0, 0);
}

#[test]
fn checked_params_refuse_a_bitrate_that_does_not_fit() {
    assert_eq!(checked_get_quality(1920, 1080, 25612), Some((2073, 12, 56, 7)));
    assert_eq!(checked_get_quality(usize::MAX, usize::MAX, 255 << 8), None);
    assert_eq!(checked_get_quality(usize::MAX, usize::MAX, 0), Some((0, 0, 56, 7)));
    assert_eq!(
        checked_get_quality(4_294_967_295, 1000, 100 << 8),
        Some((4_294_967_295, 0, 56, 7))
    );
    assert_eq!(checked_get_quality(4_294_967_296, 1000, 100 << 8), None);
}

#[test]
fn latency_is_stored_and_cleared() {
    let mut latencies: HashMap<i32, i64> = HashMap::new();
    update_latency(1, 20, &mut latencies);
    update_latency(2, 35, &mut latencies);
    assert_eq!(latencies.get(&1), Some(&20));
    update_latency(1, 25, &mut latencies);
    assert_eq!(latencies.get(&1), Some(&25));
    update_latency(1, 0, &mut latencies);
    assert!(!latencies.contains_key(&1));
    update_latency(2, -5, &mut latencies);
    assert!(latencies.is_empty());
    update_test_latency(&mut latencies, 3, 1);
    assert_eq!(latencies.get(&3), Some(&1));
    update_test_latency(&mut latencies, 3, 0);
    assert!(latencies.is_empty());
}

#[test]
fn effective_quality_compares_whole_packed_values() {
    let mut table = QualityTable::new();
    // a doubled bitrate of 256 overflows the byte that the encoder reads
    update_image_quality(&mut table, 1, Some(128 << 8 | 100));
    update_image_quality(&mut table, 2, Some(127 << 8 | 100));
    assert_eq!(table.entries.get(&1), Some(&(256 << 8)));
    assert_eq!(table.entries.get(&2), Some(&(254 << 8)));
    let q = get_image_quality(&table);
    assert_eq!(q, 254 << 8);
    assert_eq!(get_quality(1000, 1000, q).0, 2540);
    assert_eq!(get_quality(1000, 1000, 256 << 8).0, 0);
}
