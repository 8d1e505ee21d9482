use source_sdk::pattern::{find_pattern, Pattern, PatternError};

fn pat(bytes: &[u8], mask: &[bool]) -> Pattern {
    Pattern::new(bytes.to_vec(), mask.to_vec()).unwrap()
}

#[test]
fn wildcard_in_the_middle_matches_at_offset_one() {
    let hay = [0x11u8, 0x22, 0x33, 0x44, 0x55];
    let p = pat(&[0x22, 0x00, 0x44], &[true, false, true]);
    assert_eq!(p.find_in(&hay), Some(1));
}

#[test]
fn embedded_signature_is_found_at_its_offset() {
    let mut hay = vec![0u8; 16];
    hay[9] = 0x55;
    hay[10] = 0x8B;
    hay[11] = 0xEC;
    let p = pat(&[0x55, 0x8B, 0xEC], &[true, true, true]);
    assert_eq!(p.find_in(&hay), Some(9));
}

#[test]
fn absent_signature_is_no_match() {
    let hay = [0x11u8, 0x22, 0x33, 0x44, 0x55];
    let p = pat(&[0x22, 0x44], &[true, true]);
    assert_eq!(p.find_in(&hay), None);
}

#[test]
fn leftmost_of_several_occurrences_wins() {
    let hay = [0xAAu8, 0x01, 0x02, 0xAA, 0x01, 0x02, 0x01, 0x02];
    let p = pat(&[0x01, 0x02], &[true, true]);
    assert_eq!(p.find_in(&hay), Some(1));
}

#[test]
fn all_wildcards_match_at_zero() {
    let hay = [0x10u8, 0x20, 0x30];
    let p = pat(&[0x00, 0x00], &[false, false]);
    assert_eq!(p.find_in(&hay), Some(0));
}

#[test]
fn match_at_the_very_end() {
    let hay = [0x00u8, 0x00, 0x00, 0x7F, 0x80];
    let p = pat(&[0x7F, 0x80], &[true, true]);
    assert_eq!(p.find_in(&hay), Some(3));
}

#[test]
fn signature_longer_than_buffer_is_no_match() {
    let hay = [0x22u8, 0x33];
    let p = pat(&[0x22, 0x33, 0x44], &[true, true, false]);
    assert_eq!(p.find_in(&hay), None);
    assert_eq!(p.find_in(&[]), None);
}

#[test]
fn empty_signature_is_rejected() {
    assert_eq!(Pattern::new(vec![], vec![]).unwrap_err(), PatternError::Empty);
    assert_eq!(Pattern::new(vec![], vec![true]).unwrap_err(), PatternError::Empty);
}

#[test]
fn mask_of_other_length_is_rejected() {
    assert_eq!(
        Pattern::new(vec![1, 2, 3], vec![true, true]).unwrap_err(),
        PatternError::MaskLengthMismatch
    );
    assert_eq!(
        Pattern::new(vec![1], vec![true, false]).unwrap_err(),
        PatternError::MaskLengthMismatch
    );
    assert_eq!(pat(&[1, 2, 3], &[true, false, true]).len(), 3);
}

#[test]
fn signature_only_in_other_module_is_not_found() {
    let a = [0x90u8, 0x90, 0xC3, 0x55, 0x8B];
    let b = [0x55u8, 0x8B, 0xEC, 0x83, 0xE4];
    let p = pat(&[0x8B, 0xEC, 0x83], &[true, true, true]);
    assert_eq!(p.find_in(&a), None);
    assert_eq!(p.find_in(&b), Some(1));
}

#[test]
fn free_matcher_agrees() {
    let hay = [0x11u8, 0x22, 0x33, 0x44, 0x55];
    assert_eq!(find_pattern(&hay, &[0x33, 0x00], &[true, false]), Some(2));
    assert_eq!(find_pattern(&hay, &[0x55, 0x00], &[true, false]), None);
}
