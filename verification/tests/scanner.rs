use rlr_autosplitter::sigscan::{
    compare_equivalence, exp_value_address, find_exp_pattern, region_eligible,
    region_start_cursor, EXP_VALUE_OFFSET, SCAN_BASE, SCAN_SPAN,
};

const SIGNATURE: [u8; 16] = [
    0x4a, 0x00, 0x00, 0x00, 0xdf, 0x1b, 0x01, 0x00, 0xca, 0x10, 0x01, 0x00, 0x00, 0x00, 0x00,
    0x00,
];

fn page_with_signature_at(offset: usize) -> Vec<u8> {
    let mut page = vec![0xaau8; 4096];
    page[offset..offset + 16].copy_from_slice(&SIGNATURE);
    page
}

#[test]
fn signature_at_aligned_offset_is_found_at_page_base_plus_offset() {
    for &offset in &[0usize, 4, 512, 2048, 4080] {
        let page = page_with_signature_at(offset);
        let base = 0x20000000000u64;
        assert_eq!(compare_equivalence(&page), Some(offset));
        assert_eq!(find_exp_pattern(base, &page), Some(base + offset as u64));
    }
}

#[test]
fn first_of_two_matches_wins() {
    let mut page = page_with_signature_at(512);
    page[64..64 + 16].copy_from_slice(&SIGNATURE);
    assert_eq!(compare_equivalence(&page), Some(64));
}

#[test]
fn unaligned_occurrence_is_not_reported() {
    // The signature is known to be 4-byte aligned; the scan only tests
    // aligned windows.
    let page = page_with_signature_at(6);
    assert_eq!(compare_equivalence(&page), None);
}

#[test]
fn page_without_signature_yields_none() {
    let page = vec![0u8; 4096];
    assert_eq!(compare_equivalence(&page), None);
    assert_eq!(find_exp_pattern(0x20000000000, &page), None);
}

#[test]
fn partial_signature_is_not_a_match() {
    let mut page = page_with_signature_at(128);
    page[128 + 15] = 0x01;
    assert_eq!(compare_equivalence(&page), None);
}

#[test]
fn counter_sits_four_bytes_before_the_match() {
    assert_eq!(EXP_VALUE_OFFSET, 4);
    assert_eq!(exp_value_address(0x20000000204), 0x20000000200);
}

#[test]
fn region_eligibility_filters() {
    let cursor = SCAN_BASE;
    // A page-granular read-write region past the cursor is eligible.
    assert!(region_eligible(SCAN_BASE, 0x10000, cursor, true, true, false));
    // Size not a multiple of a page.
    assert!(!region_eligible(SCAN_BASE, 0x10001, cursor, true, true, false));
    // Entirely before the cursor.
    assert!(!region_eligible(0x1000, 0x1000, cursor, true, true, false));
    // Starts past the window's end.
    assert!(!region_eligible(
        SCAN_BASE + SCAN_SPAN + 1,
        0x1000,
        cursor,
        true,
        true,
        false
    ));
    // Wrong flags.
    assert!(!region_eligible(SCAN_BASE, 0x1000, cursor, true, true, true));
    assert!(!region_eligible(SCAN_BASE, 0x1000, cursor, true, false, false));
    assert!(!region_eligible(SCAN_BASE, 0x1000, cursor, false, true, false));
}

#[test]
fn cursor_advances_to_a_later_region_base() {
    assert_eq!(region_start_cursor(100, 200), 200);
    assert_eq!(region_start_cursor(300, 200), 300);
    assert_eq!(region_start_cursor(200, 200), 200);
}
