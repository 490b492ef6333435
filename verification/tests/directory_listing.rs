use spi_sdcard::listing::{entry_line, listing_lines, EntryName};
use spi_sdcard::policy::{artifact_filename, blink_half_period_ms, fatal_heartbeat_ms,
    init_bus_hz, marker_filename, marker_read_limit, operating_bus_hz};

#[test]
fn empty_directory_yields_no_lines() {
    let lines = listing_lines(&vec![]);
    assert_eq!(lines.len(), 0);
}

#[test]
fn one_line_per_entry_in_order() {
    let entries = vec![
        EntryName { base: b"O".to_vec(), ext: b"TST".to_vec() },
        EntryName { base: b"TEST_DBG".to_vec(), ext: b"TXT".to_vec() },
        EntryName { base: b"LOGS".to_vec(), ext: b"".to_vec() },
    ];
    let lines = listing_lines(&entries);
    assert_eq!(lines.len(), 3);
    assert_eq!(lines[0], b"/O.TST".to_vec());
    assert_eq!(lines[1], b"/TEST_DBG.TXT".to_vec());
    assert_eq!(lines[2], b"/LOGS.".to_vec());
}

#[test]
fn non_printable_name_bytes_become_question_marks() {
    let line = entry_line(&vec![0xE5u8, b'A', 0x00u8], &vec![b'T', 0x7Fu8, b'T']);
    assert_eq!(line, b"/?A?.T?T".to_vec());
}

#[test]
fn printable_boundaries_are_kept() {
    let line = entry_line(&vec![0x20u8, 0x7Eu8], &vec![0x1Fu8, 0x7Fu8]);
    assert_eq!(line, b"/ ~.??".to_vec());
}

#[test]
fn policy_constants_hold_their_fixed_values() {
    assert_eq!(marker_filename(), "O.TST");
    assert_eq!(artifact_filename(), "TEST_DBG.TXT");
    assert_eq!(init_bus_hz(), 400_000);
    assert_eq!(operating_bus_hz(), 16_000_000);
    assert!(init_bus_hz() < operating_bus_hz());
    assert_eq!(marker_read_limit(), 32);
    assert_eq!(blink_half_period_ms(), 100);
    assert_eq!(fatal_heartbeat_ms(), 5000);
}
