use spi_sdcard::card::CardImage;
use spi_sdcard::policy::artifact_text;

#[test]
fn fresh_card_reads_nothing_and_stays_unverified() {
    let mut card = CardImage::fresh();
    assert!(card.read_marker().is_none());
    let verified = card.verify_round_trip();
    assert!(!verified);
}

#[test]
fn marker_write_is_idempotent_even_over_long_prior_content() {
    let mut card = CardImage { marker: Some(vec![0xAAu8; 300]), artifact: None };
    card.write_marker();
    card.write_marker();
    assert_eq!(card.marker, Some(vec![0x42u8, 0x1Eu8]));
}

#[test]
fn two_sessions_round_trip() {
    // first boot: nothing to read, marker written
    let mut card = CardImage::fresh();
    let first = card.verify_round_trip();
    assert!(!first);
    assert_eq!(card.marker, Some(vec![0x42u8, 0x1Eu8]));

    // second boot on the same card: the marker reads back and verifies
    let second = card.verify_round_trip();
    assert!(second);
    assert_eq!(card.marker, Some(vec![0x42u8, 0x1Eu8]));
}

#[test]
fn read_returns_at_most_the_buffer_limit() {
    let long = (0u8..=99u8).collect::<Vec<u8>>();
    let card = CardImage { marker: Some(long.clone()), artifact: None };
    let data = card.read_marker().unwrap();
    assert_eq!(data.len(), 32);
    assert_eq!(&data[..], &long[..32]);
}

#[test]
fn read_returns_short_content_whole() {
    let card = CardImage { marker: Some(vec![7u8, 8u8, 9u8]), artifact: None };
    assert_eq!(card.read_marker().unwrap(), vec![7u8, 8u8, 9u8]);
}

#[test]
fn artifact_holds_the_fixed_text_after_a_run() {
    let mut card = CardImage::fresh();
    card.verify_round_trip();
    assert_eq!(
        card.artifact.as_deref(),
        Some("This is my test text file.\r\nI really hope you like it!!")
    );
    assert_eq!(card.artifact.as_deref(), Some(artifact_text()));
}

#[test]
fn corrupt_marker_does_not_verify_but_is_repaired() {
    let mut card = CardImage { marker: Some(vec![0x00u8, 0x00u8]), artifact: None };
    let verified = card.verify_round_trip();
    assert!(!verified);
    assert_eq!(card.marker, Some(vec![0x42u8, 0x1Eu8]));
}
