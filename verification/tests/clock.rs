use todolistify::clock::timestamp_text;

#[test]
fn epoch_is_the_first_second_of_1970() {
    assert_eq!(timestamp_text(0), Some("1970-01-01T00:00:00Z".to_string()));
}

#[test]
fn moments_are_written_in_utc_to_the_second() {
    assert_eq!(timestamp_text(1_546_300_800), Some("2019-01-01T00:00:00Z".to_string()));
    assert_eq!(timestamp_text(951_827_696), Some("2000-02-29T12:34:56Z".to_string()));
}

#[test]
fn last_second_of_the_year_9999_is_the_last_with_a_text() {
    assert_eq!(timestamp_text(253_402_300_799), Some("9999-12-31T23:59:59Z".to_string()));
    assert_eq!(timestamp_text(253_402_300_800), None);
    assert_eq!(timestamp_text(u64::MAX), None);
}
