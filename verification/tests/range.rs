use adm_sdk::error::Error;
use adm_sdk::machine::objectstore::{parse_range, slice_range};

fn object(size: usize) -> Vec<u8> {
    (0..size).map(|i| (i % 251) as u8).collect()
}

#[test]
fn range_with_both_ends() {
    let bytes = object(1000);
    let part = slice_range(&bytes, &Some("100-199".to_string())).unwrap();
    assert_eq!(part.len(), 100);
    assert_eq!(part, bytes[100..200].to_vec());
    assert_eq!(parse_range("100-199", 1000), Ok((100, 199)));
}

#[test]
fn range_with_only_an_end_is_a_suffix() {
    let bytes = object(1000);
    let part = slice_range(&bytes, &Some("-50".to_string())).unwrap();
    assert_eq!(part, bytes[950..].to_vec());
    assert_eq!(parse_range("-50", 1000), Ok((950, 999)));
}

#[test]
fn range_with_only_a_start_runs_to_the_end() {
    let bytes = object(1000);
    let part = slice_range(&bytes, &Some("900-".to_string())).unwrap();
    assert_eq!(part, bytes[900..1000].to_vec());
    assert_eq!(parse_range("900-", 1000), Ok((900, 999)));
}

#[test]
fn range_without_ends_is_the_whole_object() {
    assert_eq!(parse_range("-", 1000), Ok((0, 999)));
    let bytes = object(10);
    assert_eq!(slice_range(&bytes, &Some("-".to_string())), Ok(bytes.clone()));
    assert_eq!(slice_range(&bytes, &None), Ok(bytes));
}

#[test]
fn suffix_longer_than_the_object_is_the_whole_object() {
    assert_eq!(parse_range("-5000", 1000), Ok((0, 999)));
}

#[test]
fn single_byte_ranges() {
    assert_eq!(parse_range("0-0", 1), Ok((0, 0)));
    assert_eq!(parse_range("999-999", 1000), Ok((999, 999)));
    assert_eq!(parse_range("-1", 1000), Ok((999, 999)));
}

#[test]
fn invalid_ranges() {
    assert_eq!(parse_range("200-100", 1000), Err(Error::InvalidRange));
    assert_eq!(parse_range("0-1000", 1000), Err(Error::InvalidRange));
    assert_eq!(parse_range("1000-", 1000), Err(Error::InvalidRange));
    assert_eq!(parse_range("-0", 1000), Err(Error::InvalidRange));
    assert_eq!(parse_range("", 1000), Err(Error::InvalidRange));
    assert_eq!(parse_range("100", 1000), Err(Error::InvalidRange));
    assert_eq!(parse_range("a-b", 1000), Err(Error::InvalidRange));
    assert_eq!(parse_range("1-2-3", 1000), Err(Error::InvalidRange));
    assert_eq!(parse_range(" 1-2", 1000), Err(Error::InvalidRange));
    assert_eq!(parse_range("+1-2", 1000), Err(Error::InvalidRange));
    assert_eq!(parse_range("0-18446744073709551616", 1000), Err(Error::InvalidRange));
    assert_eq!(parse_range("-", 0), Err(Error::InvalidRange));
    assert_eq!(parse_range("0-0", 0), Err(Error::InvalidRange));
    let bytes = object(10);
    assert_eq!(slice_range(&bytes, &Some("5-10".to_string())), Err(Error::InvalidRange));
}
