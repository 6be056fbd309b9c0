use textutils::headr::{parse_positive_int, ArgError, Config};

#[test]
fn test_parse_positive_int() {
    let res = parse_positive_int("3");
    assert!(res.is_ok());
    assert_eq!(res.unwrap(), 3);

    let res = parse_positive_int("foo");
    assert!(res.is_err());
    assert_eq!(res.unwrap_err().to_string(), "foo".to_string());

    let res = parse_positive_int("0");
    assert!(res.is_err());
    assert_eq!(res.unwrap_err().to_string(), "0".to_string());
}

#[test]
fn parse_positive_int_accepts_a_plus_sign_and_leading_zeros() {
    assert_eq!(parse_positive_int("+7"), Ok(7));
    assert_eq!(parse_positive_int("0010"), Ok(10));
    assert_eq!(parse_positive_int("+0"), Err("+0".to_string()));
}

#[test]
fn parse_positive_int_rejects_what_is_no_number() {
    for text in ["", "+", "-1", "1.5", " 1", "1 ", "1_000", "++1", "0x10", "१"] {
        assert_eq!(parse_positive_int(text), Err(text.to_string()));
    }
}

#[test]
fn parse_positive_int_stops_at_the_largest_usize() {
    let largest = usize::MAX.to_string();
    assert_eq!(parse_positive_int(&largest), Ok(usize::MAX));
    let too_large = format!("{}0", largest);
    assert_eq!(parse_positive_int(&too_large), Err(too_large.clone()));
    assert_eq!(
        parse_positive_int("18446744073709551616"),
        "18446744073709551616".parse::<usize>().map_err(|_| "18446744073709551616".to_string())
    );
}

#[test]
fn config_takes_the_default_count() {
    let files = vec!["a.txt".to_string(), "b.txt".to_string()];
    let config = Config::new(files.clone(), "10", None).unwrap();
    assert_eq!(config.files(), &files[..]);
    assert_eq!(config.lines(), 10);
    assert_eq!(config.bytes(), None);
}

#[test]
fn config_takes_a_byte_count() {
    let config = Config::new(vec!["a".to_string()], "3", Some("512")).unwrap();
    assert_eq!(config.lines(), 3);
    assert_eq!(config.bytes(), Some(512));
}

#[test]
fn config_complains_about_the_line_count() {
    let error = Config::new(vec![], "foo", None).unwrap_err();
    assert_eq!(error, ArgError::IllegalLineCount("foo".to_string()));
    assert_eq!(error.message(), "illegal line count -- foo");
}

#[test]
fn config_complains_about_the_byte_count() {
    let error = Config::new(vec![], "10", Some("0")).unwrap_err();
    assert_eq!(error, ArgError::IllegalByteCount("0".to_string()));
    assert_eq!(error.message(), "illegal bytes -- 0");
}

#[test]
fn config_looks_at_the_line_count_first() {
    let error = Config::new(vec![], "-3", Some("x")).unwrap_err();
    assert_eq!(error, ArgError::IllegalLineCount("-3".to_string()));
}
