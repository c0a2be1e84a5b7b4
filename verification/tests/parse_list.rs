use parse_list::{
    from_bufread_lines, from_iter, nonblank, string_result_to_item_result, ParseListError,
    ParseUintError, VecLineProducer,
};
use std::io;
use std::io::BufRead;
use std::io::Cursor;

fn split_lines(bytes: &[u8]) -> Vec<Result<String, io::Error>> {
    bytes.lines().collect()
}

#[test]
fn from_iter_vec() {
    let a = vec![
        Ok(String::from("0")),
        Ok(String::from("1")),
        Ok(String::from("2")),
    ];
    let b: Vec<Result<u32, _>> = from_iter(VecLineProducer::new(a)).collect_results();
    let b: Result<Vec<u32>, _> = b.into_iter().collect();
    let b = b.unwrap();
    assert!(b == vec![0, 1, 2]);
}

#[test]
fn from_iter_vec_fail_middle() {
    let e: io::Error = io::Error::from(io::ErrorKind::NotFound);
    let a: Vec<Result<String, io::Error>> =
        vec![Ok(String::from("0")), Err(e), Ok(String::from("2"))];
    let b: Vec<Result<u32, ParseListError<ParseUintError>>> =
        from_iter(VecLineProducer::new(a)).collect_results();
    assert!(b.len() == 3);
    assert!(b[0].as_ref().unwrap() == &0);
    assert!(b[1].is_err());
    assert!(b[2].as_ref().unwrap() == &2);
}

#[test]
fn from_iter_vec_ignore_errors() {
    let e: io::Error = io::Error::from(io::ErrorKind::NotFound);
    let a: Vec<Result<String, io::Error>> =
        vec![Ok(String::from("0")), Err(e), Ok(String::from("2"))];
    let b: Vec<u32> = from_iter(VecLineProducer::new(a))
        .collect_results()
        .into_iter()
        .filter_map(Result::ok)
        .collect();
    assert!(b.len() == 2);
    assert!(b[0] == 0);
    assert!(b[1] == 2);
}

#[test]
fn from_bufread_lines_slice() {
    let a = "0\n1\n2".as_bytes();
    let b: Vec<Result<u32, _>> = from_bufread_lines(split_lines(a)).collect_results();
    let b: Result<Vec<u32>, _> = b.into_iter().collect();
    let b = b.unwrap();
    assert!(b == vec![0, 1, 2]);
}

#[test]
fn from_bufread_lines_slice_fail_middle() {
    let a = "0\nboop\n2".as_bytes();
    let b: Vec<Result<u32, _>> = from_bufread_lines(split_lines(a)).collect_results();
    assert!(b.len() == 3);
    assert!(b[0].as_ref().unwrap() == &0);
    assert!(b[1].is_err());
    assert!(b[2].as_ref().unwrap() == &2);
}

#[test]
fn from_bufread_lines_cursor() {
    let a = Cursor::new("0\n1\n2".as_bytes());
    let lines: Vec<Result<String, io::Error>> = a.lines().collect();
    let b: Vec<Result<u32, _>> = from_bufread_lines(lines).collect_results();
    let b: Result<Vec<u32>, _> = b.into_iter().collect();
    let b = b.unwrap();
    assert!(b == vec![0, 1, 2]);
}

#[test]
fn five_valid_lines_in_order() {
    let a = "0\n1\n2\n3\n4".as_bytes();
    let b: Vec<Result<u32, _>> = from_bufread_lines(split_lines(a)).collect_results();
    let b: Result<Vec<u32>, _> = b.into_iter().collect();
    let b = b.unwrap();
    assert!(b == vec![0, 1, 2, 3, 4]);
}

#[test]
fn io_failure_is_io_variant_and_local() {
    let e: io::Error = io::Error::from(io::ErrorKind::NotFound);
    let a: Vec<Result<String, io::Error>> =
        vec![Ok(String::from("0")), Err(e), Ok(String::from("2"))];
    let b: Vec<Result<u32, ParseListError<ParseUintError>>> =
        from_iter(VecLineProducer::new(a)).collect_results();
    assert!(matches!(b[1], Err(ParseListError::Io(_))));
    assert!(b[0].as_ref().unwrap() == &0);
    assert!(b[2].as_ref().unwrap() == &2);
}

#[test]
fn parse_failure_is_parse_variant() {
    let a: Vec<Result<String, io::Error>> = vec![Ok(String::from("boop"))];
    let b: Vec<Result<u32, ParseListError<ParseUintError>>> =
        from_iter(VecLineProducer::new(a)).collect_results();
    assert!(b.len() == 1);
    assert!(matches!(b[0], Err(ParseListError::Parse(ParseUintError))));
}

#[test]
fn sequence_stays_pollable_after_failures() {
    let e: io::Error = io::Error::from(io::ErrorKind::NotFound);
    let a: Vec<Result<String, io::Error>> =
        vec![Ok(String::from("0")), Err(e), Ok(String::from("2"))];
    let mut it = from_iter::<u32, _>(VecLineProducer::new(a));
    assert!(matches!(it.next(), Some(Ok(0))));
    assert!(matches!(it.next(), Some(Err(ParseListError::Io(_)))));
    assert!(matches!(it.next(), Some(Ok(2))));
    assert!(it.next().is_none());
    assert!(it.next().is_none());
}

#[test]
fn blank_lines_are_excluded() {
    let a = "0\n\n   \n2".as_bytes();
    let b: Vec<Result<u32, _>> = from_bufread_lines(split_lines(a)).collect_results();
    let b: Result<Vec<u32>, _> = b.into_iter().collect();
    let b = b.unwrap();
    assert!(b == vec![0, 2]);
}

#[test]
fn all_blank_input_yields_nothing() {
    let a = "\n \n\t\n".as_bytes();
    let b: Vec<Result<u32, ParseListError<ParseUintError>>> =
        from_bufread_lines(split_lines(a)).collect_results();
    assert!(b.is_empty());
}

#[test]
fn failed_read_is_never_excluded() {
    let e: io::Error = io::Error::from(io::ErrorKind::BrokenPipe);
    let a: Vec<Result<String, io::Error>> = vec![Ok(String::from("  ")), Err(e)];
    let b: Vec<Result<u32, ParseListError<ParseUintError>>> =
        from_bufread_lines(a).collect_results();
    assert!(b.len() == 1);
    assert!(matches!(b[0], Err(ParseListError::Io(_))));
}

#[test]
fn nonblank_keeps_failures_and_text() {
    let e: io::Error = io::Error::from(io::ErrorKind::NotFound);
    assert!(nonblank(&Err(e)));
    assert!(nonblank(&Ok(String::from("7"))));
    assert!(!nonblank(&Ok(String::from(""))));
    assert!(!nonblank(&Ok(String::from(" \t "))));
}

#[test]
fn u32_parse_exact_values() {
    let ok = |t: &str| -> Result<u32, ParseListError<ParseUintError>> {
        string_result_to_item_result(Ok(String::from(t)))
    };
    assert!(ok("0").unwrap() == 0);
    assert!(ok("+7").unwrap() == 7);
    assert!(ok("4294967295").unwrap() == u32::MAX);
    assert!(ok("007").unwrap() == 7);
    assert!(matches!(ok("4294967296"), Err(ParseListError::Parse(_))));
    assert!(matches!(ok(""), Err(ParseListError::Parse(_))));
    assert!(matches!(ok("+"), Err(ParseListError::Parse(_))));
    assert!(matches!(ok("-1"), Err(ParseListError::Parse(_))));
    assert!(matches!(ok(" 1"), Err(ParseListError::Parse(_))));
    assert!(matches!(ok("1 "), Err(ParseListError::Parse(_))));
    assert!(matches!(ok("1.5"), Err(ParseListError::Parse(_))));
}
