use sarusctl::graphroot::{parse_graphroot, DecodeError};

#[test]
fn trims_surrounding_whitespace() {
    let raw = b"  /var/lib/containers/storage\n".to_vec();
    assert_eq!(
        parse_graphroot(&raw),
        Ok(String::from("/var/lib/containers/storage"))
    );
}

#[test]
fn plain_path_is_kept_as_is() {
    let raw = b"/var/lib/containers/storage".to_vec();
    assert_eq!(
        parse_graphroot(&raw),
        Ok(String::from("/var/lib/containers/storage"))
    );
}

#[test]
fn trims_tabs_and_carriage_returns() {
    let raw = b"\t\r\n /tmp/graph \t\r\n".to_vec();
    assert_eq!(parse_graphroot(&raw), Ok(String::from("/tmp/graph")));
}

#[test]
fn inner_whitespace_is_kept() {
    let raw = b" /path with spaces \n".to_vec();
    assert_eq!(parse_graphroot(&raw), Ok(String::from("/path with spaces")));
}

#[test]
fn empty_answer_decodes_to_empty_path() {
    assert_eq!(parse_graphroot(&Vec::new()), Ok(String::new()));
    assert_eq!(parse_graphroot(&b" \n\t".to_vec()), Ok(String::new()));
}

#[test]
fn non_ascii_text_is_decoded() {
    let mut raw = "/srv/späicher".as_bytes().to_vec();
    raw.push(b'\n');
    assert_eq!(parse_graphroot(&raw), Ok(String::from("/srv/sp\u{e4}icher")));
}

#[test]
fn invalid_utf8_is_rejected() {
    let raw = vec![0xff, 0xfe, 0xfd];
    assert_eq!(parse_graphroot(&raw), Err(DecodeError::NotText));
}

#[test]
fn invalid_utf8_inside_text_is_rejected() {
    let raw = b"/var/\xFFlib\n".to_vec();
    assert_eq!(parse_graphroot(&raw), Err(DecodeError::NotText));
}
