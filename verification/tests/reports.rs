use sarusctl::report::{render_report, validate_report};

#[test]
fn validate_success_report() {
    let filepath = String::from("env.toml");
    let r = validate_report(&filepath, &None);
    assert_eq!(r.stdout, "env.toml is a valid EDF file");
    assert_eq!(r.stderr, "");
    assert_eq!(r.return_code, 0);
}

#[test]
fn validate_failure_report() {
    let filepath = String::from("broken.toml");
    let error = Some(String::from("expected a table at line 3"));
    let r = validate_report(&filepath, &error);
    assert_eq!(r.stdout, "broken.toml is an INVALID EDF file");
    assert_eq!(r.stderr, "expected a table at line 3");
    assert!(!r.stderr.is_empty());
    assert_eq!(r.return_code, 1);
}

#[test]
fn render_success_report() {
    let rendered = Ok(String::from("{\n  \"image\": \"alpine\"\n}"));
    let r = render_report(&rendered);
    assert_eq!(r.stdout, "{\n  \"image\": \"alpine\"\n}");
    assert_eq!(r.stderr, "");
    assert_eq!(r.return_code, 0);
}

#[test]
fn render_failure_report() {
    let rendered = Err(String::from("no such file"));
    let r = render_report(&rendered);
    assert_eq!(r.stdout, "");
    assert_eq!(r.stderr, "no such file");
    assert_eq!(r.return_code, 1);
}
