use async_chores::verbosity::{verbosity_level, Verbosity};

#[test]
fn unset_verbosity_is_info() {
    assert_eq!(verbosity_level(None), Verbosity::Info);
}

#[test]
fn verbosity_by_name_ignores_case() {
    assert_eq!(verbosity_level(Some("error")), Verbosity::Error);
    assert_eq!(verbosity_level(Some("WARN")), Verbosity::Warn);
    assert_eq!(verbosity_level(Some("Info")), Verbosity::Info);
    assert_eq!(verbosity_level(Some("dEbUg")), Verbosity::Debug);
    assert_eq!(verbosity_level(Some("TRACE")), Verbosity::Trace);
}

#[test]
fn verbosity_by_number() {
    assert_eq!(verbosity_level(Some("1")), Verbosity::Error);
    assert_eq!(verbosity_level(Some("2")), Verbosity::Warn);
    assert_eq!(verbosity_level(Some("3")), Verbosity::Info);
    assert_eq!(verbosity_level(Some("+4")), Verbosity::Debug);
    assert_eq!(verbosity_level(Some("005")), Verbosity::Trace);
}

#[test]
fn unknown_verbosity_falls_back_to_info() {
    assert_eq!(verbosity_level(Some("0")), Verbosity::Info);
    assert_eq!(verbosity_level(Some("6")), Verbosity::Info);
    assert_eq!(verbosity_level(Some("-1")), Verbosity::Info);
    assert_eq!(verbosity_level(Some("verbose")), Verbosity::Info);
    assert_eq!(verbosity_level(Some(" debug")), Verbosity::Info);
    assert_eq!(verbosity_level(Some("")), Verbosity::Info);
}
