use wasm_http_host::settings::{parse_count, settings_from_options, CliError};

fn s(x: &str) -> Option<String> {
    Some(x.to_string())
}

#[test]
fn counts_parse_like_usize() {
    assert_eq!(parse_count("0"), Some(0));
    assert_eq!(parse_count("42"), Some(42));
    assert_eq!(parse_count("+7"), Some(7));
    assert_eq!(parse_count("18446744073709551615"), Some(usize::MAX));
    assert_eq!(parse_count("18446744073709551616"), None);
    assert_eq!(parse_count(""), None);
    assert_eq!(parse_count("+"), None);
    assert_eq!(parse_count("-1"), None);
    assert_eq!(parse_count("4x"), None);
    assert_eq!(parse_count(" 4"), None);
}

#[test]
fn defaults_apply() {
    let st = settings_from_options(s("localhost"), None, None, vec![], false).unwrap();
    assert_eq!(st.redis_host, "localhost");
    assert_eq!(st.redis_thread_pool_size, 1);
    assert_eq!(st.http_server_worker_pool_size, 2);
    assert!(!st.verbose);
}

#[test]
fn sizes_are_read() {
    let st = settings_from_options(s("h"), s("5"), s("8"), vec![], true).unwrap();
    assert_eq!(st.redis_thread_pool_size, 5);
    assert_eq!(st.http_server_worker_pool_size, 8);
    assert!(st.verbose);
}

#[test]
fn missing_host_is_refused() {
    let r = settings_from_options(None, None, None, vec![], false);
    assert!(matches!(r, Err(CliError::MissingRedisHost)));
}

#[test]
fn free_arguments_are_refused() {
    let r = settings_from_options(s("h"), None, None, vec!["extra".to_string()], false);
    assert!(matches!(r, Err(CliError::UnknownArgs(f)) if f == vec!["extra".to_string()]));
}

#[test]
fn bad_sizes_are_refused() {
    let r = settings_from_options(s("h"), s("many"), None, vec![], false);
    assert!(matches!(r, Err(CliError::InvalidCount(t)) if t == "many"));
    let r = settings_from_options(s("h"), None, s("0"), vec![], false);
    assert!(matches!(r, Err(CliError::InvalidCount(t)) if t == "0"));
}
