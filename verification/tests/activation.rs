use socket_activation::adopt::{adopt_descriptors, Listener, SD_LISTEN_FDS_START};
use socket_activation::count::parse_listen_fds;
use socket_activation::errors::{classify_load_failure, Error, LoadFailure};
use socket_activation::{
    socket_activation, socket_activation_from_count, socket_activation_from_env, CountOutcome,
};

fn fds_of(listeners: Vec<Listener>) -> Vec<i32> {
    listeners.into_iter().map(|l| l.into_raw()).collect()
}

#[test]
fn parse_absent_value_is_zero() {
    assert_eq!(parse_listen_fds(None), 0);
}

#[test]
fn parse_zero_is_zero() {
    assert_eq!(parse_listen_fds(Some(b"0")), 0);
}

#[test]
fn parse_empty_is_zero() {
    assert_eq!(parse_listen_fds(Some(b"")), 0);
}

#[test]
fn parse_non_numeric_is_zero() {
    assert_eq!(parse_listen_fds(Some(b"abc")), 0);
    assert_eq!(parse_listen_fds(Some(b"12x")), 0);
    assert_eq!(parse_listen_fds(Some(b" 3")), 0);
    assert_eq!(parse_listen_fds(Some(b"-1")), 0);
}

#[test]
fn parse_plain_number() {
    assert_eq!(parse_listen_fds(Some(b"7")), 7);
    assert_eq!(parse_listen_fds(Some(b"42")), 42);
    assert_eq!(parse_listen_fds(Some(b"007")), 7);
}

#[test]
fn parse_leading_plus_sign() {
    assert_eq!(parse_listen_fds(Some(b"+5")), 5);
    assert_eq!(parse_listen_fds(Some(b"+")), 0);
    assert_eq!(parse_listen_fds(Some(b"++1")), 0);
}

#[test]
fn parse_largest_value() {
    assert_eq!(parse_listen_fds(Some(b"18446744073709551615")), u64::MAX);
}

#[test]
fn parse_overflowing_value_is_zero() {
    assert_eq!(parse_listen_fds(Some(b"18446744073709551616")), 0);
    assert_eq!(parse_listen_fds(Some(b"99999999999999999999999")), 0);
}

#[test]
fn env_strategy_unconfigured_yields_empty() {
    let r = socket_activation_from_env(None);
    assert!(r.is_ok());
    assert_eq!(fds_of(r.unwrap()).len(), 0);
}

#[test]
fn env_strategy_zero_empty_and_garbage_yield_empty() {
    for value in [&b"0"[..], &b""[..], &b"not a number"[..]] {
        let r = socket_activation_from_env(Some(value));
        assert!(r.is_ok());
        assert_eq!(fds_of(r.unwrap()).len(), 0);
    }
}

#[test]
fn env_strategy_count_yields_ascending_range() {
    let r = socket_activation_from_env(Some(b"4"));
    assert!(r.is_ok());
    let fds = fds_of(r.unwrap());
    assert_eq!(fds, vec![3, 4, 5, 6]);
}

#[test]
fn count_zero_yields_empty() {
    let r = socket_activation_from_count(0);
    assert!(r.is_ok());
    assert_eq!(fds_of(r.unwrap()).len(), 0);
}

#[test]
fn count_yields_contiguous_fds_without_gap_or_repeat() {
    let n: i32 = 6;
    let r = socket_activation_from_count(n);
    let fds = fds_of(r.unwrap());
    assert_eq!(fds.len(), n as usize);
    for (i, fd) in fds.iter().enumerate() {
        assert_eq!(*fd, SD_LISTEN_FDS_START + i as i32);
    }
    let mut sorted = fds.clone();
    sorted.sort();
    sorted.dedup();
    assert_eq!(sorted, fds);
}

#[test]
fn negative_count_is_os_error_with_negated_code() {
    let r = socket_activation_from_count(-2);
    assert!(matches!(r, Err(Error::Systemd(2))));
    let r = socket_activation_from_count(-11);
    assert!(matches!(r, Err(Error::Systemd(11))));
}

#[test]
fn entry_with_negative_count_is_os_error() {
    let r = socket_activation(CountOutcome::Count(-95));
    assert!(matches!(r, Err(Error::Systemd(95))));
}

#[test]
fn entry_with_count_adopts_range() {
    let r = socket_activation(CountOutcome::Count(3));
    let fds = fds_of(r.unwrap());
    assert_eq!(fds, vec![3, 4, 5]);
}

#[test]
fn library_not_found_is_distinct_failure_kind() {
    let failure = LoadFailure::LibraryNotFound(String::from("cannot open shared object file"));
    let r = socket_activation(CountOutcome::Failed(failure));
    match r {
        Err(Error::LibLoadingFailedToLoadSystemd(m)) => {
            assert_eq!(m, "cannot open shared object file");
        }
        _ => panic!("expected the library-load failure kind"),
    }
}

#[test]
fn other_loading_failures_are_general_kind() {
    let r = socket_activation(CountOutcome::Failed(LoadFailure::SymbolNotFound(String::from(
        "undefined symbol",
    ))));
    assert!(matches!(r, Err(Error::LibLoading(m)) if m == "undefined symbol"));
    let r = socket_activation(CountOutcome::Failed(LoadFailure::LibraryOther(String::from(
        "bad image",
    ))));
    assert!(matches!(r, Err(Error::LibLoading(m)) if m == "bad image"));
}

#[test]
fn classify_maps_each_failure() {
    let e = classify_load_failure(LoadFailure::LibraryNotFound(String::from("a")));
    assert!(matches!(e, Error::LibLoadingFailedToLoadSystemd(m) if m == "a"));
    let e = classify_load_failure(LoadFailure::LibraryOther(String::from("b")));
    assert!(matches!(e, Error::LibLoading(m) if m == "b"));
    let e = classify_load_failure(LoadFailure::SymbolNotFound(String::from("c")));
    assert!(matches!(e, Error::LibLoading(m) if m == "c"));
}

#[test]
fn repeated_activation_observing_same_count_is_equivalent() {
    let first = socket_activation(CountOutcome::Count(4));
    let second = socket_activation(CountOutcome::Count(4));
    assert_eq!(fds_of(first.unwrap()), fds_of(second.unwrap()));
    let first = socket_activation(CountOutcome::Count(-7));
    let second = socket_activation(CountOutcome::Count(-7));
    assert!(matches!(first, Err(Error::Systemd(7))));
    assert!(matches!(second, Err(Error::Systemd(7))));
}

#[test]
fn adoption_covers_exactly_the_range() {
    let listeners = adopt_descriptors(5);
    let fds = fds_of(listeners);
    assert_eq!(fds, vec![3, 4, 5, 6, 7]);
}

#[test]
fn listener_owns_the_raw_descriptor() {
    let l = Listener::from_raw(9);
    assert_eq!(l.raw_fd(), 9);
    assert_eq!(l.into_raw(), 9);
}
