use lychee_core::codec::deserialize;
use lychee_core::codec::serialize;
use lychee_core::error::ErrorKind;
use lychee_core::error::IoCategory;
use lychee_core::status::AcceptedCodes;
use lychee_core::status::ResponseSummary;
use lychee_core::status::Status;
use lychee_core::status::TransportFailure;

fn response(code: u16) -> ResponseSummary {
    ResponseSummary { code, error_text: format!("HTTP status error ({}) for url", code) }
}

#[test]
fn success_range_classifies_as_success() {
    assert_eq!(Status::new(&response(200), None), Status::Success(200));
    assert_eq!(Status::new(&response(204), None), Status::Success(204));
}

#[test]
fn redirection_range_classifies_as_redirected() {
    assert_eq!(Status::new(&response(301), None), Status::Redirected(301));
}

#[test]
fn error_range_classifies_as_client_error() {
    let st = Status::new(&response(404), None);
    assert_eq!(
        st,
        Status::Error(ErrorKind::Client {
            err: "HTTP status error (404) for url".to_string(),
            status: Some(404),
        })
    );
    assert!(st.is_failure());
}

#[test]
fn out_of_range_code_classifies_as_unknown() {
    assert_eq!(Status::new(&response(150), None), Status::UnknownStatusCode(150));
}

#[test]
fn accepted_code_wins_over_error_range() {
    let accepted = AcceptedCodes::new(vec![404, 410]);
    assert_eq!(Status::new(&response(404), Some(accepted)), Status::Success(404));
}

#[test]
fn classification_is_deterministic() {
    let a1 = AcceptedCodes::new(vec![404]);
    let a2 = AcceptedCodes::new(vec![404]);
    let first = Status::new(&response(404), Some(a1));
    let second = Status::new(&response(404), Some(a2));
    assert_eq!(first, second);
}

#[test]
fn timeout_without_status_code() {
    let f = TransportFailure {
        timeout: true,
        builder: false,
        error_text: "operation timed out".to_string(),
        status: None,
    };
    let st = Status::from_failure(f);
    assert_eq!(st, Status::Timeout(None));
    assert!(st.is_timeout());
    assert_eq!(st.message().as_str(), "Timeout");
}

#[test]
fn timeout_with_status_code_keeps_it() {
    let f = TransportFailure {
        timeout: true,
        builder: false,
        error_text: "operation timed out".to_string(),
        status: Some(504),
    };
    let st = Status::from_failure(f);
    assert_eq!(st, Status::Timeout(Some(504)));
    assert_eq!(st.message().as_str(), "Timeout: 504");
}

#[test]
fn builder_failure_is_unsupported() {
    let f = TransportFailure {
        timeout: false,
        builder: true,
        error_text: "builder error".to_string(),
        status: None,
    };
    let st = Status::from_failure(f);
    assert!(st.is_unsupported());
}

#[test]
fn other_transport_failure_is_an_error() {
    let f = TransportFailure {
        timeout: false,
        builder: false,
        error_text: "connection refused".to_string(),
        status: None,
    };
    let st = Status::from_failure(f);
    assert_eq!(
        st,
        Status::Error(ErrorKind::Client { err: "connection refused".to_string(), status: None })
    );
}

#[test]
fn predicates_match_the_tags() {
    assert!(Status::Success(200).is_success());
    assert!(!Status::Success(200).is_failure());
    assert!(Status::Excluded.is_excluded());
    assert!(Status::Timeout(None).is_timeout());
    assert!(Status::Unsupported(ErrorKind::MissingHost).is_unsupported());
    assert!(Status::Error(ErrorKind::MissingHost).is_failure());
}

#[test]
fn every_tag_gets_a_distinct_icon() {
    let icons = vec![
        Status::Success(200).icon(),
        Status::Redirected(301).icon(),
        Status::UnknownStatusCode(150).icon(),
        Status::Excluded.icon(),
        Status::Error(ErrorKind::MissingHost).icon(),
        Status::Timeout(None).icon(),
        Status::Unsupported(ErrorKind::MissingHost).icon(),
    ];
    for a in 0..icons.len() {
        for b in 0..icons.len() {
            if a != b {
                assert_ne!(icons[a], icons[b]);
            }
        }
    }
}

#[test]
fn io_equality_ignores_volatile_message_text() {
    let a = ErrorKind::Io {
        path: Some("/tmp/data".to_string()),
        category: IoCategory::PermissionDenied,
        message: "Permission denied (os error 13)".to_string(),
    };
    let b = ErrorKind::Io {
        path: Some("/tmp/data".to_string()),
        category: IoCategory::PermissionDenied,
        message: "Access is denied. (os error 5)".to_string(),
    };
    assert_eq!(a, b);
    assert_eq!(a.hash_code(), b.hash_code());
}

#[test]
fn io_equality_distinguishes_category_and_path() {
    let a = ErrorKind::Io {
        path: Some("/tmp/data".to_string()),
        category: IoCategory::PermissionDenied,
        message: "m".to_string(),
    };
    let b = ErrorKind::Io {
        path: Some("/tmp/data".to_string()),
        category: IoCategory::NotFound,
        message: "m".to_string(),
    };
    let c = ErrorKind::Io {
        path: None,
        category: IoCategory::PermissionDenied,
        message: "m".to_string(),
    };
    assert_ne!(a, b);
    assert_ne!(a, c);
}

#[test]
fn parse_equality_uses_input_and_presence_of_mail_error() {
    let a = ErrorKind::Parse {
        input: "foo".to_string(),
        url_error: "relative URL without a base".to_string(),
        mail_error: Some("missing at sign".to_string()),
    };
    let b = ErrorKind::Parse {
        input: "foo".to_string(),
        url_error: "empty host".to_string(),
        mail_error: Some("another wording".to_string()),
    };
    let c = ErrorKind::Parse {
        input: "foo".to_string(),
        url_error: "relative URL without a base".to_string(),
        mail_error: None,
    };
    let d = ErrorKind::Parse {
        input: "bar".to_string(),
        url_error: "relative URL without a base".to_string(),
        mail_error: Some("missing at sign".to_string()),
    };
    assert_eq!(a, b);
    assert_eq!(a.hash_code(), b.hash_code());
    assert_ne!(a, c);
    assert_ne!(a, d);
}

#[test]
fn header_and_traversal_compare_by_variant_alone() {
    let h1 = ErrorKind::Header { message: "bad value".to_string() };
    let h2 = ErrorKind::Header { message: "other value".to_string() };
    assert_eq!(h1, h2);
    assert_eq!(h1.hash_code(), h2.hash_code());
    let d1 = ErrorKind::DirTraversal { message: "loop detected".to_string() };
    let d2 = ErrorKind::DirTraversal { message: "io failure".to_string() };
    assert_eq!(d1, d2);
    assert_ne!(h1, d1);
}

#[test]
fn different_variants_never_compare_equal() {
    let a = ErrorKind::MissingHost;
    let b = ErrorKind::MissingGitHubToken;
    assert_ne!(a, b);
    assert_eq!(a, ErrorKind::MissingHost);
}

#[test]
fn messages_identify_the_cause() {
    let k = ErrorKind::Io {
        path: Some("/tmp/data".to_string()),
        category: IoCategory::NotFound,
        message: "no such file".to_string(),
    };
    assert_eq!(
        k.message().as_str(),
        "Failed to read from path: `/tmp/data`, reason: not found: no such file"
    );
    assert_eq!(
        ErrorKind::MissingHost.message().as_str(),
        "URL is missing a host"
    );
    assert_eq!(Status::Success(200).message().as_str(), "OK (200)");
    assert_eq!(Status::Redirected(308).message().as_str(), "Redirect (308)");
    assert_eq!(Status::Excluded.message().as_str(), "Excluded");
    assert_eq!(
        Status::Error(ErrorKind::MissingHost).message().as_str(),
        "Failed: URL is missing a host"
    );
}

#[test]
fn optional_code_serialization_round_trips() {
    let some = serialize(&Some(404));
    assert_eq!(deserialize(some.as_str()), Some(Some(404)));
    let none = serialize(&None);
    assert_eq!(deserialize(none.as_str()), Some(None));
    assert_eq!(deserialize("junk"), None);
}

#[test]
fn github_failures_compare_by_message() {
    let a = Status::from_github("rate limited".to_string());
    let b = Status::from_github("rate limited".to_string());
    let c = Status::from_github("forbidden".to_string());
    assert_eq!(a, b);
    assert_ne!(a, c);
}
