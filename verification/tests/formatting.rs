use axum::http::StatusCode;
use goggin_rs_logger::formatting::{
    StatusClass, classify_status, extract_after_src, get_hashtags, get_spaces,
};

#[test]
fn classify_status_maps_expected_classes() {
    assert_eq!(classify_status(StatusCode::OK.as_u16()), StatusClass::Success);
    assert_eq!(
        classify_status(StatusCode::BAD_REQUEST.as_u16()),
        StatusClass::ClientError
    );
    assert_eq!(
        classify_status(StatusCode::INTERNAL_SERVER_ERROR.as_u16()),
        StatusClass::ServerError
    );
    assert_eq!(
        classify_status(StatusCode::SWITCHING_PROTOCOLS.as_u16()),
        StatusClass::Other
    );
}

#[test]
fn formatting_extract_after_src_returns_relative_suffix() {
    let extracted = extract_after_src(Some("/tmp/project/src/core/logger/mod.rs"));
    assert_eq!(extracted, "core/logger/mod.rs");
}

#[test]
fn extract_after_src_returns_empty_when_src_not_found() {
    let extracted = extract_after_src(Some("/tmp/project/core/logger/mod.rs"));
    assert!(extracted.is_empty());
}

#[test]
fn extract_after_src_returns_empty_for_none() {
    let extracted = extract_after_src(None);
    assert!(extracted.is_empty());
}

#[test]
fn banner_and_indent_helpers_are_deterministic() {
    assert_eq!(get_hashtags(0), "");
    assert_eq!(get_hashtags(3), "###");
    assert_eq!(get_spaces(0), "");
    assert_eq!(get_spaces(2), "    ");
}
