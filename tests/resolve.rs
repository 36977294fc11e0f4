use azure_sdk_for_rust::errors::{
    check_status_extract_body, check_status_extract_headers_and_body, extract_status_and_body,
    extract_status_headers_and_body, AzureError, AzurePathParseError, Exchange, UnexpectedHTTPResult,
};
use futures::{Future, Stream};

fn transport_error() -> hyper::Error {
    let failing = futures::stream::once::<Vec<u8>, std::io::Error>(Err(std::io::Error::new(
        std::io::ErrorKind::ConnectionReset,
        "connection reset",
    )));
    let body = hyper::Body::wrap_stream(failing);
    match body.concat2().wait() {
        Err(e) => e,
        Ok(_) => panic!("the body stream was meant to fail"),
    }
}

#[test]
fn unexpected_http_result_reads_back_received_status() {
    let u = UnexpectedHTTPResult::new(200, 404, "not found");
    assert_eq!(u.status_code(), 404);
    assert_eq!(u.expected_status_code(), 200);
    assert_eq!(u.body(), "not found");
    assert_eq!(u.description(), "Unexpected HTTP result");
}

#[test]
fn status_code_is_stable_across_calls() {
    let u = UnexpectedHTTPResult::new(201, 409, "conflict");
    let first = u.status_code();
    let second = u.status_code();
    assert_eq!(first, second);
    assert_eq!(first, 409);
    assert_eq!(u.clone(), u);
}

#[test]
fn head_failure_is_a_transport_error() {
    let r = extract_status_headers_and_body::<()>(Exchange::HeadFailed(transport_error()));
    assert!(matches!(r, Err(AzureError::HyperError(_))));
}

#[test]
fn body_failure_is_a_transport_error() {
    let r = check_status_extract_headers_and_body::<()>(Exchange::BodyFailed(transport_error()), 200);
    assert!(matches!(r, Err(AzureError::HyperError(_))));
    let r = check_status_extract_body::<()>(Exchange::HeadFailed(transport_error()), 200);
    assert!(matches!(r, Err(AzureError::HyperError(_))));
}

#[test]
fn complete_exchange_is_returned_whole() {
    let r = extract_status_headers_and_body(Exchange::Complete(204, vec![("etag", "x")], vec![1u8, 2, 3]));
    match r {
        Ok((status, headers, body)) => {
            assert_eq!(status, 204);
            assert_eq!(headers, vec![("etag", "x")]);
            assert_eq!(body, vec![1u8, 2, 3]);
        }
        Err(e) => panic!("unexpected error {:?}", e),
    }
}

#[test]
fn mismatched_status_carries_received_status_and_body() {
    let r = check_status_extract_headers_and_body(Exchange::Complete(404, "h", b"not found".to_vec()), 200);
    match r {
        Err(AzureError::UnexpectedHTTPResult(u)) => {
            assert_eq!(u.status_code(), 404);
            assert_eq!(u.expected_status_code(), 200);
            assert_eq!(u.body(), "not found");
        }
        other => panic!("unexpected outcome {:?}", other),
    }
}

#[test]
fn mismatched_status_with_binary_body_is_a_decoding_error() {
    let r = check_status_extract_headers_and_body(Exchange::Complete(500, (), vec![0xffu8, 0xfe]), 200);
    assert!(matches!(r, Err(AzureError::UTF8Error(_))));
}

#[test]
fn matching_status_returns_headers_and_raw_body() {
    let r = check_status_extract_headers_and_body(Exchange::Complete(200, "headers", vec![0xffu8, 0x00]), 200);
    match r {
        Ok((headers, body)) => {
            assert_eq!(headers, "headers");
            assert_eq!(body, vec![0xffu8, 0x00]);
        }
        Err(e) => panic!("unexpected error {:?}", e),
    }
}

#[test]
fn text_body_is_decoded() {
    let r = extract_status_and_body(Exchange::Complete(200, (), "caf\u{e9}".as_bytes().to_vec()));
    match r {
        Ok((status, text)) => {
            assert_eq!(status, 200);
            assert_eq!(text, "caf\u{e9}");
        }
        Err(e) => panic!("unexpected error {:?}", e),
    }
    let r = extract_status_and_body(Exchange::Complete(200, (), vec![0xc3u8]));
    assert!(matches!(r, Err(AzureError::UTF8Error(_))));
}

#[test]
fn text_with_expected_status() {
    let r = check_status_extract_body(Exchange::Complete(201, (), b"{\"id\":\"a\"}".to_vec()), 201);
    assert_eq!(r.unwrap(), "{\"id\":\"a\"}");
    let r = check_status_extract_body(Exchange::Complete(412, (), b"precondition failed".to_vec()), 201);
    match r {
        Err(AzureError::UnexpectedHTTPResult(u)) => {
            assert_eq!(u.status_code(), 412);
            assert_eq!(u.expected_status_code(), 201);
            assert_eq!(u.body(), "precondition failed");
        }
        other => panic!("unexpected outcome {:?}", other),
    }
    let r = check_status_extract_body(Exchange::Complete(201, (), vec![0x80u8]), 201);
    assert!(matches!(r, Err(AzureError::UTF8Error(_))));
}

#[test]
fn conversions_keep_their_cause() {
    assert!(matches!(AzureError::from(()), AzureError::GenericError));
    let e = AzureError::from(UnexpectedHTTPResult::new(200, 503, "busy"));
    match e {
        AzureError::UnexpectedHTTPResult(u) => assert_eq!(u.status_code(), 503),
        other => panic!("unexpected kind {:?}", other),
    }
    let e = AzureError::from(AzurePathParseError::MissingBlobError);
    assert!(matches!(e, AzureError::AzurePathParseError(AzurePathParseError::MissingBlobError)));
    let e = AzureError::from("x1".parse::<u32>().unwrap_err());
    assert!(matches!(e, AzureError::ParseIntError(_)));
    let e = AzureError::from(transport_error());
    assert!(matches!(e, AzureError::HyperError(_)));
    let e = AzureError::from(std::str::from_utf8(&[0xffu8]).unwrap_err());
    assert!(matches!(e, AzureError::UTF8Error(_)));
}
