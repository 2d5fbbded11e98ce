use omni_tagger::bridge::{
    delete_after_dispatch_args, encode_response, ok_response, parse_request, temp_file_name,
    url_dispatch_args, BridgeRequest, ImageExt, RequestError,
};

#[test]
fn url_request_end_to_end() {
    // The whole bridge-side story of a URL request: parsed, dispatched as
    // `--process-url`, answered with the fixed success response, and no
    // temporary file involved.
    let payload = b"{\"url\":\"http://x/img.png\"}".to_vec();
    match parse_request(&payload) {
        Ok(BridgeRequest::UrlRequest { url }) => {
            assert_eq!(url, "http://x/img.png");
            let args = url_dispatch_args(&url);
            assert_eq!(args, vec!["--process-url".to_string(), "http://x/img.png".to_string()]);
        }
        _ => panic!("a url request must parse as UrlRequest"),
    }
    assert_eq!(
        ok_response(),
        "{\"status\":\"ok\",\"message\":\"Processing started\"}"
    );
}

#[test]
fn png_data_uri_decodes_and_names_png_file() {
    let payload = b"{\"data\":\"data:image/png;base64,aGVsbG8=\"}".to_vec();
    match parse_request(&payload) {
        Ok(BridgeRequest::DataRequest { ext, bytes }) => {
            assert_eq!(ext, ImageExt::Png);
            assert_eq!(bytes, b"hello".to_vec());
            let name = temp_file_name(1234, ext);
            assert_eq!(name, "omni_tagger_1234.png");
            let args = delete_after_dispatch_args(&name);
            assert_eq!(
                args,
                vec!["--delete-after".to_string(), "omni_tagger_1234.png".to_string()]
            );
        }
        _ => panic!("a png data uri must parse as DataRequest"),
    }
}

#[test]
fn jpeg_data_uri_selects_jpg_extension() {
    let payload = b"{\"data\":\"data:image/jpeg;base64,aGVsbG8=\"}".to_vec();
    match parse_request(&payload) {
        Ok(BridgeRequest::DataRequest { ext, bytes }) => {
            assert_eq!(ext, ImageExt::Jpg);
            assert_eq!(bytes, b"hello".to_vec());
            assert_eq!(temp_file_name(7, ext), "omni_tagger_7.jpg");
        }
        _ => panic!("a jpeg data uri must parse as DataRequest"),
    }
}

#[test]
fn webp_data_uri_selects_webp_extension() {
    let payload = b"{\"data\":\"data:image/webp;base64,AA==\"}".to_vec();
    match parse_request(&payload) {
        Ok(BridgeRequest::DataRequest { ext, bytes }) => {
            assert_eq!(ext, ImageExt::Webp);
            assert_eq!(bytes, vec![0u8]);
        }
        _ => panic!("a webp data uri must parse as DataRequest"),
    }
}

#[test]
fn unknown_media_type_defaults_to_png() {
    let payload = b"{\"data\":\"data:text/plain;base64,AA==\"}".to_vec();
    match parse_request(&payload) {
        Ok(BridgeRequest::DataRequest { ext, .. }) => assert_eq!(ext, ImageExt::Png),
        _ => panic!("an unknown media type still parses, with a png name"),
    }
}

#[test]
fn url_wins_over_data() {
    let payload =
        b"{\"url\":\"http://y\",\"data\":\"data:image/png;base64,AA==\"}".to_vec();
    match parse_request(&payload) {
        Ok(BridgeRequest::UrlRequest { url }) => assert_eq!(url, "http://y"),
        _ => panic!("the url member must win over the data member"),
    }
}

#[test]
fn payload_that_is_no_json_is_refused() {
    let payload = b"not json at all".to_vec();
    assert!(matches!(parse_request(&payload), Err(RequestError::InvalidJson)));
}

#[test]
fn object_without_source_is_refused() {
    let payload = b"{}".to_vec();
    assert!(matches!(parse_request(&payload), Err(RequestError::NoSource)));
}

#[test]
fn data_without_scheme_is_refused() {
    let payload = b"{\"data\":\"just bytes\"}".to_vec();
    assert!(matches!(parse_request(&payload), Err(RequestError::NotDataUri)));
}

#[test]
fn data_without_comma_is_refused() {
    let payload = b"{\"data\":\"data:image/png;base64\"}".to_vec();
    assert!(matches!(parse_request(&payload), Err(RequestError::MalformedDataUri)));
}

#[test]
fn data_with_bad_base64_is_refused() {
    let payload = b"{\"data\":\"data:image/png;base64,!!!\"}".to_vec();
    assert!(matches!(parse_request(&payload), Err(RequestError::BadBase64)));
}

#[test]
fn error_messages_name_each_refusal() {
    assert_eq!(RequestError::InvalidJson.message(), "Invalid JSON");
    assert_eq!(RequestError::NoSource.message(), "No URL or data provided");
    assert_eq!(
        RequestError::NotDataUri.message(),
        "Invalid data URI format (must start with data:)"
    );
    assert_eq!(RequestError::MalformedDataUri.message(), "Invalid data URI format");
    assert_eq!(RequestError::BadBase64.message(), "Failed to decode base64");
}

#[test]
fn response_escapes_message() {
    let response = encode_response(false, "a\"b\\c\nd");
    let parsed: serde_json::Value = serde_json::from_str(&response).unwrap();
    assert_eq!(parsed["status"], "error");
    assert_eq!(parsed["message"], "a\"b\\c\nd");
}

#[test]
fn response_escapes_control_characters() {
    let response = encode_response(true, "x\u{1f}y\tz");
    assert!(response.contains("\\u001f"));
    let parsed: serde_json::Value = serde_json::from_str(&response).unwrap();
    assert_eq!(parsed["status"], "ok");
    assert_eq!(parsed["message"], "x\u{1f}y\tz");
}

#[test]
fn temp_file_names_carry_timestamp_and_extension() {
    assert_eq!(temp_file_name(0, ImageExt::Png), "omni_tagger_0.png");
    assert_eq!(
        temp_file_name(1699999999999, ImageExt::Webp),
        "omni_tagger_1699999999999.webp"
    );
}
