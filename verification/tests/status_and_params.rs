use std::iter::repeat;

use msgapi::connection::{
    build_upload_body, map_response_code, prepare_send_e2e, prepare_send_simple,
    upload_content_type, validate_text_length, LookupCriterion, Recipient, MAX_SIMPLE_TEXT_BYTES,
};
use msgapi::errors::ApiError;

#[test]
fn test_max_length_ok() {
    let text: String = repeat("à").take(3500 / 2).collect();
    let result = prepare_send_simple("TESTTEST", &Recipient::new_id("ECHOECHO"), "secret", &text);
    match result {
        Err(ApiError::MessageTooLong) => panic!(),
        _ => (),
    }
}

#[test]
fn test_max_length_too_long() {
    let mut text: String = repeat("à").take(3500 / 2).collect();
    text.push('x');
    let result = prepare_send_simple("TESTTEST", &Recipient::new_id("ECHOECHO"), "secret", &text);
    match result {
        Err(ApiError::MessageTooLong) => (),
        _ => panic!(),
    }
}

#[test]
fn test_length_boundary() {
    assert_eq!(MAX_SIMPLE_TEXT_BYTES, 3500);
    assert!(validate_text_length("").is_ok());
    let exact: String = repeat('a').take(3500).collect();
    assert!(validate_text_length(&exact).is_ok());
    let mut over = exact.clone();
    over.push('a');
    assert_eq!(
        validate_text_length(&over).unwrap_err(),
        ApiError::MessageTooLong
    );
    // The limit counts encoded bytes, not characters.
    let wide: String = repeat("à").take(1750).collect();
    assert_eq!(wide.len(), 3500);
    assert!(validate_text_length(&wide).is_ok());
}

#[test]
fn test_classify_success_only_200() {
    assert!(map_response_code(200, None).is_ok());
    assert!(map_response_code(200, Some(ApiError::BadBlob)).is_ok());
    for status in [100u16, 201, 301, 400, 401, 402, 403, 404, 413, 500, 502, 999] {
        assert!(map_response_code(status, None).is_err());
    }
}

#[test]
fn test_classify_fixed_codes() {
    // The fixed codes are classified the same with or without a 400-context.
    for ctx in [None, Some(ApiError::BadBlob)] {
        assert_eq!(
            map_response_code(401, ctx.clone()).unwrap_err(),
            ApiError::BadCredentials
        );
        assert_eq!(
            map_response_code(402, ctx.clone()).unwrap_err(),
            ApiError::NoCredits
        );
        assert_eq!(
            map_response_code(404, ctx.clone()).unwrap_err(),
            ApiError::IdNotFound
        );
        assert_eq!(
            map_response_code(413, ctx.clone()).unwrap_err(),
            ApiError::MessageTooLong
        );
        assert_eq!(
            map_response_code(500, ctx.clone()).unwrap_err(),
            ApiError::ServerError
        );
    }
}

#[test]
fn test_classify_bad_request() {
    assert_eq!(
        map_response_code(400, Some(ApiError::BadSenderOrRecipient)).unwrap_err(),
        ApiError::BadSenderOrRecipient
    );
    assert_eq!(
        map_response_code(400, Some(ApiError::BadBlob)).unwrap_err(),
        ApiError::BadBlob
    );
    assert_eq!(
        map_response_code(400, None).unwrap_err(),
        ApiError::Other("Bad response status code: 400".to_string())
    );
}

#[test]
fn test_classify_other() {
    assert_eq!(
        map_response_code(999, None).unwrap_err(),
        ApiError::Other("Bad response status code: 999".to_string())
    );
    assert_eq!(
        map_response_code(301, Some(ApiError::BadBlob)).unwrap_err(),
        ApiError::Other("Bad response status code: 301".to_string())
    );
    assert_eq!(
        map_response_code(0, None).unwrap_err(),
        ApiError::Other("Bad response status code: 0".to_string())
    );
}

#[test]
fn test_simple_params() {
    let params = prepare_send_simple("TESTTEST", &Recipient::new_id("ECHOECHO"), "secret", "hi")
        .unwrap();
    assert_eq!(
        params,
        vec![
            ("from".to_string(), "TESTTEST".to_string()),
            ("text".to_string(), "hi".to_string()),
            ("secret".to_string(), "secret".to_string()),
            ("to".to_string(), "ECHOECHO".to_string()),
        ]
    );
    let phone = prepare_send_simple("TESTTEST", &Recipient::new_phone("41791234567"), "s", "hi")
        .unwrap();
    assert_eq!(phone[3], ("phone".to_string(), "41791234567".to_string()));
    let email = prepare_send_simple("TESTTEST", &Recipient::new_email("a@example.com"), "s", "hi")
        .unwrap();
    assert_eq!(email[3], ("email".to_string(), "a@example.com".to_string()));
}

#[test]
fn test_e2e_params() {
    let nonce = [1u8, 2, 0xff];
    let ciphertext = [0xabu8, 0xcd];
    let params = prepare_send_e2e("TESTTEST", "ECHOECHO", "secret", &nonce, &ciphertext, None);
    assert_eq!(
        params,
        vec![
            ("from".to_string(), "TESTTEST".to_string()),
            ("to".to_string(), "ECHOECHO".to_string()),
            ("secret".to_string(), "secret".to_string()),
            ("nonce".to_string(), "0102ff".to_string()),
            ("box".to_string(), "abcd".to_string()),
        ]
    );
    let additional = vec![("extra".to_string(), "1".to_string())];
    let with_extra = prepare_send_e2e("A", "B", "s", &nonce, &ciphertext, Some(additional));
    assert_eq!(with_extra.len(), 6);
    assert_eq!(with_extra[0], ("extra".to_string(), "1".to_string()));
    assert_eq!(with_extra[1].0, "from");
}

#[test]
fn test_e2e_params_override_reserved_keys() {
    // A same-named additional entry is overridden by the send's own value;
    // other entries pass through unchanged, in order.
    let nonce = [1u8];
    let ciphertext = [2u8];
    let additional = vec![
        ("from".to_string(), "SPOOFED".to_string()),
        ("extra".to_string(), "1".to_string()),
        ("box".to_string(), "ffff".to_string()),
        ("more".to_string(), "2".to_string()),
    ];
    let params = prepare_send_e2e("TESTTEST", "ECHOECHO", "secret", &nonce, &ciphertext, Some(additional));
    assert_eq!(
        params,
        vec![
            ("extra".to_string(), "1".to_string()),
            ("more".to_string(), "2".to_string()),
            ("from".to_string(), "TESTTEST".to_string()),
            ("to".to_string(), "ECHOECHO".to_string()),
            ("secret".to_string(), "secret".to_string()),
            ("nonce".to_string(), "01".to_string()),
            ("box".to_string(), "02".to_string()),
        ]
    );
    let keys: Vec<&str> = params.iter().map(|p| p.0.as_str()).collect();
    assert_eq!(keys.iter().filter(|k| **k == "from").count(), 1);
    assert_eq!(keys.iter().filter(|k| **k == "box").count(), 1);
}

#[test]
fn test_lookup_criterion_construction() {
    assert!(matches!(
        LookupCriterion::new_phone("41791234567"),
        LookupCriterion::Phone(p) if p == "41791234567"
    ));
    assert!(matches!(
        LookupCriterion::new_phone_hash("ad398f4d7ebe63c6550a486cc6e07f9baa09bd9d8b3d8cb9d9be106d35a7fdbc"),
        LookupCriterion::PhoneHash(_)
    ));
    assert!(matches!(
        LookupCriterion::new_email("test@example.com"),
        LookupCriterion::Email(e) if e == "test@example.com"
    ));
    assert!(matches!(
        LookupCriterion::new_email_hash("1ea093239cc5f0e1b6ec81b866265b921f26dc4033025410063309f4d1a8ee2c"),
        LookupCriterion::EmailHash(_)
    ));
}

#[test]
fn test_upload_body_layout() {
    let ciphertext = [9u8, 8, 7];
    let body = build_upload_body(&ciphertext);
    let mut expected = Vec::new();
    expected.extend_from_slice(
        b"--3ma-d84f64f5-a138-4b0a-9e25-339257990c81-3ma\r\n\
          Content-Disposition: form-data; name=\"blob\"\r\n\
          Content-Type: application/octet-stream\r\n\r\n"
            .as_ref(),
    );
    expected.extend_from_slice(&ciphertext);
    expected.extend_from_slice(b"\r\n--3ma-d84f64f5-a138-4b0a-9e25-339257990c81-3ma--\r\n");
    assert_eq!(body, expected);
    assert_eq!(
        upload_content_type(),
        "multipart/form-data; boundary=3ma-d84f64f5-a138-4b0a-9e25-339257990c81-3ma"
    );
}
