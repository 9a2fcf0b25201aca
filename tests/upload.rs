use audio_exporter::upload::{
    authorize_upload, build_submission, form_text_fields, Fields,
    GeneratePresignedUploadUrlResponse, ResponseData, UploadAuthorization,
};

fn sample_fields() -> Fields {
    Fields {
        acl: "private".to_string(),
        key: "k".to_string(),
        policy: "p".to_string(),
        x_amz_algorithm: "a".to_string(),
        x_amz_credential: "c".to_string(),
        x_amz_date: "d".to_string(),
        x_amz_signature: "s".to_string(),
    }
}

fn response(success: bool, fields: Option<Fields>, with_data: bool) -> GeneratePresignedUploadUrlResponse {
    GeneratePresignedUploadUrlResponse {
        success,
        error_key: if success { None } else { Some("quota".to_string()) },
        expected_file_url: None,
        data: if with_data {
            Some(ResponseData { fields, url: "https://x/y".to_string() })
        } else {
            None
        },
    }
}

#[test]
fn authorized_response_builds_full_submission() {
    let descriptor = match authorize_upload(response(true, Some(sample_fields()), true)) {
        UploadAuthorization::Authorized(d) => d,
        UploadAuthorization::Denied(_) => panic!("expected an authorised upload"),
    };
    assert_eq!(descriptor.url, "https://x/y");
    let parts = form_text_fields(&descriptor.fields);
    let expected = vec![
        ("key", "k"),
        ("acl", "private"),
        ("policy", "p"),
        ("x-amz-algorithm", "a"),
        ("x-amz-credential", "c"),
        ("x-amz-date", "d"),
        ("x-amz-signature", "s"),
    ];
    assert_eq!(parts.len(), 7);
    for (got, want) in parts.iter().zip(expected.iter()) {
        assert_eq!(got.0, want.0);
        assert_eq!(got.1, want.1);
    }
    let submission = build_submission(descriptor, vec![1u8, 2, 3]);
    assert_eq!(submission.url, "https://x/y");
}

fn denial_key(a: UploadAuthorization) -> Option<Option<String>> {
    match a {
        UploadAuthorization::Authorized(_) => None,
        UploadAuthorization::Denied(key) => Some(key),
    }
}

#[test]
fn unsuccessful_response_fails_cleanly() {
    let r = authorize_upload(response(false, Some(sample_fields()), true));
    assert_eq!(denial_key(r), Some(Some("quota".to_string())));
}

#[test]
fn missing_fields_fail_cleanly() {
    assert_eq!(denial_key(authorize_upload(response(true, None, true))), Some(None));
    assert_eq!(denial_key(authorize_upload(response(true, None, false))), Some(None));
}
