use pixelvault_desktop::upload::{
    check_upload_status, encode_png, hosted_url, no_larger_than_image, png_result,
    status_is_success, upload_request, KeyedOptions, UploadError,
};

fn message(r: Result<(), UploadError>) -> String {
    match r {
        Ok(()) => "ok".to_string(),
        Err(UploadError::Unauthorized) => "unauthorized".to_string(),
        Err(e) => e.message(),
    }
}

fn fields(key: Option<&str>, opts: KeyedOptions) -> Vec<(String, String)> {
    upload_request("https://api", key, &opts)
        .fields
        .into_iter()
        .map(|f| (f.name, f.value))
        .collect()
}

#[test]
fn an_image_becomes_a_png_file() {
    let rgba: Vec<u8> = vec![255, 0, 0, 255, 0, 255, 0, 128];
    let png = encode_png(2, 1, rgba.clone()).expect("a valid image");
    assert_eq!(&png[..8], &[137, 80, 78, 71, 13, 10, 26, 10]);
    assert_ne!(png, rgba);
    let back = image::load_from_memory(&png).expect("a PNG file").to_rgba8();
    assert_eq!(back.dimensions(), (2, 1));
    assert_eq!(back.into_raw(), rgba);
}

#[test]
fn encoding_is_repeatable() {
    let rgba: Vec<u8> = (0..=255).collect();
    assert_eq!(encode_png(8, 8, rgba.clone()), encode_png(8, 8, rgba));
}

#[test]
fn a_short_buffer_is_refused() {
    assert_eq!(
        encode_png(2, 2, vec![0; 15]),
        Err("clipboard image buffer size mismatch".to_string())
    );
    assert_eq!(
        encode_png(u32::MAX, u32::MAX, vec![]),
        Err("clipboard image buffer size mismatch".to_string())
    );
}

#[test]
fn an_image_without_pixels_is_refused() {
    for (w, h) in [(0, 0), (0, 3), (3, 0)] {
        let e = encode_png(w, h, vec![]).unwrap_err();
        assert!(e.starts_with("png encode failed: "), "{e}");
        assert_ne!(e, "png encode failed: ");
    }
}

#[test]
fn encoding_attempts_become_results() {
    assert_eq!(png_result(Some(Ok(vec![1, 2]))), Ok(vec![1, 2]));
    assert_eq!(
        png_result(Some(Err("zero width".to_string()))),
        Err("png encode failed: zero width".to_string())
    );
    assert_eq!(
        png_result(None),
        Err("clipboard image buffer size mismatch".to_string())
    );
}

#[test]
fn buffer_sizes_are_compared_without_overflow() {
    assert!(no_larger_than_image(2, 2, 16));
    assert!(!no_larger_than_image(2, 2, 17));
    assert!(no_larger_than_image(u32::MAX, u32::MAX, usize::MAX));
    assert!(no_larger_than_image(0, 5, 0));
    assert!(!no_larger_than_image(0, 5, 1));
}

#[test]
fn an_anonymous_request_carries_nothing_but_the_image() {
    let opts = KeyedOptions {
        expires_in: Some(1),
        private: true,
        sign_expires_in: Some(2),
    };
    let r = upload_request("https://api.pixelvault.dev", None, &opts);
    assert_eq!(r.url, "https://api.pixelvault.dev/v1/images");
    assert!(r.fields.is_empty());
    assert_eq!(r.bearer, None);
}

#[test]
fn a_keyed_request_carries_its_options() {
    let r = upload_request("https://api", Some("key"), &KeyedOptions::default());
    assert_eq!(r.url, "https://api/v1/images");
    assert_eq!(r.bearer, Some("key".to_string()));
    assert!(r.fields.is_empty());
    let pair = |a: &str, b: &str| (a.to_string(), b.to_string());
    assert_eq!(
        fields(
            Some("key"),
            KeyedOptions {
                expires_in: Some(2_592_000),
                private: true,
                sign_expires_in: Some(3600),
            }
        ),
        vec![
            pair("expires_in", "2592000"),
            pair("visibility", "private"),
            pair("sign_expires_in", "3600"),
        ]
    );
    assert_eq!(
        fields(
            Some("key"),
            KeyedOptions {
                expires_in: None,
                private: false,
                sign_expires_in: Some(3600),
            }
        ),
        vec![]
    );
    assert_eq!(
        fields(
            Some("key"),
            KeyedOptions {
                expires_in: Some(0),
                private: true,
                sign_expires_in: None,
            }
        ),
        vec![pair("expires_in", "0"), pair("visibility", "private")]
    );
}

#[test]
fn statuses_have_friendly_messages() {
    assert_eq!(message(check_upload_status(200)), "ok");
    assert_eq!(message(check_upload_status(299)), "ok");
    assert_eq!(message(check_upload_status(401)), "unauthorized");
    assert_eq!(message(check_upload_status(403)), "unauthorized");
    assert_eq!(
        message(check_upload_status(402)),
        "Private image limit reached — upgrade for unlimited private images."
    );
    assert_eq!(message(check_upload_status(413)), "Image is too large.");
    assert_eq!(
        message(check_upload_status(429)),
        "Rate limit reached — try again shortly."
    );
    assert_eq!(message(check_upload_status(500)), "Upload failed (500).");
    assert_eq!(message(check_upload_status(300)), "Upload failed (300).");
    assert_eq!(message(check_upload_status(199)), "Upload failed (199).");
}

#[test]
fn success_is_what_the_http_library_says() {
    for code in 100..1000u16 {
        assert_eq!(
            status_is_success(code),
            reqwest::StatusCode::from_u16(code).unwrap().is_success()
        );
    }
}

#[test]
fn upload_errors_have_messages() {
    assert_eq!(
        UploadError::Unauthorized.message(),
        "Your session has expired."
    );
    assert_eq!(UploadError::Failed("m".to_string()).message(), "m");
}

#[test]
fn the_hosted_url_is_taken_from_the_reply() {
    assert!(matches!(hosted_url(Ok("https://h/a.png".to_string())), Ok(u) if u == "https://h/a.png"));
    let Err(e) = hosted_url(Err("expected value".to_string())) else {
        panic!("not a URL");
    };
    assert_eq!(e.message(), "bad response: expected value");
}
