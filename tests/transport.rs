use freta::service::{continuation_pairs, ImageList};
use freta::transport::{classify_response, request_url};
use freta::{Error, ImageId, ImageState, OwnerId};

#[test]
fn status_451_is_terms_not_accepted() {
    match classify_response(451, b"please accept the terms".to_vec()) {
        Err(Error::Eula(t)) => assert_eq!(t, "please accept the terms"),
        _ => panic!("expected the terms-not-accepted error"),
    }
}

#[test]
fn success_returns_body() {
    match classify_response(200, vec![1, 2, 3]) {
        Ok(b) => assert_eq!(b, vec![1, 2, 3]),
        Err(_) => panic!("expected the body"),
    }
    assert!(classify_response(204, vec![]).is_ok());
}

#[test]
fn other_failures_carry_status_and_body() {
    match classify_response(500, b"boom".to_vec()) {
        Err(Error::Request { status, body }) => {
            assert_eq!(status, 500);
            assert_eq!(body, "boom");
        }
        _ => panic!("expected a request failure"),
    }
    assert!(matches!(
        classify_response(302, vec![0xff]),
        Err(Error::Request { status: 302, .. })
    ));
    match classify_response(404, vec![0xff, b'x']) {
        Err(Error::Request { body, .. }) => assert_eq!(body, "\u{fffd}x"),
        _ => panic!("expected a request failure"),
    }
}

#[test]
fn request_url_without_query() {
    let u = request_url("https://freta.microsoft.com/", "/api/info", None).ok().unwrap();
    assert_eq!(u, "https://freta.microsoft.com/api/info");
    assert!(request_url("not a url", "/api/info", None).is_err());
}

#[test]
fn request_url_with_query() {
    let pairs = vec![
        ("include_samples".to_string(), "true".to_string()),
        ("continuation".to_string(), "a b&c".to_string()),
    ];
    let u = request_url("https://freta.microsoft.com/", "/api/images", Some(&pairs))
        .ok()
        .unwrap();
    assert_eq!(
        u,
        "https://freta.microsoft.com/api/images?include_samples=true&continuation=a+b%26c"
    );
}

#[test]
fn request_url_errors() {
    assert!(matches!(
        request_url("not a url", "/api/info", None),
        Err(Error::Other("unable to parse URL", _))
    ));
    let pairs = vec![("a".to_string(), "b".to_string())];
    assert!(matches!(
        request_url("::", "/api/images", Some(&pairs)),
        Err(Error::Other("unable to parse URL", _))
    ));
}

#[test]
fn empty_query_is_not_attached() {
    let none = continuation_pairs(&None);
    assert!(none.is_empty());
    let u = request_url("https://freta.microsoft.com/", "/api/webhooks", Some(&none))
        .ok()
        .unwrap();
    assert_eq!(u, "https://freta.microsoft.com/api/webhooks");
}

#[test]
fn image_list_query() {
    let list = ImageList {
        image_id: Some(ImageId(1)),
        owner_id: Some(OwnerId::samples()),
        state: Some(ImageState::WaitingForUpload),
        include_samples: false,
        continuation: Some("cur".to_string()),
    };
    let pairs = list.query_pairs();
    let expected: Vec<(String, String)> = vec![
        ("image_id", "00000000-0000-0000-0000-000000000001"),
        (
            "owner_id",
            "00000000-0000-0000-0000-000000000000_00000000-0000-0000-0000-000000000000",
        ),
        ("state", "waiting_for_upload"),
        ("include_samples", "false"),
        ("continuation", "cur"),
    ]
    .into_iter()
    .map(|(a, b)| (a.to_string(), b.to_string()))
    .collect();
    assert_eq!(pairs, expected);

    let plain = ImageList {
        image_id: None,
        owner_id: None,
        state: None,
        include_samples: true,
        continuation: None,
    };
    assert_eq!(
        plain.query_pairs(),
        vec![("include_samples".to_string(), "true".to_string())]
    );
}
