use freta::webhooks::{compare, digest_text, fmt_uuid_v7, hmac_sha512, new_uuid_v7, signature_matches};
use freta::webhooks::WebhookId;
use freta::{ImageId, Secret};

#[test]
fn compare_equal_texts() {
    assert!(compare("abcd", "abcd"));
    assert!(compare("", ""));
}

#[test]
fn compare_different_texts() {
    assert!(!compare("abcd", "abce"));
}

#[test]
fn compare_different_lengths() {
    assert!(!compare("abc", "abcd"));
    assert!(!compare("abcd", "abc"));
}

#[test]
fn digest_text_is_lowercase_hex() {
    assert_eq!(digest_text(&vec![0x00, 0x0f, 0xa0, 0xff]), "000fa0ff");
    assert_eq!(digest_text(&vec![]), "");
}

#[test]
fn hmac_known_vector() {
    let key = Secret::new("\u{0b}".repeat(20));
    let digest = hmac_sha512(b"Hi There", &key).ok().unwrap();
    assert_eq!(
        digest,
        "87aa7cdea5ef619d4ff0b4241a1d6cb02379f4e2ce4ec2787ad0b30545e17cde\
         daa833b7d6b8a702038b274eaea3f4e4be9d914eeb61f1702e696c203a126854"
    );
}

#[test]
fn signature_check() {
    let key = Secret::new("testing".to_string());
    let body = b"{\"event\":1}";
    let good = hmac_sha512(body, &key).ok().unwrap();
    assert!(signature_matches(body, &good, &key).ok().unwrap());
    assert!(!signature_matches(body, "00", &key).ok().unwrap());
    assert!(!signature_matches(b"{\"event\":2}", &good, &key).ok().unwrap());
}

#[test]
fn uuid_v7_layout() {
    let v = fmt_uuid_v7(0, [1, 2, 3, 4, 5, 6, 7, 8, 9, 10]);
    assert_eq!(v, 0x0000_0000_0000_7201_8304_0506_0708_090a);
    assert_eq!(ImageId(v).to_text(), "00000000-0000-7201-8304-05060708090a");
    let t = fmt_uuid_v7(1_673_483_814 * 1000, [1, 2, 3, 4, 5, 6, 7, 8, 9, 10]);
    assert_eq!(t >> 80, 1_673_483_814_000);
    assert_eq!((t >> 76) & 0xf, 7);
    assert_eq!((t >> 62) & 0x3, 2);
}

#[test]
fn random_identifiers_are_version_four() {
    let a = ImageId::new().unwrap();
    assert_eq!((a.0 >> 76) & 0xf, 4);
    assert_eq!((a.0 >> 62) & 0x3, 2);
    let b = WebhookId::new().unwrap();
    assert_eq!((b.0 >> 76) & 0xf, 4);
    assert_ne!(a.0, b.0);
}

#[test]
fn hmac_accepts_any_key_length() {
    let long_key = Secret::new("k".repeat(500));
    assert_eq!(hmac_sha512(b"", &long_key).ok().unwrap().len(), 128);
    let empty_key = Secret::new(String::new());
    assert_eq!(hmac_sha512(b"x", &empty_key).ok().unwrap().len(), 128);
}

#[test]
fn uuid_v7_sorts_by_time() {
    let a = fmt_uuid_v7(1_673_483_814 * 1000, [11, 12, 13, 14, 15, 16, 17, 18, 19, 20]);
    let b = fmt_uuid_v7(1_673_483_815 * 1000, [1, 2, 3, 4, 5, 6, 7, 8, 9, 10]);
    assert!(a < b);
    assert!(ImageId(a).to_text() < ImageId(b).to_text());
    let fresh = new_uuid_v7().unwrap();
    assert_eq!((fresh >> 76) & 0xf, 7);
}

#[test]
fn test_uuid_v7_format() {
    let examples = vec![
        fmt_uuid_v7(0, [1, 2, 3, 4, 5, 6, 7, 8, 9, 10]),
        fmt_uuid_v7(1_673_483_814 * 1000, [1, 2, 3, 4, 5, 6, 7, 8, 9, 10]),
        fmt_uuid_v7(
            1_673_483_814 * 1000,
            [11, 12, 13, 14, 15, 16, 17, 18, 19, 20],
        ),
        fmt_uuid_v7(
            1_673_483_815 * 1000,
            [11, 12, 13, 14, 15, 16, 17, 18, 19, 20],
        ),
    ];
    let texts: Vec<String> = examples.into_iter().map(|v| ImageId(v).to_text()).collect();
    assert_eq!(
        texts,
        vec![
            "00000000-0000-7201-8304-05060708090a",
            "0185a368-8470-7201-8304-05060708090a",
            "0185a368-8470-7c0b-8d0e-0f1011121314",
            "0185a368-8858-7c0b-8d0e-0f1011121314",
        ]
    );
}

#[test]
fn test_hmac() {
    let event_as_string = "{\"event_id\":\"00000000-0000-0000-0000-000000000001\",\
        \"event_type\":\"image_created\",\"timestamp\":\"1970-01-01T00:00:00Z\",\
        \"image\":\"00000000-0000-0000-0000-000000000000\"}";
    let hmac = hmac_sha512(event_as_string.as_bytes(), &Secret::new("testing".to_string()))
        .ok()
        .unwrap();
    assert_eq!(
        hmac,
        "7a6ebaa564b68078f77798ade52da3db5b37f3ab273c522519b092c4f87b32d1\
         548748a30fb94a210869dfd2c3890f8fa89ce5cb90fafc72edda5dfe1510dd1a"
    );
}
