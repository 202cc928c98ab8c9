use freta::service::{as_tags, UserConfig};
use freta::webhooks::WebhookId;
use freta::{Config, Error, ImageFormat, ImageId, ImageState, OwnerId};

#[test]
fn reimage_states() {
    assert_eq!(
        ImageState::can_reimage_states(),
        vec![ImageState::Finalizing, ImageState::Completed, ImageState::Failed]
    );
    assert!(!ImageState::Queued.can_reimage());
    assert!(ImageState::Completed.is_terminal());
    assert!(!ImageState::Running.is_terminal());
}

#[test]
fn image_formats() {
    assert_eq!("lime".parse::<ImageFormat>().ok(), Some(ImageFormat::Lime));
    assert!("LIME".parse::<ImageFormat>().is_err());
    assert_eq!(ImageFormat::Vmrs.as_str(), "vmrs");
    assert!(matches!(ImageFormat::from_extension(Some("raw")), Ok(ImageFormat::Raw)));
    match ImageFormat::from_extension(Some("zip")) {
        Err(Error::Extension(e)) => assert_eq!(e, "zip"),
        _ => panic!("expected an extension error"),
    }
    match ImageFormat::from_extension(None) {
        Err(Error::Extension(e)) => assert_eq!(e, "missing file extension"),
        _ => panic!("expected an extension error"),
    }
}

#[test]
fn tags_keep_last_value_per_key() {
    let input: Vec<(String, String)> = vec![("b", "1"), ("a", "2"), ("b", "3")]
        .into_iter()
        .map(|(k, v)| (k.to_string(), v.to_string()))
        .collect();
    let tags = as_tags(input);
    assert_eq!(
        tags,
        vec![
            ("b".to_string(), "3".to_string()),
            ("a".to_string(), "2".to_string())
        ]
    );
    assert!(as_tags(vec![]).is_empty());
}

#[test]
fn default_configuration_and_scope() {
    let c = Config::new();
    assert_eq!(c.api_url, "https://freta.microsoft.com/");
    assert_eq!(c.client_id.as_str(), "574efb07-14a8-4232-a200-89714a0324c9");
    assert_eq!(
        c.get_scope().ok().unwrap(),
        "api://a934fc14-92d7-4127-aecd-bddab35935da/.default"
    );
    let mut derived = c.clone();
    derived.scope = None;
    assert_eq!(
        derived.get_scope().ok().unwrap(),
        "api://freta.microsoft.com/.default"
    );
    derived.api_url = "::".to_string();
    assert!(derived.get_scope().is_err());
}

#[test]
fn user_config_default() {
    let u = UserConfig::default();
    assert!(u.include_samples);
    assert!(u.eula_accepted.is_none());
}

#[test]
fn identifiers_round_trip_through_text() {
    let id = ImageId(0x0123_4567_89ab_cdef_0011_2233_4455_6677);
    let text = id.to_text();
    assert_eq!(text, "01234567-89ab-cdef-0011-223344556677");
    assert_eq!(ImageId::parse(&text).ok(), Some(id));
    assert!(ImageId::parse("nope").is_err());
    let w: WebhookId = "00000000-0000-0000-0000-00000000002a".parse().ok().unwrap();
    assert_eq!(w, WebhookId(42));
    let owner = OwnerId { tenant_id: 1, oid: 2 };
    let text = owner.to_text();
    assert_eq!(
        text,
        "00000000-0000-0000-0000-000000000001_00000000-0000-0000-0000-000000000002"
    );
    assert_eq!(OwnerId::parse(&text).ok(), Some(owner));
    assert!(OwnerId::parse("00000000-0000-0000-0000-000000000001").is_err());
    assert!(OwnerId::parse("x_00000000-0000-0000-0000-000000000001").is_err());
}
