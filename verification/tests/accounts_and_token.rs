use base64::Engine;

use artifacts_mmo_api::correlate::OperationKind;
use artifacts_mmo_api::endpoints::accounts::create_account;
use artifacts_mmo_api::endpoints::characters::{create_character, CreateCharacterRequest};
use artifacts_mmo_api::endpoints::token::{credentials_round_trip, generate_token};
use artifacts_mmo_api::request::{HeaderName, Method};
use artifacts_mmo_api::schemas::BearerToken;
use artifacts_mmo_api::Error;

#[test]
fn create_account_body_carries_the_fields_verbatim() {
    let req = create_account("john_doe1", "s3cretpw", "john@example.com").unwrap();
    assert_eq!(req.method, Method::Post);
    assert_eq!(req.path, "/accounts/create");
    assert_eq!(
        req.content,
        br#"{"email":"john@example.com","password":"s3cretpw","username":"john_doe1"}"#.to_vec()
    );
    assert_eq!(req.headers.len(), 2);
    assert_eq!(req.headers[0].0, HeaderName::Accept);
    assert_eq!(req.headers[1].0, HeaderName::ContentType);
    assert_eq!(req.headers[1].1, "application/json");
    assert_eq!(req.rate_limit.id, "ACCOUNT_CREATION");
    assert_eq!(req.kind, OperationKind::AccountCreate);
}

#[test]
fn create_account_accepts_boundary_lengths() {
    assert!(create_account("abc-_1", "12345", "a@b.c").is_ok());
    let long_user: String = "u".repeat(32);
    let long_pass: String = "p".repeat(50);
    assert!(create_account(&long_user, &long_pass, "a@b.c").is_ok());
    let unicode_pass = "p\u{e4}ss!"; // five code points, no whitespace
    assert!(create_account("abc-_1", unicode_pass, "a@b.c").is_ok());
}

#[test]
fn create_account_rejects_bad_usernames() {
    assert!(matches!(create_account("", "12345", "a@b.c"), Err(Error::InvalidInput(_))));
    assert!(matches!(create_account("abcde", "12345", "a@b.c"), Err(Error::InvalidInput(_))));
    let long_user: String = "u".repeat(33);
    assert!(matches!(create_account(&long_user, "12345", "a@b.c"), Err(Error::InvalidInput(_))));
    assert!(matches!(create_account("has space", "12345", "a@b.c"), Err(Error::InvalidInput(_))));
    assert!(matches!(create_account("acc\u{e9}nt", "12345", "a@b.c"), Err(Error::InvalidInput(_))));
}

#[test]
fn create_account_rejects_bad_passwords() {
    assert!(matches!(create_account("john_doe1", "1234", "a@b.c"), Err(Error::InvalidInput(_))));
    let long_pass: String = "p".repeat(51);
    assert!(matches!(
        create_account("john_doe1", &long_pass, "a@b.c"),
        Err(Error::InvalidInput(_))
    ));
    assert!(matches!(
        create_account("john_doe1", "bad pass", "a@b.c"),
        Err(Error::InvalidInput(_))
    ));
    assert!(matches!(
        create_account("john_doe1", "tab\tpass", "a@b.c"),
        Err(Error::InvalidInput(_))
    ));
    assert!(matches!(
        create_account("john_doe1", "nb\u{a0}sp1", "a@b.c"),
        Err(Error::InvalidInput(_))
    ));
}

#[test]
fn create_account_rejects_bad_emails() {
    for email in [
        "", "plain", "no-at.here", "two@@b.c", "a@b", "a@b.", "@b.c", "a@.c", "a@b.c.d",
        "sp ace@b.c", "a@b,c",
    ] {
        assert!(
            matches!(create_account("john_doe1", "12345", email), Err(Error::InvalidInput(_))),
            "email {:?} should be rejected",
            email
        );
    }
}

#[test]
fn create_account_escapes_password_specials() {
    let req = create_account("john_doe1", "a\"b\\c\u{1}x", "a@b.c").unwrap();
    assert_eq!(
        req.content,
        br#"{"email":"a@b.c","password":"a\"b\\c\u0001x","username":"john_doe1"}"#.to_vec()
    );
}

#[test]
fn create_character_builds_authorized_post() {
    let req = create_character(CreateCharacterRequest {
        bearer_token: BearerToken("tok-123".to_string()),
        name: "Hero_1".to_string(),
        skin: "men1".to_string(),
    })
    .unwrap();
    assert_eq!(req.method, Method::Post);
    assert_eq!(req.path, "/characters/create");
    assert_eq!(req.content, br#"{"name":"Hero_1","skin":"men1"}"#.to_vec());
    assert_eq!(req.headers.len(), 3);
    assert_eq!(req.headers[2].0, HeaderName::Authorization);
    assert_eq!(req.headers[2].1, "Bearer tok-123");
    assert_eq!(req.rate_limit.id, "DATA");
    assert_eq!(req.kind, OperationKind::CharacterCreate);
}

#[test]
fn create_character_escapes_the_skin() {
    let req = create_character(CreateCharacterRequest {
        bearer_token: BearerToken("tok".to_string()),
        name: "Hero_1".to_string(),
        skin: "a\"b".to_string(),
    })
    .unwrap();
    assert_eq!(req.content, br#"{"name":"Hero_1","skin":"a\"b"}"#.to_vec());
}

#[test]
fn create_character_rejects_bad_name_then_bad_token() {
    let bad_name = create_character(CreateCharacterRequest {
        bearer_token: BearerToken("tok".to_string()),
        name: "bad name".to_string(),
        skin: "men1".to_string(),
    });
    assert!(matches!(bad_name, Err(Error::InvalidInput(_))));
    let bad_token = create_character(CreateCharacterRequest {
        bearer_token: BearerToken("line\nbreak".to_string()),
        name: "Hero_1".to_string(),
        skin: "men1".to_string(),
    });
    assert!(matches!(bad_token, Err(Error::EncodingError(_))));
}

#[test]
fn generate_token_encodes_credentials_in_base64() {
    let req = generate_token("john_doe1", "s3cretpw").unwrap();
    assert_eq!(req.method, Method::Post);
    assert_eq!(req.path, "/token/");
    assert!(req.content.is_empty());
    assert_eq!(req.headers.len(), 2);
    assert_eq!(req.headers[0].0, HeaderName::Accept);
    assert_eq!(req.headers[1].0, HeaderName::Authorization);
    let expected = base64::prelude::BASE64_STANDARD.encode("john_doe1:s3cretpw");
    assert_eq!(req.headers[1].1, expected);
    assert_eq!(req.rate_limit.id, "TOKEN");
    assert_eq!(req.kind, OperationKind::TokenGenerate);
}

#[test]
fn authorization_header_round_trips_to_the_credentials() {
    let req = generate_token("john_doe1", "s3cretpw").unwrap();
    let decoded = base64::prelude::BASE64_STANDARD
        .decode(req.headers[1].1.as_bytes())
        .unwrap();
    assert_eq!(decoded, b"john_doe1:s3cretpw".to_vec());
    assert_eq!(
        credentials_round_trip("john_doe1", "s3cretpw"),
        Some("john_doe1:s3cretpw".to_string())
    );
    assert_eq!(credentials_round_trip("", ""), Some(":".to_string()));
}

#[test]
fn generate_token_never_fails() {
    assert!(generate_token("", "").is_ok());
    assert!(generate_token("weird user", "p\u{e4}ss\nword").is_ok());
    let a = generate_token("u", "p").unwrap();
    let b = generate_token("u", "p").unwrap();
    assert_eq!(a, b);
}

#[test]
fn create_account_accepts_unicode_emails() {
    assert!(create_account("john_doe1", "12345", "\u{e9}@b.c").is_ok());
    assert!(matches!(
        create_account("john_doe1", "12345", "\u{2603}@b.c"),
        Err(Error::InvalidInput(_))
    ));
}
