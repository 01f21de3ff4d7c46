use cf_access::{Claims, ClaimsExtra, Error, RawClaims, TokenType, Validator};

fn empty_extra() -> ClaimsExtra {
    ClaimsExtra {
        email: None,
        identity_nonce: None,
        country: None,
        common_name: None,
        ty: None,
    }
}

fn identity_extra() -> ClaimsExtra {
    ClaimsExtra {
        email: Some("a@b.com".to_string()),
        identity_nonce: Some("n1".to_string()),
        country: Some("US".to_string()),
        common_name: None,
        ty: Some("app".to_string()),
    }
}

fn service_extra() -> ClaimsExtra {
    ClaimsExtra {
        email: None,
        identity_nonce: None,
        country: None,
        common_name: Some("svc-1".to_string()),
        ty: Some("org".to_string()),
    }
}

fn raw(sub: Option<&str>, aud: &[&str], extra: ClaimsExtra) -> RawClaims {
    RawClaims {
        sub: sub.map(|s| s.to_string()),
        aud: aud.iter().map(|a| a.to_string()).collect(),
        iss: Some("https://team.cloudflareaccess.com".to_string()),
        exp: Some(2_000_000_000),
        nbf: Some(1_000_000_000),
        extra,
    }
}

const SUB_TEXT: &str = "3fa85f64-5717-4562-b3fc-2c963f66afa6";
const SUB_VALUE: u128 = 0x3fa85f64_5717_4562_b3fc_2c963f66afa6;

#[test]
fn identity_token_decodes_to_identity_principal() {
    let v = Validator::new("team", "my-app".to_string());
    let r = v.validate(raw(Some(SUB_TEXT), &["my-app"], identity_extra()));
    match r {
        Ok(Claims::Identity(id)) => {
            assert_eq!(id.sub, SUB_VALUE);
            assert_eq!(id.email, "a@b.com");
            assert_eq!(id.identity_nonce, "n1");
            assert_eq!(id.country, "US");
            assert_eq!(id.ty, TokenType::Application);
        }
        other => panic!("expected an identity principal, got {other:?}"),
    }
}

#[test]
fn wrong_audience_is_rejected() {
    let v = Validator::new("team", "my-app".to_string());
    let r = v.validate(raw(Some(SUB_TEXT), &["other-app"], identity_extra()));
    assert!(matches!(r, Err(Error::InvalidAud)));
}

#[test]
fn wrong_audience_beats_valid_service_shape() {
    let v = Validator::new("team", "my-app".to_string());
    let r = v.validate(raw(None, &["other-app"], service_extra()));
    assert!(matches!(r, Err(Error::InvalidAud)));
}

#[test]
fn empty_audience_list_is_rejected() {
    let v = Validator::new("team", "my-app".to_string());
    let r = v.validate(raw(None, &[], service_extra()));
    assert!(matches!(r, Err(Error::InvalidAud)));
}

#[test]
fn audience_match_is_case_sensitive() {
    let v = Validator::new("team", "my-app".to_string());
    let r = v.validate(raw(None, &["My-App"], service_extra()));
    assert!(matches!(r, Err(Error::InvalidAud)));
}

#[test]
fn audience_may_be_any_list_entry() {
    let v = Validator::new("team", "my-app".to_string());
    let r = v.validate(raw(None, &["first", "my-app", "last"], service_extra()));
    assert!(r.is_ok());
}

#[test]
fn service_token_decodes_to_service_principal() {
    let v = Validator::new("team", "my-app".to_string());
    let r = v.validate(raw(None, &["my-app"], service_extra()));
    match r {
        Ok(Claims::Service(svc)) => {
            assert_eq!(svc.common_name, "svc-1");
            assert_eq!(svc.ty, TokenType::Global);
        }
        other => panic!("expected a service principal, got {other:?}"),
    }
}

#[test]
fn identity_shape_without_sub_is_missing_sub() {
    let v = Validator::new("team", "my-app".to_string());
    let r = v.validate(raw(None, &["my-app"], identity_extra()));
    assert!(matches!(r, Err(Error::MissingSub)));
}

#[test]
fn malformed_sub_is_a_parse_error() {
    let v = Validator::new("team", "my-app".to_string());
    let r = v.validate(raw(Some("not-an-identifier"), &["my-app"], identity_extra()));
    assert!(matches!(r, Err(Error::Uuid(_))));
}

#[test]
fn simple_form_sub_is_accepted() {
    let v = Validator::new("team", "my-app".to_string());
    let r = v.validate(raw(
        Some("3fa85f6457174562b3fc2c963f66afa6"),
        &["my-app"],
        identity_extra(),
    ));
    match r {
        Ok(Claims::Identity(id)) => assert_eq!(id.sub, SUB_VALUE),
        other => panic!("expected an identity principal, got {other:?}"),
    }
}

#[test]
fn empty_extension_payload_is_unrecognized() {
    let v = Validator::new("team", "my-app".to_string());
    let r = v.validate(raw(Some(SUB_TEXT), &["my-app"], empty_extra()));
    assert!(matches!(r, Err(Error::UnrecognizedClaims)));
}

#[test]
fn unknown_type_tag_fails_both_shapes() {
    let mut extra = identity_extra();
    extra.common_name = Some("svc-1".to_string());
    extra.ty = Some("xyz".to_string());
    let v = Validator::new("team", "my-app".to_string());
    let r = v.validate(raw(Some(SUB_TEXT), &["my-app"], extra));
    assert!(matches!(r, Err(Error::UnrecognizedClaims)));
}

#[test]
fn identity_shape_takes_precedence_over_service_shape() {
    let mut extra = identity_extra();
    extra.common_name = Some("svc-1".to_string());
    let v = Validator::new("team", "my-app".to_string());
    let r = v.validate(raw(Some(SUB_TEXT), &["my-app"], extra));
    assert!(matches!(r, Ok(Claims::Identity(_))));
}

#[test]
fn identity_shape_with_missing_field_falls_back_to_service_shape() {
    let mut extra = service_extra();
    extra.email = Some("a@b.com".to_string());
    let v = Validator::new("team", "my-app".to_string());
    let r = v.validate(raw(None, &["my-app"], extra));
    assert!(matches!(r, Ok(Claims::Service(_))));
}

#[test]
fn certs_url_is_fixed_path_under_team_domain() {
    let v = Validator::new("my-team", "my-app".to_string());
    assert_eq!(
        v.certs_url(),
        "https://my-team.cloudflareaccess.com/cdn-cgi/access/certs"
    );
    assert_eq!(v.audience(), "my-app");
}
