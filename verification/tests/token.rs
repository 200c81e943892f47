use recipe_backend::auth::helpers::{
    claim, claims_expired, get_signed_jwt_token, identity_from_claims, verify_jwt_token,
    TOKEN_LIFETIME,
};
use recipe_backend::routes::error::AuthError;

const SECRET: &str = "a secret for tests";
const NOW: u64 = 1_700_000_000;

fn pairs(list: &[(&str, &str)]) -> Vec<(String, String)> {
    list.iter().map(|(k, v)| (k.to_string(), v.to_string())).collect()
}

#[test]
fn the_lifetime_is_fourteen_days() {
    assert_eq!(TOKEN_LIFETIME, 60 * 60 * 24 * 14);
}

#[test]
fn a_signed_token_verifies_to_the_same_user() {
    let token = get_signed_jwt_token(17, "alice", SECRET, NOW);
    let identity = verify_jwt_token(&token, SECRET, NOW).expect("an identity");
    assert_eq!(identity.user_id, 17);
    assert_eq!(identity.username, "alice");
    assert_eq!(identity.issued_at, NOW);
    assert_eq!(identity.expires_at, NOW + 1209600);
}

#[test]
fn a_signed_token_verifies_for_several_users_and_secrets() {
    for (uid, name, secret) in [(0, "a", "s"), (-5, "Bob the 2nd", ""), (i32::MAX, "zoë", "même")] {
        let token = get_signed_jwt_token(uid, name, secret, NOW);
        let identity = verify_jwt_token(&token, secret, NOW + 5).expect("an identity");
        assert_eq!(identity.user_id, uid);
        assert_eq!(identity.username, name);
    }
}

#[test]
fn a_token_has_three_parts_and_an_hs512_header() {
    let token = get_signed_jwt_token(17, "alice", SECRET, NOW);
    let parts: Vec<&str> = token.split('.').collect();
    assert_eq!(parts.len(), 3);
    // {"alg":"HS512"} in base64.
    assert_eq!(parts[0], "eyJhbGciOiJIUzUxMiJ9");
    // An HMAC-SHA-512 signature has 64 bytes, 86 characters in base64.
    assert_eq!(parts[2].len(), 86);
}

#[test]
fn signing_is_a_function_of_its_arguments() {
    let first = get_signed_jwt_token(17, "alice", SECRET, NOW);
    let second = get_signed_jwt_token(17, "alice", SECRET, NOW);
    assert_eq!(first, second);
    assert_ne!(first, get_signed_jwt_token(18, "alice", SECRET, NOW));
    assert_ne!(first, get_signed_jwt_token(17, "alice", "another secret", NOW));
    assert_ne!(first, get_signed_jwt_token(17, "alice", SECRET, NOW + 1));
}

#[test]
fn a_token_is_good_until_the_second_it_expires() {
    let token = get_signed_jwt_token(17, "alice", SECRET, NOW);
    assert!(verify_jwt_token(&token, SECRET, NOW + TOKEN_LIFETIME).is_ok());
    assert_eq!(
        verify_jwt_token(&token, SECRET, NOW + TOKEN_LIFETIME + 1).err(),
        Some(AuthError::Expired)
    );
}

#[test]
fn an_expired_token_is_rejected_as_expired() {
    let token = get_signed_jwt_token(17, "alice", SECRET, 1_000);
    assert_eq!(verify_jwt_token(&token, SECRET, NOW).err(), Some(AuthError::Expired));
}

#[test]
fn a_token_with_an_altered_signature_is_rejected() {
    let token = get_signed_jwt_token(17, "alice", SECRET, NOW);
    let dot = token.rfind('.').unwrap();
    for at in [dot + 1, dot + 40, token.len() - 1] {
        let mut bytes = token.clone().into_bytes();
        bytes[at] = if bytes[at] == b'A' { b'B' } else { b'A' };
        let altered = String::from_utf8(bytes).unwrap();
        assert_ne!(altered, token);
        assert_eq!(
            verify_jwt_token(&altered, SECRET, NOW).err(),
            Some(AuthError::InvalidSignature)
        );
    }
}

#[test]
fn a_token_under_another_secret_is_rejected() {
    let token = get_signed_jwt_token(17, "alice", SECRET, NOW);
    assert_eq!(
        verify_jwt_token(&token, "another secret", NOW).err(),
        Some(AuthError::InvalidSignature)
    );
}

#[test]
fn text_that_is_no_token_is_rejected() {
    for text in ["", "abc", "a.b", "a.b.c", "a.b.c.d", "eyJhbGciOiJIUzUxMiJ9.e30."] {
        assert_eq!(
            verify_jwt_token(text, SECRET, NOW).err(),
            Some(AuthError::InvalidSignature),
            "{:?}",
            text
        );
    }
}

#[test]
fn an_expired_token_is_rejected_as_expired_whatever_its_signature() {
    let token = get_signed_jwt_token(17, "alice", SECRET, 1_000);
    assert_eq!(verify_jwt_token(&token, "another secret", NOW).err(), Some(AuthError::Expired));
    let dot = token.rfind('.').unwrap();
    let mut bytes = token.clone().into_bytes();
    bytes[dot + 1] = if bytes[dot + 1] == b'A' { b'B' } else { b'A' };
    let altered = String::from_utf8(bytes).unwrap();
    assert_eq!(verify_jwt_token(&altered, SECRET, NOW).err(), Some(AuthError::Expired));
    let unsigned = format!("{}.", &token[..dot]);
    assert_eq!(verify_jwt_token(&unsigned, SECRET, NOW).err(), Some(AuthError::Expired));
    // The same token at a time before its expiry is judged by its signature.
    assert_eq!(
        verify_jwt_token(&altered, SECRET, 1_000).err(),
        Some(AuthError::InvalidSignature)
    );
    assert!(verify_jwt_token(&token, SECRET, 1_000 + TOKEN_LIFETIME).is_ok());
}

#[test]
fn a_token_is_expired_from_the_second_after_its_expiry() {
    let token = get_signed_jwt_token(17, "alice", "s", 1_000);
    let last = 1_000 + TOKEN_LIFETIME;
    assert_eq!(verify_jwt_token(&token, "t", last).err(), Some(AuthError::InvalidSignature));
    assert_eq!(verify_jwt_token(&token, "t", last + 1).err(), Some(AuthError::Expired));
}

#[test]
fn claims_expire_when_their_expiry_is_a_number_in_the_past() {
    assert!(claims_expired(&pairs(&[("exp", "5")]), 10));
    assert!(claims_expired(&pairs(&[("exp", "+5"), ("uid", "x")]), 6));
    assert!(!claims_expired(&pairs(&[("exp", "5")]), 5));
    assert!(!claims_expired(&pairs(&[("exp", "5")]), 0));
    assert!(!claims_expired(&pairs(&[("exp", "soon")]), 10));
    assert!(!claims_expired(&pairs(&[("exp", "-5")]), 10));
    assert!(!claims_expired(&pairs(&[("iat", "5")]), 10));
    assert!(!claims_expired(&Vec::new(), 10));
}

#[test]
fn expired_claims_are_expired_whatever_else_they_hold() {
    let odd_iat = pairs(&[("uid", "1"), ("username", "alice"), ("iat", "abc"), ("exp", "5")]);
    assert_eq!(identity_from_claims(&odd_iat, 10).err(), Some(AuthError::Expired));
    assert_eq!(identity_from_claims(&odd_iat, 5).err(), Some(AuthError::Malformed));
    let odd_uid = pairs(&[("uid", "one"), ("username", "alice"), ("iat", "1"), ("exp", "5")]);
    assert_eq!(identity_from_claims(&odd_uid, 10).err(), Some(AuthError::Expired));
    let bare = pairs(&[("exp", "5")]);
    assert_eq!(identity_from_claims(&bare, 10).err(), Some(AuthError::Expired));
    assert_eq!(identity_from_claims(&bare, 5).err(), Some(AuthError::Malformed));
}

#[test]
fn a_claim_is_found_by_its_key() {
    let list = pairs(&[("exp", "5"), ("uid", "17"), ("username", "alice")]);
    assert_eq!(claim(&list, "uid").map(|v| v.as_str()), Some("17"));
    assert_eq!(claim(&list, "username").map(|v| v.as_str()), Some("alice"));
    assert_eq!(claim(&list, "iat"), None);
    assert_eq!(claim(&Vec::new(), "uid"), None);
}

#[test]
fn of_two_claims_with_one_key_the_later_counts() {
    let list = pairs(&[("uid", "1"), ("uid", "2")]);
    assert_eq!(claim(&list, "uid").map(|v| v.as_str()), Some("2"));
}

#[test]
fn complete_claims_give_an_identity() {
    let list = pairs(&[("exp", "2000"), ("iat", "1000"), ("uid", "-3"), ("username", "bob")]);
    let identity = identity_from_claims(&list, 1500).expect("an identity");
    assert_eq!(identity.user_id, -3);
    assert_eq!(identity.username, "bob");
    assert_eq!(identity.issued_at, 1000);
    assert_eq!(identity.expires_at, 2000);
    assert!(identity_from_claims(&list, 2000).is_ok());
    assert_eq!(identity_from_claims(&list, 2001).err(), Some(AuthError::Expired));
}

#[test]
fn a_missing_claim_is_malformed() {
    let all = [("exp", "2000"), ("iat", "1000"), ("uid", "3"), ("username", "bob")];
    for leave_out in 0..4 {
        let mut list = pairs(&all);
        list.remove(leave_out);
        assert_eq!(identity_from_claims(&list, 1500).err(), Some(AuthError::Malformed));
        assert_eq!(identity_from_claims(&list, 2000).err(), Some(AuthError::Malformed));
    }
    // Claims without an expiry never expire; they stay malformed.
    let mut list = pairs(&all);
    list.remove(0);
    assert_eq!(identity_from_claims(&list, u64::MAX).err(), Some(AuthError::Malformed));
}

#[test]
fn a_claim_that_is_no_number_is_malformed() {
    let bad_exp = pairs(&[("exp", "soon"), ("iat", "1000"), ("uid", "3"), ("username", "bob")]);
    assert_eq!(identity_from_claims(&bad_exp, 1500).err(), Some(AuthError::Malformed));
    let bad_iat = pairs(&[("exp", "2000"), ("iat", "-1"), ("uid", "3"), ("username", "bob")]);
    assert_eq!(identity_from_claims(&bad_iat, 1500).err(), Some(AuthError::Malformed));
    let bad_uid = pairs(&[("exp", "2000"), ("iat", "1000"), ("uid", "x3"), ("username", "bob")]);
    assert_eq!(identity_from_claims(&bad_uid, 1500).err(), Some(AuthError::Malformed));
    let big_uid =
        pairs(&[("exp", "2000"), ("iat", "1000"), ("uid", "2147483648"), ("username", "bob")]);
    assert_eq!(identity_from_claims(&big_uid, 1500).err(), Some(AuthError::Malformed));
}

#[test]
fn expiry_is_judged_before_the_user_id() {
    let list = pairs(&[("exp", "2000"), ("iat", "1000"), ("uid", "x3"), ("username", "bob")]);
    assert_eq!(identity_from_claims(&list, 2001).err(), Some(AuthError::Expired));
}
