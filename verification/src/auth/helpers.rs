use crate::routes::error::AuthError;
use crate::text::{
    decimal, i32_to_decimal, lemma_parse_i32_of_decimal, lemma_parse_u64_of_decimal, parse_i32,
    i32_denoted, parse_u64, u64_denoted, signed_decimal, u64_to_decimal,
};
use hmac::digest::KeyInit;
use hmac::Hmac;
use jwt::{SignWithKey, VerifyWithKey};
use sha2::Sha512;
use std::collections::BTreeMap;
use vstd::prelude::*;

verus! {

/// For how many seconds a token is valid after it was issued: fourteen days.
pub const TOKEN_LIFETIME: u64 = 1209600;

/// The error type of the `jwt` crate.
#[verifier::external_type_specification]
#[verifier::external_body]
pub struct ExJwtError(jwt::Error);

/// The compact token string that the `jwt` crate issues for `claims` under the
/// HS512 key made of `secret`.
pub uninterp spec fn jwt_hs512_token(secret: Seq<char>, claims: Map<Seq<char>, Seq<char>>) -> Seq<char>;

/// The claims that the `jwt` crate reads from `token` without looking at its
/// signature, or `None` where it cannot read the token.
pub uninterp spec fn jwt_unverified_claims(token: Seq<char>) -> Option<Map<Seq<char>, Seq<char>>>;

/// The claims that the `jwt` crate reads from `token` once it has checked the token's
/// HS512 signature against the key made of `secret`, or `None` where it rejects the
/// token.
pub uninterp spec fn jwt_hs512_claims(secret: Seq<char>, token: Seq<char>) -> Option<Map<Seq<char>, Seq<char>>>;

/// The keys and values of `pairs` as plain text.
pub open spec fn pair_views(pairs: Seq<(String, String)>) -> Seq<(Seq<char>, Seq<char>)> {
    pairs.map_values(|p: (String, String)| (p.0@, p.1@))
}

/// The claims that a list of pairs stands for; of two pairs with one key the later
/// one counts. Claims travel as a list of pairs and are spoken of as a `Map` of
/// texts: for a `BTreeMap` whose keys are `String`s, vstd's specifications say
/// nothing of what `insert` and `get` do.
pub open spec fn claims_of(pairs: Seq<(Seq<char>, Seq<char>)>) -> Map<Seq<char>, Seq<char>>
    decreases pairs.len(),
{
    if pairs.len() == 0 {
        Map::empty()
    } else {
        claims_of(pairs.drop_last()).insert(pairs.last().0, pairs.last().1)
    }
}

/// No two pairs share a key.
pub open spec fn keys_distinct(pairs: Seq<(Seq<char>, Seq<char>)>) -> bool {
    forall|i: int, j: int|
        0 <= i < j < pairs.len() ==> (#[trigger] pairs[i]).0 != (#[trigger] pairs[j]).0
}

/// Calls `sign_with_key` of the `jwt` crate on a token with an HS512 header and the
/// given claims, under the HMAC-SHA-512 key made of `secret`. The token string is
/// known by name only. Three things are taken from the crate's source. Signing does
/// not fail: an HMAC key may have any length, the key and the header agree on HS512,
/// and claims that are text always serialise. A token that the crate issued is
/// accepted again under the same key and yields the claims that went in. And the
/// same claims are read from it where the signature is not looked at.
#[verifier::external_body]
fn jwt_sign_hs512(secret: &str, claims: &Vec<(String, String)>) -> (r: Result<String, jwt::Error>)
    requires
        keys_distinct(pair_views(claims@)),
    ensures
        match r {
            Ok(token) => {
                &&& token@ == jwt_hs512_token(secret@, claims_of(pair_views(claims@)))
                &&& jwt_hs512_claims(secret@, token@) == Some(claims_of(pair_views(claims@)))
                &&& jwt_unverified_claims(token@) == Some(claims_of(pair_views(claims@)))
            },
            Err(_) => false,
        },
{
    let key: Hmac<Sha512> = Hmac::new_from_slice(secret.as_bytes())?;
    let claims: BTreeMap<String, String> = claims.iter().cloned().collect();
    let header = jwt::Header { algorithm: jwt::AlgorithmType::Hs512, ..Default::default() };
    let token = jwt::Token::new(header, claims).sign_with_key(&key)?;
    Ok(token.as_str().to_string())
}

/// Calls `Token::parse_unverified` of the `jwt` crate on `token` and hands out the
/// claims as a list of pairs. The signature is not looked at. The crate's result is
/// known by name only.
#[verifier::external_body]
fn jwt_read_unverified(token: &str) -> (r: Result<Vec<(String, String)>, jwt::Error>)
    ensures
        match r {
            Ok(pairs) => jwt_unverified_claims(token@) == Some(claims_of(pair_views(pairs@))),
            Err(_) => jwt_unverified_claims(token@) is None,
        },
{
    let parsed: jwt::Token<jwt::Header, BTreeMap<String, String>, _> =
        jwt::Token::parse_unverified(token)?;
    let (_, claims): (jwt::Header, BTreeMap<String, String>) = parsed.into();
    Ok(claims.into_iter().collect())
}

/// Calls `verify_with_key` of the `jwt` crate on `token`, under the HMAC-SHA-512 key
/// made of `secret`, and hands out the claims as a list of pairs. The crate's result
/// is known by name only. One thing is taken from the crate's source: it reads the
/// token as it does without looking at the signature, then checks the signature, so
/// the claims of a token that it accepts are those read from it unverified.
#[verifier::external_body]
fn jwt_verify_hs512(secret: &str, token: &str) -> (r: Result<Vec<(String, String)>, jwt::Error>)
    ensures
        match r {
            Ok(pairs) => {
                &&& jwt_hs512_claims(secret@, token@) == Some(claims_of(pair_views(pairs@)))
                &&& jwt_unverified_claims(token@) == Some(claims_of(pair_views(pairs@)))
            },
            Err(_) => jwt_hs512_claims(secret@, token@) is None,
        },
{
    let key: Hmac<Sha512> = Hmac::new_from_slice(secret.as_bytes())?;
    let claims: BTreeMap<String, String> = token.verify_with_key(&key)?;
    Ok(claims.into_iter().collect())
}

/// Who a verified token speaks for, and for how long.
#[derive(Debug)]
pub struct Identity {
    pub user_id: i32,
    pub username: String,
    pub issued_at: u64,
    pub expires_at: u64,
}

/// An `Identity` as plain values, as contracts speak of it.
pub struct IdentityView {
    pub user_id: i32,
    pub username: Seq<char>,
    pub issued_at: u64,
    pub expires_at: u64,
}

impl View for Identity {
    type V = IdentityView;

    open spec fn view(&self) -> IdentityView {
        IdentityView {
            user_id: self.user_id,
            username: self.username@,
            issued_at: self.issued_at,
            expires_at: self.expires_at,
        }
    }
}

/// The outcome of a verification, with the identity as plain values.
pub open spec fn outcome_view(r: Result<Identity, AuthError>) -> Result<IdentityView, AuthError> {
    match r {
        Ok(identity) => Ok(identity@),
        Err(e) => Err(e),
    }
}

/// Whether the claims carry an expiry that is a number and lies before `now`, in
/// seconds since the epoch.
pub open spec fn has_expired(claims: Map<Seq<char>, Seq<char>>, now: u64) -> bool {
    claims.contains_key("exp"@) && (u64_denoted(claims["exp"@]) matches Some(exp) && exp < now)
}

/// The identity that a set of claims carries at the time `now`, in seconds since the
/// epoch. Claims that have expired are refused as expired, whatever else they hold.
/// Otherwise the claims `uid`, `username`, `exp` and `iat` must all be there, and
/// `exp`, `iat` and `uid` must be numbers.
pub open spec fn identity_of(claims: Map<Seq<char>, Seq<char>>, now: u64) -> Result<
    IdentityView,
    AuthError,
> {
    if has_expired(claims, now) {
        Err(AuthError::Expired)
    } else if !claims.contains_key("uid"@) || !claims.contains_key("username"@)
        || !claims.contains_key("exp"@) || !claims.contains_key("iat"@) {
        Err(AuthError::Malformed)
    } else {
        match (
            u64_denoted(claims["exp"@]),
            u64_denoted(claims["iat"@]),
            i32_denoted(claims["uid"@]),
        ) {
            (Some(exp), Some(iat), Some(uid)) => Ok(
                IdentityView {
                    user_id: uid,
                    username: claims["username"@],
                    issued_at: iat,
                    expires_at: exp,
                },
            ),
            _ => Err(AuthError::Malformed),
        }
    }
}

/// What verifying a token comes to. `unverified` is what is read from the token
/// without looking at its signature, `checked` what the signature check hands out.
/// A token that carries an expiry in the past is refused as expired, whether its
/// signature is good or not; any other token must pass the signature check.
pub open spec fn verification(
    unverified: Option<Map<Seq<char>, Seq<char>>>,
    checked: Option<Map<Seq<char>, Seq<char>>>,
    now: u64,
) -> Result<IdentityView, AuthError> {
    if unverified matches Some(claims) && has_expired(claims, now) {
        Err(AuthError::Expired)
    } else {
        match checked {
            None => Err(AuthError::InvalidSignature),
            Some(claims) => identity_of(claims, now),
        }
    }
}

/// What verifying `token` under `secret` comes to at the time `now`.
pub open spec fn verified(token: Seq<char>, secret: Seq<char>, now: u64) -> Result<
    IdentityView,
    AuthError,
> {
    verification(jwt_unverified_claims(token), jwt_hs512_claims(secret, token), now)
}

/// Pairs after position `from` that do not have the key `key` leave the claim under
/// `key` as the first `from` pairs give it.
pub proof fn lemma_claims_prefix(pairs: Seq<(Seq<char>, Seq<char>)>, from: int, key: Seq<char>)
    requires
        0 <= from <= pairs.len(),
        forall|j: int| from <= j < pairs.len() ==> (#[trigger] pairs[j]).0 != key,
    ensures
        claims_of(pairs).contains_key(key) == claims_of(pairs.take(from)).contains_key(key),
        claims_of(pairs).contains_key(key) ==> claims_of(pairs)[key] == claims_of(
            pairs.take(from),
        )[key],
    decreases pairs.len() - from,
{
    if from == pairs.len() {
        assert(pairs.take(from) == pairs);
    } else {
        let shorter = pairs.drop_last();
        assert forall|j: int| from <= j < shorter.len() implies (#[trigger] shorter[j]).0
            != key by {}
        lemma_claims_prefix(shorter, from, key);
        assert(shorter.take(from) == pairs.take(from));
    }
}

/// The value of the claim `key` among `pairs`, if there is one.
pub fn claim<'a>(pairs: &'a Vec<(String, String)>, key: &str) -> (r: Option<&'a String>)
    ensures
        r is Some == claims_of(pair_views(pairs@)).contains_key(key@),
        r matches Some(v) ==> v@ == claims_of(pair_views(pairs@))[key@],
{
    let ghost all = pair_views(pairs@);
    let wanted = key.to_owned();
    let mut i: usize = pairs.len();
    while i > 0
        invariant
            0 <= i <= pairs.len(),
            all == pair_views(pairs@),
            wanted@ == key@,
            forall|j: int| i <= j < all.len() ==> (#[trigger] all[j]).0 != key@,
        decreases i,
    {
        i -= 1;
        if pairs[i].0 == wanted {
            proof {
                lemma_claims_prefix(all, i + 1, key@);
            }
            return Some(&pairs[i].1);
        }
    }
    proof {
        lemma_claims_prefix(all, 0, key@);
    }
    None
}

/// Whether the claims carry an expiry that is a number and lies before `now`.
pub fn claims_expired(pairs: &Vec<(String, String)>, now: u64) -> (expired: bool)
    ensures
        expired == has_expired(claims_of(pair_views(pairs@)), now),
{
    match claim(pairs, "exp") {
        None => false,
        Some(exp) => match parse_u64(exp.as_str()) {
            None => false,
            Some(exp) => exp < now,
        },
    }
}

/// Reads the identity out of the claims of a token.
pub fn identity_from_claims(pairs: &Vec<(String, String)>, now: u64) -> (r: Result<
    Identity,
    AuthError,
>)
    ensures
        outcome_view(r) == identity_of(claims_of(pair_views(pairs@)), now),
{
    if claims_expired(pairs, now) {
        return Err(AuthError::Expired);
    }
    let uid = match claim(pairs, "uid") {
        Some(v) => v,
        None => { return Err(AuthError::Malformed); },
    };
    let username = match claim(pairs, "username") {
        Some(v) => v,
        None => { return Err(AuthError::Malformed); },
    };
    let exp = match claim(pairs, "exp") {
        Some(v) => v,
        None => { return Err(AuthError::Malformed); },
    };
    let iat = match claim(pairs, "iat") {
        Some(v) => v,
        None => { return Err(AuthError::Malformed); },
    };
    match (parse_u64(exp.as_str()), parse_u64(iat.as_str()), parse_i32(uid.as_str())) {
        (Some(exp), Some(iat), Some(user_id)) => Ok(
            Identity { user_id, username: username.clone(), issued_at: iat, expires_at: exp },
        ),
        _ => Err(AuthError::Malformed),
    }
}

/// Reads the identity that `token` carries at the time `now`, in seconds since the
/// epoch. A token whose expiry lies in the past is refused as expired before its
/// signature is looked at; any other token has its signature checked against `secret`.
/// Unless the token is refused as expired, the claims that the signature check hands
/// out, if it hands out any, are those that are read from the token without looking
/// at the signature.
pub fn verify_jwt_token(token: &str, secret: &str, now: u64) -> (r: Result<Identity, AuthError>)
    ensures
        outcome_view(r) == verification(
            jwt_unverified_claims(token@),
            jwt_hs512_claims(secret@, token@),
            now,
        ),
        (r matches Err(e) && e == AuthError::Expired) || (jwt_hs512_claims(secret@, token@) is Some
            ==> jwt_unverified_claims(token@) == jwt_hs512_claims(secret@, token@)),
{
    match jwt_read_unverified(token) {
        Ok(pairs) => {
            if claims_expired(&pairs, now) {
                return Err(AuthError::Expired);
            }
        },
        Err(_) => {},
    }
    match jwt_verify_hs512(secret, token) {
        Ok(pairs) => identity_from_claims(&pairs, now),
        Err(_) => Err(AuthError::InvalidSignature),
    }
}

/// The claims put into a token issued at `issued_at` for the user `uid` named
/// `username`.
pub open spec fn issued_claims(uid: i32, username: Seq<char>, issued_at: u64) -> Map<
    Seq<char>,
    Seq<char>,
> {
    map![
        "uid"@ => signed_decimal(uid as int),
        "username"@ => username,
        "iat"@ => decimal(issued_at as nat),
        "exp"@ => decimal((issued_at + TOKEN_LIFETIME) as nat),
    ]
}

/// The identity that a token issued at `issued_at` carries.
pub open spec fn issued_identity(uid: i32, username: Seq<char>, issued_at: u64) -> IdentityView {
    IdentityView {
        user_id: uid,
        username,
        issued_at,
        expires_at: (issued_at + TOKEN_LIFETIME) as u64,
    }
}

/// The four claim names are different from one another.
pub proof fn lemma_claim_names_differ()
    ensures
        "uid"@ != "username"@,
        "uid"@ != "iat"@,
        "uid"@ != "exp"@,
        "username"@ != "iat"@,
        "username"@ != "exp"@,
        "iat"@ != "exp"@,
{
    reveal_strlit("uid");
    reveal_strlit("username");
    reveal_strlit("iat");
    reveal_strlit("exp");
    assert("uid"@[0] == 'u');
    assert("iat"@[0] == 'i');
    assert("username"@.len() == 8);
}

/// Until they expire, the claims of an issued token give back the user they were
/// issued for.
pub proof fn law_issued_claims_identify(uid: i32, username: Seq<char>, issued_at: u64, now: u64)
    requires
        issued_at + TOKEN_LIFETIME <= u64::MAX,
        now <= issued_at + TOKEN_LIFETIME,
    ensures
        identity_of(issued_claims(uid, username, issued_at), now) == Ok::<IdentityView, AuthError>(
            issued_identity(uid, username, issued_at),
        ),
{
    lemma_claim_names_differ();
    lemma_parse_i32_of_decimal(uid);
    lemma_parse_u64_of_decimal(issued_at);
    lemma_parse_u64_of_decimal((issued_at + TOKEN_LIFETIME) as u64);
}

/// A token that carries an expiry in the past is refused as expired: whatever else
/// its claims hold, and whether the signature check accepts it or not.
pub proof fn law_expired_token_is_refused(
    claims: Map<Seq<char>, Seq<char>>,
    checked: Option<Map<Seq<char>, Seq<char>>>,
    now: u64,
)
    requires
        claims.contains_key("exp"@),
        u64_denoted(claims["exp"@]) matches Some(exp) && exp < now,
    ensures
        verification(Some(claims), checked, now) == Err::<IdentityView, AuthError>(
            AuthError::Expired,
        ),
        identity_of(claims, now) == Err::<IdentityView, AuthError>(AuthError::Expired),
{
}

/// A token that does not carry an expiry in the past and fails the signature check
/// is refused for its signature.
pub proof fn law_unsigned_token_is_refused(unverified: Option<Map<Seq<char>, Seq<char>>>, now: u64)
    requires
        unverified matches Some(claims) ==> !has_expired(claims, now),
    ensures
        verification(unverified, None, now) == Err::<IdentityView, AuthError>(
            AuthError::InvalidSignature,
        ),
{
}

/// Appending a pair to a list sets its key in the claims that the list stands for.
pub proof fn lemma_claims_of_push(pairs: Seq<(String, String)>, pair: (String, String))
    ensures
        claims_of(pair_views(pairs.push(pair))) == claims_of(pair_views(pairs)).insert(
            pair.0@,
            pair.1@,
        ),
{
    let longer = pair_views(pairs.push(pair));
    assert(longer.drop_last() == pair_views(pairs));
}

/// Issues a token for the user `uid` named `username`, signed with `secret`, at the
/// time `now` in seconds since the epoch. The token expires `TOKEN_LIFETIME` seconds
/// later; verified under the same secret at any time until then, it gives back `uid`
/// and `username`.
pub fn get_signed_jwt_token(uid: i32, username: &str, secret: &str, now: u64) -> (token: String)
    requires
        now + TOKEN_LIFETIME <= u64::MAX,
    ensures
        token@ == jwt_hs512_token(secret@, issued_claims(uid, username@, now)),
        forall|at: u64|
            at <= now + TOKEN_LIFETIME ==> #[trigger] verified(token@, secret@, at) == Ok::<
                IdentityView,
                AuthError,
            >(issued_identity(uid, username@, now)),
{
    let exp: u64 = now + TOKEN_LIFETIME;
    let mut claims: Vec<(String, String)> = Vec::new();
    let ghost c0 = claims@;
    claims.push(("uid".to_owned(), i32_to_decimal(uid)));
    let ghost c1 = claims@;
    claims.push(("username".to_owned(), username.to_owned()));
    let ghost c2 = claims@;
    claims.push(("iat".to_owned(), u64_to_decimal(now)));
    let ghost c3 = claims@;
    claims.push(("exp".to_owned(), u64_to_decimal(exp)));
    proof {
        lemma_claim_names_differ();
        lemma_claims_of_push(c0, c1[0]);
        lemma_claims_of_push(c1, c2[1]);
        lemma_claims_of_push(c2, c3[2]);
        lemma_claims_of_push(c3, claims@[3]);
        assert forall|at: u64| at <= now + TOKEN_LIFETIME implies #[trigger] identity_of(
            issued_claims(uid, username@, now),
            at,
        ) == Ok::<IdentityView, AuthError>(issued_identity(uid, username@, now)) by {
            law_issued_claims_identify(uid, username@, now, at);
        }
    }
    match jwt_sign_hs512(secret, &claims) {
        Ok(token) => token,
        Err(_) => vstd::pervasive::unreached(),
    }
}

} // verus!
