use vstd::prelude::*;
use vstd::string::StrSliceExecFns;
use crate::errors::ApiError;
use crate::user::{UserRole, spec_role_of};

verus! {

/// A signed, time-bounded identity claim: the token payload.
#[derive(Debug)]
pub struct Claims {
    pub sub: String,
    pub role: UserRole,
    pub exp: i64,
    pub iat: i64,
}

/// The number of seconds a token stays valid: a fixed 24 hours from
/// issuance, regardless of any configured default lifetime.
pub const TOKEN_LIFETIME_SECONDS: i64 = 86400;

/// The signed token that encodes a claim of this subject and role, with
/// these issue and expiry times, under this symmetric secret. The token
/// depends on these five values alone.
pub uninterp spec fn token_of(sub: Seq<char>, role: Seq<char>, iat: int, exp: int, secret: Seq<char>) -> Seq<char>;

/// What decoding a token under a symmetric secret yields: the subject, the
/// role string, the expiry and the issue time, when the signature checks
/// out and the four fields are present; nothing otherwise. The result
/// depends on the token and the secret alone.
pub uninterp spec fn decoded_claims_of(token: Seq<char>, secret: Seq<char>) -> Option<
    (Seq<char>, Seq<char>, int, int),
>;

/// Relies on jsonwebtoken::encode with its default header: an HS256-signed
/// claim set, deterministic in the claim fields and the secret. Signing
/// with a symmetric secret cannot fail — the HMAC key accepts any length
/// and the four-field claim map always serializes — and the dotted token is
/// never empty. Decoding the result under the same secret recovers exactly
/// the four fields, provided the expiry is non-negative: the decoder reads
/// the expiry as an unsigned number and refuses a token without a readable
/// one.
#[verifier::external_body]
fn encode_claims(sub: &str, role: &str, exp: i64, iat: i64, secret: &str) -> (r: Result<String, ()>)
    ensures
        r is Ok,
        r matches Ok(t) ==> t@ == token_of(sub@, role@, iat as int, exp as int, secret@),
        r matches Ok(t) ==> t@.len() > 0,
        r matches Ok(t) ==> (0 <= exp ==> decoded_claims_of(t@, secret@) == Some(
            (sub@, role@, exp as int, iat as int),
        )),
{
    let mut claims = serde_json::Map::new();
    claims.insert("sub".to_string(), serde_json::Value::from(sub));
    claims.insert("role".to_string(), serde_json::Value::from(role));
    claims.insert("exp".to_string(), serde_json::Value::from(exp));
    claims.insert("iat".to_string(), serde_json::Value::from(iat));
    let key = jsonwebtoken::EncodingKey::from_secret(secret.as_bytes());
    jsonwebtoken::encode(&jsonwebtoken::Header::default(), &serde_json::Value::Object(claims), &key)
        .map_err(|_| ())
}

/// Relies on jsonwebtoken::decode with HS256: checks the token's signature
/// against the secret and hands back the four claim fields, read with
/// serde_json::Value::get, as_str and as_i64. Expiry is not checked here;
/// the caller compares the expiry time itself.
#[verifier::external_body]
fn decode_token(token: &str, secret: &str) -> (r: Option<(String, String, i64, i64)>)
    ensures
        decoded_claims_of(token@, secret@) == (match r {
            Some(c) => Some((c.0@, c.1@, c.2 as int, c.3 as int)),
            None => None::<(Seq<char>, Seq<char>, int, int)>,
        }),
{
    let mut v = jsonwebtoken::Validation::new(jsonwebtoken::Algorithm::HS256);
    v.validate_exp = false;
    let key = jsonwebtoken::DecodingKey::from_secret(secret.as_bytes());
    let c = jsonwebtoken::decode::<serde_json::Value>(token, &key, &v).ok()?.claims;
    let sub = c.get("sub")?.as_str()?.to_string();
    let role = c.get("role")?.as_str()?.to_string();
    Some((sub, role, c.get("exp")?.as_i64()?, c.get("iat")?.as_i64()?))
}

/// Issues a token for a subject: a claim issued at `now`, expiring a fixed
/// 24 hours later, signed with the symmetric secret. Always succeeds, and
/// for any non-negative clock reading, decoding the issued token under the
/// same secret yields the claim back.
pub fn create_jwt(user_id: &String, role: &UserRole, secret: &String, now: i64) -> (r: Result<
    String,
    ApiError,
>)
    requires
        now <= i64::MAX - TOKEN_LIFETIME_SECONDS,
    ensures
        r is Ok,
        r matches Ok(t) ==> t@ == token_of(
            user_id@,
            role.spec_str(),
            now as int,
            now + TOKEN_LIFETIME_SECONDS,
            secret@,
        ),
        r matches Ok(t) ==> t@.len() > 0,
        r matches Ok(t) ==> (0 <= now ==> decoded_claims_of(t@, secret@) == Some(
            (user_id@, role.spec_str(), now + TOKEN_LIFETIME_SECONDS, now as int),
        )),
{
    let claims = Claims {
        sub: user_id.clone(),
        role: *role,
        exp: now + TOKEN_LIFETIME_SECONDS,
        iat: now,
    };
    match encode_claims(
        claims.sub.as_str(),
        claims.role.as_str(),
        claims.exp,
        claims.iat,
        secret.as_str(),
    ) {
        Ok(t) => Ok(t),
        Err(_) => Err(ApiError::Internal),
    }
}

/// What stripping the bearer scheme from an authorization header leaves:
/// the token after "Bearer ", or nothing when the scheme is absent.
pub open spec fn spec_bearer_token(header: Seq<char>) -> Option<Seq<char>> {
    if header.len() >= 7 && header.subrange(0, 7) == "Bearer "@ {
        Some(header.skip(7))
    } else {
        None
    }
}

/// Strips the bearer scheme from an authorization header value.
pub fn extract_bearer_token<'a>(header: &'a str) -> (r: Option<&'a str>)
    ensures
        match r {
            Some(t) => spec_bearer_token(header@) == Some(t@),
            None => spec_bearer_token(header@) is None,
        },
{
    let len = header.unicode_len();
    if len < 7 {
        return None;
    }
    let pattern = "Bearer ";
    proof {
        reveal_strlit("Bearer ");
    }
    let mut i: usize = 0;
    while i < 7
        invariant
            header@.len() >= 7,
            i <= 7,
            pattern@ == "Bearer "@,
            pattern@.len() == 7,
            forall|j: int| 0 <= j < i ==> header@[j] == pattern@[j],
        decreases 7 - i,
    {
        if header.get_char(i) != pattern.get_char(i) {
            proof {
                assert(header@.subrange(0, 7)[i as int] == header@[i as int]);
            }
            return None;
        }
        i += 1;
    }
    proof {
        assert(header@.subrange(0, 7) =~= "Bearer "@);
    }
    Some(header.substring_char(7, len))
}

/// The request-authentication step: takes the authorization header, checks
/// the bearer scheme, the signature and the expiry against `now`, and hands
/// back the verified claim. It accepts exactly the headers carrying a
/// bearer token that decodes under the secret and has not expired; every
/// failure reads as bad credentials.
pub fn authenticate(header: Option<&String>, secret: &String, now: i64) -> (r: Result<
    Claims,
    ApiError,
>)
    ensures
        r is Ok <==> (header matches Some(h) && spec_bearer_token(h@) matches Some(t)
            && decoded_claims_of(t, secret@) matches Some(d) && d.2 > now),
        r matches Err(e) ==> e == ApiError::Authentication,
        r matches Ok(c) ==> (header matches Some(h) && spec_bearer_token(h@) matches Some(t)
            && decoded_claims_of(t, secret@) matches Some(d) && c.sub@ == d.0 && c.role
            == spec_role_of(d.1) && c.exp == d.2 && c.iat == d.3),
{
    let h = match header {
        Some(h) => h,
        None => {
            return Err(ApiError::Authentication);
        },
    };
    let token = match extract_bearer_token(h.as_str()) {
        Some(t) => t,
        None => {
            return Err(ApiError::Authentication);
        },
    };
    let (sub, role, exp, iat) = match decode_token(token, secret.as_str()) {
        Some(c) => c,
        None => {
            return Err(ApiError::Authentication);
        },
    };
    if exp > now {
        Ok(Claims { sub, role: UserRole::from(role), exp, iat })
    } else {
        Err(ApiError::Authentication)
    }
}

} // verus!
