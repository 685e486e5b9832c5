//! Access tokens: the claims a token carries and their expiry, signing a
//! token with `jsonwebtoken`, decoding and validating one, and reading the
//! user id back from a token's subject.
use crate::datetime::{unix_seconds, unix_seconds_of, DateTime};
use crate::text::chars_of;
use crate::types::opt_view;
use chrono::{Datelike, Timelike};
use vstd::prelude::*;

verus! {

/// The claims of an access token: a fixed subject, the id it was issued for
/// (user or space) and the expiry, to the second.
pub struct Claims {
    pub sub: String,
    pub company: String,
    pub exp: DateTime,
}

impl View for Claims {
    type V = (Seq<char>, Seq<char>, DateTime);

    open spec fn view(&self) -> (Seq<char>, Seq<char>, DateTime) {
        (self.sub@, self.company@, self.exp)
    }
}

/// A date-time with its fraction of a second dropped.
pub open spec fn whole_seconds(t: DateTime) -> DateTime {
    DateTime { nanosecond: 0, ..t }
}

impl Claims {
    /// Claims expiring at `exp`, cut to the second.
    pub fn new(sub: String, company: String, exp: DateTime) -> (r: Self)
        ensures
            r@ == (sub@, company@, whole_seconds(exp)),
    {
        let exp = DateTime { nanosecond: 0, ..exp };
        Claims { sub, company, exp }
    }
}

/// What chrono gives for a date-time moved forward by a number of whole days
/// (`None` where the result is out of its range).
pub uninterp spec fn days_later(t: DateTime, days: int) -> Option<DateTime>;

/// Moves a date-time forward by whole days with chrono
/// (`NaiveDateTime::checked_add_signed` of `TimeDelta::try_days`). Trusted:
/// the result is `days_later` of the arguments; a date-time chrono cannot
/// represent, or a count of days its durations cannot hold, gives `None`.
#[verifier::external_body]
fn add_days(t: DateTime, days: i64) -> (r: Option<DateTime>)
    ensures
        r == days_later(t, days as int),
{
    let start = chrono::NaiveDate::from_ymd_opt(t.year, t.month, t.day)?.and_hms_nano_opt(t.hour, t.minute, t.second, t.nanosecond)?;
    let end = start.checked_add_signed(chrono::TimeDelta::try_days(days)?)?;
    Some(DateTime { year: end.year(), month: end.month(), day: end.day(), hour: end.hour(), minute: end.minute(), second: end.second(), nanosecond: end.nanosecond() })
}

/// The claims of a token issued at `now` for `id`, valid for `duration`
/// days; `None` where the expiry is out of the calendar's range.
pub fn token_claims(id: &String, now: DateTime, duration: i64) -> (r: Option<Claims>)
    ensures
        match days_later(now, duration as int) {
            None => r is None,
            Some(exp) => r matches Some(c) && c@ == ("user"@, id@, whole_seconds(exp)),
        },
{
    proof {
        reveal_strlit("user");
    }
    match add_days(now, duration) {
        None => None,
        Some(exp) => Some(Claims::new(String::from_str("user"), id.clone(), exp)),
    }
}

/// The token that `jsonwebtoken::encode` writes for the claims `sub`,
/// `company` and `exp` (a JSON object), signed with HS256 under `secret`.
pub uninterp spec fn jwt_signed(sub: Seq<char>, company: Seq<char>, exp: int, secret: Seq<char>) -> Seq<char>;

/// What decoding a token under `secret` gives, the clock set aside: the
/// claims `sub`, `company` (strings) and `exp` (an integer) of a token whose
/// HS256 signature checks and whose `exp` is present as a non-negative
/// number; `None` for any other token.
pub uninterp spec fn jwt_claims(token: Seq<char>, secret: Seq<char>) -> Option<(Seq<char>, Seq<char>, int)>;

/// Signs the claims with `jsonwebtoken::encode` (default header, HS256, the
/// key made from `secret`); the payload is the JSON object of `sub`,
/// `company` and `exp` in that order (the map keeps insertion order). Trusted: the token is `jwt_signed` of the
/// arguments; encoding succeeds, since an HMAC key matches the HS256 header
/// and a JSON object of strings and an integer always serialises; and a
/// token so made decodes (clock aside) to the same claims when `exp` is not
/// negative.
#[verifier::external_body]
fn jwt_encode(sub: &str, company: &str, exp: i64, secret: &str) -> (r: Option<String>)
    ensures
        r is Some,
        r matches Some(t) ==> {
            &&& t@ == jwt_signed(sub@, company@, exp as int, secret@)
            &&& exp >= 0 ==> jwt_claims(t@, secret@) == Some((sub@, company@, exp as int))
        },
{
    let mut claims = serde_json::Map::new();
    claims.insert("sub".to_string(), serde_json::Value::from(sub));
    claims.insert("company".to_string(), serde_json::Value::from(company));
    claims.insert("exp".to_string(), serde_json::Value::from(exp));
    let key = jsonwebtoken::EncodingKey::from_secret(secret.as_bytes());
    jsonwebtoken::encode(&jsonwebtoken::Header::default(), &claims, &key).ok()
}

/// Decodes a token with `jsonwebtoken::decode` (default validation: HS256,
/// `exp` required and not past, by the clock). Trusted: a result is the
/// claims `jwt_claims` gives; a token for which it gives nothing does not
/// decode. Whether an expiry has passed depends on the clock and is not
/// stated: a token with claims may still give `None`.
#[verifier::external_body]
fn jwt_decode(token: &str, secret: &str) -> (r: Option<(String, String, i64)>)
    ensures
        r matches Some((s, c, e)) ==> jwt_claims(token@, secret@) == Some((s@, c@, e as int)),
        jwt_claims(token@, secret@) is None ==> r is None,
{
    let key = jsonwebtoken::DecodingKey::from_secret(secret.as_bytes());
    let data = jsonwebtoken::decode::<serde_json::Value>(token, &key, &jsonwebtoken::Validation::default()).ok()?;
    let sub = data.claims.get("sub")?.as_str()?.to_string();
    let company = data.claims.get("company")?.as_str()?.to_string();
    let exp = data.claims.get("exp")?.as_i64()?;
    Some((sub, company, exp))
}

/// The token of the claims, as the service signs it: subject, id and the
/// expiry's Unix timestamp.
pub open spec fn claims_token(c: (Seq<char>, Seq<char>, DateTime), secret: Seq<char>) -> Seq<char> {
    jwt_signed(c.0, c.1, unix_seconds_of(c.2), secret)
}

/// The token `create_token` gives for `id`, issued at `now` and valid for
/// `duration` days: `None` where the expiry or its timestamp is out of range.
pub open spec fn token_for(id: Seq<char>, now: DateTime, duration: int, secret: Seq<char>) -> Option<Seq<char>> {
    match days_later(now, duration) {
        None => None,
        Some(exp) => {
            let secs = unix_seconds_of(whole_seconds(exp));
            if i64::MIN <= secs <= i64::MAX {
                Some(claims_token(("user"@, id, whole_seconds(exp)), secret))
            } else {
                None
            }
        },
    }
}

/// A token that, decoded under `secret` (clock aside), names `id` with the
/// expiry `duration` days after `now`, to the second; this is said of
/// expiries from 1970 on, as tokens carry no earlier ones.
pub open spec fn token_names(t: Seq<char>, id: Seq<char>, now: DateTime, duration: int, secret: Seq<char>) -> bool {
    match days_later(now, duration) {
        None => true,
        Some(exp) => {
            let secs = unix_seconds_of(whole_seconds(exp));
            secs >= 0 ==> jwt_claims(t, secret) == Some(("user"@, id, secs))
        },
    }
}

/// A token for `id` issued at `now` (UTC) and valid for `duration` days,
/// signed with `secret`; `None` where the expiry is out of range. Decoded
/// under the same secret (clock aside) it gives back subject, id and expiry.
pub fn create_token(id: &String, now: DateTime, duration: i64, secret: &String) -> (r: Option<String>)
    ensures
        opt_view(r) == token_for(id@, now, duration as int, secret@),
        r matches Some(t) ==> token_names(t@, id@, now, duration as int, secret@),
{
    let c = match token_claims(id, now, duration) {
        Some(c) => c,
        None => return None,
    };
    let secs = match unix_seconds(c.exp) {
        Some(x) => x,
        None => return None,
    };
    jwt_encode(c.sub.as_str(), c.company.as_str(), secs, secret.as_str())
}

/// The id carried by a token signed with `secret` and not expired; `None`
/// for any other token.
pub fn decode_token(token: &String, secret: &String) -> (r: Option<String>)
    ensures
        r matches Some(c) ==> jwt_claims(token@, secret@) is Some && (jwt_claims(token@, secret@)->0).1 == c@,
        jwt_claims(token@, secret@) is None ==> r is None,
{
    match jwt_decode(token.as_str(), secret.as_str()) {
        Some((s, c, e)) => {
            assert(jwt_claims(token@, secret@) == Some((s@, c@, e as int)));
            Some(c)
        },
        None => None,
    }
}

/// Whether a token is signed with `secret` and not expired.
pub fn validate_token(token: &String, secret: &String) -> (r: bool)
    ensures
        r ==> jwt_claims(token@, secret@) is Some,
{
    jwt_decode(token.as_str(), secret.as_str()).is_some()
}

/// Whether a character is an ASCII digit.
pub open spec fn is_digit(c: char) -> bool {
    '0' <= c && c <= '9'
}

/// The value of a string of decimal digits.
pub open spec fn digits_value(s: Seq<char>) -> int
    decreases s.len(),
{
    if s.len() == 0 {
        0
    } else {
        digits_value(s.drop_last()) * 10 + (s.last() as int - '0' as int)
    }
}

/// A string without its leading sign, if it has one.
pub open spec fn unsigned_part(s: Seq<char>) -> Seq<char> {
    if s.len() > 0 && (s[0] == '-' || s[0] == '+') {
        s.drop_first()
    } else {
        s
    }
}

/// The integer a string writes: an optional `+` or `-`, then one or more
/// decimal digits and nothing else.
pub open spec fn written_int(s: Seq<char>) -> Option<int> {
    let negative = s.len() > 0 && s[0] == '-';
    let body = unsigned_part(s);
    if body.len() == 0 || exists|i: int| 0 <= i < body.len() && !is_digit(#[trigger] body[i]) {
        None
    } else if negative {
        Some(-digits_value(body))
    } else {
        Some(digits_value(body))
    }
}

/// What `str::parse::<i32>` gives: the integer written, where it fits.
pub open spec fn parsed_i32(s: Seq<char>) -> Option<i32> {
    match written_int(s) {
        Some(v) => if i32::MIN <= v && v <= i32::MAX {
            Some(v as i32)
        } else {
            None
        },
        None => None,
    }
}

/// A longer string of digits has at least the value of its prefix.
proof fn lemma_digits_value_grows(s: Seq<char>, k: int)
    requires
        0 <= k <= s.len(),
        forall|i: int| 0 <= i < s.len() ==> is_digit(#[trigger] s[i]),
    ensures
        0 <= digits_value(s.take(k)) <= digits_value(s),
    decreases s.len() - k,
{
    if k < s.len() {
        lemma_digits_value_grows(s, k + 1);
        assert(s.take(k + 1).drop_last() =~= s.take(k));
        assert(is_digit(s[k]));
    } else {
        assert(s.take(k) =~= s);
        lemma_digits_value_nonneg(s);
    }
}

/// A string of digits has a value of at least zero.
proof fn lemma_digits_value_nonneg(s: Seq<char>)
    requires
        forall|i: int| 0 <= i < s.len() ==> is_digit(#[trigger] s[i]),
    ensures
        0 <= digits_value(s),
    decreases s.len(),
{
    if s.len() > 0 {
        let t = s.drop_last();
        assert forall|i: int| 0 <= i < t.len() implies is_digit(#[trigger] t[i]) by {
            assert(t[i] == s[i]);
        }
        lemma_digits_value_nonneg(t);
        assert(is_digit(s[s.len() - 1]));
    }
}

/// The id a token's subject names, as `str::parse::<i32>` reads it.
pub fn parse_user_id(s: &str) -> (r: Option<i32>)
    ensures
        r == parsed_i32(s@),
{
    let cs = chars_of(s);
    let n = cs.len();
    let mut start: usize = 0;
    let mut negative = false;
    if n > 0 && (cs[0] == '-' || cs[0] == '+') {
        negative = cs[0] == '-';
        start = 1;
    }
    let ghost body = unsigned_part(s@);
    assert(body =~= cs@.subrange(start as int, n as int));
    if start == n {
        return None;
    }
    let mut acc: i64 = 0;
    let mut i: usize = start;
    while i < n
        invariant
            start <= i <= n,
            n == cs@.len(),
            cs@ == s@,
            body == unsigned_part(s@),
            negative == (s@.len() > 0 && s@[0] == '-'),
            body == cs@.subrange(start as int, n as int),
            forall|j: int| start <= j < i ==> is_digit(#[trigger] cs@[j]),
            acc == digits_value(cs@.subrange(start as int, i as int)),
            0 <= acc <= 2147483648,
        decreases n - i,
    {
        let c = cs[i];
        if !('0' <= c && c <= '9') {
            assert(body[i - start] == cs@[i as int]);
            assert(!is_digit(body[i - start]));
            return None;
        }
        let d = (c as u32 - '0' as u32) as i64;
        assert(cs@.subrange(start as int, i + 1).drop_last() =~= cs@.subrange(start as int, i as int));
        let next = acc * 10 + d;
        if next > 2147483648 {
            proof {
                let all = cs@.subrange(start as int, n as int);
                if forall|j: int| 0 <= j < all.len() ==> is_digit(#[trigger] all[j]) {
                    assert(all.take(i + 1 - start) =~= cs@.subrange(start as int, i + 1));
                    lemma_digits_value_grows(all, i + 1 - start);
                    assert(all == body);
                    assert(digits_value(body) > 2147483648);
                } else {
                    let j = choose|j: int| 0 <= j < all.len() && !is_digit(#[trigger] all[j]);
                    assert(!is_digit(body[j]));
                }
            }
            return None;
        }
        acc = next;
        i = i + 1;
    }
    assert(cs@.subrange(start as int, n as int) =~= body);
    assert forall|j: int| 0 <= j < body.len() implies is_digit(#[trigger] body[j]) by {
        assert(body[j] == cs@[start + j]);
    }
    if negative {
        Some((-acc) as i32)
    } else if acc <= 2147483647 {
        Some(acc as i32)
    } else {
        None
    }
}

} // verus!
