//! Bearer tokens: where a request carries one, and the claims of the tokens
//! the mock login issues.
use vstd::prelude::*;

verus! {

/// Claims of a JSON Web Token.
#[derive(Debug)]
pub struct Claims {
    /// Subject (who the user is, for instance `hmi-dashboard`).
    pub sub: String,
    /// Expiry, in seconds since the epoch.
    pub exp: usize,
    /// Role for authorization.
    pub role: String,
}

/// Lifetime of a mock-login token, in seconds.
pub const TOKEN_LIFETIME_SECS: usize = 3600;

/// Claims of the token issued by the mock login at `now_secs`: subject
/// `hmi-dashboard`, role `admin`, valid for one hour.
pub fn mock_login_claims(now_secs: u64) -> (c: Claims)
    requires
        now_secs + TOKEN_LIFETIME_SECS <= usize::MAX,
    ensures
        c.sub@ == "hmi-dashboard"@,
        c.exp == now_secs + TOKEN_LIFETIME_SECS,
        c.role@ == "admin"@,
{
    Claims {
        sub: "hmi-dashboard".to_owned(),
        exp: now_secs as usize + TOKEN_LIFETIME_SECS,
        role: "admin".to_owned(),
    }
}

/// The chars of the `Authorization` scheme prefix, `Bearer `.
pub open spec fn bearer_prefix() -> Seq<char> {
    seq!['B', 'e', 'a', 'r', 'e', 'r', ' ']
}

/// The credential of an `Authorization` header value of the form
/// `Bearer <credential>`.
pub open spec fn bearer_credential(header: Seq<char>) -> Option<Seq<char>> {
    if header.len() >= 7 && header.subrange(0, 7) == bearer_prefix() {
        Some(header.subrange(7, header.len() as int))
    } else {
        None
    }
}

/// Strips the `Bearer ` prefix of an `Authorization` header value.
pub fn bearer_token(header: &str) -> (token: Option<String>)
    ensures
        match token {
            Some(t) => bearer_credential(header@) == Some(t@),
            None => bearer_credential(header@) is None,
        },
{
    let n = header.unicode_len();
    if n < 7 {
        return None;
    }
    let expected = ['B', 'e', 'a', 'r', 'e', 'r', ' '];
    let mut i: usize = 0;
    while i < 7
        invariant
            i <= 7,
            n == header@.len(),
            n >= 7,
            expected@ == bearer_prefix(),
            forall|j: int| 0 <= j < i ==> header@[j] == bearer_prefix()[j],
        decreases 7 - i,
    {
        if header.get_char(i) != expected[i] {
            assert(header@.subrange(0, 7)[i as int] != bearer_prefix()[i as int]);
            return None;
        }
        i = i + 1;
    }
    assert(header@.subrange(0, 7) =~= bearer_prefix());
    let rest = header.substring_char(7, n);
    Some(rest.to_owned())
}

/// The pairs of an `application/x-www-form-urlencoded` query, in order, as
/// `serde_urlencoded::from_str` decodes them; `None` when it refuses it.
pub uninterp spec fn form_pairs(query: Seq<char>) -> Option<Seq<(Seq<char>, Seq<char>)>>;

/// Views of the decoded pairs.
pub open spec fn pair_views(v: Seq<(String, String)>) -> Seq<(Seq<char>, Seq<char>)> {
    v.map_values(|p: (String, String)| (p.0@, p.1@))
}

/// Calls `serde_urlencoded::from_str` into a list of string pairs; the
/// result is named `form_pairs`.
#[verifier::external_body]
fn decode_form_pairs(query: &str) -> (pairs: Option<Vec<(String, String)>>)
    ensures
        match pairs {
            Some(v) => form_pairs(query@) == Some(pair_views(v@)),
            None => form_pairs(query@) is None,
        },
{
    match serde_urlencoded::from_str::<Vec<(String, String)>>(query) {
        Ok(v) => Some(v),
        Err(_) => None,
    }
}

/// The key of the query parameter that carries a token.
pub open spec fn token_key() -> Seq<char> {
    seq!['t', 'o', 'k', 'e', 'n']
}

/// The value of the last pair whose key is `token` (a later pair overrides
/// an earlier one, as when the pairs fill a map).
pub open spec fn last_token(pairs: Seq<(Seq<char>, Seq<char>)>) -> Option<Seq<char>>
    decreases pairs.len(),
{
    if pairs.len() == 0 {
        None
    } else if pairs.last().0 == token_key() {
        Some(pairs.last().1)
    } else {
        last_token(pairs.drop_last())
    }
}

/// The token a request carries: the credential of a `Bearer` authorization
/// header or, failing that, the `token` query parameter (used by
/// WebSocket clients). A query that does not decode counts as empty.
pub open spec fn request_token_spec(header: Option<Seq<char>>, query: Option<Seq<char>>) -> Option<
    Seq<char>,
> {
    let from_header = match header {
        Some(h) => bearer_credential(h),
        None => None,
    };
    if from_header is Some {
        from_header
    } else {
        match query {
            Some(q) => match form_pairs(q) {
                Some(pairs) => last_token(pairs),
                None => None,
            },
            None => None,
        }
    }
}

fn is_token_key(s: &String) -> (b: bool)
    ensures
        b == (s@ == token_key()),
{
    let k = s.as_str();
    if k.unicode_len() != 5 {
        return false;
    }
    let expected = ['t', 'o', 'k', 'e', 'n'];
    let mut i: usize = 0;
    while i < 5
        invariant
            i <= 5,
            k@ == s@,
            k@.len() == 5,
            expected@ == token_key(),
            forall|j: int| 0 <= j < i ==> k@[j] == token_key()[j],
        decreases 5 - i,
    {
        if k.get_char(i) != expected[i] {
            return false;
        }
        i = i + 1;
    }
    assert(k@ =~= token_key());
    true
}

/// Finds the token a request carries (see `request_token_spec`).
pub fn request_token(header: Option<&str>, query: Option<&str>) -> (token: Option<String>)
    ensures
        match token {
            Some(t) => request_token_spec(
                match header {
                    Some(h) => Some(h@),
                    None => None,
                },
                match query {
                    Some(q) => Some(q@),
                    None => None,
                },
            ) == Some(t@),
            None => request_token_spec(
                match header {
                    Some(h) => Some(h@),
                    None => None,
                },
                match query {
                    Some(q) => Some(q@),
                    None => None,
                },
            ) is None,
        },
{
    if let Some(h) = header {
        if let Some(t) = bearer_token(h) {
            return Some(t);
        }
    }
    let q = match query {
        Some(q) => q,
        None => {
            return None;
        },
    };
    let pairs = match decode_form_pairs(q) {
        Some(p) => p,
        None => {
            return None;
        },
    };
    let ghost views = pair_views(pairs@);
    assert(views.subrange(0, pairs@.len() as int) =~= views);
    let mut i: usize = pairs.len();
    while i > 0
        invariant
            i <= pairs@.len(),
            views == pair_views(pairs@),
            form_pairs(q@) == Some(views),
            query == Some(q),
            match header {
                Some(h) => bearer_credential(h@) is None,
                None => true,
            },
            last_token(views) == last_token(views.subrange(0, i as int)),
        decreases i,
    {
        let (k, v) = &pairs[i - 1];
        let ghost prefix = views.subrange(0, i as int);
        assert(prefix.last() == views[i - 1]);
        assert(prefix.drop_last() =~= views.subrange(0, i - 1));
        assert(views[i - 1] == (k@, v@));
        if is_token_key(k) {
            assert(last_token(prefix) == Some(v@));
            assert(form_pairs(q@) == Some(views));
            return Some(v.clone());
        }
        i = i - 1;
    }
    assert(views.subrange(0, 0) =~= Seq::<(Seq<char>, Seq<char>)>::empty());
    None
}

} // verus!
