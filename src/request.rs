//! What the login path reads from a request: the session token (cookie
//! first, then the bearer header) and the client's IP address.
use vstd::prelude::*;
use vstd::string::*;
use crate::chars::{has_prefix, is_white_space, starts_with, substring, trim, trim_end, trim_start, trimmed};
use crate::errors::AppError;
use crate::text::owned;

verus! {

/// Position of the first `c` in `s`, or the length of `s` where there is none.
pub open spec fn index_of(s: Seq<char>, c: char) -> nat
    decreases s.len(),
{
    if s.len() == 0 {
        0
    } else if s[0] == c {
        0
    } else {
        1 + index_of(s.drop_first(), c)
    }
}

proof fn lemma_index_of(s: Seq<char>, c: char, p: int)
    requires
        0 <= p <= s.len(),
        forall|k: int| 0 <= k < p ==> s[k] != c,
        p == s.len() || s[p] == c,
    ensures
        index_of(s, c) == p,
    decreases s.len(),
{
    if s.len() > 0 && s[0] != c {
        assert forall|k: int| 0 <= k < p - 1 implies s.drop_first()[k] != c by {
            assert(s.drop_first()[k] == s[k + 1]);
        }
        if p < s.len() {
            assert(s.drop_first()[p - 1] == s[p]);
        }
        lemma_index_of(s.drop_first(), c, p - 1);
    }
}

/// Position of the first `c` at or after `from`, or `s`'s length.
fn find_from(s: &str, c: char, from: usize) -> (r: usize)
    requires
        from <= s@.len(),
    ensures
        from <= r <= s@.len(),
        r - from == index_of(s@.subrange(from as int, s@.len() as int), c),
{
    let n = s.unicode_len();
    let mut j = from;
    while j < n && s.get_char(j) != c
        invariant
            from <= j <= n,
            n == s@.len(),
            forall|k: int| from <= k < j ==> s@[k] != c,
        decreases n - j,
    {
        j = j + 1;
    }
    proof {
        let t = s@.subrange(from as int, n as int);
        assert forall|k: int| 0 <= k < j - from implies t[k] != c by {
            assert(t[k] == s@[from + k]);
        }
        if j < n {
            assert(t[j - from] == s@[j as int]);
        }
        lemma_index_of(t, c, j - from);
    }
    j
}

pub open spec fn cookie_name() -> Seq<char> {
    "admin_token="@
}

/// The value of the first `admin_token` cookie in a `Cookie` header: the
/// header is split at `;`, each part trimmed, and the first part that starts
/// with `admin_token=` gives what follows that prefix.
pub open spec fn cookie_token(s: Seq<char>) -> Option<Seq<char>>
    decreases s.len(),
{
    let i = index_of(s, ';');
    let part = trimmed(s.subrange(0, i as int));
    if has_prefix(part, cookie_name()) {
        Some(part.subrange(cookie_name().len() as int, part.len() as int))
    } else if i >= s.len() {
        None
    } else {
        cookie_token(s.subrange(i as int + 1, s.len() as int))
    }
}

proof fn lemma_index_of_bound(s: Seq<char>, c: char)
    ensures
        index_of(s, c) <= s.len(),
        index_of(s, c) < s.len() ==> s[index_of(s, c) as int] == c,
    decreases s.len(),
{
    if s.len() > 0 && s[0] != c {
        lemma_index_of_bound(s.drop_first(), c);
        if index_of(s, c) < s.len() {
            assert(s.drop_first()[index_of(s.drop_first(), c) as int] == s[index_of(s, c) as int]);
        }
    }
}

pub fn extract_admin_token_from_cookies(cookie_str: &str) -> (r: Option<String>)
    ensures
        match r {
            Some(t) => cookie_token(cookie_str@) == Some(t@),
            None => cookie_token(cookie_str@) is None,
        },
{
    let n = cookie_str.unicode_len();
    let mut start: usize = 0;
    assert(cookie_str@.subrange(0, n as int) =~= cookie_str@);
    loop
        invariant
            start <= n,
            n == cookie_str@.len(),
            cookie_token(cookie_str@) == cookie_token(cookie_str@.subrange(start as int, n as int)),
        decreases n + 1 - start,
    {
        let ghost rest = cookie_str@.subrange(start as int, n as int);
        let end = find_from(cookie_str, ';', start);
        let segment = substring(cookie_str, start, end);
        assert(segment@ =~= rest.subrange(0, index_of(rest, ';') as int));
        let part = trim(segment.as_str());
        proof {
            reveal_strlit("admin_token=");
        }
        if starts_with(part.as_str(), "admin_token=") {
            let m = part.as_str().unicode_len();
            let value = substring(part.as_str(), 12, m);
            return Some(value);
        }
        if end >= n {
            return None;
        }
        proof {
            lemma_index_of_bound(rest, ';');
            assert(rest.subrange(index_of(rest, ';') as int + 1, rest.len() as int) =~= cookie_str@.subrange(
                end as int + 1,
                n as int,
            ));
        }
        start = end + 1;
    }
}

pub open spec fn bearer_prefix() -> Seq<char> {
    "Bearer "@
}

/// The token of an `Authorization: Bearer <token>` header.
pub open spec fn bearer_token_of(h: Seq<char>) -> Option<Seq<char>> {
    if has_prefix(h, bearer_prefix()) {
        Some(h.subrange(bearer_prefix().len() as int, h.len() as int))
    } else {
        None
    }
}

pub fn bearer_token(authorization: &str) -> (r: Option<String>)
    ensures
        match r {
            Some(t) => bearer_token_of(authorization@) == Some(t@),
            None => bearer_token_of(authorization@) is None,
        },
{
    proof {
        reveal_strlit("Bearer ");
    }
    if starts_with(authorization, "Bearer ") {
        let n = authorization.unicode_len();
        Some(substring(authorization, 7, n))
    } else {
        None
    }
}

/// The session token: the cookie's where it has one, else the bearer header's.
pub open spec fn session_token_of(cookie: Option<Seq<char>>, authorization: Option<Seq<char>>) -> Option<Seq<char>> {
    let from_cookie = match cookie {
        Some(c) => cookie_token(c),
        None => None,
    };
    match from_cookie {
        Some(t) => Some(t),
        None => match authorization {
            Some(h) => bearer_token_of(h),
            None => None,
        },
    }
}

pub open spec fn opt_view(s: Option<&str>) -> Option<Seq<char>> {
    match s {
        Some(x) => Some(x@),
        None => None,
    }
}

/// Reads the session token from the `Cookie` header first, falling back to
/// the `Authorization` header.
pub fn session_token(cookie: Option<&str>, authorization: Option<&str>) -> (r: Option<String>)
    ensures
        match r {
            Some(t) => session_token_of(opt_view(cookie), opt_view(authorization)) == Some(t@),
            None => session_token_of(opt_view(cookie), opt_view(authorization)) is None,
        },
{
    let from_cookie = match cookie {
        Some(c) => extract_admin_token_from_cookies(c),
        None => None,
    };
    match from_cookie {
        Some(t) => Some(t),
        None => match authorization {
            Some(h) => bearer_token(h),
            None => None,
        },
    }
}

/// The client's IP: the first entry of `X-Forwarded-For`, trimmed; else
/// `X-Real-IP`; else the peer address; else `unknown`.
pub open spec fn client_ip_of(
    forwarded_for: Option<Seq<char>>,
    real_ip: Option<Seq<char>>,
    peer: Option<Seq<char>>,
) -> Seq<char> {
    match forwarded_for {
        Some(f) => trimmed(f.subrange(0, index_of(f, ',') as int)),
        None => match real_ip {
            Some(r) => r,
            None => match peer {
                Some(p) => p,
                None => "unknown"@,
            },
        },
    }
}

pub fn get_client_ip(forwarded_for: Option<&str>, real_ip: Option<&str>, peer: Option<&str>) -> (r: String)
    ensures
        r@ == client_ip_of(opt_view(forwarded_for), opt_view(real_ip), opt_view(peer)),
{
    match forwarded_for {
        Some(f) => {
            let end = find_from(f, ',', 0);
            assert(f@.subrange(0, f@.len() as int) =~= f@);
            let first = substring(f, 0, end);
            trim(first.as_str())
        },
        None => match real_ip {
            Some(r) => owned(r),
            None => match peer {
                Some(p) => owned(p),
                None => owned("unknown"),
            },
        },
    }
}

/// Lifetime of the session cookie, in seconds.
pub const SESSION_MAX_AGE: u64 = 86400;

pub open spec fn cookie_attributes(max_age: u64) -> Seq<char> {
    "; HttpOnly; Secure; SameSite=Strict; Path=/; Max-Age="@ + crate::text::decimal(max_age as nat)
}

/// The `Set-Cookie` value that carries a session token.
pub open spec fn session_cookie_of(token: Seq<char>) -> Seq<char> {
    cookie_name() + token + cookie_attributes(SESSION_MAX_AGE)
}

pub fn session_cookie(token: &str) -> (r: String)
    ensures
        r@ == session_cookie_of(token@),
{
    let mut c = owned("admin_token=");
    c.append(token);
    c.append("; HttpOnly; Secure; SameSite=Strict; Path=/; Max-Age=");
    crate::text::append_decimal(&mut c, SESSION_MAX_AGE);
    c
}

/// The `Set-Cookie` value that ends a session: empty and expired at once.
pub fn expired_session_cookie() -> (r: String)
    ensures
        r@ == cookie_name() + cookie_attributes(0),
{
    let mut c = owned("admin_token=");
    c.append("; HttpOnly; Secure; SameSite=Strict; Path=/; Max-Age=");
    crate::text::append_decimal(&mut c, 0);
    c
}

/// A token that the cookie reader gives back as it was written: no `;`, and
/// no white space at its end.
pub open spec fn cookie_safe(token: Seq<char>) -> bool {
    (forall|i: int| 0 <= i < token.len() ==> token[i] != ';') && (token.len() == 0 || !is_white_space(
        token.last(),
    ))
}

/// Reading the session cookie back yields the token it was written with.
pub proof fn lemma_session_cookie_round_trip(token: Seq<char>)
    requires
        cookie_safe(token),
    ensures
        cookie_token(session_cookie_of(token)) == Some(token),
{
    reveal_strlit("admin_token=");
    reveal_strlit("; HttpOnly; Secure; SameSite=Strict; Path=/; Max-Age=");
    let s = session_cookie_of(token);
    let head = cookie_name() + token;
    let p = head.len() as int;
    assert(s[p] == ';');
    assert forall|k: int| 0 <= k < p implies s[k] != ';' by {
        if k < 12 {
            assert(s[k] == cookie_name()[k]);
        } else {
            assert(s[k] == token[k - 12]);
        }
    }
    lemma_index_of(s, ';', p);
    assert(s.subrange(0, p) =~= head);
    assert(!is_white_space(head[0]));
    assert(trim_start(head) == head);
    if token.len() == 0 {
        assert(head.last() == '=');
    } else {
        assert(head.last() == token.last());
    }
    assert(trim_end(head) == head);
    assert(head.subrange(0, 12) =~= cookie_name());
    assert(head.subrange(12, p) =~= token);
}

/// The token a protected request must carry (cookie first, then the bearer
/// header); without one the request is refused.
pub fn require_session_token(cookie: Option<&str>, authorization: Option<&str>) -> (r: Result<String, AppError>)
    ensures
        session_token_of(opt_view(cookie), opt_view(authorization)) matches Some(t) ==> (r matches Ok(x) && x@
            == t),
        session_token_of(opt_view(cookie), opt_view(authorization)) is None ==> (r matches Err(
            AppError::Unauthorized(m),
        ) && m@ == "Missing authentication token"@),
{
    match session_token(cookie, authorization) {
        Some(t) => Ok(t),
        None => Err(AppError::Unauthorized(owned("Missing authentication token"))),
    }
}

} // verus!
