//! Response hardening: the security headers every response carries, and the
//! cross-origin policy read from the configuration.
use vstd::prelude::*;
use crate::config::CorsConfig;
use crate::text::{owned, str_eq};

verus! {

/// The headers added to every response, as name and value.
pub open spec fn security_header_list() -> Seq<(Seq<char>, Seq<char>)> {
    seq![
        ("x-frame-options"@, "DENY"@),
        ("x-content-type-options"@, "nosniff"@),
        ("x-xss-protection"@, "1; mode=block"@),
        ("strict-transport-security"@, "max-age=31536000; includeSubDomains"@),
        ("referrer-policy"@, "strict-origin-when-cross-origin"@),
        (
            "content-security-policy"@,
            "default-src 'self'; script-src 'self' 'unsafe-inline'; style-src 'self' 'unsafe-inline'; img-src 'self' data: https:; font-src 'self'; connect-src 'self'; frame-ancestors 'none';"@,
        ),
        (
            "permissions-policy"@,
            "camera=(), microphone=(), location=(), payment=(), usb=(), magnetometer=(), gyroscope=(), accelerometer=()"@,
        ),
    ]
}

fn header(name: &str, value: &str) -> (r: (String, String))
    ensures
        r.0@ == name@ && r.1@ == value@,
{
    (owned(name), owned(value))
}

pub fn security_headers() -> (r: Vec<(String, String)>)
    ensures
        r@.len() == security_header_list().len(),
        forall|i: int| 0 <= i < r@.len() ==> (#[trigger] r@[i]).0@ == security_header_list()[i].0 && r@[i].1@
            == security_header_list()[i].1,
{
    let mut v: Vec<(String, String)> = Vec::new();
    v.push(header("x-frame-options", "DENY"));
    v.push(header("x-content-type-options", "nosniff"));
    v.push(header("x-xss-protection", "1; mode=block"));
    v.push(header("strict-transport-security", "max-age=31536000; includeSubDomains"));
    v.push(header("referrer-policy", "strict-origin-when-cross-origin"));
    v.push(
        header(
            "content-security-policy",
            "default-src 'self'; script-src 'self' 'unsafe-inline'; style-src 'self' 'unsafe-inline'; img-src 'self' data: https:; font-src 'self'; connect-src 'self'; frame-ancestors 'none';",
        ),
    );
    v.push(
        header(
            "permissions-policy",
            "camera=(), microphone=(), location=(), payment=(), usb=(), magnetometer=(), gyroscope=(), accelerometer=()",
        ),
    );
    v
}

/// The configuration allows every origin: `*` is among the allowed origins.
pub open spec fn any_origin(origins: Seq<String>) -> bool {
    exists|i: int| 0 <= i < origins.len() && (#[trigger] origins[i])@ == "*"@
}

pub fn cors_allows_any_origin(cors: &CorsConfig) -> (r: bool)
    ensures
        r == any_origin(cors.allowed_origins@),
{
    let mut i: usize = 0;
    while i < cors.allowed_origins.len()
        invariant
            i <= cors.allowed_origins@.len(),
            forall|j: int| 0 <= j < i ==> (#[trigger] cors.allowed_origins@[j])@ != "*"@,
        decreases cors.allowed_origins@.len() - i,
    {
        if str_eq(cors.allowed_origins[i].as_str(), "*") {
            return true;
        }
        i = i + 1;
    }
    false
}

/// Credentials are allowed only with an explicit origin list, since a
/// wildcard origin may not carry them.
pub fn cors_allows_credentials(cors: &CorsConfig) -> (r: bool)
    ensures
        r == !any_origin(cors.allowed_origins@),
{
    !cors_allows_any_origin(cors)
}

} // verus!
