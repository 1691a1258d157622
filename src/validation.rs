//! Input checks and normalisation shared by the content endpoints.
use vstd::prelude::*;
use vstd::string::*;
use vstd::utf8::encode_utf8;
use crate::chars::{
    alphanumeric, has_prefix, is_alphanumeric_char, is_white_space, is_whitespace_char, lower_of,
    starts_with, to_lower, trim, trimmed,
};
use crate::text::push_char;

verus! {

pub const EMAIL_PATTERN: &'static str = r"^[a-zA-Z0-9._%+-]+@[a-zA-Z0-9.-]+\.[a-zA-Z]{2,}$";

pub const PHONE_PATTERN: &'static str = r"^\+?[1-9]\d{1,14}$";

pub const SLUG_PATTERN: &'static str = r"^[a-z0-9]+(?:-[a-z0-9]+)*$";

/// Whether the regular expression `pattern` compiles and matches `text`, as
/// the `regex` crate decides it.
pub uninterp spec fn regex_match(pattern: Seq<char>, text: Seq<char>) -> bool;

/// Relies on `regex::Regex::new` and `Regex::is_match`: true exactly when the
/// pattern compiles and matches the text.
#[verifier::external_body]
fn regex_is_match(pattern: &str, text: &str) -> (r: bool)
    ensures
        r == regex_match(pattern@, text@),
{
    match regex::Regex::new(pattern) {
        Ok(re) => re.is_match(text),
        Err(_) => false,
    }
}

pub fn is_valid_email(email: &str) -> (r: bool)
    ensures
        r == regex_match(EMAIL_PATTERN@, email@),
{
    regex_is_match(EMAIL_PATTERN, email)
}

pub fn is_valid_phone(phone: &str) -> (r: bool)
    ensures
        r == regex_match(PHONE_PATTERN@, phone@),
{
    regex_is_match(PHONE_PATTERN, phone)
}

/// A slug is non-empty, at most 255 bytes long, and matches the slug pattern.
pub fn is_valid_slug(slug: &str) -> (r: bool)
    ensures
        r == (slug@.len() > 0 && encode_utf8(slug@).len() <= 255 && regex_match(SLUG_PATTERN@, slug@)),
{
    if slug.is_empty() || slug.as_bytes().len() > 255 {
        return false;
    }
    regex_is_match(SLUG_PATTERN, slug)
}

/// How a lowercased title character enters a slug: letters and digits stay,
/// white space, `_` and `-` separate words, everything else is dropped.
pub open spec fn slug_char(c: char) -> Option<char> {
    if alphanumeric(c) {
        Some(c)
    } else if is_white_space(c) || c == '_' || c == '-' {
        Some('-')
    } else {
        None
    }
}

/// The words of `s` joined by single dashes, after each character has passed
/// through `slug_char`. The flag tells whether a separator is pending, that
/// is whether one was seen after the last kept word character.
pub open spec fn slug_words(s: Seq<char>) -> (Seq<char>, bool)
    decreases s.len(),
{
    if s.len() == 0 {
        (Seq::empty(), false)
    } else {
        let (out, pending) = slug_words(s.drop_last());
        match slug_char(s.last()) {
            None => (out, pending),
            Some(c) => if c == '-' {
                (out, out.len() > 0)
            } else if pending {
                (out.push('-').push(c), false)
            } else {
                (out.push(c), false)
            },
        }
    }
}

fn slug_char_of(c: char) -> (r: Option<char>)
    ensures
        r == slug_char(c),
{
    if is_alphanumeric_char(c) {
        Some(c)
    } else if is_whitespace_char(c) || c == '_' || c == '-' {
        Some('-')
    } else {
        None
    }
}

pub open spec fn slug_of(title: Seq<char>) -> Seq<char> {
    slug_words(lower_of(title)).0
}

/// The slug of an already lowercased title.
pub fn slug_from_lowercase(lower: &str) -> (r: String)
    ensures
        r@ == slug_words(lower@).0,
{
    let n = lower.unicode_len();
    let mut out = String::new();
    let mut pending = false;
    let mut i: usize = 0;
    while i < n
        invariant
            i <= n,
            n == lower@.len(),
            (out@, pending) == slug_words(lower@.subrange(0, i as int)),
        decreases n - i,
    {
        let c = lower.get_char(i);
        assert(lower@.subrange(0, i as int + 1).drop_last() =~= lower@.subrange(0, i as int));
        assert(lower@.subrange(0, i as int + 1).last() == c);
        match slug_char_of(c) {
            None => {},
            Some(m) => {
                if m == '-' {
                    pending = out.unicode_len() > 0;
                } else {
                    if pending {
                        push_char(&mut out, '-');
                        pending = false;
                    }
                    push_char(&mut out, m);
                }
            },
        }
        i = i + 1;
    }
    assert(lower@.subrange(0, n as int) =~= lower@);
    out
}

/// A URL-friendly slug of `title`: lowercased words joined by single dashes,
/// without leading or trailing dashes.
pub fn generate_slug(title: &str) -> (r: String)
    ensures
        r@ == slug_of(title@),
{
    let lower = to_lower(title);
    slug_from_lowercase(lower.as_str())
}

/// `s` with every `c` replaced by `rep`.
pub open spec fn replace_char(s: Seq<char>, c: char, rep: Seq<char>) -> Seq<char>
    decreases s.len(),
{
    if s.len() == 0 {
        s
    } else if s.last() == c {
        replace_char(s.drop_last(), c, rep) + rep
    } else {
        replace_char(s.drop_last(), c, rep).push(s.last())
    }
}

fn replace(s: &str, c: char, rep: &str) -> (r: String)
    ensures
        r@ == replace_char(s@, c, rep@),
{
    let n = s.unicode_len();
    let mut out = String::new();
    let mut i: usize = 0;
    while i < n
        invariant
            i <= n,
            n == s@.len(),
            out@ == replace_char(s@.subrange(0, i as int), c, rep@),
        decreases n - i,
    {
        let d = s.get_char(i);
        assert(s@.subrange(0, i as int + 1).drop_last() =~= s@.subrange(0, i as int));
        if d == c {
            out.append(rep);
        } else {
            push_char(&mut out, d);
        }
        i = i + 1;
    }
    assert(s@.subrange(0, n as int) =~= s@);
    out
}

/// The escaping `sanitize_html` applies: `<`, `>`, `"` and `'` become
/// entities, then every `&`, including those the first steps wrote, becomes
/// `&amp;`.
pub open spec fn html_escaped(s: Seq<char>) -> Seq<char> {
    replace_char(
        replace_char(
            replace_char(replace_char(replace_char(s, '<', "&lt;"@), '>', "&gt;"@), '"', "&quot;"@),
            '\'',
            "&#x27;"@,
        ),
        '&',
        "&amp;"@,
    )
}

pub fn sanitize_html(input: &str) -> (r: String)
    ensures
        r@ == html_escaped(input@),
{
    let a = replace(input, '<', "&lt;");
    let b = replace(a.as_str(), '>', "&gt;");
    let c = replace(b.as_str(), '"', "&quot;");
    let d = replace(c.as_str(), '\'', "&#x27;");
    replace(d.as_str(), '&', "&amp;")
}

pub fn is_valid_url(url: &str) -> (r: bool)
    ensures
        r == (has_prefix(url@, "http://"@) || has_prefix(url@, "https://"@)),
{
    starts_with(url, "http://") || starts_with(url, "https://")
}

/// A tag as stored: trimmed, then lowercased.
pub open spec fn normal_tag(t: Seq<char>) -> Seq<char> {
    lower_of(trimmed(t))
}

/// A normalised tag is kept where it is non-empty and at most 50 bytes long.
pub open spec fn tag_kept(t: Seq<char>) -> bool {
    t.len() > 0 && encode_utf8(t).len() <= 50
}

/// The kept strings of `candidates`, one copy of each, in order of first
/// appearance.
pub fn unique_tags(candidates: Vec<String>) -> (r: Vec<String>)
    ensures
        forall|i: int, j: int| 0 <= i < j < r@.len() ==> r@[i]@ != r@[j]@,
        forall|i: int| 0 <= i < r@.len() ==> tag_kept(#[trigger] r@[i]@) && exists|k: int|
            0 <= k < candidates@.len() && r@[i]@ == (#[trigger] candidates@[k])@,
        forall|k: int| 0 <= k < candidates@.len() && tag_kept((#[trigger] candidates@[k])@) ==> exists|i: int|
            0 <= i < r@.len() && r@[i]@ == candidates@[k]@,
{
    let mut out: Vec<String> = Vec::new();
    let mut k: usize = 0;
    while k < candidates.len()
        invariant
            k <= candidates@.len(),
            forall|i: int, j: int| 0 <= i < j < out@.len() ==> out@[i]@ != out@[j]@,
            forall|i: int| 0 <= i < out@.len() ==> tag_kept(#[trigger] out@[i]@) && exists|m: int|
                0 <= m < k && out@[i]@ == (#[trigger] candidates@[m])@,
            forall|m: int| 0 <= m < k && tag_kept((#[trigger] candidates@[m])@) ==> exists|i: int|
                0 <= i < out@.len() && out@[i]@ == candidates@[m]@,
        decreases candidates@.len() - k,
    {
        let tag = &candidates[k];
        if tag.as_str().unicode_len() > 0 && tag.as_str().as_bytes().len() <= 50 {
            let mut seen = false;
            let mut i: usize = 0;
            while i < out.len()
                invariant
                    i <= out@.len(),
                    seen == exists|j: int| 0 <= j < i && out@[j]@ == tag@,
                decreases out@.len() - i,
            {
                if out[i] == *tag {
                    seen = true;
                }
                i = i + 1;
            }
            if !seen {
                let ghost before = out@;
                out.push(tag.clone());
                proof {
                    assert(out@[out@.len() - 1]@ == candidates@[k as int]@);
                    assert forall|i: int| 0 <= i < out@.len() implies tag_kept(#[trigger] out@[i]@) && exists|m: int|
                        0 <= m < k + 1 && out@[i]@ == (#[trigger] candidates@[m])@ by {
                        if i < before.len() {
                            assert(out@[i] == before[i]);
                        }
                    }
                    assert forall|m: int| 0 <= m < k + 1 && tag_kept((#[trigger] candidates@[m])@) implies exists|i: int|
                        0 <= i < out@.len() && out@[i]@ == candidates@[m]@ by {
                        if m < k {
                            let i = choose|i: int| 0 <= i < before.len() && before[i]@ == candidates@[m]@;
                            assert(out@[i] == before[i]);
                        }
                    }
                }
            }
        }
        k = k + 1;
    }
    assert forall|i: int| 0 <= i < out@.len() implies tag_kept(#[trigger] out@[i]@) && exists|m: int|
        0 <= m < candidates@.len() && out@[i]@ == (#[trigger] candidates@[m])@ by {
        let m = choose|m: int| 0 <= m < k && out@[i]@ == (#[trigger] candidates@[m])@;
        assert(0 <= m < candidates@.len() && out@[i]@ == candidates@[m]@);
    }
    out
}

/// Trims and lowercases each tag, drops empty and over-long ones, and keeps
/// one copy of each, in order of first appearance.
pub fn normalize_tags(tags: Vec<String>) -> (r: Vec<String>)
    ensures
        forall|i: int, j: int| 0 <= i < j < r@.len() ==> r@[i]@ != r@[j]@,
        forall|i: int| 0 <= i < r@.len() ==> tag_kept(#[trigger] r@[i]@) && exists|k: int|
            0 <= k < tags@.len() && r@[i]@ == normal_tag(#[trigger] tags@[k]@),
        forall|k: int| 0 <= k < tags@.len() && tag_kept(normal_tag(#[trigger] tags@[k]@)) ==> exists|i: int|
            0 <= i < r@.len() && r@[i]@ == normal_tag(tags@[k]@),
{
    let mut normal: Vec<String> = Vec::new();
    let mut k: usize = 0;
    while k < tags.len()
        invariant
            k <= tags@.len(),
            normal@.len() == k,
            forall|m: int| 0 <= m < k ==> (#[trigger] normal@[m])@ == normal_tag(tags@[m]@),
        decreases tags@.len() - k,
    {
        let t = trim(tags[k].as_str());
        normal.push(to_lower(t.as_str()));
        k = k + 1;
    }
    let r = unique_tags(normal);
    assert forall|i: int| 0 <= i < r@.len() implies tag_kept(#[trigger] r@[i]@) && exists|k: int|
        0 <= k < tags@.len() && r@[i]@ == normal_tag(#[trigger] tags@[k]@) by {
        let m = choose|m: int| 0 <= m < normal@.len() && r@[i]@ == (#[trigger] normal@[m])@;
        assert(r@[i]@ == normal_tag(tags@[m]@));
    }
    assert forall|k: int| 0 <= k < tags@.len() && tag_kept(normal_tag(#[trigger] tags@[k]@)) implies exists|i: int|
        0 <= i < r@.len() && r@[i]@ == normal_tag(tags@[k]@) by {
        assert(normal@[k]@ == normal_tag(tags@[k]@));
    }
    r
}

} // verus!
