//! Rules for posts, services and comments: input checks, slugs and SEO text,
//! category normalisation, and the comment moderation heuristics.
use vstd::prelude::*;
use vstd::string::*;
use vstd::utf8::{decode_utf8, encode_utf8, encode_utf8_decode_utf8, is_char_boundary};
use crate::chars::{
    alphabetic, alphanumeric, ascii_punctuation, contains_seq, contains_str, count_occurrences,
    ends_with, has_suffix, is_alphabetic_char, is_alphanumeric_char, is_ascii_punctuation_char,
    is_uppercase_char, is_white_space, is_whitespace_char, lower_of, occurrences, to_lower, trim,
    trimmed, uppercase_char,
};
use crate::errors::AppError;
use crate::models::{CreatePostRequest, UpdatePostRequest};
use crate::settings::CommentRateLimitSettings;
use crate::text::{append_decimal, decimal, owned, push_char};

verus! {

/// Length of `s` in bytes, as `str::len` counts it.
pub open spec fn byte_len(s: Seq<char>) -> nat {
    encode_utf8(s).len()
}

fn bytes_of(s: &str) -> (r: usize)
    ensures
        r == byte_len(s@),
{
    s.as_bytes().len()
}

/// A `Validation` error carrying exactly `m`.
pub open spec fn validation_error(r: Result<(), AppError>, m: Seq<char>) -> bool {
    r matches Err(AppError::Validation(x)) && x@ == m
}

fn invalid(message: &str) -> (r: Result<(), AppError>)
    ensures
        validation_error(r, message@),
{
    Err(AppError::Validation(owned(message)))
}

/// A post needs a title of 5 to 200 bytes (the lower bound after trimming)
/// and at least 50 bytes of trimmed content.
pub fn validate_post_content(title: &str, content: &str) -> (r: Result<(), AppError>)
    ensures
        byte_len(trimmed(title@)) == 0 ==> validation_error(r, "Post title cannot be empty"@),
        0 < byte_len(trimmed(title@)) < 5 ==> validation_error(r, "Post title must be at least 5 characters long"@),
        byte_len(trimmed(title@)) >= 5 && byte_len(title@) > 200 ==> validation_error(
            r,
            "Post title cannot exceed 200 characters"@,
        ),
        byte_len(trimmed(title@)) >= 5 && byte_len(title@) <= 200 && byte_len(trimmed(content@)) == 0
            ==> validation_error(r, "Post content cannot be empty"@),
        byte_len(trimmed(title@)) >= 5 && byte_len(title@) <= 200 && 0 < byte_len(trimmed(content@)) < 50
            ==> validation_error(r, "Post content must be at least 50 characters long"@),
        r is Ok == (byte_len(trimmed(title@)) >= 5 && byte_len(title@) <= 200 && byte_len(trimmed(content@))
            >= 50),
{
    let t = trim(title);
    let tn = bytes_of(t.as_str());
    if tn == 0 {
        return invalid("Post title cannot be empty");
    }
    if tn < 5 {
        return invalid("Post title must be at least 5 characters long");
    }
    if bytes_of(title) > 200 {
        return invalid("Post title cannot exceed 200 characters");
    }
    let c = trim(content);
    let cn = bytes_of(c.as_str());
    if cn == 0 {
        return invalid("Post content cannot be empty");
    }
    if cn < 50 {
        return invalid("Post content must be at least 50 characters long");
    }
    Ok(())
}

/// A service needs a title of at least 3 bytes and a description of at
/// least 10, both after trimming.
pub fn validate_service_request(title: &str, description: &str) -> (r: Result<(), AppError>)
    ensures
        byte_len(trimmed(title@)) == 0 ==> validation_error(r, "Service title cannot be empty"@),
        0 < byte_len(trimmed(title@)) < 3 ==> validation_error(
            r,
            "Service title must be at least 3 characters long"@,
        ),
        byte_len(trimmed(title@)) >= 3 && byte_len(trimmed(description@)) == 0 ==> validation_error(
            r,
            "Service description cannot be empty"@,
        ),
        byte_len(trimmed(title@)) >= 3 && 0 < byte_len(trimmed(description@)) < 10 ==> validation_error(
            r,
            "Service description must be at least 10 characters long"@,
        ),
        r is Ok == (byte_len(trimmed(title@)) >= 3 && byte_len(trimmed(description@)) >= 10),
{
    let t = trim(title);
    let tn = bytes_of(t.as_str());
    if tn == 0 {
        return invalid("Service title cannot be empty");
    }
    if tn < 3 {
        return invalid("Service title must be at least 3 characters long");
    }
    let d = trim(description);
    let dn = bytes_of(d.as_str());
    if dn == 0 {
        return invalid("Service description cannot be empty");
    }
    if dn < 10 {
        return invalid("Service description must be at least 10 characters long");
    }
    Ok(())
}

/// The words of `s` joined by `glue`, where a word is a maximal run of
/// characters that `sep` rejects after `f` has mapped them. The flag tells
/// whether a separator follows the last word.
pub open spec fn joined_words(
    s: Seq<char>,
    f: spec_fn(char) -> char,
    sep: spec_fn(char) -> bool,
    glue: char,
) -> (Seq<char>, bool)
    decreases s.len(),
{
    if s.len() == 0 {
        (Seq::empty(), false)
    } else {
        let (out, pending) = joined_words(s.drop_last(), f, sep, glue);
        let c = f(s.last());
        if sep(c) {
            (out, out.len() > 0)
        } else if pending {
            (out.push(glue).push(c), false)
        } else {
            (out.push(c), false)
        }
    }
}

pub open spec fn dash_for_other(c: char) -> char {
    if alphanumeric(c) { c } else { '-' }
}

pub open spec fn is_dash(c: char) -> bool {
    c == '-'
}

/// The slug of a post title: trimmed, lowercased, every character that is
/// not a letter or digit turned into `-`, and runs of dashes collapsed, with
/// none at either end.
pub open spec fn post_slug(title: Seq<char>) -> Seq<char> {
    joined_words(lower_of(trimmed(title)), |c: char| dash_for_other(c), |c: char| is_dash(c), '-').0
}

/// The words of `s` joined by single dashes, where everything but letters
/// and digits separates words.
pub fn dash_joined_words(s: &str) -> (r: String)
    ensures
        r@ == joined_words(s@, |c: char| dash_for_other(c), |c: char| is_dash(c), '-').0,
{
    let n = s.unicode_len();
    let mut out = String::new();
    let mut pending = false;
    let mut i: usize = 0;
    while i < n
        invariant
            i <= n,
            n == s@.len(),
            (out@, pending) == joined_words(
                s@.subrange(0, i as int),
                |c: char| dash_for_other(c),
                |c: char| is_dash(c),
                '-',
            ),
        decreases n - i,
    {
        let c = s.get_char(i);
        assert(s@.subrange(0, i as int + 1).drop_last() =~= s@.subrange(0, i as int));
        assert(s@.subrange(0, i as int + 1).last() == c);
        let m = if is_alphanumeric_char(c) { c } else { '-' };
        if m == '-' {
            pending = out.unicode_len() > 0;
        } else {
            if pending {
                push_char(&mut out, '-');
                pending = false;
            }
            push_char(&mut out, m);
        }
        i = i + 1;
    }
    assert(s@.subrange(0, n as int) =~= s@);
    out
}

pub fn generate_post_slug(title: &str) -> (r: String)
    ensures
        r@ == post_slug(title@),
{
    let t = trim(title);
    let lower = to_lower(t.as_str());
    dash_joined_words(lower.as_str())
}

pub open spec fn space_for_other(c: char) -> char {
    if alphanumeric(c) || c == ' ' { c } else { ' ' }
}

/// A service category as stored: trimmed, lowercased, every character other
/// than a letter, digit or space turned into a space, and the words joined
/// by single spaces.
pub open spec fn normal_category(category: Seq<char>) -> Seq<char> {
    joined_words(lower_of(trimmed(category)), |c: char| space_for_other(c), |c: char| is_white_space(c), ' ').0
}

/// The words of `s` joined by single spaces, where white space and
/// everything but letters, digits and spaces separate words.
pub fn space_joined_words(s: &str) -> (r: String)
    ensures
        r@ == joined_words(s@, |c: char| space_for_other(c), |c: char| is_white_space(c), ' ').0,
{
    let n = s.unicode_len();
    let mut out = String::new();
    let mut pending = false;
    let mut i: usize = 0;
    while i < n
        invariant
            i <= n,
            n == s@.len(),
            (out@, pending) == joined_words(
                s@.subrange(0, i as int),
                |c: char| space_for_other(c),
                |c: char| is_white_space(c),
                ' ',
            ),
        decreases n - i,
    {
        let c = s.get_char(i);
        assert(s@.subrange(0, i as int + 1).drop_last() =~= s@.subrange(0, i as int));
        assert(s@.subrange(0, i as int + 1).last() == c);
        let m = if is_alphanumeric_char(c) || c == ' ' { c } else { ' ' };
        if is_whitespace_char(m) {
            pending = out.unicode_len() > 0;
        } else {
            if pending {
                push_char(&mut out, ' ');
                pending = false;
            }
            push_char(&mut out, m);
        }
        i = i + 1;
    }
    assert(s@.subrange(0, n as int) =~= s@);
    out
}

pub fn normalize_category(category: &str) -> (r: String)
    ensures
        r@ == normal_category(category@),
{
    let t = trim(category);
    let lower = to_lower(t.as_str());
    space_joined_words(lower.as_str())
}

/// Comment content of 5 to 5000 bytes (the lower bound after trimming), an
/// author name of at most 100 bytes that is not blank, and an author email
/// that is not blank and holds an `@`.
pub fn validate_comment_content(content: &str, author_name: &str, author_email: &str) -> (r: Result<(), AppError>)
    ensures
        r is Ok == (byte_len(trimmed(content@)) >= 5 && byte_len(content@) <= 5000
            && byte_len(trimmed(author_name@)) > 0 && byte_len(author_name@) <= 100
            && byte_len(trimmed(author_email@)) > 0 && author_email@.contains('@')),
        byte_len(trimmed(content@)) == 0 ==> validation_error(r, "Comment content cannot be empty"@),
        0 < byte_len(trimmed(content@)) < 5 ==> validation_error(r, "Comment must be at least 5 characters long"@),
        r matches Err(e) ==> e is Validation,
{
    let c = trim(content);
    let cn = bytes_of(c.as_str());
    if cn == 0 {
        return invalid("Comment content cannot be empty");
    }
    if cn < 5 {
        return invalid("Comment must be at least 5 characters long");
    }
    if bytes_of(content) > 5000 {
        return invalid("Comment cannot exceed 5000 characters");
    }
    let a = trim(author_name);
    if bytes_of(a.as_str()) == 0 {
        return invalid("Author name is required");
    }
    if bytes_of(author_name) > 100 {
        return invalid("Author name cannot exceed 100 characters");
    }
    let e = trim(author_email);
    if bytes_of(e.as_str()) == 0 {
        return invalid("Author email is required");
    }
    proof {
        reveal_strlit("@");
        assert("@"@ =~= seq!['@']);
        if author_email@.contains('@') {
            let i = choose|i: int| 0 <= i < author_email@.len() && author_email@[i] == '@';
            assert(author_email@.subrange(i, i + 1) =~= seq!['@']);
            assert(crate::chars::occurs_at(author_email@, "@"@, i));
        }
        if contains_seq(author_email@, "@"@) {
            let i = choose|i: int| crate::chars::occurs_at(author_email@, "@"@, i);
            assert(author_email@.subrange(i, i + 1)[0] == '@');
            assert(author_email@[i] == '@');
        }
    }
    if !contains_str(author_email, "@") {
        return invalid("Invalid email address");
    }
    Ok(())
}

/// The comment statuses a moderator may set.
pub open spec fn known_status(s: Seq<char>) -> bool {
    s == "pending"@ || s == "approved"@ || s == "rejected"@ || s == "spam"@
}

pub fn validate_status_transition(status: &str) -> (r: Result<(), AppError>)
    ensures
        known_status(status@) ==> r is Ok,
        !known_status(status@) ==> validation_error(r, "Invalid comment status: "@ + status@),
{
    if crate::text::str_eq(status, "pending") || crate::text::str_eq(status, "approved")
        || crate::text::str_eq(status, "rejected") || crate::text::str_eq(status, "spam") {
        Ok(())
    } else {
        let mut m = owned("Invalid comment status: ");
        m.append(status);
        Err(AppError::Validation(m))
    }
}

/// Whether a comment from this IP is held back: never where the limit is
/// off; else where the last hour already holds the hourly maximum, or the
/// short window already holds its maximum.
pub open spec fn comment_limited(s: CommentRateLimitSettings, last_hour: i64, last_window: i64) -> bool {
    s.enabled && (last_hour >= s.max_comments_per_hour || last_window >= s.max_comments_per_minute)
}

pub fn comment_rate_limited(settings: &CommentRateLimitSettings, last_hour: i64, last_window: i64) -> (r: bool)
    ensures
        r == comment_limited(*settings, last_hour, last_window),
{
    if !settings.enabled {
        return false;
    }
    if last_hour >= settings.max_comments_per_hour as i64 {
        return true;
    }
    last_window >= settings.max_comments_per_minute as i64
}

/// Length in seconds of the short comment window.
pub fn comment_window_seconds(settings: &CommentRateLimitSettings) -> (r: i64)
    ensures
        r == settings.minute_window * 60,
{
    settings.minute_window as i64 * 60
}

/// A spam keyword occurs in `s`.
pub open spec fn has_spam_keyword(s: Seq<char>) -> bool {
    contains_seq(s, "viagra"@) || contains_seq(s, "casino"@) || contains_seq(s, "lottery"@)
        || contains_seq(s, "winner"@) || contains_seq(s, "congratulations"@) || contains_seq(s, "click here"@)
        || contains_seq(s, "free money"@) || contains_seq(s, "make money fast"@) || contains_seq(
        s,
        "work from home"@,
    ) || contains_seq(s, "buy now"@) || contains_seq(s, "limited time"@) || contains_seq(s, "act now"@)
        || contains_seq(s, "urgent"@) || contains_seq(s, "guaranteed"@) || contains_seq(s, "no risk"@)
        || contains_seq(s, "100% free"@) || contains_seq(s, "amazing deal"@) || contains_seq(
        s,
        "incredible offer"@,
    )
}

pub fn contains_spam_keyword(s: &str) -> (r: bool)
    ensures
        r == has_spam_keyword(s@),
{
    contains_str(s, "viagra") || contains_str(s, "casino") || contains_str(s, "lottery") || contains_str(
        s,
        "winner",
    ) || contains_str(s, "congratulations") || contains_str(s, "click here") || contains_str(s, "free money")
        || contains_str(s, "make money fast") || contains_str(s, "work from home") || contains_str(s, "buy now")
        || contains_str(s, "limited time") || contains_str(s, "act now") || contains_str(s, "urgent")
        || contains_str(s, "guaranteed") || contains_str(s, "no risk") || contains_str(s, "100% free")
        || contains_str(s, "amazing deal") || contains_str(s, "incredible offer")
}

pub open spec fn count_upper(s: Seq<char>) -> nat
    decreases s.len(),
{
    if s.len() == 0 { 0 } else { count_upper(s.drop_last()) + if uppercase_char(s.last()) { 1nat } else { 0nat } }
}

pub open spec fn count_alpha(s: Seq<char>) -> nat
    decreases s.len(),
{
    if s.len() == 0 { 0 } else { count_alpha(s.drop_last()) + if alphabetic(s.last()) { 1nat } else { 0nat } }
}

pub open spec fn count_punct(s: Seq<char>) -> nat
    decreases s.len(),
{
    if s.len() == 0 { 0 } else { count_punct(s.drop_last()) + if ascii_punctuation(s.last()) { 1nat } else { 0nat } }
}

/// Spam, given the content and its lowercase form: a spam keyword in the
/// lowercase form, more than two `http`, more than half of the letters in
/// upper case, or more ASCII punctuation marks than three tenths of the
/// letters.
pub open spec fn spam_given(content: Seq<char>, lower: Seq<char>) -> bool {
    has_spam_keyword(lower) || occurrences(content, "http"@, content.len() as int + 1) > 2 || (count_alpha(
        content,
    ) > 0 && 2 * count_upper(content) > count_alpha(content)) || (count_alpha(content) > 0 && 10 * count_punct(
        content,
    ) > 3 * count_alpha(content))
}

pub open spec fn spam(content: Seq<char>) -> bool {
    spam_given(content, lower_of(content))
}

pub fn is_spam_content(content: &str) -> (r: bool)
    ensures
        r == spam(content@),
{
    let lower = to_lower(content);
    is_spam_given(content, lower.as_str())
}

/// The spam verdict on `content` whose lowercase form is `lower`.
pub fn is_spam_given(content: &str, lower: &str) -> (r: bool)
    ensures
        r == spam_given(content@, lower@),
{
    if contains_spam_keyword(lower) {
        return true;
    }
    proof {
        reveal_strlit("http");
    }
    if count_occurrences(content, "http") > 2 {
        return true;
    }
    let n = content.unicode_len();
    let mut caps: usize = 0;
    let mut letters: usize = 0;
    let mut punct: usize = 0;
    let mut i: usize = 0;
    while i < n
        invariant
            i <= n,
            n == content@.len(),
            caps == count_upper(content@.subrange(0, i as int)),
            letters == count_alpha(content@.subrange(0, i as int)),
            punct == count_punct(content@.subrange(0, i as int)),
            caps <= i && letters <= i && punct <= i,
        decreases n - i,
    {
        let c = content.get_char(i);
        assert(content@.subrange(0, i as int + 1).drop_last() =~= content@.subrange(0, i as int));
        assert(content@.subrange(0, i as int + 1).last() == c);
        if is_uppercase_char(c) {
            caps = caps + 1;
        }
        if is_alphabetic_char(c) {
            letters = letters + 1;
        }
        if is_ascii_punctuation_char(c) {
            punct = punct + 1;
        }
        i = i + 1;
    }
    assert(content@.subrange(0, n as int) =~= content@);
    let caps = caps as u128;
    let letters = letters as u128;
    let punct = punct as u128;
    (letters > 0 && 2 * caps > letters) || (letters > 0 && 10 * punct > 3 * letters)
}

/// A moderation keyword occurs in `s`.
pub open spec fn has_moderation_keyword(s: Seq<char>) -> bool {
    contains_seq(s, "admin"@) || contains_seq(s, "moderator"@) || contains_seq(s, "complaint"@) || contains_seq(
        s,
        "report"@,
    ) || contains_seq(s, "bug"@) || contains_seq(s, "issue"@) || contains_seq(s, "problem"@) || contains_seq(
        s,
        "copyright"@,
    ) || contains_seq(s, "dmca"@) || contains_seq(s, "legal"@)
}

/// An email address, lowercased, at one of the trusted mail providers.
pub open spec fn trusted_email(e: Seq<char>) -> bool {
    has_suffix(e, "@gmail.com"@) || has_suffix(e, "@outlook.com"@) || has_suffix(e, "@yahoo.com"@)
        || has_suffix(e, "@hotmail.com"@)
}

/// A comment waits for a moderator where approval is required for all,
/// where it names a moderation keyword or exceeds 2000 bytes, and otherwise
/// unless it comes from a trusted address with 11 to 499 bytes.
pub open spec fn needs_moderation_given(
    content: Seq<char>,
    lower_content: Seq<char>,
    lower_email: Seq<char>,
    approval_required: bool,
) -> bool {
    approval_required || has_moderation_keyword(lower_content) || byte_len(content) > 2000 || !(trusted_email(
        lower_email,
    ) && 10 < byte_len(content) && byte_len(content) < 500)
}

pub open spec fn needs_moderation(content: Seq<char>, email: Seq<char>, approval_required: bool) -> bool {
    needs_moderation_given(content, lower_of(content), lower_of(email), approval_required)
}

pub fn requires_moderation(content: &str, email: &str, approval_required: bool) -> (r: bool)
    ensures
        r == needs_moderation(content@, email@, approval_required),
{
    let e = to_lower(email);
    let lower = to_lower(content);
    moderation_given(content, lower.as_str(), e.as_str(), approval_required)
}

/// The moderation decision, given the lowercase forms of content and email.
pub fn moderation_given(content: &str, ls: &str, es: &str, approval_required: bool) -> (r: bool)
    ensures
        r == needs_moderation_given(content@, ls@, es@, approval_required),
{
    if approval_required {
        return true;
    }
    let trusted = ends_with(es, "@gmail.com") || ends_with(es, "@outlook.com") || ends_with(es, "@yahoo.com")
        || ends_with(es, "@hotmail.com");
    if contains_str(ls, "admin") || contains_str(ls, "moderator") || contains_str(ls, "complaint") || contains_str(
        ls,
        "report",
    ) || contains_str(ls, "bug") || contains_str(ls, "issue") || contains_str(ls, "problem") || contains_str(
        ls,
        "copyright",
    ) || contains_str(ls, "dmca") || contains_str(ls, "legal") {
        return true;
    }
    let n = bytes_of(content);
    if n > 2000 {
        return true;
    }
    if trusted && n > 10 && n < 500 {
        return false;
    }
    true
}

/// The first `n` bytes of `s`, read back as characters, followed by `...`.
pub open spec fn cut_with_ellipsis(s: Seq<char>, n: int) -> Seq<char> {
    decode_utf8(encode_utf8(s).subrange(0, n)) + "..."@
}

/// `s` itself where it has at most `max` bytes, else its first `max - 3`
/// bytes followed by `...`.
pub open spec fn shortened(s: Seq<char>, max: nat) -> Seq<char> {
    if byte_len(s) <= max { s } else { cut_with_ellipsis(s, max - 3) }
}

fn shorten(s: &str, max: usize) -> (r: String)
    requires
        max >= 3,
        byte_len(s@) <= max || is_char_boundary(encode_utf8(s@), max - 3),
    ensures
        r@ == shortened(s@, max as nat),
{
    if bytes_of(s) <= max {
        return owned(s);
    }
    let (head, _) = s.split_at(max - 3);
    proof {
        encode_utf8_decode_utf8(head@);
    }
    let mut r = owned(head);
    r.append("...");
    r
}

/// A title for search engines: the title itself up to 60 bytes, else its
/// first 57 bytes and `...`. The cut must fall on a character boundary.
pub fn generate_seo_title(title: &str) -> (r: String)
    requires
        byte_len(title@) <= 60 || is_char_boundary(encode_utf8(title@), 57),
    ensures
        r@ == shortened(title@, 60),
{
    shorten(title, 60)
}

/// The characters a search-engine description keeps: letters, digits, white
/// space and `.,!?`.
pub open spec fn description_char(c: char) -> bool {
    alphanumeric(c) || is_white_space(c) || c == '.' || c == ',' || c == '!' || c == '?'
}

pub open spec fn description_text(s: Seq<char>) -> Seq<char>
    decreases s.len(),
{
    if s.len() == 0 {
        s
    } else if description_char(s.last()) {
        description_text(s.drop_last()).push(s.last())
    } else {
        description_text(s.drop_last())
    }
}

/// The content's kept characters, cut to 160 bytes as `generate_seo_title`
/// cuts to 60.
pub fn generate_seo_description(content: &str) -> (r: String)
    requires
        byte_len(description_text(content@)) <= 160 || is_char_boundary(
            encode_utf8(description_text(content@)),
            157,
        ),
    ensures
        r@ == shortened(description_text(content@), 160),
{
    let n = content.unicode_len();
    let mut clean = String::new();
    let mut i: usize = 0;
    while i < n
        invariant
            i <= n,
            n == content@.len(),
            clean@ == description_text(content@.subrange(0, i as int)),
        decreases n - i,
    {
        let c = content.get_char(i);
        assert(content@.subrange(0, i as int + 1).drop_last() =~= content@.subrange(0, i as int));
        assert(content@.subrange(0, i as int + 1).last() == c);
        if is_alphanumeric_char(c) || is_whitespace_char(c) || c == '.' || c == ',' || c == '!' || c == '?' {
            push_char(&mut clean, c);
        }
        i = i + 1;
    }
    assert(content@.subrange(0, n as int) =~= content@);
    shorten(clean.as_str(), 160)
}

/// The words of `s` longer than 4 bytes, in order, where words are maximal
/// runs of non-white-space characters; the second part is the word being
/// read when `s` ends.
pub open spec fn long_words_state(s: Seq<char>) -> (Seq<Seq<char>>, Seq<char>)
    decreases s.len(),
{
    if s.len() == 0 {
        (Seq::empty(), Seq::empty())
    } else {
        let (done, cur) = long_words_state(s.drop_last());
        if is_white_space(s.last()) {
            (if byte_len(cur) > 4 { done.push(cur) } else { done }, Seq::empty())
        } else {
            (done, cur.push(s.last()))
        }
    }
}

pub open spec fn long_words(s: Seq<char>) -> Seq<Seq<char>> {
    let (done, cur) = long_words_state(s);
    if byte_len(cur) > 4 { done.push(cur) } else { done }
}

/// `parts` joined with `sep` between neighbours.
pub open spec fn joined(parts: Seq<Seq<char>>, sep: Seq<char>) -> Seq<char>
    decreases parts.len(),
{
    if parts.len() == 0 {
        Seq::empty()
    } else if parts.len() == 1 {
        parts[0]
    } else {
        joined(parts.drop_last(), sep) + sep + parts.last()
    }
}

/// The keywords of a post: its tags, then the first five words of its
/// content longer than 4 bytes, lowercased; joined with `, `.
pub open spec fn keywords(content: Seq<char>, tags: Seq<Seq<char>>) -> Seq<char> {
    let words = long_words(content);
    let picked = words.take(if words.len() < 5 { words.len() as int } else { 5 });
    joined(tags + picked.map_values(|w: Seq<char>| lower_of(w)), ", "@)
}

fn append_part(out: &mut String, part: &str, first: bool)
    ensures
        final(out)@ == if first { old(out)@ + part@ } else { old(out)@ + ", "@ + part@ },
{
    if !first {
        out.append(", ");
    }
    out.append(part);
}

pub fn extract_keywords(content: &str, tags: &Vec<String>) -> (r: String)
    ensures
        r@ == keywords(content@, tags@.map_values(|t: String| t@)),
{
    let n = content.unicode_len();
    let mut words: Vec<String> = Vec::new();
    let mut cur = String::new();
    let mut i: usize = 0;
    while i < n
        invariant
            i <= n,
            n == content@.len(),
            (words@.map_values(|w: String| w@), cur@) == long_words_state(content@.subrange(0, i as int)),
        decreases n - i,
    {
        let c = content.get_char(i);
        let ghost prev = content@.subrange(0, i as int);
        assert(content@.subrange(0, i as int + 1).drop_last() =~= prev);
        assert(content@.subrange(0, i as int + 1).last() == c);
        if is_whitespace_char(c) {
            if bytes_of(cur.as_str()) > 4 {
                let ghost before = words@;
                words.push(cur);
                assert(words@.map_values(|w: String| w@) =~= before.map_values(|w: String| w@).push(
                    long_words_state(prev).1,
                ));
            }
            cur = String::new();
        } else {
            push_char(&mut cur, c);
        }
        i = i + 1;
    }
    assert(content@.subrange(0, n as int) =~= content@);
    if bytes_of(cur.as_str()) > 4 {
        let ghost before = words@;
        words.push(cur);
        assert(words@.map_values(|w: String| w@) =~= before.map_values(|w: String| w@).push(
            long_words_state(content@).1,
        ));
    }
    let ghost all = words@.map_values(|w: String| w@);
    assert(all == long_words(content@));
    let take = if words.len() < 5 { words.len() } else { 5 };
    let ghost tag_views = tags@.map_values(|t: String| t@);
    let ghost parts = tag_views + all.take(take as int).map_values(|w: Seq<char>| lower_of(w));
    let mut out = String::new();
    let mut k: usize = 0;
    while k < tags.len()
        invariant
            k <= tags@.len(),
            tag_views == tags@.map_values(|t: String| t@),
            parts == tag_views + all.take(take as int).map_values(|w: Seq<char>| lower_of(w)),
            out@ == joined(parts.take(k as int), ", "@),
        decreases tags@.len() - k,
    {
        proof {
            assert(parts.take(k as int + 1).drop_last() =~= parts.take(k as int));
            assert(parts.take(k as int + 1).last() == tags@[k as int]@);
            if k == 0 {
                assert(parts.take(1) =~= seq![tags@[0]@]);
            }
        }
        append_part(&mut out, tags[k].as_str(), k == 0);
        k = k + 1;
    }
    let mut j: usize = 0;
    while j < take
        invariant
            j <= take <= words@.len(),
            take <= 5,
            k == tags@.len(),
            all == words@.map_values(|w: String| w@),
            parts == tag_views + all.take(take as int).map_values(|w: Seq<char>| lower_of(w)),
            tag_views.len() == k,
            out@ == joined(parts.take(k + j), ", "@),
        decreases take - j,
    {
        let lw = to_lower(words[j].as_str());
        proof {
            let m = (k + j) as int;
            assert(parts.take(m + 1).drop_last() =~= parts.take(m));
            assert(parts[m] == lower_of(all[j as int]));
            assert(parts.take(m + 1).last() == lw@);
            if m == 0 {
                assert(parts.take(1) =~= seq![lw@]);
            }
        }
        append_part(&mut out, lw.as_str(), k == 0 && j == 0);
        j = j + 1;
    }
    assert(parts.take((k + j) as int) =~= parts);
    out
}

/// The status a new comment is stored with.
#[derive(Debug, Clone, Copy, PartialEq, Eq, Structural)]
pub enum CommentStatus {
    Pending,
    Approved,
}

impl CommentStatus {
    pub fn as_str(&self) -> (r: &'static str)
        ensures
            r@ == match *self {
                CommentStatus::Pending => "pending"@,
                CommentStatus::Approved => "approved"@,
            },
    {
        match self {
            CommentStatus::Pending => "pending",
            CommentStatus::Approved => "approved",
        }
    }
}

/// Admits a new comment. The facts that come from elsewhere are arguments:
/// whether comments are enabled, whether the client's IP has reached the
/// comment rate limit, and whether all comments need approval. The checks run
/// in this order: enabled, content, spam, rate, then moderation picks the
/// status.
pub fn admit_comment(
    comments_enabled: bool,
    content: &str,
    author_name: &str,
    author_email: &str,
    ip_rate_limited: bool,
    approval_required: bool,
) -> (r: Result<CommentStatus, AppError>)
    ensures
        !comments_enabled ==> (r matches Err(AppError::Validation(m)) && m@ == "Comments are currently disabled"@),
        comments_enabled && (byte_len(trimmed(content@)) >= 5 && byte_len(content@) <= 5000 && byte_len(
            trimmed(author_name@),
        ) > 0 && byte_len(author_name@) <= 100 && byte_len(trimmed(author_email@)) > 0
            && author_email@.contains('@')) ==> match r {
            Err(AppError::Validation(m)) => (spam(content@) && m@
                == "Comment appears to be spam and has been rejected"@) || (!spam(content@) && ip_rate_limited && m@
                == "Too many comments from this IP address. Please wait before posting again."@),
            Ok(status) => !spam(content@) && !ip_rate_limited && (status == CommentStatus::Pending)
                == needs_moderation(content@, author_email@, approval_required),
            _ => false,
        },
        comments_enabled && !(byte_len(trimmed(content@)) >= 5 && byte_len(content@) <= 5000 && byte_len(
            trimmed(author_name@),
        ) > 0 && byte_len(author_name@) <= 100 && byte_len(trimmed(author_email@)) > 0
            && author_email@.contains('@')) ==> r matches Err(AppError::Validation(_)),
{
    if !comments_enabled {
        return Err(AppError::Validation(owned("Comments are currently disabled")));
    }
    match validate_comment_content(content, author_name, author_email) {
        Err(e) => return Err(e),
        Ok(()) => {},
    }
    if is_spam_content(content) {
        return Err(AppError::Validation(owned("Comment appears to be spam and has been rejected")));
    }
    if ip_rate_limited {
        return Err(
            AppError::Validation(owned("Too many comments from this IP address. Please wait before posting again.")),
        );
    }
    if requires_moderation(content, author_email, approval_required) {
        Ok(CommentStatus::Pending)
    } else {
        Ok(CommentStatus::Approved)
    }
}

/// An optional text field that is absent or empty.
pub open spec fn blank(o: Option<String>) -> bool {
    match o {
        None => true,
        Some(s) => s@.len() == 0,
    }
}

fn is_blank(o: &Option<String>) -> (r: bool)
    ensures
        r == blank(*o),
{
    match o {
        None => true,
        Some(s) => s.as_str().unicode_len() == 0,
    }
}

/// The SEO title of `title` can be cut without splitting a character.
pub open spec fn seo_title_cut_ok(title: Seq<char>) -> bool {
    byte_len(title) <= 60 || is_char_boundary(encode_utf8(title), 57)
}

/// The SEO description of `content` can be cut without splitting a character.
pub open spec fn seo_description_cut_ok(content: Seq<char>) -> bool {
    byte_len(description_text(content)) <= 160 || is_char_boundary(encode_utf8(description_text(content)), 157)
}

pub open spec fn views(v: Seq<String>) -> Seq<Seq<char>> {
    v.map_values(|t: String| t@)
}

/// The SEO fields of a post after defaults are filled in.
pub struct SeoFields {
    pub seo_title: Option<String>,
    pub seo_description: Option<String>,
    pub seo_keywords: Option<String>,
}

/// Fills each blank SEO field from the post: the title from `title`, the
/// description from `content`, the keywords from `content` and `tags`.
/// Fields that hold text are kept.
pub fn fill_seo_fields(
    title: &str,
    content: &str,
    tags: &Vec<String>,
    seo_title: Option<String>,
    seo_description: Option<String>,
    seo_keywords: Option<String>,
) -> (r: SeoFields)
    requires
        blank(seo_title) ==> seo_title_cut_ok(title@),
        blank(seo_description) ==> seo_description_cut_ok(content@),
    ensures
        blank(seo_title) ==> (r.seo_title matches Some(t) && t@ == shortened(title@, 60)),
        !blank(seo_title) ==> r.seo_title == seo_title,
        blank(seo_description) ==> (r.seo_description matches Some(t) && t@ == shortened(
            description_text(content@),
            160,
        )),
        !blank(seo_description) ==> r.seo_description == seo_description,
        blank(seo_keywords) ==> (r.seo_keywords matches Some(t) && t@ == keywords(content@, views(tags@))),
        !blank(seo_keywords) ==> r.seo_keywords == seo_keywords,
{
    let t = if is_blank(&seo_title) { Some(generate_seo_title(title)) } else { seo_title };
    let d = if is_blank(&seo_description) { Some(generate_seo_description(content)) } else { seo_description };
    let k = if is_blank(&seo_keywords) { Some(extract_keywords(content, tags)) } else { seo_keywords };
    SeoFields { seo_title: t, seo_description: d, seo_keywords: k }
}

/// The slug a new post is stored under: the given one where it is taken by
/// no other post, else the given one with `-<now>` appended.
pub fn unique_slug(slug: String, taken: bool, now: u64) -> (r: String)
    ensures
        r@ == if taken { slug@ + "-"@ + decimal(now as nat) } else { slug@ },
{
    if !taken {
        return slug;
    }
    let mut s = slug;
    s.append("-");
    append_decimal(&mut s, now);
    s
}

/// The post checks that `validate_post_content` makes.
pub open spec fn post_content_ok(title: Seq<char>, content: Seq<char>) -> bool {
    byte_len(trimmed(title)) >= 5 && byte_len(title) <= 200 && byte_len(trimmed(content)) >= 50
}

/// A new post with its defaults: checked, given a slug from its title where
/// it has none, and its blank SEO fields filled. Whether the slug is taken
/// is settled afterwards with `unique_slug`.
pub fn prepare_new_post(request: CreatePostRequest) -> (r: Result<CreatePostRequest, AppError>)
    requires
        blank(request.seo_title) ==> seo_title_cut_ok(request.title@),
        blank(request.seo_description) ==> seo_description_cut_ok(request.content@),
    ensures
        r is Ok == post_content_ok(request.title@, request.content@),
        r matches Err(e) ==> e is Validation,
        r matches Ok(p) ==> {
            &&& p.title == request.title
            &&& p.content == request.content
            &&& p.tags == request.tags
            &&& p.slug@ == if request.slug@.len() == 0 { post_slug(request.title@) } else { request.slug@ }
            &&& blank(request.seo_title) ==> (p.seo_title matches Some(t) && t@ == shortened(request.title@, 60))
            &&& !blank(request.seo_title) ==> p.seo_title == request.seo_title
            &&& blank(request.seo_description) ==> (p.seo_description matches Some(t) && t@ == shortened(
                description_text(request.content@),
                160,
            ))
            &&& !blank(request.seo_description) ==> p.seo_description == request.seo_description
            &&& blank(request.seo_keywords) ==> (p.seo_keywords matches Some(t) && t@ == keywords(
                request.content@,
                views(request.tags@),
            ))
            &&& !blank(request.seo_keywords) ==> p.seo_keywords == request.seo_keywords
        },
{
    match validate_post_content(request.title.as_str(), request.content.as_str()) {
        Err(e) => return Err(e),
        Ok(()) => {},
    }
    let mut request = request;
    if request.slug.as_str().unicode_len() == 0 {
        request.slug = generate_post_slug(request.title.as_str());
    }
    let seo = fill_seo_fields(
        request.title.as_str(),
        request.content.as_str(),
        &request.tags,
        request.seo_title,
        request.seo_description,
        request.seo_keywords,
    );
    request.seo_title = seo.seo_title;
    request.seo_description = seo.seo_description;
    request.seo_keywords = seo.seo_keywords;
    Ok(request)
}

/// An update with its defaults: checked, refused where its slug belongs to
/// another post, and its blank SEO fields filled.
pub fn prepare_post_update(request: UpdatePostRequest, slug_taken: bool) -> (r: Result<UpdatePostRequest, AppError>)
    requires
        blank(request.seo_title) ==> seo_title_cut_ok(request.title@),
        blank(request.seo_description) ==> seo_description_cut_ok(request.content@),
    ensures
        r is Ok == (post_content_ok(request.title@, request.content@) && !slug_taken),
        post_content_ok(request.title@, request.content@) && slug_taken ==> (r matches Err(AppError::Validation(m))
            && m@ == "Slug already exists"@),
        r matches Err(e) ==> e is Validation,
        r matches Ok(p) ==> {
            &&& p.title == request.title
            &&& p.content == request.content
            &&& p.slug == request.slug
            &&& p.tags == request.tags
            &&& blank(request.seo_title) ==> (p.seo_title matches Some(t) && t@ == shortened(request.title@, 60))
            &&& !blank(request.seo_title) ==> p.seo_title == request.seo_title
            &&& blank(request.seo_description) ==> (p.seo_description matches Some(t) && t@ == shortened(
                description_text(request.content@),
                160,
            ))
            &&& !blank(request.seo_description) ==> p.seo_description == request.seo_description
            &&& blank(request.seo_keywords) ==> (p.seo_keywords matches Some(t) && t@ == keywords(
                request.content@,
                views(request.tags@),
            ))
            &&& !blank(request.seo_keywords) ==> p.seo_keywords == request.seo_keywords
        },
{
    match validate_post_content(request.title.as_str(), request.content.as_str()) {
        Err(e) => return Err(e),
        Ok(()) => {},
    }
    if slug_taken {
        return Err(AppError::Validation(owned("Slug already exists")));
    }
    let mut request = request;
    let seo = fill_seo_fields(
        request.title.as_str(),
        request.content.as_str(),
        &request.tags,
        request.seo_title,
        request.seo_description,
        request.seo_keywords,
    );
    request.seo_title = seo.seo_title;
    request.seo_description = seo.seo_description;
    request.seo_keywords = seo.seo_keywords;
    Ok(request)
}

/// A portfolio project needs a title and a description that are not blank.
pub fn validate_project(title: &str, description: &str) -> (r: Result<(), AppError>)
    ensures
        trimmed(title@).len() == 0 ==> validation_error(r, "Project title cannot be empty"@),
        trimmed(title@).len() > 0 && trimmed(description@).len() == 0 ==> validation_error(
            r,
            "Project description cannot be empty"@,
        ),
        r is Ok == (trimmed(title@).len() > 0 && trimmed(description@).len() > 0),
{
    let t = trim(title);
    if t.as_str().unicode_len() == 0 {
        return invalid("Project title cannot be empty");
    }
    let d = trim(description);
    if d.as_str().unicode_len() == 0 {
        return invalid("Project description cannot be empty");
    }
    Ok(())
}

/// How many featured projects a request may ask for: 5 by default, at most 50.
pub fn featured_limit(limit: Option<u32>) -> (r: Result<u32, AppError>)
    ensures
        limit is None ==> r == Ok::<u32, AppError>(5),
        limit matches Some(l) ==> (l <= 50 ==> r == Ok::<u32, AppError>(l)),
        limit matches Some(l) ==> (l > 50 ==> (r matches Err(AppError::Validation(m)) && m@
            == "Limit cannot exceed 50 projects"@)),
{
    let l = match limit {
        Some(l) => l,
        None => 5,
    };
    if l > 50 {
        return Err(AppError::Validation(owned("Limit cannot exceed 50 projects")));
    }
    Ok(l)
}

/// Featuring one more project is refused once 10 are featured; taking the
/// flag away is always allowed.
pub fn check_featured_change(featured: bool, featured_now: i64) -> (r: Result<(), AppError>)
    ensures
        (!featured || featured_now < 10) ==> r is Ok,
        (featured && featured_now >= 10) ==> validation_error(r, "Cannot have more than 10 featured projects"@),
{
    if featured && featured_now >= 10 {
        return invalid("Cannot have more than 10 featured projects");
    }
    Ok(())
}

} // verus!
