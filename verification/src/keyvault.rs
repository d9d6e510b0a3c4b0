//! What the issuance reads off the certificates in the vault: the name of a
//! certificate from its identifier, and the domain from its subject.

use crate::text::{chars_of, find_char, position_of, text_between};
use vstd::prelude::*;

verus! {

/// The path of the URL that a text is, as the `url` crate reads it; none
/// where the text is no absolute URL.
pub uninterp spec fn url_path(text: Seq<char>) -> Option<Seq<char>>;

/// `url::Url::parse`, and `path` of the URL that it gives: the same text
/// gives the same path, or fails to parse, every time.
#[verifier::external_body]
fn parsed_path(text: &str) -> (path: Option<String>)
    ensures
        match path {
            Some(path) => url_path(text@) == Some(path@),
            None => url_path(text@) is None,
        },
{
    match url::Url::parse(text) {
        Ok(url) => Some(url.path().to_string()),
        Err(_) => None,
    }
}

/// Whether a path is made of segments: it starts with a slash.
pub open spec fn has_segments(path: Seq<char>) -> bool {
    path.len() > 0 && path[0] == '/'
}

/// The second of the segments of a path, which are what stands between its
/// slashes; none where the path has but one segment.
pub open spec fn second_segment(path: Seq<char>) -> Option<Seq<char>>
    recommends
        has_segments(path),
{
    let segments = path.skip(1);
    let first = position_of(segments, '/');
    if first == segments.len() {
        None
    } else {
        let rest = segments.skip(first + 1);
        Some(rest.take(position_of(rest, '/')))
    }
}

/// The name of a certificate in the path of its identifier: the second
/// segment.
pub fn cert_name_in_path(path: &str) -> (name: Option<String>)
    requires
        has_segments(path@),
    ensures
        match name {
            Some(name) => second_segment(path@) == Some(name@),
            None => second_segment(path@) is None,
        },
{
    let chars = chars_of(path);
    let first = find_char(&chars, 1, '/');
    if first == chars.len() {
        return None;
    }
    let second = find_char(&chars, first + 1, '/');
    let name = text_between(&chars, first + 1, second);
    proof {
        let segments = path@.skip(1);
        let rest = segments.skip(first - 1 + 1);
        assert(rest =~= chars@.skip(first + 1));
    }
    Some(name)
}

/// The name of the certificate with the identifier `id`: the second segment
/// of the path of the URL that `id` is.
pub open spec fn cert_name_of(id: Seq<char>) -> Option<Seq<char>> {
    match url_path(id) {
        Some(path) => if has_segments(path) {
            second_segment(path)
        } else {
            None
        },
        None => None,
    }
}

/// The name of the certificate with the identifier `id`, which is a URL:
/// the second segment of its path. There is none where `id` is no URL,
/// where its path is not made of segments, or where it has but one.
pub fn cert_name(id: &str) -> (name: Option<String>)
    ensures
        match name {
            Some(name) => cert_name_of(id@) == Some(name@),
            None => cert_name_of(id@) is None,
        },
{
    match parsed_path(id) {
        None => None,
        Some(path) => {
            let chars = chars_of(path.as_str());
            if chars.len() > 0 && chars[0] == '/' {
                cert_name_in_path(path.as_str())
            } else {
                None
            }
        },
    }
}

/// The domain in a subject: what follows the first equals sign.
pub open spec fn domain_of(subject: Seq<char>) -> Option<Seq<char>> {
    if position_of(subject, '=') < subject.len() {
        Some(subject.skip(position_of(subject, '=') + 1))
    } else {
        None
    }
}

/// The domain in the subject of a certificate: what follows the first
/// equals sign; none where the subject has no equals sign.
pub fn domain(subject: &str) -> (domain: Option<String>)
    ensures
        match domain {
            Some(domain) => domain_of(subject@) == Some(domain@),
            None => domain_of(subject@) is None,
        },
{
    let chars = chars_of(subject);
    let at = find_char(&chars, 0, '=');
    assert(chars@.skip(0) == chars@);
    if at == chars.len() {
        None
    } else {
        let domain = text_between(&chars, at + 1, chars.len());
        Some(domain)
    }
}

} // verus!
