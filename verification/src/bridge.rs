//! The calls that leave this crate: parsing of URLs, regular expressions,
//! SHA-256, shell word splitting, percent decoding and random choice.
//!
//! Each function here hands plain values to another crate and takes plain
//! values back. What it promises is believed, not proved.
use rand::seq::SliceRandom;
use rand::Rng;
use sha2::Digest;
use vstd::prelude::*;

verus! {

/// What the logic reads of a parsed URL.
pub struct UrlParts {
    pub scheme: String,
    pub host: Option<String>,
    pub path: String,
    pub last_segment: Option<String>,
}

pub struct UrlPartsView {
    pub scheme: Seq<char>,
    pub host: Option<Seq<char>>,
    pub path: Seq<char>,
    pub last_segment: Option<Seq<char>>,
}

impl View for UrlParts {
    type V = UrlPartsView;

    open spec fn view(&self) -> UrlPartsView {
        UrlPartsView {
            scheme: self.scheme@,
            host: match self.host {
                Some(h) => Some(h@),
                None => None,
            },
            path: self.path@,
            last_segment: match self.last_segment {
                Some(s) => Some(s@),
                None => None,
            },
        }
    }
}

/// What `url::Url::parse` makes of a text: nothing where it refuses the text,
/// else the scheme, the host if there is one, the path, and the last path
/// segment if the URL can have segments.
pub uninterp spec fn url_parts(text: Seq<char>) -> Option<UrlPartsView>;

/// Parses a URL with `url::Url::parse` and reads `scheme`, `host_str`, `path`
/// and the last item of `path_segments` from it. The result is the one that
/// `url_parts` names for this text.
#[verifier::external_body]
pub(crate) fn parse_url(text: &str) -> (r: Option<UrlParts>)
    ensures
        match r {
            Some(p) => url_parts(text@) == Some(p@),
            None => url_parts(text@).is_none(),
        },
{
    match url::Url::parse(text) {
        Ok(u) => Some(
            UrlParts {
                scheme: u.scheme().to_string(),
                host: u.host_str().map(|h| h.to_string()),
                path: u.path().to_string(),
                last_segment: u.path_segments().and_then(|mut s| s.next_back()).map(
                    |s| s.to_string(),
                ),
            },
        ),
        Err(_) => None,
    }
}

/// The characters that a file name loses before it is compared or hashed.
pub open spec fn is_name_punctuation(c: char) -> bool {
    c == '-' || c == '~' || c == '_' || c == '.' || c == '[' || c == ']' || c == '(' || c == ')'
        || c == ':' || c == ' '
}

/// A text without the characters that a file name loses, the others in
/// their order.
pub open spec fn without_name_punctuation(text: Seq<char>) -> Seq<char> {
    text.filter(|c: char| !is_name_punctuation(c))
}

/// Removes every match of the character class `[-~_\.\[\](): ]` with
/// `regex::Regex::replace_all`: the text without those ten characters, the
/// others in their order.
#[verifier::external_body]
pub(crate) fn remove_name_punctuation(text: &str) -> (r: String)
    ensures
        r@ == without_name_punctuation(text@),
{
    let class = regex::Regex::new(r"[-~_\.\[\](): ]").unwrap();
    class.replace_all(text, "").to_string()
}

/// The characters that mean something in a regular expression.
pub open spec fn is_regex_meta(c: char) -> bool {
    c == '\\' || c == '.' || c == '+' || c == '*' || c == '?' || c == '(' || c == ')' || c == '|'
        || c == '[' || c == ']' || c == '{' || c == '}' || c == '^' || c == '$' || c == '#' || c
        == '&' || c == '-' || c == '~'
}

/// A text with a backslash before each character that means something in a
/// regular expression, the other characters as they stand.
pub open spec fn regex_escaped(text: Seq<char>) -> Seq<char>
    decreases text.len(),
{
    if text.len() == 0 {
        Seq::empty()
    } else if is_regex_meta(text.last()) {
        regex_escaped(text.drop_last()).push('\\').push(text.last())
    } else {
        regex_escaped(text.drop_last()).push(text.last())
    }
}

/// Escapes a text with `regex::escape`, which goes through the characters
/// and puts a backslash before each of the eighteen that mean something in
/// a regular expression.
#[verifier::external_body]
pub(crate) fn regex_escape(text: &str) -> (r: String)
    ensures
        r@ == regex_escaped(text@),
{
    regex::escape(text)
}

/// Whether a regular expression matches somewhere in a text, as
/// `regex::Regex::is_match` tells it; nothing where `regex::Regex::new`
/// refuses the pattern.
pub uninterp spec fn regex_match(pattern: Seq<char>, text: Seq<char>) -> Option<bool>;

/// Compiles a pattern with `regex::Regex::new` and asks `is_match` of a text.
#[verifier::external_body]
pub(crate) fn regex_is_match(pattern: &str, text: &str) -> (r: Option<bool>)
    ensures
        r == regex_match(pattern@, text@),
{
    match regex::Regex::new(pattern) {
        Ok(re) => Some(re.is_match(text)),
        Err(_) => None,
    }
}

pub open spec fn is_lower_hex(c: char) -> bool {
    ('0' <= c <= '9') || ('a' <= c <= 'f')
}

/// The SHA-256 digest of the UTF-8 bytes of a text, as 64 lower-case
/// hexadecimal digits.
pub uninterp spec fn sha256_hex(text: Seq<char>) -> Seq<char>;

/// Hashes the bytes of a text with `sha2::Sha256` and formats the 32 bytes of
/// the digest as lower-case hexadecimal.
#[verifier::external_body]
pub(crate) fn sha256_hex_of(text: &str) -> (r: String)
    ensures
        r@ == sha256_hex(text@),
        r@.len() == 64,
        forall|i: int| 0 <= i < 64 ==> is_lower_hex(#[trigger] r@[i]),
{
    let mut hasher = sha2::Sha256::new();
    hasher.update(text.as_bytes());
    format!("{:x}", hasher.finalize())
}

/// The words that `shell_words::split` finds in a command line; nothing where
/// it refuses the line (a quote left open).
pub uninterp spec fn shell_words(line: Seq<char>) -> Option<Seq<Seq<char>>>;

/// Splits a command line with `shell_words::split`.
#[verifier::external_body]
pub(crate) fn shell_split(line: &str) -> (r: Option<Vec<String>>)
    ensures
        match r {
            Some(words) => shell_words(line@) == Some(words.deep_view()),
            None => shell_words(line@).is_none(),
        },
{
    shell_words::split(line).ok()
}

/// What `urlencoding::decode` makes of a text; nothing where the decoded
/// bytes are no UTF-8.
pub uninterp spec fn percent_decoded(text: Seq<char>) -> Option<Seq<char>>;

/// Decodes percent escapes with `urlencoding::decode`.
#[verifier::external_body]
pub(crate) fn percent_decode(text: &str) -> (r: Option<String>)
    ensures
        match r {
            Some(s) => percent_decoded(text@) == Some(s@),
            None => percent_decoded(text@).is_none(),
        },
{
    urlencoding::decode(text).ok().map(|s| s.into_owned())
}

/// Puts the items in a random order with `SliceRandom::shuffle` and
/// `rand::thread_rng`: the same items, each as often as before.
#[verifier::external_body]
pub(crate) fn shuffle_names(items: &mut Vec<String>)
    ensures
        final(items).deep_view().to_multiset() == old(items).deep_view().to_multiset(),
        final(items).len() == old(items).len(),
{
    items.shuffle(&mut rand::thread_rng());
}

/// A random number from `low` to `high`, both included, from
/// `Rng::gen_range` on `rand::thread_rng`.
#[verifier::external_body]
pub(crate) fn random_in_range(low: u16, high: u16) -> (r: u16)
    requires
        low <= high,
    ensures
        low <= r <= high,
{
    rand::thread_rng().gen_range(low..=high)
}

/// The two runs of digits that the pattern `mpv\s+(\d+)\.(\d+)\.` captures
/// where it first matches in a text; nothing where it does not match.
pub uninterp spec fn mpv_version_captures(text: Seq<char>) -> Option<(Seq<char>, Seq<char>)>;

/// Searches a text for `mpv\s+(\d+)\.(\d+)\.` with `regex::Regex::captures`
/// and gives the two groups of the first match.
#[verifier::external_body]
pub(crate) fn mpv_version_parts(text: &str) -> (r: Option<(String, String)>)
    ensures
        match r {
            Some((a, b)) => mpv_version_captures(text@) == Some((a@, b@)),
            None => mpv_version_captures(text@).is_none(),
        },
{
    let re = regex::Regex::new(r"mpv\s+(\d+)\.(\d+)\.").unwrap();
    re.captures(text).map(|c| (c[1].to_string(), c[2].to_string()))
}

} // verus!
