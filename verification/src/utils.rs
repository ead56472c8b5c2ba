//! File names, sizes, rooms and versions: how they are shortened, hidden,
//! compared and read.
use crate::bridge::{
    is_lower_hex, is_name_punctuation, parse_url, regex_escape, regex_escaped, regex_is_match,
    regex_match, remove_name_punctuation, sha256_hex, sha256_hex_of, shell_split, shell_words,
    url_parts, without_name_punctuation,
};
use crate::config::PrivacyMode;
use crate::messages::{FileSizeInfo, FileSizeView};
use crate::text::{
    all_digits, occurs_at, append, ascii_alnum, concat, contains_sub, decimal, decimal_chars, digit,
    digits_value, ends_with, eq_ignore_case, find, find_sub, from_chars, has_prefix, has_sub,
    has_suffix, is_ascii_alnum, is_blank, is_digit, lemma_find_sub, lower, only_digits, opt_view,
    parse_digits, replace, replaced, same_chars, same_ignore_case, slice, split, split_on,
    split_words, starts_with, to_chars, to_lower, to_strings, to_upper, trim, trimmed, upper, views,
    words,
};
use vstd::prelude::*;

verus! {

/// The name that stands for a file whose name is not told.
pub const PRIVACY_HIDDEN_FILENAME: &'static str = "**Hidden filename**";

pub open spec fn hidden_name() -> Seq<char> {
    "**Hidden filename**"@
}

// ---------------------------------------------------------------------------
// Shortening
// ---------------------------------------------------------------------------

/// The number of bytes that a character takes in UTF-8.
pub open spec fn utf8_len(c: char) -> int {
    let n = c as u32;
    if n < 0x80 {
        1
    } else if n < 0x800 {
        2
    } else if n < 0x10000 {
        3
    } else {
        4
    }
}

/// The number of bytes that a text takes in UTF-8.
pub open spec fn utf8_size(s: Seq<char>) -> int
    decreases s.len(),
{
    if s.len() == 0 {
        0
    } else {
        utf8_size(s.drop_last()) + utf8_len(s.last())
    }
}

/// How many characters from the start of `s` fit whole into `room` bytes.
pub open spec fn whole_chars(s: Seq<char>, room: int) -> int
    decreases s.len(),
{
    if s.len() == 0 || utf8_len(s[0]) > room {
        0
    } else {
        1 + whole_chars(s.drop_first(), room - utf8_len(s[0]))
    }
}

/// A text cut to at most `max_len` bytes of UTF-8. Where the cut falls inside
/// a character, the replacement character U+FFFD stands for its first bytes.
pub open spec fn truncated(s: Seq<char>, max_len: int) -> Seq<char> {
    let k = whole_chars(s, max_len);
    if k == s.len() {
        s
    } else if utf8_size(s.take(k)) < max_len {
        s.take(k).push('\u{FFFD}')
    } else {
        s.take(k)
    }
}

fn char_width(c: char) -> (w: usize)
    ensures
        w == utf8_len(c),
{
    let n: u32 = c as u32;
    if n < 0x80 {
        1
    } else if n < 0x800 {
        2
    } else if n < 0x10000 {
        3
    } else {
        4
    }
}

/// Cuts a text to at most `max_len` bytes.
pub fn truncate_text(value: &str, max_len: usize) -> (r: String)
    ensures
        r@ == truncated(value@, max_len as int),
{
    let s = to_chars(value);
    let mut used: usize = 0;
    let mut i: usize = 0;
    assert(s@.skip(0) =~= s@);
    assert(s@.take(0) =~= Seq::<char>::empty());
    while i < s.len()
        invariant
            i <= s.len(),
            s@ == value@,
            used <= max_len,
            used == utf8_size(s@.take(i as int)),
            whole_chars(s@, max_len as int) == i + whole_chars(
                s@.skip(i as int),
                max_len - used,
            ),
        decreases s.len() - i,
    {
        let w = char_width(s[i]);
        proof {
            assert(s@.skip(i as int)[0] == s@[i as int]);
            assert(s@.skip(i as int).drop_first() =~= s@.skip(i + 1));
            assert(s@.take(i + 1).drop_last() =~= s@.take(i as int));
            assert(s@.take(i + 1).last() == s@[i as int]);
        }
        if w > max_len - used {
            assert(whole_chars(s@.skip(i as int), max_len - used) == 0);
            let mut head = slice(&s, 0, i);
            assert(head@ =~= s@.take(i as int));
            if used < max_len {
                head.push('\u{FFFD}');
            }
            return from_chars(&head);
        }
        used = used + w;
        i = i + 1;
    }
    assert(s@.skip(s.len() as int).len() == 0);
    from_chars(&s)
}

// ---------------------------------------------------------------------------
// Kinds of name
// ---------------------------------------------------------------------------

/// A name that ends, whatever its case, in one of the endings of audio files.
pub open spec fn is_music_name(name: Seq<char>) -> bool {
    let l = lower(name);
    ends_with(l, ".mp3"@) || ends_with(l, ".m4a"@) || ends_with(l, ".m4p"@) || ends_with(
        l,
        ".wav"@,
    ) || ends_with(l, ".aiff"@) || ends_with(l, ".r"@) || ends_with(l, ".ogg"@) || ends_with(
        l,
        ".flac"@,
    )
}

pub fn is_music_file(filename: &str) -> (r: bool)
    ensures
        r == is_music_name(filename@),
{
    let l = to_lower(&to_chars(filename));
    has_suffix(&l, &to_chars(".mp3")) || has_suffix(&l, &to_chars(".m4a")) || has_suffix(
        &l,
        &to_chars(".m4p"),
    ) || has_suffix(&l, &to_chars(".wav")) || has_suffix(&l, &to_chars(".aiff")) || has_suffix(
        &l,
        &to_chars(".r"),
    ) || has_suffix(&l, &to_chars(".ogg")) || has_suffix(&l, &to_chars(".flac"))
}

/// A text that holds `://` and that the URL parser takes.
pub open spec fn is_url_text(value: Seq<char>) -> bool {
    contains_sub(value, "://"@) && url_parts(value).is_some()
}

pub fn is_url(value: &str) -> (r: bool)
    ensures
        r == is_url_text(value@),
{
    if !has_sub(&to_chars(value), &to_chars("://")) {
        return false;
    }
    parse_url(value).is_some()
}

/// What a path on this machine adds to a playlist: a URL stands for itself,
/// an existing file for its file name, anything else for nothing.
/// `file_on_disk` is the file name of `path` where `path` is a regular file.
pub fn playlist_filename_from_path(path: &str, file_on_disk: Option<String>) -> (r: Option<String>)
    ensures
        opt_view(r) == (if is_url_text(path@) {
            Some(path@)
        } else {
            opt_view(file_on_disk)
        }),
{
    if is_url(path) {
        return Some(from_chars(&to_chars(path)));
    }
    file_on_disk
}

// ---------------------------------------------------------------------------
// Trusted domains
// ---------------------------------------------------------------------------

/// The domain of an entry of the list of trusted domains: what stands before
/// its first slash, trimmed.
pub open spec fn entry_domain(entry: Seq<char>) -> Seq<char> {
    let cut = find_sub(entry, "/"@);
    trim(
        if cut >= 0 {
            entry.take(cut)
        } else {
            entry
        },
    )
}

/// The path of an entry of the list of trusted domains: what stands after its
/// first slash, trimmed.
pub open spec fn entry_path(entry: Seq<char>) -> Seq<char> {
    let cut = find_sub(entry, "/"@);
    trim(
        if cut >= 0 {
            entry.skip(cut + 1)
        } else {
            Seq::empty()
        },
    )
}

/// The regular expression that a domain with `*` in it stands for: each `*`
/// matches one or more characters other than a full stop.
pub open spec fn domain_pattern(domain: Seq<char>) -> Seq<char> {
    "^"@ + replace(regex_escaped(domain), "\\*"@, "([^.]+)"@) + "$"@
}

/// A host belongs to a trusted domain: it matches the domain's pattern where
/// the domain holds `*`, else it is the domain, or `www.` and the domain, but
/// for the case of ASCII letters.
pub open spec fn domain_matches(domain: Seq<char>, host: Seq<char>) -> bool {
    if contains_sub(domain, "*"@) {
        regex_match(domain_pattern(domain), host) == Some(true)
    } else {
        eq_ignore_case(host, domain) || eq_ignore_case(host, "www."@ + domain)
    }
}

/// An entry of the list of trusted domains covers a host and a path.
pub open spec fn entry_trusts(entry: Seq<char>, host: Seq<char>, path: Seq<char>) -> bool {
    entry_domain(entry).len() > 0 && domain_matches(entry_domain(entry), host) && (entry_path(
        entry,
    ).len() == 0 || starts_with(path, "/"@ + entry_path(entry)))
}

/// Whether a URL can be trusted at all (it is an `http` or `https` URL), and
/// whether it is: always where only trusted domains need not be kept to,
/// else where an entry of the list covers its host and path.
pub open spec fn trust(value: Seq<char>, domains: Seq<Seq<char>>, only_trusted: bool) -> (
    bool,
    bool,
) {
    match url_parts(value) {
        None => (false, false),
        Some(u) => if !(u.scheme == "http"@ || u.scheme == "https"@) {
            (false, false)
        } else if !only_trusted {
            (true, true)
        } else {
            match u.host {
                None => (true, false),
                Some(h) => (
                    true,
                    exists|i: int| 0 <= i < domains.len() && entry_trusts(#[trigger] domains[i], h, u.path),
                ),
            }
        },
    }
}

fn domain_covers(domain: &Vec<char>, host: &Vec<char>) -> (r: bool)
    ensures
        r == domain_matches(domain@, host@),
{
    if has_sub(domain, &to_chars("*")) {
        let escaped = to_chars(regex_escape(from_chars(domain).as_str()).as_str());
        proof {
            reveal_strlit("\\*");
        }
        let body = replaced(&escaped, &to_chars("\\*"), &to_chars("([^.]+)"));
        let mut pattern = to_chars("^");
        append(&mut pattern, &body);
        append(&mut pattern, &to_chars("$"));
        match regex_is_match(from_chars(&pattern).as_str(), from_chars(host).as_str()) {
            Some(m) => m,
            None => false,
        }
    } else {
        same_ignore_case(host, domain) || same_ignore_case(host, &concat(&to_chars("www."), domain))
    }
}

fn entry_covers(entry: &Vec<char>, host: &Vec<char>, path: &Vec<char>) -> (r: bool)
    ensures
        r == entry_trusts(entry@, host@, path@),
{
    let slash = to_chars("/");
    proof {
        lemma_find_sub(entry@, slash@);
        reveal_strlit("/");
    }
    let (domain, entry_path) = match find(entry, &slash) {
        Some(cut) => {
            assert(occurs_at(entry@, slash@, cut as int));
            let d = slice(entry, 0, cut);
            let p = slice(entry, cut + 1, entry.len());
            assert(d@ =~= entry@.take(cut as int));
            assert(p@ =~= entry@.skip(cut + 1));
            (trimmed(&d), trimmed(&p))
        },
        None => {
            let none: Vec<char> = Vec::new();
            assert(none@ =~= Seq::<char>::empty());
            (trimmed(entry), trimmed(&none))
        },
    };
    if domain.len() == 0 {
        return false;
    }
    if !domain_covers(&domain, host) {
        return false;
    }
    if entry_path.len() == 0 {
        return true;
    }
    has_prefix(path, &concat(&to_chars("/"), &entry_path))
}

pub fn is_trustable_and_trusted(
    value: &str,
    trusted_domains: &[String],
    only_switch_to_trusted: bool,
) -> (r: (bool, bool))
    ensures
        r == trust(value@, trusted_domains.deep_view(), only_switch_to_trusted),
{
    let url = match parse_url(value) {
        Some(u) => u,
        None => {
            return (false, false);
        },
    };
    let ghost parts = url@;
    let scheme = to_chars(url.scheme.as_str());
    if !(same_chars(&scheme, &to_chars("http")) || same_chars(&scheme, &to_chars("https"))) {
        return (false, false);
    }
    if !only_switch_to_trusted {
        return (true, true);
    }
    let host = match url.host {
        Some(h) => to_chars(h.as_str()),
        None => {
            return (true, false);
        },
    };
    let path = to_chars(url.path.as_str());
    let ghost domains = trusted_domains.deep_view();
    let mut i: usize = 0;
    while i < trusted_domains.len()
        invariant
            i <= trusted_domains.len(),
            domains == trusted_domains.deep_view(),
            url_parts(value@) == Some(parts),
            parts.scheme == "http"@ || parts.scheme == "https"@,
            parts.host == Some(host@),
            parts.path == path@,
            only_switch_to_trusted,
            forall|j: int| 0 <= j < i ==> !entry_trusts(#[trigger] domains[j], host@, path@),
        decreases trusted_domains.len() - i,
    {
        let entry = to_chars(trusted_domains[i].as_str());
        assert(domains[i as int] == trusted_domains@[i as int]@);
        if entry_covers(&entry, &host, &path) {
            assert(entry_trusts(domains[i as int], host@, path@));
            return (true, true);
        }
        i = i + 1;
    }
    (true, false)
}

// ---------------------------------------------------------------------------
// Stripping and hashing
// ---------------------------------------------------------------------------

/// The part of a name that is compared: the last path segment where the name
/// is taken for a URL and has one, else the whole name. A text without a
/// colon has no scheme, so it is no URL and is compared whole.
pub open spec fn name_base(filename: Seq<char>, strip_url: bool) -> Seq<char> {
    if (strip_url || is_url_text(filename)) && contains_sub(filename, ":"@) {
        match url_parts(filename) {
            Some(u) => match u.last_segment {
                Some(segment) => segment,
                None => filename,
            },
            None => filename,
        }
    } else {
        filename
    }
}

/// A name without its punctuation.
pub open spec fn stripped_name(filename: Seq<char>, strip_url: bool) -> Seq<char> {
    without_name_punctuation(name_base(filename, strip_url))
}

/// The first twelve hexadecimal digits of the SHA-256 of a stripped name.
pub open spec fn name_hash(filename: Seq<char>, strip_url: bool) -> Seq<char> {
    sha256_hex(stripped_name(filename, strip_url)).take(12)
}

/// The first twelve hexadecimal digits of the SHA-256 of a size written in
/// decimal.
pub open spec fn size_hash(size: u64) -> Seq<char> {
    sha256_hex(decimal(size as nat)).take(12)
}

pub fn strip_filename(filename: &str, strip_url: bool) -> (r: String)
    ensures
        r@ == stripped_name(filename@, strip_url),
{
    if (strip_url || is_url(filename)) && has_sub(&to_chars(filename), &to_chars(":")) {
        match parse_url(filename) {
            Some(u) => match u.last_segment {
                Some(segment) => {
                    return remove_name_punctuation(segment.as_str());
                },
                None => {},
            },
            None => {},
        }
    }
    remove_name_punctuation(filename)
}

fn first_twelve(hex: &str) -> (r: String)
    requires
        hex@.len() == 64,
    ensures
        r@ == hex@.take(12),
{
    let v = to_chars(hex);
    let head = slice(&v, 0, 12);
    assert(head@ =~= hex@.take(12));
    from_chars(&head)
}

/// A text of lower-case hexadecimal digits.
pub open spec fn hex_text(t: Seq<char>) -> bool {
    forall|i: int| 0 <= i < t.len() ==> is_lower_hex(#[trigger] t[i])
}

/// The names of which the hash does not depend on how it was asked for:
/// URLs, names without a colon, and every name that is hashed as it stands.
pub open spec fn hash_is_plain(filename: Seq<char>, strip_url: bool) -> bool {
    !strip_url || is_url_text(filename) || !contains_sub(filename, ":"@)
}

/// The hash of a name: twelve hexadecimal digits that depend on the name
/// alone, and in which the name is recognised.
pub fn hash_filename(filename: &str, strip_url: bool) -> (r: String)
    ensures
        r@ == name_hash(filename@, strip_url),
        r@.len() == 12,
        hex_text(r@),
        hash_is_plain(filename@, strip_url) ==> same_name_text(filename@, r@),
{
    let stripped = strip_filename(filename, strip_url);
    let hex = sha256_hex_of(stripped.as_str());
    let r = first_twelve(hex.as_str());
    proof {
        assert forall|i: int| 0 <= i < r@.len() implies is_lower_hex(#[trigger] r@[i]) by {
            assert(r@[i] == hex@[i]);
        }
        if hash_is_plain(filename@, strip_url) {
            lemma_name_matches_hash(filename@, strip_url);
        }
    }
    r
}

proof fn lemma_plain_text_keeps(t: Seq<char>)
    requires
        forall|i: int| 0 <= i < t.len() ==> !is_name_punctuation(#[trigger] t[i]),
    ensures
        without_name_punctuation(t) == t,
    decreases t.len(),
{
    reveal(Seq::filter);
    if t.len() > 0 {
        lemma_plain_text_keeps(t.drop_last());
        assert(t.drop_last().push(t.last()) =~= t);
    }
}

proof fn lemma_hex_has_no_colon(t: Seq<char>)
    requires
        hex_text(t),
    ensures
        !contains_sub(t, ":"@),
        !contains_sub(t, "://"@),
        without_name_punctuation(t) == t,
{
    reveal_strlit(":");
    reveal_strlit("://");
    assert forall|i: int| !occurs_at(t, ":"@, i) by {
        if occurs_at(t, ":"@, i) {
            assert(t.subrange(i, i + 1)[0] == ':');
            assert(is_lower_hex(t[i]));
        }
    }
    assert forall|i: int| !occurs_at(t, "://"@, i) by {
        if occurs_at(t, "://"@, i) {
            assert(t.subrange(i, i + 3)[0] == ':');
            assert(is_lower_hex(t[i]));
        }
    }
    assert forall|i: int| 0 <= i < t.len() implies !is_name_punctuation(#[trigger] t[i]) by {
        assert(is_lower_hex(t[i]));
    }
    lemma_plain_text_keeps(t);
}

/// A name and its hash are taken for the same name, whichever of the two
/// comes first: the hash is made of hexadecimal digits, so it is compared as
/// it stands, and the name is hashed again to be compared with it.
pub proof fn lemma_name_matches_hash(name: Seq<char>, strip_url: bool)
    requires
        hash_is_plain(name, strip_url),
        hex_text(name_hash(name, strip_url)),
    ensures
        same_name_text(name, name_hash(name, strip_url)),
        same_name_text(name_hash(name, strip_url), name),
{
    let h = name_hash(name, strip_url);
    lemma_hex_has_no_colon(h);
    let cross = is_url_text(name);
    assert(!is_url_text(h));
    assert(name_base(h, cross) == h);
    assert(stripped_name(h, cross) == h);
    if is_url_text(name) {
        reveal_strlit(":");
        reveal_strlit("://");
        let i = choose|i: int| occurs_at(name, "://"@, i);
        assert(name.subrange(i, i + 1) =~= name.subrange(i, i + 3).subrange(0, 1));
        assert(name.subrange(i, i + 1) =~= ":"@);
        assert(occurs_at(name, ":"@, i));
        assert(name_base(name, strip_url) == name_base(name, cross));
    } else {
        assert(name_base(name, strip_url) == name_base(name, cross));
    }
    assert(name_hash(name, cross) == h);
}

/// The name that stands for a hidden one is taken for every name.
pub proof fn lemma_hidden_name_matches(name: Seq<char>)
    ensures
        same_name_text(hidden_name(), name),
        same_name_text(name, hidden_name()),
{
}

pub fn hash_filesize(size: u64) -> (r: String)
    ensures
        r@ == size_hash(size),
        r@.len() == 12,
{
    let digits = from_chars(&decimal_chars(size));
    let hex = sha256_hex_of(digits.as_str());
    first_twelve(hex.as_str())
}

// ---------------------------------------------------------------------------
// Privacy
// ---------------------------------------------------------------------------

/// The name that is sent for a file under a privacy mode.
pub open spec fn private_name(name: Option<Seq<char>>, mode: PrivacyMode) -> Option<Seq<char>> {
    match name {
        None => None,
        Some(n) => Some(
            match mode {
                PrivacyMode::SendRaw => n,
                PrivacyMode::SendHashed => name_hash(n, true),
                PrivacyMode::DoNotSend => hidden_name(),
            },
        ),
    }
}

/// The size that is sent for a file under a privacy mode.
pub open spec fn private_size(size: Option<u64>, mode: PrivacyMode) -> Option<FileSizeView> {
    match size {
        None => None,
        Some(n) => Some(
            match mode {
                PrivacyMode::SendRaw => FileSizeView::Number(n),
                PrivacyMode::SendHashed => FileSizeView::Text(size_hash(n)),
                PrivacyMode::DoNotSend => FileSizeView::Number(0),
            },
        ),
    }
}

pub fn apply_privacy(
    filename: Option<String>,
    filesize: Option<u64>,
    filename_mode: &PrivacyMode,
    filesize_mode: &PrivacyMode,
) -> (r: (Option<String>, Option<FileSizeInfo>))
    ensures
        opt_view(r.0) == private_name(opt_view(filename), *filename_mode),
        opt_view(r.1) == private_size(filesize, *filesize_mode),
{
    let name = match filename {
        Some(n) => match filename_mode {
            PrivacyMode::SendRaw => Some(n),
            PrivacyMode::SendHashed => Some(hash_filename(n.as_str(), true)),
            PrivacyMode::DoNotSend => Some(from_chars(&to_chars(PRIVACY_HIDDEN_FILENAME))),
        },
        None => None,
    };
    let size = match filesize {
        Some(n) => match filesize_mode {
            PrivacyMode::SendRaw => Some(FileSizeInfo::Number(n)),
            PrivacyMode::SendHashed => Some(FileSizeInfo::Text(hash_filesize(n))),
            PrivacyMode::DoNotSend => Some(FileSizeInfo::Number(0)),
        },
        None => None,
    };
    (name, size)
}

// ---------------------------------------------------------------------------
// Comparing
// ---------------------------------------------------------------------------

/// Two names stand for the same file: one of them is the hidden name, or they
/// agree but for the case of ASCII letters, or stripped, or one is the hash
/// of the other, or their hashes agree. Where exactly one of the two is a
/// URL, both are taken for URLs when they are stripped.
pub open spec fn same_name_text(a: Seq<char>, b: Seq<char>) -> bool {
    let cross = is_url_text(a) != is_url_text(b);
    a == hidden_name() || b == hidden_name() || eq_ignore_case(a, b) || stripped_name(a, cross)
        == stripped_name(b, cross) || stripped_name(a, cross) == name_hash(b, cross) || name_hash(
        a,
        cross,
    ) == stripped_name(b, cross) || name_hash(a, cross) == name_hash(b, cross)
}

pub open spec fn same_name(a: Option<Seq<char>>, b: Option<Seq<char>>) -> bool {
    match (a, b) {
        (Some(x), Some(y)) => same_name_text(x, y),
        _ => false,
    }
}

pub fn same_filename(a: Option<&str>, b: Option<&str>) -> (r: bool)
    ensures
        r == same_name(opt_view(a), opt_view(b)),
{
    let a = match a {
        Some(value) => value,
        None => {
            return false;
        },
    };
    let b = match b {
        Some(value) => value,
        None => {
            return false;
        },
    };
    let ac = to_chars(a);
    let bc = to_chars(b);
    let hidden = to_chars(PRIVACY_HIDDEN_FILENAME);
    if same_chars(&ac, &hidden) || same_chars(&bc, &hidden) {
        return true;
    }
    if same_ignore_case(&ac, &bc) {
        return true;
    }
    let cross = is_url(a) != is_url(b);
    let a_stripped = strip_filename(a, cross);
    let b_stripped = strip_filename(b, cross);
    if a_stripped == b_stripped {
        return true;
    }
    let a_hash = hash_filename(a, cross);
    let b_hash = hash_filename(b, cross);
    a_stripped == b_hash || a_hash == b_stripped || a_hash == b_hash
}

/// The text by which a size is compared when the numbers do not settle it.
pub open spec fn size_text(size: FileSizeView) -> Seq<char> {
    match size {
        FileSizeView::Number(n) => size_hash(n),
        FileSizeView::Text(t) => t,
    }
}

/// Two sizes stand for the same file: both are numbers and one is zero or
/// they are equal, or their hashes are equal and not empty.
pub open spec fn same_size(a: Option<FileSizeView>, b: Option<FileSizeView>) -> bool {
    match (a, b) {
        (Some(x), Some(y)) => {
            (match (x, y) {
                (FileSizeView::Number(m), FileSizeView::Number(n)) => m == 0 || n == 0 || m == n,
                _ => false,
            }) || (size_text(x).len() > 0 && size_text(y).len() > 0 && size_text(x) == size_text(
                y,
            ))
        },
        _ => false,
    }
}

fn size_as_text(size: &FileSizeInfo) -> (r: String)
    ensures
        r@ == size_text(size@),
{
    match size {
        FileSizeInfo::Number(n) => hash_filesize(*n),
        FileSizeInfo::Text(t) => t.clone(),
    }
}

pub fn same_filesize(a: Option<&FileSizeInfo>, b: Option<&FileSizeInfo>) -> (r: bool)
    ensures
        r == same_size(opt_view(a), opt_view(b)),
{
    let a = match a {
        Some(value) => value,
        None => {
            return false;
        },
    };
    let b = match b {
        Some(value) => value,
        None => {
            return false;
        },
    };
    match (a, b) {
        (FileSizeInfo::Number(m), FileSizeInfo::Number(n)) => {
            if *m == 0 || *n == 0 || *m == *n {
                return true;
            }
        },
        _ => {},
    }
    let a_hash = to_chars(size_as_text(a).as_str());
    let b_hash = to_chars(size_as_text(b).as_str());
    if a_hash.len() == 0 || b_hash.len() == 0 {
        return false;
    }
    same_chars(&a_hash, &b_hash)
}

// ---------------------------------------------------------------------------
// Player arguments, rooms
// ---------------------------------------------------------------------------

/// The arguments that a line of text gives a player: none for a blank line,
/// else its shell words, or its plain words where no shell would read it.
pub open spec fn player_arguments(value: Seq<char>) -> Seq<Seq<char>> {
    if trim(value).len() == 0 {
        Seq::empty()
    } else {
        match shell_words(value) {
            Some(w) => w,
            None => words(value),
        }
    }
}

pub fn parse_player_arguments(value: &str) -> (r: Vec<String>)
    ensures
        r.deep_view() == player_arguments(value@),
{
    let chars = to_chars(value);
    if is_blank(&chars) {
        let none: Vec<String> = Vec::new();
        assert(none.deep_view() =~= Seq::<Seq<char>>::empty());
        return none;
    }
    match shell_split(value) {
        Some(w) => w,
        None => to_strings(&split_words(&chars)),
    }
}

pub open spec fn is_password_char(c: char) -> bool {
    is_ascii_alnum(c) || c == '-'
}

pub open spec fn password_chars(s: Seq<char>) -> Seq<char>
    decreases s.len(),
{
    if s.len() == 0 {
        Seq::empty()
    } else if is_password_char(s.last()) {
        password_chars(s.drop_last()).push(s.last())
    } else {
        password_chars(s.drop_last())
    }
}

/// A control password as it is kept: its ASCII letters, digits and hyphens,
/// the letters in upper case.
pub open spec fn control_password(value: Seq<char>) -> Seq<char> {
    upper(password_chars(value))
}

fn control_password_chars(s: &Vec<char>) -> (r: Vec<char>)
    ensures
        r@ == control_password(s@),
{
    let mut kept: Vec<char> = Vec::new();
    let mut i: usize = 0;
    assert(s@.take(0) =~= Seq::<char>::empty());
    while i < s.len()
        invariant
            i <= s.len(),
            kept@ == password_chars(s@.take(i as int)),
        decreases s.len() - i,
    {
        let c = s[i];
        proof {
            assert(s@.take(i + 1).drop_last() =~= s@.take(i as int));
            assert(s@.take(i + 1).last() == c);
        }
        if ascii_alnum(c) || c == '-' {
            kept.push(c);
        }
        i = i + 1;
    }
    assert(s@.take(s.len() as int) =~= s@);
    to_upper(&kept)
}

pub fn strip_control_password(value: &str) -> (r: String)
    ensures
        r@ == control_password(value@),
{
    from_chars(&control_password_chars(&to_chars(value)))
}

/// A room name as it was typed, taken apart: the room, and the control
/// password where the text has the form `+name:hash:password`.
pub open spec fn room_and_password(room: Seq<char>) -> (Seq<char>, Option<Seq<char>>) {
    let parts = split(room, ':');
    if !(room.len() > 0 && room[0] == '+') || parts.len() < 3 {
        (room, None)
    } else {
        let password = control_password(parts[2]);
        (
            parts[0] + seq![':'] + parts[1],
            if password.len() == 0 {
                None
            } else {
                Some(password)
            },
        )
    }
}

pub fn parse_controlled_room_input(room: &str) -> (r: (String, Option<String>))
    ensures
        (r.0@, opt_view(r.1)) == room_and_password(room@),
{
    let chars = to_chars(room);
    if !(chars.len() > 0 && chars[0] == '+') {
        return (from_chars(&chars), None);
    }
    let parts = split_on(&chars, ':');
    if parts.len() < 3 {
        return (from_chars(&chars), None);
    }
    assert(views(parts@)[0] == parts@[0]@);
    assert(views(parts@)[1] == parts@[1]@);
    assert(views(parts@)[2] == parts@[2]@);
    let mut name: Vec<char> = Vec::new();
    append(&mut name, &parts[0]);
    name.push(':');
    append(&mut name, &parts[1]);
    assert(name@ =~= parts@[0]@ + seq![':'] + parts@[1]@);
    let password = control_password_chars(&parts[2]);
    let password = if password.len() == 0 {
        None
    } else {
        Some(from_chars(&password))
    };
    (from_chars(&name), password)
}

pub open spec fn is_room_hash_char(c: char) -> bool {
    is_ascii_alnum(c) || c == '_'
}

/// A room name of the form `+name:hash`, the hash of twelve ASCII letters,
/// digits or underscores.
pub open spec fn is_controlled_room_name(room: Seq<char>) -> bool {
    let parts = split(room, ':');
    room.len() > 0 && room[0] == '+' && parts.len() == 2 && parts[1].len() == 12 && forall|
        i: int,
    | 0 <= i < 12 ==> is_room_hash_char(#[trigger] parts[1][i])
}

fn all_room_hash_chars(hash: &Vec<char>) -> (r: bool)
    ensures
        r == (forall|i: int| 0 <= i < hash@.len() ==> is_room_hash_char(#[trigger] hash@[i])),
{
    let mut i: usize = 0;
    while i < hash.len()
        invariant
            i <= hash.len(),
            forall|j: int| 0 <= j < i ==> is_room_hash_char(#[trigger] hash@[j]),
        decreases hash.len() - i,
    {
        let c = hash[i];
        if !(ascii_alnum(c) || c == '_') {
            assert(!is_room_hash_char(hash@[i as int]));
            return false;
        }
        i = i + 1;
    }
    true
}

pub fn is_controlled_room(room: &str) -> (r: bool)
    ensures
        r == is_controlled_room_name(room@),
{
    let chars = to_chars(room);
    if !(chars.len() > 0 && chars[0] == '+') {
        return false;
    }
    let parts = split_on(&chars, ':');
    if parts.len() != 2 {
        return false;
    }
    assert(views(parts@)[1] == parts@[1]@);
    let hash = &parts[1];
    if hash.len() != 12 {
        return false;
    }
    all_room_hash_chars(hash)
}

// ---------------------------------------------------------------------------
// Versions
// ---------------------------------------------------------------------------

/// A text with a full stop in place of every character that is no digit.
pub open spec fn dotted(s: Seq<char>) -> Seq<char> {
    Seq::new(
        s.len(),
        |i: int|
            if is_digit(s[i]) {
                s[i]
            } else {
                '.'
            },
    )
}

/// The number that a part of a version denotes: what its digits say, or 0
/// where it is no string of digits or denotes more than `limit`.
pub open spec fn number_or_zero(part: Seq<char>, limit: nat) -> nat {
    if part.len() > 0 && all_digits(part) && digits_value(part) <= limit {
        digits_value(part)
    } else {
        0
    }
}

/// The numbers of a version, read from its runs of digits.
pub open spec fn version_numbers(version: Seq<char>) -> Seq<nat> {
    let parts = crate::text::drop_empty(split(dotted(version), '.'));
    Seq::new(parts.len(), |i: int| number_or_zero(parts[i], 0xffff_ffff))
}

pub open spec fn number_at(v: Seq<nat>, i: int) -> nat {
    if 0 <= i < v.len() {
        v[i]
    } else {
        0
    }
}

/// Version `a` is at least version `b`, compared number by number from index
/// `i` on, a missing number being 0.
pub open spec fn at_least_from(a: Seq<nat>, b: Seq<nat>, i: int) -> bool
    decreases a.len() + b.len() - i,
{
    if i < 0 || (i >= a.len() && i >= b.len()) {
        true
    } else if number_at(a, i) > number_at(b, i) {
        true
    } else if number_at(a, i) < number_at(b, i) {
        false
    } else {
        at_least_from(a, b, i + 1)
    }
}

pub open spec fn at_least(a: Seq<nat>, b: Seq<nat>) -> bool {
    at_least_from(a, b, 0)
}

fn parse_part(part: &Vec<char>) -> (r: u32)
    ensures
        r == number_or_zero(part@, 0xffff_ffff),
{
    if part.len() == 0 || !only_digits(part) {
        return 0;
    }
    match parse_digits(part, 0xffff_ffff) {
        Some(n) => n as u32,
        None => 0,
    }
}

fn version_parts(version: &str) -> (r: Vec<u32>)
    ensures
        r@.len() == version_numbers(version@).len(),
        forall|i: int| 0 <= i < r@.len() ==> r@[i] == version_numbers(version@)[i],
{
    let chars = to_chars(version);
    let mut d: Vec<char> = Vec::new();
    let mut i: usize = 0;
    while i < chars.len()
        invariant
            i <= chars.len(),
            d@.len() == i,
            forall|j: int| 0 <= j < i ==> d@[j] == dotted(chars@)[j],
        decreases chars.len() - i,
    {
        let c = chars[i];
        d.push(
            if digit(c) {
                c
            } else {
                '.'
            },
        );
        i = i + 1;
    }
    assert(d@ =~= dotted(chars@));
    let parts = crate::text::without_empty(split_on(&d, '.'));
    let mut r: Vec<u32> = Vec::new();
    let mut k: usize = 0;
    while k < parts.len()
        invariant
            k <= parts.len(),
            r@.len() == k,
            forall|j: int| 0 <= j < k ==> r@[j] == number_or_zero(parts@[j]@, 0xffff_ffff),
        decreases parts.len() - k,
    {
        r.push(parse_part(&parts[k]));
        k = k + 1;
    }
    assert forall|j: int| 0 <= j < r@.len() implies r@[j] == version_numbers(version@)[j] by {
        assert(views(parts@)[j] == parts@[j]@);
    }
    r
}

fn number_in(v: &Vec<u32>, i: usize) -> (r: u32)
    ensures
        r == (if i < v@.len() {
            v@[i as int]
        } else {
            0
        }),
{
    if i < v.len() {
        v[i]
    } else {
        0
    }
}

pub fn version_meets_min(version: &str, min_version: &str) -> (r: bool)
    ensures
        r == at_least(version_numbers(version@), version_numbers(min_version@)),
{
    let current = version_parts(version);
    let minimum = version_parts(min_version);
    let ghost a = version_numbers(version@);
    let ghost b = version_numbers(min_version@);
    let max_len = if current.len() > minimum.len() {
        current.len()
    } else {
        minimum.len()
    };
    let mut idx: usize = 0;
    while idx < max_len
        invariant
            idx <= max_len,
            max_len >= current.len(),
            max_len >= minimum.len(),
            max_len == current.len() || max_len == minimum.len(),
            a.len() == current@.len(),
            b.len() == minimum@.len(),
            forall|i: int| 0 <= i < a.len() ==> current@[i] == a[i],
            forall|i: int| 0 <= i < b.len() ==> minimum@[i] == b[i],
            a == version_numbers(version@),
            b == version_numbers(min_version@),
            at_least(a, b) == at_least_from(a, b, idx as int),
        decreases max_len - idx,
    {
        let x = number_in(&current, idx);
        let y = number_in(&minimum, idx);
        assert(x == number_at(a, idx as int));
        assert(y == number_at(b, idx as int));
        if x > y {
            return true;
        }
        if x < y {
            return false;
        }
        idx = idx + 1;
    }
    true
}

} // verus!
