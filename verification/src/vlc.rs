//! VLC: the lines of its scripted interface, and how files are named to it.
use crate::bridge::{percent_decode, percent_decoded, random_in_range};
use crate::mpv::{is_url, is_web_address};
use crate::properties::{PlayerState, PlayerStateView};
use crate::text::{
    all_digits, contains_sub, copy_str, digits_value, find, find_sub, from_chars, has_prefix,
    has_sub, lemma_find_sub, lower, occurs_at, only_digits, parse_digits, parse_thousandths,
    replace, replaced, same_chars, slice, split, split_on, starts_with, thousandths, to_chars,
    to_lower, trim, trimmed, views,
};
use crate::time::{add_ms, elapsed, elapsed_ms, sat_add, sub_ms};
use vstd::prelude::*;
use vstd::string::StringSliceAdditionalSpecFns;
use vstd::utf8::encode_utf8;

verus! {

pub const VLC_MIN_VERSION: &'static str = "2.2.1";

pub const VLC_INTERFACE_VERSION: &'static str = "0.3.7";

/// How long the client waits for VLC to open its port, in milliseconds.
pub const VLC_OPEN_MAX_WAIT_TIME: u64 = 20000;

pub const VLC_MIN_PORT: u16 = 10000;

pub const VLC_MAX_PORT: u16 = 55000;

/// How old a position may be before it counts as late, in milliseconds.
pub const VLC_LATENCY_ERROR_THRESHOLD: u64 = 2000;

/// The port on which VLC is told to listen: any from 10000 to 55000.
pub fn pick_vlc_port() -> (port: u16)
    ensures
        VLC_MIN_PORT <= port <= VLC_MAX_PORT,
{
    random_in_range(VLC_MIN_PORT, VLC_MAX_PORT)
}

/// The command and the argument of a line: what stands before and after the
/// first `: `, or the first `:` where there is no `: `, both trimmed; a line
/// without a colon is all command.
pub open spec fn line_parts(line: Seq<char>) -> (Seq<char>, Seq<char>) {
    let wide = find_sub(line, ": "@);
    let narrow = find_sub(line, ":"@);
    if wide >= 0 {
        (trim(line.take(wide)), trim(line.skip(wide + 2)))
    } else if narrow >= 0 {
        (trim(line.take(narrow)), trim(line.skip(narrow + 1)))
    } else {
        (trim(line), Seq::empty())
    }
}

fn cut_at(l: &Vec<char>, sep: &Vec<char>) -> (r: Option<(Vec<char>, Vec<char>)>)
    requires
        sep@.len() > 0,
    ensures
        match r {
            Some((a, b)) => find_sub(l@, sep@) >= 0 && a@ == trim(l@.take(find_sub(l@, sep@)))
                && b@ == trim(l@.skip(find_sub(l@, sep@) + sep@.len())),
            None => find_sub(l@, sep@) < 0,
        },
{
    proof {
        lemma_find_sub(l@, sep@);
    }
    let n = sep.len();
    match find(l, sep) {
        Some(cut) => {
            assert(occurs_at(l@, sep@, cut as int));
            assert(cut + n <= l.len());
            let a = slice(l, 0, cut);
            let b = slice(l, cut + n, l.len());
            assert(a@ =~= l@.take(cut as int));
            assert(b@ =~= l@.skip(cut + n));
            Some((trimmed(&a), trimmed(&b)))
        },
        None => None,
    }
}

pub fn parse_line(line: &str) -> (r: (String, String))
    ensures
        (r.0@, r.1@) == line_parts(line@),
{
    let l = to_chars(line);
    proof {
        reveal_strlit(": ");
        reveal_strlit(":");
    }
    match cut_at(&l, &to_chars(": ")) {
        Some((a, b)) => {
            return (from_chars(&a), from_chars(&b));
        },
        None => {},
    }
    match cut_at(&l, &to_chars(":")) {
        Some((a, b)) => {
            return (from_chars(&a), from_chars(&b));
        },
        None => {},
    }
    (from_chars(&trimmed(&l)), String::new())
}

/// A number as VLC writes it, with a comma or a full stop before its
/// decimals, in thousandths.
pub open spec fn vlc_number(text: Seq<char>) -> Option<i64> {
    match thousandths(replace(text, ","@, "."@)) {
        Some(n) => Some(n as i64),
        None => None,
    }
}

fn read_number(text: &Vec<char>) -> (r: Option<i64>)
    ensures
        r == vlc_number(text@),
{
    proof {
        reveal_strlit(",");
    }
    let t = replaced(text, &to_chars(","), &to_chars("."));
    parse_thousandths(from_chars(&t).as_str())
}

/// A text without `file://` at its start, however often it stands there.
pub open spec fn without_file_scheme(s: Seq<char>) -> Seq<char>
    decreases s.len(),
{
    if starts_with(s, "file://"@) && "file://"@.len() == 7 {
        without_file_scheme(s.skip(7))
    } else {
        s
    }
}

/// How many slashes stand at the start of a text.
pub open spec fn leading_slashes(s: Seq<char>) -> int
    decreases s.len(),
{
    if s.len() > 0 && s[0] == '/' {
        1 + leading_slashes(s.drop_first())
    } else {
        0
    }
}

fn strip_file_scheme(s: &Vec<char>) -> (r: Vec<char>)
    ensures
        r@ == without_file_scheme(s@),
{
    let mark = to_chars("file://");
    proof {
        reveal_strlit("file://");
    }
    let mut i: usize = 0;
    assert(s@.skip(0) =~= s@);
    while s.len() - i >= 7 && crate::text::matches_at(s, &mark, i)
        invariant
            i <= s.len(),
            mark@ == "file://"@,
            mark@.len() == 7,
            without_file_scheme(s@) == without_file_scheme(s@.skip(i as int)),
        decreases s.len() - i,
    {
        proof {
            let rest = s@.skip(i as int);
            assert(rest.subrange(0, 7) =~= s@.subrange(i as int, i + 7));
            assert(starts_with(rest, mark@));
            assert(rest.skip(7) =~= s@.skip(i + 7));
        }
        i = i + 7;
    }
    proof {
        let rest = s@.skip(i as int);
        if rest.len() >= 7 {
            assert(rest.subrange(0, 7) =~= s@.subrange(i as int, i + 7));
        }
        assert(!starts_with(rest, mark@));
    }
    let r = slice(s, i, s.len());
    assert(r@ =~= s@.skip(i as int));
    r
}

proof fn lemma_leading_slashes(s: Seq<char>, n: int)
    requires
        0 <= n <= s.len(),
        forall|i: int| 0 <= i < n ==> s[i] == '/',
        n < s.len() ==> s[n] != '/',
    ensures
        leading_slashes(s) == n,
    decreases s.len(),
{
    if n > 0 {
        let t = s.drop_first();
        assert forall|i: int| 0 <= i < n - 1 implies t[i] == '/' by {
            assert(t[i] == s[i + 1]);
        }
        if n - 1 < t.len() {
            assert(t[n - 1] == s[n]);
        }
        lemma_leading_slashes(t, n - 1);
    }
}

fn strip_slashes(s: &Vec<char>) -> (r: Vec<char>)
    ensures
        r@ == s@.skip(leading_slashes(s@)),
{
    let mut a: usize = 0;
    while a < s.len() && s[a] == '/'
        invariant
            a <= s.len(),
            forall|i: int| 0 <= i < a ==> s@[i] == '/',
        decreases s.len() - a,
    {
        a = a + 1;
    }
    proof {
        lemma_leading_slashes(s@, a as int);
    }
    let r = slice(s, a, s.len());
    assert(r@ =~= s@.skip(a as int));
    r
}

/// What VLC tells of the path of its file.
#[derive(Debug)]
pub enum FilePath {
    /// There is no file.
    NoInput,
    /// A file on this machine: its path, and the path to take where nothing
    /// lies at the first.
    Local { path: String, fallback: String },
    /// Anything else: a web address with its escapes resolved, or the text
    /// as it came.
    Other(String),
}

pub enum FilePathView {
    NoInput,
    Local { path: Seq<char>, fallback: Seq<char> },
    Other(Seq<char>),
}

impl View for FilePath {
    type V = FilePathView;

    open spec fn view(&self) -> FilePathView {
        match self {
            FilePath::NoInput => FilePathView::NoInput,
            FilePath::Local { path, fallback } => FilePathView::Local {
                path: path@,
                fallback: fallback@,
            },
            FilePath::Other(p) => FilePathView::Other(p@),
        }
    }
}

pub open spec fn file_path(argument: Seq<char>) -> FilePathView {
    if argument == "no-input"@ {
        FilePathView::NoInput
    } else if starts_with(argument, "file://"@) {
        FilePathView::Local {
            path: without_file_scheme(argument),
            fallback: without_file_scheme(argument).skip(
                leading_slashes(without_file_scheme(argument)),
            ),
        }
    } else if is_web_address(argument) {
        FilePathView::Other(
            match percent_decoded(argument) {
                Some(d) => d,
                None => argument,
            },
        )
    } else {
        FilePathView::Other(argument)
    }
}

pub fn read_file_path(argument: &str) -> (r: FilePath)
    ensures
        r@ == file_path(argument@),
{
    let a = to_chars(argument);
    if same_chars(&a, &to_chars("no-input")) {
        return FilePath::NoInput;
    }
    if has_prefix(&a, &to_chars("file://")) {
        let path = strip_file_scheme(&a);
        let fallback = strip_slashes(&path);
        return FilePath::Local { path: from_chars(&path), fallback: from_chars(&fallback) };
    }
    if is_url(argument) {
        return match percent_decode(argument) {
            Some(d) => FilePath::Other(d),
            None => FilePath::Other(copy_str(argument)),
        };
    }
    FilePath::Other(copy_str(argument))
}

/// What a line of VLC asks for beyond a change of the state.
#[derive(Debug)]
pub enum VlcEvent {
    /// Nothing.
    Nothing,
    /// Ask for duration, path and name of the file.
    RequestFileInfo,
    /// The position was told.
    Positioned,
    /// The path of the file was told.
    Path(FilePath),
    /// The version was told: whether it is new enough.
    Version { sufficient: bool },
}

pub enum VlcEventView {
    Nothing,
    RequestFileInfo,
    Positioned,
    Path(FilePathView),
    Version { sufficient: bool },
}

impl View for VlcEvent {
    type V = VlcEventView;

    open spec fn view(&self) -> VlcEventView {
        match self {
            VlcEvent::Nothing => VlcEventView::Nothing,
            VlcEvent::RequestFileInfo => VlcEventView::RequestFileInfo,
            VlcEvent::Positioned => VlcEventView::Positioned,
            VlcEvent::Path(p) => VlcEventView::Path(p@),
            VlcEvent::Version { sufficient } => VlcEventView::Version { sufficient: *sufficient },
        }
    }
}

/// The state after a line of VLC.
pub open spec fn line_state(ps: PlayerStateView, line: Seq<char>) -> PlayerStateView {
    let command = line_parts(line).0;
    let argument = line_parts(line).1;
    if line == "filepath-change-notification"@ {
        ps
    } else if command == "playstate"@ {
        if argument.len() > 0 {
            PlayerStateView { paused: Some(argument != "playing"@), ..ps }
        } else {
            ps
        }
    } else if command == "position"@ {
        if argument == "no-input"@ {
            PlayerStateView { position: None, ..ps }
        } else {
            match vlc_number(argument) {
                Some(p) => PlayerStateView { position: Some(p), ..ps },
                None => ps,
            }
        }
    } else if command == "duration"@ || command == "duration-change"@ {
        if argument == "no-input"@ || argument == "invalid-32-bit-value"@ {
            PlayerStateView { duration: None, ..ps }
        } else {
            match vlc_number(argument) {
                Some(d) => PlayerStateView { duration: Some(d), ..ps },
                None => ps,
            }
        }
    } else if command == "filepath"@ {
        if argument == "no-input"@ {
            PlayerStateView { path: None, ..ps }
        } else {
            ps
        }
    } else if command == "filename"@ {
        if argument != "no-input"@ {
            PlayerStateView { filename: Some(argument), ..ps }
        } else {
            ps
        }
    } else if command == "inputstate-change"@ {
        if argument == "no-input"@ {
            PlayerStateView { path: None, filename: None, duration: None, position: None, ..ps }
        } else {
            ps
        }
    } else {
        ps
    }
}

/// What a line of VLC asks for.
pub open spec fn line_event(line: Seq<char>) -> VlcEventView {
    let command = line_parts(line).0;
    let argument = line_parts(line).1;
    if line == "filepath-change-notification"@ {
        VlcEventView::RequestFileInfo
    } else if command == "playstate"@ {
        VlcEventView::Nothing
    } else if command == "position"@ {
        if argument != "no-input"@ && vlc_number(argument).is_some() {
            VlcEventView::Positioned
        } else {
            VlcEventView::Nothing
        }
    } else if command == "duration"@ || command == "duration-change"@ {
        VlcEventView::Nothing
    } else if command == "filepath"@ {
        if argument == "no-input"@ {
            VlcEventView::Nothing
        } else {
            VlcEventView::Path(file_path(argument))
        }
    } else if command == "filename"@ || command == "inputstate-change"@ {
        VlcEventView::Nothing
    } else if command == "vlc-version"@ {
        VlcEventView::Version { sufficient: version_sufficient(argument, "2.2.1"@) }
    } else {
        VlcEventView::Nothing
    }
}

fn reads(s: &Vec<char>, word: &str) -> (r: bool)
    ensures
        r == (s@ == word@),
{
    same_chars(s, &to_chars(word))
}

/// Takes a line of VLC: notes what it tells of the player, and gives what
/// it asks for. The path of a file is given back and not noted, because
/// which path holds depends on what lies on the disk.
pub fn handle_line(state: &mut PlayerState, line: &str) -> (r: VlcEvent)
    ensures
        final(state)@ == line_state(old(state)@, line@),
        r@ == line_event(line@),
{
    proof {
        reveal_strlit("playstate");
        reveal_strlit("position");
        reveal_strlit("duration");
        reveal_strlit("duration-change");
        reveal_strlit("filepath");
        reveal_strlit("filename");
        reveal_strlit("inputstate-change");
        reveal_strlit("vlc-version");
    }
    if reads(&to_chars(line), "filepath-change-notification") {
        return VlcEvent::RequestFileInfo;
    }
    let (c, a) = parse_line(line);
    let command = to_chars(c.as_str());
    let argument = to_chars(a.as_str());
    if reads(&command, "playstate") {
        if argument.len() > 0 {
            state.paused = Some(!reads(&argument, "playing"));
        }
        VlcEvent::Nothing
    } else if reads(&command, "position") {
        if reads(&argument, "no-input") {
            state.position = None;
            VlcEvent::Nothing
        } else {
            match read_number(&argument) {
                Some(p) => {
                    state.position = Some(p);
                    VlcEvent::Positioned
                },
                None => VlcEvent::Nothing,
            }
        }
    } else if reads(&command, "duration") || reads(&command, "duration-change") {
        if reads(&argument, "no-input") || reads(&argument, "invalid-32-bit-value") {
            state.duration = None;
        } else {
            match read_number(&argument) {
                Some(d) => {
                    state.duration = Some(d);
                },
                None => {},
            }
        }
        VlcEvent::Nothing
    } else if reads(&command, "filepath") {
        if reads(&argument, "no-input") {
            state.path = None;
            VlcEvent::Nothing
        } else {
            VlcEvent::Path(read_file_path(a.as_str()))
        }
    } else if reads(&command, "filename") {
        if !reads(&argument, "no-input") {
            state.filename = Some(a);
        }
        VlcEvent::Nothing
    } else if reads(&command, "inputstate-change") {
        if reads(&argument, "no-input") {
            state.path = None;
            state.filename = None;
            state.duration = None;
            state.position = None;
        }
        VlcEvent::Nothing
    } else if reads(&command, "vlc-version") {
        VlcEvent::Version { sufficient: meets_min_version(a.as_str(), VLC_MIN_VERSION) }
    } else {
        VlcEvent::Nothing
    }
}

/// The number that a part of a version denotes: digits with `+` or `-`
/// before them or not, denoting a number that 32 bits with a sign hold;
/// anything else counts as 0.
pub open spec fn signed_or_zero(part: Seq<char>) -> int {
    let negative = part.len() > 0 && part[0] == '-';
    let digits = if part.len() > 0 && (part[0] == '-' || part[0] == '+') {
        part.skip(1)
    } else {
        part
    };
    if digits.len() > 0 && all_digits(digits) && digits_value(digits) <= (if negative {
        0x8000_0000int
    } else {
        0x7fff_ffffint
    }) {
        if negative {
            -(digits_value(digits) as int)
        } else {
            digits_value(digits) as int
        }
    } else {
        0
    }
}

pub open spec fn signed_at(parts: Seq<Seq<char>>, i: int) -> int {
    if 0 <= i < parts.len() {
        signed_or_zero(parts[i])
    } else {
        0
    }
}

/// A version is at least another, compared part by part from index `i` on,
/// a missing part being 0.
pub open spec fn sufficient_from(v: Seq<Seq<char>>, m: Seq<Seq<char>>, i: int) -> bool
    decreases v.len() + m.len() - i,
{
    if i < 0 || (i >= v.len() && i >= m.len()) {
        true
    } else if signed_at(v, i) > signed_at(m, i) {
        true
    } else if signed_at(v, i) < signed_at(m, i) {
        false
    } else {
        sufficient_from(v, m, i + 1)
    }
}

/// A version is at least another: their parts between the full stops are
/// compared as numbers, the first difference deciding.
pub open spec fn version_sufficient(version: Seq<char>, min: Seq<char>) -> bool {
    sufficient_from(split(version, '.'), split(min, '.'), 0)
}

fn parse_signed(part: &Vec<char>) -> (r: i64)
    ensures
        r == signed_or_zero(part@),
{
    let negative = part.len() > 0 && part[0] == '-';
    let digits = if part.len() > 0 && (part[0] == '-' || part[0] == '+') {
        let d = slice(part, 1, part.len());
        assert(d@ =~= part@.skip(1));
        d
    } else {
        slice(part, 0, part.len())
    };
    assert(digits@ =~= (if part@.len() > 0 && (part@[0] == '-' || part@[0] == '+') {
        part@.skip(1)
    } else {
        part@
    }));
    if digits.len() == 0 || !only_digits(&digits) {
        return 0;
    }
    let limit: u64 = if negative {
        0x8000_0000
    } else {
        0x7fff_ffff
    };
    match parse_digits(&digits, limit) {
        Some(n) => if negative {
            -(n as i64)
        } else {
            n as i64
        },
        None => 0,
    }
}

fn part_at(parts: &Vec<Vec<char>>, i: usize) -> (r: i64)
    ensures
        r == signed_at(views(parts@), i as int),
{
    if i < parts.len() {
        assert(views(parts@)[i as int] == parts@[i as int]@);
        parse_signed(&parts[i])
    } else {
        0
    }
}

pub fn meets_min_version(version: &str, min: &str) -> (r: bool)
    ensures
        r == version_sufficient(version@, min@),
{
    let v = split_on(&to_chars(version), '.');
    let m = split_on(&to_chars(min), '.');
    let ghost vv = views(v@);
    let ghost mv = views(m@);
    let max_len = if v.len() > m.len() {
        v.len()
    } else {
        m.len()
    };
    let mut idx: usize = 0;
    while idx < max_len
        invariant
            idx <= max_len,
            max_len == v.len() || max_len == m.len(),
            max_len >= v.len(),
            max_len >= m.len(),
            vv == views(v@),
            mv == views(m@),
            vv == split(version@, '.'),
            mv == split(min@, '.'),
            version_sufficient(version@, min@) == sufficient_from(vv, mv, idx as int),
        decreases max_len - idx,
    {
        let a = part_at(&v, idx);
        let b = part_at(&m, idx);
        if a > b {
            return true;
        }
        if a < b {
            return false;
        }
        idx = idx + 1;
    }
    true
}

pub fn is_ascii_path(path: &str) -> (r: bool)
    ensures
        r == path.is_ascii(),
{
    path.is_ascii()
}

pub open spec fn hex_digit(n: int) -> char {
    if n < 10 {
        ((n + 48) as u32) as char
    } else {
        ((n + 55) as u32) as char
    }
}

/// Whether a byte stands for itself in an address: an ASCII letter or
/// digit, `-`, `_`, `.`, or one of the bytes that count as safe.
pub open spec fn stands_for_itself(b: u8, safe: Seq<u8>) -> bool {
    (48 <= b <= 57) || (65 <= b <= 90) || (97 <= b <= 122) || b == 45 || b == 95 || b == 46
        || safe.contains(b)
}

pub open spec fn byte_encoded(b: u8, safe: Seq<u8>) -> Seq<char> {
    if stands_for_itself(b, safe) {
        seq![(b as u32) as char]
    } else if b == 32 {
        seq!['%', '2', '0']
    } else {
        seq!['%', hex_digit(b as int / 16), hex_digit(b as int % 16)]
    }
}

/// Bytes written for an address: each byte for itself or as `%` and its
/// two hexadecimal digits.
pub open spec fn bytes_encoded(bytes: Seq<u8>, safe: Seq<u8>) -> Seq<char>
    decreases bytes.len(),
{
    if bytes.len() == 0 {
        Seq::empty()
    } else {
        bytes_encoded(bytes.drop_last(), safe) + byte_encoded(bytes.last(), safe)
    }
}

fn in_safe(b: u8, safe: &[u8]) -> (r: bool)
    ensures
        r == safe@.contains(b),
{
    let mut i: usize = 0;
    while i < safe.len()
        invariant
            i <= safe.len(),
            forall|j: int| 0 <= j < i ==> safe@[j] != b,
        decreases safe.len() - i,
    {
        if safe[i] == b {
            return true;
        }
        i = i + 1;
    }
    false
}

fn hex_char(n: u8) -> (c: char)
    requires
        n < 16,
    ensures
        c == hex_digit(n as int),
{
    if n < 10 {
        (n + 48) as char
    } else {
        (n + 55) as char
    }
}

fn encode_bytes(bytes: &[u8], safe: &[u8]) -> (r: Vec<char>)
    ensures
        r@ == bytes_encoded(bytes@, safe@),
{
    let mut out: Vec<char> = Vec::new();
    let mut i: usize = 0;
    assert(bytes@.take(0) =~= Seq::<u8>::empty());
    while i < bytes.len()
        invariant
            i <= bytes.len(),
            out@ == bytes_encoded(bytes@.take(i as int), safe@),
        decreases bytes.len() - i,
    {
        let c = bytes[i];
        proof {
            assert(bytes@.take(i + 1).drop_last() =~= bytes@.take(i as int));
            assert(bytes@.take(i + 1).last() == c);
        }
        let ghost before = out@;
        if (c >= 48 && c <= 57) || (c >= 65 && c <= 90) || (c >= 97 && c <= 122) || c == 45 || c
            == 95 || c == 46 || in_safe(c, safe) {
            out.push(c as char);
            assert(out@ =~= before + byte_encoded(c, safe@));
        } else if c == 32 {
            out.push('%');
            out.push('2');
            out.push('0');
            assert(out@ =~= before + byte_encoded(c, safe@));
        } else {
            out.push('%');
            out.push(hex_char(c / 16));
            out.push(hex_char(c % 16));
            assert(out@ =~= before + byte_encoded(c, safe@));
        }
        i = i + 1;
    }
    assert(bytes@.take(bytes.len() as int) =~= bytes@);
    out
}

pub fn encode_with_safe(input: &str, safe: &[u8]) -> (r: String)
    ensures
        r@ == bytes_encoded(encode_utf8(input@), safe@),
{
    from_chars(&encode_bytes(input.as_bytes(), safe))
}

/// The bytes that stand for themselves in a web address.
pub open spec fn url_safe() -> Seq<u8> {
    seq![58u8, 47, 63, 38, 61, 35, 43, 33, 36, 44, 59, 39, 64, 40, 41, 42, 37, 126]
}

fn url_safe_bytes() -> (r: Vec<u8>)
    ensures
        r@ == url_safe(),
{
    let mut v: Vec<u8> = Vec::new();
    v.push(58);
    v.push(47);
    v.push(63);
    v.push(38);
    v.push(61);
    v.push(35);
    v.push(43);
    v.push(33);
    v.push(36);
    v.push(44);
    v.push(59);
    v.push(39);
    v.push(64);
    v.push(40);
    v.push(41);
    v.push(42);
    v.push(37);
    v.push(126);
    assert(v@ =~= url_safe());
    v
}

fn path_safe_bytes() -> (r: Vec<u8>)
    ensures
        r@ == seq![47u8, 58],
{
    let mut v: Vec<u8> = Vec::new();
    v.push(47);
    v.push(58);
    assert(v@ =~= seq![47u8, 58]);
    v
}

/// The media resource locator by which a file is named to VLC: a web
/// address with its unsafe bytes escaped, or `file://` and the path with
/// slashes for backslashes and its unsafe bytes escaped; on Windows a third
/// slash follows `file://`.
pub open spec fn mrl(path: Seq<char>, windows: bool) -> Seq<char> {
    if is_web_address(path) {
        bytes_encoded(encode_utf8(path), url_safe())
    } else {
        (if windows {
            "file:///"@
        } else {
            "file://"@
        }) + bytes_encoded(encode_utf8(replace(path, "\\"@, "/"@)), seq![47u8, 58])
    }
}

pub fn build_mrl(path: &str, windows: bool) -> (r: String)
    ensures
        r@ == mrl(path@, windows),
{
    if is_url(path) {
        return encode_with_safe(path, url_safe_bytes().as_slice());
    }
    proof {
        reveal_strlit("\\");
    }
    let value = from_chars(&replaced(&to_chars(path), &to_chars("\\"), &to_chars("/")));
    let encoded = encode_with_safe(value.as_str(), path_safe_bytes().as_slice());
    if windows {
        crate::text::text2("file:///", encoded.as_str())
    } else {
        crate::text::text2("file://", encoded.as_str())
    }
}

/// The arguments that VLC gets besides those of the interface: on macOS
/// those for its log, elsewhere those that keep it from joining a VLC that
/// runs already, but none of these for the portable VLC.
pub open spec fn extra_args(player_path: Seq<char>, macos: bool) -> Seq<Seq<char>> {
    if macos {
        seq!["--verbose=2"@, "--no-file-logging"@]
    } else if contains_sub(lower(player_path), "vlcportable.exe"@) {
        Seq::empty()
    } else {
        seq!["--no-one-instance"@, "--no-one-instance-when-started-from-file"@]
    }
}

pub fn build_vlc_extra_args(player_path: &str, macos: bool) -> (r: Vec<String>)
    ensures
        r.deep_view() == extra_args(player_path@, macos),
{
    let mut r: Vec<String> = Vec::new();
    if macos {
        r.push(copy_str("--verbose=2"));
        r.push(copy_str("--no-file-logging"));
        assert(r.deep_view() =~= extra_args(player_path@, macos));
    } else if has_sub(&to_lower(&to_chars(player_path)), &to_chars("vlcportable.exe")) {
        assert(r.deep_view() =~= extra_args(player_path@, macos));
    } else {
        r.push(copy_str("--no-one-instance"));
        r.push(copy_str("--no-one-instance-when-started-from-file"));
        assert(r.deep_view() =~= extra_args(player_path@, macos));
    }
    r
}

/// The state of VLC as the client takes it: the position moved on by the
/// time since it was told, where VLC plays and that time is more than a
/// tenth of a second; and paused where VLC stands within two seconds of
/// the end of a file of more than ten and has told nothing for two seconds.
pub open spec fn effective_state(ps: PlayerStateView, last_update: Option<u64>, now: u64) -> PlayerStateView {
    let late = match last_update {
        Some(t) => elapsed(now, t),
        None => 0,
    };
    let playing = ps.paused == Some(false);
    PlayerStateView {
        position: match (ps.position, last_update) {
            (Some(p), Some(t)) => if playing && late > 100 {
                Some(sat_add(p as int, crate::mpv::clamp_elapsed(now, t)) as i64)
            } else {
                ps.position
            },
            _ => ps.position,
        },
        paused: match (ps.duration, ps.position, last_update) {
            (Some(d), Some(p), Some(t)) => if playing && d > 10000 && crate::time::sat_sub(
                d as int,
                p as int,
            ) < 2000 && late > VLC_LATENCY_ERROR_THRESHOLD {
                Some(true)
            } else {
                ps.paused
            },
            _ => ps.paused,
        },
        ..ps
    }
}

pub fn get_state(ps: &PlayerState, last_update: Option<u64>, now: u64) -> (r: PlayerState)
    ensures
        r@ == effective_state(ps@, last_update, now),
{
    let mut snapshot = ps.clone();
    let playing = match ps.paused {
        Some(p) => !p,
        None => false,
    };
    match (ps.position, last_update) {
        (Some(p), Some(t)) => {
            let diff = elapsed_ms(now, t);
            if playing && diff > 100 {
                let d: i64 = if diff > i64::MAX as u64 {
                    i64::MAX
                } else {
                    diff as i64
                };
                snapshot.position = Some(add_ms(p, d));
            }
        },
        _ => {},
    }
    match (ps.duration, ps.position, last_update) {
        (Some(d), Some(p), Some(t)) => {
            if playing && d > 10000 && sub_ms(d, p) < 2000 && elapsed_ms(now, t)
                > VLC_LATENCY_ERROR_THRESHOLD {
                snapshot.paused = Some(true);
            }
        },
        _ => {},
    }
    snapshot
}

// ---------------------------------------------------------------------------
// What the client tells VLC
// ---------------------------------------------------------------------------

/// The line that moves VLC to a position, given in milliseconds and written
/// in seconds.
pub fn set_position_line(position: i64) -> (r: String)
    ensures
        r@ == "set-position: "@ + crate::text::thousandths_text(position as int),
{
    crate::text::text2("set-position: ", crate::text::format_thousandths(position).as_str())
}

/// The line that pauses VLC or lets it play.
pub fn set_paused_line(paused: bool) -> (r: String)
    ensures
        r@ == "set-playstate: "@ + (if paused {
            "paused"@
        } else {
            "playing"@
        }),
{
    crate::text::text2(
        "set-playstate: ",
        if paused {
            "paused"
        } else {
            "playing"
        },
    )
}

/// A number of thousandths in hundredths, halves rounded away from 0, as a
/// numeral with two digits after the point.
pub open spec fn hundredths_text(n: int) -> Seq<char> {
    let h = (crate::time::magnitude(n) + 5) / 10;
    (if n < 0 && h > 0 {
        seq!['-']
    } else {
        Seq::empty()
    }) + crate::text::decimal((h / 100) as nat) + seq!['.'] + crate::time::two_digits(
        (h % 100) as nat,
    )
}

/// The line that sets the speed of VLC, given in thousandths of the normal
/// speed and written with two digits after the point.
pub fn set_speed_line(speed: i64) -> (r: String)
    ensures
        r@ == "set-rate: "@ + hundredths_text(speed as int),
{
    let m: u64 = if speed < 0 {
        (-(speed as i128)) as u64
    } else {
        speed as u64
    };
    let h: u64 = (m + 5) / 10;
    let mut out: Vec<char> = to_chars("set-rate: ");
    let ghost head = out@;
    if speed < 0 && h > 0 {
        out.push('-');
    }
    crate::text::push_decimal(&mut out, h / 100);
    out.push('.');
    if h % 100 < 10 {
        out.push('0');
    }
    crate::text::push_decimal(&mut out, h % 100);
    assert(out@ =~= head + hundredths_text(speed as int));
    from_chars(&out)
}

/// What VLC is told to open: a path of plain letters as it stands, any
/// other path and every web address as a locator.
pub open spec fn file_to_load(path: Seq<char>, ascii: bool, windows: bool) -> Seq<char> {
    if ascii && !is_web_address(path) {
        path
    } else {
        mrl(path, windows)
    }
}

/// The line that makes VLC open a file.
pub fn load_file_line(path: &str, windows: bool) -> (r: String)
    ensures
        r@ == "load-file: "@ + file_to_load(path@, path.is_ascii(), windows),
{
    if is_ascii_path(path) && !is_url(path) {
        crate::text::text2("load-file: ", path)
    } else {
        crate::text::text2("load-file: ", build_mrl(path, windows).as_str())
    }
}

/// How long VLC shows a text, in milliseconds: the time that is asked
/// for, three seconds where none is.
pub open spec fn osd_time(duration_ms: Option<u64>) -> int {
    match duration_ms {
        Some(d) => if d > i64::MAX {
            i64::MAX as int
        } else {
            d as int
        },
        None => 3000,
    }
}

/// The line that makes VLC show a text over the picture: at the top right,
/// for a time written in seconds, double quotes made single.
pub fn show_osd_line(text: &str, duration_ms: Option<u64>) -> (r: String)
    ensures
        r@ == "display-osd: top-right, "@ + crate::text::thousandths_text(osd_time(duration_ms))
            + ", "@ + replace(text@, "\""@, "'"@),
{
    proof {
        reveal_strlit("\"");
    }
    let d: i64 = match duration_ms {
        Some(d) => if d > 0x7fff_ffff_ffff_ffff {
            0x7fff_ffff_ffff_ffff
        } else {
            d as i64
        },
        None => 3000,
    };
    let mut out: Vec<char> = to_chars("display-osd: top-right, ");
    let ghost head = out@;
    crate::text::append(&mut out, &to_chars(crate::text::format_thousandths(d).as_str()));
    crate::text::append(&mut out, &to_chars(", "));
    let message = replaced(&to_chars(text), &to_chars("\""), &to_chars("'"));
    crate::text::append(&mut out, &message);
    assert(out@ =~= head + crate::text::thousandths_text(osd_time(duration_ms)) + ", "@ + replace(
        text@,
        "\""@,
        "'"@,
    ));
    from_chars(&out)
}

// ---------------------------------------------------------------------------
// The start of VLC
// ---------------------------------------------------------------------------

/// The line that asks VLC where it is and whether it plays.
pub const REQUEST_STATUS: &'static str = ".";

/// The line that asks VLC for its version.
pub const REQUEST_VERSION: &'static str = "get-vlc-version";

/// The line that ends VLC.
pub const CLOSE_VLC: &'static str = "close-vlc";

/// How long the client waits before it tries again to reach VLC, in
/// milliseconds.
pub const VLC_RETRY_WAIT: u64 = 300;

/// The lines that ask VLC for what it knows of its file.
pub fn file_info_requests() -> (r: Vec<String>)
    ensures
        r.deep_view() == seq!["get-duration"@, "get-filepath"@, "get-filename"@],
{
    let mut r: Vec<String> = Vec::new();
    r.push(copy_str("get-duration"));
    r.push(copy_str("get-filepath"));
    r.push(copy_str("get-filename"));
    assert(r.deep_view() =~= seq!["get-duration"@, "get-filepath"@, "get-filename"@]);
    r
}

/// Whether the client goes on trying to reach VLC after a try that has
/// failed: until twenty seconds have passed since the first try.
pub fn keeps_trying(waited: u64) -> (r: bool)
    ensures
        r == (waited < VLC_OPEN_MAX_WAIT_TIME),
{
    waited < VLC_OPEN_MAX_WAIT_TIME
}

/// The systems on which VLC keeps its scripts in different places.
#[derive(Clone, Copy, Debug, PartialEq, Eq, Structural)]
pub enum Platform {
    Linux,
    MacOs,
    Windows,
    Other,
}

/// A directory and what lies below it, as one path of Windows.
pub open spec fn windows_join(base: Seq<char>, rest: Seq<char>) -> Seq<char> {
    if base.len() == 0 {
        rest
    } else if base.last() == '\\' || base.last() == '/' {
        base + rest
    } else {
        base + "\\"@ + rest
    }
}

/// Where VLC looks for its scripts, and where the user's scripts go.
/// `player_dir` is the directory of the player, `home` the user's home
/// directory, `appdata` the directory of the user's application data.
pub open spec fn vlc_paths(
    platform: Platform,
    player_path: Seq<char>,
    player_dir: Seq<char>,
    home: Seq<char>,
    appdata: Seq<char>,
) -> (Seq<char>, Seq<char>) {
    match platform {
        Platform::Linux => if contains_sub(player_path, "snap"@) {
            (
                "/snap/vlc/current/usr/lib/vlc/lua/intf/"@,
                home + "/snap/vlc/current/.local/share/vlc/lua/intf/"@,
            )
        } else {
            ("/usr/lib/vlc/lua/intf/"@, home + "/.local/share/vlc/lua/intf/"@)
        },
        Platform::MacOs => (
            "/Applications/VLC.app/Contents/MacOS/share/lua/intf/"@,
            home + "/Library/Application Support/org.videolan.vlc/lua/intf/"@,
        ),
        Platform::Windows => if contains_sub(lower(player_path), "vlcportable.exe"@) {
            (
                windows_join(player_dir, "App/vlc/lua/intf/"@),
                windows_join(player_dir, "App/vlc/lua/intf/"@),
            )
        } else {
            (windows_join(player_dir, "lua/intf/"@), windows_join(appdata, "VLC/lua/intf/"@))
        },
        Platform::Other => ("/usr/local/lib/vlc/lua/intf/"@, home + "/.local/share/vlc/lua/intf/"@),
    }
}

fn join_windows(base: &str, rest: &str) -> (r: String)
    ensures
        r@ == windows_join(base@, rest@),
{
    let b = to_chars(base);
    if b.len() == 0 {
        return copy_str(rest);
    }
    let last = b[b.len() - 1];
    if last == '\\' || last == '/' {
        crate::text::text2(base, rest)
    } else {
        proof {
            reveal_strlit("\\");
        }
        crate::text::text3(base, "\\", rest)
    }
}

pub fn resolve_vlc_paths(
    platform: Platform,
    player_path: &str,
    player_dir: &str,
    home: &str,
    appdata: &str,
) -> (r: (String, String))
    ensures
        (r.0@, r.1@) == vlc_paths(platform, player_path@, player_dir@, home@, appdata@),
{
    match platform {
        Platform::Linux => {
            if has_sub(&to_chars(player_path), &to_chars("snap")) {
                (
                    copy_str("/snap/vlc/current/usr/lib/vlc/lua/intf/"),
                    crate::text::text2(home, "/snap/vlc/current/.local/share/vlc/lua/intf/"),
                )
            } else {
                (
                    copy_str("/usr/lib/vlc/lua/intf/"),
                    crate::text::text2(home, "/.local/share/vlc/lua/intf/"),
                )
            }
        },
        Platform::MacOs => (
            copy_str("/Applications/VLC.app/Contents/MacOS/share/lua/intf/"),
            crate::text::text2(home, "/Library/Application Support/org.videolan.vlc/lua/intf/"),
        ),
        Platform::Windows => {
            if has_sub(&to_lower(&to_chars(player_path)), &to_chars("vlcportable.exe")) {
                (
                    join_windows(player_dir, "App/vlc/lua/intf/"),
                    join_windows(player_dir, "App/vlc/lua/intf/"),
                )
            } else {
                (join_windows(player_dir, "lua/intf/"), join_windows(appdata, "VLC/lua/intf/"))
            }
        },
        Platform::Other => (
            copy_str("/usr/local/lib/vlc/lua/intf/"),
            crate::text::text2(home, "/.local/share/vlc/lua/intf/"),
        ),
    }
}

/// The setting that tells the script of VLC where its modules lie and on
/// which port it listens.
pub open spec fn lua_config(intf_path: Seq<char>, port: u16) -> Seq<char> {
    "--lua-config=syncplay={modulepath=\""@ + replace(intf_path, "\\"@, "/"@) + "/modules/?.luac\",port=\""@
        + crate::text::decimal(port as nat) + "\"}"@
}

/// The arguments with which VLC is started: those that make it run the
/// script, the setting of the script, those that the kind of VLC asks
/// for, those of the user, and the file to open, if there is one.
pub open spec fn vlc_arguments(
    intf_path: Seq<char>,
    port: u16,
    extra: Seq<Seq<char>>,
    args: Seq<Seq<char>>,
    file: Option<Seq<char>>,
) -> Seq<Seq<char>> {
    seq![
        "--extraintf=luaintf"@,
        "--lua-intf=syncplay"@,
        "--no-quiet"@,
        "--no-input-fast-seek"@,
        "--play-and-pause"@,
        "--start-time=0"@,
        lua_config(intf_path, port),
    ] + extra + args + (match file {
        Some(f) => seq![f],
        None => Seq::empty(),
    })
}

fn push_text(list: &mut Vec<String>, text: String)
    ensures
        final(list).deep_view() == old(list).deep_view().push(text@),
{
    let ghost before = list.deep_view();
    list.push(text);
    assert(list.deep_view() =~= before.push(text@));
}

fn lua_config_text(intf_path: &str, port: u16) -> (r: String)
    ensures
        r@ == lua_config(intf_path@, port),
{
    proof {
        reveal_strlit("\\");
    }
    let mut out: Vec<char> = to_chars("--lua-config=syncplay={modulepath=\"");
    let ghost head = out@;
    let path = replaced(&to_chars(intf_path), &to_chars("\\"), &to_chars("/"));
    crate::text::append(&mut out, &path);
    crate::text::append(&mut out, &to_chars("/modules/?.luac\",port=\""));
    crate::text::push_decimal(&mut out, port as u64);
    crate::text::append(&mut out, &to_chars("\"}"));
    assert(out@ =~= lua_config(intf_path@, port));
    from_chars(&out)
}

/// The arguments with which VLC is started. `initial_file` is the file to
/// open at once; a path of plain letters goes as it stands, any other and
/// every web address as a locator.
pub fn build_vlc_arguments(
    intf_path: &str,
    port: u16,
    player_path: &str,
    macos: bool,
    windows: bool,
    args: &Vec<String>,
    initial_file: Option<&str>,
) -> (r: Vec<String>)
    ensures
        r.deep_view() == vlc_arguments(
            intf_path@,
            port,
            extra_args(player_path@, macos),
            args.deep_view(),
            match initial_file {
                Some(f) => Some(file_to_load(f@, f.is_ascii(), windows)),
                None => None,
            },
        ),
{
    let mut full: Vec<String> = Vec::new();
    assert(full.deep_view() =~= Seq::<Seq<char>>::empty());
    push_text(&mut full, copy_str("--extraintf=luaintf"));
    push_text(&mut full, copy_str("--lua-intf=syncplay"));
    push_text(&mut full, copy_str("--no-quiet"));
    push_text(&mut full, copy_str("--no-input-fast-seek"));
    push_text(&mut full, copy_str("--play-and-pause"));
    push_text(&mut full, copy_str("--start-time=0"));
    push_text(&mut full, lua_config_text(intf_path, port));
    let ghost a = full.deep_view();
    let mut extra = build_vlc_extra_args(player_path, macos);
    let ghost b = extra.deep_view();
    full.append(&mut extra);
    assert(full.deep_view() =~= a + b);
    let mut rest = crate::text::clone_texts(args.as_slice());
    let ghost c = rest.deep_view();
    full.append(&mut rest);
    assert(full.deep_view() =~= a + b + c);
    match initial_file {
        Some(f) => {
            if is_ascii_path(f) && !is_url(f) {
                push_text(&mut full, copy_str(f));
            } else {
                push_text(&mut full, build_mrl(f, windows));
            }
        },
        None => {},
    }
    assert(full.deep_view() =~= vlc_arguments(
        intf_path@,
        port,
        extra_args(player_path@, macos),
        args.deep_view(),
        match initial_file {
            Some(f) => Some(file_to_load(f@, f.is_ascii(), windows)),
            None => None,
        },
    ));
    full
}

} // verus!
