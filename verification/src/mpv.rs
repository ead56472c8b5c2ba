//! The mpv family of players: the queue of commands with its latch, and the
//! lines that the player writes.
use crate::text::{
    append, contains_sub, copy_str, find, find_sub, from_chars, has_prefix, has_sub, join,
    lemma_find_sub, lower, occurs_at, opt_view, parse_thousandths, replace, replaced, same_chars,
    slice, split, split_on, starts_with, text2, text3, thousandths, to_chars, to_lower, trim,
    trimmed, views,
};
use crate::properties::{PlayerState, PlayerStateView};
use crate::state::{GlobalPlayState, GlobalPlayStateView};
use crate::text::{decimal, decimal_chars, joined};
use crate::time::{add_ms, elapsed, elapsed_ms, sat_add};
use vstd::prelude::*;

verus! {

/// The least time between two commands, in milliseconds.
pub const MPV_SENDMESSAGE_COOLDOWN_TIME: u64 = 50;

/// The longest time that the queue stays closed for a file that is being
/// opened, in milliseconds.
pub const MPV_MAX_NEWFILE_COOLDOWN_TIME: u64 = 3000;

/// How long after a rewind the player counts as just reset.
pub const MPV_NEWFILE_IGNORE_TIME: u64 = 1000;

/// How much longer that is for a stream.
pub const STREAM_ADDITIONAL_IGNORE_TIME: u64 = 10000;

/// How old a position may be before it is counted on.
pub const PLAYER_ASK_DELAY: u64 = 100;

/// How long the player may be silent before it counts as broken.
pub const MPV_UNRESPONSIVE_THRESHOLD: u64 = 60000;

/// A seek to before this position is left out right after a reset.
pub const DO_NOT_RESET_POSITION_THRESHOLD: i64 = 1000;

/// The kinds of command of which only the last one waits in the queue.
#[derive(Clone, Copy, Debug, PartialEq, Eq, Structural)]
pub enum QueueKey {
    SetTimePos,
    LoadFile,
    CyclePause,
}

/// A command for the player: its words, and the number by which the answer
/// is known.
#[derive(Debug)]
pub struct MpvCommand {
    pub command: Vec<String>,
    pub request_id: Option<u64>,
}

pub struct MpvCommandView {
    pub command: Seq<Seq<char>>,
    pub request_id: Option<u64>,
}

impl View for MpvCommand {
    type V = MpvCommandView;

    open spec fn view(&self) -> MpvCommandView {
        MpvCommandView { command: self.command.deep_view(), request_id: self.request_id }
    }
}

pub open spec fn command_views(list: Seq<MpvCommand>) -> Seq<MpvCommandView> {
    Seq::new(list.len(), |i: int| list[i]@)
}

/// The kind of a command, where it is of a kind that is coalesced.
pub open spec fn key_of(c: MpvCommandView) -> Option<QueueKey> {
    if c.command.len() == 0 {
        None
    } else if c.command[0] == "set_property"@ {
        if c.command.len() > 1 && c.command[1] == "time-pos"@ {
            Some(QueueKey::SetTimePos)
        } else {
            None
        }
    } else if c.command[0] == "loadfile"@ {
        Some(QueueKey::LoadFile)
    } else if c.command[0] == "cycle"@ {
        if c.command.len() > 1 && c.command[1] == "pause"@ {
            Some(QueueKey::CyclePause)
        } else {
            None
        }
    } else {
        None
    }
}

fn word_is(s: &String, word: &str) -> (r: bool)
    ensures
        r == (s@ == word@),
{
    same_chars(&to_chars(s.as_str()), &to_chars(word))
}

pub fn queue_key(cmd: &MpvCommand) -> (r: Option<QueueKey>)
    ensures
        r == key_of(cmd@),
{
    assert(cmd.command.deep_view().len() == cmd.command@.len());
    if cmd.command.len() == 0 {
        return None;
    }
    assert(cmd.command.deep_view()[0] == cmd.command@[0]@);
    if cmd.command.len() > 1 {
        assert(cmd.command.deep_view()[1] == cmd.command@[1]@);
    }
    let head = &cmd.command[0];
    if word_is(head, "set_property") {
        if cmd.command.len() > 1 && word_is(&cmd.command[1], "time-pos") {
            Some(QueueKey::SetTimePos)
        } else {
            None
        }
    } else if word_is(head, "loadfile") {
        Some(QueueKey::LoadFile)
    } else if word_is(head, "cycle") {
        if cmd.command.len() > 1 && word_is(&cmd.command[1], "pause") {
            Some(QueueKey::CyclePause)
        } else {
            None
        }
    } else {
        None
    }
}

/// The commands without those of a kind.
pub open spec fn without_key(pending: Seq<MpvCommandView>, key: QueueKey) -> Seq<MpvCommandView>
    decreases pending.len(),
{
    if pending.len() == 0 {
        Seq::empty()
    } else if key_of(pending.last()) == Some(key) {
        without_key(pending.drop_last(), key)
    } else {
        without_key(pending.drop_last(), key).push(pending.last())
    }
}

/// The index of the first command of a kind, or -1.
pub open spec fn first_of_key(pending: Seq<MpvCommandView>, key: QueueKey, from: int) -> int
    decreases pending.len() - from,
{
    if from < 0 || from >= pending.len() {
        -1
    } else if key_of(pending[from]) == Some(key) {
        from
    } else {
        first_of_key(pending, key, from + 1)
    }
}

/// The commands that wait after a command has come in: a new position or a
/// new file takes the place of those that wait; a second toggle of the pause
/// cancels the one that waits and is dropped itself.
pub open spec fn coalesced(pending: Seq<MpvCommandView>, c: MpvCommandView) -> Seq<MpvCommandView> {
    match key_of(c) {
        Some(QueueKey::CyclePause) => if first_of_key(pending, QueueKey::CyclePause, 0) >= 0 {
            pending.remove(first_of_key(pending, QueueKey::CyclePause, 0))
        } else {
            pending
        },
        Some(k) => without_key(pending, k),
        None => pending,
    }
}

/// Whether a command that has come in is dropped.
pub open spec fn cancels(pending: Seq<MpvCommandView>, c: MpvCommandView) -> bool {
    key_of(c) == Some(QueueKey::CyclePause) && first_of_key(pending, QueueKey::CyclePause, 0) >= 0
}

fn clone_command(c: &MpvCommand) -> (r: MpvCommand)
    ensures
        r@ == c@,
{
    MpvCommand {
        command: crate::text::clone_texts(c.command.as_slice()),
        request_id: c.request_id,
    }
}

fn retain_other(pending: &Vec<MpvCommand>, key: QueueKey) -> (r: Vec<MpvCommand>)
    ensures
        command_views(r@) == without_key(command_views(pending@), key),
{
    let ghost all = command_views(pending@);
    let mut r: Vec<MpvCommand> = Vec::new();
    let mut i: usize = 0;
    assert(all.take(0) =~= Seq::<MpvCommandView>::empty());
    assert(command_views(r@) =~= Seq::<MpvCommandView>::empty());
    while i < pending.len()
        invariant
            i <= pending.len(),
            all == command_views(pending@),
            command_views(r@) == without_key(all.take(i as int), key),
        decreases pending.len() - i,
    {
        proof {
            assert(all.take(i + 1).drop_last() =~= all.take(i as int));
            assert(all.take(i + 1).last() == pending@[i as int]@);
        }
        let same = match queue_key(&pending[i]) {
            Some(k) => k == key,
            None => false,
        };
        if !same {
            let ghost before = command_views(r@);
            r.push(clone_command(&pending[i]));
            assert(command_views(r@) =~= before.push(pending@[i as int]@));
        }
        i = i + 1;
    }
    assert(all.take(pending.len() as int) =~= all);
    r
}

fn find_key(pending: &Vec<MpvCommand>, key: QueueKey) -> (r: Option<usize>)
    ensures
        match r {
            Some(i) => first_of_key(command_views(pending@), key, 0) == i && i < pending@.len(),
            None => first_of_key(command_views(pending@), key, 0) == -1,
        },
{
    let ghost all = command_views(pending@);
    let mut i: usize = 0;
    while i < pending.len()
        invariant
            i <= pending.len(),
            all == command_views(pending@),
            first_of_key(all, key, 0) == first_of_key(all, key, i as int),
        decreases pending.len() - i,
    {
        assert(all[i as int] == pending@[i as int]@);
        let same = match queue_key(&pending[i]) {
            Some(k) => k == key,
            None => false,
        };
        if same {
            return Some(i);
        }
        i = i + 1;
    }
    None
}

/// The queue of commands: those that wait, whether the latch is open, and
/// since when it has been closed.
#[derive(Debug)]
pub struct MpvQueue {
    pub pending: Vec<MpvCommand>,
    pub ready: bool,
    pub last_not_ready: Option<u64>,
}

pub struct MpvQueueView {
    pub pending: Seq<MpvCommandView>,
    pub ready: bool,
    pub last_not_ready: Option<u64>,
}

impl View for MpvQueue {
    type V = MpvQueueView;

    open spec fn view(&self) -> MpvQueueView {
        MpvQueueView {
            pending: command_views(self.pending@),
            ready: self.ready,
            last_not_ready: self.last_not_ready,
        }
    }
}

/// The commands in the order in which a flush sends them: the last that
/// came first.
pub open spec fn flushed(pending: Seq<MpvCommandView>) -> Seq<MpvCommandView> {
    pending.reverse()
}

/// Takes the commands out of the queue in the order in which they go out.
pub fn flush_queue(pending: &mut Vec<MpvCommand>) -> (out: Vec<MpvCommand>)
    ensures
        final(pending)@.len() == 0,
        command_views(out@) == flushed(command_views(old(pending)@)),
{
    let ghost all = command_views(pending@);
    let mut out: Vec<MpvCommand> = Vec::new();
    while pending.len() > 0
        invariant
            pending@.len() + out@.len() == all.len(),
            command_views(pending@) == all.take(pending@.len() as int),
            forall|j: int| 0 <= j < out@.len() ==> out@[j]@ == all[all.len() - 1 - j],
        decreases pending.len(),
    {
        let ghost n = pending@.len();
        let ghost before = command_views(pending@);
        let ghost last = pending@[n - 1]@;
        assert(before[n - 1] == last);
        assert(all.take(n as int)[n - 1] == all[n - 1]);
        let cmd = pending.pop().unwrap();
        assert(cmd@ == all[n - 1]);
        out.push(cmd);
        assert(command_views(pending@) =~= all.take(pending@.len() as int));
    }
    assert(command_views(out@) =~= flushed(all));
    out
}

impl MpvQueue {
    pub fn new() -> (r: Self)
        ensures
            r@ == (MpvQueueView { pending: Seq::empty(), ready: true, last_not_ready: None }),
    {
        let r = MpvQueue { pending: Vec::new(), ready: true, last_not_ready: None };
        assert(r@.pending =~= Seq::empty());
        r
    }

    /// Takes a command. Gives the command back where it goes out at once;
    /// else it waits, or it is dropped because it cancels one that waits.
    pub fn handle_command_queue(&mut self, cmd: MpvCommand) -> (out: Option<MpvCommand>)
        ensures
            opt_view(out) == (if !cancels(old(self)@.pending, cmd@) && old(self)@.ready {
                Some(cmd@)
            } else {
                None
            }),
            final(self)@ == (MpvQueueView {
                pending: if cancels(old(self)@.pending, cmd@) || old(self)@.ready {
                    coalesced(old(self)@.pending, cmd@)
                } else {
                    coalesced(old(self)@.pending, cmd@).push(cmd@)
                },
                ..old(self)@
            }),
    {
        match queue_key(&cmd) {
            Some(QueueKey::CyclePause) => {
                match find_key(&self.pending, QueueKey::CyclePause) {
                    Some(pos) => {
                        self.pending.remove(pos);
                        assert(command_views(self.pending@) =~= old(self)@.pending.remove(
                            pos as int,
                        ));
                        return None;
                    },
                    None => {},
                }
            },
            Some(key) => {
                self.pending = retain_other(&self.pending, key);
            },
            None => {},
        }
        if self.ready {
            Some(cmd)
        } else {
            let ghost before = command_views(self.pending@);
            self.pending.push(cmd);
            assert(command_views(self.pending@) =~= before.push(cmd@));
            None
        }
    }

    /// Opens or closes the latch at time `now`. Gives the commands that go
    /// out as the latch opens.
    pub fn set_ready(&mut self, ready: bool, now: u64) -> (out: Vec<MpvCommand>)
        ensures
            command_views(out@) == (if ready {
                flushed(old(self)@.pending)
            } else {
                Seq::empty()
            }),
            final(self)@ == (if ready {
                MpvQueueView { pending: Seq::empty(), ready: true, last_not_ready: None }
            } else {
                MpvQueueView { ready: false, last_not_ready: Some(now), ..old(self)@ }
            }),
    {
        if ready {
            self.ready = true;
            self.last_not_ready = None;
            let out = flush_queue(&mut self.pending);
            assert(command_views(self.pending@) =~= Seq::empty());
            out
        } else {
            self.ready = false;
            self.last_not_ready = Some(now);
            let out: Vec<MpvCommand> = Vec::new();
            assert(command_views(out@) =~= Seq::empty());
            out
        }
    }

    /// Whether the latch is forced open at time `now`: it has been closed
    /// for three seconds.
    pub open spec fn forced_open(v: MpvQueueView, now: u64) -> bool {
        !v.ready && (match v.last_not_ready {
            Some(t) => elapsed(now, t) >= MPV_MAX_NEWFILE_COOLDOWN_TIME,
            None => false,
        })
    }

    /// Looks at the latch at time `now` and opens it where it has been closed
    /// for too long. Gives the commands that go out.
    pub fn tick(&mut self, now: u64) -> (out: Vec<MpvCommand>)
        ensures
            command_views(out@) == (if Self::forced_open(old(self)@, now) {
                flushed(old(self)@.pending)
            } else {
                Seq::empty()
            }),
            final(self)@ == (if Self::forced_open(old(self)@, now) {
                MpvQueueView { pending: Seq::empty(), ready: true, last_not_ready: None }
            } else {
                old(self)@
            }),
    {
        let force = !self.ready && (match self.last_not_ready {
            Some(t) => elapsed_ms(now, t) >= MPV_MAX_NEWFILE_COOLDOWN_TIME,
            None => false,
        });
        if force {
            self.set_ready(true, now)
        } else {
            let out: Vec<MpvCommand> = Vec::new();
            assert(command_views(out@) =~= Seq::empty());
            out
        }
    }
}

/// How long a command waits before it goes out at time `now` after the last
/// one went out at `last_send`: until fifty milliseconds have passed.
pub open spec fn throttle(last_send: Option<u64>, now: u64) -> int {
    match last_send {
        Some(t) => if elapsed(now, t) < MPV_SENDMESSAGE_COOLDOWN_TIME {
            MPV_SENDMESSAGE_COOLDOWN_TIME - elapsed(now, t)
        } else {
            0
        },
        None => 0,
    }
}

pub fn send_with_throttle(last_send: Option<u64>, now: u64) -> (wait: u64)
    ensures
        wait == throttle(last_send, now),
        wait <= MPV_SENDMESSAGE_COOLDOWN_TIME,
{
    match last_send {
        Some(t) => {
            let e = elapsed_ms(now, t);
            if e < MPV_SENDMESSAGE_COOLDOWN_TIME {
                MPV_SENDMESSAGE_COOLDOWN_TIME - e
            } else {
                0
            }
        },
        None => 0,
    }
}

/// Whatever the latch does, a toggle of the pause that comes in twice while
/// the latch is closed leaves the queue as it was.
pub proof fn lemma_toggle_twice_cancels(pending: Seq<MpvCommandView>, c: MpvCommandView)
    requires
        key_of(c) == Some(QueueKey::CyclePause),
        first_of_key(pending, QueueKey::CyclePause, 0) == -1,
    ensures
        cancels(coalesced(pending, c).push(c), c),
        coalesced(coalesced(pending, c).push(c), c) == pending,
{
    let q = pending.push(c);
    lemma_first_of_key(pending, QueueKey::CyclePause, 0);
    lemma_first_in_push(pending, c, 0);
    assert(q.remove(pending.len() as int) =~= pending);
}

proof fn lemma_first_of_key(pending: Seq<MpvCommandView>, key: QueueKey, from: int)
    requires
        0 <= from,
        first_of_key(pending, key, from) == -1,
    ensures
        forall|i: int| from <= i < pending.len() ==> key_of(pending[i]) != Some(key),
    decreases pending.len() - from,
{
    if from < pending.len() {
        lemma_first_of_key(pending, key, from + 1);
    }
}

proof fn lemma_first_in_push(pending: Seq<MpvCommandView>, c: MpvCommandView, from: int)
    requires
        0 <= from <= pending.len(),
        key_of(c) == Some(QueueKey::CyclePause),
        forall|i: int| from <= i < pending.len() ==> key_of(pending[i]) != Some(
            QueueKey::CyclePause,
        ),
    ensures
        first_of_key(pending.push(c), QueueKey::CyclePause, from) == pending.len(),
    decreases pending.len() - from,
{
    let q = pending.push(c);
    if from < pending.len() {
        assert(q[from] == pending[from]);
        lemma_first_in_push(pending, c, from + 1);
    } else {
        assert(q[from] == c);
    }
}

// ---------------------------------------------------------------------------
// What the player writes
// ---------------------------------------------------------------------------

/// A text that begins like a web address.
pub open spec fn is_web_address(value: Seq<char>) -> bool {
    starts_with(value, "http://"@) || starts_with(value, "https://"@)
}

pub fn is_url(value: &str) -> (r: bool)
    ensures
        r == is_web_address(value@),
{
    let c = to_chars(value);
    has_prefix(&c, &to_chars("http://")) || has_prefix(&c, &to_chars("https://"))
}

/// What stands between `<tag>` and `</tag>` in a line, each taken where it
/// first stands; nothing where one is missing or the end stands before the
/// start.
pub open spec fn tag_content(line: Seq<char>, tag: Seq<char>) -> Option<Seq<char>> {
    let start_tag = "<"@ + tag + ">"@;
    let end_tag = "</"@ + tag + ">"@;
    let start = find_sub(line, start_tag);
    let end = find_sub(line, end_tag);
    if start >= 0 && end >= 0 && start + start_tag.len() <= end {
        Some(line.subrange(start + start_tag.len(), end))
    } else {
        None
    }
}

pub fn extract_tag(line: &str, tag: &str) -> (r: Option<String>)
    ensures
        opt_view(r) == tag_content(line@, tag@),
{
    let l = to_chars(line);
    let mut start_tag = to_chars("<");
    append(&mut start_tag, &to_chars(tag));
    append(&mut start_tag, &to_chars(">"));
    let mut end_tag = to_chars("</");
    append(&mut end_tag, &to_chars(tag));
    append(&mut end_tag, &to_chars(">"));
    proof {
        lemma_find_sub(l@, start_tag@);
        lemma_find_sub(l@, end_tag@);
    }
    let start = match find(&l, &start_tag) {
        Some(i) => i,
        None => {
            return None;
        },
    };
    let end = match find(&l, &end_tag) {
        Some(i) => i,
        None => {
            return None;
        },
    };
    assert(occurs_at(l@, start_tag@, start as int));
    assert(occurs_at(l@, end_tag@, end as int));
    if start_tag.len() > end || start > end - start_tag.len() {
        return None;
    }
    Some(from_chars(&slice(&l, start + start_tag.len(), end)))
}

/// A text as it is handed to the player's script: without carriage returns,
/// a line feed written as `\n`, every backslash as the full-width one, and
/// every double quote as a single one.
pub open spec fn sanitized(input: Seq<char>) -> Seq<char> {
    replace(
        replace(replace(replace(input, "\r"@, ""@), "\n"@, "\\n"@), "\\"@, "\u{FF3C}"@),
        "\""@,
        "'"@,
    )
}

pub fn sanitize_mpv_text(input: &str) -> (r: String)
    ensures
        r@ == sanitized(input@),
{
    proof {
        reveal_strlit("\r");
        reveal_strlit("\n");
        reveal_strlit("\\");
        reveal_strlit("\"");
    }
    let a = replaced(&to_chars(input), &to_chars("\r"), &to_chars(""));
    let b = replaced(&a, &to_chars("\n"), &to_chars("\\n"));
    let c = replaced(&b, &to_chars("\\"), &to_chars("\u{FF3C}"));
    let d = replaced(&c, &to_chars("\""), &to_chars("'"));
    from_chars(&d)
}

/// A line of chat as the player shows it: the name in angle brackets
/// before the text, both sanitized.
pub open spec fn chat_shown(username: Option<Seq<char>>, message: Seq<char>) -> Seq<char> {
    (match username {
        Some(n) => "<"@ + sanitized(n) + "> "@,
        None => Seq::empty(),
    }) + sanitized(message)
}

pub fn chat_message_text(username: Option<&str>, message: &str) -> (r: String)
    ensures
        r@ == chat_shown(opt_view(username), message@),
{
    let body = sanitize_mpv_text(message);
    match username {
        Some(n) => {
            let name = sanitize_mpv_text(n);
            let head = text3("<", name.as_str(), "> ");
            let r = text2(head.as_str(), body.as_str());
            assert(r@ =~= chat_shown(opt_view(username), message@));
            r
        },
        None => {
            assert(body@ =~= chat_shown(opt_view(username), message@));
            body
        },
    }
}

/// How many of the characters `<` and `>` stand at the start of a text.
pub open spec fn leading_brackets(s: Seq<char>) -> int
    decreases s.len(),
{
    if s.len() > 0 && (s[0] == '<' || s[0] == '>') {
        1 + leading_brackets(s.drop_first())
    } else {
        0
    }
}

/// How many of the characters `<` and `>` stand at the end of a text.
pub open spec fn trailing_brackets(s: Seq<char>) -> int
    decreases s.len(),
{
    if s.len() > 0 && (s.last() == '<' || s.last() == '>') {
        1 + trailing_brackets(s.drop_last())
    } else {
        0
    }
}

/// A text without the angle brackets at its two ends.
pub open spec fn without_brackets(s: Seq<char>) -> Seq<char> {
    let t = s.skip(leading_brackets(s));
    t.take(t.len() - trailing_brackets(t))
}

proof fn lemma_leading_brackets(s: Seq<char>, n: int)
    requires
        0 <= n <= s.len(),
        forall|i: int| 0 <= i < n ==> (s[i] == '<' || s[i] == '>'),
        n < s.len() ==> !(s[n] == '<' || s[n] == '>'),
    ensures
        leading_brackets(s) == n,
    decreases s.len(),
{
    if n > 0 {
        let t = s.drop_first();
        assert forall|i: int| 0 <= i < n - 1 implies (t[i] == '<' || t[i] == '>') by {
            assert(t[i] == s[i + 1]);
        }
        if n - 1 < t.len() {
            assert(t[n - 1] == s[n]);
        }
        lemma_leading_brackets(t, n - 1);
    }
}

proof fn lemma_trailing_brackets(s: Seq<char>, n: int)
    requires
        0 <= n <= s.len(),
        forall|i: int| s.len() - n <= i < s.len() ==> (s[i] == '<' || s[i] == '>'),
        n < s.len() ==> !(s[s.len() - n - 1] == '<' || s[s.len() - n - 1] == '>'),
    ensures
        trailing_brackets(s) == n,
    decreases s.len(),
{
    if n > 0 {
        let t = s.drop_last();
        assert forall|i: int| t.len() - (n - 1) <= i < t.len() implies (t[i] == '<' || t[i]
            == '>') by {
            assert(t[i] == s[i]);
        }
        if n - 1 < t.len() {
            assert(t[t.len() - (n - 1) - 1] == s[s.len() - n - 1]);
        }
        lemma_trailing_brackets(t, n - 1);
    }
}

fn strip_brackets(s: &Vec<char>) -> (r: Vec<char>)
    ensures
        r@ == without_brackets(s@),
{
    let mut a: usize = 0;
    while a < s.len() && (s[a] == '<' || s[a] == '>')
        invariant
            a <= s.len(),
            forall|i: int| 0 <= i < a ==> (s@[i] == '<' || s@[i] == '>'),
        decreases s.len() - a,
    {
        a = a + 1;
    }
    proof {
        lemma_leading_brackets(s@, a as int);
    }
    let mut b: usize = s.len();
    while b > a && (s[b - 1] == '<' || s[b - 1] == '>')
        invariant
            a <= b <= s.len(),
            forall|i: int| b <= i < s.len() ==> (s@[i] == '<' || s@[i] == '>'),
        decreases b,
    {
        b = b - 1;
    }
    let r = slice(s, a, b);
    proof {
        let t = s@.skip(a as int);
        let n = s.len() - b;
        assert forall|i: int| t.len() - n <= i < t.len() implies (t[i] == '<' || t[i] == '>') by {
            assert(t[i] == s@[i + a]);
        }
        if n < t.len() {
            assert(t[t.len() - n - 1] == s@[b - 1]);
        }
        lemma_trailing_brackets(t, n);
        assert(r@ =~= t.take(t.len() - n));
    }
    r
}

/// What a part of a report says of the pause.
pub open spec fn pause_said(part: Seq<char>) -> Option<Option<bool>> {
    if starts_with(part, "paused="@) {
        let value = part.skip("paused="@.len() as int);
        Some(
            if value == "true"@ {
                Some(true)
            } else if value == "false"@ {
                Some(false)
            } else {
                None
            },
        )
    } else {
        None
    }
}

/// What a part of a report says of the position, in milliseconds.
pub open spec fn position_said(part: Seq<char>) -> Option<Option<i64>> {
    if !starts_with(part, "paused="@) && starts_with(part, "pos="@) {
        Some(
            match thousandths(part.skip("pos="@.len() as int)) {
                Some(n) => Some(n as i64),
                None => None,
            },
        )
    } else {
        None
    }
}

/// The pause and position that the parts of a report tell, the last word
/// on each counting.
pub open spec fn report_read(parts: Seq<Seq<char>>) -> (Option<bool>, Option<i64>)
    decreases parts.len(),
{
    if parts.len() == 0 {
        (None, None)
    } else {
        let before = report_read(parts.drop_last());
        let part = trim(parts.last());
        (
            match pause_said(part) {
                Some(p) => p,
                None => before.0,
            },
            match position_said(part) {
                Some(p) => p,
                None => before.1,
            },
        )
    }
}

/// The pause and position that a report of the form
/// `<paused=true, pos=1.5>` tells.
pub open spec fn pause_position(line: Seq<char>) -> (Option<bool>, Option<i64>) {
    report_read(split(without_brackets(line), ','))
}

pub fn parse_pause_position(line: &str) -> (r: (Option<bool>, Option<i64>))
    ensures
        r == pause_position(line@),
{
    let parts = split_on(&strip_brackets(&to_chars(line)), ',');
    let ghost all = views(parts@);
    let mut paused: Option<bool> = None;
    let mut position: Option<i64> = None;
    let paused_key = to_chars("paused=");
    let pos_key = to_chars("pos=");
    proof {
        reveal_strlit("paused=");
        reveal_strlit("pos=");
    }
    let mut i: usize = 0;
    assert(all.take(0) =~= Seq::<Seq<char>>::empty());
    while i < parts.len()
        invariant
            i <= parts.len(),
            all == views(parts@),
            paused_key@ == "paused="@,
            pos_key@ == "pos="@,
            paused_key@.len() == 7,
            pos_key@.len() == 4,
            (paused, position) == report_read(all.take(i as int)),
        decreases parts.len() - i,
    {
        proof {
            assert(all.take(i + 1).drop_last() =~= all.take(i as int));
            assert(all.take(i + 1).last() == parts@[i as int]@);
        }
        let part = trimmed(&parts[i]);
        if has_prefix(&part, &paused_key) {
            let value = slice(&part, 7, part.len());
            assert(value@ =~= part@.skip(7));
            paused = if same_chars(&value, &to_chars("true")) {
                Some(true)
            } else if same_chars(&value, &to_chars("false")) {
                Some(false)
            } else {
                None
            };
        } else if has_prefix(&part, &pos_key) {
            let value = slice(&part, 4, part.len());
            assert(value@ =~= part@.skip(4));
            position = parse_thousandths(from_chars(&value).as_str());
        }
        i = i + 1;
    }
    assert(all.take(parts.len() as int) =~= all);
    (paused, position)
}

/// What a line of the player's output asks for.
#[derive(Debug)]
pub enum LineEvent {
    /// Nothing.
    Ignore,
    /// Ask the player for its properties anew.
    RefreshState,
    /// The user has typed a line of chat in the player.
    Chat(String),
    /// The file has ended.
    EndOfFile,
    /// The script asks for its options.
    SendOptions,
    /// A file is being opened: the queue closes.
    FileLoading,
    /// The file is open: the queue opens.
    FileLoaded,
    /// The player tells a property of the file.
    TermPlaying { key: String, value: String },
    /// The player tells whether it is paused and where it is.
    PauseAndPosition { paused: Option<bool>, position: Option<i64> },
    /// Something went wrong: the queue opens.
    OpenQueue,
}

pub enum LineEventView {
    Ignore,
    RefreshState,
    Chat(Seq<char>),
    EndOfFile,
    SendOptions,
    FileLoading,
    FileLoaded,
    TermPlaying { key: Seq<char>, value: Seq<char> },
    PauseAndPosition { paused: Option<bool>, position: Option<i64> },
    OpenQueue,
}

impl View for LineEvent {
    type V = LineEventView;

    open spec fn view(&self) -> LineEventView {
        match self {
            LineEvent::Ignore => LineEventView::Ignore,
            LineEvent::RefreshState => LineEventView::RefreshState,
            LineEvent::Chat(m) => LineEventView::Chat(m@),
            LineEvent::EndOfFile => LineEventView::EndOfFile,
            LineEvent::SendOptions => LineEventView::SendOptions,
            LineEvent::FileLoading => LineEventView::FileLoading,
            LineEvent::FileLoaded => LineEventView::FileLoaded,
            LineEvent::TermPlaying { key, value } => LineEventView::TermPlaying {
                key: key@,
                value: value@,
            },
            LineEvent::PauseAndPosition { paused, position } => LineEventView::PauseAndPosition {
                paused: *paused,
                position: *position,
            },
            LineEvent::OpenQueue => LineEventView::OpenQueue,
        }
    }
}

/// A line without the marks that the player puts before its output.
pub open spec fn unmarked(line: Seq<char>) -> Seq<char> {
    trim(
        replace(
            replace(
                replace(replace(trim(line), "[cplayer] "@, ""@), "[term-msg] "@, ""@),
                "   cplayer: "@,
                ""@,
            ),
            "  term-msg: "@,
            ""@,
        ),
    )
}

/// A text without `ANS_` at its start, however often it stands there.
pub open spec fn without_answer_mark(s: Seq<char>) -> Seq<char>
    decreases s.len(),
{
    if starts_with(s, "ANS_"@) && "ANS_"@.len() == 4 {
        without_answer_mark(s.skip(4))
    } else {
        s
    }
}

/// What an answer of the form `ANS_key=value` tells.
pub open spec fn answer_read(line: Seq<char>) -> LineEventView {
    let cut = find_sub(line, "="@);
    if cut < 0 {
        LineEventView::Ignore
    } else if trim(line.skip(cut + 1)).len() == 0 {
        LineEventView::RefreshState
    } else {
        LineEventView::TermPlaying {
            key: lower(without_answer_mark(line.take(cut))),
            value: trim(line.skip(cut + 1)),
        }
    }
}

/// What a line of the player's output asks for.
pub open spec fn line_event(raw: Seq<char>) -> LineEventView {
    let line = unmarked(raw);
    if line.len() == 0 {
        LineEventView::Ignore
    } else if contains_sub(line, "Failed to get value of property"@) || contains_sub(
        line,
        "=(unavailable)"@,
    ) {
        LineEventView::RefreshState
    } else if contains_sub(line, "<chat>"@) {
        match tag_content(line, "chat"@) {
            Some(m) => LineEventView::Chat(replace(m, "\u{FF3C}"@, "\\"@)),
            None => LineEventView::Ignore,
        }
    } else if contains_sub(line, "<eof>"@) {
        LineEventView::EndOfFile
    } else if contains_sub(line, "<get_syncplayintf_options>"@) {
        LineEventView::SendOptions
    } else if contains_sub(line, "<SyncplayUpdateFile>"@) || contains_sub(line, "Playing:"@) {
        LineEventView::FileLoading
    } else if contains_sub(line, "</SyncplayUpdateFile>"@) {
        LineEventView::FileLoaded
    } else if starts_with(line, "ANS_"@) {
        answer_read(line)
    } else if contains_sub(line, "<paused="@) && contains_sub(line, ", pos="@) {
        LineEventView::PauseAndPosition {
            paused: pause_position(line).0,
            position: pause_position(line).1,
        }
    } else if contains_sub(line, "Error parsing option"@) || contains_sub(
        line,
        "Error parsing commandline option"@,
    ) || contains_sub(line, "Failed"@) || contains_sub(line, "failed"@) || contains_sub(
        line,
        "No video or audio streams selected"@,
    ) || contains_sub(line, "error"@) {
        LineEventView::OpenQueue
    } else {
        LineEventView::Ignore
    }
}

fn holds(line: &Vec<char>, word: &str) -> (r: bool)
    ensures
        r == contains_sub(line@, word@),
{
    has_sub(line, &to_chars(word))
}

fn unmark(raw: &str) -> (r: Vec<char>)
    ensures
        r@ == unmarked(raw@),
{
    proof {
        reveal_strlit("[cplayer] ");
        reveal_strlit("[term-msg] ");
        reveal_strlit("   cplayer: ");
        reveal_strlit("  term-msg: ");
    }
    let none = to_chars("");
    let a = trimmed(&to_chars(raw));
    let b = replaced(&a, &to_chars("[cplayer] "), &none);
    let c = replaced(&b, &to_chars("[term-msg] "), &none);
    let d = replaced(&c, &to_chars("   cplayer: "), &none);
    let e = replaced(&d, &to_chars("  term-msg: "), &none);
    trimmed(&e)
}

fn strip_answer_mark(s: &Vec<char>) -> (r: Vec<char>)
    ensures
        r@ == without_answer_mark(s@),
{
    let mark = to_chars("ANS_");
    proof {
        reveal_strlit("ANS_");
    }
    let mut i: usize = 0;
    assert(s@.skip(0) =~= s@);
    while s.len() - i >= 4 && crate::text::matches_at(s, &mark, i)
        invariant
            i <= s.len(),
            mark@ == "ANS_"@,
            mark@.len() == 4,
            without_answer_mark(s@) == without_answer_mark(s@.skip(i as int)),
        decreases s.len() - i,
    {
        proof {
            let rest = s@.skip(i as int);
            assert(rest.subrange(0, 4) =~= s@.subrange(i as int, i + 4));
            assert(starts_with(rest, mark@));
            assert(rest.skip(4) =~= s@.skip(i + 4));
        }
        i = i + 4;
    }
    proof {
        let rest = s@.skip(i as int);
        if rest.len() >= 4 {
            assert(rest.subrange(0, 4) =~= s@.subrange(i as int, i + 4));
        }
        assert(!starts_with(rest, mark@));
    }
    let r = slice(s, i, s.len());
    assert(r@ =~= s@.skip(i as int));
    r
}

fn read_answer(line: &Vec<char>) -> (r: LineEvent)
    ensures
        r@ == answer_read(line@),
{
    let eq = to_chars("=");
    proof {
        lemma_find_sub(line@, eq@);
        reveal_strlit("=");
    }
    match find(line, &eq) {
        Some(cut) => {
            assert(eq@.len() == 1);
            assert(occurs_at(line@, eq@, cut as int));
            assert(cut < line.len());
            let key_part = slice(line, 0, cut);
            let value_part = slice(line, cut + 1, line.len());
            assert(key_part@ =~= line@.take(cut as int));
            assert(value_part@ =~= line@.skip(cut + 1));
            let value = trimmed(&value_part);
            if value.len() == 0 {
                return LineEvent::RefreshState;
            }
            let key = to_lower(&strip_answer_mark(&key_part));
            LineEvent::TermPlaying { key: from_chars(&key), value: from_chars(&value) }
        },
        None => LineEvent::Ignore,
    }
}

/// Reads a line of the player's output.
pub fn handle_syncplayintf_line(raw: &str) -> (r: LineEvent)
    ensures
        r@ == line_event(raw@),
{
    let line = unmark(raw);
    if line.len() == 0 {
        return LineEvent::Ignore;
    }
    if holds(&line, "Failed to get value of property") || holds(&line, "=(unavailable)") {
        return LineEvent::RefreshState;
    }
    if holds(&line, "<chat>") {
        return match extract_tag(from_chars(&line).as_str(), "chat") {
            Some(m) => {
                proof {
                    reveal_strlit("\u{FF3C}");
                }
                let text = replaced(&to_chars(m.as_str()), &to_chars("\u{FF3C}"), &to_chars("\\"));
                LineEvent::Chat(from_chars(&text))
            },
            None => LineEvent::Ignore,
        };
    }
    if holds(&line, "<eof>") {
        return LineEvent::EndOfFile;
    }
    if holds(&line, "<get_syncplayintf_options>") {
        return LineEvent::SendOptions;
    }
    if holds(&line, "<SyncplayUpdateFile>") || holds(&line, "Playing:") {
        return LineEvent::FileLoading;
    }
    if holds(&line, "</SyncplayUpdateFile>") {
        return LineEvent::FileLoaded;
    }
    if has_prefix(&line, &to_chars("ANS_")) {
        return read_answer(&line);
    }
    if holds(&line, "<paused=") && holds(&line, ", pos=") {
        let (paused, position) = parse_pause_position(from_chars(&line).as_str());
        return LineEvent::PauseAndPosition { paused, position };
    }
    if holds(&line, "Error parsing option") || holds(&line, "Error parsing commandline option")
        || holds(&line, "Failed") || holds(&line, "failed") || holds(
        &line,
        "No video or audio streams selected",
    ) || holds(&line, "error") {
        return LineEvent::OpenQueue;
    }
    LineEvent::Ignore
}

/// The state after the player has told a property of its file.
pub open spec fn term_playing(ps: PlayerStateView, key: Seq<char>, value: Seq<char>) -> PlayerStateView {
    if key == "filename"@ {
        PlayerStateView { filename: Some(value), ..ps }
    } else if key == "length"@ || key == "duration"@ {
        PlayerStateView {
            duration: match thousandths(value) {
                Some(n) => Some(n as i64),
                None => None,
            },
            ..ps
        }
    } else if key == "path"@ {
        PlayerStateView { path: Some(value), ..ps }
    } else {
        ps
    }
}

pub fn update_from_term_playing_message(state: &mut PlayerState, key: &str, value: &str)
    ensures
        final(state)@ == term_playing(old(state)@, key@, value@),
{
    let k = to_chars(key);
    if same_chars(&k, &to_chars("filename")) {
        state.filename = Some(copy_str(value));
    } else if same_chars(&k, &to_chars("length")) || same_chars(&k, &to_chars("duration")) {
        state.duration = parse_thousandths(value);
    } else if same_chars(&k, &to_chars("path")) {
        state.path = Some(copy_str(value));
    }
}

/// The state after the player has told its pause and position.
pub fn update_pause_and_position(state: &mut PlayerState, paused: Option<bool>, position: Option<i64>) -> (positioned:
    bool)
    ensures
        positioned == position.is_some(),
        final(state)@ == (PlayerStateView {
            paused: match paused {
                Some(p) => Some(p),
                None => old(state)@.paused,
            },
            position: match position {
                Some(p) => Some(p),
                None => old(state)@.position,
            },
            ..old(state)@
        }),
{
    match paused {
        Some(p) => {
            state.paused = Some(p);
        },
        None => {},
    }
    match position {
        Some(p) => {
            state.position = Some(p);
        },
        None => {},
    }
    position.is_some()
}

/// The player was reset less than a second ago, or less than eleven for a
/// stream.
pub open spec fn just_reset(last_rewind_time: Option<u64>, ps: PlayerStateView, now: u64) -> bool {
    match last_rewind_time {
        Some(t) => elapsed(now, t) < MPV_NEWFILE_IGNORE_TIME + (if (match ps.path {
            Some(p) => is_web_address(p),
            None => match ps.filename {
                Some(f) => is_web_address(f),
                None => false,
            },
        }) {
            STREAM_ADDITIONAL_IGNORE_TIME
        } else {
            0
        }),
        None => false,
    }
}

pub fn recently_reset(last_rewind_time: Option<u64>, ps: &PlayerState, now: u64) -> (r: bool)
    ensures
        r == just_reset(last_rewind_time, ps@, now),
{
    let t = match last_rewind_time {
        Some(t) => t,
        None => {
            return false;
        },
    };
    let stream = match &ps.path {
        Some(p) => is_url(p.as_str()),
        None => match &ps.filename {
            Some(f) => is_url(f.as_str()),
            None => false,
        },
    };
    let ignore = if stream {
        MPV_NEWFILE_IGNORE_TIME + STREAM_ADDITIONAL_IGNORE_TIME
    } else {
        MPV_NEWFILE_IGNORE_TIME
    };
    elapsed_ms(now, t) < ignore
}

/// Whether a seek is left out: it goes to the start right after a reset.
pub fn skips_seek(last_rewind_time: Option<u64>, ps: &PlayerState, position: i64, now: u64) -> (r:
    bool)
    ensures
        r == (position < DO_NOT_RESET_POSITION_THRESHOLD && just_reset(last_rewind_time, ps@, now)),
{
    position < DO_NOT_RESET_POSITION_THRESHOLD && recently_reset(last_rewind_time, ps, now)
}

/// The state of the player as the client takes it: the room's position and
/// pause while no file is open or right after a reset; else what the player
/// has told, with the position moved on by the time since it was told where
/// the player plays and that time is more than a tenth of a second.
pub open spec fn effective_state(
    ps: PlayerStateView,
    file_loaded: bool,
    global: GlobalPlayStateView,
    last_rewind_time: Option<u64>,
    last_position_update: Option<u64>,
    now: u64,
) -> PlayerStateView {
    if !file_loaded || just_reset(last_rewind_time, ps, now) {
        PlayerStateView { position: Some(global.position), paused: Some(global.paused), ..ps }
    } else {
        match (last_position_update, ps.position) {
            (Some(t), Some(p)) => if ps.paused == Some(false) && elapsed(now, t)
                > PLAYER_ASK_DELAY {
                PlayerStateView {
                    position: Some(sat_add(p as int, clamp_elapsed(now, t)) as i64),
                    ..ps
                }
            } else {
                ps
            },
            _ => ps,
        }
    }
}

pub open spec fn clamp_elapsed(now: u64, then: u64) -> int {
    if elapsed(now, then) > i64::MAX {
        i64::MAX as int
    } else {
        elapsed(now, then)
    }
}

/// Whether the player counts as broken: it plays and has told no position
/// for a minute.
pub open spec fn unresponsive(
    ps: PlayerStateView,
    file_loaded: bool,
    last_rewind_time: Option<u64>,
    last_position_update: Option<u64>,
    now: u64,
) -> bool {
    file_loaded && !just_reset(last_rewind_time, ps, now) && ps.paused == Some(false) && (
    match last_position_update {
        Some(t) => elapsed(now, t) > MPV_UNRESPONSIVE_THRESHOLD,
        None => false,
    })
}

pub fn get_state(
    ps: &PlayerState,
    file_loaded: bool,
    global: &GlobalPlayState,
    last_rewind_time: Option<u64>,
    last_position_update: Option<u64>,
    now: u64,
) -> (r: (PlayerState, bool))
    ensures
        r.0@ == effective_state(
            ps@,
            file_loaded,
            global@,
            last_rewind_time,
            last_position_update,
            now,
        ),
        r.1 == unresponsive(ps@, file_loaded, last_rewind_time, last_position_update, now),
{
    let mut state = ps.clone();
    if !file_loaded || recently_reset(last_rewind_time, ps, now) {
        state.position = Some(global.position);
        state.paused = Some(global.paused);
        return (state, false);
    }
    let playing = match state.paused {
        Some(p) => !p,
        None => false,
    };
    match last_position_update {
        Some(t) => {
            let diff = elapsed_ms(now, t);
            if playing && diff > PLAYER_ASK_DELAY {
                match state.position {
                    Some(p) => {
                        let d: i64 = if diff > i64::MAX as u64 {
                            i64::MAX
                        } else {
                            diff as i64
                        };
                        state.position = Some(add_ms(p, d));
                    },
                    None => {},
                }
            }
            (state, playing && diff > MPV_UNRESPONSIVE_THRESHOLD)
        },
        None => (state, false),
    }
}

/// Where the line that the user types is shown.
#[derive(Clone, Copy, Debug, PartialEq, Eq, Structural)]
pub enum ChatInputPosition {
    Top,
    Middle,
    Bottom,
}

/// How lines of chat are shown.
#[derive(Clone, Copy, Debug, PartialEq, Eq, Structural)]
pub enum ChatOutputMode {
    Chatroom,
    Scrolling,
}

/// How chat looks in the player.
#[derive(Debug)]
pub struct ChatStyle {
    pub chat_input_enabled: bool,
    pub chat_input_font_family: String,
    pub chat_input_relative_font_size: u64,
    pub chat_input_font_weight: u64,
    pub chat_input_font_underline: bool,
    pub chat_input_font_color: String,
    pub chat_input_position: ChatInputPosition,
    pub chat_output_font_family: String,
    pub chat_output_relative_font_size: u64,
    pub chat_output_font_weight: u64,
    pub chat_output_font_underline: bool,
    pub chat_output_mode: ChatOutputMode,
    pub chat_max_lines: u64,
    pub chat_top_margin: u64,
    pub chat_left_margin: u64,
    pub chat_bottom_margin: u64,
    pub chat_direct_input: bool,
    pub notification_timeout: u64,
    pub alert_timeout: u64,
    pub chat_timeout: u64,
    pub chat_output_enabled: bool,
    pub chat_move_osd: bool,
    pub chat_osd_margin: u64,
}

pub struct ChatStyleView {
    pub chat_input_enabled: bool,
    pub chat_input_font_family: Seq<char>,
    pub chat_input_relative_font_size: u64,
    pub chat_input_font_weight: u64,
    pub chat_input_font_underline: bool,
    pub chat_input_font_color: Seq<char>,
    pub chat_input_position: ChatInputPosition,
    pub chat_output_font_family: Seq<char>,
    pub chat_output_relative_font_size: u64,
    pub chat_output_font_weight: u64,
    pub chat_output_font_underline: bool,
    pub chat_output_mode: ChatOutputMode,
    pub chat_max_lines: u64,
    pub chat_top_margin: u64,
    pub chat_left_margin: u64,
    pub chat_bottom_margin: u64,
    pub chat_direct_input: bool,
    pub notification_timeout: u64,
    pub alert_timeout: u64,
    pub chat_timeout: u64,
    pub chat_output_enabled: bool,
    pub chat_move_osd: bool,
    pub chat_osd_margin: u64,
}

impl View for ChatStyle {
    type V = ChatStyleView;

    open spec fn view(&self) -> ChatStyleView {
        ChatStyleView {
            chat_input_enabled: self.chat_input_enabled,
            chat_input_font_family: self.chat_input_font_family@,
            chat_input_relative_font_size: self.chat_input_relative_font_size,
            chat_input_font_weight: self.chat_input_font_weight,
            chat_input_font_underline: self.chat_input_font_underline,
            chat_input_font_color: self.chat_input_font_color@,
            chat_input_position: self.chat_input_position,
            chat_output_font_family: self.chat_output_font_family@,
            chat_output_relative_font_size: self.chat_output_relative_font_size,
            chat_output_font_weight: self.chat_output_font_weight,
            chat_output_font_underline: self.chat_output_font_underline,
            chat_output_mode: self.chat_output_mode,
            chat_max_lines: self.chat_max_lines,
            chat_top_margin: self.chat_top_margin,
            chat_left_margin: self.chat_left_margin,
            chat_bottom_margin: self.chat_bottom_margin,
            chat_direct_input: self.chat_direct_input,
            notification_timeout: self.notification_timeout,
            alert_timeout: self.alert_timeout,
            chat_timeout: self.chat_timeout,
            chat_output_enabled: self.chat_output_enabled,
            chat_move_osd: self.chat_move_osd,
            chat_osd_margin: self.chat_osd_margin,
        }
    }
}

pub open spec fn truth_text(b: bool) -> Seq<char> {
    if b {
        "True"@
    } else {
        "False"@
    }
}

pub open spec fn position_text(p: ChatInputPosition) -> Seq<char> {
    match p {
        ChatInputPosition::Top => "Top"@,
        ChatInputPosition::Middle => "Middle"@,
        ChatInputPosition::Bottom => "Bottom"@,
    }
}

pub open spec fn mode_text(m: ChatOutputMode) -> Seq<char> {
    match m {
        ChatOutputMode::Chatroom => "Chatroom"@,
        ChatOutputMode::Scrolling => "Scrolling"@,
    }
}

/// The options of the player's script, one `name=value` each.
pub open spec fn option_list(c: ChatStyleView, max_chat: usize, osc_compatible: bool) -> Seq<
    Seq<char>,
> {
    seq![
        "chatInputEnabled="@ + truth_text(c.chat_input_enabled),
        "chatInputFontFamily="@ + c.chat_input_font_family,
        "chatInputRelativeFontSize="@ + decimal(c.chat_input_relative_font_size as nat),
        "chatInputFontWeight="@ + decimal(c.chat_input_font_weight as nat),
        "chatInputFontUnderline="@ + truth_text(c.chat_input_font_underline),
        "chatInputFontColor="@ + c.chat_input_font_color,
        "chatInputPosition="@ + position_text(c.chat_input_position),
        "chatOutputFontFamily="@ + c.chat_output_font_family,
        "chatOutputRelativeFontSize="@ + decimal(c.chat_output_relative_font_size as nat),
        "chatOutputFontWeight="@ + decimal(c.chat_output_font_weight as nat),
        "chatOutputFontUnderline="@ + truth_text(c.chat_output_font_underline),
        "chatOutputMode="@ + mode_text(c.chat_output_mode),
        "chatMaxLines="@ + decimal(c.chat_max_lines as nat),
        "chatTopMargin="@ + decimal(c.chat_top_margin as nat),
        "chatLeftMargin="@ + decimal(c.chat_left_margin as nat),
        "chatBottomMargin="@ + decimal(c.chat_bottom_margin as nat),
        "chatDirectInput="@ + truth_text(c.chat_direct_input),
        "notificationTimeout="@ + decimal(c.notification_timeout as nat),
        "alertTimeout="@ + decimal(c.alert_timeout as nat),
        "chatTimeout="@ + decimal(c.chat_timeout as nat),
        "chatOutputEnabled="@ + truth_text(c.chat_output_enabled),
        "MaxChatMessageLength="@ + decimal(max_chat as nat),
        "inputPromptStartCharacter=\u{3009}"@,
        "inputPromptEndCharacter= \u{3008}"@,
        "backslashSubstituteCharacter=\u{FF3C}"@,
        "mpv-key-tab-hint=[TAB] to toggle access to alphabet row key shortcuts."@,
        "mpv-key-hint=[ENTER] to send message. [ESC] to escape chat mode."@,
        "alphakey-mode-warning-first-line=You can temporarily use old mpv bindings with a-z keys."@,
        "alphakey-mode-warning-second-line=Press [TAB] to return to Syncplay chat mode."@,
        "OscVisibilityChangeCompatible="@ + truth_text(osc_compatible),
    ]
}

/// The options of the player's script as they are handed to it.
pub open spec fn options_text(c: ChatStyleView, max_chat: usize, osc_compatible: bool) -> Seq<char> {
    join(option_list(c, max_chat, osc_compatible), ", "@)
}

fn truth(b: bool) -> (r: Vec<char>)
    ensures
        r@ == truth_text(b),
{
    if b {
        to_chars("True")
    } else {
        to_chars("False")
    }
}

fn option(name: &str, value: &Vec<char>) -> (r: Vec<char>)
    ensures
        r@ == name@ + value@,
{
    let mut r = to_chars(name);
    append(&mut r, value);
    r
}

fn number(name: &str, n: u64) -> (r: Vec<char>)
    ensures
        r@ == name@ + decimal(n as nat),
{
    option(name, &decimal_chars(n))
}

fn style_options(c: &ChatStyle) -> (r: Vec<Vec<char>>)
    ensures
        views(r@) == option_list(c@, 0, false).take(21),
        r.len() == 21,
{
    let mut o: Vec<Vec<char>> = Vec::new();
    o.push(option("chatInputEnabled=", &truth(c.chat_input_enabled)));
    o.push(option("chatInputFontFamily=", &to_chars(c.chat_input_font_family.as_str())));
    o.push(number("chatInputRelativeFontSize=", c.chat_input_relative_font_size));
    o.push(number("chatInputFontWeight=", c.chat_input_font_weight));
    o.push(option("chatInputFontUnderline=", &truth(c.chat_input_font_underline)));
    o.push(option("chatInputFontColor=", &to_chars(c.chat_input_font_color.as_str())));
    o.push(
        option(
            "chatInputPosition=",
            &(match c.chat_input_position {
                ChatInputPosition::Top => to_chars("Top"),
                ChatInputPosition::Middle => to_chars("Middle"),
                ChatInputPosition::Bottom => to_chars("Bottom"),
            }),
        ),
    );
    o.push(option("chatOutputFontFamily=", &to_chars(c.chat_output_font_family.as_str())));
    o.push(number("chatOutputRelativeFontSize=", c.chat_output_relative_font_size));
    o.push(number("chatOutputFontWeight=", c.chat_output_font_weight));
    o.push(option("chatOutputFontUnderline=", &truth(c.chat_output_font_underline)));
    o.push(
        option(
            "chatOutputMode=",
            &(match c.chat_output_mode {
                ChatOutputMode::Chatroom => to_chars("Chatroom"),
                ChatOutputMode::Scrolling => to_chars("Scrolling"),
            }),
        ),
    );
    o.push(number("chatMaxLines=", c.chat_max_lines));
    o.push(number("chatTopMargin=", c.chat_top_margin));
    o.push(number("chatLeftMargin=", c.chat_left_margin));
    o.push(number("chatBottomMargin=", c.chat_bottom_margin));
    o.push(option("chatDirectInput=", &truth(c.chat_direct_input)));
    o.push(number("notificationTimeout=", c.notification_timeout));
    o.push(number("alertTimeout=", c.alert_timeout));
    o.push(number("chatTimeout=", c.chat_timeout));
    o.push(option("chatOutputEnabled=", &truth(c.chat_output_enabled)));
    assert(views(o@) =~= option_list(c@, 0, false).take(21));
    o
}

/// The options of the player's script.
pub fn build_syncplayintf_options(c: &ChatStyle, max_chat: usize, osc_compatible: bool) -> (r:
    String)
    ensures
        r@ == options_text(c@, max_chat, osc_compatible),
{
    let mut o = style_options(c);
    let ghost head = views(o@);
    o.push(number("MaxChatMessageLength=", max_chat as u64));
    o.push(to_chars("inputPromptStartCharacter=\u{3009}"));
    o.push(to_chars("inputPromptEndCharacter= \u{3008}"));
    o.push(to_chars("backslashSubstituteCharacter=\u{FF3C}"));
    o.push(to_chars("mpv-key-tab-hint=[TAB] to toggle access to alphabet row key shortcuts."));
    o.push(to_chars("mpv-key-hint=[ENTER] to send message. [ESC] to escape chat mode."));
    o.push(
        to_chars(
            "alphakey-mode-warning-first-line=You can temporarily use old mpv bindings with a-z keys.",
        ),
    );
    o.push(
        to_chars("alphakey-mode-warning-second-line=Press [TAB] to return to Syncplay chat mode."),
    );
    o.push(option("OscVisibilityChangeCompatible=", &truth(osc_compatible)));
    assert(views(o@) =~= option_list(c@, max_chat, osc_compatible)) by {
        let target = option_list(c@, max_chat, osc_compatible);
        assert(o@.len() == 30);
        assert(views(o@).len() == 30);
        assert forall|i: int| 0 <= i < 30 implies views(o@)[i] == target[i] by {
            if i < 21 {
                assert(views(o@)[i] == head[i]);
                assert(head[i] == option_list(c@, 0, false).take(21)[i]);
            }
        }
    }
    from_chars(&joined(&o, &to_chars(", ")))
}

/// Whether the player's own texts are moved out of the way of the chat.
pub open spec fn moves_osd(c: ChatStyleView) -> bool {
    c.chat_move_osd && (c.chat_output_enabled || (c.chat_input_enabled && c.chat_input_position
        == ChatInputPosition::Top))
}

pub fn apply_osd_position(c: &ChatStyle) -> (r: Option<u64>)
    ensures
        r == (if moves_osd(c@) {
            Some(c@.chat_osd_margin)
        } else {
            None
        }),
{
    if c.chat_move_osd && (c.chat_output_enabled || (c.chat_input_enabled && c.chat_input_position
        == ChatInputPosition::Top)) {
        Some(c.chat_osd_margin)
    } else {
        None
    }
}

} // verus!
