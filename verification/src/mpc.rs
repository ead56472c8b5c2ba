//! Media Player Classic: the messages that go to and come from its window.
use crate::config::PlayerKind;
use crate::properties::{PlayerState, PlayerStateView};
use crate::text::{
    copy_str, from_chars, opt_view, parse_thousandths, same_chars, split, split_on, text3,
    thousandths, to_chars, trim, trimmed, views,
};
use crate::vlc::{meets_min_version, signed_or_zero, version_sufficient};
use vstd::prelude::*;

verus! {

pub const MPC_MIN_VER: &'static str = "1.6.4";

pub const MPC_BE_MIN_VER: &'static str = "1.5.2.3123";

/// How often a command is tried before it is given up.
pub const MPC_MAX_RETRIES: usize = 30;

pub const MPC_OSD_POSITION: i32 = 1;

pub const CMD_CONNECT: u32 = 0x50000000;

pub const CMD_STATE: u32 = 0x50000001;

pub const CMD_PLAYMODE: u32 = 0x50000002;

pub const CMD_NOWPLAYING: u32 = 0x50000003;

pub const CMD_CURRENTPOSITION: u32 = 0x50000007;

pub const CMD_NOTIFYSEEK: u32 = 0x50000008;

pub const CMD_VERSION: u32 = 0x5000000A;

pub const CMD_DISCONNECT: u32 = 0x5000000B;

pub const CMD_OPENFILE: u32 = 0xA0000000;

pub const CMD_PLAYPAUSE: u32 = 0xA0000003;

pub const CMD_PLAY: u32 = 0xA0000004;

pub const CMD_PAUSE: u32 = 0xA0000005;

pub const CMD_SETPOSITION: u32 = 0xA0002000;

pub const CMD_GETCURRENTPOSITION: u32 = 0xA0003004;

pub const CMD_GETVERSION: u32 = 0xA0003006;

pub const CMD_SETSPEED: u32 = 0xA0004008;

pub const CMD_OSDSHOWMESSAGE: u32 = 0xA0005000;

pub const CMD_CLOSEAPP: u32 = 0xA0004006;

/// What goes with a command.
#[derive(Debug, Clone)]
pub enum CommandPayload {
    Text(String),
    Osd { message: String, duration_ms: i32, position: i32 },
    Raw(Vec<u8>),
}

/// The state of reading fields: those that are complete, the one that is
/// being read, and whether the next character is taken as it is.
pub struct Fields {
    pub done: Seq<Seq<char>>,
    pub current: Seq<char>,
    pub escape: bool,
}

pub open spec fn fields_read(input: Seq<char>) -> Fields
    decreases input.len(),
{
    if input.len() == 0 {
        Fields { done: Seq::empty(), current: Seq::empty(), escape: false }
    } else {
        let before = fields_read(input.drop_last());
        let ch = input.last();
        if before.escape {
            Fields { current: before.current.push(ch), escape: false, ..before }
        } else if ch == '\\' {
            Fields { escape: true, ..before }
        } else if ch == '|' {
            Fields { done: before.done.push(before.current), current: Seq::empty(), ..before }
        } else {
            Fields { current: before.current.push(ch), ..before }
        }
    }
}

/// The fields of a message: what stands between the bars, a character
/// after a backslash taken as it is; a last field that is empty is left out.
pub open spec fn mpc_fields(input: Seq<char>) -> Seq<Seq<char>> {
    let f = fields_read(input);
    if f.current.len() > 0 {
        f.done.push(f.current)
    } else {
        f.done
    }
}

pub fn split_mpc_fields(input: &str) -> (r: Vec<String>)
    ensures
        r.deep_view() == mpc_fields(input@),
{
    let s = to_chars(input);
    let mut parts: Vec<Vec<char>> = Vec::new();
    let mut current: Vec<char> = Vec::new();
    let mut escape = false;
    let mut i: usize = 0;
    assert(s@.take(0) =~= Seq::<char>::empty());
    assert(views(parts@) =~= Seq::<Seq<char>>::empty());
    while i < s.len()
        invariant
            i <= s.len(),
            views(parts@) == fields_read(s@.take(i as int)).done,
            current@ == fields_read(s@.take(i as int)).current,
            escape == fields_read(s@.take(i as int)).escape,
        decreases s.len() - i,
    {
        let ch = s[i];
        proof {
            assert(s@.take(i + 1).drop_last() =~= s@.take(i as int));
            assert(s@.take(i + 1).last() == ch);
        }
        let ghost before = views(parts@);
        if escape {
            current.push(ch);
            escape = false;
        } else if ch == '\\' {
            escape = true;
        } else if ch == '|' {
            parts.push(current);
            current = Vec::new();
            assert(views(parts@) =~= before.push(fields_read(s@.take(i as int)).current));
        } else {
            current.push(ch);
        }
        i = i + 1;
    }
    assert(s@.take(s.len() as int) =~= s@);
    if current.len() > 0 {
        let ghost before = views(parts@);
        parts.push(current);
        assert(views(parts@) =~= before.push(fields_read(s@).current));
    }
    crate::text::to_strings(&parts)
}

/// A version of the form `1.6.4.…`: the one in which pause and play are
/// the other way round.
pub open spec fn switches_pause(version: Seq<char>) -> bool {
    let parts = split(version, '.');
    parts.len() >= 3 && parts[0] == "1"@ && parts[1] == "6"@ && parts[2] == "4"@
}

pub fn is_switch_pause_version(version: &str) -> (r: bool)
    ensures
        r == switches_pause(version@),
{
    let parts = split_on(&to_chars(version), '.');
    if parts.len() < 3 {
        return false;
    }
    assert(views(parts@)[0] == parts@[0]@);
    assert(views(parts@)[1] == parts@[1]@);
    assert(views(parts@)[2] == parts@[2]@);
    same_chars(&parts[0], &to_chars("1")) && same_chars(&parts[1], &to_chars("6")) && same_chars(
        &parts[2],
        &to_chars("4"),
    )
}

/// The least version of a player of that kind.
pub open spec fn least_version(kind: PlayerKind) -> Seq<char> {
    if kind == PlayerKind::MpcBe {
        "1.5.2.3123"@
    } else {
        "1.6.4"@
    }
}

pub fn min_version(kind: PlayerKind) -> (r: &'static str)
    ensures
        r@ == least_version(kind),
{
    match kind {
        PlayerKind::MpcBe => MPC_BE_MIN_VER,
        _ => MPC_MIN_VER,
    }
}

/// The complaint about a player that is too old.
pub open spec fn too_old_text(kind: PlayerKind) -> Seq<char> {
    if kind == PlayerKind::MpcBe {
        "MPC version not sufficient, please use `mpc-be` >= `"@ + "1.5.2.3123"@ + "`"@
    } else {
        "MPC version not sufficient, please use `mpc-hc` >= `"@ + "1.6.4"@ + "`"@
    }
}

pub fn min_version_message(kind: PlayerKind) -> (r: String)
    ensures
        r@ == too_old_text(kind),
{
    match kind {
        PlayerKind::MpcBe => text3(
            "MPC version not sufficient, please use `mpc-be` >= `",
            MPC_BE_MIN_VER,
            "`",
        ),
        _ => text3("MPC version not sufficient, please use `mpc-hc` >= `", MPC_MIN_VER, "`"),
    }
}

/// Whether a player of a kind and version can be used: the version is
/// known and new enough.
pub open spec fn version_accepted(kind: PlayerKind, version: Seq<char>) -> bool {
    version.len() > 0 && version_sufficient(version, least_version(kind))
}

pub fn check_version(kind: PlayerKind, version: &str) -> (r: Result<bool, String>)
    ensures
        match r {
            Ok(switch) => version_accepted(kind, version@) && switch == switches_pause(version@),
            Err(e) => !version_accepted(kind, version@) && e@ == too_old_text(kind),
        },
{
    if to_chars(version).len() == 0 {
        return Err(min_version_message(kind));
    }
    if !meets_min_version(version, min_version(kind)) {
        return Err(min_version_message(kind));
    }
    Ok(is_switch_pause_version(version))
}

/// What the player tells.
#[derive(Debug)]
pub enum MpcEvent {
    /// The player's window, by its handle.
    Connected(i64),
    LoadState(i32),
    PlayState(i32),
    NowPlaying(String),
    /// The position in milliseconds.
    Position(i64),
    /// The position after a seek, in milliseconds.
    Seek(i64),
    Version(String),
    Disconnected,
}

pub enum MpcEventView {
    Connected(i64),
    LoadState(i32),
    PlayState(i32),
    NowPlaying(Seq<char>),
    Position(i64),
    Seek(i64),
    Version(Seq<char>),
    Disconnected,
}

impl View for MpcEvent {
    type V = MpcEventView;

    open spec fn view(&self) -> MpcEventView {
        match self {
            MpcEvent::Connected(h) => MpcEventView::Connected(*h),
            MpcEvent::LoadState(s) => MpcEventView::LoadState(*s),
            MpcEvent::PlayState(s) => MpcEventView::PlayState(*s),
            MpcEvent::NowPlaying(v) => MpcEventView::NowPlaying(v@),
            MpcEvent::Position(p) => MpcEventView::Position(*p),
            MpcEvent::Seek(p) => MpcEventView::Seek(*p),
            MpcEvent::Version(v) => MpcEventView::Version(v@),
            MpcEvent::Disconnected => MpcEventView::Disconnected,
        }
    }
}

/// The whole number that a text denotes, where it denotes one that 32 bits
/// with a sign hold.
pub open spec fn whole_number(text: Seq<char>) -> Option<int> {
    let digits = if text.len() > 0 && (text[0] == '-' || text[0] == '+') {
        text.skip(1)
    } else {
        text
    };
    if digits.len() > 0 && crate::text::all_digits(digits) && crate::text::digits_value(digits)
        <= (if text[0] == '-' {
        0x8000_0000int
    } else {
        0x7fff_ffffint
    }) {
        Some(signed_or_zero(text))
    } else {
        None
    }
}

fn read_whole(text: &Vec<char>) -> (r: Option<i32>)
    ensures
        (match r {
            Some(n) => Some(n as int),
            None => None,
        }) == whole_number(text@),
{
    let negative = text.len() > 0 && text[0] == '-';
    let digits = if text.len() > 0 && (text[0] == '-' || text[0] == '+') {
        let d = crate::text::slice(text, 1, text.len());
        assert(d@ =~= text@.skip(1));
        d
    } else {
        crate::text::slice(text, 0, text.len())
    };
    assert(digits@ =~= (if text@.len() > 0 && (text@[0] == '-' || text@[0] == '+') {
        text@.skip(1)
    } else {
        text@
    }));
    if digits.len() == 0 || !crate::text::only_digits(&digits) {
        return None;
    }
    let limit: u64 = if negative {
        0x8000_0000
    } else {
        0x7fff_ffff
    };
    match crate::text::parse_digits(&digits, limit) {
        Some(n) => if negative {
            Some((-(n as i64)) as i32)
        } else {
            Some(n as i32)
        },
        None => None,
    }
}

/// What a message of the player's window tells; nothing where the command
/// is not known or its value cannot be read.
pub open spec fn message_read(cmd: u32, value: Seq<char>) -> Option<MpcEventView> {
    if cmd == CMD_CONNECT {
        match whole_number(trim(value)) {
            Some(h) => Some(MpcEventView::Connected(h as i64)),
            None => None,
        }
    } else if cmd == CMD_STATE {
        match whole_number(trim(value)) {
            Some(s) => Some(MpcEventView::LoadState(s as i32)),
            None => None,
        }
    } else if cmd == CMD_PLAYMODE {
        match whole_number(trim(value)) {
            Some(s) => Some(MpcEventView::PlayState(s as i32)),
            None => None,
        }
    } else if cmd == CMD_NOWPLAYING {
        Some(MpcEventView::NowPlaying(value))
    } else if cmd == CMD_CURRENTPOSITION {
        match thousandths(trim(value)) {
            Some(p) => Some(MpcEventView::Position(p as i64)),
            None => None,
        }
    } else if cmd == CMD_NOTIFYSEEK {
        match thousandths(trim(value)) {
            Some(p) => Some(MpcEventView::Seek(p as i64)),
            None => None,
        }
    } else if cmd == CMD_VERSION {
        Some(MpcEventView::Version(value))
    } else if cmd == CMD_DISCONNECT {
        Some(MpcEventView::Disconnected)
    } else {
        None
    }
}

pub fn read_message(cmd: u32, value: &str) -> (r: Option<MpcEvent>)
    ensures
        opt_view(r) == message_read(cmd, value@),
{
    let t = trimmed(&to_chars(value));
    if cmd == CMD_CONNECT {
        match read_whole(&t) {
            Some(h) => Some(MpcEvent::Connected(h as i64)),
            None => None,
        }
    } else if cmd == CMD_STATE {
        match read_whole(&t) {
            Some(s) => Some(MpcEvent::LoadState(s)),
            None => None,
        }
    } else if cmd == CMD_PLAYMODE {
        match read_whole(&t) {
            Some(s) => Some(MpcEvent::PlayState(s)),
            None => None,
        }
    } else if cmd == CMD_NOWPLAYING {
        Some(MpcEvent::NowPlaying(copy_str(value)))
    } else if cmd == CMD_CURRENTPOSITION {
        match parse_thousandths(from_chars(&t).as_str()) {
            Some(p) => Some(MpcEvent::Position(p)),
            None => None,
        }
    } else if cmd == CMD_NOTIFYSEEK {
        match parse_thousandths(from_chars(&t).as_str()) {
            Some(p) => Some(MpcEvent::Seek(p)),
            None => None,
        }
    } else if cmd == CMD_VERSION {
        Some(MpcEvent::Version(copy_str(value)))
    } else if cmd == CMD_DISCONNECT {
        Some(MpcEvent::Disconnected)
    } else {
        None
    }
}

/// What is known of the player besides its playback.
#[derive(Debug)]
pub struct MpcState {
    pub player: PlayerState,
    pub file_ready: bool,
    pub switch_pause_calls: bool,
    pub version: Option<String>,
}

pub struct MpcStateView {
    pub player: PlayerStateView,
    pub file_ready: bool,
    pub switch_pause_calls: bool,
    pub version: Option<Seq<char>>,
}

impl View for MpcState {
    type V = MpcStateView;

    open spec fn view(&self) -> MpcStateView {
        MpcStateView {
            player: self.player@,
            file_ready: self.file_ready,
            switch_pause_calls: self.switch_pause_calls,
            version: opt_view(self.version),
        }
    }
}

/// Whether a file is ready in a state of loading: in any but closed,
/// loading and closing.
pub open spec fn ready_in(state_code: i32) -> bool {
    !(state_code == 0 || state_code == 1 || state_code == 3)
}

/// What the player tells of the file that it plays: its path and its
/// duration, where the message has five fields.
pub open spec fn now_playing(value: Seq<char>) -> Option<(Seq<char>, Option<i64>)> {
    let parts = mpc_fields(value);
    if parts.len() >= 5 {
        Some(
            (
                parts[3],
                match thousandths(parts[4]) {
                    Some(d) => Some(d as i64),
                    None => None,
                },
            ),
        )
    } else {
        None
    }
}

/// The state after the player has told something. `file_name` is the file
/// name of the path in a message about the file that is played.
pub open spec fn event_applied(s: MpcStateView, event: MpcEventView, file_name: Option<Seq<char>>) -> MpcStateView {
    match event {
        MpcEventView::Connected(_) => s,
        MpcEventView::LoadState(code) => MpcStateView {
            file_ready: ready_in(code),
            player: if ready_in(code) {
                s.player
            } else {
                PlayerStateView { paused: None, ..s.player }
            },
            ..s
        },
        MpcEventView::PlayState(p) => MpcStateView {
            player: PlayerStateView { paused: Some(p != 0), ..s.player },
            ..s
        },
        MpcEventView::NowPlaying(v) => match now_playing(v) {
            Some((path, duration)) => MpcStateView {
                player: PlayerStateView {
                    path: Some(path),
                    filename: file_name,
                    duration,
                    ..s.player
                },
                ..s
            },
            None => s,
        },
        MpcEventView::Position(p) => MpcStateView {
            player: PlayerStateView { position: Some(p), ..s.player },
            ..s
        },
        MpcEventView::Seek(p) => MpcStateView {
            player: PlayerStateView { position: Some(p), ..s.player },
            ..s
        },
        MpcEventView::Version(v) => MpcStateView {
            version: Some(v),
            switch_pause_calls: s.switch_pause_calls || switches_pause(v),
            ..s
        },
        MpcEventView::Disconnected => MpcStateView { file_ready: false, ..s },
    }
}

/// The path in a message about the file that is played.
pub fn now_playing_path(value: &str) -> (r: Option<String>)
    ensures
        opt_view(r) == (match now_playing(value@) {
            Some((path, _)) => Some(path),
            None => None,
        }),
{
    let parts = split_mpc_fields(value);
    assert(parts.deep_view().len() == parts@.len());
    if parts.len() >= 5 {
        assert(parts.deep_view()[3] == parts@[3]@);
        Some(parts[3].clone())
    } else {
        None
    }
}

/// Takes what the player has told.
pub fn handle_event(state: &mut MpcState, event: &MpcEvent, file_name: Option<&str>)
    ensures
        final(state)@ == event_applied(old(state)@, event@, opt_view(file_name)),
{
    match event {
        MpcEvent::Connected(_) => {},
        MpcEvent::LoadState(code) => {
            let ready = !(*code == 0 || *code == 1 || *code == 3);
            state.file_ready = ready;
            if !ready {
                state.player.paused = None;
            }
        },
        MpcEvent::PlayState(p) => {
            state.player.paused = Some(*p != 0);
        },
        MpcEvent::NowPlaying(value) => {
            let parts = split_mpc_fields(value.as_str());
            assert(parts.deep_view().len() == parts@.len());
            if parts.len() >= 5 {
                assert(parts.deep_view()[3] == parts@[3]@);
                assert(parts.deep_view()[4] == parts@[4]@);
                state.player.path = Some(parts[3].clone());
                state.player.filename = match file_name {
                    Some(n) => Some(copy_str(n)),
                    None => None,
                };
                state.player.duration = parse_thousandths(parts[4].as_str());
            }
        },
        MpcEvent::Position(p) => {
            state.player.position = Some(*p);
        },
        MpcEvent::Seek(p) => {
            state.player.position = Some(*p);
        },
        MpcEvent::Version(v) => {
            state.version = Some(v.clone());
            if is_switch_pause_version(v.as_str()) {
                state.switch_pause_calls = true;
            }
        },
        MpcEvent::Disconnected => {
            state.file_ready = false;
        },
    }
}

/// The command that pauses or plays: in the version in which the two are
/// the other way round, the other one.
pub open spec fn pause_command(paused: bool, switch_pause_calls: bool) -> u32 {
    if paused != switch_pause_calls {
        CMD_PAUSE
    } else {
        CMD_PLAY
    }
}

pub fn set_paused_command(paused: bool, switch_pause_calls: bool) -> (r: u32)
    ensures
        r == pause_command(paused, switch_pause_calls),
{
    let value = if switch_pause_calls {
        !paused
    } else {
        paused
    };
    if value {
        CMD_PAUSE
    } else {
        CMD_PLAY
    }
}

/// Whether the pause is toggled once more: the player has told a pause
/// other than the one asked for.
pub fn needs_toggle(state: &MpcState, paused: bool) -> (r: bool)
    ensures
        r == (match state@.player.paused {
            Some(current) => current != paused,
            None => false,
        }),
{
    match state.player.paused {
        Some(current) => current != paused,
        None => false,
    }
}

/// The units of UTF-16 that a character takes.
pub open spec fn utf16_units(c: char) -> Seq<u16> {
    let n = c as u32;
    if n < 0x10000 {
        seq![n as u16]
    } else {
        seq![
            (0xD800 + ((n - 0x10000) as u32 / 0x400)) as u16,
            (0xDC00 + ((n - 0x10000) as u32 % 0x400)) as u16,
        ]
    }
}

/// A text in UTF-16 with a null at its end, each unit as two bytes, the
/// low one first.
pub open spec fn wide_bytes(text: Seq<char>) -> Seq<u8>
    decreases text.len(),
{
    if text.len() == 0 {
        seq![0u8, 0u8]
    } else {
        units_bytes(utf16_units(text[0])) + wide_bytes(text.drop_first())
    }
}

pub open spec fn units_bytes(units: Seq<u16>) -> Seq<u8>
    decreases units.len(),
{
    if units.len() == 0 {
        Seq::empty()
    } else {
        seq![(units[0] % 256) as u8, (units[0] / 256) as u8] + units_bytes(units.drop_first())
    }
}

pub open spec fn le_bytes(n: i32) -> Seq<u8> {
    let u = if n < 0 {
        n + 0x1_0000_0000
    } else {
        n as int
    };
    seq![
        (u % 256) as u8,
        ((u / 0x100) % 256) as u8,
        ((u / 0x1_0000) % 256) as u8,
        ((u / 0x100_0000) % 256) as u8,
    ]
}

/// The bytes that go with a command: a text in UTF-16; for a text over the
/// picture its position and duration before it; or the bytes as they are.
pub open spec fn payload_bytes(payload: Option<CommandPayload>) -> Seq<u8> {
    match payload {
        Some(CommandPayload::Text(t)) => wide_bytes(t@),
        Some(CommandPayload::Osd { message, duration_ms, position }) => le_bytes(position)
            + le_bytes(duration_ms) + wide_bytes(message@),
        Some(CommandPayload::Raw(raw)) => raw@,
        None => Seq::empty(),
    }
}

fn push_unit(out: &mut Vec<u8>, unit: u16)
    ensures
        final(out)@ == old(out)@ + seq![(unit % 256) as u8, (unit / 256) as u8],
{
    out.push((unit % 256) as u8);
    out.push((unit / 256) as u8);
    assert(out@ =~= old(out)@ + seq![(unit % 256) as u8, (unit / 256) as u8]);
}

fn push_wide(out: &mut Vec<u8>, text: &str)
    ensures
        final(out)@ == old(out)@ + wide_bytes(text@),
{
    let chars = to_chars(text);
    let ghost start = out@;
    let mut i: usize = 0;
    assert(chars@.skip(0) =~= chars@);
    while i < chars.len()
        invariant
            i <= chars.len(),
            out@ + wide_bytes(chars@.skip(i as int)) == start + wide_bytes(chars@),
        decreases chars.len() - i,
    {
        let n: u32 = chars[i] as u32;
        proof {
            reveal_with_fuel(units_bytes, 3);
        }
        let ghost before = out@;
        let ghost rest = chars@.skip(i as int);
        proof {
            assert(rest[0] == chars@[i as int]);
            assert(rest.drop_first() =~= chars@.skip(i + 1));
        }
        if n < 0x10000 {
            push_unit(out, n as u16);
            proof {
                let u = utf16_units(chars@[i as int]);
                assert(u =~= seq![n as u16]);
                assert(u.drop_first() =~= Seq::<u16>::empty());
                assert(units_bytes(u) =~= seq![(n as u16 % 256) as u8, (n as u16 / 256) as u8]);
                assert(out@ + wide_bytes(chars@.skip(i + 1)) =~= before + wide_bytes(rest));
            }
        } else {
            let hi: u16 = (0xD800 + (n - 0x10000) / 0x400) as u16;
            let lo: u16 = (0xDC00 + (n - 0x10000) % 0x400) as u16;
            push_unit(out, hi);
            push_unit(out, lo);
            proof {
                let u = utf16_units(chars@[i as int]);
                assert(u =~= seq![hi, lo]);
                assert(u.drop_first() =~= seq![lo]);
                assert(u.drop_first().drop_first() =~= Seq::<u16>::empty());
                assert(units_bytes(u) =~= seq![
                    (hi % 256) as u8,
                    (hi / 256) as u8,
                    (lo % 256) as u8,
                    (lo / 256) as u8,
                ]);
                assert(out@ + wide_bytes(chars@.skip(i + 1)) =~= before + wide_bytes(rest));
            }
        }
        i = i + 1;
    }
    let ghost before = out@;
    out.push(0);
    out.push(0);
    assert(out@ =~= before + wide_bytes(chars@.skip(chars.len() as int)));
}

fn push_le(out: &mut Vec<u8>, n: i32)
    ensures
        final(out)@ == old(out)@ + le_bytes(n),
{
    let u: u64 = if n < 0 {
        (n as i64 + 0x1_0000_0000) as u64
    } else {
        n as u64
    };
    out.push((u % 256) as u8);
    out.push(((u / 0x100) % 256) as u8);
    out.push(((u / 0x1_0000) % 256) as u8);
    out.push(((u / 0x100_0000) % 256) as u8);
    assert(out@ =~= old(out)@ + le_bytes(n));
}

/// The bytes that go with a command.
pub fn build_payload(payload: Option<CommandPayload>) -> (r: Vec<u8>)
    ensures
        r@ == payload_bytes(payload),
{
    let mut out: Vec<u8> = Vec::new();
    match payload {
        Some(CommandPayload::Text(t)) => {
            push_wide(&mut out, t.as_str());
            assert(out@ =~= wide_bytes(t@));
        },
        Some(CommandPayload::Osd { message, duration_ms, position }) => {
            push_le(&mut out, position);
            push_le(&mut out, duration_ms);
            push_wide(&mut out, message.as_str());
            assert(out@ =~= le_bytes(position) + le_bytes(duration_ms) + wide_bytes(message@));
        },
        Some(CommandPayload::Raw(raw)) => {
            return raw;
        },
        None => {},
    }
    out
}

/// The arguments with which the player is started: those given, `/open`
/// and `/new` where they are missing, whatever their case.
pub open spec fn has_flag(args: Seq<Seq<char>>, flag: Seq<char>) -> bool {
    exists|i: int| 0 <= i < args.len() && crate::text::eq_ignore_case(#[trigger] args[i], flag)
}

pub open spec fn start_args(args: Seq<Seq<char>>) -> Seq<Seq<char>> {
    let with_open = if has_flag(args, "/open"@) {
        args
    } else {
        args.push("/open"@)
    };
    if has_flag(with_open, "/new"@) {
        with_open
    } else {
        with_open.push("/new"@)
    }
}

fn holds_flag(args: &Vec<String>, flag: &str) -> (r: bool)
    ensures
        r == has_flag(args.deep_view(), flag@),
{
    let f = to_chars(flag);
    let mut i: usize = 0;
    assert(args.deep_view().len() == args@.len());
    while i < args.len()
        invariant
            i <= args.len(),
            f@ == flag@,
            args.deep_view().len() == args@.len(),
            forall|j: int|
                0 <= j < i ==> !crate::text::eq_ignore_case(#[trigger] args.deep_view()[j], flag@),
        decreases args.len() - i,
    {
        assert(args.deep_view()[i as int] == args@[i as int]@);
        if crate::text::same_ignore_case(&to_chars(args[i].as_str()), &f) {
            return true;
        }
        i = i + 1;
    }
    false
}

pub fn build_start_args(args: &Vec<String>) -> (r: Vec<String>)
    ensures
        r.deep_view() == start_args(args.deep_view()),
{
    let mut r = crate::text::clone_texts(args.as_slice());
    if !holds_flag(&r, "/open") {
        let ghost before = r.deep_view();
        r.push(copy_str("/open"));
        assert(r.deep_view() =~= before.push("/open"@));
    }
    if !holds_flag(&r, "/new") {
        let ghost before = r.deep_view();
        r.push(copy_str("/new"));
        assert(r.deep_view() =~= before.push("/new"@));
    }
    r
}

} // verus!
