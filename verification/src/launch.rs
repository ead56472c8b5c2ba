//! Starting a player: which program, with which arguments, and whether a
//! new one at all.
use crate::bridge::{mpv_version_captures, mpv_version_parts};
use crate::config::PlayerKind;
use crate::text::{
    all_digits, clone_texts, copy_str, digits_value, first_index_of, only_digits, opt_view,
    parse_digits, same_chars, text2, to_chars, trim, trimmed,
};
use crate::time::{elapsed, elapsed_ms};
use vstd::prelude::*;

verus! {

/// How long a started IINA counts as the one to use, in milliseconds.
pub const IINA_REUSE_TIME: u64 = 15000;

/// How often IINA is started before it is given up.
pub const IINA_SPAWN_ATTEMPTS: u32 = 3;

/// How long the client waits for a socket of IINA, in milliseconds.
pub const IINA_SOCKET_TIMEOUT: u64 = 10000;

/// What the player is told to print when it opens a file.
pub const TERM_PLAYING_MSG: &'static str =
    "<SyncplayUpdateFile>\nANS_filename=${filename}\nANS_length=${=duration:${=length:0}}\nANS_path=${path}\n</SyncplayUpdateFile>";

/// The program that is started: the one that the user has named, `mpv`
/// where none is named.
pub open spec fn player_path(configured: Seq<char>) -> Seq<char> {
    if trim(configured).len() == 0 || trim(configured) == "custom"@ {
        "mpv"@
    } else {
        trim(configured)
    }
}

pub fn resolve_player_path(configured: &str) -> (r: String)
    ensures
        r@ == player_path(configured@),
{
    let t = trimmed(&to_chars(configured));
    if t.len() == 0 || same_chars(&t, &to_chars("custom")) {
        copy_str("mpv")
    } else {
        crate::text::from_chars(&t)
    }
}

/// The arguments that the user has set for one player.
#[derive(Debug)]
pub struct PlayerArguments {
    pub player_path: String,
    pub arguments: Vec<String>,
}

pub struct PlayerArgumentsView {
    pub player_path: Seq<char>,
    pub arguments: Seq<Seq<char>>,
}

impl View for PlayerArguments {
    type V = PlayerArgumentsView;

    open spec fn view(&self) -> PlayerArgumentsView {
        PlayerArgumentsView {
            player_path: self.player_path@,
            arguments: self.arguments.deep_view(),
        }
    }
}

pub open spec fn argument_views(list: Seq<PlayerArguments>) -> Seq<PlayerArgumentsView> {
    Seq::new(list.len(), |i: int| list[i]@)
}

pub open spec fn argument_paths(list: Seq<PlayerArgumentsView>) -> Seq<Seq<char>> {
    Seq::new(list.len(), |i: int| list[i].player_path)
}

/// The arguments of a player: those for every player, then those set for
/// this one.
pub open spec fn player_arguments(
    general: Seq<Seq<char>>,
    per_player: Seq<PlayerArgumentsView>,
    path: Seq<char>,
) -> Seq<Seq<char>> {
    let i = first_index_of(argument_paths(per_player), path);
    if i >= 0 {
        general + per_player[i].arguments
    } else {
        general
    }
}

pub fn build_player_arguments(
    general: &Vec<String>,
    per_player: &Vec<PlayerArguments>,
    path: &str,
) -> (r: Vec<String>)
    ensures
        r.deep_view() == player_arguments(
            general.deep_view(),
            argument_views(per_player@),
            path@,
        ),
{
    let ghost paths = argument_paths(argument_views(per_player@));
    let mut args = clone_texts(general.as_slice());
    let mut i: usize = 0;
    while i < per_player.len()
        invariant
            i <= per_player.len(),
            paths == argument_paths(argument_views(per_player@)),
            args.deep_view() == general.deep_view(),
            first_index_of(paths, path@) == crate::text::index_from(paths, path@, i as int),
        decreases per_player.len() - i,
    {
        assert(paths[i as int] == per_player@[i as int].player_path@);
        if crate::text::texts_equal(&per_player[i].player_path, path) {
            let mut extra = clone_texts(per_player[i].arguments.as_slice());
            let ghost a = args.deep_view();
            let ghost b = extra.deep_view();
            args.append(&mut extra);
            assert(args.deep_view() =~= a + b);
            return args;
        }
        i = i + 1;
    }
    args
}

/// Whether a new player is started: always, but for IINA, of which the one
/// started less than fifteen seconds ago is used.
pub open spec fn spawns(kind: PlayerKind, last_spawn: Option<u64>, last_kind: Option<PlayerKind>, now: u64) -> bool {
    kind != PlayerKind::Iina || !(last_kind == Some(PlayerKind::Iina) && (match last_spawn {
        Some(t) => elapsed(now, t) < IINA_REUSE_TIME,
        None => false,
    }))
}

pub fn should_spawn_player(
    kind: PlayerKind,
    last_spawn: Option<u64>,
    last_kind: Option<PlayerKind>,
    now: u64,
) -> (r: bool)
    ensures
        r == spawns(kind, last_spawn, last_kind, now),
{
    if kind != PlayerKind::Iina {
        return true;
    }
    let recent = match last_spawn {
        Some(t) => elapsed_ms(now, t) < IINA_REUSE_TIME,
        None => false,
    };
    let was_iina = match last_kind {
        Some(k) => k == PlayerKind::Iina,
        None => false,
    };
    !(recent && was_iina)
}

/// How often the client tries to reach the socket of a player.
pub fn max_connect_attempts(kind: PlayerKind) -> (r: u32)
    ensures
        r == (if kind == PlayerKind::Iina {
            50u32
        } else {
            10u32
        }),
{
    if kind == PlayerKind::Iina {
        50
    } else {
        10
    }
}

/// The arguments with which a player of the mpv family is started, before
/// those of the user.
pub open spec fn mpv_arguments(
    kind: PlayerKind,
    socket_path: Seq<char>,
    placeholder: Option<Seq<char>>,
    script: Option<Seq<char>>,
) -> Seq<Seq<char>> {
    if kind == PlayerKind::Iina {
        seq!["--no-stdin"@] + (match placeholder {
            Some(p) => seq![p],
            None => Seq::empty(),
        }) + seq![
            "--mpv-keep-open=always"@,
            "--mpv-keep-open-pause=yes"@,
            "--mpv-idle=yes"@,
            "--mpv-input-terminal=no"@,
            "--mpv-hr-seek=always"@,
            "--mpv-force-window=yes"@,
            "--mpv-input-ipc-server="@ + socket_path,
            "--mpv-term-playing-msg="@ + TERM_PLAYING_MSG@,
        ] + (match script {
            Some(s) => seq!["--mpv-script="@ + s],
            None => Seq::empty(),
        })
    } else {
        seq![
            "--force-window=yes"@,
            "--idle=yes"@,
            "--keep-open=always"@,
            "--keep-open-pause=yes"@,
            "--hr-seek=always"@,
            "--input-terminal=no"@,
            "--input-ipc-server="@ + socket_path,
            "--term-playing-msg="@ + TERM_PLAYING_MSG@,
        ] + (match script {
            Some(s) => seq!["--script="@ + s],
            None => Seq::empty(),
        }) + (if kind == PlayerKind::MpvNet {
            seq!["--auto-load-folder=no"@]
        } else {
            Seq::empty()
        })
    }
}

fn push_text(list: &mut Vec<String>, text: String)
    ensures
        final(list).deep_view() == old(list).deep_view().push(text@),
{
    let ghost before = list.deep_view();
    list.push(text);
    assert(list.deep_view() =~= before.push(text@));
}

/// The arguments with which a player of the mpv family is started: those
/// of the client, then those of the user.
pub fn build_mpv_arguments(
    kind: PlayerKind,
    socket_path: &str,
    placeholder: Option<&str>,
    script: Option<&str>,
    args: &Vec<String>,
) -> (r: Vec<String>)
    ensures
        r.deep_view() == mpv_arguments(kind, socket_path@, opt_view(placeholder), opt_view(script))
            + args.deep_view(),
{
    let mut full: Vec<String> = Vec::new();
    assert(full.deep_view() =~= Seq::<Seq<char>>::empty());
    if kind == PlayerKind::Iina {
        push_text(&mut full, copy_str("--no-stdin"));
        match placeholder {
            Some(p) => {
                push_text(&mut full, copy_str(p));
            },
            None => {},
        }
        push_text(&mut full, copy_str("--mpv-keep-open=always"));
        push_text(&mut full, copy_str("--mpv-keep-open-pause=yes"));
        push_text(&mut full, copy_str("--mpv-idle=yes"));
        push_text(&mut full, copy_str("--mpv-input-terminal=no"));
        push_text(&mut full, copy_str("--mpv-hr-seek=always"));
        push_text(&mut full, copy_str("--mpv-force-window=yes"));
        push_text(&mut full, text2("--mpv-input-ipc-server=", socket_path));
        push_text(&mut full, text2("--mpv-term-playing-msg=", TERM_PLAYING_MSG));
        match script {
            Some(s) => {
                push_text(&mut full, text2("--mpv-script=", s));
            },
            None => {},
        }
    } else {
        push_text(&mut full, copy_str("--force-window=yes"));
        push_text(&mut full, copy_str("--idle=yes"));
        push_text(&mut full, copy_str("--keep-open=always"));
        push_text(&mut full, copy_str("--keep-open-pause=yes"));
        push_text(&mut full, copy_str("--hr-seek=always"));
        push_text(&mut full, copy_str("--input-terminal=no"));
        push_text(&mut full, text2("--input-ipc-server=", socket_path));
        push_text(&mut full, text2("--term-playing-msg=", TERM_PLAYING_MSG));
        match script {
            Some(s) => {
                push_text(&mut full, text2("--script=", s));
            },
            None => {},
        }
        if kind == PlayerKind::MpvNet {
            push_text(&mut full, copy_str("--auto-load-folder=no"));
        }
    }
    assert(full.deep_view() =~= mpv_arguments(
        kind,
        socket_path@,
        opt_view(placeholder),
        opt_view(script),
    ));
    let ghost head = full.deep_view();
    let mut tail = clone_texts(args.as_slice());
    let ghost t = tail.deep_view();
    full.append(&mut tail);
    assert(full.deep_view() =~= head + t);
    full
}

/// The number that a run of digits denotes, 0 where it is too large.
pub open spec fn version_part(digits: Seq<char>) -> nat {
    if all_digits(digits) && digits_value(digits) <= 0xffff_ffff {
        digits_value(digits)
    } else {
        0
    }
}

/// What the version of mpv means, read from what `mpv --version` prints:
/// a version before 0.23 cannot be used; one from 0.28 on can change the
/// visibility of its controls. A text that names no version is taken for an
/// old mpv that can be used.
pub open spec fn mpv_version_checked(output: Seq<char>) -> Result<bool, Seq<char>> {
    match mpv_version_captures(output) {
        Some((major, minor)) => if version_part(major) == 0 && version_part(minor) < 23 {
            Err(
                "This version of mpv is not compatible with Syncplay. Please use mpv >= 0.23.0."@,
            )
        } else {
            Ok(version_part(major) > 0 || version_part(minor) >= 28)
        },
        None => Ok(false),
    }
}

fn part_value(digits: &str) -> (r: u64)
    ensures
        r == version_part(digits@),
{
    let d = to_chars(digits);
    if !only_digits(&d) {
        return 0;
    }
    match parse_digits(&d, 0xffff_ffff) {
        Some(n) => n,
        None => 0,
    }
}

pub open spec fn flag_outcome(r: Result<bool, String>) -> Result<bool, Seq<char>> {
    match r {
        Ok(b) => Ok(b),
        Err(e) => Err(e@),
    }
}

/// Reads the version of mpv from what it prints.
pub fn check_mpv_version(output: &str) -> (r: Result<bool, String>)
    ensures
        flag_outcome(r) == mpv_version_checked(output@),
{
    match mpv_version_parts(output) {
        Some((major, minor)) => judge_mpv_version(major.as_str(), minor.as_str()),
        None => Ok(false),
    }
}

/// What the two numbers of a version of mpv mean.
pub fn judge_mpv_version(major: &str, minor: &str) -> (r: Result<bool, String>)
    ensures
        flag_outcome(r) == (if version_part(major@) == 0 && version_part(minor@) < 23 {
            Err::<bool, Seq<char>>(
                "This version of mpv is not compatible with Syncplay. Please use mpv >= 0.23.0."@,
            )
        } else {
            Ok(version_part(major@) > 0 || version_part(minor@) >= 28)
        }),
{
    let a = part_value(major);
    let b = part_value(minor);
    if a == 0 && b < 23 {
        return Err(
            copy_str(
                "This version of mpv is not compatible with Syncplay. Please use mpv >= 0.23.0.",
            ),
        );
    }
    Ok(a > 0 || b >= 28)
}

/// How a player of a kind is brought up.
#[derive(Clone, Copy, Debug, PartialEq, Eq, Structural)]
pub enum StartPlan {
    /// A player of the mpv family: started where `spawn` is set, then
    /// reached over its socket.
    Mpv { spawn: bool },
    /// VLC with its scripted interface.
    Vlc,
    /// MPlayer in slave mode.
    Mplayer,
    /// Media Player Classic with its window messages.
    Mpc,
}

pub open spec fn plan_outcome(r: Result<StartPlan, String>) -> Result<StartPlan, Seq<char>> {
    match r {
        Ok(p) => Ok(p),
        Err(e) => Err(e@),
    }
}

/// How a player of a kind is brought up: a player that is reached over a
/// port or a window has to be started by the client; a kind that is not
/// known cannot be used.
pub open spec fn start_plan(kind: PlayerKind, path: Seq<char>, spawn: bool) -> Result<
    StartPlan,
    Seq<char>,
> {
    match kind {
        PlayerKind::Mpv | PlayerKind::MpvNet | PlayerKind::Iina => Ok(StartPlan::Mpv { spawn }),
        PlayerKind::Unknown => Err("Unsupported player path: "@ + path),
        _ => if !spawn {
            Err("Player not running"@)
        } else if kind == PlayerKind::Vlc {
            Ok(StartPlan::Vlc)
        } else if kind == PlayerKind::Mplayer {
            Ok(StartPlan::Mplayer)
        } else {
            Ok(StartPlan::Mpc)
        },
    }
}

pub fn plan_player_start(kind: PlayerKind, path: &str, spawn: bool) -> (r: Result<StartPlan, String>)
    ensures
        plan_outcome(r) == start_plan(kind, path@, spawn),
{
    match kind {
        PlayerKind::Mpv | PlayerKind::MpvNet | PlayerKind::Iina => Ok(StartPlan::Mpv { spawn }),
        PlayerKind::Unknown => Err(text2("Unsupported player path: ", path)),
        PlayerKind::Vlc => if spawn {
            Ok(StartPlan::Vlc)
        } else {
            Err(copy_str("Player not running"))
        },
        PlayerKind::Mplayer => if spawn {
            Ok(StartPlan::Mplayer)
        } else {
            Err(copy_str("Player not running"))
        },
        PlayerKind::MpcHc | PlayerKind::MpcBe => if spawn {
            Ok(StartPlan::Mpc)
        } else {
            Err(copy_str("Player not running"))
        },
    }
}

/// What a wait for the socket of a started player comes to.
#[derive(Clone, Copy, Debug, PartialEq, Eq, Structural)]
pub enum SocketWait {
    /// The socket is there.
    Ready,
    /// The player has ended with an error.
    Failed,
    /// The time is up.
    TimedOut,
    /// Look again in a tenth of a second.
    Again,
}

/// One look at the socket of a started player: whether it is there,
/// whether the player has ended and how, and how long the wait has lasted.
pub fn wait_for_ipc_socket(socket_exists: bool, exit_success: Option<bool>, waited: u64, timeout: u64) -> (r:
    SocketWait)
    ensures
        r == (if waited >= timeout {
            SocketWait::TimedOut
        } else if socket_exists {
            SocketWait::Ready
        } else if exit_success == Some(false) {
            SocketWait::Failed
        } else {
            SocketWait::Again
        }),
{
    if waited >= timeout {
        SocketWait::TimedOut
    } else if socket_exists {
        SocketWait::Ready
    } else {
        match exit_success {
            Some(ok) => if ok {
                SocketWait::Again
            } else {
                SocketWait::Failed
            },
            None => SocketWait::Again,
        }
    }
}

/// How long the client waits before it tries again to start or to reach a
/// player, in milliseconds.
pub const PLAYER_RETRY_WAIT: u64 = 200;

/// What follows a try that has failed.
#[derive(Clone, Copy, Debug, PartialEq, Eq, Structural)]
pub enum RetryStep {
    /// Wait for so many milliseconds and try again.
    Again(u64),
    /// Give up, with the error of the last try.
    GiveUp,
}

/// What follows when IINA was started and its socket did not appear:
/// it is started again until it was started three times. `attempts` counts
/// the starts so far, the failed one included.
pub fn after_spawn_failure(attempts: u32) -> (r: RetryStep)
    ensures
        r == (if attempts < IINA_SPAWN_ATTEMPTS {
            RetryStep::Again(PLAYER_RETRY_WAIT)
        } else {
            RetryStep::GiveUp
        }),
{
    if attempts < IINA_SPAWN_ATTEMPTS {
        RetryStep::Again(PLAYER_RETRY_WAIT)
    } else {
        RetryStep::GiveUp
    }
}

/// What follows when the socket of a player could not be reached: the
/// client tries again until it has tried as often as the kind of player
/// allows. `attempts` counts the tries so far, the failed one included.
pub fn after_connect_failure(kind: PlayerKind, attempts: u32) -> (r: RetryStep)
    ensures
        r == (if attempts >= (if kind == PlayerKind::Iina {
            50u32
        } else {
            10u32
        }) {
            RetryStep::GiveUp
        } else {
            RetryStep::Again(PLAYER_RETRY_WAIT)
        }),
{
    if attempts >= max_connect_attempts(kind) {
        RetryStep::GiveUp
    } else {
        RetryStep::Again(PLAYER_RETRY_WAIT)
    }
}

/// What is said when the socket of a player could not be reached.
pub fn connect_failure_text(cause: &str) -> (r: String)
    ensures
        r@ == "Failed to connect to mpv IPC: "@ + cause@,
{
    text2("Failed to connect to mpv IPC: ", cause)
}

/// Whether the version of a player is looked at before it is used: IINA
/// is taken as new enough without a look.
pub fn needs_version_check(kind: PlayerKind) -> (r: bool)
    ensures
        r == (kind != PlayerKind::Iina),
{
    kind != PlayerKind::Iina
}

} // verus!
