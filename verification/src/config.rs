//! The settings that the logic reads.
use vstd::prelude::*;

verus! {

/// How much of a file's name or size leaves this machine.
#[derive(Clone, Copy, Debug, PartialEq, Eq, Structural)]
pub enum PrivacyMode {
    SendRaw,
    SendHashed,
    DoNotSend,
}

/// When a local unpause may start playback for the room.
#[derive(Clone, Copy, Debug, PartialEq, Eq, Structural)]
pub enum UnpauseAction {
    Always,
    IfAlreadyReady,
    IfOthersReady,
    IfMinUsersReady,
}

/// What the user has chosen. Times are in milliseconds, the slowdown rate in
/// thousandths of the normal speed.
#[derive(Clone, Copy, Debug, PartialEq, Eq, Structural)]
pub struct UserPreferences {
    pub seek_threshold_rewind: i64,
    pub seek_threshold_fastforward: i64,
    pub slowdown_threshold: i64,
    pub slowdown_reset_threshold: i64,
    pub slowdown_rate: i64,
    pub rewind_on_desync: bool,
    pub fastforward_on_desync: bool,
    pub slow_on_desync: bool,
    pub dont_slow_down_with_me: bool,
    pub show_osd: bool,
    pub show_osd_warnings: bool,
    pub show_same_room_osd: bool,
    pub show_different_room_osd: bool,
    pub show_slowdown_osd: bool,
    pub show_non_controller_osd: bool,
    pub show_duration_notification: bool,
    pub osd_duration: u64,
    pub ready_at_start: bool,
    pub pause_on_leave: bool,
    pub autoplay_enabled: bool,
    pub autoplay_min_users: i32,
    pub autoplay_require_same_filenames: bool,
    pub unpause_action: UnpauseAction,
    pub shared_playlist_enabled: bool,
    pub loop_at_end_of_playlist: bool,
    pub loop_single_files: bool,
    pub chat_input_enabled: bool,
    pub chat_output_enabled: bool,
    pub filename_privacy_mode: PrivacyMode,
    pub filesize_privacy_mode: PrivacyMode,
    pub only_switch_to_trusted_domains: bool,
    pub autosave_joins_to_list: bool,
}

impl Default for UserPreferences {
    fn default() -> (r: Self)
        ensures
            r.seek_threshold_rewind == 4000,
            r.seek_threshold_fastforward == 5000,
            r.slowdown_threshold == 1500,
            r.slowdown_reset_threshold == 500,
            r.slowdown_rate == 950,
            r.rewind_on_desync && r.fastforward_on_desync && r.slow_on_desync,
            !r.dont_slow_down_with_me,
            r.shared_playlist_enabled,
    {
        UserPreferences {
            seek_threshold_rewind: 4000,
            seek_threshold_fastforward: 5000,
            slowdown_threshold: 1500,
            slowdown_reset_threshold: 500,
            slowdown_rate: 950,
            rewind_on_desync: true,
            fastforward_on_desync: true,
            slow_on_desync: true,
            dont_slow_down_with_me: false,
            show_osd: true,
            show_osd_warnings: true,
            show_same_room_osd: true,
            show_different_room_osd: false,
            show_slowdown_osd: true,
            show_non_controller_osd: false,
            show_duration_notification: true,
            osd_duration: 3000,
            ready_at_start: false,
            pause_on_leave: false,
            autoplay_enabled: false,
            autoplay_min_users: -1,
            autoplay_require_same_filenames: true,
            unpause_action: UnpauseAction::IfOthersReady,
            shared_playlist_enabled: true,
            loop_at_end_of_playlist: false,
            loop_single_files: false,
            chat_input_enabled: true,
            chat_output_enabled: true,
            filename_privacy_mode: PrivacyMode::SendRaw,
            filesize_privacy_mode: PrivacyMode::SendRaw,
            only_switch_to_trusted_domains: true,
            autosave_joins_to_list: true,
        }
    }
}

/// The players that can be driven.
#[derive(Clone, Copy, Debug, PartialEq, Eq, Structural)]
pub enum PlayerKind {
    Mpv,
    MpvNet,
    Iina,
    Vlc,
    Mplayer,
    MpcHc,
    MpcBe,
    Unknown,
}

} // verus!
