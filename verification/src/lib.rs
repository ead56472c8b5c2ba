pub mod bridge;
pub mod commands;
pub mod config;
pub mod connection;
pub mod control;
pub mod dispatch;
pub mod events;
pub mod framing;
pub mod launch;
pub mod media_index;
pub mod messages;
pub mod mpc;
pub mod mpv;
pub mod mpv_commands;
pub mod mpv_ipc;
pub mod ping;
pub mod player_loop;
pub mod playlist;
pub mod playlist_commands;
pub mod properties;
pub mod protocol;
pub mod readiness;
pub mod reconcile;
pub mod session;
pub mod set_message;
pub mod state;
pub mod sync;
pub mod text;
pub mod time;
pub mod tls;
pub mod users;
pub mod utils;
pub mod vlc;
pub mod warnings;
