//! The commands that the client gives to a player of the mpv family.
use crate::mpv::{chat_message_text, chat_shown, MpvCommand, MpvCommandView};
use crate::properties::{property_number, property_text, PropertyId};
use crate::text::{
    copy_str, decimal, decimal_chars, format_thousandths, from_chars, replace, replaced,
    thousandths_text, to_chars,
};
use vstd::prelude::*;

verus! {

/// How long a text stays over the picture where nothing else is said, in
/// milliseconds.
pub const DEFAULT_OSD_DURATION: u64 = 3000;

/// A command of the given words that waits for no answer.
pub open spec fn command(words: Seq<Seq<char>>) -> MpvCommandView {
    MpvCommandView { command: words, request_id: None }
}

fn push_word(list: &mut Vec<String>, word: String)
    ensures
        final(list).deep_view() == old(list).deep_view().push(word@),
{
    let ghost before = list.deep_view();
    list.push(word);
    assert(list.deep_view() =~= before.push(word@));
}

fn words2(a: String, b: String) -> (r: MpvCommand)
    ensures
        r@ == command(seq![a@, b@]),
{
    let mut w: Vec<String> = Vec::new();
    assert(w.deep_view() =~= Seq::<Seq<char>>::empty());
    push_word(&mut w, a);
    push_word(&mut w, b);
    assert(w.deep_view() =~= seq![a@, b@]);
    MpvCommand { command: w, request_id: None }
}

fn words3(a: String, b: String, c: String) -> (r: MpvCommand)
    ensures
        r@ == command(seq![a@, b@, c@]),
{
    let mut w: Vec<String> = Vec::new();
    assert(w.deep_view() =~= Seq::<Seq<char>>::empty());
    push_word(&mut w, a);
    push_word(&mut w, b);
    push_word(&mut w, c);
    assert(w.deep_view() =~= seq![a@, b@, c@]);
    MpvCommand { command: w, request_id: None }
}

fn words4(a: String, b: String, c: String, d: String) -> (r: MpvCommand)
    ensures
        r@ == command(seq![a@, b@, c@, d@]),
{
    let mut w: Vec<String> = Vec::new();
    assert(w.deep_view() =~= Seq::<Seq<char>>::empty());
    push_word(&mut w, a);
    push_word(&mut w, b);
    push_word(&mut w, c);
    push_word(&mut w, d);
    assert(w.deep_view() =~= seq![a@, b@, c@, d@]);
    MpvCommand { command: w, request_id: None }
}

/// Go to a position, given in milliseconds and written in seconds.
pub fn set_position(position: i64) -> (r: MpvCommand)
    ensures
        r@ == command(seq!["set_property"@, "time-pos"@, thousandths_text(position as int)]),
{
    words3(copy_str("set_property"), copy_str("time-pos"), format_thousandths(position))
}

/// Pause or play.
pub fn set_paused(paused: bool) -> (r: MpvCommand)
    ensures
        r@ == command(
            seq![
                "set_property"@,
                "pause"@,
                if paused {
                    "yes"@
                } else {
                    "no"@
                },
            ],
        ),
{
    words3(
        copy_str("set_property"),
        copy_str("pause"),
        if paused {
            copy_str("yes")
        } else {
            copy_str("no")
        },
    )
}

/// Play at a speed, given in thousandths of the normal speed.
pub fn set_speed(speed: i64) -> (r: MpvCommand)
    ensures
        r@ == command(seq!["set_property"@, "speed"@, thousandths_text(speed as int)]),
{
    words3(copy_str("set_property"), copy_str("speed"), format_thousandths(speed))
}

/// Open a file in the place of the one that is open.
pub fn load_file(path: &str) -> (r: MpvCommand)
    ensures
        r@ == command(seq!["loadfile"@, path@, "replace"@]),
{
    words3(copy_str("loadfile"), copy_str(path), copy_str("replace"))
}

/// Ask for the value of a property.
pub fn get_property(property: PropertyId) -> (r: MpvCommand)
    ensures
        r@ == command(seq!["get_property"@, property_text(property)]),
{
    words2(copy_str("get_property"), copy_str(property.property_name()))
}

/// Ask to be told of every change of a property, under its number.
pub fn observe_property(property: PropertyId) -> (r: MpvCommand)
    ensures
        r@ == command(
            seq![
                "observe_property"@,
                decimal(property_number(property) as nat),
                property_text(property),
            ],
        ),
{
    words3(
        copy_str("observe_property"),
        from_chars(&decimal_chars(property.as_u64())),
        copy_str(property.property_name()),
    )
}

/// A text without double quotes: each is replaced by a single one.
pub open spec fn unquoted(text: Seq<char>) -> Seq<char> {
    replace(text, "\""@, "'"@)
}

fn unquote(text: &str) -> (r: String)
    ensures
        r@ == unquoted(text@),
{
    proof {
        reveal_strlit("\"");
    }
    from_chars(&replaced(&to_chars(text), &to_chars("\""), &to_chars("'")))
}

/// The command that shows a text over the picture: through the script of
/// the player where the chat is shown there, else by the player itself for
/// the given time.
pub open spec fn osd_command(text: Seq<char>, duration_ms: Option<u64>, chat_output_enabled: bool) -> MpvCommandView {
    if chat_output_enabled {
        command(
            seq![
                "script-message-to"@,
                "syncplayintf"@,
                "notification-osd-neutral"@,
                unquoted(text),
            ],
        )
    } else {
        command(
            seq![
                "show-text"@,
                text,
                decimal(
                    (match duration_ms {
                        Some(d) => d,
                        None => DEFAULT_OSD_DURATION,
                    }) as nat,
                ),
            ],
        )
    }
}

/// Show a text over the picture.
pub fn show_osd(text: &str, duration_ms: Option<u64>, chat_output_enabled: bool) -> (r: MpvCommand)
    ensures
        r@ == osd_command(text@, duration_ms, chat_output_enabled),
{
    if chat_output_enabled {
        let r = words4(
            copy_str("script-message-to"),
            copy_str("syncplayintf"),
            copy_str("notification-osd-neutral"),
            unquote(text),
        );
        assert(r@.command =~= osd_command(text@, duration_ms, chat_output_enabled).command);
        r
    } else {
        let d: u64 = match duration_ms {
            Some(d) => d,
            None => DEFAULT_OSD_DURATION,
        };
        let r = words3(copy_str("show-text"), copy_str(text), from_chars(&decimal_chars(d)));
        assert(r@.command =~= osd_command(text@, duration_ms, chat_output_enabled).command);
        r
    }
}

/// Show a line of chat through the script of the player.
pub fn show_chat_message(username: Option<&str>, message: &str) -> (r: MpvCommand)
    ensures
        r@ == command(
            seq![
                "script-message-to"@,
                "syncplayintf"@,
                "chat"@,
                chat_shown(crate::text::opt_view(username), message@),
            ],
        ),
{
    words4(
        copy_str("script-message-to"),
        copy_str("syncplayintf"),
        copy_str("chat"),
        chat_message_text(username, message),
    )
}

/// Hand the script of the player its options.
pub fn send_options(options: &str) -> (r: MpvCommand)
    ensures
        r@ == command(
            seq!["script-message-to"@, "syncplayintf"@, "set_syncplayintf_options"@, options@],
        ),
{
    words4(
        copy_str("script-message-to"),
        copy_str("syncplayintf"),
        copy_str("set_syncplayintf_options"),
        copy_str(options),
    )
}

/// Ask for the length of the file, for a player that does not tell the
/// duration.
pub fn get_length() -> (r: MpvCommand)
    ensures
        r@ == command(seq!["get_property"@, "length"@]),
{
    words2(copy_str("get_property"), copy_str("length"))
}

/// Ask for the lines of the player's log from a level on.
pub fn request_log_messages(level: &str) -> (r: MpvCommand)
    ensures
        r@ == command(seq!["request_log_messages"@, level@]),
{
    words2(copy_str("request_log_messages"), copy_str(level))
}

/// End the player.
pub fn quit() -> (r: MpvCommand)
    ensures
        r@ == command(seq!["quit"@]),
{
    let mut w: Vec<String> = Vec::new();
    assert(w.deep_view() =~= Seq::<Seq<char>>::empty());
    push_word(&mut w, copy_str("quit"));
    assert(w.deep_view() =~= seq!["quit"@]);
    MpvCommand { command: w, request_id: None }
}

/// Put the player's own texts at the bottom, above a margin, so that they
/// leave the chat alone.
pub fn move_osd(margin: u64) -> (r: (MpvCommand, MpvCommand))
    ensures
        r.0@ == command(seq!["set_property"@, "osd-align-y"@, "bottom"@]),
        r.1@ == command(seq!["set_property"@, "osd-margin-y"@, decimal(margin as nat)]),
{
    (
        words3(copy_str("set_property"), copy_str("osd-align-y"), copy_str("bottom")),
        words3(
            copy_str("set_property"),
            copy_str("osd-margin-y"),
            from_chars(&decimal_chars(margin)),
        ),
    )
}

} // verus!
