//! The media source: the track that the media player reports.

use vstd::prelude::*;
use vstd::string::*;
use crate::text::{trim, trimmed};

verus! {

broadcast use vstd::string::group_string_axioms;

/// Settings of the media source.
#[derive(Clone, Debug)]
pub struct MediaLinkOptions {
    pub enabled: bool,
    pub use_music_note_prefix: bool,
    pub show_pause_emoji: bool,
    pub auto_switch_state: bool,
    pub auto_switch_session: bool,
    pub forget_session_seconds: u32,
    pub show_progress: bool,
    pub seekbar_style: String,
}

impl MediaLinkOptions {
    /// The default settings.
    pub fn new() -> (r: MediaLinkOptions)
        ensures
            r.enabled,
            !r.use_music_note_prefix,
            r.show_pause_emoji,
            r.auto_switch_state,
            r.auto_switch_session,
            r.forget_session_seconds == 300,
            r.show_progress,
            r.seekbar_style@ == seq!['S', 'm', 'a', 'l', 'l', ' ', 'n', 'u', 'm', 'b', 'e', 'r', 's'],
    {
        proof {
            reveal_strlit("Small numbers");
        }
        let r = MediaLinkOptions {
            enabled: true,
            use_music_note_prefix: false,
            show_pause_emoji: true,
            auto_switch_state: true,
            auto_switch_session: true,
            forget_session_seconds: 300,
            show_progress: true,
            seekbar_style: String::from_str("Small numbers"),
        };
        assert(r.seekbar_style@ =~= seq!['S', 'm', 'a', 'l', 'l', ' ', 'n', 'u', 'm', 'b', 'e', 'r', 's']);
        r
    }
}

/// The player state that means paused.
pub open spec fn paused_word() -> Seq<char> {
    seq!['P', 'a', 'u', 's', 'e', 'd']
}

/// What a paused player shows: the pause sign `"⏸"` or the word.
pub open spec fn paused_text(show_pause_emoji: bool) -> Seq<char> {
    if show_pause_emoji {
        seq!['\u{23F8}']
    } else {
        paused_word()
    }
}

/// The prefix of a track: `"🎵 "` or `"Listening to: "`.
pub open spec fn track_prefix(use_music_note_prefix: bool) -> Seq<char> {
    if use_music_note_prefix {
        seq!['\u{1F3B5}', ' ']
    } else {
        seq!['L', 'i', 's', 't', 'e', 'n', 'i', 'n', 'g', ' ', 't', 'o', ':', ' ']
    }
}

/// The media text from the player's state and its `artist - title` line, both
/// as the player printed them (`None` when it could not be asked).
pub open spec fn track_text(options: MediaLinkOptions, state: Option<Seq<char>>, track: Option<Seq<char>>) -> Option<
    Seq<char>,
> {
    match state {
        None => None,
        Some(st) => if trimmed(st) == paused_word() {
            Some(paused_text(options.show_pause_emoji))
        } else {
            match track {
                None => None,
                Some(t) => if trimmed(t).len() == 0 {
                    None
                } else {
                    Some(track_prefix(options.use_music_note_prefix) + trimmed(t))
                },
            }
        },
    }
}

/// The view of an optional text.
pub open spec fn opt_view(s: Option<String>) -> Option<Seq<char>> {
    match s {
        Some(t) => Some(t@),
        None => None,
    }
}

/// The media source; the player is asked by the caller.
pub struct MediaLinkModule;

impl MediaLinkModule {
    pub fn new() -> MediaLinkModule {
        MediaLinkModule
    }

    /// Whether the player's state output, trimmed, reads `Playing`.
    pub fn is_playing(&self, state_output: &Option<String>) -> (r: bool)
        ensures
            r == (state_output matches Some(s) && trimmed(s@) == seq!['P', 'l', 'a', 'y', 'i', 'n', 'g']),
    {
        match state_output {
            Some(s) => {
                proof {
                    reveal_strlit("Playing");
                }
                let playing = String::from_str("Playing");
                assert(playing@ =~= seq!['P', 'l', 'a', 'y', 'i', 'n', 'g']);
                trim(s.as_str()) == playing
            },
            None => false,
        }
    }

    /// The media text for what the player reported.
    pub fn get_formatted_track(
        &self,
        options: &MediaLinkOptions,
        state_output: &Option<String>,
        track_output: &Option<String>,
    ) -> (r: Option<String>)
        ensures
            opt_view(r) == track_text(*options, opt_view(*state_output), opt_view(*track_output)),
    {
        let state = match state_output {
            Some(s) => trim(s.as_str()),
            None => return None,
        };
        proof {
            reveal_strlit("Paused");
            reveal_strlit("\u{23F8}");
            reveal_strlit("\u{1F3B5} ");
            reveal_strlit("Listening to: ");
        }
        let paused = String::from_str("Paused");
        assert(paused@ =~= paused_word());
        if state == paused {
            let r = if options.show_pause_emoji {
                String::from_str("\u{23F8}")
            } else {
                paused
            };
            assert(r@ =~= paused_text(options.show_pause_emoji));
            return Some(r);
        }
        let track = match track_output {
            Some(t) => trim(t.as_str()),
            None => return None,
        };
        if track.as_str().unicode_len() == 0 {
            return None;
        }
        let prefix = if options.use_music_note_prefix {
            "\u{1F3B5} "
        } else {
            "Listening to: "
        };
        assert(prefix@ =~= track_prefix(options.use_music_note_prefix));
        let r = String::from_str(prefix).concat(track.as_str());
        Some(r)
    }
}

} // verus!
