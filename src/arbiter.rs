//! The chat/override arbiter: whether a chat message takes the top of the
//! chatbox, and how it is set above the ambient text.

use vstd::prelude::*;
use vstd::string::*;
use crate::aggregate::{collect_fragments, fragments_of, SourceReadings};
use crate::chat::{latest_active, ChatMessage, ChatOptions};
use crate::tabs::IntegrationsTab;
use crate::text::{join_lines, joined, texts};
use crate::wrap::{fragment_lines, wrap, wrap_fragment, wrapped, Joiner, MAX_LINE_WIDTH};

verus! {

broadcast use vstd::string::group_string_axioms;

/// The speech-bubble marker `"🗨 "`.
pub open spec fn speech_prefix() -> Seq<char> {
    seq!['\u{1F5E8}', ' ']
}

/// A chat message's text as displayed: behind the marker when it is on.
pub open spec fn chat_text(add_speech_bubble: bool, text: Seq<char>) -> Seq<char> {
    if add_speech_bubble {
        speech_prefix() + text
    } else {
        text
    }
}

/// The ambient aggregate: the wrapped fragments of the enabled sources, one line each.
pub open spec fn ambient_of(tab: IntegrationsTab, r: SourceReadings, joiner: Joiner) -> Seq<char> {
    joined(wrapped(fragments_of(tab, r), joiner, MAX_LINE_WIDTH as nat))
}

/// A message wrapped to the line width, with the ambient text below it when
/// there is any.
pub open spec fn with_message(message: Seq<char>, ambient: Seq<char>) -> Seq<char> {
    joined(
        fragment_lines(message, MAX_LINE_WIDTH as nat) + if ambient.len() > 0 {
            seq![ambient]
        } else {
            Seq::empty()
        },
    )
}

/// The text a message shows: its edit buffer while it is being edited.
pub open spec fn shown_text(m: ChatMessage) -> Seq<char> {
    if m.editing {
        m.edit_text@
    } else {
        m.text@
    }
}

/// Whether the active message `m` takes the display: always outside live-edit
/// mode, and in it only while `m` is being edited.
pub open spec fn takes_display(opts: ChatOptions, m: ChatMessage) -> bool {
    !opts.live_editing || m.editing
}

/// The chatbox body at `now`: the active message over the ambient text when it
/// takes the display, else the ambient text alone.
pub open spec fn display_body(opts: ChatOptions, now: u64, ambient: Seq<char>) -> Seq<char> {
    match latest_active(opts.messages@, now, opts.chat_timeout) {
        Some(i) => {
            let m = opts.messages@[i as int];
            if takes_display(opts, m) {
                with_message(chat_text(opts.add_speech_bubble, shown_text(m)), ambient)
            } else {
                ambient
            }
        },
        None => ambient,
    }
}

/// The text of a chat message as displayed, with the marker when it is on.
pub fn format_chat_message(opts: &ChatOptions, text: &str) -> (r: String)
    ensures
        r@ == chat_text(opts.add_speech_bubble, text@),
{
    if opts.add_speech_bubble {
        proof {
            reveal_strlit("\u{1F5E8} ");
        }
        assert("\u{1F5E8} "@ =~= speech_prefix());
        let mut r = String::from_str("\u{1F5E8} ");
        r.append(text);
        r
    } else {
        String::from_str(text)
    }
}

/// Sets the message, wrapped, above the ambient text.
pub fn message_over(message: &str, ambient: &str) -> (r: String)
    ensures
        r@ == with_message(message@, ambient@),
{
    let mut lines = wrap_fragment(message, MAX_LINE_WIDTH);
    let ghost first = texts(lines@);
    if ambient.unicode_len() > 0 {
        lines.push(String::from_str(ambient));
        assert(texts(lines@) =~= first + seq![ambient@]);
    } else {
        assert(texts(lines@) =~= first + Seq::<Seq<char>>::empty());
    }
    join_lines(&lines)
}

/// The ambient aggregate of this tick.
pub fn ambient_body(tab: &IntegrationsTab, readings: &SourceReadings, joiner: Joiner) -> (r: String)
    ensures
        r@ == ambient_of(*tab, *readings, joiner),
{
    let fragments = collect_fragments(tab, readings);
    let lines = wrap(&fragments, joiner, MAX_LINE_WIDTH);
    join_lines(&lines)
}

/// The body to display at `now_ms` over the given ambient text.
pub fn arbitrate(opts: &ChatOptions, now_ms: u64, ambient: &str) -> (r: String)
    ensures
        r@ == display_body(*opts, now_ms, ambient@),
{
    match opts.find_active(now_ms) {
        Some(i) => {
            let m = &opts.messages[i];
            if !opts.live_editing || m.editing {
                let shown = if m.editing {
                    m.edit_text.as_str()
                } else {
                    m.text.as_str()
                };
                let text = format_chat_message(opts, shown);
                message_over(text.as_str(), ambient)
            } else {
                String::from_str(ambient)
            }
        },
        None => String::from_str(ambient),
    }
}

} // verus!
