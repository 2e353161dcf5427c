//! The chatbox message on the wire: the body with its control suffix, encoded
//! as an OSC packet.

use vstd::prelude::*;
use vstd::string::*;
use vstd::utf8::encode_utf8;

verus! {

broadcast use vstd::string::group_string_axioms;

/// Settings of the chatbox protocol.
#[derive(Clone, Copy, Debug)]
pub struct ExtraOptions {
    pub enabled: bool,
    /// Append the slim-mode control characters to every message.
    pub slim_mode: bool,
}

/// The OSC address of the chatbox input.
pub open spec fn chatbox_address() -> Seq<char> {
    seq!['/', 'c', 'h', 'a', 't', 'b', 'o', 'x', '/', 'i', 'n', 'p', 'u', 't']
}

/// The control characters that slim mode appends: U+0003 then U+001F.
pub open spec fn slim_suffix() -> Seq<char> {
    seq!['\u{3}', '\u{1f}']
}

/// The bytes followed by 1 to 4 zero bytes, to a multiple of four in all.
pub open spec fn osc_string(b: Seq<u8>) -> Seq<u8> {
    b + Seq::new((4 - b.len() % 4) as nat, |i: int| 0u8)
}

/// The OSC type tag of a boolean argument: `T` or `F`.
pub open spec fn bool_tag(b: bool) -> u8 {
    if b {
        84u8
    } else {
        70u8
    }
}

/// An OSC message with address `addr` and the arguments (string `text`, bool
/// `first`, bool `second`): the padded address, the padded type tags
/// `,s` and two bool tags, then the padded string; a bool carries no data.
pub open spec fn osc_message_bytes(addr: Seq<char>, text: Seq<char>, first: bool, second: bool) -> Seq<u8> {
    osc_string(encode_utf8(addr)) + osc_string(seq![44u8, 115u8, bool_tag(first), bool_tag(second)])
        + osc_string(encode_utf8(text))
}

/// The text that goes out: the body, then the slim-mode suffix when it is on.
pub open spec fn wire_text(body: Seq<char>, slim_mode: bool) -> Seq<char> {
    if slim_mode {
        body + slim_suffix()
    } else {
        body
    }
}

/// Relies on rosc::encoder::encode, which writes an OSC message as its padded
/// address, its padded type tags and each argument's data, and always returns `Ok`.
#[verifier::external_body]
fn encode_osc_message(addr: &str, text: &str, first: bool, second: bool) -> (r: Option<Vec<u8>>)
    ensures
        r is Some,
        r is Some ==> (r->0)@ == osc_message_bytes(addr@, text@, first, second),
{
    let packet = rosc::OscPacket::Message(rosc::OscMessage {
        addr: addr.to_string(),
        args: vec![rosc::OscType::String(text.to_string()), rosc::OscType::Bool(first), rosc::OscType::Bool(second)],
    });
    rosc::encoder::encode(&packet).ok()
}

/// The packet for the chatbox: the body (with the slim-mode suffix when that is
/// on), shown at once, with the notification sound when `play_fx` is set.
pub fn chatbox_packet(body: &str, play_fx: bool, slim_mode: bool) -> (r: Vec<u8>)
    ensures
        r@ == osc_message_bytes(chatbox_address(), wire_text(body@, slim_mode), true, play_fx),
{
    let mut text = String::from_str(body);
    if slim_mode {
        proof {
            reveal_strlit("\u{3}\u{1f}");
        }
        assert("\u{3}\u{1f}"@ =~= slim_suffix());
        text.append("\u{3}\u{1f}");
    }
    proof {
        reveal_strlit("/chatbox/input");
    }
    assert("/chatbox/input"@ =~= chatbox_address());
    match encode_osc_message("/chatbox/input", text.as_str(), true, play_fx) {
        Some(b) => b,
        None => Vec::new(),
    }
}

} // verus!
