//! The window activity source: a description of the focused window or VR
//! application, from a title that the caller detects.

use vstd::prelude::*;
use vstd::string::*;
use crate::text::{joined, join_lines};
use crate::wrap::{fragment_lines, wrap_fragment, MAX_LINE_WIDTH};

verus! {

broadcast use vstd::string::group_string_axioms;

/// `s` with each occurrence of the non-empty `pat`, from the left and without
/// overlap, replaced by `rep`.
pub open spec fn replaced(s: Seq<char>, pat: Seq<char>, rep: Seq<char>) -> Seq<char>
    decreases s.len(),
{
    if s.len() == 0 {
        Seq::empty()
    } else if 0 < pat.len() <= s.len() && s.take(pat.len() as int) == pat {
        rep + replaced(s.skip(pat.len() as int), pat, rep)
    } else {
        seq![s[0]] + replaced(s.skip(1), pat, rep)
    }
}

/// Replaces every occurrence of `pat` in `s` by `rep`.
pub fn replace_all(s: &str, pat: &str, rep: &str) -> (r: String)
    requires
        pat@.len() > 0,
    ensures
        r@ == replaced(s@, pat@, rep@),
{
    let n = s.unicode_len();
    let plen = pat.unicode_len();
    let pattern = String::from_str(pat);
    let mut out = String::new();
    let mut i: usize = 0;
    assert(s@.skip(0) =~= s@);
    while i < n
        invariant
            n == s@.len(),
            plen == pat@.len(),
            pattern@ == pat@,
            plen > 0,
            i <= n,
            replaced(s@, pat@, rep@) == out@ + replaced(s@.skip(i as int), pat@, rep@),
        decreases n - i,
    {
        let ghost rest = s@.skip(i as int);
        if plen <= n - i && String::from_str(s.substring_char(i, i + plen)) == pattern {
            assert(rest.take(plen as int) =~= s@.subrange(i as int, i + plen));
            assert(rest.skip(plen as int) =~= s@.skip(i + plen));
            out.append(rep);
            i = i + plen;
        } else {
            if plen <= n - i {
                assert(rest.take(plen as int) =~= s@.subrange(i as int, i + plen));
            }
            assert(rest.skip(1) =~= s@.skip(i + 1));
            out.append(s.substring_char(i, i + 1));
            assert(s@.subrange(i as int, i + 1) =~= seq![rest[0]]);
            i = i + 1;
        }
    }
    assert(s@.skip(n as int) =~= Seq::<char>::empty());
    assert(out@ + Seq::<char>::empty() =~= out@);
    out
}

/// How the focused window or VR application is described.
#[derive(Clone, Debug)]
pub struct WindowActivityOptions {
    pub enabled: bool,
    pub max_title_length: u32,
    pub show_desktop_app: bool,
    pub desktop_prefix: String,
    pub desktop_middle: String,
    pub desktop_suffix: String,
    pub show_vr_app: bool,
    pub vr_prefix: String,
    pub vr_middle: String,
    pub vr_suffix: String,
}

impl Default for WindowActivityOptions {
    fn default() -> (r: WindowActivityOptions)
        ensures
            r.enabled,
            r.max_title_length == 50,
            r.show_desktop_app,
            r.desktop_prefix@ == "On desktop"@,
            r.desktop_middle@ == "in"@,
            r.desktop_suffix@ == "%app%"@,
            r.show_vr_app,
            r.vr_prefix@ == "In VR"@,
            r.vr_middle@ == "focusing in"@,
            r.vr_suffix@ == "%app%"@,
    {
        WindowActivityOptions {
            enabled: true,
            max_title_length: 50,
            show_desktop_app: true,
            desktop_prefix: String::from_str("On desktop"),
            desktop_middle: String::from_str("in"),
            desktop_suffix: String::from_str("%app%"),
            show_vr_app: true,
            vr_prefix: String::from_str("In VR"),
            vr_middle: String::from_str("focusing in"),
            vr_suffix: String::from_str("%app%"),
        }
    }
}


/// The name placeholder in the description parts.
pub open spec fn app_placeholder() -> Seq<char> {
    seq!['%', 'a', 'p', 'p', '%']
}

/// The texts that the detector reports when it has no window title.
pub open spec fn is_no_title(title: Seq<char>) -> bool {
    ||| title.len() == 0
    ||| title == "No active window"@
    ||| title == "No display server"@
    ||| title == "Window detection unavailable"@
    ||| title == "Wayland detection failed"@
}

/// A title longer than `max` cut to `max - 3` characters and followed by `"..."`.
pub open spec fn shortened(title: Seq<char>, max: nat) -> Seq<char> {
    if title.len() > max {
        title.take(if max >= 3 { max - 3 } else { 0 }) + seq!['.', '.', '.']
    } else {
        title
    }
}

/// Adds a part to the words so far, with one space between non-empty parts.
pub open spec fn join_step(acc: Seq<char>, part: Seq<char>) -> Seq<char> {
    if part.len() == 0 {
        acc
    } else if acc.len() == 0 {
        part
    } else {
        acc + seq![' '] + part
    }
}

/// The description for a window title: with no title, the prefix alone (if
/// any); else the prefix, middle and suffix (only the prefix when showing the
/// application is off), with `%app%` replaced by the shortened title, wrapped
/// to the line width.
pub open spec fn activity_text(options: WindowActivityOptions, title: Seq<char>, in_vr: bool) -> Option<Seq<char>> {
    let prefix = if in_vr { options.vr_prefix@ } else { options.desktop_prefix@ };
    let middle = if in_vr { options.vr_middle@ } else { options.desktop_middle@ };
    let suffix = if in_vr { options.vr_suffix@ } else { options.desktop_suffix@ };
    let show = if in_vr { options.show_vr_app } else { options.show_desktop_app };
    if is_no_title(title) {
        if prefix.len() > 0 { Some(prefix) } else { None }
    } else {
        let parts = if show {
            join_step(join_step(prefix, middle), suffix)
        } else {
            prefix
        };
        let text = replaced(parts, app_placeholder(), shortened(title, options.max_title_length as nat));
        Some(joined(fragment_lines(text, MAX_LINE_WIDTH as nat)))
    }
}

fn add_part(acc: &mut String, part: &str)
    ensures
        final(acc)@ == join_step(old(acc)@, part@),
{
    if part.unicode_len() > 0 {
        if acc.as_str().unicode_len() > 0 {
            proof {
                reveal_strlit(" ");
            }
            acc.append(" ");
            acc.append(part);
            assert(acc@ =~= join_step(old(acc)@, part@));
        } else {
            *acc = String::from_str(part);
        }
    }
}

impl WindowActivityOptions {
    /// The description of the focused window (`in_vr` false) or VR application.
    pub fn format_activity(&self, title: &str, in_vr: bool) -> (r: Option<String>)
        ensures
            r matches Some(t) ==> activity_text(*self, title@, in_vr) == Some(t@),
            r is None ==> activity_text(*self, title@, in_vr) is None,
    {
        let (prefix, middle, suffix, show) = if in_vr {
            (&self.vr_prefix, &self.vr_middle, &self.vr_suffix, self.show_vr_app)
        } else {
            (&self.desktop_prefix, &self.desktop_middle, &self.desktop_suffix, self.show_desktop_app)
        };
        let t = String::from_str(title);
        let no_title = t.as_str().unicode_len() == 0 || t == String::from_str("No active window") || t
            == String::from_str("No display server") || t == String::from_str("Window detection unavailable")
            || t == String::from_str("Wayland detection failed");
        if no_title {
            if prefix.as_str().unicode_len() > 0 {
                return Some(prefix.clone());
            } else {
                return None;
            }
        }
        let n = title.unicode_len();
        let max = self.max_title_length as usize;
        let short = if n > max {
            let keep = if max >= 3 {
                max - 3
            } else {
                0
            };
            proof {
                reveal_strlit("...");
            }
            let cut = String::from_str(title.substring_char(0, keep));
            let r = cut.concat("...");
            assert(r@ =~= shortened(title@, self.max_title_length as nat));
            r
        } else {
            String::from_str(title)
        };
        let mut parts = String::from_str(prefix.as_str());
        if show {
            add_part(&mut parts, middle.as_str());
            add_part(&mut parts, suffix.as_str());
        }
        proof {
            reveal_strlit("%app%");
        }
        assert("%app%"@ =~= app_placeholder());
        let text = replace_all(parts.as_str(), "%app%", short.as_str());
        let lines = wrap_fragment(text.as_str(), MAX_LINE_WIDTH);
        Some(join_lines(&lines))
    }
}

} // verus!
