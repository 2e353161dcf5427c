//! The personal status source: a list of status messages, optionally cycled,
//! with an optional random prefix.

use vstd::prelude::*;
use vstd::string::*;
use crate::arbiter::speech_prefix;
use crate::chat::elapsed_ms;
use crate::text::{split_at_char, split_seq, trim, trimmed};

verus! {

broadcast use vstd::string::group_string_axioms;

/// Settings of the status source.
#[derive(Clone, Debug)]
pub struct StatusOptions {
    pub enabled: bool,
    pub cycle_status: bool,
    /// Seconds between two status messages when cycling.
    pub cycle_interval: u32,
    pub cycle_random: bool,
    pub enable_custom_prefix_shuffle: bool,
    /// Comma-separated prefixes, one of which is drawn for each message.
    pub custom_prefixes: String,
    pub add_speech_bubble: bool,
}

impl StatusOptions {
    /// The default settings: enabled, not cycling (60 s when it is), no prefixes.
    pub fn new() -> (r: StatusOptions)
        ensures
            r.enabled,
            !r.cycle_status,
            r.cycle_interval == 60,
            !r.cycle_random,
            !r.enable_custom_prefix_shuffle,
            r.custom_prefixes@.len() == 0,
            !r.add_speech_bubble,
    {
        StatusOptions {
            enabled: true,
            cycle_status: false,
            cycle_interval: 60,
            cycle_random: false,
            enable_custom_prefix_shuffle: false,
            custom_prefixes: String::new(),
            add_speech_bubble: false,
        }
    }
}

/// The status message as shown: behind the prefix at position `k` of the
/// comma-separated list (trimmed, then a space) when prefixes are on, and behind
/// the speech-bubble marker when that is on.
pub open spec fn status_text(message: Seq<char>, options: StatusOptions, k: int) -> Seq<char> {
    let with_prefix = if options.enable_custom_prefix_shuffle {
        trimmed(split_seq(options.custom_prefixes@, ',')[k]) + seq![' '] + message
    } else {
        message
    };
    if options.add_speech_bubble {
        speech_prefix() + with_prefix
    } else {
        with_prefix
    }
}

/// Relies on rand's `Rng::gen_range` on the thread-local generator: a value
/// drawn from `0..n`, which panics only when the range is empty.
#[verifier::external_body]
fn random_below(n: usize) -> (r: usize)
    requires
        n > 0,
    ensures
        r < n,
{
    rand::Rng::gen_range(&mut rand::thread_rng(), 0..n)
}

/// The outcome of one cycling step at `now` with the random draw `draw`: nothing
/// changes when cycling is off or there are no messages; the first step only
/// starts the clock; once the interval has passed the current index moves to
/// `draw` modulo the count in random order, else to the next message, wrapping
/// round, and the clock restarts.
pub open spec fn cycled(s: StatusModule, t: StatusModule, options: StatusOptions, now: u64, draw: int) -> bool {
    let n = s.messages@.len();
    if !options.cycle_status || n == 0 {
        t == s
    } else if s.last_cycle_ms is None {
        t.current_index == s.current_index && t.last_cycle_ms == Some(now)
    } else if elapsed_ms(now, s.last_cycle_ms->0) >= options.cycle_interval * 1000 {
        &&& t.current_index as int == (if options.cycle_random {
            draw % n as int
        } else {
            (s.current_index + 1) as int % n as int
        })
        &&& t.last_cycle_ms == Some(now)
    } else {
        t == s
    }
}

/// The status messages and which one is current.
#[derive(Clone, Debug)]
pub struct StatusModule {
    pub messages: Vec<String>,
    pub current_index: usize,
    /// When the current message was last changed by cycling; `None` before the first tick.
    pub last_cycle_ms: Option<u64>,
}

impl StatusModule {
    /// The current index points at a message, or is zero when there is none.
    pub open spec fn wf(&self) -> bool {
        self.current_index < self.messages@.len() || (self.messages@.len() == 0 && self.current_index == 0)
    }

    /// No messages yet.
    pub fn new() -> (r: StatusModule)
        ensures
            r.wf(),
            r.messages@.len() == 0,
            r.last_cycle_ms is None,
    {
        StatusModule { messages: Vec::new(), current_index: 0, last_cycle_ms: None }
    }

    /// Appends a status message.
    pub fn add_message(&mut self, message: String)
        requires
            old(self).wf(),
        ensures
            final(self).wf(),
            final(self).messages@ == old(self).messages@.push(message),
            final(self).current_index == old(self).current_index,
            final(self).last_cycle_ms == old(self).last_cycle_ms,
    {
        self.messages.push(message);
    }

    /// Removes the message at `index`, if there is one; the current index moves
    /// to the last message when it would point past the end.
    pub fn remove_message(&mut self, index: usize)
        requires
            old(self).wf(),
        ensures
            final(self).wf(),
            index < old(self).messages@.len() ==> final(self).messages@ == old(self).messages@.remove(index as int),
            index >= old(self).messages@.len() ==> final(self).messages@ == old(self).messages@,
            final(self).current_index as int == (if index < old(self).messages@.len()
                && old(self).current_index >= old(self).messages@.len() - 1
                && old(self).messages@.len() > 1 {
                old(self).messages@.len() - 2
            } else {
                old(self).current_index as int
            }),
            final(self).last_cycle_ms == old(self).last_cycle_ms,
    {
        if index < self.messages.len() {
            self.messages.remove(index);
            if self.current_index >= self.messages.len() && self.messages.len() > 0 {
                self.current_index = self.messages.len() - 1;
            }
        }
    }

    /// The current message as shown, with the prefix at position `choice` (taken
    /// modulo the number of prefixes); `None` when there are no messages.
    pub fn current_message_with(&self, options: &StatusOptions, choice: usize) -> (r: Option<String>)
        requires
            self.wf(),
        ensures
            self.messages@.len() == 0 <==> r is None,
            r matches Some(t) ==> t@ == status_text(
                self.messages@[self.current_index as int]@,
                *options,
                choice as int % split_seq(options.custom_prefixes@, ',').len() as int,
            ),
    {
        if self.messages.len() == 0 {
            return None;
        }
        let mut message = self.messages[self.current_index].clone();
        if options.enable_custom_prefix_shuffle {
            let prefixes = split_at_char(options.custom_prefixes.as_str(), ',');
            let k = choice % prefixes.len();
            assert(prefixes@[k as int]@ == split_seq(options.custom_prefixes@, ',')[k as int]);
            let mut prefixed = trim(prefixes[k].as_str());
            proof {
                reveal_strlit(" ");
            }
            prefixed.append(" ");
            prefixed.append(message.as_str());
            assert(prefixed@ =~= trimmed(split_seq(options.custom_prefixes@, ',')[k as int]) + seq![' '] + self.messages@[self.current_index as int]@);
            message = prefixed;
        }
        if options.add_speech_bubble {
            proof {
                reveal_strlit("\u{1F5E8} ");
            }
            assert("\u{1F5E8} "@ =~= speech_prefix());
            let mut bubbled = String::from_str("\u{1F5E8} ");
            bubbled.append(message.as_str());
            message = bubbled;
        }
        Some(message)
    }

    /// The current message as shown, with a prefix drawn at random when prefixes
    /// are on; `None` when there are no messages.
    pub fn get_current_message(&self, options: &StatusOptions) -> (r: Option<String>)
        requires
            self.wf(),
        ensures
            self.messages@.len() == 0 <==> r is None,
            r matches Some(t) ==> exists|k: int|
                0 <= k < split_seq(options.custom_prefixes@, ',').len() && t@ == status_text(
                    self.messages@[self.current_index as int]@,
                    *options,
                    k,
                ),
    {
        let choice = if options.enable_custom_prefix_shuffle {
            let count = split_at_char(options.custom_prefixes.as_str(), ',').len();
            random_below(count)
        } else {
            0
        };
        let r = self.current_message_with(options, choice);
        proof {
            if r is Some {
                let n = split_seq(options.custom_prefixes@, ',').len();
                lemma_split_nonempty(options.custom_prefixes@, ',');
                let k = (choice as int) % (n as int);
                assert(0 <= k && k < n);
                if !options.enable_custom_prefix_shuffle {
                    assert(r->0@ == status_text(self.messages@[self.current_index as int]@, *options, k));
                }
            }
        }
        r
    }

    /// Moves to the next message when cycling is on and the interval has passed
    /// since the last change: to the message at `draw` modulo the count in random
    /// order, else to the following one, wrapping round. The first tick only starts the clock.
    pub fn advance_cycle(&mut self, options: &StatusOptions, now_ms: u64, draw: usize)
        requires
            old(self).wf(),
        ensures
            final(self).wf(),
            final(self).messages == old(self).messages,
            cycled(*old(self), *final(self), *options, now_ms, draw as int),
    {
        if !options.cycle_status || self.messages.len() == 0 {
            return;
        }
        match self.last_cycle_ms {
            None => {
                self.last_cycle_ms = Some(now_ms);
            },
            Some(t) => {
                let passed = if now_ms >= t {
                    now_ms - t
                } else {
                    0
                };
                if passed >= options.cycle_interval as u64 * 1000 {
                    let n = self.messages.len();
                    if options.cycle_random {
                        self.current_index = draw % n;
                    } else {
                        self.current_index = (self.current_index + 1) % n;
                    }
                    self.last_cycle_ms = Some(now_ms);
                }
            },
        }
    }

    /// One cycling step at `now_ms`, with the random order drawn by rand.
    pub fn update_cycle(&mut self, options: &StatusOptions, now_ms: u64)
        requires
            old(self).wf(),
        ensures
            final(self).wf(),
            final(self).messages == old(self).messages,
            exists|draw: int|
                0 <= draw && (draw < old(self).messages@.len() || old(self).messages@.len() == 0) && #[trigger] cycled(
                    *old(self),
                    *final(self),
                    *options,
                    now_ms,
                    draw,
                ),
    {
        let n = self.messages.len();
        let draw = if options.cycle_random && n > 0 {
            random_below(n)
        } else {
            0
        };
        self.advance_cycle(options, now_ms, draw);
        assert(cycled(*old(self), *self, *options, now_ms, draw as int));
    }
}

/// Splitting always gives at least one piece.
pub proof fn lemma_split_nonempty(s: Seq<char>, sep: char)
    ensures
        split_seq(s, sep).len() >= 1,
    decreases s.len(),
{
    if s.len() > 0 {
        lemma_split_nonempty(s.drop_last(), sep);
    }
}

} // verus!
