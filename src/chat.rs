//! Chat messages: the bounded history, the pending message and the timing rules
//! that decide which message is active and when a new one may go out.

use vstd::prelude::*;

verus! {

/// How many messages the history keeps.
pub const MAX_STORED_MESSAGES: usize = 10;

/// Milliseconds from `then` to `now`, zero when `now` is not later.
pub open spec fn elapsed_ms(now: u64, then: u64) -> nat {
    if now >= then {
        (now - then) as nat
    } else {
        0
    }
}

fn elapsed(now: u64, then: u64) -> (r: u64)
    ensures
        r as nat == elapsed_ms(now, then),
{
    if now >= then {
        now - then
    } else {
        0
    }
}

/// A chat message that was sent, with its edit buffer.
#[derive(Clone, Debug)]
pub struct ChatMessage {
    pub text: String,
    pub sent_at_ms: u64,
    pub editing: bool,
    pub edit_text: String,
}

/// A message is active while fewer than `timeout_secs` seconds have passed since it was sent.
pub open spec fn is_active(m: ChatMessage, now: u64, timeout_secs: u32) -> bool {
    elapsed_ms(now, m.sent_at_ms) < timeout_secs * 1000
}

/// The position of the most recently added message of `history` that is active at `now`.
pub open spec fn latest_active(history: Seq<ChatMessage>, now: u64, timeout_secs: u32) -> Option<nat>
    decreases history.len(),
{
    if history.len() == 0 {
        None
    } else if is_active(history.last(), now, timeout_secs) {
        Some((history.len() - 1) as nat)
    } else {
        latest_active(history.drop_last(), now, timeout_secs)
    }
}

/// Of several stored messages, at most one counts as active: the most recently
/// added of those still within the timeout, and none when no message is.
pub proof fn lemma_latest_active(history: Seq<ChatMessage>, now: u64, timeout_secs: u32)
    ensures
        latest_active(history, now, timeout_secs) is None <==> forall|i: int|
            0 <= i < history.len() ==> !is_active(#[trigger] history[i], now, timeout_secs),
        latest_active(history, now, timeout_secs) matches Some(i) ==> {
            &&& i < history.len()
            &&& is_active(history[i as int], now, timeout_secs)
            &&& forall|j: int| i < j < history.len() ==> !is_active(#[trigger] history[j], now, timeout_secs)
        },
    decreases history.len(),
{
    if history.len() > 0 {
        lemma_latest_active(history.drop_last(), now, timeout_secs);
        if !is_active(history.last(), now, timeout_secs) {
            let d = history.drop_last();
            assert(history[history.len() - 1] == history.last());
            assert forall|j: int| 0 <= j < history.len() - 1 implies #[trigger] history[j] == d[j] by {}
        }
    }
}

/// Adding to a full history drops exactly the oldest message and keeps the
/// others, in order, before the new one.
pub proof fn lemma_eviction(history: Seq<ChatMessage>, m: ChatMessage)
    requires
        history.len() == MAX_STORED_MESSAGES,
    ensures
        pushed(history, m).len() == MAX_STORED_MESSAGES,
        forall|i: int| 0 <= i < MAX_STORED_MESSAGES - 1 ==> #[trigger] pushed(history, m)[i] == history[i + 1],
        pushed(history, m).last() == m,
{
}

/// Chat settings together with the message history and the pending message.
#[derive(Clone, Debug)]
pub struct ChatOptions {
    pub enabled: bool,
    /// Seconds a message stays on display.
    pub chat_timeout: u32,
    pub add_speech_bubble: bool,
    pub use_custom_idle_prefix: bool,
    pub play_fx_sound: bool,
    pub play_fx_resend: bool,
    /// Whether a chat message must wait `delay_ms` after the previous one.
    pub small_delay: bool,
    pub delay_ms: u64,
    /// Whether live edits keep being sent, at most once per `display_time_ms`.
    pub override_display_time: bool,
    pub display_time_ms: u64,
    pub edit_messages: bool,
    pub live_editing: bool,
    /// Oldest first.
    pub messages: Vec<ChatMessage>,
    /// When the last chat message went out.
    pub last_send_ms: Option<u64>,
    pub queued_message: Option<String>,
}

/// The two values agree in everything but the history and the chat timing state.
pub open spec fn same_settings(a: ChatOptions, b: ChatOptions) -> bool {
    &&& a.enabled == b.enabled
    &&& a.chat_timeout == b.chat_timeout
    &&& a.add_speech_bubble == b.add_speech_bubble
    &&& a.use_custom_idle_prefix == b.use_custom_idle_prefix
    &&& a.play_fx_sound == b.play_fx_sound
    &&& a.play_fx_resend == b.play_fx_resend
    &&& a.small_delay == b.small_delay
    &&& a.delay_ms == b.delay_ms
    &&& a.override_display_time == b.override_display_time
    &&& a.display_time_ms == b.display_time_ms
    &&& a.edit_messages == b.edit_messages
    &&& a.live_editing == b.live_editing
}

/// The history after a message is added: the oldest one leaves when it is full.
pub open spec fn pushed(history: Seq<ChatMessage>, m: ChatMessage) -> Seq<ChatMessage> {
    if history.len() >= MAX_STORED_MESSAGES {
        history.drop_first().push(m)
    } else {
        history.push(m)
    }
}

/// The message that `add_message` stores for `text` at `now`.
pub open spec fn new_message(text: String, now: u64) -> ChatMessage {
    ChatMessage { text: text, sent_at_ms: now, editing: false, edit_text: text }
}

impl ChatOptions {
    /// The history stays within its bound.
    pub open spec fn wf(&self) -> bool {
        self.messages.len() <= MAX_STORED_MESSAGES
    }

    /// Whether a chat message may go out at `now`: always, unless the small delay
    /// is on and the last chat message left less than `delay_ms` ago.
    pub open spec fn may_send(&self, now: u64) -> bool {
        match self.last_send_ms {
            Some(last) => !self.small_delay || elapsed_ms(now, last) >= self.delay_ms,
            None => true,
        }
    }

    /// Records `text` as sent at `now_ms`, dropping the oldest message when the
    /// history is full.
    pub fn add_message(&mut self, text: String, now_ms: u64)
        requires
            old(self).wf(),
        ensures
            final(self).wf(),
            final(self).messages@ == pushed(old(self).messages@, new_message(text, now_ms)),
            same_settings(*final(self), *old(self)),
            final(self).last_send_ms == old(self).last_send_ms,
            final(self).queued_message == old(self).queued_message,
    {
        if self.messages.len() >= MAX_STORED_MESSAGES {
            self.messages.remove(0);
        }
        let edit_text = text.clone();
        self.messages.push(ChatMessage { text, sent_at_ms: now_ms, editing: false, edit_text });
        proof {
            assert(self.messages@ =~= pushed(old(self).messages@, new_message(text, now_ms)));
        }
    }

    /// Empties the history.
    pub fn clear_messages(&mut self)
        ensures
            final(self).messages@.len() == 0,
            same_settings(*final(self), *old(self)),
            final(self).last_send_ms == old(self).last_send_ms,
            final(self).queued_message == old(self).queued_message,
    {
        self.messages.clear();
    }

    /// Whether the small-delay rule lets a chat message go out at `now_ms`.
    pub fn can_send(&self, now_ms: u64) -> (r: bool)
        ensures
            r == self.may_send(now_ms),
    {
        if !self.small_delay {
            return true;
        }
        match self.last_send_ms {
            Some(last_ms) => elapsed(now_ms, last_ms) >= self.delay_ms,
            None => true,
        }
    }

    /// Holds `message` until the next send; it replaces any earlier pending one.
    pub fn set_queued_message(&mut self, message: String)
        ensures
            final(self).queued_message == Some(message),
            final(self).messages == old(self).messages,
            same_settings(*final(self), *old(self)),
            final(self).last_send_ms == old(self).last_send_ms,
    {
        self.queued_message = Some(message);
    }

    /// Takes the pending message for dispatch at `now_ms` and records the time of
    /// that chat send.
    pub fn take_queued_message(&mut self, now_ms: u64) -> (r: Option<String>)
        ensures
            r == old(self).queued_message,
            final(self).queued_message is None,
            final(self).last_send_ms == (if r is Some {
                Some(now_ms)
            } else {
                old(self).last_send_ms
            }),
            final(self).messages == old(self).messages,
            same_settings(*final(self), *old(self)),
    {
        let taken = self.queued_message.take();
        if taken.is_some() {
            self.last_send_ms = Some(now_ms);
        }
        taken
    }

    /// Opens the message at `index` for editing.
    pub fn start_editing(&mut self, index: usize)
        requires
            old(self).wf(),
            index < old(self).messages@.len(),
        ensures
            final(self).wf(),
            final(self).messages@ == old(self).messages@.update(
                index as int,
                ChatMessage { editing: true, ..old(self).messages@[index as int] },
            ),
            same_settings(*final(self), *old(self)),
            final(self).last_send_ms == old(self).last_send_ms,
            final(self).queued_message == old(self).queued_message,
    {
        let m = &self.messages[index];
        let edited = ChatMessage {
            text: m.text.clone(),
            sent_at_ms: m.sent_at_ms,
            editing: true,
            edit_text: m.edit_text.clone(),
        };
        self.messages.set(index, edited);
    }

    /// Replaces the edit buffer of the message at `index`.
    pub fn set_edit_text(&mut self, index: usize, text: String)
        requires
            old(self).wf(),
            index < old(self).messages@.len(),
        ensures
            final(self).wf(),
            final(self).messages@ == old(self).messages@.update(
                index as int,
                ChatMessage { edit_text: text, ..old(self).messages@[index as int] },
            ),
            same_settings(*final(self), *old(self)),
            final(self).last_send_ms == old(self).last_send_ms,
            final(self).queued_message == old(self).queued_message,
    {
        let m = &self.messages[index];
        let edited = ChatMessage { text: m.text.clone(), sent_at_ms: m.sent_at_ms, editing: m.editing, edit_text: text };
        self.messages.set(index, edited);
    }

    /// Closes the edit of the message at `index` and drops the edit buffer: it
    /// holds the committed text again.
    pub fn cancel_edit(&mut self, index: usize)
        requires
            old(self).wf(),
            index < old(self).messages@.len(),
        ensures
            final(self).wf(),
            final(self).messages@ == old(self).messages@.update(
                index as int,
                ChatMessage {
                    editing: false,
                    edit_text: old(self).messages@[index as int].text,
                    ..old(self).messages@[index as int]
                },
            ),
            same_settings(*final(self), *old(self)),
            final(self).last_send_ms == old(self).last_send_ms,
            final(self).queued_message == old(self).queued_message,
    {
        let m = &self.messages[index];
        let closed = ChatMessage {
            text: m.text.clone(),
            sent_at_ms: m.sent_at_ms,
            editing: false,
            edit_text: m.text.clone(),
        };
        self.messages.set(index, closed);
    }

    /// Commits the edit of the message at `index` at `now_ms`: the edit buffer
    /// becomes the text, the message is stamped as sent now, and the edit closes.
    pub fn commit_edit(&mut self, index: usize, now_ms: u64)
        requires
            old(self).wf(),
            index < old(self).messages@.len(),
        ensures
            final(self).wf(),
            final(self).messages@ == old(self).messages@.update(
                index as int,
                ChatMessage {
                    text: old(self).messages@[index as int].edit_text,
                    sent_at_ms: now_ms,
                    editing: false,
                    edit_text: old(self).messages@[index as int].edit_text,
                },
            ),
            same_settings(*final(self), *old(self)),
            final(self).last_send_ms == old(self).last_send_ms,
            final(self).queued_message == old(self).queued_message,
    {
        let m = &self.messages[index];
        let committed = ChatMessage {
            text: m.edit_text.clone(),
            sent_at_ms: now_ms,
            editing: false,
            edit_text: m.edit_text.clone(),
        };
        self.messages.set(index, committed);
    }

    /// Stamps the message at `index` as sent again at `now_ms`.
    pub fn restamp(&mut self, index: usize, now_ms: u64)
        requires
            old(self).wf(),
            index < old(self).messages@.len(),
        ensures
            final(self).wf(),
            final(self).messages@ == old(self).messages@.update(
                index as int,
                ChatMessage { sent_at_ms: now_ms, ..old(self).messages@[index as int] },
            ),
            same_settings(*final(self), *old(self)),
            final(self).last_send_ms == old(self).last_send_ms,
            final(self).queued_message == old(self).queued_message,
    {
        let m = &self.messages[index];
        let stamped = ChatMessage {
            text: m.text.clone(),
            sent_at_ms: now_ms,
            editing: m.editing,
            edit_text: m.edit_text.clone(),
        };
        self.messages.set(index, stamped);
    }

    /// Whole seconds of display left for `message` at `now_ms`: the timeout less
    /// the whole seconds elapsed, and zero once it has run out.
    pub fn get_remaining_time(&self, message: &ChatMessage, now_ms: u64) -> (r: u32)
        ensures
            r == (if elapsed_ms(now_ms, message.sent_at_ms) / 1000 >= self.chat_timeout {
                0
            } else {
                self.chat_timeout - elapsed_ms(now_ms, message.sent_at_ms) / 1000
            }),
    {
        let secs = elapsed(now_ms, message.sent_at_ms) / 1000;
        if secs >= self.chat_timeout as u64 {
            0
        } else {
            self.chat_timeout - secs as u32
        }
    }

    /// The position of the most recently added message that is still active at
    /// `now_ms`, if any is.
    pub fn find_active(&self, now_ms: u64) -> (r: Option<usize>)
        ensures
            r matches Some(i) ==> latest_active(self.messages@, now_ms, self.chat_timeout) == Some(i as nat),
            r is None ==> latest_active(self.messages@, now_ms, self.chat_timeout) is None,
            r is None <==> forall|i: int|
                0 <= i < self.messages@.len() ==> !is_active(
                    #[trigger] self.messages@[i],
                    now_ms,
                    self.chat_timeout,
                ),
            r matches Some(i) ==> {
                &&& i < self.messages@.len()
                &&& is_active(self.messages@[i as int], now_ms, self.chat_timeout)
                &&& forall|j: int|
                    i < j < self.messages@.len() ==> !is_active(
                        #[trigger] self.messages@[j],
                        now_ms,
                        self.chat_timeout,
                    )
            },
    {
        let limit: u64 = self.chat_timeout as u64 * 1000;
        let mut k: usize = self.messages.len();
        assert(self.messages@.take(k as int) =~= self.messages@);
        while k > 0
            invariant
                k <= self.messages@.len(),
                limit == self.chat_timeout * 1000,
                latest_active(self.messages@, now_ms, self.chat_timeout) == latest_active(
                    self.messages@.take(k as int),
                    now_ms,
                    self.chat_timeout,
                ),
                forall|j: int|
                    k <= j < self.messages@.len() ==> !is_active(
                        #[trigger] self.messages@[j],
                        now_ms,
                        self.chat_timeout,
                    ),
            decreases k,
        {
            let m = &self.messages[k - 1];
            assert(self.messages@.take(k as int).last() == self.messages@[k - 1]);
            assert(self.messages@.take(k as int).drop_last() =~= self.messages@.take(k - 1));
            if elapsed(now_ms, m.sent_at_ms) < limit {
                return Some(k - 1);
            }
            k = k - 1;
        }
        None
    }
}

} // verus!
