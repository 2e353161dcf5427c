//! The delivery throttle: on each tick, whether the chatbox is recomposed and
//! whether the result goes out.

use vstd::prelude::*;
use vstd::string::*;
use crate::aggregate::SourceReadings;
use crate::arbiter::{
    ambient_body, ambient_of, arbitrate, chat_text, display_body, format_chat_message,
    message_over, with_message,
};
use crate::chat::{ChatMessage, elapsed_ms, latest_active, new_message, pushed, same_settings, ChatOptions};
use crate::tabs::IntegrationsTab;
use crate::text::{blank, is_blank};
use crate::wrap::Joiner;

verus! {

broadcast use vstd::string::group_string_axioms;

/// The shortest interval between sends, in milliseconds.
pub const MIN_UPDATE_RATE_MS: u64 = 1600;

/// The longest interval between sends, in milliseconds.
pub const MAX_UPDATE_RATE_MS: u64 = 10000;

/// The update rate held within its bounds.
pub open spec fn clamped_rate(ms: u64) -> u64 {
    if ms < MIN_UPDATE_RATE_MS {
        MIN_UPDATE_RATE_MS
    } else if ms > MAX_UPDATE_RATE_MS {
        MAX_UPDATE_RATE_MS
    } else {
        ms
    }
}

/// Whether `interval` milliseconds have passed since the last send (always, before the first).
pub open spec fn interval_passed(last_send: Option<u64>, now: u64, interval: u64) -> bool {
    match last_send {
        Some(t) => elapsed_ms(now, t) >= interval,
        None => true,
    }
}

/// The time of the last send and the minimum interval between sends.
#[derive(Clone, Copy, Debug)]
pub struct DeliveryThrottle {
    pub last_send_ms: Option<u64>,
    pub update_rate_ms: u64,
}

impl DeliveryThrottle {
    /// A throttle that has not sent yet, with the rate clamped to its bounds.
    pub fn new(update_rate_ms: u64) -> (r: DeliveryThrottle)
        ensures
            r.last_send_ms is None,
            r.update_rate_ms == clamped_rate(update_rate_ms),
    {
        let rate = if update_rate_ms < MIN_UPDATE_RATE_MS {
            MIN_UPDATE_RATE_MS
        } else if update_rate_ms > MAX_UPDATE_RATE_MS {
            MAX_UPDATE_RATE_MS
        } else {
            update_rate_ms
        };
        DeliveryThrottle { last_send_ms: None, update_rate_ms: rate }
    }

    /// Whether `interval_ms` have passed since the last send.
    pub fn ready(&self, now_ms: u64, interval_ms: u64) -> (r: bool)
        ensures
            r == interval_passed(self.last_send_ms, now_ms, interval_ms),
    {
        match self.last_send_ms {
            Some(t) => now_ms >= t && now_ms - t >= interval_ms || now_ms < t && interval_ms == 0,
            None => true,
        }
    }
}

/// After a send at `t0`, no tick before `t0 + rate` finds either cadence due,
/// and a tick from `t0 + rate` on finds the normal cadence's interval passed.
pub proof fn lemma_throttle_gating(rate: u64, display_time: u64, t0: u64, t1: u64)
    requires
        t0 <= t1,
    ensures
        t1 < t0 + rate ==> !interval_passed(Some(t0), t1, rate),
        t1 < t0 + rate ==> !interval_passed(
            Some(t0),
            t1,
            if display_time > rate {
                display_time
            } else {
                rate
            },
        ),
        t1 >= t0 + rate ==> interval_passed(Some(t0), t1, rate),
{
}

/// Sends through one composer are spaced by the update rate. Each of its
/// methods returns a send only when the interval has passed since the recorded
/// last send, and then records the send's time, so two sends at `t0 <= t1`
/// are at least `rate` apart.
pub proof fn lemma_sends_spaced(rate: u64, t0: u64, t1: u64)
    requires
        t0 <= t1,
        interval_passed(Some(t0), t1, rate),
    ensures
        t1 - t0 >= rate,
{
}

/// A body handed to the sender, with the sound-effect flag.
#[derive(Clone, Debug)]
pub struct Outgoing {
    pub body: String,
    pub play_fx: bool,
}

/// Whether `r` is a send of `body`.
pub open spec fn sends(r: Option<Outgoing>, body: Seq<char>, play_fx: bool) -> bool {
    r matches Some(o) && o.body@ == body && o.play_fx == play_fx
}

/// The pending message set over the ambient text (meaningful when one is pending).
pub open spec fn queued_body(chat: ChatOptions, ambient: Seq<char>) -> Seq<char> {
    with_message(chat_text(chat.add_speech_bubble, (chat.queued_message->0)@), ambient)
}

/// The composition pipeline's own state: the throttle, the join mode, whether
/// sending is on, and the body and ambient text last composed.
#[derive(Clone, Debug)]
pub struct Composer {
    pub throttle: DeliveryThrottle,
    pub joiner: Joiner,
    pub send_enabled: bool,
    pub preview: String,
    /// The ambient text of the last composition.
    pub ambient: String,
}

impl Composer {
    /// The normal cadence: sending is on, the small-delay rule allows it and the
    /// update interval has passed.
    pub open spec fn normal_due(&self, chat: ChatOptions, now: u64) -> bool {
        &&& self.send_enabled
        &&& chat.may_send(now)
        &&& interval_passed(self.throttle.last_send_ms, now, self.throttle.update_rate_ms)
    }

    /// The live-edit interval: the update rate or the display time, whichever is longer.
    pub open spec fn live_interval(&self, chat: ChatOptions) -> u64 {
        if chat.display_time_ms > self.throttle.update_rate_ms {
            chat.display_time_ms
        } else {
            self.throttle.update_rate_ms
        }
    }

    /// The live-edit cadence: live editing with an overridden display time, and
    /// the live-edit interval has passed.
    pub open spec fn live_due(&self, chat: ChatOptions, now: u64) -> bool {
        &&& self.send_enabled
        &&& chat.live_editing
        &&& chat.override_display_time
        &&& interval_passed(self.throttle.last_send_ms, now, self.live_interval(chat))
    }

    /// A live send goes out when the live cadence is due, the active message is
    /// being edited and the body is not blank.
    pub open spec fn live_sends(&self, chat: ChatOptions, now: u64, body: Seq<char>) -> bool {
        &&& self.live_due(chat, now)
        &&& latest_active(chat.messages@, now, chat.chat_timeout) matches Some(i)
        &&& chat.messages@[i as int].editing
        &&& !is_blank(body)
    }

    /// A composer with no body yet and a throttle that has not sent.
    pub fn new(update_rate_ms: u64, joiner: Joiner, send_enabled: bool) -> (r: Composer)
        ensures
            r.throttle.last_send_ms is None,
            r.throttle.update_rate_ms == clamped_rate(update_rate_ms),
            r.joiner == joiner,
            r.send_enabled == send_enabled,
            r.preview@.len() == 0,
            r.ambient@.len() == 0,
    {
        Composer {
            throttle: DeliveryThrottle::new(update_rate_ms),
            joiner,
            send_enabled,
            preview: String::new(),
            ambient: String::new(),
        }
    }

    /// Whether the small-delay rule and the update interval both allow a chat
    /// message at `now`.
    pub open spec fn chat_ready(&self, chat: ChatOptions, now: u64) -> bool {
        &&& chat.may_send(now)
        &&& interval_passed(self.throttle.last_send_ms, now, self.throttle.update_rate_ms)
    }

    /// A message the user submits at `now_ms`. When the small-delay rule and the
    /// update interval allow it, it is shown at once, wrapped, and joins the
    /// history; it goes out only when sending is on. Else it waits as the
    /// pending message, replacing any earlier one.
    pub fn submit_chat(&mut self, chat: &mut ChatOptions, message: String, now_ms: u64) -> (r: Option<Outgoing>)
        requires
            old(chat).wf(),
        ensures
            final(chat).wf(),
            same_settings(*final(chat), *old(chat)),
            final(self).joiner == old(self).joiner,
            final(self).send_enabled == old(self).send_enabled,
            final(self).ambient == old(self).ambient,
            final(self).throttle.update_rate_ms == old(self).throttle.update_rate_ms,
            r is Some ==> old(self).send_enabled && interval_passed(
                old(self).throttle.last_send_ms,
                now_ms,
                old(self).throttle.update_rate_ms,
            ),
            final(self).throttle.last_send_ms == (if r is Some {
                Some(now_ms)
            } else {
                old(self).throttle.last_send_ms
            }),
            ({
                let c = *old(self);
                let ch = *old(chat);
                if c.chat_ready(ch, now_ms) {
                    let body = with_message(chat_text(ch.add_speech_bubble, message@), Seq::empty());
                    &&& final(self).preview@ == body
                    &&& final(chat).messages@ == pushed(ch.messages@, new_message(message, now_ms))
                    &&& final(chat).queued_message == ch.queued_message
                    &&& if c.send_enabled {
                        &&& sends(r, body, ch.play_fx_sound)
                        &&& final(chat).last_send_ms == Some(now_ms)
                    } else {
                        &&& r is None
                        &&& final(chat).last_send_ms == ch.last_send_ms
                    }
                } else {
                    &&& r is None
                    &&& final(self).preview == c.preview
                    &&& final(chat).queued_message == Some(message)
                    &&& final(chat).messages == ch.messages
                    &&& final(chat).last_send_ms == ch.last_send_ms
                }
            }),
    {
        let rate = self.throttle.update_rate_ms;
        let ready = chat.can_send(now_ms) && self.throttle.ready(now_ms, rate);
        if !ready {
            chat.set_queued_message(message);
            return None;
        }
        let text = format_chat_message(chat, message.as_str());
        let body = message_over(text.as_str(), "");
        proof {
            reveal_strlit("");
        }
        assert(""@ =~= Seq::<char>::empty());
        chat.add_message(message, now_ms);
        self.preview = body.clone();
        if self.send_enabled {
            chat.last_send_ms = Some(now_ms);
            self.throttle.last_send_ms = Some(now_ms);
            Some(Outgoing { body, play_fx: chat.play_fx_sound })
        } else {
            None
        }
    }

    /// Shows `body` and sends it when sending is on, the interval has passed and
    /// it is not blank.
    fn show_and_send(&mut self, body: String, play_fx: bool, now_ms: u64) -> (r: Option<Outgoing>)
        ensures
            final(self).preview@ == body@,
            final(self).joiner == old(self).joiner,
            final(self).send_enabled == old(self).send_enabled,
            final(self).ambient == old(self).ambient,
            final(self).throttle.update_rate_ms == old(self).throttle.update_rate_ms,
            (old(self).send_enabled && !is_blank(body@) && interval_passed(
                old(self).throttle.last_send_ms,
                now_ms,
                old(self).throttle.update_rate_ms,
            )) ==> sends(r, body@, play_fx),
            !(old(self).send_enabled && !is_blank(body@) && interval_passed(
                old(self).throttle.last_send_ms,
                now_ms,
                old(self).throttle.update_rate_ms,
            )) ==> r is None,
            final(self).throttle.last_send_ms == (if r is Some {
                Some(now_ms)
            } else {
                old(self).throttle.last_send_ms
            }),
    {
        self.preview = body.clone();
        let rate = self.throttle.update_rate_ms;
        if self.send_enabled && !blank(body.as_str()) && self.throttle.ready(now_ms, rate) {
            self.throttle.last_send_ms = Some(now_ms);
            Some(Outgoing { body, play_fx })
        } else {
            None
        }
    }

    /// Puts the last ambient text back on display, as after stopping a chat
    /// message; it goes out, without the sound effect, when sending is on, the
    /// interval has passed and it is not blank.
    pub fn show_ambient(&mut self, now_ms: u64) -> (r: Option<Outgoing>)
        ensures
            final(self).preview@ == old(self).ambient@,
            final(self).joiner == old(self).joiner,
            final(self).send_enabled == old(self).send_enabled,
            final(self).ambient == old(self).ambient,
            final(self).throttle.update_rate_ms == old(self).throttle.update_rate_ms,
            (old(self).send_enabled && !is_blank(old(self).ambient@) && interval_passed(
                old(self).throttle.last_send_ms,
                now_ms,
                old(self).throttle.update_rate_ms,
            )) ==> sends(r, old(self).ambient@, false),
            !(old(self).send_enabled && !is_blank(old(self).ambient@) && interval_passed(
                old(self).throttle.last_send_ms,
                now_ms,
                old(self).throttle.update_rate_ms,
            )) ==> r is None,
            final(self).throttle.last_send_ms == (if r is Some {
                Some(now_ms)
            } else {
                old(self).throttle.last_send_ms
            }),
    {
        let body = self.ambient.clone();
        self.show_and_send(body, false, now_ms)
    }

    /// Cancels the edit of the message at `index` and puts the ambient text back.
    pub fn cancel_edit(&mut self, chat: &mut ChatOptions, index: usize, now_ms: u64) -> (r: Option<Outgoing>)
        requires
            old(chat).wf(),
            index < old(chat).messages@.len(),
        ensures
            final(chat).wf(),
            final(chat).messages@ == old(chat).messages@.update(
                index as int,
                ChatMessage {
                    editing: false,
                    edit_text: old(chat).messages@[index as int].text,
                    ..old(chat).messages@[index as int]
                },
            ),
            same_settings(*final(chat), *old(chat)),
            final(chat).last_send_ms == old(chat).last_send_ms,
            final(chat).queued_message == old(chat).queued_message,
            final(self).preview@ == old(self).ambient@,
            final(self).joiner == old(self).joiner,
            final(self).send_enabled == old(self).send_enabled,
            final(self).ambient == old(self).ambient,
            final(self).throttle.update_rate_ms == old(self).throttle.update_rate_ms,
            (old(self).send_enabled && !is_blank(old(self).ambient@) && interval_passed(
                old(self).throttle.last_send_ms,
                now_ms,
                old(self).throttle.update_rate_ms,
            )) ==> sends(r, old(self).ambient@, false),
            !(old(self).send_enabled && !is_blank(old(self).ambient@) && interval_passed(
                old(self).throttle.last_send_ms,
                now_ms,
                old(self).throttle.update_rate_ms,
            )) ==> r is None,
            final(self).throttle.last_send_ms == (if r is Some {
                Some(now_ms)
            } else {
                old(self).throttle.last_send_ms
            }),
    {
        chat.cancel_edit(index);
        self.show_ambient(now_ms)
    }

    /// Commits the edit of the message at `index` at `now_ms` and shows the new
    /// text, wrapped; it goes out when sending is on, the interval has passed and
    /// it is not blank.
    pub fn commit_edit(&mut self, chat: &mut ChatOptions, index: usize, now_ms: u64) -> (r: Option<Outgoing>)
        requires
            old(chat).wf(),
            index < old(chat).messages@.len(),
        ensures
            final(chat).wf(),
            final(chat).messages@ == old(chat).messages@.update(
                index as int,
                ChatMessage {
                    text: old(chat).messages@[index as int].edit_text,
                    sent_at_ms: now_ms,
                    editing: false,
                    edit_text: old(chat).messages@[index as int].edit_text,
                },
            ),
            same_settings(*final(chat), *old(chat)),
            final(chat).last_send_ms == old(chat).last_send_ms,
            final(chat).queued_message == old(chat).queued_message,
            ({
                let body = with_message(
                    chat_text(old(chat).add_speech_bubble, old(chat).messages@[index as int].edit_text@),
                    Seq::empty(),
                );
                let go = old(self).send_enabled && !is_blank(body) && interval_passed(
                    old(self).throttle.last_send_ms,
                    now_ms,
                    old(self).throttle.update_rate_ms,
                );
                &&& final(self).preview@ == body
                &&& go ==> sends(r, body, old(chat).play_fx_sound)
                &&& !go ==> r is None
            }),
            final(self).joiner == old(self).joiner,
            final(self).send_enabled == old(self).send_enabled,
            final(self).ambient == old(self).ambient,
            final(self).throttle.update_rate_ms == old(self).throttle.update_rate_ms,
            final(self).throttle.last_send_ms == (if r is Some {
                Some(now_ms)
            } else {
                old(self).throttle.last_send_ms
            }),
    {
        let text = format_chat_message(chat, chat.messages[index].edit_text.as_str());
        let body = message_over(text.as_str(), "");
        proof {
            reveal_strlit("");
        }
        assert(""@ =~= Seq::<char>::empty());
        chat.commit_edit(index, now_ms);
        self.show_and_send(body, chat.play_fx_sound, now_ms)
    }

    /// Sends the message at `index` again: when the interval has passed it is
    /// stamped as sent now and shown, wrapped, and it goes out when sending is on
    /// and it is not blank, with the sound effect only when both sound settings
    /// are on. Before the interval has passed nothing changes.
    pub fn resend(&mut self, chat: &mut ChatOptions, index: usize, now_ms: u64) -> (r: Option<Outgoing>)
        requires
            old(chat).wf(),
            index < old(chat).messages@.len(),
        ensures
            final(chat).wf(),
            same_settings(*final(chat), *old(chat)),
            final(chat).last_send_ms == old(chat).last_send_ms,
            final(chat).queued_message == old(chat).queued_message,
            final(self).joiner == old(self).joiner,
            final(self).send_enabled == old(self).send_enabled,
            final(self).ambient == old(self).ambient,
            final(self).throttle.update_rate_ms == old(self).throttle.update_rate_ms,
            final(self).throttle.last_send_ms == (if r is Some {
                Some(now_ms)
            } else {
                old(self).throttle.last_send_ms
            }),
            ({
                let m = old(chat).messages@[index as int];
                let body = with_message(chat_text(old(chat).add_speech_bubble, m.text@), Seq::empty());
                if interval_passed(old(self).throttle.last_send_ms, now_ms, old(self).throttle.update_rate_ms) {
                    &&& final(chat).messages@ == old(chat).messages@.update(
                        index as int,
                        ChatMessage { sent_at_ms: now_ms, ..m },
                    )
                    &&& final(self).preview@ == body
                    &&& (old(self).send_enabled && !is_blank(body)) ==> sends(
                        r,
                        body,
                        old(chat).play_fx_resend && old(chat).play_fx_sound,
                    )
                    &&& !(old(self).send_enabled && !is_blank(body)) ==> r is None
                } else {
                    &&& r is None
                    &&& final(chat).messages == old(chat).messages
                    &&& final(self).preview == old(self).preview
                }
            }),
    {
        let rate = self.throttle.update_rate_ms;
        if !self.throttle.ready(now_ms, rate) {
            return None;
        }
        let text = format_chat_message(chat, chat.messages[index].text.as_str());
        let body = message_over(text.as_str(), "");
        proof {
            reveal_strlit("");
        }
        assert(""@ =~= Seq::<char>::empty());
        chat.restamp(index, now_ms);
        let fx = chat.play_fx_resend && chat.play_fx_sound;
        self.show_and_send(body, fx, now_ms)
    }

    /// One tick at `now_ms`. When neither cadence is due nothing changes. When
    /// one is, the body is recomposed; then at most one send goes out: a live
    /// edit, else the pending chat message set over the ambient text (which then
    /// joins the history), else the body. A blank body is never sent, and every
    /// send stamps the throttle.
    pub fn tick(
        &mut self,
        chat: &mut ChatOptions,
        tab: &IntegrationsTab,
        readings: &SourceReadings,
        now_ms: u64,
    ) -> (r: Option<Outgoing>)
        requires
            old(chat).wf(),
        ensures
            final(chat).wf(),
            final(self).joiner == old(self).joiner,
            final(self).send_enabled == old(self).send_enabled,
            final(self).throttle.update_rate_ms == old(self).throttle.update_rate_ms,
            final(self).throttle.last_send_ms == (if r is Some {
                Some(now_ms)
            } else {
                old(self).throttle.last_send_ms
            }),
            r is Some ==> interval_passed(
                old(self).throttle.last_send_ms,
                now_ms,
                old(self).throttle.update_rate_ms,
            ),
            final(self).ambient@ == (if old(self).normal_due(*old(chat), now_ms) || old(self).live_due(
                *old(chat),
                now_ms,
            ) {
                ambient_of(*tab, *readings, old(self).joiner)
            } else {
                old(self).ambient@
            }),
            ({
                let c = *old(self);
                let ch = *old(chat);
                let ambient = ambient_of(*tab, *readings, c.joiner);
                let body = display_body(ch, now_ms, ambient);
                if !c.normal_due(ch, now_ms) && !c.live_due(ch, now_ms) {
                    &&& r is None
                    &&& final(self).preview@ == c.preview@
                    &&& *final(chat) == ch
                } else if c.live_sends(ch, now_ms, body) {
                    &&& sends(r, body, ch.play_fx_sound)
                    &&& final(self).preview@ == body
                    &&& *final(chat) == ch
                } else if c.normal_due(ch, now_ms) && ch.queued_message is Some && !is_blank(
                    queued_body(ch, ambient),
                ) {
                    let q = ch.queued_message->0;
                    let qbody = queued_body(ch, ambient);
                    &&& sends(r, qbody, ch.play_fx_sound)
                    &&& final(self).preview@ == qbody
                    &&& final(chat).messages@ == pushed(ch.messages@, new_message(q, now_ms))
                    &&& final(chat).queued_message is None
                    &&& final(chat).last_send_ms == Some(now_ms)
                    &&& same_settings(*final(chat), ch)
                } else if c.normal_due(ch, now_ms) && !is_blank(body) {
                    &&& sends(r, body, ch.play_fx_sound)
                    &&& final(self).preview@ == body
                    &&& *final(chat) == ch
                } else {
                    &&& r is None
                    &&& final(self).preview@ == body
                    &&& *final(chat) == ch
                }
            }),
    {
        let rate = self.throttle.update_rate_ms;
        let normal = self.send_enabled && chat.can_send(now_ms) && self.throttle.ready(now_ms, rate);
        let interval = if chat.display_time_ms > rate {
            chat.display_time_ms
        } else {
            rate
        };
        let live = self.send_enabled && chat.live_editing && chat.override_display_time
            && self.throttle.ready(now_ms, interval);
        if !normal && !live {
            return None;
        }
        let ambient = ambient_body(tab, readings, self.joiner);
        let body = arbitrate(chat, now_ms, ambient.as_str());
        self.preview = body.clone();
        self.ambient = ambient.clone();
        if live {
            match chat.find_active(now_ms) {
                Some(i) => {
                    if chat.messages[i].editing && !blank(body.as_str()) {
                        self.throttle.last_send_ms = Some(now_ms);
                        return Some(Outgoing { body, play_fx: chat.play_fx_sound });
                    }
                },
                None => {},
            }
        }
        if normal {
            let pending = match &chat.queued_message {
                Some(q) => {
                    let text = format_chat_message(chat, q.as_str());
                    Some(message_over(text.as_str(), ambient.as_str()))
                },
                None => None,
            };
            match pending {
                Some(qbody) => {
                    if !blank(qbody.as_str()) {
                        let taken = chat.take_queued_message(now_ms);
                        match taken {
                            Some(q) => chat.add_message(q, now_ms),
                            None => {},
                        }
                        self.preview = qbody.clone();
                        self.throttle.last_send_ms = Some(now_ms);
                        return Some(Outgoing { body: qbody, play_fx: chat.play_fx_sound });
                    }
                },
                None => {},
            }
            if !blank(body.as_str()) {
                self.throttle.last_send_ms = Some(now_ms);
                return Some(Outgoing { body, play_fx: chat.play_fx_sound });
            }
        }
        None
    }
}

} // verus!
