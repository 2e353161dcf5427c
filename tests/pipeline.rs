use rustychatbox::aggregate::{collect_fragments, stat_pairs, SourceReadings};
use rustychatbox::arbiter::{ambient_body, arbitrate, format_chat_message, message_over};
use rustychatbox::chat::{ChatMessage, ChatOptions};
use rustychatbox::delivery::{Composer, DeliveryThrottle};
use rustychatbox::tabs::IntegrationsTab;
use rustychatbox::wrap::Joiner;

fn chat_options() -> ChatOptions {
    ChatOptions {
        enabled: true,
        chat_timeout: 30,
        add_speech_bubble: false,
        use_custom_idle_prefix: false,
        play_fx_sound: true,
        play_fx_resend: false,
        small_delay: false,
        delay_ms: 500,
        override_display_time: false,
        display_time_ms: 4000,
        edit_messages: false,
        live_editing: false,
        messages: Vec::new(),
        last_send_ms: None,
        queued_message: None,
    }
}

fn all_enabled() -> IntegrationsTab {
    IntegrationsTab {
        personal_status_enabled: true,
        component_stats_enabled: true,
        network_stats_enabled: true,
        current_time_enabled: true,
        medialink_enabled: true,
        window_activity_enabled: true,
    }
}

fn none_enabled() -> IntegrationsTab {
    IntegrationsTab {
        personal_status_enabled: false,
        component_stats_enabled: false,
        network_stats_enabled: false,
        current_time_enabled: false,
        medialink_enabled: false,
        window_activity_enabled: false,
    }
}

fn readings() -> SourceReadings {
    SourceReadings {
        status: Some("status".to_string()),
        activity: Some("activity".to_string()),
        stats: Some("CPU: 5%|GPU: 3%".to_string()),
        time: Some("time".to_string()),
        network: Some("network".to_string()),
        media: Some("media".to_string()),
    }
}

fn time_only() -> (IntegrationsTab, SourceReadings) {
    let mut tab = none_enabled();
    tab.current_time_enabled = true;
    let r = SourceReadings {
        status: None,
        activity: None,
        stats: None,
        time: Some("My time: 3:04 PM".to_string()),
        network: None,
        media: None,
    };
    (tab, r)
}

#[test]
fn fragments_follow_the_fixed_order() {
    let frags = collect_fragments(&all_enabled(), &readings());
    assert_eq!(frags, vec!["status", "activity", "CPU: 5% | GPU: 3%", "time", "network", "media"]);
}

#[test]
fn disabling_a_middle_source_keeps_the_order() {
    let mut tab = all_enabled();
    tab.component_stats_enabled = false;
    tab.current_time_enabled = false;
    let frags = collect_fragments(&tab, &readings());
    assert_eq!(frags, vec!["status", "activity", "network", "media"]);
    let mut r = readings();
    r.activity = None;
    r.network = Some(String::new());
    let frags = collect_fragments(&all_enabled(), &r);
    assert_eq!(frags, vec!["status", "CPU: 5% | GPU: 3%", "time", "media"]);
}

#[test]
fn stats_are_paired() {
    assert_eq!(stat_pairs("CPU: 5% | GPU: 3% | RAM: 2GB"), vec!["CPU: 5% | GPU: 3%", "RAM: 2GB"]);
    assert_eq!(stat_pairs("CPU: 5%"), vec!["CPU: 5%"]);
    assert_eq!(stat_pairs("a|b|c|d"), vec!["a | b", "c | d"]);
}

#[test]
fn find_active_returns_the_latest_active_message() {
    let mut chat = chat_options();
    chat.add_message("first".to_string(), 1_000);
    chat.add_message("second".to_string(), 5_000);
    chat.add_message("third".to_string(), 9_000);
    assert_eq!(chat.find_active(10_000), Some(2));
    assert_eq!(chat.find_active(38_999), Some(2));
    assert_eq!(chat.find_active(39_000), None);
    chat.messages[2].sent_at_ms = 0;
    assert_eq!(chat.find_active(34_000), Some(1));
    let empty = chat_options();
    assert_eq!(empty.find_active(0), None);
}

#[test]
fn eleventh_message_evicts_the_oldest() {
    let mut chat = chat_options();
    for i in 0..10u64 {
        chat.add_message(format!("m{}", i), i);
    }
    assert_eq!(chat.messages.len(), 10);
    chat.add_message("m10".to_string(), 10);
    let texts: Vec<String> = chat.messages.iter().map(|m| m.text.clone()).collect();
    let expected: Vec<String> = (1..=10).map(|i| format!("m{}", i)).collect();
    assert_eq!(texts, expected);
    assert_eq!(chat.messages[9].edit_text, "m10");
    assert!(!chat.messages[9].editing);
    assert_eq!(chat.messages[9].sent_at_ms, 10);
    chat.clear_messages();
    assert!(chat.messages.is_empty());
}

#[test]
fn remaining_time_counts_down_to_zero() {
    let chat = chat_options();
    let m = ChatMessage { text: "x".to_string(), sent_at_ms: 10_000, editing: false, edit_text: "x".to_string() };
    assert_eq!(chat.get_remaining_time(&m, 10_000), 30);
    assert_eq!(chat.get_remaining_time(&m, 12_500), 28);
    assert_eq!(chat.get_remaining_time(&m, 40_000), 0);
    assert_eq!(chat.get_remaining_time(&m, 90_000), 0);
}

#[test]
fn small_delay_holds_chat_sends() {
    let mut chat = chat_options();
    assert!(chat.can_send(0));
    chat.small_delay = true;
    assert!(chat.can_send(0));
    chat.set_queued_message("hi".to_string());
    assert_eq!(chat.take_queued_message(1_000), Some("hi".to_string()));
    assert_eq!(chat.queued_message, None);
    assert_eq!(chat.last_send_ms, Some(1_000));
    assert!(!chat.can_send(1_400));
    assert!(chat.can_send(1_500));
    chat.small_delay = false;
    assert!(chat.can_send(1_100));
}

#[test]
fn ambient_alone_when_no_chat_is_active() {
    let (tab, r) = time_only();
    let ambient = ambient_body(&tab, &r, Joiner::Inline);
    assert_eq!(ambient, "My time: 3:04 PM");
    let chat = chat_options();
    assert_eq!(arbitrate(&chat, 0, ambient.as_str()), "My time: 3:04 PM");
}

#[test]
fn chat_message_goes_above_the_ambient_text() {
    let (tab, r) = time_only();
    let ambient = ambient_body(&tab, &r, Joiner::Inline);
    let mut chat = chat_options();
    chat.add_speech_bubble = true;
    chat.add_message("hello world this is a long test message exceeding width".to_string(), 1_000);
    let body = arbitrate(&chat, 2_000, ambient.as_str());
    let lines: Vec<&str> = body.split('\n').collect();
    assert_eq!(lines, vec!["🗨 hello world this is a", "long test message exceeding", "width", "My time: 3:04 PM"]);
    for line in &lines {
        assert!(line.chars().count() <= 27);
    }
}

#[test]
fn live_edit_mode_shows_only_an_edited_message() {
    let mut chat = chat_options();
    chat.live_editing = true;
    chat.add_message("committed".to_string(), 1_000);
    assert_eq!(arbitrate(&chat, 2_000, "ambient"), "ambient");
    chat.messages[0].editing = true;
    chat.messages[0].edit_text = "draft".to_string();
    assert_eq!(arbitrate(&chat, 2_000, "ambient"), "draft\nambient");
    assert_eq!(arbitrate(&chat, 2_000, ""), "draft");
}

#[test]
fn message_formatting() {
    let mut chat = chat_options();
    assert_eq!(format_chat_message(&chat, "hi"), "hi");
    chat.add_speech_bubble = true;
    assert_eq!(format_chat_message(&chat, "hi"), "🗨 hi");
    assert_eq!(message_over("hi", ""), "hi");
    assert_eq!(message_over("hi", "a\nb"), "hi\na\nb");
}

#[test]
fn update_rate_is_clamped() {
    assert_eq!(DeliveryThrottle::new(100).update_rate_ms, 1600);
    assert_eq!(DeliveryThrottle::new(2000).update_rate_ms, 2000);
    assert_eq!(DeliveryThrottle::new(60_000).update_rate_ms, 10_000);
}

#[test]
fn throttle_allows_one_send_per_interval() {
    let (tab, r) = time_only();
    let mut chat = chat_options();
    let mut composer = Composer::new(2000, Joiner::Inline, true);
    let first = composer.tick(&mut chat, &tab, &r, 0);
    assert_eq!(first.map(|o| o.body), Some("My time: 3:04 PM".to_string()));
    assert!(composer.tick(&mut chat, &tab, &r, 1000).is_none());
    let third = composer.tick(&mut chat, &tab, &r, 2100);
    assert!(third.is_some());
    assert_eq!(composer.throttle.last_send_ms, Some(2100));
    assert_eq!(composer.preview, "My time: 3:04 PM");
}

#[test]
fn nothing_is_sent_when_sending_is_off_or_body_is_blank() {
    let (tab, r) = time_only();
    let mut chat = chat_options();
    let mut off = Composer::new(2000, Joiner::Inline, false);
    assert!(off.tick(&mut chat, &tab, &r, 0).is_none());
    assert_eq!(off.preview, "");
    let mut on = Composer::new(2000, Joiner::Inline, true);
    let blank = SourceReadings { status: Some("   ".to_string()), activity: None, stats: None, time: None, network: None, media: None };
    let mut tab = none_enabled();
    tab.personal_status_enabled = true;
    assert!(on.tick(&mut chat, &tab, &blank, 0).is_none());
    assert_eq!(on.throttle.last_send_ms, None);
}

#[test]
fn queued_message_is_sent_then_stored() {
    let (tab, r) = time_only();
    let mut chat = chat_options();
    chat.add_speech_bubble = true;
    chat.set_queued_message("hello".to_string());
    let mut composer = Composer::new(2000, Joiner::Inline, true);
    let out = composer.tick(&mut chat, &tab, &r, 5_000).unwrap();
    assert_eq!(out.body, "🗨 hello\nMy time: 3:04 PM");
    assert!(out.play_fx);
    assert_eq!(chat.queued_message, None);
    assert_eq!(chat.last_send_ms, Some(5_000));
    assert_eq!(chat.messages.len(), 1);
    assert_eq!(chat.messages[0].text, "hello");
    let next = composer.tick(&mut chat, &tab, &r, 7_000).unwrap();
    assert_eq!(next.body, "🗨 hello\nMy time: 3:04 PM");
    let later = composer.tick(&mut chat, &tab, &r, 40_000).unwrap();
    assert_eq!(later.body, "My time: 3:04 PM");
}

#[test]
fn live_edits_wait_for_the_display_time() {
    let (tab, r) = time_only();
    let mut chat = chat_options();
    chat.live_editing = true;
    chat.override_display_time = true;
    chat.display_time_ms = 5000;
    chat.small_delay = true;
    chat.delay_ms = 100_000;
    chat.last_send_ms = Some(0);
    chat.add_message("typed".to_string(), 0);
    chat.messages[0].editing = true;
    chat.messages[0].edit_text = "typing".to_string();
    let mut composer = Composer::new(2000, Joiner::Inline, true);
    let first = composer.tick(&mut chat, &tab, &r, 1_000).unwrap();
    assert_eq!(first.body, "typing\nMy time: 3:04 PM");
    assert!(composer.tick(&mut chat, &tab, &r, 4_000).is_none());
    assert!(composer.tick(&mut chat, &tab, &r, 6_000).is_some());
}

#[test]
fn submitted_chat_goes_out_or_waits() {
    let mut chat = chat_options();
    let mut composer = Composer::new(2000, Joiner::Inline, true);
    let out = composer.submit_chat(&mut chat, "hello there".to_string(), 1_000).unwrap();
    assert_eq!(out.body, "hello there");
    assert_eq!(chat.messages.len(), 1);
    assert_eq!(chat.last_send_ms, Some(1_000));
    assert_eq!(composer.throttle.last_send_ms, Some(1_000));
    assert!(composer.submit_chat(&mut chat, "again".to_string(), 2_000).is_none());
    assert_eq!(chat.queued_message, Some("again".to_string()));
    assert_eq!(chat.messages.len(), 1);
}

#[test]
fn taking_an_empty_queue_keeps_the_chat_timer() {
    let mut chat = chat_options();
    chat.last_send_ms = Some(500);
    assert_eq!(chat.take_queued_message(9_000), None);
    assert_eq!(chat.last_send_ms, Some(500));
}

#[test]
fn submitted_chat_with_sending_off_is_recorded_not_sent() {
    let mut chat = chat_options();
    let mut composer = Composer::new(2000, Joiner::Inline, false);
    assert!(composer.submit_chat(&mut chat, "quiet".to_string(), 1_000).is_none());
    assert_eq!(chat.messages.len(), 1);
    assert_eq!(chat.messages[0].text, "quiet");
    assert_eq!(chat.queued_message, None);
    assert_eq!(chat.last_send_ms, None);
    assert_eq!(composer.preview, "quiet");
    assert_eq!(composer.throttle.last_send_ms, None);
}

#[test]
fn editing_commit_cancel_and_resend() {
    let (tab, r) = time_only();
    let mut chat = chat_options();
    chat.play_fx_resend = false;
    let mut composer = Composer::new(2000, Joiner::Inline, true);
    chat.add_message("first".to_string(), 0);
    composer.tick(&mut chat, &tab, &r, 0).unwrap();
    assert_eq!(composer.ambient, "My time: 3:04 PM");

    chat.start_editing(0);
    chat.set_edit_text(0, "changed".to_string());
    assert!(chat.messages[0].editing);
    assert_eq!(chat.messages[0].text, "first");
    let committed = composer.commit_edit(&mut chat, 0, 3_000).unwrap();
    assert_eq!(committed.body, "changed");
    assert!(committed.play_fx);
    assert_eq!(chat.messages[0].text, "changed");
    assert_eq!(chat.messages[0].sent_at_ms, 3_000);
    assert!(!chat.messages[0].editing);

    chat.start_editing(0);
    chat.set_edit_text(0, "draft".to_string());
    assert!(composer.cancel_edit(&mut chat, 0, 4_000).is_none());
    assert_eq!(chat.messages[0].edit_text, "changed");
    assert!(!chat.messages[0].editing);
    assert_eq!(composer.preview, "My time: 3:04 PM");

    assert!(composer.resend(&mut chat, 0, 4_500).is_none());
    assert_eq!(chat.messages[0].sent_at_ms, 3_000);
    let again = composer.resend(&mut chat, 0, 6_000).unwrap();
    assert_eq!(again.body, "changed");
    assert!(!again.play_fx);
    assert_eq!(chat.messages[0].sent_at_ms, 6_000);

    let stop = composer.show_ambient(9_000).unwrap();
    assert_eq!(stop.body, "My time: 3:04 PM");
    assert!(!stop.play_fx);
}
