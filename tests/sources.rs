use rustychatbox::components::{extract_model_name, gpu_names, listed_names, sort_texts};
use rustychatbox::activity::{replace_all, WindowActivityOptions};
use rustychatbox::media::{MediaLinkModule, MediaLinkOptions};
use rustychatbox::network::{NetworkOptions, NetworkStats, NetworkStatsOptions};
use rustychatbox::osc::chatbox_packet;
use rustychatbox::status::{StatusModule, StatusOptions};
use rustychatbox::time::{TimeConfig, TimeModule, TimeOptions};

fn time_options(prefix: bool, h24: bool, zone: Option<&str>) -> TimeOptions {
    TimeOptions {
        config: TimeConfig {
            enabled: true,
            show_my_time_prefix: prefix,
            use_24_hour: h24,
            use_system_culture: false,
            auto_dst: true,
            custom_timezone: zone.map(|z| z.to_string()),
        },
    }
}

fn network_options() -> NetworkOptions {
    NetworkOptions {
        use_interface_max_speed: false,
        show_download_speed: true,
        show_upload_speed: true,
        show_max_download: false,
        show_max_upload: false,
        show_total_download: true,
        show_total_upload: true,
        show_utilization: false,
        stylized_chars: false,
    }
}

#[test]
fn status_messages_and_prefixes() {
    let mut module = StatusModule::new();
    let mut options = StatusOptions::new();
    assert_eq!(module.get_current_message(&options), None);
    module.add_message("Coding".to_string());
    module.add_message("Eating".to_string());
    assert_eq!(module.get_current_message(&options), Some("Coding".to_string()));
    options.enable_custom_prefix_shuffle = true;
    options.custom_prefixes = " A , B ".to_string();
    assert_eq!(module.current_message_with(&options, 0), Some("A Coding".to_string()));
    assert_eq!(module.current_message_with(&options, 3), Some("B Coding".to_string()));
    let drawn = module.get_current_message(&options).unwrap();
    assert!(drawn == "A Coding" || drawn == "B Coding");
    options.add_speech_bubble = true;
    assert_eq!(module.current_message_with(&options, 1), Some("🗨 B Coding".to_string()));
}

#[test]
fn removing_status_messages_keeps_the_index_valid() {
    let mut module = StatusModule::new();
    module.add_message("a".to_string());
    module.add_message("b".to_string());
    module.add_message("c".to_string());
    module.current_index = 2;
    module.remove_message(7);
    assert_eq!(module.messages.len(), 3);
    module.remove_message(2);
    assert_eq!(module.messages, vec!["a", "b"]);
    assert_eq!(module.current_index, 1);
    module.remove_message(0);
    assert_eq!(module.current_index, 0);
    assert_eq!(module.messages, vec!["b"]);
}

#[test]
fn status_cycle_moves_after_the_interval() {
    let mut module = StatusModule::new();
    let mut options = StatusOptions::new();
    options.cycle_status = true;
    options.cycle_interval = 10;
    for m in ["a", "b", "c"] {
        module.add_message(m.to_string());
    }
    module.advance_cycle(&options, 1_000, 0);
    assert_eq!(module.current_index, 0);
    assert_eq!(module.last_cycle_ms, Some(1_000));
    module.advance_cycle(&options, 5_000, 0);
    assert_eq!(module.current_index, 0);
    module.advance_cycle(&options, 11_000, 0);
    assert_eq!(module.current_index, 1);
    module.advance_cycle(&options, 21_000, 0);
    module.advance_cycle(&options, 31_000, 0);
    assert_eq!(module.current_index, 0);
    options.cycle_random = true;
    module.advance_cycle(&options, 41_000, 8);
    assert_eq!(module.current_index, 2);
    module.update_cycle(&options, 51_000);
    assert!(module.current_index < 3);
}

#[test]
fn clock_formats() {
    assert_eq!(TimeModule::format_time(&time_options(true, false, None), false, 15, 4), "My time: 03:04 PM");
    assert_eq!(TimeModule::format_time(&time_options(false, false, None), false, 0, 30), "12:30 AM");
    assert_eq!(TimeModule::format_time(&time_options(false, false, None), false, 12, 0), "12:00 PM");
    assert_eq!(TimeModule::format_time(&time_options(false, true, None), false, 9, 5), "09:05");
    assert_eq!(TimeModule::format_time(&time_options(false, false, Some("Nowhere/Else")), false, 15, 4), "15:04");
    assert_eq!(TimeModule::format_time(&time_options(false, false, Some("Europe/Paris")), true, 15, 4), "03:04 PM");
}

#[test]
fn local_time_has_the_expected_shape() {
    let t = TimeModule::get_local_time(&time_options(true, true, None));
    assert_eq!(t.len(), "My time: HH:MM".len());
    assert!(t.starts_with("My time: "));
    let t = TimeModule::get_local_time(&time_options(false, false, Some("Asia/Tokyo")));
    assert!(t.ends_with(" AM") || t.ends_with(" PM"));
    let t = TimeModule::get_local_time(&time_options(false, false, Some("Not/AZone")));
    assert_eq!(t.len(), 5);
}

#[test]
fn network_totals() {
    let options = network_options();
    assert_eq!(NetworkStats::format_stats(&options, Some(5 * 1048576 + 7), Some(1048575)), "Total Download: 5 MB\nTotal Upload: 0 MB");
    let mut stylized = options;
    stylized.stylized_chars = true;
    stylized.show_total_download = false;
    assert_eq!(NetworkStats::format_stats(&stylized, Some(3), Some(2 * 1048576)), "TOTAL UPLOAD: 2 MB");
    assert_eq!(NetworkStats::format_stats(&options, None, None), "");
    assert_eq!(NetworkStats::get_formatted_stats(&options, "eth0"), "");
    assert_eq!(NetworkStats::get_total_download("eth0"), None);
    assert_eq!(NetworkStats::get_total_upload("eth0"), None);
    let wrapped = NetworkStatsOptions::new(options);
    assert!(wrapped.enabled);
}

#[test]
fn media_track_text() {
    let module = MediaLinkModule::new();
    let mut options = MediaLinkOptions::new();
    assert_eq!(options.forget_session_seconds, 300);
    assert_eq!(options.seekbar_style, "Small numbers");
    let playing = Some("Playing\n".to_string());
    let track = Some("Artist - Title\n".to_string());
    assert_eq!(module.get_formatted_track(&options, &playing, &track), Some("Listening to: Artist - Title".to_string()));
    options.use_music_note_prefix = true;
    assert_eq!(module.get_formatted_track(&options, &playing, &track), Some("🎵 Artist - Title".to_string()));
    let paused = Some("Paused\n".to_string());
    assert_eq!(module.get_formatted_track(&options, &paused, &track), Some("⏸".to_string()));
    options.show_pause_emoji = false;
    assert_eq!(module.get_formatted_track(&options, &paused, &None), Some("Paused".to_string()));
    assert_eq!(module.get_formatted_track(&options, &None, &track), None);
    assert_eq!(module.get_formatted_track(&options, &playing, &Some("  \n".to_string())), None);
}

#[test]
fn activity_descriptions() {
    let options = WindowActivityOptions::default();
    assert_eq!(options.format_activity("Firefox", false), Some("On desktop in Firefox".to_string()));
    assert_eq!(options.format_activity("Beat Saber", true), Some("In VR focusing in Beat\nSaber".to_string()));
    assert_eq!(options.format_activity("No active window", false), Some("On desktop".to_string()));
    assert_eq!(options.format_activity("", true), Some("In VR".to_string()));
    let mut short = WindowActivityOptions::default();
    short.max_title_length = 8;
    short.desktop_middle = String::new();
    assert_eq!(short.format_activity("Very Long Title", false), Some("On desktop Very ...".to_string()));
    short.show_desktop_app = false;
    short.desktop_prefix = String::new();
    assert_eq!(short.format_activity("Anything", false), Some(String::new()));
    assert_eq!(replace_all("%app% and %app%%", "%app%", "X"), "X and X%");
}

#[test]
fn chatbox_packet_layout() {
    let packet = chatbox_packet("hi", false, false);
    let mut expected = b"/chatbox/input\0\0".to_vec();
    expected.extend_from_slice(b",sTF\0\0\0\0");
    expected.extend_from_slice(b"hi\0\0");
    assert_eq!(packet, expected);
    let slim = chatbox_packet("hi", true, true);
    let mut expected = b"/chatbox/input\0\0".to_vec();
    expected.extend_from_slice(b",sTT\0\0\0\0");
    expected.extend_from_slice(b"hi\x03\x1f\0\0\0\0");
    assert_eq!(slim, expected);
}

#[test]
fn component_names() {
    assert_eq!(extract_model_name("NVIDIA GeForce RTX 3080"), "3080");
    assert_eq!(extract_model_name("Radeon"), "Radeon");
    assert_eq!(extract_model_name("ends with "), "");
    let listing = "H/W path  Device  Class  Description\n/0/100/1/0  display  GA102 [GeForce RTX 3080]\n/0/100/2  display  odd ]text[\n/0/100/3 display [Intel UHD]";
    assert_eq!(gpu_names(listing), vec!["GeForce RTX 3080", "Intel UHD"]);
    assert!(gpu_names("").is_empty());
    let unsorted = "a [Radeon]\nb [GeForce]\nc [Arc]\nd [GeForce]";
    assert_eq!(listed_names(unsorted), vec!["Radeon", "GeForce", "Arc", "GeForce"]);
    assert_eq!(gpu_names(unsorted), vec!["Arc", "GeForce", "GeForce", "Radeon"]);
    let words: Vec<String> = ["b", "ab", "a", "", "é", "Z"].iter().map(|s| s.to_string()).collect();
    let mut expected = words.clone();
    expected.sort();
    assert_eq!(sort_texts(&words), expected);
}

#[test]
fn player_state_playing() {
    let module = MediaLinkModule::new();
    assert!(module.is_playing(&Some("Playing\n".to_string())));
    assert!(!module.is_playing(&Some("Paused\n".to_string())));
    assert!(!module.is_playing(&None));
}

#[test]
fn status_rotator_moves_to_the_next_message() {
    let mut module = StatusModule::new();
    let mut options = StatusOptions::new();
    options.cycle_status = true;
    options.cycle_interval = 1;
    module.add_message("a".to_string());
    module.add_message("b".to_string());
    module.update_cycle(&options, 0);
    assert_eq!(module.current_index, 0);
    module.update_cycle(&options, 1_000);
    assert_eq!(module.current_index, 1);
    assert_eq!(module.last_cycle_ms, Some(1_000));
    module.update_cycle(&options, 2_000);
    assert_eq!(module.current_index, 0);
    options.cycle_status = false;
    module.update_cycle(&options, 9_000);
    assert_eq!(module.current_index, 0);
    assert_eq!(module.last_cycle_ms, Some(2_000));
}
