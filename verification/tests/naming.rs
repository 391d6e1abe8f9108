use audio_sessions::greeting::greet;
use audio_sessions::session::{
    display_name_or_default, is_indirect_resource, is_listed_session, is_named_by_display_name,
    localized_resource_name, process_session_name, resource_name_from_text,
};
use audio_sessions::text::{append_decimal, trim_nul_text};

fn utf16(text: &str) -> Vec<u16> {
    text.encode_utf16().collect()
}

#[test]
fn greet_wraps_the_name() {
    assert_eq!(greet("世界"), "你好, 世界! 欢迎使用 Tauri!");
    assert_eq!(greet(""), "你好, ! 欢迎使用 Tauri!");
}

#[test]
fn sessions_without_process_are_hidden_unless_system_sounds() {
    assert!(!is_listed_session(0, false));
    assert!(is_listed_session(0, true));
    assert!(is_listed_session(4242, false));
    assert!(is_listed_session(4242, true));
}

#[test]
fn display_name_is_used_for_system_sounds_and_pid_zero() {
    assert!(is_named_by_display_name(0, false));
    assert!(is_named_by_display_name(0, true));
    assert!(is_named_by_display_name(17, true));
    assert!(!is_named_by_display_name(17, false));
}

#[test]
fn empty_or_undecodable_display_name_falls_back_to_resource() {
    let fallback = "@%SystemRoot%\\System32\\AudioSrv.Dll,-202";
    assert_eq!(display_name_or_default(None), fallback);
    assert_eq!(display_name_or_default(Some(String::new())), fallback);
    assert_eq!(display_name_or_default(Some("Speakers".to_string())), "Speakers");
    assert!(is_indirect_resource(&display_name_or_default(None)));
}

#[test]
fn indirect_resources_start_with_at_sign() {
    assert!(is_indirect_resource("@shell32.dll,-100"));
    assert!(is_indirect_resource("@"));
    assert!(!is_indirect_resource("Music @ home"));
    assert!(!is_indirect_resource(""));
}

#[test]
fn zeroed_resource_buffer_gives_system_sounds_label() {
    let buffer = [0u16; 512];
    assert_eq!(localized_resource_name(&buffer), "系统声音");
    assert_eq!(localized_resource_name(&[]), "系统声音");
}

#[test]
fn resource_text_is_trimmed_of_nul_padding() {
    let mut buffer = [0u16; 512];
    let text = utf16("System Sounds");
    buffer[..text.len()].copy_from_slice(&text);
    assert_eq!(localized_resource_name(&buffer), "System Sounds");

    let mut padded = vec![0u16, 0u16];
    padded.extend(utf16("系统"));
    padded.push(0);
    padded.extend(utf16("声音"));
    padded.extend([0u16; 3]);
    assert_eq!(localized_resource_name(&padded), "系统\0声音");
}

#[test]
fn lone_surrogates_decode_to_replacement_character() {
    let buffer = [0xD800u16, 'A' as u16, 0, 0];
    assert_eq!(localized_resource_name(&buffer), "\u{FFFD}A");
}

#[test]
fn unknown_process_gets_placeholder_with_pid() {
    assert_eq!(process_session_name(1234, None), "Unknown Process (1234)");
    assert_eq!(process_session_name(0, None), "Unknown Process (0)");
    assert_eq!(process_session_name(u32::MAX, None), "Unknown Process (4294967295)");
    assert_eq!(
        process_session_name(1234, Some("chrome.exe".to_string())),
        "chrome.exe"
    );
}

#[test]
fn decimal_numerals() {
    let mut out = String::from("n=");
    append_decimal(&mut out, 0);
    assert_eq!(out, "n=0");
    let mut out = String::new();
    append_decimal(&mut out, 1000);
    assert_eq!(out, "1000");
    let mut out = String::new();
    append_decimal(&mut out, 907);
    assert_eq!(out, "907");
}

#[test]
fn trimming_nul_characters() {
    assert_eq!(trim_nul_text("\0\0ab\0c\0"), "ab\0c");
    assert_eq!(trim_nul_text("\0\0\0"), "");
    assert_eq!(trim_nul_text(""), "");
    assert_eq!(trim_nul_text("plain"), "plain");
}

#[test]
fn decoded_resource_text_is_cleaned() {
    assert_eq!(resource_name_from_text("\0Speakers\0\0"), "Speakers");
    assert_eq!(resource_name_from_text("\0\0"), "系统声音");
    assert_eq!(resource_name_from_text(""), "系统声音");
}

#[test]
fn surrogate_pairs_decode_to_one_character() {
    let mut buffer = utf16("🔊 Speakers");
    buffer.extend([0u16; 4]);
    assert_eq!(localized_resource_name(&buffer), "🔊 Speakers");
    let lone_low = [0xDC00u16, 'B' as u16];
    assert_eq!(localized_resource_name(&lone_low), "\u{FFFD}B");
}

fn facts(pid: u32, is_system_sounds: bool) -> audio_sessions::session::SessionFacts {
    audio_sessions::session::SessionFacts {
        pid,
        is_system_sounds,
        volume_bits: 0.5f32.to_bits(),
        muted: false,
        display_name: None,
        resource_text: Vec::new(),
        process_name: None,
        icon: None,
    }
}

#[test]
fn listing_keeps_enumeration_order_and_skips_orphans() {
    let mut list = Vec::new();

    let mut system = facts(0, true);
    system.display_name = Some(String::new());
    let mut text = utf16("System Sounds");
    text.extend([0u16; 8]);
    system.resource_text = text;
    audio_sessions::session::add_listed_session(&mut list, system);

    audio_sessions::session::add_listed_session(&mut list, facts(0, false));

    let mut player = facts(4242, false);
    player.process_name = Some("player.exe".to_string());
    player.muted = true;
    player.icon = Some("AAAA".to_string());
    audio_sessions::session::add_listed_session(&mut list, player);

    audio_sessions::session::add_listed_session(&mut list, facts(77, false));

    let mut named = facts(0, true);
    named.display_name = Some("Alerts".to_string());
    audio_sessions::session::add_listed_session(&mut list, named);

    let names: Vec<&str> = list.iter().map(|s| s.name.as_str()).collect();
    assert_eq!(
        names,
        vec!["System Sounds", "player.exe", "Unknown Process (77)", "Alerts"]
    );
    let pids: Vec<u32> = list.iter().map(|s| s.pid).collect();
    assert_eq!(pids, vec![0, 4242, 77, 0]);
    assert!(list[1].muted);
    assert_eq!(list[1].icon.as_deref(), Some("AAAA"));
    assert_eq!(f32::from_bits(list[0].volume_bits), 0.5);
}
