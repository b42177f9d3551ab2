use managed_mpv::ids::IdGen;
use managed_mpv::playback::display_title;
use managed_mpv::playback::playlist_contents;
use managed_mpv::playback::playlist_file_name;
use managed_mpv::playback::status_text;
use managed_mpv::wire::encode_command;

fn args(list: &[&str]) -> Vec<String> {
    list.iter().map(|s| s.to_string()).collect()
}

#[test]
fn id_generator_starts_at_one_and_counts_up() {
    let mut gen = IdGen::new();
    assert_eq!(gen.peek(), 1);
    assert_eq!(gen.get_id(), 1);
    assert_eq!(gen.peek(), 2);
    assert_eq!(gen.get_id(), 2);
    assert_eq!(gen.get_id(), 3);
    let mut seen = Vec::new();
    for _ in 0..100 {
        let id = gen.get_id();
        assert!(seen.iter().all(|s| *s < id));
        seen.push(id);
    }
}

#[test]
fn encode_simple_command() {
    let line = encode_command(7, &args(&["show-text", "hello"]));
    assert_eq!(
        line,
        b"{\"request_id\":7,\"command\":[\"show-text\",\"hello\"]}".to_vec()
    );
}

#[test]
fn encode_empty_args() {
    let line = encode_command(1, &args(&[]));
    assert_eq!(line, b"{\"request_id\":1,\"command\":[]}".to_vec());
}

#[test]
fn encode_three_args() {
    let line = encode_command(12, &args(&["loadlist", "/tmp/x.m3u", "append-play"]));
    assert_eq!(
        line,
        b"{\"request_id\":12,\"command\":[\"loadlist\",\"/tmp/x.m3u\",\"append-play\"]}".to_vec()
    );
}

#[test]
fn encode_escapes_quotes_and_backslashes() {
    let line = encode_command(3, &args(&["show-text", "a\"b\\c"]));
    assert_eq!(
        line,
        b"{\"request_id\":3,\"command\":[\"show-text\",\"a\\\"b\\\\c\"]}".to_vec()
    );
}

#[test]
fn encode_escapes_control_characters() {
    let line = encode_command(4, &args(&["show-text", "a\nb\rc\td\x01e"]));
    assert_eq!(
        line,
        b"{\"request_id\":4,\"command\":[\"show-text\",\"a\\nb\\rc\\td\\u0001e\"]}".to_vec()
    );
}

#[test]
fn encode_keeps_multibyte_text() {
    let line = encode_command(5, &args(&["show-text", "héllo"]));
    assert_eq!(line, "{\"request_id\":5,\"command\":[\"show-text\",\"héllo\"]}".as_bytes().to_vec());
}

#[test]
fn encoded_line_parses_back_with_matching_id() {
    let line = encode_command(42, &args(&["show-text", "tricky \"quote\" and \\slash\\"]));
    let text = String::from_utf8(line).unwrap();
    let v: serde_json::Value = serde_json::from_str(&text).unwrap();
    assert_eq!(v.get("request_id").and_then(serde_json::Value::as_u64), Some(42));
    let cmd = v.get("command").and_then(serde_json::Value::as_array).unwrap();
    assert_eq!(cmd[0].as_str(), Some("show-text"));
    assert_eq!(cmd[1].as_str(), Some("tricky \"quote\" and \\slash\\"));
}

#[test]
fn encode_large_id() {
    let line = encode_command(u64::MAX, &args(&[]));
    assert_eq!(
        line,
        b"{\"request_id\":18446744073709551615,\"command\":[]}".to_vec()
    );
}

#[test]
fn display_title_prefers_title_with_url() {
    assert_eq!(
        display_title("Some Song", "https://example.com/v"),
        b"Some Song (https://example.com/v)".to_vec()
    );
}

#[test]
fn display_title_falls_back_to_url() {
    assert_eq!(
        display_title("", "https://example.com/v"),
        b"https://example.com/v".to_vec()
    );
}

#[test]
fn status_text_names_the_entry() {
    let d = display_title("", "u1");
    assert_eq!(status_text(&d), b"Adding to playlist: u1".to_vec());
}

#[test]
fn playlist_file_holds_one_entry() {
    let d = display_title("T", "https://e/x");
    assert_eq!(
        playlist_contents(&d, "https://e/x"),
        b"#EXTM3U\n#EXTINF:-1,T (https://e/x)\nhttps://e/x".to_vec()
    );
}

#[test]
fn playlist_file_name_carries_the_id() {
    assert_eq!(playlist_file_name(19), b"managed-mpv-list-19.m3u".to_vec());
    assert_eq!(playlist_file_name(0), b"managed-mpv-list-0.m3u".to_vec());
}
