use enigo::{Direction, Key};
use voice_sync::keyboard::paste_keys;
use voice_sync::text::log_preview;

#[test]
fn short_text_is_shown_whole() {
    assert_eq!(log_preview("hello"), "hello");
    assert_eq!(log_preview(""), "");
    assert_eq!(log_preview("abcdefghijklmno"), "abcdefghijklmno");
}

#[test]
fn long_text_is_cut_after_fifteen_chars() {
    assert_eq!(log_preview("abcdefghijklmnop"), "abcdefghijklmno...");
    assert_eq!(log_preview("语音同步语音同步语音同步语音同步语音"), "语音同步语音同步语音同步语音同...");
}

#[test]
fn paste_shortcut_is_control_v() {
    assert_eq!(
        paste_keys(),
        vec![
            (Key::Control, Direction::Press),
            (Key::Unicode('v'), Direction::Click),
            (Key::Control, Direction::Release),
        ]
    );
}
