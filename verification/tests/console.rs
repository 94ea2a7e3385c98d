use agent::console::{
    console_user_from_env, console_user_from_scutil, console_user_from_scutil_bytes,
    current_username,
};
use agent::session::active_console_user;
use agent::session::bridge::NO_ACTIVE_SESSION;
use agent::wide::{from_wide, to_wide, user_name};

fn some(text: &str) -> Option<String> {
    Some(text.to_string())
}

#[test]
fn user_comes_before_username() {
    assert_eq!(current_username(some("a"), some("b")), "a");
    assert_eq!(current_username(None, some("b")), "b");
    assert_eq!(current_username(None, None), "Unknown user");
}

#[test]
fn blank_user_is_nobody() {
    assert_eq!(console_user_from_env(some("ada"), None), some("ada"));
    assert_eq!(console_user_from_env(None, some(" bob ")), some(" bob "));
    assert_eq!(console_user_from_env(some(" \t\u{3000}"), some("bob")), None);
    assert_eq!(console_user_from_env(None, None), None);
}

#[test]
fn finds_the_user_in_scutil_output() {
    let output = "<dictionary> {\n  GID : 20\n  Name : ada\r\n  UID : 501\n}\n";
    assert_eq!(console_user_from_scutil(output), some("ada"));
    assert_eq!(console_user_from_scutil("  Name : loginwindow\n  Name : bob"), some("bob"));
    assert_eq!(console_user_from_scutil("Name :\nUserName : x\n"), None);
    assert_eq!(console_user_from_scutil(""), None);
    assert_eq!(
        console_user_from_scutil_bytes(b"  Name : a\xffb\n"),
        some("a\u{fffd}b")
    );
}

#[test]
fn wide_text_round_trips() {
    for text in ["", "winsta0\\default", "Zoë 😀 \u{ffff}\u{10ffff}"] {
        let wide = to_wide(text);
        assert_eq!(wide.last(), Some(&0));
        assert_eq!(wide[..wide.len() - 1].to_vec(), text.encode_utf16().collect::<Vec<u16>>());
        let back: String = from_wide(&wide[..wide.len() - 1]).into_iter().collect();
        assert_eq!(back, text);
    }
}

#[test]
fn stray_surrogates_are_replaced() {
    let units = [0xd800, 0x41, 0xdc00, 0xdbff, 0xd83d, 0xde00];
    let text: String = from_wide(&units).into_iter().collect();
    assert_eq!(text, String::from_utf16_lossy(&units));
    assert_eq!(text, "\u{fffd}A\u{fffd}\u{fffd}😀");
}

#[test]
fn user_name_ends_at_the_nul() {
    assert_eq!(user_name(&to_wide(" ada \u{0}junk")), some("ada"));
    assert_eq!(user_name(&to_wide("   ")), None);
    assert_eq!(user_name(&[0x41]), some("A"));
    assert_eq!(user_name(&[]), None);
}

#[test]
fn console_without_a_session_has_no_user() {
    assert_eq!(active_console_user(NO_ACTIVE_SESSION, Some(to_wide("ada"))), None);
    assert_eq!(active_console_user(1, Some(to_wide("ada"))), some("ada"));
    assert_eq!(active_console_user(1, None), None);
}
