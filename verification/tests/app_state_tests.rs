use szechat::chat::{Rgb, TemplateApp};
use szechat::emoji::{emojiui, panel_emoji_list, PANEL_SIZE};
use szechat::keys::{key_is_down, send_keys_pressed};

fn connected_app() -> TemplateApp {
    let mut app = TemplateApp::default();
    app.username = "ann".to_string();
    assert_eq!(app.press_connect(), Some("127.0.0.1:6000".to_string()));
    app.finish_connect(true);
    app
}

#[test]
fn fresh_window() {
    let app = TemplateApp::default();
    assert_eq!(app.status, "Waiting for user");
    assert_eq!(app.status_color, Rgb { r: 128, g: 128, b: 128 });
    assert_eq!(app.ip, "127.0.0.1:6000");
    assert_eq!(app.user_counter, "0");
    assert_eq!(app.random_emoji, "😐");
    assert_eq!(app.emoji.len(), 13);
    assert_eq!(app.emoji[12], "✡");
    assert!(app.connection_is_open && !app.settings_is_open);
    assert!(!app.connected && !app.ml_is_enabled);
    assert!(app.messages.is_empty() && app.label.is_empty() && app.username.is_empty());
}

#[test]
fn focus_backs_up_message_count_once() {
    let mut app = TemplateApp::default();
    app.messages = vec!["a".to_string(), "b".to_string()];
    app.observe_focus(false);
    assert_eq!(app.back_up_messages_num, 2);
    assert!(app.msg_len_already_backed);
    app.messages.push("c".to_string());
    app.observe_focus(false);
    assert_eq!(app.back_up_messages_num, 2);
    app.observe_focus(true);
    assert!(!app.msg_len_already_backed && app.has_focus);
    app.observe_focus(false);
    assert_eq!(app.back_up_messages_num, 3);
}

#[test]
fn unread_notification_every_five() {
    let mut app = TemplateApp::default();
    app.back_up_messages_num = 1;
    app.messages = (0..6).map(|i| i.to_string()).collect();
    assert!(!app.take_unread_notification());
    assert_eq!(app.back_up_messages_num, 1);
    app.messages.push("7".to_string());
    assert!(app.take_unread_notification());
    assert_eq!(app.back_up_messages_num, 6);
    assert!(!app.take_unread_notification());
}

#[test]
fn unread_notification_after_clear() {
    let mut app = TemplateApp::default();
    app.back_up_messages_num = 40;
    app.messages = vec!["x".to_string(); 3];
    assert!(!app.take_unread_notification());
    assert_eq!(app.back_up_messages_num, 40);
}

#[test]
fn receives_message_and_counter() {
    let mut app = connected_app();
    assert!(app.receive_message(" 2024   -   bob : hi\n4"));
    assert_eq!(app.messages, vec![" 2024   -   bob : hi".to_string()]);
    assert_eq!(app.user_counter, "4");
    assert!(app.receive_message("second"));
    assert_eq!(app.messages.len(), 2);
    assert_eq!(app.user_counter, "Use the latest server else the user counter wont work!");
    assert!(!app.receive_message("  \n "));
    assert!(!app.receive_message(""));
    assert_eq!(app.messages.len(), 2);
}

#[test]
fn submit_label_when_connected() {
    let mut app = connected_app();
    app.label = "hello".to_string();
    assert_eq!(app.submit_label(), Some(("hello".to_string(), "ann".to_string())));
    assert!(app.label.is_empty());
}

#[test]
fn submit_label_when_disconnected_only_clears() {
    let mut app = TemplateApp::default();
    app.label = "hello".to_string();
    assert_eq!(app.submit_label(), None);
    assert!(app.label.is_empty());
}

#[test]
fn connect_without_username() {
    let mut app = TemplateApp::default();
    app.username = "  ".to_string();
    assert_eq!(app.press_connect(), None);
    assert_eq!(app.status, "You didnt enter a username!");
    assert_eq!(app.status_color, Rgb { r: 255, g: 0, b: 0 });
}

#[test]
fn connect_dials_and_succeeds() {
    let mut app = TemplateApp::default();
    app.username = "ann".to_string();
    app.ip = "10.0.0.1:7000".to_string();
    app.messages.push("old".to_string());
    assert_eq!(app.press_connect(), Some("10.0.0.1:7000".to_string()));
    assert_eq!(app.status, "Connecting. . .");
    assert_eq!(app.status_color, Rgb { r: 127, g: 250, b: 133 });
    app.finish_connect(true);
    assert!(app.connected && app.ml_is_enabled);
    assert_eq!(app.status, "Connected");
    assert_eq!(app.status_color, Rgb { r: 0, g: 255, b: 0 });
    assert!(app.messages.is_empty());
}

#[test]
fn connect_fails() {
    let mut app = TemplateApp::default();
    app.username = "ann".to_string();
    app.messages.push("old".to_string());
    assert!(app.press_connect().is_some());
    app.finish_connect(false);
    assert!(!app.connected && !app.ml_is_enabled);
    assert_eq!(app.status, "Invalid ip adress or port");
    assert_eq!(app.status_color, Rgb { r: 255, g: 0, b: 0 });
    assert_eq!(app.messages, vec!["old".to_string()]);
}

#[test]
fn connect_twice_keeps_connection() {
    let mut app = connected_app();
    assert_eq!(app.press_connect(), None);
    assert_eq!(app.status, "Connection already established");
    assert_eq!(app.status_color, Rgb { r: 0, g: 255, b: 0 });
    assert!(app.connected);
}

#[test]
fn disconnect_then_again() {
    let mut app = connected_app();
    assert!(app.press_disconnect());
    assert!(!app.connected && !app.ml_is_enabled);
    assert_eq!(app.status, "Disconected");
    assert_eq!(app.status_color, Rgb { r: 255, g: 0, b: 0 });
    assert!(!app.press_disconnect());
    assert_eq!(app.status, "Connection doesnt exist");
}

#[test]
fn writing_follows_connection() {
    let mut app = TemplateApp::default();
    assert_eq!(app.ml_is_enabled, app.connected);
    app.username = "ann".to_string();
    app.press_connect();
    app.finish_connect(true);
    assert_eq!(app.ml_is_enabled, app.connected);
    app.press_disconnect();
    assert_eq!(app.ml_is_enabled, app.connected);
}

#[test]
fn header_text_follows_writing() {
    let mut app = TemplateApp::default();
    assert_eq!(app.header_text(), "Connect to a chat server to write messages!");
    app.ml_is_enabled = true;
    app.user_counter = "3".to_string();
    assert_eq!(app.header_text(), "Connected users: 3");
}

#[test]
fn emoji_button_picks_once_per_hover() {
    let mut app = TemplateApp::default();
    for _ in 0..50 {
        app.hover_emoji_button(true);
        assert!(app.random_generated);
        assert!(app.emoji.contains(&app.random_emoji));
        let first = app.random_emoji.clone();
        app.hover_emoji_button(true);
        assert_eq!(app.random_emoji, first);
        app.hover_emoji_button(false);
        assert!(!app.random_generated);
    }
}

#[test]
fn emoji_button_with_one_emoji() {
    let mut app = TemplateApp::default();
    app.emoji = vec!["👾".to_string()];
    app.hover_emoji_button(true);
    assert_eq!(app.random_emoji, "👾");
}

#[test]
fn emoji_panel_toggle_and_insert() {
    let mut app = TemplateApp::default();
    app.label = "hi ".to_string();
    app.insert_emoji("😃");
    assert_eq!(app.label, "hi ");
    app.toggle_emoji_panel();
    assert!(app.emojiui_is_open);
    app.insert_emoji("😃");
    assert_eq!(app.label, "hi 😃");
    app.insert_emoji("");
    assert_eq!(app.label, "hi 😃");
    app.toggle_emoji_panel();
    assert!(!app.emojiui_is_open);
}

#[test]
fn emoji_panel_picks_last_clicked() {
    let mut clicked = [false; PANEL_SIZE];
    assert_eq!(emojiui(&clicked), "");
    clicked[0] = true;
    assert_eq!(emojiui(&clicked), "😃");
    clicked[9] = true;
    assert_eq!(emojiui(&clicked), "✡");
    clicked[18] = true;
    assert_eq!(emojiui(&clicked), "👲");
    let list = panel_emoji_list();
    assert_eq!(list.len(), PANEL_SIZE);
    assert_eq!(list[11], "👽");
}

#[test]
fn key_state_words() {
    assert!(key_is_down(i16::MIN));
    assert!(key_is_down(-32767));
    assert!(key_is_down(-1));
    assert!(!key_is_down(0));
    assert!(!key_is_down(1));
    assert!(!key_is_down(i16::MAX));
}

#[test]
fn enter_without_shift_sends() {
    assert!(send_keys_pressed(-32768, 0));
    assert!(!send_keys_pressed(-32768, -32768));
    assert!(!send_keys_pressed(0, 0));
    assert!(!send_keys_pressed(1, -1));
}

#[test]
fn emoji_button_picks_vary() {
    let mut app = TemplateApp::default();
    let mut seen: Vec<String> = Vec::new();
    for _ in 0..300 {
        app.hover_emoji_button(true);
        if !seen.contains(&app.random_emoji) {
            seen.push(app.random_emoji.clone());
        }
        app.hover_emoji_button(false);
    }
    assert!(seen.len() > 1);
}

#[test]
fn window_with_saved_settings() {
    let app = TemplateApp::with_saved_settings(
        "👾".to_string(),
        vec!["👾".to_string(), "💀".to_string()],
        Rgb { r: 1, g: 2, b: 3 },
        Rgb { r: 4, g: 5, b: 6 },
    );
    assert_eq!(app.random_emoji, "👾");
    assert_eq!(app.emoji, vec!["👾".to_string(), "💀".to_string()]);
    assert_eq!(app.color, Rgb { r: 1, g: 2, b: 3 });
    assert_eq!(app.msg_color, Rgb { r: 4, g: 5, b: 6 });
    assert_eq!(app.status, "Waiting for user");
    assert!(!app.connected && app.messages.is_empty());
}
