use tank_maze::menu::{host_code_display, MenuAction, MenuMode, MenuState};
use tank_maze::multiplayer_menu::{MultiplayerAction, MultiplayerHits, MultiplayerMenu, MultiplayerState};

fn labels(m: &MenuState) -> Vec<String> {
    m.buttons().iter().map(|b| b.text().clone()).collect()
}

#[test]
fn main_menu_buttons() {
    let m = MenuState::new();
    assert_eq!(labels(&m), vec!["Host Game", "Join Game", "Quit"]);
    assert_eq!(m.mode(), &MenuMode::Main);
    assert_eq!(m.handle_click(&vec![false, false, true]), MenuAction::Quit);
    assert_eq!(m.handle_click(&vec![true, true, false]), MenuAction::Host);
    assert_eq!(m.handle_click(&vec![false, false, false]), MenuAction::NoAction);
    assert_eq!(m.handle_click(&vec![]), MenuAction::NoAction);
}

#[test]
fn menu_pages_and_host_code() {
    let mut m = MenuState::new();
    assert!(m.get_host_code().is_none());
    m.set_host_waiting("abc=".to_string());
    assert_eq!(m.get_host_code(), Some(&"abc=".to_string()));
    assert_eq!(labels(&m), vec!["Copy to Clipboard", "Back"]);
    assert_eq!(m.handle_click(&vec![true, false]), MenuAction::CopyToClipboard);
    m.set_join_waiting();
    assert!(m.get_host_code().is_none());
    assert_eq!(labels(&m), vec!["Paste from Clipboard", "Back"]);
    assert_eq!(m.handle_click(&vec![false, true]), MenuAction::Back);
    m.set_main_mode();
    assert_eq!(m.mode(), &MenuMode::Main);
}

#[test]
fn menu_hover_follows_pointer() {
    let mut m = MenuState::new();
    m.update(&vec![false, true]);
    let h: Vec<bool> = m.buttons().iter().map(|b| b.hovered()).collect();
    assert_eq!(h, vec![false, true, false]);
    assert_eq!(m.buttons()[1].action(), MenuAction::Join);
    assert_eq!(labels(&m), vec!["Host Game", "Join Game", "Quit"]);
}

fn hits(buttons: Vec<bool>, copy: bool, paste: bool, connect: bool) -> MultiplayerHits {
    MultiplayerHits { buttons, copy, paste, connect }
}

#[test]
fn multiplayer_mode_select_clicks() {
    let m = MultiplayerMenu::new();
    assert_eq!(m.get_state(), &MultiplayerState::ModeSelect);
    assert_eq!(m.handle_click(&hits(vec![false, true, false], true, true, true)), MultiplayerAction::Join);
    assert_eq!(m.handle_click(&hits(vec![false, false, true], false, false, false)), MultiplayerAction::Back);
    assert_eq!(m.handle_click(&hits(vec![], true, true, true)), MultiplayerAction::NoAction);
}

#[test]
fn multiplayer_typing_and_backspace() {
    let mut m = MultiplayerMenu::new();
    m.handle_text_input("ignored");
    assert!(m.get_input_text().is_none());
    m.set_state(MultiplayerState::ClientInput(String::new()));
    assert!(m.input_box().as_ref().unwrap().active());
    m.handle_text_input("ab");
    m.handle_text_input("é");
    assert_eq!(m.get_input_text(), Some("abé".to_string()));
    assert_eq!(m.input_box().as_ref().unwrap().text(), "abé");
    m.handle_backspace();
    assert_eq!(m.get_input_text(), Some("ab".to_string()));
    m.handle_backspace();
    m.handle_backspace();
    m.handle_backspace();
    assert_eq!(m.get_input_text(), Some(String::new()));
    assert_eq!(m.input_box().as_ref().unwrap().text(), "");
}

#[test]
fn multiplayer_client_clicks_and_paste() {
    let mut m = MultiplayerMenu::new();
    m.set_state(MultiplayerState::ClientInput("x".to_string()));
    assert_eq!(m.input_box().as_ref().unwrap().text(), "");
    assert_eq!(m.handle_click(&hits(vec![true], false, true, true)), MultiplayerAction::PasteCode);
    assert_eq!(m.handle_click(&hits(vec![true], false, false, true)), MultiplayerAction::Join);
    assert_eq!(m.handle_click(&hits(vec![true], true, false, false)), MultiplayerAction::NoAction);
    m.set_input_text("pasted".to_string());
    assert_eq!(m.get_input_text(), Some("pasted".to_string()));
    assert_eq!(m.input_box().as_ref().unwrap().text(), "pasted");
    assert_eq!(m.paste_button().as_ref().unwrap().text(), "Paste");
    assert_eq!(m.connect_button().as_ref().unwrap().text(), "Connect");
    assert!(m.copy_button().is_none());
}

#[test]
fn multiplayer_host_state() {
    let mut m = MultiplayerMenu::new();
    m.set_error("boom".to_string());
    assert_eq!(m.error_message(), &Some("boom".to_string()));
    m.set_state(MultiplayerState::HostWaiting("code123".to_string()));
    assert!(m.error_message().is_none());
    assert_eq!(m.get_host_code(), Some("code123".to_string()));
    assert!(m.get_input_text().is_none());
    assert_eq!(m.handle_click(&hits(vec![], true, false, false)), MultiplayerAction::CopyCode);
    assert_eq!(m.copy_button().as_ref().unwrap().text(), "Copy Code");
    m.set_input_text("nope".to_string());
    assert_eq!(m.get_host_code(), Some("code123".to_string()));
    m.set_state(MultiplayerState::Connecting);
    assert!(m.copy_button().is_none());
    assert_eq!(m.handle_click(&hits(vec![true], true, true, true)), MultiplayerAction::NoAction);
    m.set_error("e".to_string());
    m.clear_error();
    assert!(m.error_message().is_none());
}

#[test]
fn multiplayer_hover() {
    let mut m = MultiplayerMenu::new();
    m.update(&hits(vec![true], false, false, false));
    let h: Vec<bool> = m.buttons().iter().map(|b| b.hovered()).collect();
    assert_eq!(h, vec![true, false, false]);
    m.set_state(MultiplayerState::HostWaiting("c".to_string()));
    m.update(&hits(vec![], true, false, false));
    assert!(m.copy_button().as_ref().unwrap().hovered());
    assert_eq!(m.buttons()[0].action(), MultiplayerAction::Host);
}

#[test]
fn host_code_display_wraps_every_80_bytes() {
    assert_eq!(host_code_display(""), "Host Code:\n");
    assert_eq!(host_code_display("abc"), "Host Code:\nabc");
    let code = "x".repeat(170);
    let expected = format!("Host Code:\n{}\n{}\n{}", "x".repeat(80), "x".repeat(80), "x".repeat(10));
    assert_eq!(host_code_display(&code), expected);
    assert_eq!(host_code_display(&"w".repeat(80)), format!("Host Code:\n{}", "w".repeat(80)));
}

#[test]
fn host_code_display_blanks_split_characters() {
    // The 80th byte starts a two-byte character, so neither line is UTF-8 alone.
    let mut split = "y".repeat(79);
    split.push('é');
    split.push('z');
    assert_eq!(host_code_display(&split), "Host Code:\n\n");
}
