use cosmic_launcher::launcher::CosmicLauncher;
use cosmic_launcher::protocol::{LauncherEvent, Request, Response};
use cosmic_launcher::results::{ContextOption, SearchResult};
use cosmic_launcher::session::{DbusActivation, Effect, KeyboardNav, LayerEvent, Message};

fn result(id: u32, windowed: bool) -> SearchResult {
    SearchResult {
        id,
        name: format!("name {id}"),
        description: format!("description {id}"),
        icon: None,
        category_icon: None,
        window: if windowed { Some((1, id)) } else { None },
    }
}

fn options() -> Vec<ContextOption> {
    vec![ContextOption { id: 7, name: "Open".to_string() }, ContextOption { id: 8, name: "Quit".to_string() }]
}

fn search(s: &str) -> Effect {
    Effect::Send(Request::Search(s.to_string()))
}

fn started() -> CosmicLauncher {
    let mut l = CosmicLauncher::init();
    let e = l.update(Message::LauncherEvent(LauncherEvent::Started));
    assert_eq!(e, vec![search("")]);
    l
}

/// A launcher that is shown, with three results and a known pointer position.
fn shown() -> CosmicLauncher {
    let mut l = started();
    let e = l.dbus_activation(DbusActivation::Activate);
    assert_eq!(e, vec![search("")]);
    let e = l.update(Message::LauncherEvent(LauncherEvent::Response(Response::Update(vec![
        result(10, false),
        result(11, false),
        result(12, false),
    ]))));
    assert_eq!(e, vec![Effect::CreateMain]);
    l.update(Message::CursorMoved(40, 50));
    l
}

#[test]
fn init_is_hidden_and_disconnected() {
    let l = CosmicLauncher::init();
    assert!(!l.active_surface);
    assert!(!l.connected);
    assert!(l.launcher_items.is_empty());
    assert!(l.menu.is_none());
    assert_eq!(l.input_value, "");
}

#[test]
fn requests_before_start_are_dropped() {
    let mut l = CosmicLauncher::init();
    let e = l.update(Message::InputChanged("fi".to_string()));
    assert!(e.is_empty());
    assert_eq!(l.input_value, "fi");
    let e = l.dbus_activation(DbusActivation::Activate);
    assert!(e.is_empty());
    assert!(l.active_surface);
    assert!(l.wait_for_result);
}

#[test]
fn activation_opens_then_first_update_creates_main() {
    let mut l = started();
    l.input_value = "old".to_string();
    let e = l.dbus_activation(DbusActivation::Activate);
    assert_eq!(e, vec![search("")]);
    assert_eq!(l.input_value, "");
    assert!(l.wait_for_result);
    let e = l.update(Message::LauncherEvent(LauncherEvent::Response(Response::Update(vec![result(1, false)]))));
    assert_eq!(e, vec![Effect::CreateMain]);
    assert!(!l.wait_for_result);
    let e = l.update(Message::LauncherEvent(LauncherEvent::Response(Response::Update(vec![result(2, false)]))));
    assert!(e.is_empty());
    assert_eq!(l.launcher_items, vec![result(2, false)]);
}

#[test]
fn other_activation_is_ignored() {
    let mut l = started();
    let e = l.dbus_activation(DbusActivation::Other);
    assert!(e.is_empty());
    assert!(!l.active_surface);
}

#[test]
fn activation_while_shown_hides() {
    let mut l = shown();
    let e = l.dbus_activation(DbusActivation::Activate);
    assert_eq!(e, vec![Effect::Send(Request::Close), search(""), Effect::DestroyMain]);
    assert!(!l.active_surface);
}

#[test]
fn hide_when_hidden_destroys_nothing() {
    let mut l = started();
    let e = l.hide_launcher();
    assert_eq!(e, vec![Effect::Send(Request::Close), search("")]);
    assert_eq!(l.input_value, "");
    assert!(!l.active_surface);
    let e = l.hide_launcher();
    assert_eq!(e, vec![Effect::Send(Request::Close), search("")]);
}

#[test]
fn hide_without_backend_sends_nothing() {
    let mut l = CosmicLauncher::init();
    let e = l.hide_launcher();
    assert!(e.is_empty());
}

#[test]
fn context_toggles_menu() {
    let mut l = shown();
    let e = l.update(Message::Context(1));
    assert_eq!(e, vec![Effect::Send(Request::Context(11))]);
    assert!(l.menu.is_none());
    let e = l.update(Message::LauncherEvent(LauncherEvent::Response(Response::Context { id: 11, options: options() })));
    assert_eq!(e, vec![Effect::CreateMenu(40, 50)]);
    assert_eq!(l.menu, Some((11, options())));
    let e = l.update(Message::Context(1));
    assert_eq!(e, vec![Effect::DestroyMenu]);
    assert!(l.menu.is_none());
    assert!(l.active_surface);
}

#[test]
fn context_needs_pointer_position() {
    let mut l = shown();
    l.cursor_position = None;
    let e = l.update(Message::Context(0));
    assert!(e.is_empty());
    let e = l.update(Message::LauncherEvent(LauncherEvent::Response(Response::Context { id: 10, options: options() })));
    assert!(e.is_empty());
    assert!(l.menu.is_none());
}

#[test]
fn empty_context_options_are_ignored() {
    let mut l = shown();
    let e = l.update(Message::LauncherEvent(LauncherEvent::Response(Response::Context { id: 10, options: vec![] })));
    assert!(e.is_empty());
    assert!(l.menu.is_none());
}

#[test]
fn keystrokes_each_send_one_search() {
    let mut l = shown();
    let mut sent = Vec::new();
    for v in ["a", "ap", "app"] {
        sent.extend(l.update(Message::InputChanged(v.to_string())));
    }
    assert_eq!(sent, vec![search("a"), search("ap"), search("app")]);
    assert_eq!(l.input_value, "app");
}

#[test]
fn activate_out_of_range_does_nothing() {
    let mut l = shown();
    let before = (l.input_value.clone(), l.launcher_items.clone(), l.menu.clone(), l.active_surface);
    let e = l.update(Message::Activate(15));
    assert!(e.is_empty());
    assert_eq!(before, (l.input_value.clone(), l.launcher_items.clone(), l.menu.clone(), l.active_surface));
}

#[test]
fn activate_in_range_sends_the_id() {
    let mut l = shown();
    let e = l.update(Message::Activate(2));
    assert_eq!(e, vec![Effect::Send(Request::Activate(12))]);
}

#[test]
fn escape_closes_menu_first() {
    let mut l = shown();
    l.update(Message::Context(0));
    l.update(Message::LauncherEvent(LauncherEvent::Response(Response::Context { id: 10, options: options() })));
    let e = l.update(Message::Hide);
    assert_eq!(e, vec![Effect::DestroyMenu]);
    assert!(l.active_surface);
    let e = l.update(Message::Hide);
    assert_eq!(e, vec![Effect::Send(Request::Close), search(""), Effect::DestroyMain]);
    assert!(!l.active_surface);
}

#[test]
fn hide_with_menu_destroys_both() {
    let mut l = shown();
    l.update(Message::Context(0));
    l.update(Message::LauncherEvent(LauncherEvent::Response(Response::Context { id: 10, options: options() })));
    l.input_value = "abc".to_string();
    let e = l.update(Message::Layer(LayerEvent::Unfocused));
    assert_eq!(e, vec![Effect::Send(Request::Close), search(""), Effect::DestroyMenu, Effect::DestroyMain]);
    assert!(l.menu.is_none());
    assert_eq!(l.input_value, "");
}

#[test]
fn menu_button_closes_menu_and_activates() {
    let mut l = shown();
    l.update(Message::Context(0));
    l.update(Message::LauncherEvent(LauncherEvent::Response(Response::Context { id: 10, options: options() })));
    let e = l.update(Message::MenuButton(10, 8));
    assert_eq!(e, vec![Effect::DestroyMenu, Effect::Send(Request::ActivateContext(10, 8))]);
    assert!(l.menu.is_none());
}

#[test]
fn backend_close_hides() {
    let mut l = shown();
    let e = l.update(Message::LauncherEvent(LauncherEvent::Response(Response::Close)));
    assert_eq!(e, vec![Effect::Send(Request::Close), search(""), Effect::DestroyMain]);
}

#[test]
fn fill_replaces_input_without_searching() {
    let mut l = shown();
    let e = l.update(Message::LauncherEvent(LauncherEvent::Response(Response::Fill("firefox ".to_string()))));
    assert_eq!(e, vec![Effect::FocusInput]);
    assert_eq!(l.input_value, "firefox ");
}

#[test]
fn desktop_entry_flow_spawns_then_hides() {
    let mut l = shown();
    let e = l.update(Message::LauncherEvent(LauncherEvent::Response(Response::DesktopEntry("/a.desktop".to_string()))));
    assert_eq!(e, vec![Effect::LoadDesktopEntry("/a.desktop".to_string())]);
    let e = l.update(Message::DesktopEntryResolved(None));
    assert!(e.is_empty());
    let e = l.update(Message::DesktopEntryResolved(Some("app --x".to_string())));
    assert_eq!(e, vec![Effect::RequestToken("app --x".to_string())]);
    let e = l.update(Message::ActivationToken(Some("tok".to_string()), "app --x".to_string()));
    assert_eq!(
        e,
        vec![
            Effect::Spawn { command: "app --x".to_string(), token: Some("tok".to_string()) },
            Effect::Send(Request::Close),
            search(""),
            Effect::DestroyMain,
        ]
    );
    assert!(!l.active_surface);
}

#[test]
fn keyboard_nav_actions() {
    let mut l = shown();
    assert_eq!(l.update(Message::KeyboardNav(KeyboardNav::FocusNext)), vec![Effect::FocusNext]);
    assert_eq!(l.update(Message::KeyboardNav(KeyboardNav::FocusPrevious)), vec![Effect::FocusPrevious]);
    l.input_value = "x".to_string();
    assert_eq!(l.update(Message::KeyboardNav(KeyboardNav::Unfocus)), vec![search(""), Effect::Unfocus]);
    assert_eq!(l.input_value, "");
    assert!(l.update(Message::KeyboardNav(KeyboardNav::Other)).is_empty());
    assert_eq!(l.update(Message::Layer(LayerEvent::Focused)), vec![Effect::FocusInput]);
    assert!(l.update(Message::Layer(LayerEvent::Done)).is_empty());
}

#[test]
fn close_context_menu_without_menu_does_nothing() {
    let mut l = shown();
    assert!(l.update(Message::CloseContextMenu).is_empty());
    assert!(l.active_surface);
}
