use cosmic_launcher::cli::Args;
use cosmic_launcher::display::{
    clip_primary, clip_secondary, display_texts, main_placement, menu_placement, spawn_envs, MainPlacement,
    MenuPlacement,
};
use cosmic_launcher::keys::{map_event, shortcut_digit, InputEvent, Key};
use cosmic_launcher::results::{rank_results, SearchResult};
use cosmic_launcher::session::{KeyboardNav, LayerEvent, Message};

fn result(id: u32, windowed: bool) -> SearchResult {
    SearchResult {
        id,
        name: format!("name {id}"),
        description: format!("description {id}"),
        icon: None,
        category_icon: None,
        window: if windowed { Some((0, id)) } else { None },
    }
}

fn ids(l: &[SearchResult]) -> Vec<u32> {
    l.iter().map(|r| r.id).collect()
}

#[test]
fn ranking_moves_windows_first_and_keeps_ten() {
    let list: Vec<SearchResult> = (0..12).map(|i| result(i, i == 2 || i == 5 || i == 9)).collect();
    let r = rank_results(list);
    assert_eq!(ids(&r), vec![2, 5, 9, 0, 1, 3, 4, 6, 7, 8]);
}

#[test]
fn ranking_short_list_is_a_stable_partition() {
    let list = vec![result(1, false), result(2, true), result(3, false), result(4, true)];
    assert_eq!(ids(&rank_results(list)), vec![2, 4, 1, 3]);
}

#[test]
fn ranking_empty_list() {
    assert!(rank_results(Vec::new()).is_empty());
}

#[test]
fn ranking_exactly_ten_keeps_all() {
    let list: Vec<SearchResult> = (0..10).map(|i| result(i, false)).collect();
    assert_eq!(ids(&rank_results(list)), (0..10).collect::<Vec<u32>>());
}

#[test]
fn digit_keys_with_control_activate() {
    for d in 1..=9u8 {
        let e = InputEvent::KeyReleased { key: Key::Digit(d), control: true };
        assert_eq!(map_event(e), Some(Message::Activate((d - 1) as usize)));
        let e = InputEvent::KeyReleased { key: Key::NumpadDigit(d), control: true };
        assert_eq!(map_event(e), Some(Message::Activate((d - 1) as usize)));
    }
    let e = InputEvent::KeyReleased { key: Key::Digit(0), control: true };
    assert_eq!(map_event(e), Some(Message::Activate(9)));
    let e = InputEvent::KeyReleased { key: Key::Digit(3), control: false };
    assert_eq!(map_event(e), None);
}

#[test]
fn navigation_keys() {
    let prev = Some(Message::KeyboardNav(KeyboardNav::FocusPrevious));
    let next = Some(Message::KeyboardNav(KeyboardNav::FocusNext));
    assert_eq!(map_event(InputEvent::KeyReleased { key: Key::Up, control: false }), prev);
    assert_eq!(map_event(InputEvent::KeyReleased { key: Key::Down, control: false }), next);
    assert_eq!(map_event(InputEvent::KeyReleased { key: Key::Letter('p'), control: true }), prev);
    assert_eq!(map_event(InputEvent::KeyReleased { key: Key::Letter('k'), control: true }), prev);
    assert_eq!(map_event(InputEvent::KeyReleased { key: Key::Letter('n'), control: true }), next);
    assert_eq!(map_event(InputEvent::KeyReleased { key: Key::Letter('j'), control: true }), next);
    assert_eq!(map_event(InputEvent::KeyReleased { key: Key::Letter('j'), control: false }), None);
    assert_eq!(map_event(InputEvent::KeyReleased { key: Key::Escape, control: false }), Some(Message::Hide));
    assert_eq!(map_event(InputEvent::KeyReleased { key: Key::Other, control: true }), None);
}

#[test]
fn pointer_and_layer_events() {
    assert_eq!(map_event(InputEvent::CursorMoved(3, -4)), Some(Message::CursorMoved(3, -4)));
    assert_eq!(map_event(InputEvent::Layer(LayerEvent::Unfocused)), Some(Message::Layer(LayerEvent::Unfocused)));
    assert_eq!(map_event(InputEvent::Other), None);
}

#[test]
fn shortcut_digits() {
    assert_eq!(shortcut_digit(0), 1);
    assert_eq!(shortcut_digit(8), 9);
    assert_eq!(shortcut_digit(9), 0);
    assert_eq!(shortcut_digit(usize::MAX), ((usize::MAX % 10 + 1) % 10) as u8);
}

#[test]
fn primary_lines_are_cut_with_marker() {
    let long = "a".repeat(50);
    assert_eq!(clip_primary(&long), format!("{}...", "a".repeat(45)));
    let exact = "é".repeat(45);
    assert_eq!(clip_primary(&exact), exact);
    assert_eq!(clip_primary("Firefox"), "Firefox");
}

#[test]
fn secondary_lines_are_cut_without_marker() {
    let long = "ü".repeat(70);
    assert_eq!(clip_secondary(&long), "ü".repeat(60));
    assert_eq!(clip_secondary("Web browser"), "Web browser");
}

#[test]
fn window_results_swap_their_texts() {
    let w = result(1, true);
    assert_eq!(display_texts(&w), (&w.description, &w.name));
    let p = result(2, false);
    assert_eq!(display_texts(&p), (&p.name, &p.description));
}

#[test]
fn spawn_environment_carries_token() {
    let e = spawn_envs(Some("t0k".to_string()));
    assert_eq!(
        e,
        vec![
            ("XDG_ACTIVATION_TOKEN".to_string(), "t0k".to_string()),
            ("DESKTOP_STARTUP_ID".to_string(), "t0k".to_string()),
        ]
    );
    assert!(spawn_envs(None).is_empty());
}

#[test]
fn surface_placements() {
    assert_eq!(
        menu_placement(12, 34),
        MenuPlacement {
            anchor_x: 12,
            anchor_y: 34,
            anchor_width: 1,
            anchor_height: 1,
            min_width: 1,
            max_width: 300,
            min_height: 1,
            max_height: 800,
        }
    );
    assert_eq!(main_placement(), MainPlacement { top_margin: 16, min_width: 1, max_width: 600, min_height: 1 });
}

#[test]
fn args_carry_no_action() {
    assert!(Args {}.action().is_none());
}
