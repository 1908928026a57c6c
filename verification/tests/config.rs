use napali::action::scene::Scene;
use napali::action::Action;
use napali::config::keys::{
    KeyCode, KeyEvent, KeyEventKind, KeyModifiers, KeyParseError, _key_event_to_string,
    parse_key_event, parse_key_sequence,
};
use napali::config::style::{
    parse_color, parse_style, process_color_string, Color, Modifier, Style,
};
use napali::config::{AppConfig, Config, KeyBindings, KeyMap, StyleMap, Styles};

fn merged_config() -> Config {
    Config::new(AppConfig::default(), KeyBindings::default(), Styles::default())
}

#[test]
fn test_parse_style_default() {
    let style = parse_style("");
    assert_eq!(style, Style::default());
}

#[test]
fn test_parse_style_foreground() {
    let style = parse_style("red");
    assert_eq!(style.fg, Some(Color::Indexed(1)));
}

#[test]
fn test_parse_style_background() {
    let style = parse_style("on blue");
    assert_eq!(style.bg, Some(Color::Indexed(4)));
}

#[test]
fn test_parse_style_modifiers() {
    let style = parse_style("underline red on blue");
    assert_eq!(style.fg, Some(Color::Indexed(1)));
    assert_eq!(style.bg, Some(Color::Indexed(4)));
}

#[test]
fn test_process_color_string() {
    let (color, modifiers) = process_color_string("underline bold inverse gray");
    assert_eq!(color, "gray");
    assert!(modifiers.contains(Modifier::UNDERLINED));
    assert!(modifiers.contains(Modifier::BOLD));
    assert!(modifiers.contains(Modifier::REVERSED));
}

#[test]
fn test_parse_color_rgb() {
    let color = parse_color("rgb123");
    let expected = 16 + 36 + 2 * 6 + 3;
    assert_eq!(color, Some(Color::Indexed(expected)));
}

#[test]
fn test_parse_color_unknown() {
    let color = parse_color("unknown");
    assert_eq!(color, None);
}

#[test]
fn test_config_home() {
    let c = merged_config();
    assert_eq!(
        c.keybindings
            .get(&Scene::Home)
            .unwrap()
            .get(&parse_key_sequence("<q>").unwrap_or_default())
            .unwrap(),
        &Action::Quit
    );
}

#[test]
fn test_config_internals() {
    let c = merged_config();
    assert_eq!(
        c.keybindings
            .get(&Scene::Internals)
            .unwrap()
            .get(&parse_key_sequence("<q>").unwrap_or_default())
            .unwrap(),
        &Action::Quit
    );
}

#[test]
fn test_simple_keys() {
    assert_eq!(
        parse_key_event("a").unwrap(),
        KeyEvent::new(KeyCode::Char('a'), KeyModifiers::empty())
    );

    assert_eq!(
        parse_key_event("enter").unwrap(),
        KeyEvent::new(KeyCode::Enter, KeyModifiers::empty())
    );

    assert_eq!(
        parse_key_event("esc").unwrap(),
        KeyEvent::new(KeyCode::Esc, KeyModifiers::empty())
    );
}

#[test]
fn test_with_modifiers() {
    assert_eq!(
        parse_key_event("ctrl-a").unwrap(),
        KeyEvent::new(KeyCode::Char('a'), KeyModifiers::from_bits(KeyModifiers::CONTROL))
    );

    assert_eq!(
        parse_key_event("alt-enter").unwrap(),
        KeyEvent::new(KeyCode::Enter, KeyModifiers::from_bits(KeyModifiers::ALT))
    );

    assert_eq!(
        parse_key_event("shift-esc").unwrap(),
        KeyEvent::new(KeyCode::Esc, KeyModifiers::from_bits(KeyModifiers::SHIFT))
    );
}

#[test]
fn test_multiple_modifiers() {
    assert_eq!(
        parse_key_event("ctrl-alt-a").unwrap(),
        KeyEvent::new(
            KeyCode::Char('a'),
            KeyModifiers::from_bits(KeyModifiers::CONTROL | KeyModifiers::ALT)
        )
    );

    assert_eq!(
        parse_key_event("ctrl-shift-enter").unwrap(),
        KeyEvent::new(
            KeyCode::Enter,
            KeyModifiers::from_bits(KeyModifiers::CONTROL | KeyModifiers::SHIFT)
        )
    );
}

#[test]
fn test_reverse_multiple_modifiers() {
    assert_eq!(
        _key_event_to_string(&KeyEvent::new(
            KeyCode::Char('a'),
            KeyModifiers::from_bits(KeyModifiers::CONTROL | KeyModifiers::ALT)
        )),
        "ctrl-alt-a".to_string()
    );
}

#[test]
fn test_invalid_keys() {
    assert!(parse_key_event("invalid-key").is_err());
    assert!(parse_key_event("ctrl-invalid-key").is_err());
}

#[test]
fn test_case_insensitivity() {
    assert_eq!(
        parse_key_event("CTRL-a").unwrap(),
        KeyEvent::new(KeyCode::Char('a'), KeyModifiers::from_bits(KeyModifiers::CONTROL))
    );

    assert_eq!(
        parse_key_event("AlT-eNtEr").unwrap(),
        KeyEvent::new(KeyCode::Enter, KeyModifiers::from_bits(KeyModifiers::ALT))
    );
}

#[test]
fn key_modifiers_are_exact() {
    let key = parse_key_event("ctrl-a").unwrap();
    assert_eq!(key.modifiers.bits, 2);
    assert_eq!(key.code, KeyCode::Char('a'));
    assert_eq!(key.kind, KeyEventKind::Press);
    assert_eq!(key.state, 0);
    let key = parse_key_event("shift-alt-ctrl-x").unwrap();
    assert_eq!(key.modifiers.bits, 7);
    assert_eq!(key.code, KeyCode::Char('X'));
}

#[test]
fn named_keys_are_read() {
    let names = [
        ("esc", KeyCode::Esc),
        ("enter", KeyCode::Enter),
        ("left", KeyCode::Left),
        ("right", KeyCode::Right),
        ("up", KeyCode::Up),
        ("down", KeyCode::Down),
        ("home", KeyCode::Home),
        ("end", KeyCode::End),
        ("pageup", KeyCode::PageUp),
        ("pagedown", KeyCode::PageDown),
        ("backspace", KeyCode::Backspace),
        ("delete", KeyCode::Delete),
        ("insert", KeyCode::Insert),
        ("f1", KeyCode::F(1)),
        ("f9", KeyCode::F(9)),
        ("f10", KeyCode::F(10)),
        ("f12", KeyCode::F(12)),
        ("space", KeyCode::Char(' ')),
        ("hyphen", KeyCode::Char('-')),
        ("minus", KeyCode::Char('-')),
        ("tab", KeyCode::Tab),
    ];
    for (name, code) in names {
        let key = parse_key_event(name).unwrap();
        assert_eq!(key.code, code, "{}", name);
        assert_eq!(key.modifiers.bits, 0, "{}", name);
    }
}

#[test]
fn back_tab_brings_shift() {
    let key = parse_key_event("backtab").unwrap();
    assert_eq!(key.code, KeyCode::BackTab);
    assert_eq!(key.modifiers.bits, KeyModifiers::SHIFT);
    let key = parse_key_event("ctrl-backtab").unwrap();
    assert_eq!(key.modifiers.bits, KeyModifiers::SHIFT | KeyModifiers::CONTROL);
}

#[test]
fn unknown_key_keeps_its_text() {
    let error = parse_key_event("ctrl-Invalid-Key").unwrap_err();
    assert_eq!(error, KeyParseError::Key("invalid-key".to_string()));
    assert_eq!(error.message(), "Unable to parse invalid-key");
    let error = parse_key_event("é").unwrap_err();
    assert_eq!(error, KeyParseError::Key("é".to_string()));
    assert!(parse_key_event("").is_err());
}

#[test]
fn key_sequences_are_cut_at_brackets() {
    let q = KeyEvent::new(KeyCode::Char('q'), KeyModifiers::empty());
    assert_eq!(parse_key_sequence("<q>").unwrap(), vec![q]);
    assert_eq!(parse_key_sequence("q").unwrap(), vec![q]);
    let g = KeyEvent::new(KeyCode::Char('g'), KeyModifiers::empty());
    assert_eq!(parse_key_sequence("<g><g>").unwrap(), vec![g, g]);
    let a = KeyEvent::new(KeyCode::Char('a'), KeyModifiers::empty());
    let b = KeyEvent::new(KeyCode::Char('b'), KeyModifiers::from_bits(KeyModifiers::CONTROL));
    let c = KeyEvent::new(KeyCode::Enter, KeyModifiers::empty());
    assert_eq!(parse_key_sequence("<a><Ctrl-b><enter>").unwrap(), vec![a, b, c]);
}

#[test]
fn unbalanced_brackets_are_refused() {
    let error = parse_key_sequence("<q").unwrap_err();
    assert_eq!(error, KeyParseError::Sequence("<q".to_string()));
    assert_eq!(error.message(), "Unable to parse `<q`");
    assert!(parse_key_sequence("q>").is_err());
    assert!(parse_key_sequence("<<q>").is_err());
}

#[test]
fn first_bad_key_of_a_sequence_is_reported() {
    let error = parse_key_sequence("<a><nokey><alsonot>").unwrap_err();
    assert_eq!(error, KeyParseError::Key("nokey".to_string()));
}

#[test]
fn key_events_compare_in_normal_form() {
    let capital = KeyEvent::new(KeyCode::Char('A'), KeyModifiers::empty());
    let shifted = KeyEvent::new(KeyCode::Char('a'), KeyModifiers::from_bits(KeyModifiers::SHIFT));
    let plain = KeyEvent::new(KeyCode::Char('a'), KeyModifiers::empty());
    assert_eq!(capital, shifted);
    assert_ne!(capital, plain);
    assert_eq!(capital.normalize_case().modifiers.bits, KeyModifiers::SHIFT);
    assert_eq!(shifted.normalize_case().code, KeyCode::Char('A'));
    let mut released = plain;
    released.kind = KeyEventKind::Release;
    assert_ne!(released, plain);
    let enter = KeyEvent::new(KeyCode::Enter, KeyModifiers::from_bits(KeyModifiers::SHIFT));
    assert_eq!(enter.normalize_case().code, KeyCode::Enter);
}

#[test]
fn key_events_are_written_as_text() {
    let all = KeyModifiers::from_bits(
        KeyModifiers::CONTROL | KeyModifiers::SHIFT | KeyModifiers::ALT,
    );
    assert_eq!(_key_event_to_string(&KeyEvent::new(KeyCode::Enter, all)), "ctrl-shift-alt-enter");
    assert_eq!(
        _key_event_to_string(&KeyEvent::new(KeyCode::Char(' '), KeyModifiers::empty())),
        "space"
    );
    assert_eq!(
        _key_event_to_string(&KeyEvent::new(KeyCode::F(12), KeyModifiers::empty())),
        "f(12)"
    );
    assert_eq!(
        _key_event_to_string(&KeyEvent::new(KeyCode::F(255), KeyModifiers::empty())),
        "f(255)"
    );
    assert_eq!(
        _key_event_to_string(&KeyEvent::new(KeyCode::F(7), KeyModifiers::empty())),
        "f(7)"
    );
    assert_eq!(_key_event_to_string(&KeyEvent::new(KeyCode::Null, KeyModifiers::empty())), "");
    assert_eq!(
        _key_event_to_string(&KeyEvent::new(
            KeyCode::CapsLock,
            KeyModifiers::from_bits(KeyModifiers::ALT)
        )),
        "alt-"
    );
    assert_eq!(
        _key_event_to_string(&KeyEvent::new(KeyCode::Esc, KeyModifiers::empty())),
        "esc"
    );
}

#[test]
fn colors_of_the_table() {
    assert_eq!(parse_color("color42"), Some(Color::Indexed(42)));
    assert_eq!(parse_color("bright color7"), Some(Color::Indexed(7)));
    assert_eq!(parse_color("color"), Some(Color::Indexed(0)));
    assert_eq!(parse_color("color256"), Some(Color::Indexed(0)));
    assert_eq!(parse_color("colorx"), Some(Color::Indexed(0)));
    assert_eq!(parse_color("gray"), Some(Color::Indexed(232)));
    assert_eq!(parse_color("gray5"), Some(Color::Indexed(237)));
    assert_eq!(parse_color("gray23"), Some(Color::Indexed(255)));
    assert_eq!(parse_color("gray24"), Some(Color::Indexed(0)));
    assert_eq!(parse_color("  red  "), Some(Color::Indexed(1)));
    assert_eq!(parse_color("bold white"), Some(Color::Indexed(15)));
    assert_eq!(parse_color("bold black"), Some(Color::Indexed(8)));
    assert_eq!(parse_color("black"), Some(Color::Indexed(0)));
    assert_eq!(parse_color("white"), Some(Color::Indexed(7)));
    assert_eq!(parse_color("Red"), None);
    assert_eq!(parse_color(""), None);
}

#[test]
fn colors_of_the_cube() {
    assert_eq!(parse_color("rgb000"), Some(Color::Indexed(16)));
    assert_eq!(parse_color("rgb555"), Some(Color::Indexed(231)));
    assert_eq!(parse_color("rgb999"), Some(Color::Indexed(((16u32 + 324 + 54 + 9) % 256) as u8)));
    assert_eq!(parse_color("rgbx2y"), Some(Color::Indexed(16 + 12)));
    assert_eq!(parse_color("rgb12"), None);
    // The digits are looked for at their bytes, not at their characters.
    assert_eq!(parse_color("érgb12"), Some(Color::Indexed(17)));
    assert_eq!(parse_color("rgbé1"), Some(Color::Indexed(17)));
    assert_eq!(parse_color("rgb"), None);
}

#[test]
fn color_words_drop_the_modifiers() {
    let (color, modifiers) = process_color_string("bright bold grey12");
    assert_eq!(color, "gray12");
    assert_eq!(modifiers.bits, Modifier::BOLD);
    let (color, modifiers) = process_color_string("red");
    assert_eq!(color, "red");
    assert_eq!(modifiers.bits, 0);
    let (color, modifiers) = process_color_string("inverse ");
    assert_eq!(color, "");
    assert_eq!(modifiers.bits, Modifier::REVERSED);
}

#[test]
fn styles_add_the_modifiers_of_both_sides() {
    let style = parse_style("underline red on bold blue");
    assert_eq!(style.fg, Some(Color::Indexed(1)));
    assert_eq!(style.bg, Some(Color::Indexed(4)));
    assert_eq!(style.add_modifier.bits, Modifier::UNDERLINED | Modifier::BOLD);
    assert_eq!(style.sub_modifier.bits, 0);
    let style = parse_style("RED ON blue");
    assert_eq!(style.fg, None);
    assert_eq!(style.bg, None);
    let style = parse_style("green on on gray3");
    assert_eq!(style.fg, Some(Color::Indexed(2)));
    assert_eq!(style.bg, Some(Color::Indexed(235)));
}

#[test]
fn style_builders_set_one_field() {
    let style = Style::default().fg(Color::Red).bg(Color::Rgb(1, 2, 3));
    assert_eq!(style.fg, Some(Color::Red));
    assert_eq!(style.bg, Some(Color::Rgb(1, 2, 3)));
    let style = Style {
        fg: None,
        bg: None,
        add_modifier: Modifier::from_bits(Modifier::DIM),
        sub_modifier: Modifier::from_bits(Modifier::BOLD | Modifier::ITALIC),
    };
    let style = style.add_modifier(Modifier::from_bits(Modifier::BOLD));
    assert_eq!(style.add_modifier.bits, Modifier::DIM | Modifier::BOLD);
    assert_eq!(style.sub_modifier.bits, Modifier::ITALIC);
}

#[test]
fn key_map_takes_the_first_binding() {
    let mut map = KeyMap::new();
    let q = parse_key_sequence("<q>").unwrap();
    let x = parse_key_sequence("<x>").unwrap();
    assert_eq!(map.get(&q), None);
    map.insert_default(q.clone(), Action::Quit);
    map.insert_default(q.clone(), Action::Help);
    assert_eq!(map.get(&q), Some(&Action::Quit));
    assert_eq!(map.get(&x), None);
    map.insert(q.clone(), Action::Refresh);
    assert_eq!(map.get(&q), Some(&Action::Refresh));
    assert!(map.bind_written("<x>", "Suspend"));
    assert_eq!(map.get(&x), Some(&Action::Suspend));
    assert!(!map.bind_written("<x", "Suspend"));
    assert!(!map.bind_written("<y>", "Nothing"));
    assert_eq!(map.bindings.len(), 4);
}

#[test]
fn key_map_matches_in_normal_form() {
    let mut map = KeyMap::new();
    map.insert(
        vec![KeyEvent::new(KeyCode::Char('A'), KeyModifiers::empty())],
        Action::Help,
    );
    let typed = vec![KeyEvent::new(
        KeyCode::Char('a'),
        KeyModifiers::from_bits(KeyModifiers::SHIFT),
    )];
    assert_eq!(map.get(&typed), Some(&Action::Help));
}

#[test]
fn defaults_complete_what_was_read() {
    let mut read = KeyBindings::default();
    let mut home = KeyMap::new();
    assert!(home.bind_written("<q>", "Help"));
    assert!(home.bind_written("<z>", "Refresh"));
    read.set(Scene::Home, home);
    let c = Config::new(AppConfig::default(), read, Styles::default());
    let home = c.keybindings.get(&Scene::Home).unwrap();
    assert_eq!(home.get(&parse_key_sequence("<q>").unwrap()), Some(&Action::Help));
    assert_eq!(home.get(&parse_key_sequence("<z>").unwrap()), Some(&Action::Refresh));
    assert_eq!(home.get(&parse_key_sequence("<Ctrl-z>").unwrap()), Some(&Action::Suspend));
    assert_eq!(
        home.get(&parse_key_sequence("<E>").unwrap()),
        Some(&Action::ChangeView(napali::action::view::View::Prompt))
    );
    assert_eq!(home.get(&parse_key_sequence("<.>").unwrap()), None);
    let session = c.keybindings.get(&Scene::Session).unwrap();
    assert_eq!(
        session.get(&parse_key_sequence("<.>").unwrap()),
        Some(&Action::ChangeView(napali::action::view::View::Prompt))
    );
    assert_eq!(
        session.get(&parse_key_sequence("<H>").unwrap()),
        Some(&Action::ChangeScene(Scene::Home))
    );
    assert_eq!(session.bindings.len(), 12);
    let internals = c.keybindings.get(&Scene::Internals).unwrap();
    assert_eq!(internals.bindings.len(), 11);
    assert_eq!(
        internals.get(&parse_key_sequence("<?>").unwrap()),
        Some(&Action::ToggleOverlay(napali::action::overlay::Overlay::UsageInfo))
    );
    assert!(c.keybindings.get(&Scene::Data).is_none());
    assert!(c.keybindings.get(&Scene::About).is_none());
}

#[test]
fn default_map_of_a_scene() {
    assert!(KeyBindings::default_map(Scene::Data).is_none());
    assert!(KeyBindings::default_map(Scene::About).is_none());
    assert_eq!(KeyBindings::default_map(Scene::Home).unwrap().bindings.len(), 12);
}

#[test]
fn style_map_takes_the_first_entry() {
    let mut map = StyleMap::new();
    assert_eq!(map.get("title"), None);
    map.insert_default("title".to_string(), parse_style("red"));
    map.insert_default("title".to_string(), parse_style("blue"));
    assert_eq!(map.get("title").unwrap().fg, Some(Color::Indexed(1)));
    map.insert("title".to_string(), parse_style("green"));
    assert_eq!(map.get("title").unwrap().fg, Some(Color::Indexed(2)));
    assert_eq!(map.get("other"), None);
    let mut styles = Styles::default();
    assert!(styles.get(&Scene::Home).is_none());
    styles.set(Scene::Home, map);
    assert!(styles.get(&Scene::Home).is_some());
    assert!(styles.get(&Scene::Data).is_none());
}

#[test]
fn app_config_is_empty_by_default() {
    let config = AppConfig::default();
    assert_eq!(config._data_dir, "");
    assert_eq!(config._config_dir, "");
}
