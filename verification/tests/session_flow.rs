use sentient_tui::action::Action;
use sentient_tui::color::Color;
use sentient_tui::game::{AccountLogEntry, CharacterState, FocusedPanel, GEFeedEntry, GEOrder, GETransaction, WorldEvent, WsStatus};
use sentient_tui::json::{Json, JsonNumber};
use sentient_tui::keys::{Command, Key, KeyCode, KeyMap, Mode};
use sentient_tui::session::{cooldown_seconds, order_log_text, transaction_log_text, Effect, Session, GOLD_SNAPSHOT_TICKS};
use sentient_tui::ui::layout::Area;

fn session() -> Session {
    Session::new(KeyMap::default_bindings())
}

fn plain(code: KeyCode) -> Key {
    Key { code, ctrl: false, alt: false }
}

fn named(name: &str) -> CharacterState {
    let mut c = CharacterState::default();
    c.name = name.to_string();
    c
}

fn obj(members: Vec<(&str, Json)>) -> Json {
    Json::Object(members.into_iter().map(|(k, v)| (k.to_string(), v)).collect())
}

#[test]
fn new_session_starts_loading() {
    let s = session();
    assert_eq!(s.mode, Mode::Loading);
    assert!(!s.should_quit);
    assert!(s.log_visible);
    assert_eq!(s.tick_count, 0);
    assert_eq!(s.cards.selected, 0);
    assert!(!s.cards.maximized);
    assert!(matches!(s.game.ws_status, WsStatus::Connecting));
}

#[test]
fn tick_switches_to_home_once_everything_fetched() {
    let mut s = session();
    let fx = s.handle_action(&Action::Tick, 0);
    assert!(fx.is_empty());
    assert_eq!(s.mode, Mode::Loading);
    assert!(s.game.heartbeat);
    s.handle_action(&Action::MapsFetched, 0);
    s.handle_action(&Action::CharactersFetched(vec![]), 0);
    let fx = s.handle_action(&Action::Tick, 0);
    assert!(matches!(fx.as_slice(), [Effect::ClearTerminal]));
    assert_eq!(s.mode, Mode::Home);
    assert_eq!(s.tick_count, 2);
    assert!(!s.game.heartbeat);
    let fx = s.handle_action(&Action::Tick, 0);
    assert!(fx.is_empty());
}

#[test]
fn gold_snapshot_every_sixty_ticks() {
    let mut s = session();
    let mut a = named("Alice");
    a.gold = 500;
    s.handle_action(&Action::CharactersFetched(vec![a]), 0);
    for t in 1..GOLD_SNAPSHOT_TICKS {
        s.handle_action(&Action::Tick, t);
    }
    assert!(s.game.gold_snapshots.is_empty());
    s.handle_action(&Action::Tick, 9_000);
    assert_eq!(s.game.gold_snapshots.len(), 1);
    assert_eq!(s.game.gold_snapshots[0], (9_000, 500));
}

#[test]
fn simple_actions_set_flags_and_effects() {
    let mut s = session();
    assert!(s.handle_action(&Action::Quit, 0).is_empty());
    assert!(s.should_quit);
    s.handle_action(&Action::Suspend, 0);
    assert!(s.should_suspend);
    s.handle_action(&Action::Resume, 0);
    assert!(!s.should_suspend);
    assert!(matches!(s.handle_action(&Action::ClearScreen, 0).as_slice(), [Effect::ClearTerminal]));
    assert!(matches!(s.handle_action(&Action::Resize(80, 24), 0).as_slice(), [Effect::Resize(80, 24)]));
    assert!(matches!(s.handle_action(&Action::Render, 0).as_slice(), [Effect::Render]));
    s.handle_action(&Action::ToggleLog, 0);
    assert!(!s.log_visible);
    s.handle_action(&Action::MaximizeCharacter, 0);
    assert!(s.cards.maximized);
    assert!(s.handle_action(&Action::Help, 0).is_empty());
}

#[test]
fn websocket_status_lines() {
    let mut s = session();
    s.handle_action(&Action::WsConnected, 0);
    assert!(matches!(s.game.ws_status, WsStatus::Connected));
    let line = s.game.log_entries.back().unwrap();
    assert_eq!((line.tag, line.tag_color), ("[SYS]", Color::Blue));
    assert_eq!(line.message, "websocket connected");
    s.handle_action(&Action::WsDisconnected("connection lost".to_string()), 0);
    assert!(matches!(&s.game.ws_status, WsStatus::Disconnected(m) if m == "connection lost"));
    let line = s.game.log_entries.back().unwrap();
    assert_eq!((line.tag, line.tag_color), ("[SYS]", Color::Red));
    assert_eq!(line.message, "disconnected: connection lost");
    s.handle_action(&Action::WsReconnect, 0);
    assert!(matches!(s.game.ws_status, WsStatus::Connecting));
    assert_eq!(s.game.log_entries.len(), 2);
}

#[test]
fn characters_fetched_starts_cooldowns_and_prefetches() {
    let mut s = session();
    let mut a = named("Alice");
    a.cooldown_secs = 12;
    a.skin = "men1".to_string();
    a.weapon_slot = "wooden_stick".to_string();
    a.task = "chicken".to_string();
    a.task_type = "monsters".to_string();
    let b = named("Bob");
    let fx = s.handle_action(&Action::CharactersFetched(vec![a, b]), 0);
    assert!(s.characters_fetched);
    assert_eq!(s.game.characters.len(), 2);
    assert_eq!(fx.len(), 4);
    match &fx[0] {
        Effect::Cooldown { character, remaining, total } => {
            assert_eq!(character, "Alice");
            assert!(matches!(remaining, JsonNumber::PosInt(12)));
            assert!(matches!(total, JsonNumber::PosInt(12)));
        },
        other => panic!("unexpected {:?}", other),
    }
    let prefetch: Vec<(String, String)> = fx[1..]
        .iter()
        .map(|e| match e {
            Effect::Prefetch { category, code } => (category.clone(), code.clone()),
            other => panic!("unexpected {:?}", other),
        })
        .collect();
    assert_eq!(
        prefetch,
        vec![
            ("characters".to_string(), "men1".to_string()),
            ("items".to_string(), "wooden_stick".to_string()),
            ("monsters".to_string(), "chicken".to_string()),
        ]
    );
}

#[test]
fn account_log_starts_cooldown_from_content() {
    let mut s = session();
    let entry = AccountLogEntry {
        character: "Alice".to_string(),
        account: String::new(),
        log_type: "fight".to_string(),
        description: "Won".to_string(),
        cooldown: 7,
        content: obj(vec![("cooldown", obj(vec![("total_seconds", Json::Number(JsonNumber::PosInt(30)))]))]),
    };
    assert!(matches!(cooldown_seconds(&entry, "total_seconds"), JsonNumber::PosInt(30)));
    assert!(matches!(cooldown_seconds(&entry, "remaining_seconds"), JsonNumber::PosInt(7)));
    let fx = s.handle_action(&Action::AccountLog(entry), 0);
    match fx.as_slice() {
        [Effect::Cooldown { character, remaining, total }] => {
            assert_eq!(character, "Alice");
            assert!(matches!(remaining, JsonNumber::PosInt(7)));
            assert!(matches!(total, JsonNumber::PosInt(30)));
        },
        other => panic!("unexpected {:?}", other),
    }
    assert_eq!(s.game.characters.len(), 1);
    assert_eq!(s.game.log_entries.back().unwrap().tag, "[FIGHT] ");
}

#[test]
fn negative_cooldown_falls_back_to_signed_number() {
    let entry = AccountLogEntry {
        character: "A".to_string(),
        account: String::new(),
        log_type: String::new(),
        description: String::new(),
        cooldown: -3,
        content: Json::Null,
    };
    assert!(matches!(cooldown_seconds(&entry, "remaining_seconds"), JsonNumber::NegInt(-3)));
}

#[test]
fn ge_lines_in_footer() {
    let o = GEOrder { order_type: "sell".to_string(), code: "copper_ore".to_string(), quantity: 5, price: 12, account: None };
    assert_eq!(order_log_text(&o), "SELL copper_ore ×5@12g");
    let b = GEOrder { order_type: "buy".to_string(), ..o.clone() };
    assert_eq!(order_log_text(&b), "BUY  copper_ore ×5@12g");
    let t = GETransaction { order_type: "sell".to_string(), code: "egg".to_string(), quantity: 5, total_price: 60 };
    assert_eq!(transaction_log_text(&t), "SOLD egg ×5=60g");
    let u = GETransaction { order_type: "buy".to_string(), ..t.clone() };
    assert_eq!(transaction_log_text(&u), "BGHT egg ×5=60g");
    let mut s = session();
    s.handle_action(&Action::GEOrderCreated(o), 0);
    s.handle_action(&Action::GETransactionCompleted(t), 0);
    assert_eq!(s.game.ge_feed.len(), 2);
    let lines: Vec<(&str, Color, &str)> =
        s.game.log_entries.iter().map(|l| (l.tag, l.tag_color, l.message.as_str())).collect();
    assert_eq!(
        lines,
        vec![("[GE]", Color::Cyan, "SELL copper_ore ×5@12g"), ("[GE]", Color::Yellow, "SOLD egg ×5=60g")]
    );
}

#[test]
fn world_event_lines() {
    let mut s = session();
    s.handle_action(
        &Action::EventSpawn(WorldEvent { name: "Bandit Camp".to_string(), code: "bandit".to_string(), expiration: String::new() }),
        0,
    );
    s.handle_action(&Action::EventRemoved("bandit".to_string()), 0);
    assert!(s.game.world_events.is_empty());
    let lines: Vec<(&str, Color, &str)> =
        s.game.log_entries.iter().map(|l| (l.tag, l.tag_color, l.message.as_str())).collect();
    assert_eq!(lines, vec![("[EVT+]", Color::LightGreen, "Bandit Camp"), ("[EVT-]", Color::DarkGray, "bandit")]);
}

#[test]
fn achievement_announcement_and_system_lines() {
    let mut s = session();
    s.handle_action(
        &Action::AchievementUnlocked { character: "Alice".to_string(), achievement_name: "First Blood".to_string() },
        0,
    );
    s.handle_action(&Action::Announcement("Maintenance".to_string()), 0);
    s.handle_action(&Action::SystemLog { tag: "[IMG✗]".to_string(), message: "x failed".to_string() }, 0);
    let lines: Vec<(&str, Color, &str, &str)> = s
        .game
        .log_entries
        .iter()
        .map(|l| (l.tag, l.tag_color, l.character.as_str(), l.message.as_str()))
        .collect();
    assert_eq!(
        lines,
        vec![
            ("[ACHV]", Color::LightYellow, "Alice", "First Blood"),
            ("[ANON]", Color::Magenta, "", "Maintenance"),
            ("[IMG✗]", Color::Red, "", "x failed"),
        ]
    );
}

#[test]
fn swarm_demand_is_stored() {
    let mut s = session();
    s.handle_action(&Action::SwarmDemandFetched(vec![("egg".to_string(), 4)]), 0);
    assert_eq!(s.game.swarm_demand, vec![("egg".to_string(), 4)]);
}

#[test]
fn focus_moves_selection_with_wraparound() {
    let mut s = session();
    s.handle_action(&Action::CharactersFetched(vec![named("A"), named("B"), named("C")]), 0);
    s.handle_action(&Action::FocusPrev, 0);
    assert_eq!(s.cards.selected, 2);
    assert_eq!(s.game.selected_character, 2);
    s.handle_action(&Action::FocusNext, 0);
    assert_eq!(s.cards.selected, 0);
    s.handle_action(&Action::FocusNext, 0);
    assert_eq!(s.cards.selected, 1);
}

#[test]
fn focus_in_sidebar_scrolls_demand() {
    let mut s = session();
    s.game.focused_panel = FocusedPanel::Sidebar;
    s.sidebar.demand_count = 10;
    s.sidebar.demand_area = Area { x: 0, y: 0, width: 20, height: 6 };
    for _ in 0..10 {
        s.handle_action(&Action::FocusNext, 0);
    }
    assert_eq!(s.sidebar.demand_scroll, 6);
    s.handle_action(&Action::FocusPrev, 0);
    assert_eq!(s.sidebar.demand_scroll, 5);
    assert_eq!(s.cards.selected, 0);
}

#[test]
fn default_keys() {
    let mut s = session();
    assert!(matches!(s.handle_key(plain(KeyCode::Char('q'))), Some(Action::Quit)));
    assert!(matches!(s.handle_key(plain(KeyCode::Tab)), Some(Action::FocusNext)));
    assert!(matches!(s.handle_key(plain(KeyCode::Up)), Some(Action::FocusPrev)));
    assert!(matches!(s.handle_key(plain(KeyCode::Char('l'))), Some(Action::ToggleLog)));
    assert!(s.pending_keys.is_empty());
    assert!(s.handle_key(plain(KeyCode::Char('x'))).is_none());
    assert_eq!(s.pending_keys, vec![plain(KeyCode::Char('x'))]);
    s.handle_action(&Action::Tick, 0);
    assert!(s.pending_keys.is_empty());
    let ctrl_q = Key { code: KeyCode::Char('q'), ctrl: true, alt: false };
    assert!(s.handle_key(ctrl_q).is_none());
}

#[test]
fn key_lookup_by_mode() {
    let m = KeyMap::default_bindings();
    assert_eq!(m.lookup(Mode::Home, &vec![plain(KeyCode::Char('j'))]), Some(Command::FocusNext));
    assert_eq!(m.lookup(Mode::Loading, &vec![plain(KeyCode::BackTab)]), Some(Command::FocusPrev));
    assert_eq!(m.lookup(Mode::Home, &vec![plain(KeyCode::Char('j')), plain(KeyCode::Char('k'))]), None);
    assert!(matches!(Command::MaximizeCharacter.action(), Action::MaximizeCharacter));
    assert_eq!(Mode::default(), Mode::Loading);
}

#[test]
fn ge_order_keeps_its_account() {
    let mut s = session();
    let o = GEOrder {
        order_type: "buy".to_string(),
        code: "egg".to_string(),
        quantity: 2,
        price: 7,
        account: Some("alice_acc".to_string()),
    };
    s.handle_action(&Action::GEOrderCreated(o), 0);
    match s.game.ge_feed.back() {
        Some(GEFeedEntry::Order(stored)) => {
            assert_eq!(stored.account.as_deref(), Some("alice_acc"));
            assert_eq!(stored.code, "egg");
            assert_eq!((stored.quantity, stored.price), (2, 7));
        }
        _ => panic!("the order is not the newest feed entry"),
    }
}

#[test]
fn log_toggles_twice_back_to_visible() {
    let mut s = session();
    assert!(s.log_visible);
    s.handle_action(&Action::Render, 0);
    assert!(s.log_visible);
    s.handle_action(&Action::ToggleLog, 0);
    assert!(!s.log_visible);
    s.handle_action(&Action::ToggleLog, 0);
    assert!(s.log_visible);
}
