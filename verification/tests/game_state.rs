use std::collections::VecDeque;

use sentient_tui::color::Color;
use sentient_tui::game::{
    AccountLogEntry, CharacterState, FocusedPanel, GEFeedEntry, GEOrder, InventorySlot, MapTile,
    SkillInfo, WorldEvent,
};
use sentient_tui::json::{Json, JsonNumber};
use sentient_tui::state::{
    has_char, log_type_tag, push_bounded, push_ge_entry, push_log, system_log_color,
    system_log_tag, GameState, MAX_GE, MAX_HISTORY, MAX_LOG,
};

fn s(t: &str) -> Json {
    Json::String(t.to_string())
}

fn n(v: u64) -> Json {
    Json::Number(JsonNumber::PosInt(v))
}

fn obj(members: Vec<(&str, Json)>) -> Json {
    Json::Object(members.into_iter().map(|(k, v)| (k.to_string(), v)).collect())
}

fn named(name: &str) -> CharacterState {
    let mut c = CharacterState::default();
    c.name = name.to_string();
    c
}

fn slot(slot: u32, code: &str, quantity: u32) -> InventorySlot {
    InventorySlot { slot, code: code.to_string(), quantity }
}

fn log_entry(character: &str, log_type: &str, description: &str, content: Json) -> AccountLogEntry {
    AccountLogEntry {
        character: character.to_string(),
        account: "acct".to_string(),
        log_type: log_type.to_string(),
        description: description.to_string(),
        cooldown: 0,
        content,
    }
}

fn order(code: &str) -> GEFeedEntry {
    GEFeedEntry::Order(GEOrder {
        order_type: "sell".to_string(),
        code: code.to_string(),
        quantity: 1,
        price: 1,
        account: None,
    })
}

#[test]
fn skill_info_starts_at_zero() {
    assert_eq!(SkillInfo::new(), SkillInfo { level: 0, xp: 0, max_xp: 0 });
}

#[test]
fn default_character_is_blank() {
    let c = CharacterState::default();
    assert_eq!(c.name, "");
    assert_eq!(c.level, 0);
    assert!(c.inventory.is_empty());
    assert!(!c.has_combat_stats());
    assert_eq!(c.task_display(), None);
    assert_eq!(c.activity_label(), "Idle");
}

#[test]
fn items_skips_empty_slots_and_sorts_by_slot() {
    let mut c = named("Alice");
    c.inventory = vec![
        slot(5, "copper_ore", 3),
        slot(2, "", 4),
        slot(1, "ash_wood", 7),
        slot(3, "feather", 0),
        slot(4, "egg", 1),
    ];
    let items = c.items();
    let seen: Vec<(u32, &str, u32)> =
        items.iter().map(|i| (i.slot, i.code.as_str(), i.quantity)).collect();
    assert_eq!(seen, vec![(1, "ash_wood", 7), (4, "egg", 1), (5, "copper_ore", 3)]);
}

#[test]
fn combat_stats_are_detected() {
    let mut c = named("Bob");
    c.res_water = 5;
    assert!(c.has_combat_stats());
    let mut d = named("Bob");
    d.speed = 9;
    d.wisdom = 3;
    assert!(!d.has_combat_stats());
    let mut e = named("Eve");
    e.dmg = 10;
    e.haste = 2;
    e.critical_strike = 5;
    e.prospecting = 8;
    assert!(!e.has_combat_stats());
    e.attack_air = 1;
    assert!(e.has_combat_stats());
}

#[test]
fn task_display_shows_progress() {
    let mut c = named("Alice");
    c.task = "chicken".to_string();
    c.task_progress = 3;
    c.task_total = 5;
    assert_eq!(c.task_display(), Some("chicken (3/5)".to_string()));
    c.task_total = 0;
    assert_eq!(c.task_display(), Some("chicken".to_string()));
}

#[test]
fn activity_labels_follow_last_action() {
    let mut c = named("Alice");
    for (action, label, color) in [
        ("fight", "Fighting", Color::Red),
        ("multi_fight", "Fighting", Color::Red),
        ("gathering", "Gathering", Color::Green),
        ("crafting", "Crafting", Color::Yellow),
        ("movement", "Moving", Color::Cyan),
        ("rest", "Resting", Color::Blue),
        ("task_completed", "Task Done", Color::Magenta),
        ("new_task", "New Task", Color::Magenta),
        ("task_cancelled", "Task", Color::Magenta),
        ("recycling", "Recycling", Color::LightYellow),
        ("sell_ge", "Trading", Color::LightCyan),
        ("withdraw_gold", "Banking", Color::Gray),
        ("equip", "Equipping", Color::DarkGray),
        ("something_else", "Idle", Color::DarkGray),
    ] {
        c.last_action = action.to_string();
        assert_eq!(c.activity_label(), label);
        assert_eq!(c.activity_color(), color);
    }
}

#[test]
fn activity_skill_from_action_and_task_type() {
    let mut c = named("Alice");
    c.last_action = "gathering".to_string();
    c.task_type = "fishing".to_string();
    assert_eq!(c.activity_skill(), Some("Fishing"));
    c.last_action = "crafting".to_string();
    c.task_type = "alchemy".to_string();
    assert_eq!(c.activity_skill(), Some("Alchemy"));
    c.task_type = "fishing".to_string();
    assert_eq!(c.activity_skill(), None);
    c.last_action = "fight".to_string();
    assert_eq!(c.activity_skill(), None);
}

#[test]
fn focus_cycles_through_three_panels() {
    assert_eq!(FocusedPanel::default(), FocusedPanel::CharGrid);
    assert_eq!(FocusedPanel::CharGrid.next(), FocusedPanel::Sidebar);
    assert_eq!(FocusedPanel::Sidebar.next(), FocusedPanel::LogPanel);
    assert_eq!(FocusedPanel::LogPanel.next(), FocusedPanel::CharGrid);
    assert_eq!(FocusedPanel::CharGrid.prev(), FocusedPanel::LogPanel);
    for p in [FocusedPanel::CharGrid, FocusedPanel::Sidebar, FocusedPanel::LogPanel] {
        assert_eq!(p.next().prev(), p);
        assert_eq!(p.prev().next(), p);
        assert_eq!(p.next().next().next(), p);
    }
}

#[test]
fn push_bounded_drops_oldest_when_full() {
    let mut q: VecDeque<u32> = VecDeque::new();
    push_bounded(&mut q, 1, 2);
    push_bounded(&mut q, 2, 2);
    push_bounded(&mut q, 3, 2);
    assert_eq!(q, VecDeque::from(vec![2, 3]));
}

#[test]
fn ge_feed_keeps_latest_sixty() {
    let mut feed: VecDeque<GEFeedEntry> = VecDeque::new();
    for i in 0..(MAX_GE + 5) {
        push_ge_entry(&mut feed, order(&format!("item{}", i)));
    }
    assert_eq!(feed.len(), MAX_GE);
    match &feed[0] {
        GEFeedEntry::Order(o) => assert_eq!(o.code, "item5"),
        _ => panic!("expected an order"),
    }
    match feed.back().unwrap() {
        GEFeedEntry::Order(o) => assert_eq!(o.code, format!("item{}", MAX_GE + 4)),
        _ => panic!("expected an order"),
    }
}

#[test]
fn footer_log_keeps_latest_five_hundred() {
    let mut log = VecDeque::new();
    for i in 0..(MAX_LOG + 1) {
        push_log(&mut log, "[SYS]", Color::Blue, "", &format!("m{}", i));
    }
    assert_eq!(log.len(), MAX_LOG);
    assert_eq!(log[0].message, "m1");
    let last = log.back().unwrap();
    assert_eq!(last.tag, "[SYS]");
    assert_eq!(last.tag_color, Color::Blue);
    assert_eq!(last.message, format!("m{}", MAX_LOG));
}

#[test]
fn log_type_tags() {
    assert_eq!(log_type_tag("fight"), ("[FIGHT] ", Color::Red));
    assert_eq!(log_type_tag("gathering"), ("[GATHER]", Color::Green));
    assert_eq!(log_type_tag("recycling"), ("[RECYCLE", Color::LightYellow));
    assert_eq!(log_type_tag("fill_buy_order_ge"), ("[GE BUY]", Color::Cyan));
    assert_eq!(log_type_tag("sell_ge"), ("[GE SEL]", Color::LightRed));
    assert_eq!(log_type_tag("deposit_gold"), ("[BANK↓] ", Color::Gray));
    assert_eq!(log_type_tag("unequip"), ("[EQUIP] ", Color::LightCyan));
    assert_eq!(log_type_tag("Fight"), ("[LOG]   ", Color::DarkGray));
}

#[test]
fn system_log_tags_and_colours() {
    assert_eq!(system_log_color("[IMG✓]"), Color::Green);
    assert_eq!(system_log_color("[IMG◈]"), Color::Green);
    assert_eq!(system_log_color("[IMG✗]"), Color::Red);
    assert_eq!(system_log_color("[IMG↓]"), Color::Cyan);
    assert_eq!(system_log_tag("[IMG✗]"), "[IMG✗]");
    assert_eq!(system_log_tag("[NET]"), "[IMG]  ");
    assert!(has_char("a✓b", '✓'));
    assert!(!has_char("abc", '✓'));
}

#[test]
fn new_game_state_is_empty() {
    let g = GameState::new();
    assert!(g.characters.is_empty());
    assert!(g.world_events.is_empty());
    assert!(g.ge_feed.is_empty());
    assert!(g.log_entries.is_empty());
    assert!(!g.heartbeat);
    assert_eq!(g.selected_character, 0);
    assert_eq!(g.focused_panel, FocusedPanel::CharGrid);
    assert_eq!(g.total_gold(), 0);
}

#[test]
fn upsert_keeps_known_last_action() {
    let mut g = GameState::new();
    let mut a = named("Alice");
    a.gold = 10;
    g.upsert_character_full(&a);
    g.characters[0].last_action = "fight".to_string();
    g.characters[0].last_description = "killed a chicken".to_string();
    let mut fresh = named("Alice");
    fresh.gold = 25;
    fresh.last_action = "idle".to_string();
    g.upsert_character_full(&fresh);
    g.upsert_character_full(&named("Bob"));
    assert_eq!(g.characters.len(), 2);
    assert_eq!(g.characters[0].gold, 25);
    assert_eq!(g.characters[0].last_action, "fight");
    assert_eq!(g.characters[0].last_description, "killed a chicken");
    assert_eq!(g.find_character("Bob"), Some(1));
    assert_eq!(g.find_character("Carol"), None);
    assert_eq!(g.total_gold(), 25);
}

#[test]
fn upsert_replaces_idle_last_action() {
    let mut g = GameState::new();
    let mut a = named("Alice");
    a.last_action = "idle".to_string();
    g.upsert_character_full(&a);
    let mut fresh = named("Alice");
    fresh.last_action = "rest".to_string();
    g.upsert_character_full(&fresh);
    assert_eq!(g.characters[0].last_action, "rest");
}

#[test]
fn account_log_updates_character_history_and_footer() {
    let mut g = GameState::new();
    g.upsert_character_full(&named("Alice"));
    let content = obj(vec![(
        "character",
        obj(vec![("hp", n(80)), ("max_hp", n(120)), ("gold", n(300)), ("x", n(2)), ("skin", s("men1"))]),
    )]);
    g.apply_account_log(&log_entry("Alice", "fight", "Fought a chicken", content));
    let c = &g.characters[0];
    assert_eq!(c.hp, 80);
    assert_eq!(c.max_hp, 120);
    assert_eq!(c.gold, 300);
    assert_eq!(c.x, 2);
    assert_eq!(c.skin, "men1");
    assert_eq!(c.account, "acct");
    assert_eq!(c.last_action, "fight");
    assert_eq!(c.last_description, "Fought a chicken");
    let hist = g.action_history.get("Alice").unwrap();
    assert_eq!(hist.len(), 1);
    assert_eq!(hist[0].log_type, "fight");
    let line = g.log_entries.back().unwrap();
    assert_eq!(line.tag, "[FIGHT] ");
    assert_eq!(line.tag_color, Color::Red);
    assert_eq!(line.character, "Alice");
    assert_eq!(line.message, "Fought a chicken");
}

#[test]
fn account_log_adds_unknown_character() {
    let mut g = GameState::new();
    let content = obj(vec![(
        "characters",
        Json::Array(vec![
            obj(vec![("name", s("Other")), ("hp", n(1))]),
            obj(vec![("name", s("Dora")), ("level", n(7))]),
        ]),
    )]);
    g.apply_account_log(&log_entry("Dora", "movement", "Moved", content));
    assert_eq!(g.characters.len(), 1);
    assert_eq!(g.characters[0].name, "Dora");
    assert_eq!(g.characters[0].level, 7);
    assert_eq!(g.characters[0].hp, 0);
}

#[test]
fn action_history_keeps_latest_eight() {
    let mut g = GameState::new();
    for i in 0..(MAX_HISTORY + 3) {
        g.apply_account_log(&log_entry("Alice", "rest", &format!("r{}", i), Json::Null));
    }
    let hist = g.action_history.get("Alice").unwrap();
    assert_eq!(hist.len(), MAX_HISTORY);
    assert_eq!(hist[0].description, "r3");
    assert_eq!(g.characters.len(), 1);
}

#[test]
fn online_positions_move_known_characters_only() {
    let mut g = GameState::new();
    g.upsert_character_full(&named("Alice"));
    let mut moved = named("Alice");
    moved.x = 4;
    moved.y = -1;
    moved.skin = "women2".to_string();
    let mut stranger = named("Zed");
    stranger.x = 9;
    g.apply_online_positions(&vec![moved, stranger]);
    assert_eq!(g.characters.len(), 1);
    assert_eq!((g.characters[0].x, g.characters[0].y), (4, -1));
    assert_eq!(g.characters[0].skin, "women2");
}

#[test]
fn world_events_spawn_and_remove_by_code() {
    let mut g = GameState::new();
    for code in ["bandit", "portal", "bandit"] {
        g.spawn_event(WorldEvent {
            name: format!("{} camp", code),
            code: code.to_string(),
            expiration: String::new(),
        });
    }
    g.remove_events("bandit");
    assert_eq!(g.world_events.len(), 1);
    assert_eq!(g.world_events[0].code, "portal");
}

#[test]
fn world_events_keep_latest_twenty() {
    let mut g = GameState::new();
    for i in 0..25 {
        g.spawn_event(WorldEvent { name: format!("e{}", i), code: format!("c{}", i), expiration: String::new() });
    }
    assert_eq!(g.world_events.len(), 20);
    assert_eq!(g.world_events[0].code, "c5");
}

#[test]
fn gold_snapshots_record_total_gold() {
    let mut g = GameState::new();
    let mut a = named("Alice");
    a.gold = 100;
    let mut b = named("Bob");
    b.gold = 50;
    g.upsert_character_full(&a);
    g.upsert_character_full(&b);
    g.snapshot_gold(1234);
    assert_eq!(g.gold_snapshots, VecDeque::from(vec![(1234u64, 150u64)]));
}

#[test]
fn map_tiles_record_layers() {
    let mut g = GameState::new();
    g.record_map_tile(MapTile {
        x: 1,
        y: 2,
        map_id: 77,
        layer: "underground".to_string(),
        name: "Mine".to_string(),
        skin: "mine1".to_string(),
        content_type: String::new(),
        content_code: String::new(),
    });
    assert_eq!(g.layer_of(77), "underground");
    assert_eq!(g.layer_of(5), "overworld");
    assert_eq!(g.map_tiles.get(1, 2, "underground").unwrap().name, "Mine");
    assert!(g.map_tiles.get(1, 2, "overworld").is_none());
}

#[test]
fn selected_index_is_clamped() {
    let mut g = GameState::new();
    assert_eq!(g.selected_index(), 0);
    g.upsert_character_full(&named("Alice"));
    g.upsert_character_full(&named("Bob"));
    g.selected_character = 7;
    assert_eq!(g.selected_index(), 1);
}
