use std::collections::VecDeque;

use sentient_tui::action::Action;
use sentient_tui::color::Color;
use sentient_tui::game::{
    AccountLogEntry, ActionRecord, CharacterState, GEFeedEntry, GEOrder, GETransaction,
    InventorySlot, LogEntry, MapTile, WorldEvent, WsStatus,
};
use sentient_tui::json::Json;
use sentient_tui::ui::cards::{
    bag_line, border_path, card_body_shown, card_border_style, CardClocks, card_plan, card_signal, card_title,
    clamp_selection, element_reveal_ms, goal_lines, grid_rows, history_lines, hp_line,
    log_type_icon, portrait_initial, pulse_at, pulse_offset, revealed, section_lengths,
    xp_label, Pulse, CARD_CONTENT_END_MS, CARD_CONTENT_START_MS,
};
use sentient_tui::ui::layout::Area;
use sentient_tui::ui::minimap::{
    content_icon, grid_cells, marker_cell, needs_rebuild, pixel_size, portrait_overlay,
    tile_block, tile_color,
};
use sentient_tui::ui::panels::{
    boot_phase, focus_info, focus_line, focus_title, gauge_width, last_rows, loading_title,
    log_line, log_type_color, log_type_label, newest_row, world_event_line, world_event_rows,
    world_feed_line, world_title, BootPhase, FocusPanel, LoadingScreen, LogPanelState,
    WorldPanel, WorldStatus,
};
use sentient_tui::ui::sidebar::{
    demand_row, event_line, event_lines, feed_line, info_title, minimap_title, scroll_down, scroll_up,
    sidebar_border, sidebar_rows, ws_indicator, SidebarState,
};
use sentient_tui::ui::subpanels::{
    gear_slots, section_label, skill_label, skill_level_color, skill_style, skill_table,
    stat_rows, stat_sections, stat_value_color,
};

fn named(name: &str) -> CharacterState {
    let mut c = CharacterState::default();
    c.name = name.to_string();
    c
}

fn area(x: u16, y: u16, width: u16, height: u16) -> Area {
    Area { x, y, width, height }
}

fn entry(character: &str, log_type: &str, description: &str, cooldown: i32) -> AccountLogEntry {
    AccountLogEntry {
        character: character.to_string(),
        account: String::new(),
        log_type: log_type.to_string(),
        description: description.to_string(),
        cooldown,
        content: Json::Null,
    }
}

#[test]
fn reveal_times_are_fixed_per_name_and_element() {
    assert_eq!(element_reveal_ms("Alice", 0), 357);
    assert_eq!(element_reveal_ms("Alice", 1), 533);
    assert_eq!(element_reveal_ms("Bob", 1), 279);
    assert_eq!(element_reveal_ms("", 0), 220);
    assert_eq!(element_reveal_ms("Alice", 0), element_reveal_ms("Alice", 0));
    assert!(!revealed(356, "Alice", 0));
    assert!(revealed(357, "Alice", 0));
}

#[test]
fn reveal_times_stay_in_window() {
    for name in ["Alice", "Bob", "", "ÄÖÜ", "a very long character name"] {
        for idx in 0..=10u8 {
            let t = element_reveal_ms(name, idx);
            assert!(CARD_CONTENT_START_MS <= t && t < CARD_CONTENT_END_MS);
        }
    }
}

#[test]
fn grid_rows_split_by_three() {
    assert_eq!(grid_rows(7), vec![3, 3, 1]);
    assert_eq!(grid_rows(3), vec![3]);
    assert_eq!(grid_rows(6), vec![3, 3]);
    assert!(grid_rows(0).is_empty());
    for n in 0..20usize {
        assert_eq!(grid_rows(n).iter().sum::<usize>(), n);
    }
}

#[test]
fn selection_is_clamped() {
    assert_eq!(clamp_selection(5, 3), 2);
    assert_eq!(clamp_selection(1, 3), 1);
    assert_eq!(clamp_selection(0, 0), 0);
}

#[test]
fn card_titles() {
    let mut c = named("Alice");
    c.level = 12;
    c.x = 3;
    c.y = -2;
    c.gold = 450;
    assert_eq!(card_title(true, &c), " ♥ Lv12 Alice [3,-2]  450g ");
    let d = named("Bob");
    assert_eq!(card_title(false, &d), " · Bob [0,0] ");
}

#[test]
fn card_borders_follow_activity() {
    assert_eq!(card_border_style("fight", false), (Color::Red, false));
    assert_eq!(card_border_style("gathering", true), (Color::Green, true));
    assert_eq!(card_border_style("movement", false), (Color::Blue, false));
    assert_eq!(card_border_style("crafting", false), (Color::Yellow, false));
    assert_eq!(card_border_style("idle", true), (Color::Cyan, true));
    assert_eq!(card_border_style("idle", false), (Color::DarkGray, false));
}

#[test]
fn card_plans_by_height() {
    let tall = card_plan(30, 40, true);
    assert!(tall.portrait && tall.skills && tall.stats && tall.gear);
    assert_eq!(tall.history_rows, 6);
    assert_eq!(section_lengths(&tall), vec![4, 1, 9, 1, 8, 1, 6, 1]);
    let short = card_plan(15, 12, true);
    assert!(!short.portrait && short.skills && !short.stats && !short.gear);
    assert_eq!(short.history_rows, 0);
    assert_eq!(section_lengths(&short), vec![4, 1, 0, 1]);
    let tiny = card_plan(30, 10, false);
    assert!(!tiny.portrait && !tiny.skills);
    assert_eq!(tiny.history_rows, 3);
}

#[test]
fn hp_gauge_colours() {
    let mut c = named("A");
    c.max_hp = 100;
    c.hp = 80;
    let l = hp_line(&c);
    assert_eq!(l.text, "HP 80/100");
    assert_eq!(l.color, Color::Rgb(40, 120, 70));
    assert!(l.gauge);
    c.hp = 50;
    assert_eq!(hp_line(&c).color, Color::Rgb(180, 90, 30));
    c.hp = 30;
    assert_eq!(hp_line(&c).color, Color::Rgb(150, 40, 40));
    c.max_hp = 0;
    let none = hp_line(&c);
    assert_eq!(none.text, "HP  —");
    assert_eq!(none.color, Color::DarkGray);
    assert!(!none.gauge);
}

#[test]
fn xp_and_bag_gauges() {
    let mut c = named("A");
    c.xp = 150;
    c.max_xp = 1000;
    assert_eq!(xp_label(&c), "XP 150/1000");
    c.inventory = vec![
        InventorySlot { slot: 1, code: "egg".to_string(), quantity: 10 },
        InventorySlot { slot: 2, code: "feather".to_string(), quantity: 35 },
    ];
    c.inventory_max_items = 50;
    assert_eq!(bag_line(&c), ("Bag 45/50".to_string(), Color::Rgb(180, 90, 30), 45));
    c.inventory_max_items = 0;
    assert_eq!(bag_line(&c).1, Color::Rgb(150, 40, 40));
    c.inventory_max_items = 100;
    assert_eq!(bag_line(&c).1, Color::Rgb(60, 110, 160));
}

#[test]
fn history_shows_latest_records() {
    let mut h = VecDeque::new();
    for (t, d) in [("rest", "Rested"), ("fight", "Killed a chicken"), ("gathering", "Mined")] {
        h.push_back(ActionRecord { log_type: t.to_string(), description: d.to_string() });
    }
    let lines = history_lines(&h, 2, 10);
    assert_eq!(lines.len(), 2);
    assert_eq!((lines[0].icon, lines[0].color, lines[0].text.as_str()), ("✕", Color::Red, "Kille…"));
    assert_eq!((lines[1].icon, lines[1].color, lines[1].text.as_str()), ("⌃", Color::Green, "Mined"));
    assert_eq!(history_lines(&h, 5, 40).len(), 3);
    assert_eq!(log_type_icon("withdraw_item"), ("▲", Color::Gray));
    assert_eq!(log_type_icon("other"), ("·", Color::DarkGray));
}

#[test]
fn signal_and_goal_lines() {
    assert_eq!(card_signal(true, "x"), (None, Color::Yellow));
    assert_eq!(card_signal(false, ""), (Some("—".to_string()), Color::DarkGray));
    assert_eq!(card_signal(false, "Rested"), (Some("Rested".to_string()), Color::DarkGray));
    let mut c = named("A");
    c.last_action = "fight".to_string();
    c.task = "chicken".to_string();
    c.task_progress = 3;
    c.task_total = 5;
    let g = goal_lines(&c, 20);
    assert_eq!(g.headline, "Fighting");
    assert_eq!(g.task, Some("chicken (3/5)".to_string()));
    assert_eq!(g.color, Color::Red);
    let mut d = named("B");
    d.last_action = "movement".to_string();
    d.last_description = "Walked to the bank".to_string();
    let h = goal_lines(&d, 20);
    assert_eq!(h.headline, "Moving: Walked to t…");
    assert_eq!(h.task, None);
    assert_eq!(goal_lines(&named("C"), 20).headline, "Idle");
}

#[test]
fn portrait_placeholder() {
    assert_eq!(portrait_initial("Alice"), 'A');
    assert_eq!(portrait_initial("Éa"), 'É');
    assert_eq!(portrait_initial(""), '?');
}

#[test]
fn border_pulse_pattern() {
    assert_eq!(pulse_at(0, 0), Pulse::Bright);
    assert_eq!(pulse_at(0, 2), Pulse::Base);
    assert_eq!(pulse_at(0, 5), Pulse::Dark);
    assert_eq!(pulse_at(0, 9), Pulse::Darkest);
    assert_eq!(pulse_at(22, 3), Pulse::Bright);
    assert_eq!(pulse_offset(1000), 14);
    assert_eq!(pulse_offset(999), 13);
    assert_eq!(pulse_offset(0), 0);
}

#[test]
fn border_path_walks_the_rim() {
    assert_eq!(
        border_path(area(0, 0, 3, 3)),
        vec![(0, 0), (1, 0), (2, 0), (2, 1), (2, 2), (1, 2), (0, 2), (0, 1)]
    );
    assert_eq!(border_path(area(5, 5, 4, 2)).len(), 8);
    assert!(border_path(area(0, 0, 1, 5)).is_empty());
}

#[test]
fn sidebar_scrolling() {
    assert_eq!(scroll_down(0, 10, 4), 1);
    assert_eq!(scroll_down(6, 10, 4), 6);
    assert_eq!(scroll_down(0, 3, 4), 0);
    assert_eq!(scroll_up(0), 0);
    assert_eq!(scroll_up(4), 3);
}

#[test]
fn sidebar_wheel_and_windows() {
    let mut s = SidebarState::new();
    assert_eq!(s.demand_drawn(area(0, 0, 20, 5), 10), (0, 4));
    assert_eq!(s.ge_drawn(area(0, 10, 20, 4), 10), (7, 10));
    assert!(s.wheel(1, 1, true));
    assert_eq!(s.demand_scroll, 1);
    assert!(s.wheel(1, 11, false));
    assert_eq!(s.ge_scroll, 1);
    assert_eq!(s.ge_drawn(area(0, 10, 20, 4), 10), (6, 9));
    assert!(s.wheel(1, 11, true));
    assert_eq!(s.ge_scroll, 0);
    assert!(!s.wheel(50, 50, true));
    s.demand_scroll = 9;
    assert_eq!(s.demand_drawn(area(0, 0, 20, 5), 10), (6, 10));
    assert_eq!(s.demand_scroll, 6);
}

#[test]
fn sidebar_sections() {
    let r = sidebar_rows(30, 40, 2, 30, true, 8, 16);
    assert_eq!((r.events, r.demand, r.minimap), (3, 26, 15));
    let r = sidebar_rows(30, 10, 0, 0, true, 0, 0);
    assert_eq!((r.events, r.demand, r.minimap), (0, 2, 0));
    let r = sidebar_rows(6, 20, 5, 3, true, 0, 0);
    assert_eq!((r.events, r.demand, r.minimap), (4, 4, 4));
    assert_eq!(sidebar_border(true), Color::Cyan);
    assert_eq!(sidebar_border(false), Color::DarkGray);
    assert_eq!(ws_indicator(&WsStatus::Connected), ("●", Color::Green, "live"));
    assert_eq!(ws_indicator(&WsStatus::Disconnected("x".to_string())), ("✗", Color::Red, "offline"));
}

#[test]
fn sidebar_lines() {
    let evt = WorldEvent {
        name: "Bandit Camp".to_string(),
        code: "bandit".to_string(),
        expiration: "2025-01-01T10:00:00Z".to_string(),
    };
    assert_eq!(event_line(&evt, 12), ("Bandi…".to_string(), " 2025-01-01T10:00".to_string()));
    let order = GEFeedEntry::Order(GEOrder {
        order_type: "sell".to_string(),
        code: "copper_ore".to_string(),
        quantity: 5,
        price: 12,
        account: None,
    });
    let f = feed_line(&order, 20);
    assert_eq!((f.tag.as_str(), f.tag_color, f.bold), ("[SELL] ", Color::LightRed, false));
    assert_eq!((f.code.as_str(), f.detail.as_str()), ("cop…", " ×5@12g"));
    let txn = GEFeedEntry::Transaction(GETransaction {
        order_type: "buy".to_string(),
        code: "egg".to_string(),
        quantity: 2,
        total_price: 8,
    });
    let g = feed_line(&txn, 40);
    assert_eq!((g.tag.as_str(), g.tag_color, g.bold), ("[BGHT] ", Color::Cyan, true));
    assert_eq!((g.code.as_str(), g.detail.as_str()), ("egg", " ×2=8g"));
    assert_eq!(demand_row("copper_ore", 10, 8), ("10x ".to_string(), "Coppe…".to_string()));
    assert_eq!(info_title("1.2.0"), " Info v1.2.0 ");
    assert_eq!(minimap_title("Alice", 3, -2), " Alice [3,-2] ");
}

#[test]
fn skill_and_stat_cells() {
    assert_eq!(section_label("Skills", 14), ("─ Skills ".to_string(), "─────".to_string()));
    assert_eq!(skill_label("Mining", 12, 12), "Mining    12");
    assert_eq!(skill_label("Weaponcrafting", 5, 10), "Weaponc… 5");
    assert_eq!(skill_level_color(0), Color::DarkGray);
    assert_eq!(skill_level_color(9), Color::Rgb(60, 110, 160));
    assert_eq!(skill_level_color(10), Color::Rgb(180, 90, 30));
    assert_eq!(skill_level_color(25), Color::Rgb(40, 120, 70));
    assert_eq!(skill_level_color(40), Color::Rgb(120, 60, 180));
    assert_eq!(skill_style(0, false), (Color::DarkGray, false, Color::Gray, false));
    assert_eq!(skill_style(12, true), (Color::Rgb(180, 90, 30), true, Color::White, true));
    let mut c = named("A");
    c.cooking.level = 7;
    let skills = skill_table(&c);
    assert_eq!(skills.len(), 8);
    assert_eq!((skills[6].0, skills[6].1, skills[6].2.level), ("Cooking", "cooking", 7));
    c.threat = 4;
    let rows = stat_rows(&c);
    assert_eq!(rows.len(), 5);
    assert_eq!((rows[1][1].label, rows[1][1].value, rows[1][1].color), ("Threat", 4, Color::Red));
    assert_eq!(stat_sections()[3], ("Resist", Color::Blue));
    assert_eq!(stat_value_color(3, Color::Red), Color::Red);
    assert_eq!(stat_value_color(0, Color::Red), Color::DarkGray);
    c.weapon_slot = "wooden_stick".to_string();
    let gear = gear_slots(&c);
    assert!(gear.iter().any(|(_, code)| code.as_str() == "wooden_stick"));
}

#[test]
fn boot_phases() {
    assert_eq!(boot_phase(100, 150, 350), BootPhase::Border);
    assert_eq!(boot_phase(200, 150, 350), BootPhase::Reveal);
    assert_eq!(boot_phase(350, 150, 350), BootPhase::Done);
}

#[test]
fn footer_glitch_arms_on_new_entries() {
    let mut p = LogPanelState::new();
    assert!(p.visible);
    assert!(p.entries_drawn(3));
    assert_eq!(p.glitch_ms, 350);
    assert!(!p.entries_drawn(3));
    assert!(!p.glitch_elapsed(100));
    assert_eq!(p.glitch_ms, 250);
    assert!(p.glitch_elapsed(300));
    assert_eq!(p.glitch_ms, 0);
}

#[test]
fn footer_rows_and_lines() {
    assert_eq!(last_rows(10, 4), (6, 10));
    assert_eq!(last_rows(3, 4), (0, 3));
    assert_eq!(newest_row(area(0, 5, 10, 3), 2), Some(6));
    assert_eq!(newest_row(area(0, 5, 10, 3), 10), Some(7));
    assert_eq!(newest_row(area(0, 5, 10, 3), 0), Some(5));
    assert_eq!(newest_row(area(0, 5, 10, 0), 1), None);
    let e = LogEntry { tag: "[SYS]", tag_color: Color::Blue, character: String::new(), message: "websocket connected".to_string() };
    assert_eq!(log_line(&e, 20), ("[SYS] ".to_string(), String::new(), "websocket con…".to_string()));
    let f = LogEntry { character: "Alice".to_string(), ..e.clone() };
    assert_eq!(log_line(&f, 20), ("[SYS] ".to_string(), "Alice: ".to_string(), "websoc…".to_string()));
}

#[test]
fn focus_panel_lines() {
    assert_eq!(log_type_label("multi_fight"), "⚔⚔");
    assert_eq!(log_type_label("deposit_gold"), "↓B");
    assert_eq!(log_type_label("x"), "·");
    assert_eq!(log_type_color("new_task"), Color::LightMagenta);
    assert_eq!(log_type_color("task_completed"), Color::Magenta);
    assert_eq!(
        focus_line(&entry("A", "fight", "Won", 12)),
        ("⚔ ".to_string(), Color::Red, "Won".to_string(), "  cd 12s".to_string())
    );
    let long = "x".repeat(70);
    let (_, _, desc, cd) = focus_line(&entry("A", "rest", &long, 0));
    assert_eq!(desc, format!("{}…", "x".repeat(59)));
    assert_eq!(cd, "");
    assert_eq!(focus_title(&None), " Focus ");
    assert_eq!(focus_title(&Some(named("Alice"))), " Alice ");
}

#[test]
fn focus_info_rows() {
    let mut c = named("A");
    c.x = 1;
    c.y = -1;
    c.last_action = "rest".to_string();
    let rows = focus_info(&c);
    let seen: Vec<(&str, &str, Color, bool)> =
        rows.iter().map(|r| (r.label, r.value.as_str(), r.color, r.bold)).collect();
    assert_eq!(
        seen,
        vec![
            ("Account  ", "—", Color::White, false),
            ("Position ", "(1, -1)", Color::White, false),
            ("Status   ", "Resting", Color::Blue, true),
            ("Cooldown ", "4s", Color::DarkGray, false),
        ]
    );
}

#[test]
fn focus_panel_tracks_history_and_character() {
    let mut p = FocusPanel::new();
    p.set_character(Some(named("Alice")));
    p.update(Action::AccountLog(entry("Alice", "fight", "Won", 0)));
    p.update(Action::AccountLog(entry("Bob", "rest", "Rested", 0)));
    let c = p.character.as_ref().unwrap();
    assert_eq!(c.last_action, "fight");
    assert_eq!(c.last_description, "Won");
    assert_eq!(p.history.get("Alice").unwrap().len(), 1);
    assert_eq!(p.history.get("Bob").unwrap().len(), 1);
    let mut moved = named("Alice");
    moved.x = 4;
    moved.skin = "men1".to_string();
    p.update(Action::OnlineCharacters(vec![named("Bob"), moved]));
    let c = p.character.as_ref().unwrap();
    assert_eq!(c.x, 4);
    assert_eq!(c.skin, "men1");
    for i in 0..105 {
        p.update(Action::AccountLog(entry("Bob", "rest", &format!("r{}", i), 0)));
    }
    let bob = p.history.get("Bob").unwrap();
    assert_eq!(bob.len(), 100);
    assert_eq!(bob[0].description, "r5");
}

#[test]
fn world_panel_updates() {
    let mut w = WorldPanel::new();
    w.update(Action::WsConnected);
    assert!(matches!(w.status, WorldStatus::Connected));
    w.update(Action::WsDisconnected("gone".to_string()));
    assert!(matches!(&w.status, WorldStatus::Disconnected(m) if m == "gone"));
    for code in ["a", "b", "a"] {
        w.update(Action::EventSpawn(WorldEvent { name: code.to_string(), code: code.to_string(), expiration: String::new() }));
    }
    w.update(Action::EventRemoved("a".to_string()));
    assert_eq!(w.active_events.len(), 1);
    for i in 0..35u32 {
        w.update(Action::GEOrderCreated(GEOrder {
            order_type: "buy".to_string(),
            code: format!("c{}", i),
            quantity: 1,
            price: i,
            account: None,
        }));
    }
    assert_eq!(w.ge_feed.len(), 30);
    assert_eq!(world_title(&WorldStatus::Connected), (" World  ● connected ".to_string(), Color::Green));
    assert_eq!(world_title(&WorldStatus::Connecting), (" World  ○ connecting… ".to_string(), Color::Yellow));
    assert_eq!(world_event_rows(3), 4);
    assert_eq!(world_event_rows(20), 8);
}

#[test]
fn world_panel_lines() {
    let e = WorldEvent { name: "Portal".to_string(), code: "portal".to_string(), expiration: String::new() };
    assert_eq!(world_event_line(&e), ("Portal".to_string(), " (portal)".to_string()));
    let o = GEFeedEntry::Order(GEOrder {
        order_type: "buy".to_string(),
        code: "egg".to_string(),
        quantity: 2,
        price: 3,
        account: Some("me".to_string()),
    });
    let l = world_feed_line(&o);
    assert_eq!(
        (l.verb.as_str(), l.color, l.code.as_str(), l.detail.as_str(), l.account.as_str()),
        ("BUY  ", Color::LightGreen, "egg", " ×2 @3g", " me")
    );
    let t = GEFeedEntry::Transaction(GETransaction {
        order_type: "sell".to_string(),
        code: "egg".to_string(),
        quantity: 2,
        total_price: 6,
    });
    let m = world_feed_line(&t);
    assert_eq!((m.verb.as_str(), m.color, m.detail.as_str(), m.account.as_str()), ("SOLD ", Color::Green, " ×2=6g", ""));
}

#[test]
fn loading_screen_spinner_and_title() {
    let mut l = LoadingScreen::new();
    assert_eq!(l.next_frame(), "⠋");
    assert_eq!(l.next_frame(), "⠋");
    assert_eq!(l.next_frame(), "⠙");
    assert_eq!(l.tick, 3);
    assert_eq!(loading_title("⠋", 0, 0), " ⠋ Waiting for asset list… ");
    assert_eq!(loading_title("⠋", 3, 10), " ⠋ Sprites  3/10 ");
    assert_eq!(gauge_width(10), 20);
    assert_eq!(gauge_width(45), 45);
    assert_eq!(gauge_width(200), 60);
}

#[test]
fn minimap_cells_and_blocks() {
    let cells = grid_cells(5, 5);
    assert_eq!(cells.len(), 9);
    assert_eq!(cells[0], (-1, -1, 4, 4));
    assert_eq!(cells[4], (0, 0, 5, 5));
    assert_eq!(cells[8], (1, 1, 6, 6));
    let t = MapTile {
        x: 5,
        y: 5,
        map_id: 1,
        layer: "overworld".to_string(),
        name: "Farm".to_string(),
        skin: "farm".to_string(),
        content_type: "monster".to_string(),
        content_code: "chicken".to_string(),
    };
    assert_eq!(tile_color(&t), Color::Rgb(110, 25, 25));
    assert_eq!(content_icon("bank"), "$");
    assert_eq!(content_icon(""), "");
    let b = tile_block(Some(&t), area(0, 0, 10, 4));
    assert_eq!(b.background, Color::Rgb(110, 25, 25));
    assert_eq!(b.icon, Some(("☠", 1)));
    assert_eq!(b.code, Some(("chicken".to_string(), 2)));
    let narrow = tile_block(Some(&t), area(0, 0, 4, 4));
    assert_eq!(narrow.code, Some(("chic".to_string(), 2)));
    let flat = tile_block(Some(&t), area(0, 0, 10, 1));
    assert_eq!(flat.icon, None);
    let empty = tile_block(None, area(0, 0, 10, 4));
    assert_eq!(empty.background, Color::Rgb(10, 10, 20));
    assert_eq!(marker_cell(area(2, 3, 10, 4)), (7, 5));
}

#[test]
fn minimap_overlay_and_sprites() {
    assert_eq!(portrait_overlay(area(10, 10, 10, 10)), area(12, 13, 5, 5));
    assert_eq!(portrait_overlay(area(0, 0, 1, 1)), area(0, 0, 1, 1));
    assert_eq!(pixel_size(area(0, 0, 10, 5), 8, 16), (80, 80));
    assert_eq!(pixel_size(area(0, 0, 0, 5), 0, 0), (1, 5));
    let cell = area(0, 0, 10, 5);
    assert!(needs_rebuild(None, "men1", cell));
    assert!(!needs_rebuild(Some(("men1", cell)), "men1", cell));
    assert!(needs_rebuild(Some(("men2", cell)), "men1", cell));
    assert!(needs_rebuild(Some(("men1", area(0, 0, 10, 6))), "men1", cell));
}

#[test]
fn card_body_needs_room_and_time() {
    assert!(!card_body_shown(239, 40, 20));
    assert!(card_body_shown(240, 40, 20));
    assert!(card_body_shown(240, 10, 5));
    assert!(!card_body_shown(1_000, 9, 20));
    assert!(!card_body_shown(1_000, 40, 4));
}

#[test]
fn sidebar_lists_three_events() {
    let events: Vec<WorldEvent> = (0..5)
        .map(|i| WorldEvent {
            name: format!("Event number {}", i),
            code: format!("e{}", i),
            expiration: "2025-01-01T12:00:00Z".to_string(),
        })
        .collect();
    let lines = event_lines(&events, 12);
    assert_eq!(lines.len(), 3);
    assert_eq!(lines[0], ("Event…".to_string(), " 2025-01-01T12:00".to_string()));
    assert_eq!(lines[2].0, event_line(&events[2], 12).0);
    assert!(event_lines(&events[..1].to_vec(), 12).len() == 1);
    assert!(event_lines(&Vec::new(), 12).is_empty());
}

#[test]
fn card_clocks_start_once() {
    let mut c = CardClocks::new();
    assert_eq!(c.age("Alice", 100), u64::MAX);
    assert!(c.start("Alice", 100));
    assert!(!c.start("Alice", 500));
    assert_eq!(c.age("Alice", 350), 250);
    assert_eq!(c.age("Alice", 50), 0);
    assert!(c.start("Bob", 400));
    assert_eq!(c.age("Bob", 400), 0);
}
