use sentient_tui::action::Action;
use sentient_tui::bot::{
    bank_url, bot_control_url, bot_url, bots_url, command_url, demand_ignore_body,
    demand_ignore_url, demand_url, BotControl,
};
use sentient_tui::json::{Json, JsonNumber};
use sentient_tui::rest::{
    bearer, bot_character, characters_action, characters_from_response, characters_url,
    extract_content, extract_page, maps_url, sort_demand, tile_from_json, MapFetch,
    API_BASE_URL, MAP_PAGE_SIZE,
};
use sentient_tui::state::GameState;
use sentient_tui::ws::{auth_message, WsCommand, WsEvent, WsLink, WsPhase};

fn s(t: &str) -> Json {
    Json::String(t.to_string())
}

fn n(v: u64) -> Json {
    Json::Number(JsonNumber::PosInt(v))
}

fn obj(members: Vec<(&str, Json)>) -> Json {
    Json::Object(members.into_iter().map(|(k, v)| (k.to_string(), v)).collect())
}

fn tile(x: u64, y: u64, map_id: u64) -> Json {
    obj(vec![("x", n(x)), ("y", n(y)), ("map_id", n(map_id)), ("name", s("Forest")), ("skin", s("forest_1"))])
}

#[test]
fn request_addresses() {
    assert_eq!(bearer("abc"), "Bearer abc");
    assert_eq!(characters_url("https://api.artifactsmmo.com/"), "https://api.artifactsmmo.com/my/characters");
    assert_eq!(maps_url(API_BASE_URL, 2, MAP_PAGE_SIZE), "https://api.artifactsmmo.com/maps?page=2&size=10000");
}

#[test]
fn extract_page_nested_items() {
    let body = obj(vec![("data", obj(vec![("items", Json::Array(vec![tile(0, 0, 1), tile(1, 0, 2)])), ("pages", n(3))]))]);
    let (items, pages) = extract_page(body);
    assert_eq!(items.len(), 2);
    assert_eq!(pages, 3);
}

#[test]
fn extract_page_flat_data() {
    let body = obj(vec![("data", Json::Array(vec![tile(0, 0, 1)])), ("pages", n(4))]);
    let (items, pages) = extract_page(body);
    assert_eq!(items.len(), 1);
    assert_eq!(pages, 4);
}

#[test]
fn extract_page_other_shapes() {
    let (items, pages) = extract_page(obj(vec![("data", s("nope"))]));
    assert!(items.is_empty());
    assert_eq!(pages, 1);
    let (bare, bare_pages) = extract_page(Json::Array(vec![tile(0, 0, 0)]));
    assert_eq!(bare.len(), 1);
    assert_eq!(bare_pages, 1);
}

#[test]
fn tile_content_prefers_interactions() {
    let t = obj(vec![
        ("x", n(3)),
        ("y", Json::Number(JsonNumber::NegInt(-1))),
        ("interactions", obj(vec![("content", obj(vec![("type", s("monster")), ("code", s("chicken"))]))])),
        ("content", obj(vec![("type", s("resource")), ("code", s("ash_tree"))])),
    ]);
    assert_eq!(extract_content(&t), ("monster".to_string(), "chicken".to_string()));
    let m = tile_from_json(&t);
    assert_eq!((m.x, m.y, m.map_id), (3, -1, 0));
    assert_eq!(m.layer, "overworld");
    assert_eq!(m.content_code, "chicken");
    let older = obj(vec![("content", obj(vec![("type", s("bank")), ("code", s("bank"))])), ("layer", s("interior"))]);
    assert_eq!(extract_content(&older), ("bank".to_string(), "bank".to_string()));
    assert_eq!(tile_from_json(&older).layer, "interior");
    assert_eq!(extract_content(&obj(vec![("content", Json::Null)])), (String::new(), String::new()));
}

#[test]
fn map_fetch_pages_until_last() {
    let mut game = GameState::new();
    let mut fetch = MapFetch::new();
    assert_eq!(fetch.url("https://api.artifactsmmo.com"), "https://api.artifactsmmo.com/maps?page=1&size=10000");
    let page1 = obj(vec![("data", obj(vec![("items", Json::Array(vec![tile(0, 0, 1), tile(1, 0, 2)])), ("pages", n(2))]))]);
    assert!(fetch.on_page(&mut game, page1));
    assert_eq!(fetch.page, 2);
    assert_eq!(fetch.total_fetched, 2);
    let page2 = obj(vec![("data", obj(vec![("items", Json::Array(vec![tile(2, 0, 3)])), ("pages", n(2))]))]);
    assert!(!fetch.on_page(&mut game, page2));
    assert_eq!(fetch.page, 2);
    assert_eq!(fetch.total_fetched, 3);
    assert_eq!(game.map_tiles.len(), 3);
    assert_eq!(game.layer_of(3), "overworld");
}

#[test]
fn map_fetch_stops_on_empty_page() {
    let mut game = GameState::new();
    let mut fetch = MapFetch::new();
    let empty = obj(vec![("data", obj(vec![("items", Json::Array(vec![])), ("pages", n(9))]))]);
    assert!(!fetch.on_page(&mut game, empty));
    assert_eq!(fetch.page, 1);
}

#[test]
fn character_list_response() {
    let body = obj(vec![(
        "data",
        Json::Array(vec![
            obj(vec![("name", s("Alice")), ("account", s("me")), ("level", n(9)), ("mining_level", n(4)), ("weapon_slot", s("wooden_stick"))]),
            obj(vec![("level", n(1))]),
        ]),
    )]);
    let cs = characters_from_response(&body).unwrap();
    assert_eq!(cs.len(), 1);
    assert_eq!(cs[0].name, "Alice");
    assert_eq!(cs[0].account, "me");
    assert_eq!(cs[0].level, 9);
    assert_eq!(cs[0].mining.level, 4);
    assert_eq!(cs[0].weapon_slot, "wooden_stick");
    match characters_action(&body) {
        Some(Action::CharactersFetched(v)) => assert_eq!(v.len(), 1),
        other => panic!("unexpected {:?}", other),
    }
    assert!(characters_from_response(&obj(vec![])).is_none());
    assert!(characters_action(&obj(vec![("data", Json::Array(vec![]))])).is_none());
}

#[test]
fn bot_character_applies_detail() {
    let c = bot_character("bot1", &obj(vec![("hp", n(50)), ("max_hp", n(60)), ("skin", s("men2"))]));
    assert_eq!(c.name, "bot1");
    assert_eq!((c.hp, c.max_hp), (50, 60));
    assert_eq!(c.skin, "men2");
}

#[test]
fn sort_demand_is_stable_and_descending() {
    let v = vec![
        ("a".to_string(), 3u32),
        ("b".to_string(), 10),
        ("c".to_string(), 3),
        ("d".to_string(), 7),
    ];
    let sorted = sort_demand(v);
    let codes: Vec<&str> = sorted.iter().map(|(c, _)| c.as_str()).collect();
    assert_eq!(codes, vec!["b", "d", "a", "c"]);
    assert!(sort_demand(vec![]).is_empty());
}

#[test]
fn auth_message_quotes_token() {
    assert_eq!(auth_message("abc"), "{\"token\":\"abc\"}");
    assert_eq!(auth_message("a\"b"), "{\"token\":\"a\\\"b\"}");
}

#[test]
fn ws_link_connects_and_listens() {
    let mut link = WsLink::new();
    assert_eq!(link.phase, WsPhase::Idle);
    let (acts, cmd) = link.step(WsEvent::Proceed);
    assert!(matches!(acts.as_slice(), [Action::WsConnect]));
    assert_eq!(cmd, WsCommand::Connect);
    let (acts, cmd) = link.step(WsEvent::Connected);
    assert!(acts.is_empty());
    assert_eq!(cmd, WsCommand::Authenticate);
    let (acts, cmd) = link.step(WsEvent::AuthSent);
    assert!(matches!(acts.as_slice(), [Action::WsConnected]));
    assert_eq!(cmd, WsCommand::Listen);
    assert_eq!(link.phase, WsPhase::Listening);
}

#[test]
fn ws_link_decodes_text_messages() {
    let mut link = WsLink::new();
    link.step(WsEvent::Proceed);
    link.step(WsEvent::Connected);
    link.step(WsEvent::AuthSent);
    let raw = r#"{"type":"event_removed","data":{"code":"portal"}}"#;
    let (acts, cmd) = link.step(WsEvent::Text(raw.to_string()));
    assert_eq!(cmd, WsCommand::Listen);
    assert_eq!(acts.len(), 2);
    assert!(matches!(&acts[0], Action::RawWsMessage(m) if m == raw));
    assert!(matches!(&acts[1], Action::EventRemoved(c) if c == "portal"));
    let (acts, _) = link.step(WsEvent::Text("junk".to_string()));
    assert_eq!(acts.len(), 1);
    assert!(matches!(&acts[0], Action::RawWsMessage(m) if m == "junk"));
}

#[test]
fn ws_link_reconnects_after_drop_and_stops_on_cancel() {
    let mut link = WsLink::new();
    link.step(WsEvent::Proceed);
    let (acts, cmd) = link.step(WsEvent::ConnectFailed);
    assert!(matches!(&acts[..], [Action::WsDisconnected(m)] if m == "connection lost"));
    assert_eq!(cmd, WsCommand::Sleep);
    assert_eq!(link.phase, WsPhase::Waiting);
    let (_, cmd) = link.step(WsEvent::Cancelled);
    assert_eq!(cmd, WsCommand::Stop);
    assert_eq!(link.phase, WsPhase::Stopped);
}

#[test]
fn ws_link_auth_failure_restarts_and_cancel_closes() {
    let mut link = WsLink::new();
    link.step(WsEvent::Proceed);
    link.step(WsEvent::Connected);
    let (acts, cmd) = link.step(WsEvent::AuthFailed);
    assert!(matches!(&acts[..], [Action::WsDisconnected(m)] if m == "auth failed"));
    assert_eq!(cmd, WsCommand::Restart);
    link.step(WsEvent::Proceed);
    link.step(WsEvent::Connected);
    link.step(WsEvent::AuthSent);
    let (acts, cmd) = link.step(WsEvent::Cancelled);
    assert!(acts.is_empty());
    assert_eq!(cmd, WsCommand::Close);
}

#[test]
fn bot_server_addresses() {
    let base = "http://localhost:8090/";
    assert_eq!(bots_url(base), "http://localhost:8090/bots");
    assert_eq!(bot_url(base, "bot1"), "http://localhost:8090/bots/bot1");
    assert_eq!(bot_control_url(base, "bot1", BotControl::Pause), "http://localhost:8090/bots/bot1/pause");
    assert_eq!(bot_control_url(base, "bot1", BotControl::Resume), "http://localhost:8090/bots/bot1/resume");
    assert_eq!(bot_control_url(base, "bot1", BotControl::Rest), "http://localhost:8090/bots/bot1/rest");
    assert_eq!(command_url(base), "http://localhost:8090/command");
    assert_eq!(demand_url(base), "http://localhost:8090/swarm/demand");
    assert_eq!(bank_url(base), "http://localhost:8090/bank");
    assert_eq!(demand_ignore_url(base), "http://localhost:8090/demand/ignore");
}

#[test]
fn demand_ignore_body_quotes_code() {
    assert_eq!(demand_ignore_body("copper_ore"), "{\"item_code\":\"copper_ore\"}");
    assert_eq!(demand_ignore_body("a\\b"), "{\"item_code\":\"a\\\\b\"}");
    assert_eq!(demand_ignore_body("\u{1}é/"), "{\"item_code\":\"\\u0001é/\"}");
    assert_eq!(auth_message("a\nb\tc\u{1f}"), "{\"token\":\"a\\nb\\tc\\u001f\"}");
}
