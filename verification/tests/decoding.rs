use sentient_tui::action::Action;
use sentient_tui::json::{get_i64, get_str, get_u64, json_str, Json, JsonNumber};
use sentient_tui::notify::{
    decode_notification, notification_action, parse_account_log, parse_ge_order, parse_ge_transaction,
    parse_online_characters, parse_world_event,
};

fn s(t: &str) -> Json {
    Json::String(t.to_string())
}

fn n(v: u64) -> Json {
    Json::Number(JsonNumber::PosInt(v))
}

fn obj(members: Vec<(&str, Json)>) -> Json {
    Json::Object(members.into_iter().map(|(k, v)| (k.to_string(), v)).collect())
}

fn note(kind: &str, data: Json) -> Json {
    obj(vec![("type", s(kind)), ("data", data)])
}

#[test]
fn json_lookups() {
    let v = obj(vec![
        ("name", s("Alice")),
        ("level", n(12)),
        ("x", Json::Number(JsonNumber::NegInt(-3))),
        ("ratio", Json::Number(JsonNumber::Float("0.5".to_string()))),
    ]);
    assert_eq!(get_str(&v, "name"), Some("Alice"));
    assert_eq!(get_u64(&v, "level"), Some(12));
    assert_eq!(get_i64(&v, "level"), Some(12));
    assert_eq!(get_i64(&v, "x"), Some(-3));
    assert_eq!(get_u64(&v, "x"), None);
    assert_eq!(get_u64(&v, "ratio"), None);
    assert_eq!(get_str(&v, "missing"), None);
    assert_eq!(json_str(&v, "name"), "Alice");
    assert_eq!(json_str(&v, "level"), "");
    assert!(v.get("level").is_some());
    assert!(v.is_object());
    assert!(!Json::Null.is_object());
}

#[test]
fn account_log_payload_fields() {
    let data = obj(vec![
        ("character", s("Alice")),
        ("account", s("me")),
        ("type", s("gathering")),
        ("description", s("Mined 3 copper ore")),
        ("cooldown", n(25)),
        ("content", obj(vec![("character", obj(vec![("hp", n(5))]))])),
    ]);
    let e = parse_account_log(data).unwrap();
    assert_eq!(e.character, "Alice");
    assert_eq!(e.account, "me");
    assert_eq!(e.log_type, "gathering");
    assert_eq!(e.description, "Mined 3 copper ore");
    assert_eq!(e.cooldown, 25);
    assert!(e.character_node().is_some());
}

#[test]
fn account_log_missing_members_default() {
    let e = parse_account_log(obj(vec![])).unwrap();
    assert_eq!(e.character, "");
    assert_eq!(e.cooldown, 0);
    assert!(matches!(e.content, Json::Null));
    assert!(e.character_node().is_none());
}

#[test]
fn online_characters_bare_array_and_envelope() {
    let list = Json::Array(vec![
        obj(vec![("name", s("Alice")), ("x", n(1)), ("y", Json::Number(JsonNumber::NegInt(-2))), ("skin", s("men1"))]),
        obj(vec![("x", n(5))]),
        obj(vec![("name", s("Bob"))]),
    ]);
    let bare = parse_online_characters(&list);
    assert_eq!(bare.len(), 2);
    assert_eq!(bare[0].name, "Alice");
    assert_eq!((bare[0].x, bare[0].y), (1, -2));
    assert_eq!(bare[0].skin, "men1");
    assert_eq!(bare[1].name, "Bob");
    let wrapped = parse_online_characters(&obj(vec![("items", list)]));
    assert_eq!(wrapped.len(), 2);
    assert!(parse_online_characters(&s("nothing")).is_empty());
}

#[test]
fn world_event_needs_a_name() {
    let e = parse_world_event(&obj(vec![
        ("name", s("Bandit Camp")),
        ("code", s("bandit_camp")),
        ("expiration", s("2025-01-01T10:00:00Z")),
    ]))
    .unwrap();
    assert_eq!(e.name, "Bandit Camp");
    assert_eq!(e.code, "bandit_camp");
    assert_eq!(e.expiration, "2025-01-01T10:00:00Z");
    assert!(parse_world_event(&obj(vec![("code", s("x"))])).is_none());
}

#[test]
fn ge_order_payload() {
    let o = parse_ge_order(
        &obj(vec![("code", s("copper_ore")), ("quantity", n(5)), ("price", n(12)), ("account", s("trader"))]),
        "sell",
    )
    .unwrap();
    assert_eq!(o.order_type, "sell");
    assert_eq!(o.code, "copper_ore");
    assert_eq!((o.quantity, o.price), (5, 12));
    assert_eq!(o.account, Some("trader".to_string()));
    let anon = parse_ge_order(&obj(vec![("code", s("egg")), ("account", s(""))]), "buy").unwrap();
    assert_eq!(anon.account, None);
    assert_eq!((anon.quantity, anon.price), (0, 0));
    assert!(parse_ge_order(&obj(vec![("quantity", n(1))]), "buy").is_none());
}

#[test]
fn ge_transaction_prefers_total_price() {
    let t = parse_ge_transaction(
        &obj(vec![("code", s("egg")), ("quantity", n(2)), ("price", n(10)), ("total_price", n(20))]),
        "buy",
    )
    .unwrap();
    assert_eq!(t.total_price, 20);
    let u = parse_ge_transaction(&obj(vec![("code", s("egg")), ("price", n(10))]), "sell").unwrap();
    assert_eq!(u.total_price, 10);
    assert_eq!(u.order_type, "sell");
    let w = parse_ge_transaction(&obj(vec![("code", s("egg")), ("total_price", s("many")), ("price", n(10))]), "sell")
        .unwrap();
    assert_eq!(w.total_price, 0);
}

#[test]
fn notification_account_log() {
    let v = note("account_log", obj(vec![("character", s("Alice")), ("type", s("rest"))]));
    match notification_action("{...}", v) {
        Some(Action::AccountLog(e)) => {
            assert_eq!(e.character, "Alice");
            assert_eq!(e.log_type, "rest");
        },
        other => panic!("unexpected {:?}", other),
    }
}

#[test]
fn notification_ge_orders_and_sales() {
    match notification_action("", note("grandexchange_buy_order", obj(vec![("code", s("egg")), ("price", n(3))]))) {
        Some(Action::GEOrderCreated(o)) => {
            assert_eq!(o.order_type, "buy");
            assert_eq!(o.price, 3);
        },
        other => panic!("unexpected {:?}", other),
    }
    match notification_action("", note("grandexchange_sell", obj(vec![("code", s("egg")), ("quantity", n(4))]))) {
        Some(Action::GETransactionCompleted(t)) => {
            assert_eq!(t.order_type, "sell");
            assert_eq!(t.quantity, 4);
        },
        other => panic!("unexpected {:?}", other),
    }
    assert!(notification_action("", note("grandexchange_sell_order", obj(vec![]))).is_none());
}

#[test]
fn notification_events() {
    match notification_action("", note("event_removed", obj(vec![("code", s("portal"))]))) {
        Some(Action::EventRemoved(c)) => assert_eq!(c, "portal"),
        other => panic!("unexpected {:?}", other),
    }
    match notification_action("", note("event_spawn", obj(vec![("name", s("Portal")), ("code", s("portal"))]))) {
        Some(Action::EventSpawn(e)) => assert_eq!(e.code, "portal"),
        other => panic!("unexpected {:?}", other),
    }
    assert!(notification_action("", note("event_spawn", obj(vec![]))).is_none());
}

#[test]
fn notification_achievement_names() {
    let nested = note(
        "achievement_unlocked",
        obj(vec![("character", s("Alice")), ("achievement", obj(vec![("name", s("First Blood"))])), ("name", s("x"))]),
    );
    match notification_action("", nested) {
        Some(Action::AchievementUnlocked { character, achievement_name }) => {
            assert_eq!(character, "Alice");
            assert_eq!(achievement_name, "First Blood");
        },
        other => panic!("unexpected {:?}", other),
    }
    match notification_action("", note("achievement_unlocked", obj(vec![("name", s("Top"))]))) {
        Some(Action::AchievementUnlocked { achievement_name, .. }) => assert_eq!(achievement_name, "Top"),
        other => panic!("unexpected {:?}", other),
    }
    match notification_action("", note("achievement_unlocked", obj(vec![]))) {
        Some(Action::AchievementUnlocked { achievement_name, .. }) => {
            assert_eq!(achievement_name, "unknown achievement")
        },
        other => panic!("unexpected {:?}", other),
    }
}

#[test]
fn notification_announcement_text() {
    match notification_action("raw text", note("announcement", obj(vec![("text", s("Server restart"))]))) {
        Some(Action::Announcement(t)) => assert_eq!(t, "Server restart"),
        other => panic!("unexpected {:?}", other),
    }
    match notification_action("raw text", note("announcement", obj(vec![("message", n(1))]))) {
        Some(Action::Announcement(t)) => assert_eq!(t, "raw text"),
        other => panic!("unexpected {:?}", other),
    }
}

#[test]
fn notification_unknown_or_untyped() {
    assert!(notification_action("", note("weather", obj(vec![]))).is_none());
    assert!(notification_action("", obj(vec![("data", obj(vec![]))])).is_none());
    assert!(notification_action("", note("online_characters", Json::Array(vec![]))).is_none());
    match notification_action("", note("online_characters", Json::Array(vec![obj(vec![("name", s("A"))])]))) {
        Some(Action::OnlineCharacters(cs)) => assert_eq!(cs.len(), 1),
        other => panic!("unexpected {:?}", other),
    }
}

#[test]
fn notifications_decode_from_text() {
    match decode_notification(r#"{"type":"event_spawn","data":{"name":"Portal","code":"portal","expiration":"soon"}}"#) {
        Some(Action::EventSpawn(e)) => {
            assert_eq!((e.name.as_str(), e.code.as_str(), e.expiration.as_str()), ("Portal", "portal", "soon"));
        }
        other => panic!("unexpected {:?}", other),
    }
    let raw = r#"{"type":"announcement","data":{"message":7}}"#;
    match decode_notification(raw) {
        Some(Action::Announcement(t)) => assert_eq!(t, raw),
        other => panic!("unexpected {:?}", other),
    }
    match decode_notification(r#"{"type":"account_log","data":{"character":"Alice","type":"fight","description":"won","cooldown":-2,"content":{"ratio":0.5,"items":[1,2]}}}"#) {
        Some(Action::AccountLog(e)) => {
            assert_eq!(e.character, "Alice");
            assert_eq!(e.cooldown, -2);
            assert_eq!(get_str(&e.content, "missing"), None);
            match &e.content {
                Json::Object(m) => {
                    assert_eq!(m.len(), 2);
                    assert_eq!(m[0].0, "items");
                    assert!(matches!(&m[0].1, Json::Array(a) if a.len() == 2));
                    assert_eq!(m[1].0, "ratio");
                    assert!(matches!(&m[1].1, Json::Number(JsonNumber::Float(t)) if t == "0.5"));
                }
                other => panic!("unexpected content {:?}", other),
            }
        }
        other => panic!("unexpected {:?}", other),
    }
    assert!(decode_notification(r#"{"type":"version","data":{}}"#).is_none());
    assert!(decode_notification(r#"{"data":{}}"#).is_none());
    assert!(decode_notification("not json").is_none());
}
