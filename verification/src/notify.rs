//! Decoding of realtime notifications into actions.

use vstd::prelude::*;

use crate::action::Action;
use crate::apply::{reads_i32, reads_text, reads_u32};
use crate::game::{
    AccountLogEntry, CharacterState, CharacterView, GEOrder, GETransaction, WorldEvent,
};
use crate::json::{
    field_i64, field_text, field_u64, get_i64, get_str, get_u64, json_str, parse_json, parsed_json,
    text_or_empty, Json,
};
use crate::text::same_text;

verus! {

/// Member `key` as a signed integer cut to 32 bits, zero when missing.
pub open spec fn i32_or_zero(v: Json, key: Seq<char>) -> i32 {
    match field_i64(v, key) {
        Some(i) => i as i32,
        None => 0,
    }
}

/// Member `key` as an unsigned integer cut to 32 bits, zero when missing.
pub open spec fn u32_or_zero(v: Json, key: Seq<char>) -> u32 {
    match field_u64(v, key) {
        Some(u) => u as u32,
        None => 0,
    }
}

/// Whether `e` is the account log entry carried by `data`: its character,
/// account, type, description, cooldown and content members (absent texts
/// read as empty, an absent cooldown as 0, an absent content as null).
pub open spec fn is_account_log_of(e: AccountLogEntry, data: Json) -> bool {
    &&& e.character@ == text_or_empty(data, "character"@)
    &&& e.account@ == text_or_empty(data, "account"@)
    &&& e.log_type@ == text_or_empty(data, "type"@)
    &&& e.description@ == text_or_empty(data, "description"@)
    &&& e.cooldown == i32_or_zero(data, "cooldown"@)
    &&& e.content == match data.field("content"@) {
        Some(c) => c,
        None => Json::Null,
    }
}

/// Parses the payload of an `account_log` notification.
pub fn parse_account_log(data: Json) -> (r: Option<AccountLogEntry>)
    ensures
        r matches Some(e) && is_account_log_of(e, data),
{
    let character = json_str(&data, "character");
    let account = json_str(&data, "account");
    let log_type = json_str(&data, "type");
    let description = json_str(&data, "description");
    let cooldown: i32 = match get_i64(&data, "cooldown") {
        Some(v) => v as i32,
        None => 0,
    };
    let ghost d = data;
    let content = match data.into_member("content") {
        Some(c) => c,
        None => Json::Null,
    };
    Some(AccountLogEntry { character, account, log_type, description, cooldown, content })
}

/// The character list of an `online_characters` payload: the `items` array
/// of a paginated envelope, or the payload itself when it is an array.
pub open spec fn online_list(data: Json) -> Seq<Json> {
    match data.field("items"@) {
        Some(m) if m is Array => m->Array_0@,
        _ => match data {
            Json::Array(a) => a@,
            _ => Seq::empty(),
        },
    }
}

/// The position snapshot of one online character: name, account, skin and
/// coordinates over the initial state.
pub open spec fn online_character(c: Json) -> CharacterView {
    CharacterView {
        name: text_or_empty(c, "name"@),
        account: text_or_empty(c, "account"@),
        skin: text_or_empty(c, "skin"@),
        x: i32_or_zero(c, "x"@),
        y: i32_or_zero(c, "y"@),
        ..CharacterView::initial()
    }
}

/// The characters of a list, skipping those without a name.
pub open spec fn online_characters_of(a: Seq<Json>) -> Seq<CharacterView>
    decreases a.len(),
{
    if a.len() == 0 {
        Seq::empty()
    } else {
        let rest = online_characters_of(a.drop_last());
        if text_or_empty(a.last(), "name"@).len() == 0 {
            rest
        } else {
            rest.push(online_character(a.last()))
        }
    }
}

/// The views of a list of characters.
pub open spec fn characters_view(v: Seq<CharacterState>) -> Seq<CharacterView> {
    v.map_values(|c: CharacterState| c@)
}

fn i32_member_or_zero(v: &Json, key: &str) -> (r: i32)
    ensures
        r == i32_or_zero(*v, key@),
{
    match get_i64(v, key) {
        Some(i) => i as i32,
        None => 0,
    }
}

fn u32_member_or_zero(v: &Json, key: &str) -> (r: u32)
    ensures
        r == u32_or_zero(*v, key@),
{
    match get_u64(v, key) {
        Some(u) => u as u32,
        None => 0,
    }
}

/// Parses the character positions of an `online_characters` payload
/// (a bare array or a paginated `{"items": [...]}` envelope).
pub fn parse_online_characters(data: &Json) -> (r: Vec<CharacterState>)
    ensures
        characters_view(r@) == online_characters_of(online_list(*data)),
{
    let arr: &Vec<Json> = match data.get("items") {
        Some(m) => match m {
            Json::Array(a) => a,
            _ => match data {
                Json::Array(a) => a,
                _ => {
                    return Vec::new();
                },
            },
        },
        None => match data {
            Json::Array(a) => a,
            _ => {
                return Vec::new();
            },
        },
    };
    let mut r: Vec<CharacterState> = Vec::new();
    let mut i: usize = 0;
    while i < arr.len()
        invariant
            i <= arr@.len(),
            arr@ == online_list(*data),
            characters_view(r@) == online_characters_of(arr@.take(i as int)),
        decreases arr.len() - i,
    {
        let c = &arr[i];
        assert(arr@.take(i + 1).drop_last() =~= arr@.take(i as int));
        assert(arr@.take(i + 1).last() == arr@[i as int]);
        let name = json_str(c, "name");
        if !name.as_str().is_empty() {
            let mut ch = CharacterState::default();
            ch.name = name;
            ch.account = json_str(c, "account");
            ch.skin = json_str(c, "skin");
            ch.x = i32_member_or_zero(c, "x");
            ch.y = i32_member_or_zero(c, "y");
            let ghost before = r@;
            assert(ch@ =~~= online_character(arr@[i as int]));
            r.push(ch);
            assert(characters_view(r@) =~= characters_view(before).push(ch@));
        }
        i = i + 1;
    }
    assert(arr@.take(arr@.len() as int) =~= arr@);
    r
}

/// Parses the payload of an `event_spawn` notification; `None` without a
/// name.
pub fn parse_world_event(data: &Json) -> (r: Option<WorldEvent>)
    ensures
        text_or_empty(*data, "name"@).len() == 0 ==> r is None,
        text_or_empty(*data, "name"@).len() > 0 ==> (r matches Some(e) && e.name@ == text_or_empty(
            *data,
            "name"@,
        ) && e.code@ == text_or_empty(*data, "code"@) && e.expiration@ == text_or_empty(
            *data,
            "expiration"@,
        )),
{
    let name = json_str(data, "name");
    if name.as_str().is_empty() {
        return None;
    }
    let expiration = json_str(data, "expiration");
    Some(WorldEvent { name, code: json_str(data, "code"), expiration })
}

/// Whether `r` is the account of a Grand Exchange order payload: present
/// exactly when member `account` is a non-empty string.
pub open spec fn order_account(data: Json, r: Option<String>) -> bool {
    match field_text(data, "account"@) {
        Some(t) => if t.len() > 0 {
            r matches Some(a) && a@ == t
        } else {
            r is None
        },
        None => r is None,
    }
}

/// Parses a Grand Exchange order payload; `None` without an item code.
pub fn parse_ge_order(data: &Json, order_type: &str) -> (r: Option<GEOrder>)
    ensures
        text_or_empty(*data, "code"@).len() == 0 ==> r is None,
        text_or_empty(*data, "code"@).len() > 0 ==> (r matches Some(o) && o.order_type@
            == order_type@ && o.code@ == text_or_empty(*data, "code"@) && o.quantity
            == u32_or_zero(*data, "quantity"@) && o.price == u32_or_zero(*data, "price"@)
            && order_account(*data, o.account)),
{
    let code = json_str(data, "code");
    if code.as_str().is_empty() {
        return None;
    }
    let account = match get_str(data, "account") {
        Some(t) => if t.is_empty() {
            None
        } else {
            Some(String::from_str(t))
        },
        None => None,
    };
    Some(
        GEOrder {
            order_type: String::from_str(order_type),
            code,
            quantity: u32_member_or_zero(data, "quantity"),
            price: u32_member_or_zero(data, "price"),
            account,
        },
    )
}

/// The total price of a transaction payload: member `total_price` when
/// present, else member `price`, read as an unsigned integer (zero when not
/// one) and cut to 32 bits.
pub open spec fn transaction_total(data: Json) -> u32 {
    let v = match data.field("total_price"@) {
        Some(m) => m.u64_value(),
        None => field_u64(data, "price"@),
    };
    match v {
        Some(u) => u as u32,
        None => 0,
    }
}

/// Parses a Grand Exchange transaction payload; `None` without an item
/// code.
pub fn parse_ge_transaction(data: &Json, order_type: &str) -> (r: Option<GETransaction>)
    ensures
        text_or_empty(*data, "code"@).len() == 0 ==> r is None,
        text_or_empty(*data, "code"@).len() > 0 ==> (r matches Some(t) && t.order_type@
            == order_type@ && t.code@ == text_or_empty(*data, "code"@) && t.quantity
            == u32_or_zero(*data, "quantity"@) && t.total_price == transaction_total(*data)),
{
    let code = json_str(data, "code");
    if code.as_str().is_empty() {
        return None;
    }
    let total = match data.get("total_price") {
        Some(m) => m.as_u64(),
        None => get_u64(data, "price"),
    };
    let total_price: u32 = match total {
        Some(u) => u as u32,
        None => 0,
    };
    Some(
        GETransaction {
            order_type: String::from_str(order_type),
            code,
            quantity: u32_member_or_zero(data, "quantity"),
            total_price,
        },
    )
}

/// The achievement name of an `achievement_unlocked` payload: the `name`
/// of its `achievement` object, else its own `name`, else
/// "unknown achievement".
pub open spec fn achievement_name_of(data: Json) -> Seq<char> {
    let nested = match data.field("achievement"@) {
        Some(a) => field_text(a, "name"@),
        None => None,
    };
    match nested {
        Some(t) => t,
        None => match field_text(data, "name"@) {
            Some(t) => t,
            None => "unknown achievement"@,
        },
    }
}

/// The text of an `announcement` payload: the first present member among
/// `message`, `text` and `content` when it is a string, else the raw
/// message.
pub open spec fn announcement_text_of(data: Json, raw: Seq<char>) -> Seq<char> {
    let m = match data.field("message"@) {
        Some(v) => Some(v),
        None => match data.field("text"@) {
            Some(v) => Some(v),
            None => data.field("content"@),
        },
    };
    match m {
        Some(v) => match v.text() {
            Some(t) => t,
            None => raw,
        },
        None => raw,
    }
}

/// The `data` member of a notification, null when missing.
pub open spec fn payload_of(value: Json) -> Json {
    match value.field("data"@) {
        Some(d) => d,
        None => Json::Null,
    }
}

/// Whether `r` is the action that the notification `value` (received as
/// the text `raw`) stands for.
pub open spec fn decodes_to(value: Json, raw: Seq<char>, r: Option<Action>) -> bool {
    let data = payload_of(value);
    match field_text(value, "type"@) {
        None => r is None,
        Some(t) => if t == "account_log"@ {
            r matches Some(Action::AccountLog(e)) && is_account_log_of(e, data)
        } else if t == "online_characters"@ {
            if online_characters_of(online_list(data)).len() == 0 {
                r is None
            } else {
                r matches Some(Action::OnlineCharacters(cs)) && characters_view(cs@)
                    == online_characters_of(online_list(data))
            }
        } else if t == "event_spawn"@ {
            if text_or_empty(data, "name"@).len() == 0 {
                r is None
            } else {
                r matches Some(Action::EventSpawn(e)) && e.name@ == text_or_empty(data, "name"@)
                    && e.code@ == text_or_empty(data, "code"@) && e.expiration@ == text_or_empty(
                    data,
                    "expiration"@,
                )
            }
        } else if t == "event_removed"@ {
            r matches Some(Action::EventRemoved(c)) && c@ == text_or_empty(data, "code"@)
        } else if t == "grandexchange_sell_order"@ || t == "grandexchange_buy_order"@ {
            if text_or_empty(data, "code"@).len() == 0 {
                r is None
            } else {
                r matches Some(Action::GEOrderCreated(o)) && o.order_type@ == (if t
                    == "grandexchange_sell_order"@ {
                    "sell"@
                } else {
                    "buy"@
                }) && o.code@ == text_or_empty(data, "code"@) && o.quantity == u32_or_zero(
                    data,
                    "quantity"@,
                ) && o.price == u32_or_zero(data, "price"@) && order_account(data, o.account)
            }
        } else if t == "grandexchange_sell"@ || t == "grandexchange_buy"@ {
            if text_or_empty(data, "code"@).len() == 0 {
                r is None
            } else {
                r matches Some(Action::GETransactionCompleted(x)) && x.order_type@ == (if t
                    == "grandexchange_sell"@ {
                    "sell"@
                } else {
                    "buy"@
                }) && x.code@ == text_or_empty(data, "code"@) && x.quantity == u32_or_zero(
                    data,
                    "quantity"@,
                ) && x.total_price == transaction_total(data)
            }
        } else if t == "achievement_unlocked"@ {
            r matches Some(Action::AchievementUnlocked { character, achievement_name })
                && character@ == text_or_empty(data, "character"@) && achievement_name@
                == achievement_name_of(data)
        } else if t == "announcement"@ {
            r matches Some(Action::Announcement(text)) && text@ == announcement_text_of(data, raw)
        } else {
            r is None
        },
    }
}

/// A notification decodes from the members of its own names: the kind is
/// the string member `type` (no action without one), and each action's
/// fields are read from the member of the same name in `data` (null when
/// missing): an account log's character, account, type, description and
/// cooldown; a spawned event's name, code and expiration (none without a
/// name); a removed event's code; an order's code, quantity and price and a
/// transaction's code, quantity and total (`total_price`, else `price`),
/// the side being `sell` or `buy` as the kind says (none without a code);
/// and an achievement's character.
pub proof fn notification_members_law(value: Json, raw: Seq<char>, r: Option<Action>)
    requires
        decodes_to(value, raw, r),
    ensures
        ({
            let d = match value.field("data"@) {
                Some(x) => x,
                None => Json::Null,
            };
            let t = field_text(value, "type"@);
            &&& t is None ==> r is None
            &&& t == Some("account_log"@) ==> (r matches Some(Action::AccountLog(e))
                && reads_text(e.character@, Seq::empty(), d, "character"@)
                && reads_text(e.account@, Seq::empty(), d, "account"@)
                && reads_text(e.log_type@, Seq::empty(), d, "type"@)
                && reads_text(e.description@, Seq::empty(), d, "description"@)
                && reads_i32(e.cooldown, 0, d, "cooldown"@))
            &&& t == Some("event_spawn"@) ==> (r is None <==> text_or_empty(d, "name"@).len() == 0)
            &&& t == Some("event_spawn"@) && r is Some ==> (r matches Some(Action::EventSpawn(e))
                && reads_text(e.name@, Seq::empty(), d, "name"@)
                && reads_text(e.code@, Seq::empty(), d, "code"@)
                && reads_text(e.expiration@, Seq::empty(), d, "expiration"@))
            &&& t == Some("event_removed"@) ==> (r matches Some(Action::EventRemoved(c))
                && reads_text(c@, Seq::empty(), d, "code"@))
            &&& (t == Some("grandexchange_sell_order"@) || t == Some("grandexchange_buy_order"@))
                ==> (r is None <==> text_or_empty(d, "code"@).len() == 0)
            &&& (t == Some("grandexchange_sell_order"@) || t == Some("grandexchange_buy_order"@))
                && r is Some ==> (r matches Some(Action::GEOrderCreated(o))
                && o.order_type@ == (if t == Some("grandexchange_sell_order"@) { "sell"@ } else { "buy"@ })
                && reads_text(o.code@, Seq::empty(), d, "code"@)
                && reads_u32(o.quantity, 0, d, "quantity"@)
                && reads_u32(o.price, 0, d, "price"@))
            &&& (t == Some("grandexchange_sell"@) || t == Some("grandexchange_buy"@))
                ==> (r is None <==> text_or_empty(d, "code"@).len() == 0)
            &&& (t == Some("grandexchange_sell"@) || t == Some("grandexchange_buy"@)) && r is Some
                ==> (r matches Some(Action::GETransactionCompleted(x))
                && x.order_type@ == (if t == Some("grandexchange_sell"@) { "sell"@ } else { "buy"@ })
                && reads_text(x.code@, Seq::empty(), d, "code"@)
                && reads_u32(x.quantity, 0, d, "quantity"@)
                && (d.field("total_price"@) is Some ==> reads_u32(x.total_price, 0, d, "total_price"@))
                && (d.field("total_price"@) is None ==> reads_u32(x.total_price, 0, d, "price"@)))
            &&& t == Some("achievement_unlocked"@) ==> (r matches Some(Action::AchievementUnlocked { character, .. })
                && reads_text(character@, Seq::empty(), d, "character"@))
        }),
{
    reveal_strlit("account_log");
    reveal_strlit("online_characters");
    reveal_strlit("event_spawn");
    reveal_strlit("event_removed");
    reveal_strlit("grandexchange_sell_order");
    reveal_strlit("grandexchange_buy_order");
    reveal_strlit("grandexchange_sell");
    reveal_strlit("grandexchange_buy");
    reveal_strlit("achievement_unlocked");
    reveal_strlit("announcement");
    reveal_strlit("sell");
    reveal_strlit("buy");
    reveal_strlit("type");
    reveal_strlit("data");
    assert("online_characters"@.len() != "account_log"@.len());
    assert("online_characters"@ != "account_log"@);
    assert("event_spawn"@[0] != "account_log"@[0]);
    assert("event_spawn"@ != "account_log"@);
    assert("event_spawn"@.len() != "online_characters"@.len());
    assert("event_spawn"@ != "online_characters"@);
    assert("event_removed"@.len() != "account_log"@.len());
    assert("event_removed"@ != "account_log"@);
    assert("event_removed"@.len() != "online_characters"@.len());
    assert("event_removed"@ != "online_characters"@);
    assert("event_removed"@.len() != "event_spawn"@.len());
    assert("event_removed"@ != "event_spawn"@);
    assert("grandexchange_sell_order"@.len() != "account_log"@.len());
    assert("grandexchange_sell_order"@ != "account_log"@);
    assert("grandexchange_sell_order"@.len() != "online_characters"@.len());
    assert("grandexchange_sell_order"@ != "online_characters"@);
    assert("grandexchange_sell_order"@.len() != "event_spawn"@.len());
    assert("grandexchange_sell_order"@ != "event_spawn"@);
    assert("grandexchange_sell_order"@.len() != "event_removed"@.len());
    assert("grandexchange_sell_order"@ != "event_removed"@);
    assert("grandexchange_buy_order"@.len() != "account_log"@.len());
    assert("grandexchange_buy_order"@ != "account_log"@);
    assert("grandexchange_buy_order"@.len() != "online_characters"@.len());
    assert("grandexchange_buy_order"@ != "online_characters"@);
    assert("grandexchange_buy_order"@.len() != "event_spawn"@.len());
    assert("grandexchange_buy_order"@ != "event_spawn"@);
    assert("grandexchange_buy_order"@.len() != "event_removed"@.len());
    assert("grandexchange_buy_order"@ != "event_removed"@);
    assert("grandexchange_buy_order"@.len() != "grandexchange_sell_order"@.len());
    assert("grandexchange_buy_order"@ != "grandexchange_sell_order"@);
    assert("grandexchange_sell"@.len() != "account_log"@.len());
    assert("grandexchange_sell"@ != "account_log"@);
    assert("grandexchange_sell"@.len() != "online_characters"@.len());
    assert("grandexchange_sell"@ != "online_characters"@);
    assert("grandexchange_sell"@.len() != "event_spawn"@.len());
    assert("grandexchange_sell"@ != "event_spawn"@);
    assert("grandexchange_sell"@.len() != "event_removed"@.len());
    assert("grandexchange_sell"@ != "event_removed"@);
    assert("grandexchange_sell"@.len() != "grandexchange_sell_order"@.len());
    assert("grandexchange_sell"@ != "grandexchange_sell_order"@);
    assert("grandexchange_sell"@.len() != "grandexchange_buy_order"@.len());
    assert("grandexchange_sell"@ != "grandexchange_buy_order"@);
    assert("grandexchange_buy"@.len() != "account_log"@.len());
    assert("grandexchange_buy"@ != "account_log"@);
    assert("grandexchange_buy"@[0] != "online_characters"@[0]);
    assert("grandexchange_buy"@ != "online_characters"@);
    assert("grandexchange_buy"@.len() != "event_spawn"@.len());
    assert("grandexchange_buy"@ != "event_spawn"@);
    assert("grandexchange_buy"@.len() != "event_removed"@.len());
    assert("grandexchange_buy"@ != "event_removed"@);
    assert("grandexchange_buy"@.len() != "grandexchange_sell_order"@.len());
    assert("grandexchange_buy"@ != "grandexchange_sell_order"@);
    assert("grandexchange_buy"@.len() != "grandexchange_buy_order"@.len());
    assert("grandexchange_buy"@ != "grandexchange_buy_order"@);
    assert("grandexchange_buy"@.len() != "grandexchange_sell"@.len());
    assert("grandexchange_buy"@ != "grandexchange_sell"@);
    assert("achievement_unlocked"@.len() != "account_log"@.len());
    assert("achievement_unlocked"@ != "account_log"@);
    assert("achievement_unlocked"@.len() != "online_characters"@.len());
    assert("achievement_unlocked"@ != "online_characters"@);
    assert("achievement_unlocked"@.len() != "event_spawn"@.len());
    assert("achievement_unlocked"@ != "event_spawn"@);
    assert("achievement_unlocked"@.len() != "event_removed"@.len());
    assert("achievement_unlocked"@ != "event_removed"@);
    assert("achievement_unlocked"@.len() != "grandexchange_sell_order"@.len());
    assert("achievement_unlocked"@ != "grandexchange_sell_order"@);
    assert("achievement_unlocked"@.len() != "grandexchange_buy_order"@.len());
    assert("achievement_unlocked"@ != "grandexchange_buy_order"@);
    assert("achievement_unlocked"@.len() != "grandexchange_sell"@.len());
    assert("achievement_unlocked"@ != "grandexchange_sell"@);
    assert("achievement_unlocked"@.len() != "grandexchange_buy"@.len());
    assert("achievement_unlocked"@ != "grandexchange_buy"@);
    assert("announcement"@.len() != "account_log"@.len());
    assert("announcement"@ != "account_log"@);
    assert("announcement"@.len() != "online_characters"@.len());
    assert("announcement"@ != "online_characters"@);
    assert("announcement"@.len() != "event_spawn"@.len());
    assert("announcement"@ != "event_spawn"@);
    assert("announcement"@.len() != "event_removed"@.len());
    assert("announcement"@ != "event_removed"@);
    assert("announcement"@.len() != "grandexchange_sell_order"@.len());
    assert("announcement"@ != "grandexchange_sell_order"@);
    assert("announcement"@.len() != "grandexchange_buy_order"@.len());
    assert("announcement"@ != "grandexchange_buy_order"@);
    assert("announcement"@.len() != "grandexchange_sell"@.len());
    assert("announcement"@ != "grandexchange_sell"@);
    assert("announcement"@.len() != "grandexchange_buy"@.len());
    assert("announcement"@ != "grandexchange_buy"@);
    assert("announcement"@.len() != "achievement_unlocked"@.len());
    assert("announcement"@ != "achievement_unlocked"@);
    assert("sell"@.len() != "buy"@.len());
}

/// The position snapshot of an online character is read from the members
/// of its own names: name, account, skin and coordinates (empty or zero
/// when missing), over a blank character.
pub proof fn online_character_members_law(c: Json)
    ensures
        reads_text(online_character(c).name, Seq::empty(), c, "name"@),
        reads_text(online_character(c).account, Seq::empty(), c, "account"@),
        reads_text(online_character(c).skin, Seq::empty(), c, "skin"@),
        reads_i32(online_character(c).x, 0, c, "x"@),
        reads_i32(online_character(c).y, 0, c, "y"@),
        online_character(c).level == 0,
        online_character(c).gold == 0,
{
}

/// Decodes a realtime notification `{"type": ..., "data": ...}` (received
/// as the text `raw`) into the action it stands for; unknown types give
/// `None`.
pub fn notification_action(raw: &str, value: Json) -> (r: Option<Action>)
    ensures
        decodes_to(value, raw@, r),
{
    let ghost v0 = value;
    let kind = match get_str(&value, "type") {
        Some(t) => String::from_str(t),
        None => {
            return None;
        },
    };
    let t = kind.as_str();
    let data = match value.into_member("data") {
        Some(d) => d,
        None => Json::Null,
    };
    assert(data == payload_of(v0));
    if same_text(t, "account_log") {
        match parse_account_log(data) {
            Some(e) => Some(Action::AccountLog(e)),
            None => None,
        }
    } else if same_text(t, "online_characters") {
        let chars = parse_online_characters(&data);
        if chars.len() == 0 {
            None
        } else {
            Some(Action::OnlineCharacters(chars))
        }
    } else if same_text(t, "event_spawn") {
        match parse_world_event(&data) {
            Some(e) => Some(Action::EventSpawn(e)),
            None => None,
        }
    } else if same_text(t, "event_removed") {
        Some(Action::EventRemoved(json_str(&data, "code")))
    } else if same_text(t, "grandexchange_sell_order") {
        match parse_ge_order(&data, "sell") {
            Some(o) => Some(Action::GEOrderCreated(o)),
            None => None,
        }
    } else if same_text(t, "grandexchange_buy_order") {
        match parse_ge_order(&data, "buy") {
            Some(o) => Some(Action::GEOrderCreated(o)),
            None => None,
        }
    } else if same_text(t, "grandexchange_sell") {
        match parse_ge_transaction(&data, "sell") {
            Some(x) => Some(Action::GETransactionCompleted(x)),
            None => None,
        }
    } else if same_text(t, "grandexchange_buy") {
        match parse_ge_transaction(&data, "buy") {
            Some(x) => Some(Action::GETransactionCompleted(x)),
            None => None,
        }
    } else if same_text(t, "achievement_unlocked") {
        let character = json_str(&data, "character");
        let nested = match data.get("achievement") {
            Some(a) => get_str(a, "name"),
            None => None,
        };
        let achievement_name = match nested {
            Some(n) => String::from_str(n),
            None => match get_str(&data, "name") {
                Some(n) => String::from_str(n),
                None => String::from_str("unknown achievement"),
            },
        };
        Some(Action::AchievementUnlocked { character, achievement_name })
    } else if same_text(t, "announcement") {
        let m = match data.get("message") {
            Some(v) => Some(v),
            None => match data.get("text") {
                Some(v) => Some(v),
                None => data.get("content"),
            },
        };
        let text = match m {
            Some(v) => match v.as_str() {
                Some(s) => String::from_str(s),
                None => String::from_str(raw),
            },
            None => String::from_str(raw),
        };
        Some(Action::Announcement(text))
    } else {
        None
    }
}

/// Decodes a realtime notification from the text that arrived: the text
/// is parsed as JSON, and a document decodes as [`notification_action`]
/// says; a text that is not JSON gives `None`.
pub fn decode_notification(raw: &str) -> (r: Option<Action>)
    ensures
        match parsed_json(raw@) {
            Some(v) => decodes_to(v, raw@, r),
            None => r is None,
        },
{
    match parse_json(raw) {
        Some(v) => notification_action(raw, v),
        None => None,
    }
}

} // verus!
