//! The application session: display mode, quit and suspend flags, key
//! chords, the game state and the interface state of the panels, and the
//! transition that every action makes to them.
//!
//! The surrounding program runs the loop: it hands each action to
//! [`Session::handle_action`] and performs the effects it returns (clear
//! the terminal, render, prefetch an image, start a cooldown timer).

use vstd::prelude::*;

use crate::action::Action;
use crate::color::Color;
use crate::game::{
    AccountLogEntry, CharacterView, FocusedPanel, GEFeedEntry, GEOrder, GETransaction, LogEntry,
    WorldEvent, WsStatus,
};
use crate::images::{character_image_requests, image_requests_of, requests_view};
use crate::json::{Json, JsonNumber};
use crate::keys::{bound, Command, Key, KeyMap, Mode};
use crate::notify::characters_view;
use crate::state::{
    account_log_applied, bounded_push, gold_sum, has_named, index_named, merged, names_distinct, push_ge_entry,
    push_log, system_color_of, system_log_color, system_log_tag, system_tag_of, GameState,
    MAX_GE, MAX_LOG, MAX_GOLD_SNAPSHOTS,
};
use crate::text::{decimal, push_decimal, same_text};
use crate::ui::sidebar::{scroll_down, scroll_up, scrolled_down, scrolled_up, SidebarState};

verus! {

/// Ticks between two gold snapshots.
pub const GOLD_SNAPSHOT_TICKS: u64 = 60;

/// Work for the surrounding program, returned by an action.
#[derive(Debug)]
pub enum Effect {
    /// Clear the terminal.
    ClearTerminal,
    /// Resize the terminal to `(width, height)` and render.
    Resize(u16, u16),
    /// Render a frame.
    Render,
    /// Prefetch the image `code` of `category`.
    Prefetch { category: String, code: String },
    /// Start a cooldown timer for `character` with the given remaining and
    /// total seconds, when the remaining seconds are positive.
    Cooldown { character: String, remaining: JsonNumber, total: JsonNumber },
}

/// The content of an effect.
pub enum EffectValue {
    ClearTerminal,
    Resize(u16, u16),
    Render,
    Prefetch(Seq<char>, Seq<char>),
    Cooldown(Seq<char>, JsonNumber, JsonNumber),
}

impl View for Effect {
    type V = EffectValue;

    open spec fn view(&self) -> EffectValue {
        match self {
            Effect::ClearTerminal => EffectValue::ClearTerminal,
            Effect::Resize(w, h) => EffectValue::Resize(*w, *h),
            Effect::Render => EffectValue::Render,
            Effect::Prefetch { category, code } => EffectValue::Prefetch(category@, code@),
            Effect::Cooldown { character, remaining, total } => EffectValue::Cooldown(
                character@,
                *remaining,
                *total,
            ),
        }
    }
}

/// The contents of a list of effects.
pub open spec fn effects_value(v: Seq<Effect>) -> Seq<EffectValue> {
    v.map_values(|e: Effect| e@)
}

/// Selection state of the character card grid.
pub struct CardsState {
    /// Index of the selected card.
    pub selected: usize,
    /// Whether the selected card fills the whole grid.
    pub maximized: bool,
}

/// The whole application state that actions change.
pub struct Session {
    pub mode: Mode,
    pub should_quit: bool,
    pub should_suspend: bool,
    /// Key presses of the current tick, for multi-key chords.
    pub pending_keys: Vec<Key>,
    /// Whether the startup character fetch has arrived.
    pub characters_fetched: bool,
    /// Whether the startup map fetch has finished.
    pub maps_fetched: bool,
    /// Ticks since start.
    pub tick_count: u64,
    pub game: GameState,
    pub cards: CardsState,
    pub sidebar: SidebarState,
    /// Whether the footer log panel is shown.
    pub log_visible: bool,
    pub keymap: KeyMap,
}

/// The total gold of the characters, saturated at `u64::MAX`.
pub open spec fn gold_total(cs: Seq<CharacterView>) -> u64 {
    if gold_sum(cs) <= u64::MAX {
        gold_sum(cs) as u64
    } else {
        u64::MAX
    }
}

/// `q1` is `q0` with one more footer line, the oldest dropped when full.
pub open spec fn log_appended(
    q0: Seq<LogEntry>,
    q1: Seq<LogEntry>,
    tag: Seq<char>,
    color: Color,
    character: Seq<char>,
    message: Seq<char>,
) -> bool {
    &&& q1 == bounded_push(q0, q1.last(), MAX_LOG as nat)
    &&& q1.last().tag@ == tag
    &&& q1.last().tag_color == color
    &&& q1.last().character@ == character
    &&& q1.last().message@ == message
}

/// The characters after a full update by `c`: the first character of the
/// same name is replaced (keeping its known last action), or `c` is added.
pub open spec fn upsert_one(cs: Seq<CharacterView>, c: CharacterView) -> Seq<CharacterView> {
    if has_named(cs, c.name) {
        cs.update(index_named(cs, c.name), merged(cs[index_named(cs, c.name)], c))
    } else {
        cs.push(c)
    }
}

/// The characters after full updates by each of `incoming`, in order.
pub open spec fn upserted_all(cs: Seq<CharacterView>, incoming: Seq<CharacterView>) -> Seq<CharacterView>
    decreases incoming.len(),
{
    if incoming.len() == 0 {
        cs
    } else {
        upsert_one(upserted_all(cs, incoming.drop_last()), incoming.last())
    }
}

/// The cooldown timers that a list of fetched characters starts: one for
/// each character with a positive cooldown, remaining and total both its
/// cooldown seconds.
pub open spec fn fetched_cooldowns(incoming: Seq<CharacterView>) -> Seq<EffectValue>
    decreases incoming.len(),
{
    if incoming.len() == 0 {
        Seq::empty()
    } else {
        let c = incoming.last();
        fetched_cooldowns(incoming.drop_last()) + if c.cooldown_secs > 0 {
            seq![
                EffectValue::Cooldown(
                    c.name,
                    JsonNumber::PosInt(c.cooldown_secs as u64),
                    JsonNumber::PosInt(c.cooldown_secs as u64),
                ),
            ]
        } else {
            Seq::empty()
        }
    }
}

/// Prefetch effects for the images of each character, in order.
pub open spec fn prefetches(cs: Seq<CharacterView>) -> Seq<EffectValue>
    decreases cs.len(),
{
    if cs.len() == 0 {
        Seq::empty()
    } else {
        prefetches(cs.drop_last()) + image_requests_of(cs.last()).map_values(
            |r: (Seq<char>, Seq<char>)| EffectValue::Prefetch(r.0, r.1),
        )
    }
}

/// An integer as a JSON number.
pub open spec fn int_number(v: i64) -> JsonNumber {
    if v >= 0 {
        JsonNumber::PosInt(v as u64)
    } else {
        JsonNumber::NegInt(v)
    }
}

/// A JSON number, or the integer `fallback` when `j` is not a number.
pub open spec fn number_or(j: Option<Json>, fallback: i32) -> JsonNumber {
    match j {
        Some(Json::Number(n)) => n,
        _ => int_number(fallback as i64),
    }
}

/// The cooldown seconds member `key` of an account log entry's content
/// (`remaining_seconds` or `total_seconds`), or the entry's cooldown.
pub open spec fn log_cooldown(e: AccountLogEntry, key: Seq<char>) -> JsonNumber {
    number_or(
        match e.content.field("cooldown"@) {
            Some(c) => c.field(key),
            None => None,
        },
        e.cooldown,
    )
}

/// The footer text of a Grand Exchange order.
pub open spec fn order_line(o: GEOrder) -> Seq<char> {
    (if o.order_type@ == "sell"@ {
        "SELL"@
    } else {
        "BUY "@
    }) + " "@ + o.code@ + " ×"@ + decimal(o.quantity as nat) + "@"@ + decimal(o.price as nat)
        + "g"@
}

/// The footer text of a Grand Exchange transaction.
pub open spec fn transaction_line(t: GETransaction) -> Seq<char> {
    (if t.order_type@ == "sell"@ {
        "SOLD"@
    } else {
        "BGHT"@
    }) + " "@ + t.code@ + " ×"@ + decimal(t.quantity as nat) + "="@ + decimal(
        t.total_price as nat,
    ) + "g"@
}

fn append(out: &mut String, s: &str)
    ensures
        final(out)@ == old(out)@ + s@,
{
    out.append(s);
}

/// The footer text of a Grand Exchange order, e.g. `SELL copper_ore ×5@12g`.
pub fn order_log_text(o: &GEOrder) -> (r: String)
    ensures
        r@ == order_line(*o),
{
    let mut s = if same_text(o.order_type.as_str(), "sell") {
        String::from_str("SELL")
    } else {
        String::from_str("BUY ")
    };
    append(&mut s, " ");
    append(&mut s, o.code.as_str());
    append(&mut s, " ×");
    push_decimal(&mut s, o.quantity as u64);
    append(&mut s, "@");
    push_decimal(&mut s, o.price as u64);
    append(&mut s, "g");
    s
}

/// The footer text of a Grand Exchange transaction, e.g.
/// `SOLD copper_ore ×5=60g`.
pub fn transaction_log_text(t: &GETransaction) -> (r: String)
    ensures
        r@ == transaction_line(*t),
{
    let mut s = if same_text(t.order_type.as_str(), "sell") {
        String::from_str("SOLD")
    } else {
        String::from_str("BGHT")
    };
    append(&mut s, " ");
    append(&mut s, t.code.as_str());
    append(&mut s, " ×");
    push_decimal(&mut s, t.quantity as u64);
    append(&mut s, "=");
    push_decimal(&mut s, t.total_price as u64);
    append(&mut s, "g");
    s
}

fn int_number_exec(v: i32) -> (r: JsonNumber)
    ensures
        r == int_number(v as i64),
{
    if v >= 0 {
        JsonNumber::PosInt(v as u64)
    } else {
        JsonNumber::NegInt(v as i64)
    }
}

/// The cooldown seconds `key` (`remaining_seconds` or `total_seconds`) of
/// an account log entry, falling back to the entry's cooldown.
pub fn cooldown_seconds(e: &AccountLogEntry, key: &str) -> (r: JsonNumber)
    ensures
        r == log_cooldown(*e, key@),
{
    match e.cooldown_member(key) {
        Some(Json::Number(n)) => n.duplicate(),
        _ => int_number_exec(e.cooldown),
    }
}

/// After a tick: the chord is cleared, the tick counter advances, the
/// loading screen gives way to the home screen once characters and maps
/// are both fetched (clearing the terminal), the heartbeat flips, and every
/// `GOLD_SNAPSHOT_TICKS` ticks the total gold is snapshotted.
pub open spec fn ticked(s0: Session, s1: Session, now_ms: u64, fx: Seq<EffectValue>) -> bool {
    let t = s0.tick_count + 1;
    let switch = s0.mode == Mode::Loading && s0.characters_fetched && s0.maps_fetched;
    &&& s1.tick_count == t
    &&& s1.pending_keys@.len() == 0
    &&& s1.mode == (if switch {
        Mode::Home
    } else {
        s0.mode
    })
    &&& fx == (if switch {
        seq![EffectValue::ClearTerminal]
    } else {
        Seq::empty()
    })
    &&& s1.game.heartbeat == !s0.game.heartbeat
    &&& s1.game.gold_snapshots@ == (if t % (GOLD_SNAPSHOT_TICKS as int) == 0 {
        bounded_push(
            s0.game.gold_snapshots@,
            (now_ms, gold_total(s0.game.chars())),
            MAX_GOLD_SNAPSHOTS as nat,
        )
    } else {
        s0.game.gold_snapshots@
    })
    &&& s1.game == GameState {
        heartbeat: s1.game.heartbeat,
        gold_snapshots: s1.game.gold_snapshots,
        ..s0.game
    }
    &&& s1 == Session {
        tick_count: s1.tick_count,
        pending_keys: s1.pending_keys,
        mode: s1.mode,
        game: s1.game,
        ..s0
    }
}

/// Only the game state's footer log changed, by one line.
pub open spec fn only_logged(
    s0: Session,
    s1: Session,
    tag: Seq<char>,
    color: Color,
    character: Seq<char>,
    message: Seq<char>,
) -> bool {
    &&& log_appended(s0.game.log_entries@, s1.game.log_entries@, tag, color, character, message)
    &&& s1.game == GameState { log_entries: s1.game.log_entries, ..s0.game }
    &&& s1 == Session { game: s1.game, ..s0 }
}

/// Only the game state changed.
pub open spec fn only_game(s0: Session, s1: Session) -> bool {
    s1 == Session { game: s1.game, ..s0 }
}

/// The card after `selected` among `n` cards, wrapping to the first.
pub open spec fn next_selection(selected: usize, n: nat) -> usize {
    ((selected + 1) % (n as int)) as usize
}

/// The card before `selected` among `n` cards, wrapping to the last.
pub open spec fn prev_selection(selected: usize, n: nat) -> usize {
    (if selected == 0 {
        n - 1
    } else {
        selected - 1
    }) as usize
}

/// `s1` is `s0` with card `sel` selected.
pub open spec fn selected_card(s0: Session, s1: Session, sel: usize) -> bool {
    &&& s1.cards == (CardsState { selected: sel, ..s0.cards })
    &&& s1.game == (GameState { selected_character: sel, ..s0.game })
    &&& s1 == (Session { cards: s1.cards, game: s1.game, ..s0 })
}

/// `s1` is `s0` with the swarm demand list scrolled to `scroll`.
pub open spec fn demand_scrolled(s0: Session, s1: Session, scroll: usize) -> bool {
    &&& s1.sidebar == (SidebarState { demand_scroll: scroll, ..s0.sidebar })
    &&& s1 == (Session { sidebar: s1.sidebar, ..s0 })
}

/// The rows of the demand list below its title row.
pub open spec fn demand_window(s: Session) -> int {
    if s.sidebar.demand_area.height >= 2 {
        s.sidebar.demand_area.height - 2
    } else {
        0
    }
}

/// Focus moves forward (or back): in the character grid the selection
/// moves with wrap-around, in the sidebar the demand list scrolls, and
/// otherwise nothing changes.
pub open spec fn focus_moved(s0: Session, s1: Session, forward: bool) -> bool {
    let n = s0.game.characters@.len();
    if s0.game.focused_panel == FocusedPanel::CharGrid && n > 0 {
        selected_card(
            s0,
            s1,
            if forward {
                next_selection(s0.cards.selected, n)
            } else {
                prev_selection(s0.cards.selected, n)
            },
        )
    } else if s0.game.focused_panel == FocusedPanel::Sidebar {
        demand_scrolled(
            s0,
            s1,
            if forward {
                scrolled_down(s0.sidebar.demand_scroll, s0.sidebar.demand_count, demand_window(s0))
            } else {
                scrolled_up(s0.sidebar.demand_scroll)
            },
        )
    } else {
        s1 == s0
    }
}

/// The WebSocket is connected, with a `[SYS]` footer line.
pub open spec fn ws_connected_logged(s0: Session, s1: Session) -> bool {
    &&& s1.game.ws_status is Connected
    &&& log_appended(
        s0.game.log_entries@,
        s1.game.log_entries@,
        "[SYS]"@,
        Color::Blue,
        ""@,
        "websocket connected"@,
    )
    &&& s1.game == (GameState {
        ws_status: s1.game.ws_status,
        log_entries: s1.game.log_entries,
        ..s0.game
    })
    &&& only_game(s0, s1)
}

/// The WebSocket is disconnected for `reason`, with a `[SYS]` footer line.
pub open spec fn ws_disconnected_logged(s0: Session, s1: Session, reason: String) -> bool {
    &&& s1.game.ws_status matches WsStatus::Disconnected(m) && m@ == reason@
    &&& log_appended(
        s0.game.log_entries@,
        s1.game.log_entries@,
        "[SYS]"@,
        Color::Red,
        ""@,
        "disconnected: "@ + reason@,
    )
    &&& s1.game == (GameState {
        ws_status: s1.game.ws_status,
        log_entries: s1.game.log_entries,
        ..s0.game
    })
    &&& only_game(s0, s1)
}

/// The fetched characters are merged in order; their cooldowns start and
/// the images of every known character are prefetched.
pub open spec fn characters_fetched_applied(s0: Session, s1: Session, chars: Seq<crate::game::CharacterState>, fx: Seq<EffectValue>) -> bool {
    &&& s1.characters_fetched
    &&& s1.game.chars() == upserted_all(s0.game.chars(), characters_view(chars))
    &&& names_distinct(s0.game.chars()) ==> names_distinct(s1.game.chars())
    &&& fx == fetched_cooldowns(characters_view(chars)) + prefetches(
        s1.game.chars(),
    )
    &&& s1.game == (GameState { characters: s1.game.characters, ..s0.game })
    &&& s1 == (Session {
        characters_fetched: true,
        game: s1.game,
        ..s0
    })
}

/// The account log entry is applied and its cooldown timer started.
pub open spec fn account_log_handled(s0: Session, s1: Session, entry: AccountLogEntry, fx: Seq<EffectValue>) -> bool {
    &&& account_log_applied(s0.game, s1.game, entry)
    &&& only_game(s0, s1)
    &&& fx == seq![
        EffectValue::Cooldown(
            entry.character@,
            log_cooldown(entry, "remaining_seconds"@),
            log_cooldown(entry, "total_seconds"@),
        ),
    ]
}

/// The world event is added, with an `[EVT+]` footer line.
pub open spec fn event_spawn_logged(s0: Session, s1: Session, evt: WorldEvent) -> bool {
    &&& s1.game.world_events@ == bounded_push(
        s0.game.world_events@,
        evt,
        crate::state::MAX_EVENTS as nat,
    )
    &&& log_appended(
        s0.game.log_entries@,
        s1.game.log_entries@,
        "[EVT+]"@,
        Color::LightGreen,
        ""@,
        evt.name@,
    )
    &&& s1.game == (GameState {
        world_events: s1.game.world_events,
        log_entries: s1.game.log_entries,
        ..s0.game
    })
    &&& only_game(s0, s1)
}

/// The world events of `code` are removed, with an `[EVT-]` footer line.
pub open spec fn event_removed_logged(s0: Session, s1: Session, code: String) -> bool {
    &&& s1.game.world_events@ == crate::state::without_code(
        s0.game.world_events@,
        code@,
    )
    &&& log_appended(
        s0.game.log_entries@,
        s1.game.log_entries@,
        "[EVT-]"@,
        Color::DarkGray,
        ""@,
        code@,
    )
    &&& s1.game == (GameState {
        world_events: s1.game.world_events,
        log_entries: s1.game.log_entries,
        ..s0.game
    })
    &&& only_game(s0, s1)
}

/// The order itself, account included, joins the Grand Exchange feed, with
/// a `[GE]` footer line.
pub open spec fn ge_order_logged(s0: Session, s1: Session, order: GEOrder) -> bool {
    &&& s1.game.ge_feed@.len() == bounded_push(
        s0.game.ge_feed@,
        s1.game.ge_feed@.last(),
        MAX_GE as nat,
    ).len()
    &&& s1.game.ge_feed@ == bounded_push(
        s0.game.ge_feed@,
        s1.game.ge_feed@.last(),
        MAX_GE as nat,
    )
    &&& s1.game.ge_feed@.last() == GEFeedEntry::Order(order)
    &&& log_appended(
        s0.game.log_entries@,
        s1.game.log_entries@,
        "[GE]"@,
        Color::Cyan,
        ""@,
        order_line(order),
    )
    &&& s1.game == (GameState {
        ge_feed: s1.game.ge_feed,
        log_entries: s1.game.log_entries,
        ..s0.game
    })
    &&& only_game(s0, s1)
}

/// The transaction itself joins the Grand Exchange feed, with a `[GE]`
/// footer line.
pub open spec fn ge_transaction_logged(s0: Session, s1: Session, txn: GETransaction) -> bool {
    &&& s1.game.ge_feed@ == bounded_push(
        s0.game.ge_feed@,
        s1.game.ge_feed@.last(),
        MAX_GE as nat,
    )
    &&& s1.game.ge_feed@.last() == GEFeedEntry::Transaction(txn)
    &&& log_appended(
        s0.game.log_entries@,
        s1.game.log_entries@,
        "[GE]"@,
        Color::Yellow,
        ""@,
        transaction_line(txn),
    )
    &&& s1.game == (GameState {
        ge_feed: s1.game.ge_feed,
        log_entries: s1.game.log_entries,
        ..s0.game
    })
    &&& only_game(s0, s1)
}

/// The `(item code, quantity)` pairs of a demand list.
pub open spec fn demand_view(v: Seq<(String, u32)>) -> Seq<(Seq<char>, u32)> {
    v.map_values(|d: (String, u32)| (d.0@, d.1))
}

/// `s1` is `s0` after `action` at time `now_ms`, with effects `fx`.
pub open spec fn acted(s0: Session, s1: Session, action: Action, now_ms: u64, fx: Seq<EffectValue>) -> bool {
    match action {
        Action::Tick => ticked(s0, s1, now_ms, fx),
        Action::Quit => s1 == (Session { should_quit: true, ..s0 }) && fx.len() == 0,
        Action::Suspend => s1 == (Session { should_suspend: true, ..s0 }) && fx.len() == 0,
        Action::Resume => s1 == (Session { should_suspend: false, ..s0 }) && fx.len() == 0,
        Action::ClearScreen => s1 == s0 && fx == seq![EffectValue::ClearTerminal],
        Action::Resize(w, h) => s1 == s0 && fx == seq![EffectValue::Resize(w, h)],
        Action::Render => s1 == s0 && fx == seq![EffectValue::Render],
        Action::WsConnected => ws_connected_logged(s0, s1) && fx.len() == 0,
        Action::WsConnect | Action::WsReconnect => {
            &&& s1.game == (GameState { ws_status: WsStatus::Connecting, ..s0.game })
            &&& only_game(s0, s1)
            &&& fx.len() == 0
        },
        Action::WsDisconnected(reason) => ws_disconnected_logged(s0, s1, reason) && fx.len() == 0,
        Action::CharactersFetched(chars) => characters_fetched_applied(s0, s1, chars@, fx),
        Action::MapsFetched => s1 == (Session { maps_fetched: true, ..s0 }) && fx.len() == 0,
        Action::AccountLog(entry) => account_log_handled(s0, s1, entry, fx),
        Action::OnlineCharacters(chars) => {
            &&& crate::state::positions_applied(s0.game, s1.game, characters_view(chars@))
            &&& only_game(s0, s1)
            &&& fx.len() == 0
        },
        Action::EventSpawn(evt) => event_spawn_logged(s0, s1, evt) && fx.len() == 0,
        Action::EventRemoved(code) => event_removed_logged(s0, s1, code) && fx.len() == 0,
        Action::GEOrderCreated(order) => ge_order_logged(s0, s1, order) && fx.len() == 0,
        Action::GETransactionCompleted(txn) => ge_transaction_logged(s0, s1, txn) && fx.len() == 0,
        Action::AchievementUnlocked { character, achievement_name } => {
            &&& only_logged(s0, s1, "[ACHV]"@, Color::LightYellow, character@, achievement_name@)
            &&& fx.len() == 0
        },
        Action::Announcement(text) => {
            &&& only_logged(s0, s1, "[ANON]"@, Color::Magenta, ""@, text@)
            &&& fx.len() == 0
        },
        Action::SystemLog { tag, message } => {
            &&& only_logged(s0, s1, system_tag_of(tag@), system_color_of(tag@), ""@, message@)
            &&& fx.len() == 0
        },
        Action::SwarmDemandFetched(demand) => {
            &&& demand_view(s1.game.swarm_demand@) == demand_view(demand@)
            &&& s1.game == (GameState { swarm_demand: s1.game.swarm_demand, ..s0.game })
            &&& only_game(s0, s1)
            &&& fx.len() == 0
        },
        Action::FocusNext => focus_moved(s0, s1, true) && fx.len() == 0,
        Action::FocusPrev => focus_moved(s0, s1, false) && fx.len() == 0,
        Action::MaximizeCharacter => {
            &&& s1 == (Session {
                cards: CardsState { maximized: !s0.cards.maximized, ..s0.cards },
                ..s0
            })
            &&& fx.len() == 0
        },
        Action::ToggleLog => s1 == (Session { log_visible: !s0.log_visible, ..s0 }) && fx.len() == 0,
        _ => s1 == s0 && fx.len() == 0,
    }
}

/// A copy of a demand list.
pub fn copy_demand(v: &Vec<(String, u32)>) -> (r: Vec<(String, u32)>)
    ensures
        demand_view(r@) == demand_view(v@),
{
    let mut r: Vec<(String, u32)> = Vec::new();
    let mut i: usize = 0;
    while i < v.len()
        invariant
            i <= v@.len(),
            demand_view(r@) == demand_view(v@.take(i as int)),
        decreases v.len() - i,
    {
        let ghost before = r@;
        let d = (v[i].0.clone(), v[i].1);
        r.push(d);
        assert(v@.take(i + 1) =~= v@.take(i as int).push(v@[i as int]));
        assert(demand_view(r@) =~= demand_view(before).push((d.0@, d.1)));
        assert(demand_view(r@) =~= demand_view(v@.take(i + 1)));
        i = i + 1;
    }
    assert(v@.take(v@.len() as int) =~= v@);
    r
}

/// The limits the session keeps: the footer log, the Grand Exchange feed,
/// the world events, the gold snapshots and each character's action
/// history within their capacities, and no two characters with the same
/// name.
pub open spec fn within_limits(s: Session) -> bool {
    &&& queues_bounded(s)
    &&& s.game.gold_snapshots@.len() <= MAX_GOLD_SNAPSHOTS
    &&& names_distinct(s.game.chars())
}

/// Whether the log, the Grand Exchange feed, the world events and every
/// character's action history are within their capacities.
pub open spec fn queues_bounded(s: Session) -> bool {
    &&& s.game.log_entries@.len() <= MAX_LOG
    &&& s.game.ge_feed@.len() <= MAX_GE
    &&& s.game.world_events@.len() <= crate::state::MAX_EVENTS
    &&& forall|k: Seq<char>| #[trigger] s.game.action_history@.contains_key(k)
        ==> s.game.action_history@[k].len() <= crate::state::MAX_HISTORY
}

/// Every action keeps the session within its limits: the bounded queues
/// never grow past their capacities and character names stay unique.
pub proof fn limits_kept_law(s0: Session, s1: Session, action: Action, now_ms: u64, fx: Seq<EffectValue>)
    requires
        within_limits(s0),
        acted(s0, s1, action, now_ms, fx),
    ensures
        within_limits(s1),
{
    bounds_kept_law(s0, s1, action, now_ms, fx);
    if action is Tick {
        let snap = (now_ms, gold_total(s0.game.chars()));
        crate::state::bounded_push_law(s0.game.gold_snapshots@, snap, MAX_GOLD_SNAPSHOTS as nat);
    }
}

/// Whatever the action, the log, the Grand Exchange feed, the world events
/// and every action history stay within their capacities: a push onto a
/// full one first drops its oldest entry.
pub proof fn bounds_kept_law(s0: Session, s1: Session, action: Action, now_ms: u64, fx: Seq<EffectValue>)
    requires
        queues_bounded(s0),
        acted(s0, s1, action, now_ms, fx),
    ensures
        queues_bounded(s1),
{
    let q0 = s0.game.log_entries@;
    let q1 = s1.game.log_entries@;
    if q1 == bounded_push(q0, q1.last(), MAX_LOG as nat) {
        crate::state::bounded_push_law(q0, q1.last(), MAX_LOG as nat);
    }
    let g0 = s0.game.ge_feed@;
    let g1 = s1.game.ge_feed@;
    if g1 == bounded_push(g0, g1.last(), MAX_GE as nat) {
        crate::state::bounded_push_law(g0, g1.last(), MAX_GE as nat);
    }
    match action {
        Action::EventSpawn(evt) => {
            crate::state::bounded_push_law(
                s0.game.world_events@,
                evt,
                crate::state::MAX_EVENTS as nat,
            );
        },
        Action::EventRemoved(code) => {
            let w0 = s0.game.world_events@;
            let keep = |e: WorldEvent| e.code@ != code@;
            w0.lemma_filter_len(keep);
        },
        Action::AccountLog(entry) => {
            let h0 = s0.game.action_history@;
            let rec = crate::game::ActionRecord {
                log_type: entry.log_type,
                description: entry.description,
            };
            let prev = crate::history::records_of(h0, entry.character@);
            if h0.contains_key(entry.character@) {
                assert(h0[entry.character@].len() <= crate::state::MAX_HISTORY);
            }
            crate::state::bounded_push_law(prev, rec, crate::state::MAX_HISTORY as nat);
        },
        _ => {},
    }
}

/// The loading screen shows only at start: no action brings the home
/// screen back to loading, and a tick leaves loading exactly when both the
/// characters and the map have been fetched.
pub proof fn home_is_final_law(s0: Session, s1: Session, action: Action, now_ms: u64, fx: Seq<EffectValue>)
    requires
        acted(s0, s1, action, now_ms, fx),
    ensures
        s0.mode == Mode::Home ==> s1.mode == Mode::Home,
        (action is Tick && s0.mode == Mode::Loading) ==> (s1.mode == Mode::Home <==> (
        s0.characters_fetched && s0.maps_fetched)),
{
}

/// The log panel's visibility changes only on `ToggleLog`, which flips it.
pub proof fn log_toggle_law(s0: Session, s1: Session, action: Action, now_ms: u64, fx: Seq<EffectValue>)
    requires
        acted(s0, s1, action, now_ms, fx),
    ensures
        action is ToggleLog ==> s1.log_visible == !s0.log_visible,
        !(action is ToggleLog) ==> s1.log_visible == s0.log_visible,
{
}

/// Toggling the log twice gives back the same session.
pub proof fn double_toggle_law(
    s0: Session,
    s1: Session,
    s2: Session,
    now1: u64,
    now2: u64,
    fx1: Seq<EffectValue>,
    fx2: Seq<EffectValue>,
)
    requires
        acted(s0, s1, Action::ToggleLog, now1, fx1),
        acted(s1, s2, Action::ToggleLog, now2, fx2),
    ensures
        s2 == s0,
{
}

/// On the character grid, selecting the next card and then the previous
/// one (or the previous and then the next) comes back to the same card,
/// which is also the game's selected character.
pub proof fn focus_round_trip_law(
    s0: Session,
    s1: Session,
    s2: Session,
    forward: bool,
    now1: u64,
    now2: u64,
    fx1: Seq<EffectValue>,
    fx2: Seq<EffectValue>,
)
    requires
        s0.game.focused_panel == FocusedPanel::CharGrid,
        0 < s0.game.characters@.len() <= usize::MAX,
        s0.cards.selected < s0.game.characters@.len(),
        acted(s0, s1, if forward { Action::FocusNext } else { Action::FocusPrev }, now1, fx1),
        acted(s1, s2, if forward { Action::FocusPrev } else { Action::FocusNext }, now2, fx2),
    ensures
        s1.cards.selected < s0.game.characters@.len(),
        s2.cards.selected == s0.cards.selected,
        s2.game.selected_character == s0.cards.selected,
        s2.game.characters == s0.game.characters,
{
    selection_round_trip_law(s0.cards.selected, s0.game.characters@.len());
}

/// Moving the card selection forward then back (or back then forward)
/// returns to the same card, and the selection stays among the cards.
pub proof fn selection_round_trip_law(selected: usize, n: nat)
    requires
        0 < n <= usize::MAX,
        selected < n,
    ensures
        next_selection(selected, n) < n,
        prev_selection(selected, n) < n,
        prev_selection(next_selection(selected, n), n) == selected,
        next_selection(prev_selection(selected, n), n) == selected,
{
    if selected + 1 < n {
        vstd::arithmetic::div_mod::lemma_small_mod((selected + 1) as nat, n);
    } else {
        vstd::arithmetic::div_mod::lemma_mod_self_0(n as int);
    }
    if selected == 0 {
        vstd::arithmetic::div_mod::lemma_mod_self_0(n as int);
    } else {
        vstd::arithmetic::div_mod::lemma_small_mod(selected as nat, n);
    }
}

impl Session {
    /// A fresh session: loading mode, nothing fetched, an empty game
    /// state, the first card selected, the log panel shown, and the given
    /// key bindings.
    pub fn new(keymap: KeyMap) -> (r: Session)
        ensures
            r.mode == Mode::Loading,
            !r.should_quit,
            !r.should_suspend,
            r.pending_keys@.len() == 0,
            !r.characters_fetched,
            !r.maps_fetched,
            r.tick_count == 0,
            r.game.chars().len() == 0,
            r.game.log_entries@.len() == 0,
            r.game.ws_status is Connecting,
            r.game.focused_panel == FocusedPanel::CharGrid,
            r.cards.selected == 0,
            !r.cards.maximized,
            r.sidebar == SidebarState::initial(),
            r.log_visible,
            r.keymap == keymap,
    {
        Session {
            mode: Mode::Loading,
            should_quit: false,
            should_suspend: false,
            pending_keys: Vec::new(),
            characters_fetched: false,
            maps_fetched: false,
            tick_count: 0,
            game: GameState::new(),
            cards: CardsState { selected: 0, maximized: false },
            sidebar: SidebarState::new(),
            log_visible: true,
            keymap,
        }
    }

    fn on_tick(&mut self, now_ms: u64) -> (r: Vec<Effect>)
        requires
            old(self).tick_count < u64::MAX,
        ensures
            ticked(*old(self), *final(self), now_ms, effects_value(r@)),
    {
        self.pending_keys = Vec::new();
        self.tick_count = self.tick_count + 1;
        let mut fx: Vec<Effect> = Vec::new();
        if self.mode == Mode::Loading && self.characters_fetched && self.maps_fetched {
            self.mode = Mode::Home;
            fx.push(Effect::ClearTerminal);
        }
        self.game.heartbeat = !self.game.heartbeat;
        if self.tick_count % GOLD_SNAPSHOT_TICKS == 0 {
            self.game.snapshot_gold(now_ms);
        }
        assert(effects_value(fx@) =~= (if old(self).mode == Mode::Loading
            && old(self).characters_fetched && old(self).maps_fetched {
            seq![EffectValue::ClearTerminal]
        } else {
            Seq::<EffectValue>::empty()
        }));
        fx
    }

    fn on_ws_connected(&mut self)
        ensures
            ws_connected_logged(*old(self), *final(self)),
    {
        self.game.ws_status = WsStatus::Connected;
        push_log(&mut self.game.log_entries, "[SYS]", Color::Blue, "", "websocket connected");
    }

    fn on_ws_disconnected(&mut self, reason: &String)
        ensures
            ws_disconnected_logged(*old(self), *final(self), *reason),
    {
        self.game.ws_status = WsStatus::Disconnected(reason.clone());
        let mut msg = String::from_str("disconnected: ");
        append(&mut msg, reason.as_str());
        push_log(&mut self.game.log_entries, "[SYS]", Color::Red, "", msg.as_str());
    }

    #[verifier::spinoff_prover]
    fn on_characters_fetched(&mut self, chars: &Vec<crate::game::CharacterState>) -> (r: Vec<Effect>)
        ensures
            characters_fetched_applied(*old(self), *final(self), chars@, effects_value(r@)),
    {
        self.characters_fetched = true;
        let ghost inc = characters_view(chars@);
        let mut fx: Vec<Effect> = Vec::new();
        let mut k: usize = 0;
        assert(inc.take(0) =~= Seq::<CharacterView>::empty());
        assert(effects_value(fx@) =~= Seq::<EffectValue>::empty());
        while k < chars.len()
            invariant
                k <= chars@.len(),
                inc == characters_view(chars@),
                self.game.chars() == upserted_all(old(self).game.chars(), inc.take(k as int)),
                names_distinct(old(self).game.chars()) ==> names_distinct(self.game.chars()),
                effects_value(fx@) == fetched_cooldowns(inc.take(k as int)),
                self.game == (GameState { characters: self.game.characters, ..old(self).game }),
                *self == (Session { characters_fetched: true, game: self.game, ..*old(self) }),
            decreases chars.len() - k,
        {
            let incoming = &chars[k];
            assert(inc.take(k + 1).drop_last() =~= inc.take(k as int));
            assert(inc.take(k + 1).last() == incoming@);
            self.game.upsert_character_full(incoming);
            let ghost before = fx@;
            if incoming.cooldown_secs > 0 {
                let secs = incoming.cooldown_secs as u64;
                fx.push(
                    Effect::Cooldown {
                        character: incoming.name.clone(),
                        remaining: JsonNumber::PosInt(secs),
                        total: JsonNumber::PosInt(secs),
                    },
                );
            }
            assert(effects_value(fx@) =~= fetched_cooldowns(inc.take(k + 1)));
            k = k + 1;
        }
        assert(inc.take(chars@.len() as int) =~= inc);
        let ghost cooldowns = effects_value(fx@);
        let ghost cs = self.game.chars();
        let mut i: usize = 0;
        assert(cs.take(0) =~= Seq::<CharacterView>::empty());
        assert(effects_value(fx@) =~= cooldowns + prefetches(cs.take(0)));
        while i < self.game.characters.len()
            invariant
                i <= self.game.characters@.len(),
                cs == self.game.chars(),
                effects_value(fx@) == cooldowns + prefetches(cs.take(i as int)),
            decreases self.game.characters.len() - i,
        {
            let reqs = character_image_requests(&self.game.characters[i]);
            let ghost rv = requests_view(reqs@);
            let ghost base = effects_value(fx@);
            let mut j: usize = 0;
            while j < reqs.len()
                invariant
                    j <= reqs@.len(),
                    rv == requests_view(reqs@),
                    effects_value(fx@) == base + rv.take(j as int).map_values(
                        |r: (Seq<char>, Seq<char>)| EffectValue::Prefetch(r.0, r.1),
                    ),
                decreases reqs.len() - j,
            {
                let ghost before = fx@;
                let e = Effect::Prefetch { category: reqs[j].0.clone(), code: reqs[j].1.clone() };
                assert(e@ == EffectValue::Prefetch(rv[j as int].0, rv[j as int].1));
                fx.push(e);
                assert(effects_value(fx@) =~= effects_value(before).push(e@));
                assert(rv.take(j + 1) =~= rv.take(j as int).push(rv[j as int]));
                assert(effects_value(fx@) =~= base + rv.take(j + 1).map_values(
                    |r: (Seq<char>, Seq<char>)| EffectValue::Prefetch(r.0, r.1),
                ));
                j = j + 1;
            }
            assert(rv.take(reqs@.len() as int) =~= rv);
            assert(cs.take(i + 1).drop_last() =~= cs.take(i as int));
            assert(cs.take(i + 1).last() == cs[i as int]);
            assert(effects_value(fx@) =~= cooldowns + prefetches(cs.take(i + 1)));
            i = i + 1;
        }
        assert(cs.take(cs.len() as int) =~= cs);
        fx
    }

    fn on_account_log(&mut self, entry: &AccountLogEntry) -> (r: Vec<Effect>)
        ensures
            account_log_handled(*old(self), *final(self), *entry, effects_value(r@)),
    {
        self.game.apply_account_log(entry);
        let remaining = cooldown_seconds(entry, "remaining_seconds");
        let total = cooldown_seconds(entry, "total_seconds");
        let mut fx: Vec<Effect> = Vec::new();
        fx.push(Effect::Cooldown { character: entry.character.clone(), remaining, total });
        assert(effects_value(fx@) =~= seq![
            EffectValue::Cooldown(
                entry.character@,
                log_cooldown(*entry, "remaining_seconds"@),
                log_cooldown(*entry, "total_seconds"@),
            ),
        ]);
        fx
    }

    fn on_event_spawn(&mut self, evt: &WorldEvent)
        ensures
            event_spawn_logged(*old(self), *final(self), *evt),
    {
        self.game.spawn_event(evt.duplicate());
        push_log(&mut self.game.log_entries, "[EVT+]", Color::LightGreen, "", evt.name.as_str());
    }

    fn on_event_removed(&mut self, code: &String)
        ensures
            event_removed_logged(*old(self), *final(self), *code),
    {
        self.game.remove_events(code.as_str());
        push_log(&mut self.game.log_entries, "[EVT-]", Color::DarkGray, "", code.as_str());
    }

    fn on_ge_order(&mut self, order: &GEOrder)
        ensures
            ge_order_logged(*old(self), *final(self), *order),
    {
        let copy = GEOrder {
            order_type: order.order_type.clone(),
            code: order.code.clone(),
            quantity: order.quantity,
            price: order.price,
            account: match &order.account {
                Some(a) => Some(a.clone()),
                None => None,
            },
        };
        push_ge_entry(&mut self.game.ge_feed, GEFeedEntry::Order(copy));
        let text = order_log_text(order);
        push_log(&mut self.game.log_entries, "[GE]", Color::Cyan, "", text.as_str());
    }

    fn on_ge_transaction(&mut self, txn: &GETransaction)
        ensures
            ge_transaction_logged(*old(self), *final(self), *txn),
    {
        let copy = GETransaction {
            order_type: txn.order_type.clone(),
            code: txn.code.clone(),
            quantity: txn.quantity,
            total_price: txn.total_price,
        };
        push_ge_entry(&mut self.game.ge_feed, GEFeedEntry::Transaction(copy));
        let text = transaction_log_text(txn);
        push_log(&mut self.game.log_entries, "[GE]", Color::Yellow, "", text.as_str());
    }

    fn on_focus_next(&mut self)
        ensures
            focus_moved(*old(self), *final(self), true),
    {
        if self.game.focused_panel == FocusedPanel::CharGrid && self.game.characters.len() > 0 {
            let n = self.game.characters.len();
            let sel = (self.cards.selected % n + 1) % n;
            proof {
                vstd::arithmetic::div_mod::lemma_add_mod_noop_right(
                    1,
                    self.cards.selected as int,
                    n as int,
                );
            }
            assert(sel == (self.cards.selected + 1) % (n as int));
            self.cards.selected = sel;
            self.game.selected_character = sel;
        }
        if self.game.focused_panel == FocusedPanel::Sidebar {
            let window = self.sidebar.demand_area.height.saturating_sub(2) as usize;
            self.sidebar.demand_scroll = scroll_down(
                self.sidebar.demand_scroll,
                self.sidebar.demand_count,
                window,
            );
        }
    }

    fn on_focus_prev(&mut self)
        ensures
            focus_moved(*old(self), *final(self), false),
    {
        if self.game.focused_panel == FocusedPanel::CharGrid && self.game.characters.len() > 0 {
            let n = self.game.characters.len();
            let sel = if self.cards.selected == 0 {
                n - 1
            } else {
                self.cards.selected - 1
            };
            self.cards.selected = sel;
            self.game.selected_character = sel;
        }
        if self.game.focused_panel == FocusedPanel::Sidebar {
            self.sidebar.demand_scroll = scroll_up(self.sidebar.demand_scroll);
        }
    }

    /// Applies one action to the session and returns the effects for the
    /// surrounding program to perform. A tick needs a tick counter below
    /// `u64::MAX`.
    pub fn handle_action(&mut self, action: &Action, now_ms: u64) -> (r: Vec<Effect>)
        requires
            action is Tick ==> old(self).tick_count < u64::MAX,
        ensures
            acted(*old(self), *final(self), *action, now_ms, effects_value(r@)),
    {
        let none: Vec<Effect> = Vec::new();
        assert(effects_value(none@).len() == 0);
        match action {
            Action::Tick => self.on_tick(now_ms),
            Action::Quit => {
                self.should_quit = true;
                none
            },
            Action::Suspend => {
                self.should_suspend = true;
                none
            },
            Action::Resume => {
                self.should_suspend = false;
                none
            },
            Action::ClearScreen => {
                let mut fx = none;
                fx.push(Effect::ClearTerminal);
                assert(effects_value(fx@) =~= seq![EffectValue::ClearTerminal]);
                fx
            },
            Action::Resize(w, h) => {
                let mut fx = none;
                fx.push(Effect::Resize(*w, *h));
                assert(effects_value(fx@) =~= seq![EffectValue::Resize(*w, *h)]);
                fx
            },
            Action::Render => {
                let mut fx = none;
                fx.push(Effect::Render);
                assert(effects_value(fx@) =~= seq![EffectValue::Render]);
                fx
            },
            Action::WsConnected => {
                self.on_ws_connected();
                none
            },
            Action::WsConnect | Action::WsReconnect => {
                self.game.ws_status = WsStatus::Connecting;
                none
            },
            Action::WsDisconnected(reason) => {
                self.on_ws_disconnected(reason);
                none
            },
            Action::CharactersFetched(chars) => self.on_characters_fetched(chars),
            Action::MapsFetched => {
                self.maps_fetched = true;
                none
            },
            Action::AccountLog(entry) => self.on_account_log(entry),
            Action::OnlineCharacters(chars) => {
                self.game.apply_online_positions(chars);
                none
            },
            Action::EventSpawn(evt) => {
                self.on_event_spawn(evt);
                none
            },
            Action::EventRemoved(code) => {
                self.on_event_removed(code);
                none
            },
            Action::GEOrderCreated(order) => {
                self.on_ge_order(order);
                none
            },
            Action::GETransactionCompleted(txn) => {
                self.on_ge_transaction(txn);
                none
            },
            Action::AchievementUnlocked { character, achievement_name } => {
                push_log(
                    &mut self.game.log_entries,
                    "[ACHV]",
                    Color::LightYellow,
                    character.as_str(),
                    achievement_name.as_str(),
                );
                none
            },
            Action::Announcement(text) => {
                push_log(&mut self.game.log_entries, "[ANON]", Color::Magenta, "", text.as_str());
                none
            },
            Action::SystemLog { tag, message } => {
                let color = system_log_color(tag.as_str());
                let static_tag = system_log_tag(tag.as_str());
                push_log(&mut self.game.log_entries, static_tag, color, "", message.as_str());
                none
            },
            Action::SwarmDemandFetched(demand) => {
                self.game.swarm_demand = copy_demand(demand);
                none
            },
            Action::FocusNext => {
                self.on_focus_next();
                none
            },
            Action::FocusPrev => {
                self.on_focus_prev();
                none
            },
            Action::MaximizeCharacter => {
                self.cards.maximized = !self.cards.maximized;
                none
            },
            Action::ToggleLog => {
                self.log_visible = !self.log_visible;
                none
            },
            _ => none,
        }
    }

    /// Handles a key press: the command bound to the key alone in the
    /// current mode, or else the key is added to this tick's chord and the
    /// command bound to the whole chord (if any) is returned.
    pub fn handle_key(&mut self, key: Key) -> (r: Option<Action>)
        ensures
            bound(old(self).keymap.view_bindings(), old(self).mode, seq![key]) is Some ==> {
                &&& r == Some(
                    bound(old(self).keymap.view_bindings(), old(self).mode, seq![key])->0.as_action(),
                )
                &&& *final(self) == *old(self)
            },
            bound(old(self).keymap.view_bindings(), old(self).mode, seq![key]) is None ==> {
                &&& final(self).pending_keys@ == old(self).pending_keys@.push(key)
                &&& r == match bound(
                    old(self).keymap.view_bindings(),
                    old(self).mode,
                    old(self).pending_keys@.push(key),
                ) {
                    Some(c) => Some(c.as_action()),
                    None => None,
                }
                &&& *final(self) == Session { pending_keys: final(self).pending_keys, ..*old(self) }
            },
    {
        let mut one: Vec<Key> = Vec::new();
        one.push(key);
        assert(one@ =~= seq![key]);
        match self.keymap.lookup(self.mode, &one) {
            Some(c) => Some(c.action()),
            None => {
                self.pending_keys.push(key);
                match self.keymap.lookup(self.mode, &self.pending_keys) {
                    Some(c) => Some(c.action()),
                    None => None,
                }
            },
        }
    }
}

} // verus!
