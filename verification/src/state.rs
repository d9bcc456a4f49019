//! The central game state shared by the interface, and the updates that
//! notifications and fetches make to it.

use std::collections::{HashMap, VecDeque};

use vstd::prelude::*;

use crate::color::Color;
use crate::game::{
    MapTile,
    character_node_of, AccountLogEntry, ActionRecord, CharacterState, CharacterView,
    FocusedPanel, GEFeedEntry, LogEntry, WorldEvent, WsStatus,
};
use crate::notify::characters_view;
use crate::history::{records_of, ActionHistory};
use crate::text::{chars_of, same_text};
use crate::tiles::TileMap;


verus! {

/// Maximum entries kept in the footer log.
pub const MAX_LOG: usize = 500;

/// Maximum entries kept in the Grand Exchange feed.
pub const MAX_GE: usize = 60;

/// Maximum active world events kept.
pub const MAX_EVENTS: usize = 20;

/// Maximum action history rows kept per character.
pub const MAX_HISTORY: usize = 8;

/// Maximum gold snapshots kept for the gold-per-hour estimate.
pub const MAX_GOLD_SNAPSHOTS: usize = 20;

/// `s` with `x` appended, first dropping the oldest element when `s`
/// already holds `cap` or more.
pub open spec fn bounded_push<T>(s: Seq<T>, x: T, cap: nat) -> Seq<T> {
    if s.len() >= cap {
        s.drop_first().push(x)
    } else {
        s.push(x)
    }
}

/// Appends `x` to a bounded queue, dropping the oldest entry when the
/// queue is full.
pub fn push_bounded<T>(q: &mut VecDeque<T>, x: T, cap: usize)
    requires
        cap > 0,
    ensures
        final(q)@ == bounded_push(old(q)@, x, cap as nat),
{
    if q.len() >= cap {
        q.pop_front();
    }
    q.push_back(x);
}

/// A bounded queue that is within its capacity stays within it, ends with
/// the new element, and keeps the most recent older elements in order.
pub proof fn bounded_push_law<T>(s: Seq<T>, x: T, cap: nat)
    requires
        cap > 0,
        s.len() <= cap,
    ensures
        bounded_push(s, x, cap).len() <= cap,
        bounded_push(s, x, cap).last() == x,
        bounded_push(s, x, cap).len() == if s.len() == cap { cap } else { s.len() + 1 },
        bounded_push(s, x, cap).drop_last() == s.skip(s.len() + 1 - bounded_push(s, x, cap).len()),
{
    if s.len() >= cap {
        assert(s.drop_first().push(x).drop_last() =~= s.skip(1));
    } else {
        assert(s.push(x).drop_last() =~= s.skip(0));
    }
}

/// Appends an entry to the footer log, dropping the oldest entry when the
/// log holds `MAX_LOG` entries.
pub fn push_log(
    entries: &mut VecDeque<LogEntry>,
    tag: &'static str,
    tag_color: Color,
    character: &str,
    message: &str,
)
    ensures
        final(entries)@.len() == bounded_push(old(entries)@, final(entries)@.last(), MAX_LOG as nat).len(),
        final(entries)@ == bounded_push(old(entries)@, final(entries)@.last(), MAX_LOG as nat),
        final(entries)@.last().tag@ == tag@,
        final(entries)@.last().tag_color == tag_color,
        final(entries)@.last().character@ == character@,
        final(entries)@.last().message@ == message@,
{
    let e = LogEntry {
        tag,
        tag_color,
        character: String::from_str(character),
        message: String::from_str(message),
    };
    push_bounded(entries, e, MAX_LOG);
}

/// Appends an entry to the Grand Exchange feed, dropping the oldest entry
/// when the feed holds `MAX_GE` entries.
pub fn push_ge_entry(feed: &mut VecDeque<GEFeedEntry>, entry: GEFeedEntry)
    ensures
        final(feed)@ == bounded_push(old(feed)@, entry, MAX_GE as nat),
{
    push_bounded(feed, entry, MAX_GE);
}

/// The footer log tag and colour for an account log type.
pub open spec fn log_tag_of(t: Seq<char>) -> (Seq<char>, Color) {
    if t == "fight"@ || t == "multi_fight"@ {
        ("[FIGHT] "@, Color::Red)
    } else if t == "gathering"@ {
        ("[GATHER]"@, Color::Green)
    } else if t == "crafting"@ {
        ("[CRAFT] "@, Color::Yellow)
    } else if t == "movement"@ {
        ("[MOVE]  "@, Color::Cyan)
    } else if t == "rest"@ {
        ("[REST]  "@, Color::Blue)
    } else if t == "task_completed"@ {
        ("[TASK✓] "@, Color::Magenta)
    } else if t == "new_task"@ {
        ("[TASK+] "@, Color::Magenta)
    } else if t == "task_exchange"@ || t == "task_cancelled"@ {
        ("[TASK]  "@, Color::DarkGray)
    } else if t == "recycling"@ {
        ("[RECYCLE"@, Color::LightYellow)
    } else if t == "buy_ge"@ || t == "create_buy_order_ge"@ || t == "fill_buy_order_ge"@ {
        ("[GE BUY]"@, Color::Cyan)
    } else if t == "sell_ge"@ {
        ("[GE SEL]"@, Color::LightRed)
    } else if t == "deposit_item"@ || t == "deposit_gold"@ {
        ("[BANK↓] "@, Color::Gray)
    } else if t == "withdraw_item"@ || t == "withdraw_gold"@ {
        ("[BANK↑] "@, Color::Gray)
    } else if t == "equip"@ || t == "unequip"@ {
        ("[EQUIP] "@, Color::LightCyan)
    } else {
        ("[LOG]   "@, Color::DarkGray)
    }
}

/// The footer log tag and colour for an account log type.
pub fn log_type_tag(log_type: &str) -> (r: (&'static str, Color))
    ensures
        (r.0@, r.1) == log_tag_of(log_type@),
{
    let t = log_type;
    if same_text(t, "fight") || same_text(t, "multi_fight") {
        ("[FIGHT] ", Color::Red)
    } else if same_text(t, "gathering") {
        ("[GATHER]", Color::Green)
    } else if same_text(t, "crafting") {
        ("[CRAFT] ", Color::Yellow)
    } else if same_text(t, "movement") {
        ("[MOVE]  ", Color::Cyan)
    } else if same_text(t, "rest") {
        ("[REST]  ", Color::Blue)
    } else if same_text(t, "task_completed") {
        ("[TASK✓] ", Color::Magenta)
    } else if same_text(t, "new_task") {
        ("[TASK+] ", Color::Magenta)
    } else if same_text(t, "task_exchange") || same_text(t, "task_cancelled") {
        ("[TASK]  ", Color::DarkGray)
    } else if same_text(t, "recycling") {
        ("[RECYCLE", Color::LightYellow)
    } else if same_text(t, "buy_ge") || same_text(t, "create_buy_order_ge") || same_text(
        t,
        "fill_buy_order_ge",
    ) {
        ("[GE BUY]", Color::Cyan)
    } else if same_text(t, "sell_ge") {
        ("[GE SEL]", Color::LightRed)
    } else if same_text(t, "deposit_item") || same_text(t, "deposit_gold") {
        ("[BANK↓] ", Color::Gray)
    } else if same_text(t, "withdraw_item") || same_text(t, "withdraw_gold") {
        ("[BANK↑] ", Color::Gray)
    } else if same_text(t, "equip") || same_text(t, "unequip") {
        ("[EQUIP] ", Color::LightCyan)
    } else {
        ("[LOG]   ", Color::DarkGray)
    }
}

/// Whether `s` holds the character `c`.
pub fn has_char(s: &str, c: char) -> (r: bool)
    ensures
        r == s@.contains(c),
{
    let cs = chars_of(s);
    let mut i: usize = 0;
    while i < cs.len()
        invariant
            cs@ == s@,
            i <= cs@.len(),
            forall|j: int| 0 <= j < i ==> cs@[j] != c,
        decreases cs.len() - i,
    {
        if cs[i] == c {
            assert(s@[i as int] == c);
            return true;
        }
        i = i + 1;
    }
    false
}

/// The colour of an image download log tag: green for a success (`✓`) or
/// a disk hit (`◈`), red for a failure (`✗`), cyan otherwise.
pub open spec fn system_color_of(tag: Seq<char>) -> Color {
    if tag.contains('✓') || tag.contains('◈') {
        Color::Green
    } else if tag.contains('✗') {
        Color::Red
    } else {
        Color::Cyan
    }
}

/// Maps an image log tag to a display colour.
pub fn system_log_color(tag: &str) -> (r: Color)
    ensures
        r == system_color_of(tag@),
{
    if has_char(tag, '✓') || has_char(tag, '◈') {
        Color::Green
    } else if has_char(tag, '✗') {
        Color::Red
    } else {
        Color::Cyan
    }
}

/// The footer tag for a system log tag: one of the four image tags, or the
/// generic image tag for anything else.
pub open spec fn system_tag_of(tag: Seq<char>) -> Seq<char> {
    if tag == "[IMG↓]"@ {
        "[IMG↓]"@
    } else if tag == "[IMG✓]"@ {
        "[IMG✓]"@
    } else if tag == "[IMG✗]"@ {
        "[IMG✗]"@
    } else if tag == "[IMG◈]"@ {
        "[IMG◈]"@
    } else {
        "[IMG]  "@
    }
}

/// The footer tag for a system log tag.
pub fn system_log_tag(tag: &str) -> (r: &'static str)
    ensures
        r@ == system_tag_of(tag@),
{
    if same_text(tag, "[IMG↓]") {
        "[IMG↓]"
    } else if same_text(tag, "[IMG✓]") {
        "[IMG✓]"
    } else if same_text(tag, "[IMG✗]") {
        "[IMG✗]"
    } else if same_text(tag, "[IMG◈]") {
        "[IMG◈]"
    } else {
        "[IMG]  "
    }
}

/// Whether the character named `name` first appears at index `i`.
pub open spec fn first_named_at(cs: Seq<CharacterView>, name: Seq<char>, i: int) -> bool {
    &&& 0 <= i < cs.len()
    &&& cs[i].name == name
    &&& forall|j: int| 0 <= j < i ==> cs[j].name != name
}

/// Whether some character of `cs` is named `name`.
pub open spec fn has_named(cs: Seq<CharacterView>, name: Seq<char>) -> bool {
    exists|i: int| 0 <= i < cs.len() && cs[i].name == name
}

/// The index of the first character named `name`.
pub open spec fn index_named(cs: Seq<CharacterView>, name: Seq<char>) -> int {
    choose|i: int| first_named_at(cs, name, i)
}

/// Whether no two characters share a name.
pub open spec fn names_distinct(cs: Seq<CharacterView>) -> bool {
    forall|i: int, j: int| 0 <= i < j < cs.len() ==> cs[i].name != cs[j].name
}

/// A character after a full REST or fetch update `inc` over `old`: the
/// incoming state, except that a known last action (other than `idle`)
/// and its description are kept.
pub open spec fn merged(old: CharacterView, inc: CharacterView) -> CharacterView {
    if old.last_action.len() > 0 && old.last_action != "idle"@ {
        CharacterView { last_action: old.last_action, last_description: old.last_description, ..inc }
    } else {
        inc
    }
}

/// A character after an account log entry `e`: the entry's type and
/// description become the last action, the entry's account fills an empty
/// account, and the entry's character node (if any) is applied.
pub open spec fn logged(c: CharacterView, e: AccountLogEntry) -> CharacterView {
    let c1 = CharacterView {
        last_action: e.log_type@,
        last_description: e.description@,
        account: if c.account.len() == 0 {
            e.account@
        } else {
            c.account
        },
        ..c
    };
    match character_node_of(e.content, e.character@) {
        Some(n) => c1.with_char_node(n),
        None => c1,
    }
}

/// A character after an online position snapshot `inc`: position from the
/// snapshot, skin from the snapshot when none is known.
pub open spec fn repositioned(c: CharacterView, inc: CharacterView) -> CharacterView {
    CharacterView {
        x: inc.x,
        y: inc.y,
        skin: if c.skin.len() == 0 {
            inc.skin
        } else {
            c.skin
        },
        ..c
    }
}

/// The characters after applying a list of position snapshots in order.
pub open spec fn repositioned_all(cs: Seq<CharacterView>, incoming: Seq<CharacterView>) -> Seq<CharacterView>
    decreases incoming.len(),
{
    if incoming.len() == 0 {
        cs
    } else {
        let prev = repositioned_all(cs, incoming.drop_last());
        let inc = incoming.last();
        if has_named(prev, inc.name) {
            let i = index_named(prev, inc.name);
            prev.update(i, repositioned(prev[i], inc))
        } else {
            prev
        }
    }
}

/// The sum of the gold of all characters.
pub open spec fn gold_sum(cs: Seq<CharacterView>) -> nat
    decreases cs.len(),
{
    if cs.len() == 0 {
        0
    } else {
        gold_sum(cs.drop_last()) + cs.last().gold as nat
    }
}

/// The events of `s` whose code is not `code`, in order.
pub open spec fn without_code(s: Seq<WorldEvent>, code: Seq<char>) -> Seq<WorldEvent> {
    s.filter(|e: WorldEvent| e.code@ != code)
}

/// `g1` is `g0` after the account log entry `entry`: the character is
/// updated (or added), the action is recorded in its history and a footer
/// line is added; nothing else changes.
pub open spec fn account_log_applied(g0: GameState, g1: GameState, entry: AccountLogEntry) -> bool {
    &&& has_named(g0.chars(), entry.character@) ==> g1.chars() == g0.chars().update(
        index_named(g0.chars(), entry.character@),
        logged(g0.chars()[index_named(g0.chars(), entry.character@)], entry),
    )
    &&& !has_named(g0.chars(), entry.character@) ==> g1.chars() == g0.chars().push(
        logged(CharacterView { name: entry.character@, ..CharacterView::initial() }, entry),
    )
    &&& g1.action_history@ == g0.action_history@.insert(
        entry.character@,
        bounded_push(
            records_of(g0.action_history@, entry.character@),
            ActionRecord { log_type: entry.log_type, description: entry.description },
            MAX_HISTORY as nat,
        ),
    )
    &&& g1.log_entries@ == bounded_push(g0.log_entries@, g1.log_entries@.last(), MAX_LOG as nat)
    &&& (g1.log_entries@.last().tag@, g1.log_entries@.last().tag_color) == log_tag_of(
        entry.log_type@,
    )
    &&& g1.log_entries@.last().character@ == entry.character@
    &&& g1.log_entries@.last().message@ == entry.description@
    &&& g1 == GameState {
        characters: g1.characters,
        action_history: g1.action_history,
        log_entries: g1.log_entries,
        ..g0
    }
    &&& names_distinct(g0.chars()) ==> names_distinct(g1.chars())
}

/// `g1` is `g0` after a position snapshot: only the characters change.
pub open spec fn positions_applied(g0: GameState, g1: GameState, incoming: Seq<CharacterView>) -> bool {
    &&& g1.chars() == repositioned_all(g0.chars(), incoming)
    &&& g1 == GameState { characters: g1.characters, ..g0 }
    &&& names_distinct(g0.chars()) ==> names_distinct(g1.chars())
}

/// `g1` is `g0` with the world event `evt` added (the oldest dropped when
/// `MAX_EVENTS` are held).
pub open spec fn event_spawned(g0: GameState, g1: GameState, evt: WorldEvent) -> bool {
    &&& g1.world_events@ == bounded_push(g0.world_events@, evt, MAX_EVENTS as nat)
    &&& g1 == GameState { world_events: g1.world_events, ..g0 }
}

/// `g1` is `g0` without the world events of code `code`.
pub open spec fn events_removed(g0: GameState, g1: GameState, code: Seq<char>) -> bool {
    &&& g1.world_events@ == without_code(g0.world_events@, code)
    &&& g1 == GameState { world_events: g1.world_events, ..g0 }
}

/// Central game state: characters, history, world events, Grand Exchange
/// feed, footer log, map and selection.
pub struct GameState {
    pub characters: Vec<CharacterState>,
    pub action_history: ActionHistory,
    pub world_events: Vec<WorldEvent>,
    pub ge_feed: VecDeque<GEFeedEntry>,
    pub ws_status: WsStatus,
    pub log_entries: VecDeque<LogEntry>,
    /// Tiles keyed by `(x, y, layer)`.
    pub map_tiles: TileMap,
    /// Layer of each tile's unique map ID.
    pub map_id_to_layer: HashMap<i32, String>,
    /// Toggled on every tick for the heartbeat icon.
    pub heartbeat: bool,
    /// `(milliseconds since start, total gold)` snapshots.
    pub gold_snapshots: VecDeque<(u64, u64)>,
    /// Swarm demand as `(item code, quantity)`.
    pub swarm_demand: Vec<(String, u32)>,
    /// Index of the selected character.
    pub selected_character: usize,
    /// Panel holding keyboard focus.
    pub focused_panel: FocusedPanel,
}

impl GameState {
    /// The characters' states.
    pub open spec fn chars(self) -> Seq<CharacterView> {
        characters_view(self.characters@)
    }

    /// An empty game state: no characters, events, feed, log or map, the
    /// WebSocket connecting, focus on the character grid.
    pub fn new() -> (r: GameState)
        ensures
            r.chars().len() == 0,
            r.action_history@ == Map::<Seq<char>, Seq<ActionRecord>>::empty(),
            r.world_events@.len() == 0,
            r.ge_feed@.len() == 0,
            r.ws_status is Connecting,
            r.log_entries@.len() == 0,
            r.map_tiles@ == Map::<(i32, i32, Seq<char>), crate::game::TileView>::empty(),
            r.map_id_to_layer@ == Map::<i32, String>::empty(),
            !r.heartbeat,
            r.gold_snapshots@.len() == 0,
            r.swarm_demand@.len() == 0,
            r.selected_character == 0,
            r.focused_panel == FocusedPanel::CharGrid,
    {
        GameState {
            characters: Vec::new(),
            action_history: ActionHistory::new(),
            world_events: Vec::new(),
            ge_feed: VecDeque::new(),
            ws_status: WsStatus::Connecting,
            log_entries: VecDeque::new(),
            map_tiles: TileMap::new(),
            map_id_to_layer: HashMap::new(),
            heartbeat: false,
            gold_snapshots: VecDeque::new(),
            swarm_demand: Vec::new(),
            selected_character: 0,
            focused_panel: FocusedPanel::CharGrid,
        }
    }

    /// The index of the first character named `name`.
    pub fn find_character(&self, name: &str) -> (r: Option<usize>)
        ensures
            r matches Some(i) ==> first_named_at(self.chars(), name@, i as int),
            r is None ==> !has_named(self.chars(), name@),
    {
        let mut i: usize = 0;
        while i < self.characters.len()
            invariant
                i <= self.characters@.len(),
                forall|j: int| 0 <= j < i ==> self.chars()[j].name != name@,
            decreases self.characters.len() - i,
        {
            if same_text(self.characters[i].name.as_str(), name) {
                return Some(i);
            }
            i = i + 1;
        }
        None
    }

    /// The total gold of all characters (saturating at `u64::MAX`, which
    /// takes more than four billion characters to reach).
    pub fn total_gold(&self) -> (r: u64)
        ensures
            r == if gold_sum(self.chars()) <= u64::MAX {
                gold_sum(self.chars())
            } else {
                u64::MAX as nat
            },
    {
        let mut total: u128 = 0;
        let mut i: usize = 0;
        while i < self.characters.len()
            invariant
                i <= self.characters@.len(),
                total == gold_sum(self.chars().take(i as int)),
                gold_sum(self.chars().take(i as int)) <= i * 4294967295,
            decreases self.characters.len() - i,
        {
            assert(self.chars().take(i + 1).drop_last() =~= self.chars().take(i as int));
            assert(self.chars().take(i + 1).last() == self.chars()[i as int]);
            assert((i + 1) * 4294967295 <= 340282366920938463463374607431768211455u128) by (nonlinear_arith)
                requires
                    i + 1 <= 18446744073709551616u128,
            {
            };
            total = total + self.characters[i].gold as u128;
            i = i + 1;
        }
        assert(self.chars().take(self.characters@.len() as int) =~= self.chars());
        if total <= 18446744073709551615u128 {
            total as u64
        } else {
            18446744073709551615u64
        }
    }

    /// Applies a full character update (a REST fetch): replaces the first
    /// character with the same name, keeping its known last action and
    /// description, or adds the character when none has its name.
    pub fn upsert_character_full(&mut self, incoming: &CharacterState)
        ensures
            has_named(old(self).chars(), incoming.name@) ==> final(self).chars() == old(
                self,
            ).chars().update(
                index_named(old(self).chars(), incoming.name@),
                merged(old(self).chars()[index_named(old(self).chars(), incoming.name@)], incoming@),
            ),
            !has_named(old(self).chars(), incoming.name@) ==> final(self).chars() == old(
                self,
            ).chars().push(incoming@),
            *final(self) == (GameState { characters: final(self).characters, ..*old(self) }),
            names_distinct(old(self).chars()) ==> names_distinct(final(self).chars()),
    {
        match self.find_character(incoming.name.as_str()) {
            Some(i) => {
                proof {
                    lemma_index_named(self.chars(), incoming.name@, i as int);
                }
                let la = self.characters[i].last_action.clone();
                let ld = self.characters[i].last_description.clone();
                let mut c = incoming.duplicate();
                if !la.as_str().is_empty() && !same_text(la.as_str(), "idle") {
                    c.last_action = la;
                    c.last_description = ld;
                }
                let ghost cv = c@;
                assert(cv =~~= merged(old(self).chars()[i as int], incoming@));
                self.characters.set(i, c);
                assert(self.chars() =~= old(self).chars().update(i as int, cv));
            },
            None => {
                let c = incoming.duplicate();
                let ghost cv = c@;
                self.characters.push(c);
                assert(self.chars() =~= old(self).chars().push(cv));
            },
        }
    }

    /// Applies an account log entry: updates (or adds) the character, then
    /// records the action in its history and in the footer log.
    pub fn apply_account_log(&mut self, entry: &AccountLogEntry)
        ensures
            account_log_applied(*old(self), *final(self), *entry),
    {
        let name = entry.character.as_str();
        match self.find_character(name) {
            Some(i) => {
                proof {
                    lemma_index_named(self.chars(), name@, i as int);
                }
                let mut c = self.characters[i].duplicate();
                c.last_action = entry.log_type.clone();
                c.last_description = entry.description.clone();
                if c.account.as_str().is_empty() {
                    c.account = entry.account.clone();
                }
                match entry.character_node() {
                    Some(node) => c.apply_char_node(node),
                    None => {},
                }
                let ghost cv = c@;
                proof {
                    let c0 = old(self).chars()[i as int];
                    let c1 = CharacterView {
                        last_action: entry.log_type@,
                        last_description: entry.description@,
                        account: if c0.account.len() == 0 {
                            entry.account@
                        } else {
                            c0.account
                        },
                        ..c0
                    };
                    match character_node_of(entry.content, entry.character@) {
                        Some(n) => {
                            assert(cv =~~= c1.with_char_node(n));
                        },
                        None => {
                            assert(cv =~~= c1);
                        },
                    }
                }
                self.characters.set(i, c);
                assert(self.chars() =~= old(self).chars().update(i as int, cv));
            },
            None => {
                let mut c = CharacterState::default();
                c.name = entry.character.clone();
                c.account = entry.account.clone();
                c.last_action = entry.log_type.clone();
                c.last_description = entry.description.clone();
                match entry.character_node() {
                    Some(node) => c.apply_char_node(node),
                    None => {},
                }
                let ghost cv = c@;
                proof {
                    let c0 = CharacterView { name: entry.character@, ..CharacterView::initial() };
                    let c1 = CharacterView {
                        last_action: entry.log_type@,
                        last_description: entry.description@,
                        account: entry.account@,
                        ..c0
                    };
                    match character_node_of(entry.content, entry.character@) {
                        Some(n) => {
                            assert(cv =~~= c1.with_char_node(n));
                        },
                        None => {
                            assert(cv =~~= c1);
                        },
                    }
                }
                self.characters.push(c);
                assert(self.chars() =~= old(self).chars().push(cv));
            },
        }
        let rec = ActionRecord {
            log_type: entry.log_type.clone(),
            description: entry.description.clone(),
        };
        self.action_history.record(name, rec, MAX_HISTORY);
        let (tag, tag_color) = log_type_tag(entry.log_type.as_str());
        push_log(&mut self.log_entries, tag, tag_color, name, entry.description.as_str());
    }

    /// Applies an online-characters snapshot in order: each listed
    /// character that is known gets its position, and its skin when none
    /// is known.
    pub fn apply_online_positions(&mut self, incoming: &Vec<CharacterState>)
        ensures
            positions_applied(*old(self), *final(self), characters_view(incoming@)),
    {
        let ghost inc = characters_view(incoming@);
        let mut k: usize = 0;
        while k < incoming.len()
            invariant
                k <= incoming@.len(),
                inc == characters_view(incoming@),
                self.chars() == repositioned_all(old(self).chars(), inc.take(k as int)),
                *self == (GameState { characters: self.characters, ..*old(self) }),
                names_distinct(old(self).chars()) ==> names_distinct(self.chars()),
            decreases incoming.len() - k,
        {
            let fresh = &incoming[k];
            assert(inc.take(k + 1).drop_last() =~= inc.take(k as int));
            assert(inc.take(k + 1).last() == fresh@);
            match self.find_character(fresh.name.as_str()) {
                Some(i) => {
                    proof {
                        lemma_index_named(self.chars(), fresh.name@, i as int);
                    }
                    let mut c = self.characters[i].duplicate();
                    c.x = fresh.x;
                    c.y = fresh.y;
                    if c.skin.as_str().is_empty() {
                        c.skin = fresh.skin.clone();
                    }
                    let ghost cv = c@;
                    assert(cv =~~= repositioned(self.chars()[i as int], fresh@));
                    let ghost before = self.chars();
                    self.characters.set(i, c);
                    assert(self.chars() =~= before.update(i as int, cv));
                },
                None => {},
            }
            k = k + 1;
        }
        assert(inc.take(incoming@.len() as int) =~= inc);
    }

    /// Adds a world event, dropping the oldest when `MAX_EVENTS` are held.
    pub fn spawn_event(&mut self, evt: WorldEvent)
        ensures
            event_spawned(*old(self), *final(self), evt),
    {
        if self.world_events.len() >= MAX_EVENTS {
            self.world_events.remove(0);
            assert(self.world_events@ =~= old(self).world_events@.drop_first());
        }
        self.world_events.push(evt);
    }

    /// Removes every world event with the given code.
    pub fn remove_events(&mut self, code: &str)
        ensures
            events_removed(*old(self), *final(self), code@),
    {
        let mut kept: Vec<WorldEvent> = Vec::new();
        let ghost s = self.world_events@;
        let mut i: usize = 0;
        while i < self.world_events.len()
            invariant
                i <= self.world_events@.len(),
                s == self.world_events@,
                kept@ == without_code(s.take(i as int), code@),
            decreases self.world_events.len() - i,
        {
            proof {
                reveal_with_fuel(Seq::filter, 1);
                assert(s.take(i + 1).drop_last() =~= s.take(i as int));
                assert(s.take(i + 1).last() == s[i as int]);
            }
            if !same_text(self.world_events[i].code.as_str(), code) {
                let e = self.world_events[i].duplicate();
                kept.push(e);
                assert(kept@ =~= without_code(s.take(i + 1), code@));
            } else {
                assert(kept@ =~= without_code(s.take(i + 1), code@));
            }
            i = i + 1;
        }
        assert(s.take(s.len() as int) =~= s);
        self.world_events = kept;
    }

    /// Records the total gold at time `now_ms` (milliseconds since start),
    /// keeping the last `MAX_GOLD_SNAPSHOTS` snapshots.
    pub fn snapshot_gold(&mut self, now_ms: u64)
        ensures
            final(self).gold_snapshots@ == bounded_push(
                old(self).gold_snapshots@,
                (
                    now_ms,
                    (if gold_sum(old(self).chars()) <= u64::MAX {
                        gold_sum(old(self).chars())
                    } else {
                        u64::MAX as nat
                    }) as u64,
                ),
                MAX_GOLD_SNAPSHOTS as nat,
            ),
            *final(self) == (GameState { gold_snapshots: final(self).gold_snapshots, ..*old(self) }),
    {
        let total = self.total_gold();
        push_bounded(&mut self.gold_snapshots, (now_ms, total), MAX_GOLD_SNAPSHOTS);
    }

    /// Stores a fetched map tile, and its layer under its map ID when the
    /// ID is non-zero.
    pub fn record_map_tile(&mut self, tile: MapTile)
        ensures
            final(self).map_tiles@ == old(self).map_tiles@.insert(
                crate::tiles::key_of(tile@),
                tile@,
            ),
            tile.map_id != 0 ==> final(self).map_id_to_layer@ == old(self).map_id_to_layer@.insert(
                tile.map_id,
                tile.layer,
            ),
            tile.map_id == 0 ==> final(self).map_id_to_layer@ == old(self).map_id_to_layer@,
            *final(self) == (GameState {
                map_tiles: final(self).map_tiles,
                map_id_to_layer: final(self).map_id_to_layer,
                ..*old(self)
            }),
    {
        if tile.map_id != 0 {
            self.map_id_to_layer.insert(tile.map_id, tile.layer.clone());
        }
        self.map_tiles.insert(tile);
    }

    /// The layer of the map with the given ID ("overworld" when unknown).
    pub fn layer_of(&self, map_id: i32) -> (r: String)
        ensures
            self.map_id_to_layer@.contains_key(map_id) ==> r == self.map_id_to_layer@[map_id],
            !self.map_id_to_layer@.contains_key(map_id) ==> r@ == "overworld"@,
    {
        match self.map_id_to_layer.get(&map_id) {
            Some(l) => l.clone(),
            None => String::from_str("overworld"),
        }
    }

    /// The index of the selected character, clamped to the last character
    /// (0 when there are none).
    pub fn selected_index(&self) -> (r: usize)
        ensures
            r == if self.selected_character < self.characters@.len() {
                self.selected_character as int
            } else if self.characters@.len() == 0 {
                0
            } else {
                self.characters@.len() - 1
            },
    {
        let last = self.characters.len().saturating_sub(1);
        if self.selected_character < last {
            self.selected_character
        } else {
            last
        }
    }
}

proof fn lemma_index_named(cs: Seq<CharacterView>, name: Seq<char>, i: int)
    requires
        first_named_at(cs, name, i),
    ensures
        has_named(cs, name),
        index_named(cs, name) == i,
{
    let j = index_named(cs, name);
    assert(first_named_at(cs, name, j));
    if j < i {
        assert(cs[j].name != name);
    }
    if i < j {
        assert(cs[i].name != name);
    }
}

} // verus!
