//! The footer log panel, the focus panel, the world panel and the loading
//! screen: their state, and the text and colours they draw.

use std::collections::VecDeque;

use vstd::prelude::*;

use crate::action::Action;
use crate::color::Color;
use crate::game::{
    AccountLogEntry, CharacterState, CharacterView, GEFeedEntry, GEOrder, GETransaction, LogEntry,
    WorldEvent,
};
use crate::named::NamedMap;
use crate::notify::characters_view;
use crate::state::{bounded_push, push_bounded, without_code};
use crate::text::{
    byte_cut_ok, byte_len, byte_truncated, decimal, push_decimal, push_signed, same_text,
    signed_decimal, truncate, truncate_bytes, truncated,
};
use crate::ui::layout::Area;

verus! {

/// The stage of a panel's boot animation.
#[derive(Clone, Copy, Debug, PartialEq, Eq, Structural)]
pub enum BootPhase {
    /// Only the border shows, under a heavy glitch.
    Border,
    /// Content shows, still glitching.
    Reveal,
    /// The animation is over.
    Done,
}

/// The boot stage `elapsed_ms` after a panel appeared, for a border phase
/// of `border_ms` and a whole animation of `total_ms`.
pub open spec fn boot_phase_of(elapsed_ms: u64, border_ms: u64, total_ms: u64) -> BootPhase {
    if elapsed_ms < border_ms {
        BootPhase::Border
    } else if elapsed_ms < total_ms {
        BootPhase::Reveal
    } else {
        BootPhase::Done
    }
}

/// The boot stage of a panel.
pub fn boot_phase(elapsed_ms: u64, border_ms: u64, total_ms: u64) -> (r: BootPhase)
    ensures
        r == boot_phase_of(elapsed_ms, border_ms, total_ms),
{
    if elapsed_ms < border_ms {
        BootPhase::Border
    } else if elapsed_ms < total_ms {
        BootPhase::Reveal
    } else {
        BootPhase::Done
    }
}

/// Duration of the glitch on a newly arrived footer line (ms).
pub const GLITCH_DURATION_MS: u32 = 350;

/// Boot animation of the footer log (ms).
pub const LOG_BOOT_TOTAL_MS: u64 = 350;

/// Border-only phase of the footer log's boot animation (ms).
pub const LOG_BORDER_PHASE_MS: u64 = 150;

/// Boot animation of the sidebar (ms).
pub const SIDEBAR_BOOT_TOTAL_MS: u64 = 450;

/// Border-only phase of the sidebar's boot animation (ms).
pub const SIDEBAR_BORDER_PHASE_MS: u64 = 180;

/// The footer log panel: whether it shows, and the glitch on its newest
/// line.
pub struct LogPanelState {
    pub visible: bool,
    /// Milliseconds left on the newest-line glitch (0 when inactive).
    pub glitch_ms: u32,
    /// Number of entries at the last frame.
    pub last_count: usize,
}

impl LogPanelState {
    /// A visible panel with no glitch running.
    pub fn new() -> (r: LogPanelState)
        ensures
            r.visible,
            r.glitch_ms == 0,
            r.last_count == 0,
    {
        LogPanelState { visible: true, glitch_ms: 0, last_count: 0 }
    }

    /// Records a frame drawn with `count` entries: new entries arm the
    /// glitch for `GLITCH_DURATION_MS`. Returns whether it was armed.
    pub fn entries_drawn(&mut self, count: usize) -> (r: bool)
        ensures
            r == (count > old(self).last_count),
            final(self).glitch_ms == if r {
                GLITCH_DURATION_MS
            } else {
                old(self).glitch_ms
            },
            final(self).last_count == count,
            final(self).visible == old(self).visible,
    {
        let armed = count > self.last_count;
        if armed {
            self.glitch_ms = GLITCH_DURATION_MS;
        }
        self.last_count = count;
        armed
    }

    /// Runs the glitch down by `elapsed_ms`; returns whether it ended.
    pub fn glitch_elapsed(&mut self, elapsed_ms: u32) -> (r: bool)
        ensures
            final(self).glitch_ms == if old(self).glitch_ms >= elapsed_ms {
                old(self).glitch_ms - elapsed_ms
            } else {
                0
            },
            r == (final(self).glitch_ms == 0),
            final(self).visible == old(self).visible,
            final(self).last_count == old(self).last_count,
    {
        self.glitch_ms = self.glitch_ms.saturating_sub(elapsed_ms);
        self.glitch_ms == 0
    }
}

/// The range of the last `rows` of `count` entries.
pub fn last_rows(count: usize, rows: usize) -> (r: (usize, usize))
    ensures
        r.1 == count,
        r.0 == if count <= rows {
            0
        } else {
            count - rows
        },
{
    if count <= rows {
        (0, count)
    } else {
        (count - rows, count)
    }
}

/// The row of the newest of `count` lines drawn at the top of `inner`, if
/// it lies inside `inner`.
pub fn newest_row(inner: Area, count: usize) -> (r: Option<u16>)
    requires
        inner.y + inner.height <= u16::MAX,
    ensures
        ({
            let shown = if count <= inner.height {
                count as int
            } else {
                inner.height as int
            };
            let y = inner.y + if shown >= 1 {
                shown - 1
            } else {
                0
            };
            &&& y < inner.y + inner.height ==> r == Some(y as u16)
            &&& y >= inner.y + inner.height ==> r is None
        }),
{
    let shown: u16 = if count <= inner.height as usize {
        count as u16
    } else {
        inner.height
    };
    let y = inner.y + shown.saturating_sub(1);
    if (y as u32) < inner.y as u32 + inner.height as u32 {
        Some(y)
    } else {
        None
    }
}

/// A footer line in three parts: the tag and a space, the character and
/// `: ` (empty without a character), and the message cut to the width
/// left (widths counted in bytes, as the tag and name are).
pub open spec fn log_line_of(e: LogEntry, width: u16) -> (Seq<char>, Seq<char>, Seq<char>) {
    let tag = e.tag@ + " "@;
    let who = if e.character@.len() == 0 {
        Seq::empty()
    } else {
        e.character@ + ": "@
    };
    let used = byte_len(e.tag@) + 1 + byte_len(who);
    (tag, who, truncated(e.message@, if width >= used { (width - used) as nat } else { 0 }))
}

/// A footer line of `width` columns.
pub fn log_line(e: &LogEntry, width: u16) -> (r: (String, String, String))
    ensures
        (r.0@, r.1@, r.2@) == log_line_of(*e, width),
{
    let mut tag = String::from_str(e.tag);
    tag.append(" ");
    let who = if e.character.as_str().is_empty() {
        String::new()
    } else {
        let mut w = e.character.clone();
        w.append(": ");
        w
    };
    let used = e.tag.len().saturating_add(1).saturating_add(who.as_str().len());
    let max = (width as usize).saturating_sub(used);
    let msg = truncate(e.message.as_str(), max);
    proof {
        reveal_strlit("");
    }
    assert(who@ == (if e.character@.len() == 0 {
        Seq::<char>::empty()
    } else {
        e.character@ + ": "@
    }));
    (tag, who, msg)
}

/// The colour of an account log type in the focus panel.
pub open spec fn log_type_color_of(t: Seq<char>) -> Color {
    if t == "fight"@ || t == "multi_fight"@ {
        Color::Red
    } else if t == "gathering"@ {
        Color::Green
    } else if t == "crafting"@ {
        Color::Yellow
    } else if t == "movement"@ {
        Color::Cyan
    } else if t == "rest"@ {
        Color::Blue
    } else if t == "task_completed"@ {
        Color::Magenta
    } else if t == "new_task"@ || t == "task_exchange"@ || t == "task_cancelled"@ {
        Color::LightMagenta
    } else if t == "recycling"@ {
        Color::LightYellow
    } else if t == "buy_ge"@ || t == "sell_ge"@ || t == "create_buy_order_ge"@ || t
        == "fill_buy_order_ge"@ {
        Color::LightCyan
    } else if t == "deposit_item"@ || t == "deposit_gold"@ || t == "withdraw_item"@ || t
        == "withdraw_gold"@ {
        Color::Gray
    } else {
        Color::DarkGray
    }
}

/// The colour of an account log type in the focus panel.
pub fn log_type_color(t: &str) -> (r: Color)
    ensures
        r == log_type_color_of(t@),
{
    if same_text(t, "fight") || same_text(t, "multi_fight") {
        Color::Red
    } else if same_text(t, "gathering") {
        Color::Green
    } else if same_text(t, "crafting") {
        Color::Yellow
    } else if same_text(t, "movement") {
        Color::Cyan
    } else if same_text(t, "rest") {
        Color::Blue
    } else if same_text(t, "task_completed") {
        Color::Magenta
    } else if same_text(t, "new_task") || same_text(t, "task_exchange") || same_text(
        t,
        "task_cancelled",
    ) {
        Color::LightMagenta
    } else if same_text(t, "recycling") {
        Color::LightYellow
    } else if same_text(t, "buy_ge") || same_text(t, "sell_ge") || same_text(
        t,
        "create_buy_order_ge",
    ) || same_text(t, "fill_buy_order_ge") {
        Color::LightCyan
    } else if same_text(t, "deposit_item") || same_text(t, "deposit_gold") || same_text(
        t,
        "withdraw_item",
    ) || same_text(t, "withdraw_gold") {
        Color::Gray
    } else {
        Color::DarkGray
    }
}

/// The short label of an account log type in the focus panel.
pub open spec fn log_type_label_of(t: Seq<char>) -> Seq<char> {
    if t == "fight"@ {
        "⚔"@
    } else if t == "multi_fight"@ {
        "⚔⚔"@
    } else if t == "gathering"@ {
        "⛏"@
    } else if t == "crafting"@ {
        "🔨"@
    } else if t == "movement"@ {
        "→"@
    } else if t == "rest"@ {
        "♥"@
    } else if t == "task_completed"@ {
        "✓"@
    } else if t == "new_task"@ {
        "+"@
    } else if t == "task_exchange"@ || t == "task_cancelled"@ {
        "~"@
    } else if t == "recycling"@ {
        "♻"@
    } else if t == "buy_ge"@ || t == "create_buy_order_ge"@ || t == "fill_buy_order_ge"@ {
        "↑"@
    } else if t == "sell_ge"@ {
        "↓"@
    } else if t == "deposit_item"@ || t == "deposit_gold"@ {
        "↓B"@
    } else if t == "withdraw_item"@ || t == "withdraw_gold"@ {
        "↑B"@
    } else {
        "·"@
    }
}

/// The short label of an account log type in the focus panel.
pub fn log_type_label(t: &str) -> (r: &'static str)
    ensures
        r@ == log_type_label_of(t@),
{
    if same_text(t, "fight") {
        "⚔"
    } else if same_text(t, "multi_fight") {
        "⚔⚔"
    } else if same_text(t, "gathering") {
        "⛏"
    } else if same_text(t, "crafting") {
        "🔨"
    } else if same_text(t, "movement") {
        "→"
    } else if same_text(t, "rest") {
        "♥"
    } else if same_text(t, "task_completed") {
        "✓"
    } else if same_text(t, "new_task") {
        "+"
    } else if same_text(t, "task_exchange") || same_text(t, "task_cancelled") {
        "~"
    } else if same_text(t, "recycling") {
        "♻"
    } else if same_text(t, "buy_ge") || same_text(t, "create_buy_order_ge") || same_text(
        t,
        "fill_buy_order_ge",
    ) {
        "↑"
    } else if same_text(t, "sell_ge") {
        "↓"
    } else if same_text(t, "deposit_item") || same_text(t, "deposit_gold") {
        "↓B"
    } else if same_text(t, "withdraw_item") || same_text(t, "withdraw_gold") {
        "↑B"
    } else {
        "·"
    }
}

/// Entries kept per character in the focus panel.
pub const FOCUS_HISTORY: usize = 100;

/// A focus panel history line: the label and a space (bold, in the type's
/// colour), the description cut to 60 bytes, and ` cd Ns` for a positive
/// cooldown.
pub open spec fn focus_line_of(e: AccountLogEntry) -> (Seq<char>, Color, Seq<char>, Seq<char>) {
    (
        log_type_label_of(e.log_type@) + " "@,
        log_type_color_of(e.log_type@),
        byte_truncated(e.description@, 60),
        if e.cooldown > 0 {
            "  cd "@ + decimal(e.cooldown as nat) + "s"@
        } else {
            Seq::empty()
        },
    )
}

/// A focus panel history line. Cutting the description to 60 bytes must
/// fall on a character boundary.
pub fn focus_line(e: &AccountLogEntry) -> (r: (String, Color, String, String))
    requires
        byte_cut_ok(e.description@, 60),
    ensures
        (r.0@, r.1, r.2@, r.3@) == focus_line_of(*e),
{
    let mut label = String::from_str(log_type_label(e.log_type.as_str()));
    label.append(" ");
    let color = log_type_color(e.log_type.as_str());
    let desc = truncate_bytes(e.description.as_str(), 60);
    let cd = if e.cooldown > 0 {
        let mut c = String::from_str("  cd ");
        push_decimal(&mut c, e.cooldown as u64);
        c.append("s");
        c
    } else {
        String::new()
    };
    (label, color, desc, cd)
}

/// The first entry of a snapshot with the given name.
pub open spec fn snapshot_of(inc: Seq<CharacterView>, name: Seq<char>) -> Option<CharacterView>
    decreases inc.len(),
{
    if inc.len() == 0 {
        None
    } else if inc[0].name == name {
        Some(inc[0])
    } else {
        snapshot_of(inc.drop_first(), name)
    }
}

/// A character after a position snapshot: moved as the first entry with
/// its name says (its skin filled when empty), or unchanged.
pub open spec fn moved_by(c: CharacterView, inc: Seq<CharacterView>) -> CharacterView {
    match snapshot_of(inc, c.name) {
        Some(f) => crate::state::repositioned(c, f),
        None => c,
    }
}

/// The focus panel: the selected character and each character's recent
/// account log entries.
pub struct FocusPanel {
    pub character: Option<CharacterState>,
    pub history: NamedMap<VecDeque<AccountLogEntry>>,
}

impl FocusPanel {
    /// A panel with no character and no history.
    pub fn new() -> (r: FocusPanel)
        ensures
            r.character is None,
            r.history@ == Map::<Seq<char>, VecDeque<AccountLogEntry>>::empty(),
    {
        FocusPanel { character: None, history: NamedMap::new() }
    }

    /// Sets (or clears) the focused character.
    pub fn set_character(&mut self, character: Option<CharacterState>)
        ensures
            final(self).character == character,
            final(self).history == old(self).history,
    {
        self.character = character;
    }

    fn push_log(&mut self, entry: AccountLogEntry)
        ensures
            final(self).history@.contains_key(entry.character@),
            final(self).history@[entry.character@]@ == bounded_push(
                if old(self).history@.contains_key(entry.character@) {
                    old(self).history@[entry.character@]@
                } else {
                    Seq::empty()
                },
                entry,
                FOCUS_HISTORY as nat,
            ),
            final(self).history@ == old(self).history@.insert(
                entry.character@,
                final(self).history@[entry.character@],
            ),
            final(self).character == old(self).character,
    {
        let name = entry.character.clone();
        let mut buf = match self.history.remove(name.as_str()) {
            Some(b) => b,
            None => VecDeque::new(),
        };
        push_bounded(&mut buf, entry, FOCUS_HISTORY);
        self.history.insert(name.as_str(), buf);
    }

    /// Updates the panel with an action: an account log entry updates the
    /// focused character's last action (when it is the entry's character)
    /// and joins that character's history; an online snapshot moves the
    /// focused character (first match by name), filling an empty skin.
    pub fn update(&mut self, action: Action)
        ensures
            action matches Action::AccountLog(e) ==> {
                &&& final(self).history@.contains_key(e.character@)
                &&& final(self).history@[e.character@]@ == bounded_push(
                    if old(self).history@.contains_key(e.character@) {
                        old(self).history@[e.character@]@
                    } else {
                        Seq::empty()
                    },
                    e,
                    FOCUS_HISTORY as nat,
                )
                &&& final(self).history@ == old(self).history@.insert(
                    e.character@,
                    final(self).history@[e.character@],
                )
                &&& match old(self).character {
                    Some(c) => final(self).character matches Some(f) && (c.name@ == e.character@
                        ==> f@ == (CharacterView {
                        last_action: e.log_type@,
                        last_description: e.description@,
                        ..c@
                    })) && (c.name@ != e.character@ ==> f@ == c@),
                    None => final(self).character is None,
                }
            },
            action matches Action::OnlineCharacters(chars) ==> {
                &&& final(self).history == old(self).history
                &&& match old(self).character {
                    Some(c) => final(self).character matches Some(f) && f@ == moved_by(
                        c@,
                        characters_view(chars@),
                    ),
                    None => final(self).character is None,
                }
            },
            !(action is AccountLog) && !(action is OnlineCharacters) ==> final(self).character
                == old(self).character && final(self).history == old(self).history,
    {
        match action {
            Action::AccountLog(entry) => {
                let mut focused: Option<CharacterState> = None;
                std::mem::swap(&mut focused, &mut self.character);
                match focused {
                    Some(mut c) => {
                        if same_text(c.name.as_str(), entry.character.as_str()) {
                            c.last_action = entry.log_type.clone();
                            c.last_description = entry.description.clone();
                        }
                        self.character = Some(c);
                    },
                    None => {},
                }
                self.push_log(entry);
            },
            Action::OnlineCharacters(chars) => {
                let mut focused: Option<CharacterState> = None;
                std::mem::swap(&mut focused, &mut self.character);
                match focused {
                    Some(mut c) => {
                        let ghost inc = characters_view(chars@);
                        let ghost c0 = c@;
                        let mut found = false;
                        let mut k: usize = 0;
                        assert(inc.skip(0) =~= inc);
                        while k < chars.len()
                            invariant
                                k <= chars@.len(),
                                inc == characters_view(chars@),
                                !found ==> c@ == c0,
                                !found ==> snapshot_of(inc, c0.name) == snapshot_of(
                                    inc.skip(k as int),
                                    c0.name,
                                ),
                                found ==> c@ == moved_by(c0, inc),
                                found ==> snapshot_of(inc, c0.name) is Some,
                            decreases chars.len() - k,
                        {
                            assert(inc.skip(k as int)[0] == inc[k as int]);
                            assert(inc.skip(k as int).drop_first() =~= inc.skip(k + 1));
                            if !found && same_text(chars[k].name.as_str(), c.name.as_str()) {
                                c.x = chars[k].x;
                                c.y = chars[k].y;
                                if c.skin.as_str().is_empty() {
                                    c.skin = chars[k].skin.clone();
                                }
                                assert(c@ =~= crate::state::repositioned(c0, inc[k as int]));
                                found = true;
                            }
                            k = k + 1;
                        }
                        assert(inc.skip(chars@.len() as int) =~= Seq::<CharacterView>::empty());
                        self.character = Some(c);
                    },
                    None => {},
                }
            },
            _ => {},
        }
    }
}

/// The focus panel title: ` Focus ` without a character, else the name
/// between spaces.
pub fn focus_title(character: &Option<CharacterState>) -> (r: String)
    ensures
        character is None ==> r@ == " Focus "@,
        character matches Some(c) ==> r@ == " "@ + c.name@ + " "@,
{
    match character {
        None => String::from_str(" Focus "),
        Some(c) => {
            let mut t = String::from_str(" ");
            t.append(c.name.as_str());
            t.append(" ");
            t
        },
    }
}

/// One row of the focus panel's info strip: label, value, value colour,
/// and whether the value is bold.
pub struct InfoRow {
    pub label: &'static str,
    pub value: String,
    pub color: Color,
    pub bold: bool,
}

/// The info strip of the focus panel: account (or `—`), position, status
/// (the activity label, bold in its colour), and a cooldown placeholder
/// showing the byte length of the last action type.
pub fn focus_info(c: &CharacterState) -> (r: Vec<InfoRow>)
    ensures
        r@.len() == 4,
        r@[0].label@ == "Account  "@ && r@[0].color == Color::White && !r@[0].bold,
        r@[0].value@ == if c.account@.len() == 0 {
            "—"@
        } else {
            c.account@
        },
        r@[1].label@ == "Position "@ && r@[1].color == Color::White && !r@[1].bold,
        r@[1].value@ == "("@ + signed_decimal(c.x as int) + ", "@ + signed_decimal(c.y as int)
            + ")"@,
        r@[2].label@ == "Status   "@ && r@[2].bold,
        r@[2].value@ == crate::game::activity_label_of(c.last_action@),
        r@[2].color == crate::game::activity_color_of(c.last_action@),
        r@[3].label@ == "Cooldown "@ && r@[3].color == Color::DarkGray && !r@[3].bold,
        r@[3].value@ == decimal(byte_len(c.last_action@) as nat) + "s"@,
{
    let mut rows: Vec<InfoRow> = Vec::new();
    let account = if c.account.as_str().is_empty() {
        String::from_str("—")
    } else {
        c.account.clone()
    };
    rows.push(InfoRow { label: "Account  ", value: account, color: Color::White, bold: false });
    let mut pos = String::from_str("(");
    push_signed(&mut pos, c.x as i64);
    pos.append(", ");
    push_signed(&mut pos, c.y as i64);
    pos.append(")");
    rows.push(InfoRow { label: "Position ", value: pos, color: Color::White, bold: false });
    rows.push(
        InfoRow {
            label: "Status   ",
            value: String::from_str(c.activity_label()),
            color: c.activity_color(),
            bold: true,
        },
    );
    let mut cd = String::new();
    push_decimal(&mut cd, c.last_action.as_str().len() as u64);
    cd.append("s");
    rows.push(InfoRow { label: "Cooldown ", value: cd, color: Color::DarkGray, bold: false });
    rows
}

/// Events kept by the world panel.
pub const WORLD_MAX_EVENTS: usize = 20;

/// Grand Exchange entries kept by the world panel.
pub const WORLD_MAX_GE: usize = 30;

/// The world panel's own connection status.
pub enum WorldStatus {
    Connecting,
    Connected,
    Disconnected(String),
}

/// The world panel: active world events, recent Grand Exchange activity
/// (newest last) and the connection status.
pub struct WorldPanel {
    pub active_events: Vec<WorldEvent>,
    pub ge_feed: VecDeque<GEFeedEntry>,
    pub status: WorldStatus,
}

impl WorldPanel {
    /// A panel with no events or activity, connecting.
    pub fn new() -> (r: WorldPanel)
        ensures
            r.active_events@.len() == 0,
            r.ge_feed@.len() == 0,
            r.status is Connecting,
    {
        WorldPanel { active_events: Vec::new(), ge_feed: VecDeque::new(), status: WorldStatus::Connecting }
    }

    /// Updates the panel with an action: connection changes, world events
    /// arriving (the oldest dropped past `WORLD_MAX_EVENTS`) or removed by
    /// code, and Grand Exchange orders and transactions (the oldest dropped
    /// past `WORLD_MAX_GE`).
    pub fn update(&mut self, action: Action)
        ensures
            action is WsConnected ==> final(self).status is Connected,
            action matches Action::WsDisconnected(m) ==> (final(self).status matches WorldStatus::Disconnected(n) && n@ == m@),
            action is WsConnect ==> final(self).status is Connecting,
            !(action is WsConnected) && !(action is WsDisconnected) && !(action is WsConnect)
                ==> final(self).status == old(self).status,
            action matches Action::EventSpawn(e) ==> final(self).active_events@ == bounded_push(
                old(self).active_events@,
                e,
                WORLD_MAX_EVENTS as nat,
            ),
            action matches Action::EventRemoved(code) ==> final(self).active_events@ == without_code(
                old(self).active_events@,
                code@,
            ),
            !(action is EventSpawn) && !(action is EventRemoved) ==> final(self).active_events
                == old(self).active_events,
            action matches Action::GEOrderCreated(o) ==> final(self).ge_feed@ == bounded_push(
                old(self).ge_feed@,
                GEFeedEntry::Order(o),
                WORLD_MAX_GE as nat,
            ),
            action matches Action::GETransactionCompleted(t) ==> final(self).ge_feed@ == bounded_push(
                old(self).ge_feed@,
                GEFeedEntry::Transaction(t),
                WORLD_MAX_GE as nat,
            ),
            !(action is GEOrderCreated) && !(action is GETransactionCompleted) ==> final(self).ge_feed
                == old(self).ge_feed,
    {
        match action {
            Action::WsConnected => {
                self.status = WorldStatus::Connected;
            },
            Action::WsDisconnected(reason) => {
                self.status = WorldStatus::Disconnected(reason);
            },
            Action::WsConnect => {
                self.status = WorldStatus::Connecting;
            },
            Action::EventSpawn(evt) => {
                if self.active_events.len() >= WORLD_MAX_EVENTS {
                    self.active_events.remove(0);
                    assert(self.active_events@ =~= old(self).active_events@.drop_first());
                }
                self.active_events.push(evt);
            },
            Action::EventRemoved(code) => {
                let mut kept: Vec<WorldEvent> = Vec::new();
                let ghost s = self.active_events@;
                let mut i: usize = 0;
                while i < self.active_events.len()
                    invariant
                        i <= self.active_events@.len(),
                        s == self.active_events@,
                        kept@ == without_code(s.take(i as int), code@),
                    decreases self.active_events.len() - i,
                {
                    proof {
                        reveal_with_fuel(Seq::filter, 1);
                        assert(s.take(i + 1).drop_last() =~= s.take(i as int));
                        assert(s.take(i + 1).last() == s[i as int]);
                    }
                    if !same_text(self.active_events[i].code.as_str(), code.as_str()) {
                        let e = self.active_events[i].duplicate();
                        kept.push(e);
                        assert(kept@ =~= without_code(s.take(i + 1), code@));
                    } else {
                        assert(kept@ =~= without_code(s.take(i + 1), code@));
                    }
                    i = i + 1;
                }
                assert(s.take(s.len() as int) =~= s);
                self.active_events = kept;
            },
            Action::GEOrderCreated(order) => {
                push_bounded(&mut self.ge_feed, GEFeedEntry::Order(order), WORLD_MAX_GE);
            },
            Action::GETransactionCompleted(txn) => {
                push_bounded(&mut self.ge_feed, GEFeedEntry::Transaction(txn), WORLD_MAX_GE);
            },
            _ => {},
        }
    }
}

/// The world panel's status text and colour.
pub open spec fn world_status_of(s: WorldStatus) -> (Seq<char>, Color) {
    match s {
        WorldStatus::Connected => ("● connected"@, Color::Green),
        WorldStatus::Connecting => ("○ connecting…"@, Color::Yellow),
        WorldStatus::Disconnected(_) => ("✕ disconnected"@, Color::Red),
    }
}

/// The world panel's title (` World  <status> `) and its colour.
pub fn world_title(s: &WorldStatus) -> (r: (String, Color))
    ensures
        r.0@ == " World  "@ + world_status_of(*s).0 + " "@,
        r.1 == world_status_of(*s).1,
{
    let (text, color) = match s {
        WorldStatus::Connected => ("● connected", Color::Green),
        WorldStatus::Connecting => ("○ connecting…", Color::Yellow),
        WorldStatus::Disconnected(_) => ("✕ disconnected", Color::Red),
    };
    let mut t = String::from_str(" World  ");
    t.append(text);
    t.append(" ");
    (t, color)
}

/// Rows of the world panel's events block: a header and one row per
/// event, at most eight (the count taken modulo 2^16, as a `u16`
/// conversion does).
pub fn world_event_rows(n_events: usize) -> (r: u16)
    requires
        n_events % 65536 != 65535,
    ensures
        r == if n_events % 65536 < 8 {
            n_events % 65536 + 1
        } else {
            8
        },
{
    let n16 = (n_events % 65536) as u16;
    if n16 < 8 {
        n16 + 1
    } else {
        8
    }
}

/// A world panel event line: `⚑ `, the name, and ` (code)`.
pub fn world_event_line(e: &WorldEvent) -> (r: (String, String))
    ensures
        r.0@ == e.name@,
        r.1@ == " ("@ + e.code@ + ")"@,
{
    let mut code = String::from_str(" (");
    code.append(e.code.as_str());
    code.append(")");
    (e.name.clone(), code)
}

/// A world panel Grand Exchange line: the verb and a space (bold, in its
/// colour), the code, the detail, and for orders with an account the
/// account after a space.
pub struct WorldFeedLine {
    pub verb: String,
    pub color: Color,
    pub code: String,
    pub detail: String,
    pub account: String,
}

/// A world panel Grand Exchange line.
pub fn world_feed_line(entry: &GEFeedEntry) -> (r: WorldFeedLine)
    ensures
        entry matches GEFeedEntry::Order(o) ==> {
            &&& r.verb@ == (if o.order_type@ == "sell"@ {
                "SELL "@
            } else {
                "BUY  "@
            })
            &&& r.color == (if o.order_type@ == "sell"@ {
                Color::LightRed
            } else {
                Color::LightGreen
            })
            &&& r.code@ == o.code@
            &&& r.detail@ == " ×"@ + decimal(o.quantity as nat) + " @"@ + decimal(o.price as nat)
                + "g"@
            &&& r.account@ == match o.account {
                Some(a) => " "@ + a@,
                None => Seq::empty(),
            }
        },
        entry matches GEFeedEntry::Transaction(t) ==> {
            &&& r.verb@ == (if t.order_type@ == "sell"@ {
                "SOLD "@
            } else {
                "BGHT "@
            })
            &&& r.color == (if t.order_type@ == "sell"@ {
                Color::Green
            } else {
                Color::Cyan
            })
            &&& r.code@ == t.code@
            &&& r.detail@ == " ×"@ + decimal(t.quantity as nat) + "="@ + decimal(
                t.total_price as nat,
            ) + "g"@
            &&& r.account@ == Seq::<char>::empty()
        },
{
    match entry {
        GEFeedEntry::Order(o) => {
            let sell = same_text(o.order_type.as_str(), "sell");
            let mut detail = String::from_str(" ×");
            push_decimal(&mut detail, o.quantity as u64);
            detail.append(" @");
            push_decimal(&mut detail, o.price as u64);
            detail.append("g");
            let account = match &o.account {
                Some(a) => {
                    let mut t = String::from_str(" ");
                    t.append(a.as_str());
                    t
                },
                None => String::new(),
            };
            WorldFeedLine {
                verb: String::from_str(if sell { "SELL " } else { "BUY  " }),
                color: if sell { Color::LightRed } else { Color::LightGreen },
                code: o.code.clone(),
                detail,
                account,
            }
        },
        GEFeedEntry::Transaction(t) => {
            let sell = same_text(t.order_type.as_str(), "sell");
            let mut detail = String::from_str(" ×");
            push_decimal(&mut detail, t.quantity as u64);
            detail.append("=");
            push_decimal(&mut detail, t.total_price as u64);
            detail.append("g");
            WorldFeedLine {
                verb: String::from_str(if sell { "SOLD " } else { "BGHT " }),
                color: if sell { Color::Green } else { Color::Cyan },
                code: t.code.clone(),
                detail,
                account: String::new(),
            }
        },
    }
}

/// The loading screen's spinner frames.
pub open spec fn spinner_frames() -> Seq<Seq<char>> {
    seq!["⠋"@, "⠙"@, "⠸"@, "⠴"@]
}

/// The loading screen: a frame counter that drives the spinner.
pub struct LoadingScreen {
    pub tick: usize,
}

impl LoadingScreen {
    /// A loading screen at its first frame.
    pub fn new() -> (r: LoadingScreen)
        ensures
            r.tick == 0,
    {
        LoadingScreen { tick: 0 }
    }

    /// Advances one frame (wrapping) and returns the spinner frame: one
    /// frame per three rendered frames.
    pub fn next_frame(&mut self) -> (r: &'static str)
        ensures
            final(self).tick == old(self).tick.wrapping_add(1),
            r@ == spinner_frames()[((final(self).tick / 3) % 4) as int],
    {
        self.tick = self.tick.wrapping_add(1);
        let k = (self.tick / 3) % 4;
        if k == 0 {
            "⠋"
        } else if k == 1 {
            "⠙"
        } else if k == 2 {
            "⠸"
        } else {
            "⠴"
        }
    }
}

/// The loading gauge title: ` <spinner> Waiting for asset list… ` before
/// anything is queued, else ` <spinner> Sprites  done/queued `.
pub fn loading_title(spinner: &str, completed: usize, total: usize) -> (r: String)
    ensures
        total == 0 ==> r@ == " "@ + spinner@ + " Waiting for asset list… "@,
        total > 0 ==> r@ == " "@ + spinner@ + " Sprites  "@ + decimal(completed as nat) + "/"@
            + decimal(total as nat) + " "@,
{
    let mut t = String::from_str(" ");
    t.append(spinner);
    if total == 0 {
        t.append(" Waiting for asset list… ");
    } else {
        t.append(" Sprites  ");
        push_decimal(&mut t, completed as u64);
        t.append("/");
        push_decimal(&mut t, total as u64);
        t.append(" ");
    }
    t
}

/// The loading gauge width: the screen width kept within 20 and 60.
pub fn gauge_width(width: u16) -> (r: u16)
    ensures
        r == if width < 20 {
            20
        } else if width > 60 {
            60
        } else {
            width
        },
{
    if width < 20 {
        20
    } else if width > 60 {
        60
    } else {
        width
    }
}

} // verus!
