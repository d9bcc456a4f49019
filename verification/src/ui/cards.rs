//! The character card grid: the grid shape, each card's border, title,
//! section layout, boot-animation reveal times, and the text of its
//! gauges, history, signal and goal lines.

use vstd::prelude::*;
use vstd::string::StringSliceAdditionalSpecFns;

use crate::color::Color;
use crate::game::{ActionRecord, CharacterState, CharacterView, InventorySlot, SlotView};
use crate::named::NamedMap;
use crate::ui::layout::Area;
use crate::text::{
    byte_len, decimal, push_char, push_decimal, push_signed, same_text, signed_decimal, truncate,
    truncated,
};

verus! {

/// Number of card columns in the grid.
pub const N_COLS: usize = 3;

/// Minimum card width that shows the portrait column.
pub const PORTRAIT_MIN_WIDTH: u16 = 20;

/// Width of the portrait column.
pub const PORTRAIT_COL_W: u16 = 7;

/// Width of the icon column of the stats, skills and gear sub-panels.
pub const ICON_COL_W: u16 = 3;

/// Total duration of a card's boot sequence (ms).
pub const CARD_BOOT_TOTAL_MS: u64 = 580;

/// Border-only phase of the boot sequence (ms).
pub const CARD_BORDER_PHASE_MS: u64 = 240;

/// Earliest reveal time of a card element (ms).
pub const CARD_CONTENT_START_MS: u64 = 220;

/// Latest reveal time of a card element, exclusive (ms).
pub const CARD_CONTENT_END_MS: u64 = 560;

/// Element index: portrait.
pub const EL_PORTRAIT: u8 = 0;
/// Element index: HP gauge.
pub const EL_HP: u8 = 1;
/// Element index: XP gauge.
pub const EL_XP: u8 = 2;
/// Element index: bag gauge.
pub const EL_BAG: u8 = 3;
/// Element index: cooldown gauge.
pub const EL_CD: u8 = 4;
/// Element index: skills sub-panel.
pub const EL_SKILLS: u8 = 5;
/// Element index: stats sub-panel.
pub const EL_STATS: u8 = 6;
/// Element index: gear sub-panel.
pub const EL_GEAR: u8 = 7;
/// Element index: action history.
pub const EL_HISTORY: u8 = 8;
/// Element index: signal line.
pub const EL_SIGNAL: u8 = 9;
/// Element index: goal / task line.
pub const EL_GOAL: u8 = 10;

/// The multiplicative byte hash of a name: `h = h * 31 + b` over its
/// bytes, wrapping at 64 bits.
pub open spec fn name_hash(bytes: Seq<u8>) -> u64
    decreases bytes.len(),
{
    if bytes.len() == 0 {
        0
    } else {
        name_hash(bytes.drop_last()).wrapping_mul(31).wrapping_add(bytes.last() as u64)
    }
}

/// The reveal time of element `idx` on the card of `name`: a hash of the
/// name's UTF-8 bytes and the element index, mapped into the reveal window.
pub open spec fn reveal_time(name: Seq<char>, idx: u8) -> u64 {
    let h = name_hash(vstd::utf8::encode_utf8(name));
    let combined = h.wrapping_add((idx as u64).wrapping_mul(2654435761u64));
    let r = combined.wrapping_mul(0x9e3779b97f4a7c15u64) >> 33u64;
    (CARD_CONTENT_START_MS + r % 340u64) as u64
}

/// The reveal time (ms since the card's boot) of element `idx` on the card
/// of `char_name`; the same for the same pair, always inside
/// `[CARD_CONTENT_START_MS, CARD_CONTENT_END_MS)`.
pub fn element_reveal_ms(char_name: &str, idx: u8) -> (r: u64)
    ensures
        r == reveal_time(char_name@, idx),
{
    let bytes = char_name.as_bytes();
    let mut h: u64 = 0;
    let mut i: usize = 0;
    assert(bytes@.take(0) =~= Seq::<u8>::empty());
    while i < bytes.len()
        invariant
            i <= bytes@.len(),
            bytes@ == char_name.spec_bytes(),
            h == name_hash(bytes@.take(i as int)),
        decreases bytes.len() - i,
    {
        assert(bytes@.take(i + 1).drop_last() =~= bytes@.take(i as int));
        h = h.wrapping_mul(31).wrapping_add(bytes[i] as u64);
        i = i + 1;
    }
    assert(bytes@.take(bytes@.len() as int) =~= bytes@);
    let combined = h.wrapping_add((idx as u64).wrapping_mul(2654435761u64));
    let r = combined.wrapping_mul(0x9e3779b97f4a7c15u64) >> 33u64;
    CARD_CONTENT_START_MS + r % (CARD_CONTENT_END_MS - CARD_CONTENT_START_MS)
}

/// Every element of every card reveals inside the content window, after
/// the border phase has begun and before the boot sequence ends.
pub proof fn reveal_window_law(name: Seq<char>, idx: u8)
    ensures
        CARD_CONTENT_START_MS <= reveal_time(name, idx) < CARD_CONTENT_END_MS,
        reveal_time(name, idx) < CARD_BOOT_TOTAL_MS,
{
}

/// Whether element `idx` of the card of `name` is shown `elapsed_ms` after
/// the card's boot.
pub fn revealed(elapsed_ms: u64, name: &str, idx: u8) -> (r: bool)
    ensures
        r == (elapsed_ms >= reveal_time(name@, idx)),
{
    elapsed_ms >= element_reveal_ms(name, idx)
}

/// The border colour of a card: the colour of its activity (fighting red,
/// gathering green, moving blue, crafting yellow), else cyan when selected
/// and dark grey otherwise.
pub open spec fn card_border_of(last_action: Seq<char>, selected: bool) -> Color {
    if last_action == "fight"@ || last_action == "multi_fight"@ {
        Color::Red
    } else if last_action == "gathering"@ {
        Color::Green
    } else if last_action == "movement"@ {
        Color::Blue
    } else if last_action == "crafting"@ {
        Color::Yellow
    } else if selected {
        Color::Cyan
    } else {
        Color::DarkGray
    }
}

/// The border style of a card: its colour, and whether it is bold (only
/// the selected card's border is).
pub fn card_border_style(last_action: &str, selected: bool) -> (r: (Color, bool))
    ensures
        r.0 == card_border_of(last_action@, selected),
        r.1 == selected,
{
    let color = if same_text(last_action, "fight") || same_text(last_action, "multi_fight") {
        Color::Red
    } else if same_text(last_action, "gathering") {
        Color::Green
    } else if same_text(last_action, "movement") {
        Color::Blue
    } else if same_text(last_action, "crafting") {
        Color::Yellow
    } else if selected {
        Color::Cyan
    } else {
        Color::DarkGray
    };
    (color, selected)
}

/// The boot clocks of the cards: when (in ms) each character's card first
/// appeared.
pub struct CardClocks {
    born: NamedMap<u64>,
}

impl View for CardClocks {
    type V = Map<Seq<char>, u64>;

    closed spec fn view(&self) -> Map<Seq<char>, u64> {
        self.born@
    }
}

/// How long a card born at `born` has been shown at `now_ms` (none when
/// the clock would run backwards), or `u64::MAX` for a card never seen.
pub open spec fn card_age(clocks: Map<Seq<char>, u64>, name: Seq<char>, now_ms: u64) -> u64 {
    if clocks.contains_key(name) {
        if now_ms >= clocks[name] {
            (now_ms - clocks[name]) as u64
        } else {
            0
        }
    } else {
        u64::MAX
    }
}

impl CardClocks {
    /// No card seen yet.
    pub fn new() -> (r: CardClocks)
        ensures
            r@ == Map::<Seq<char>, u64>::empty(),
    {
        CardClocks { born: NamedMap::new() }
    }

    /// Starts the clock of the card `name` at `now_ms` when it is seen for
    /// the first time (a clock already running keeps its start); returns
    /// whether it is new.
    pub fn start(&mut self, name: &str, now_ms: u64) -> (r: bool)
        ensures
            r == !old(self)@.contains_key(name@),
            r ==> final(self)@ == old(self)@.insert(name@, now_ms),
            !r ==> final(self)@ == old(self)@,
    {
        match self.born.get(name) {
            Some(_) => false,
            None => {
                self.born.insert(name, now_ms);
                true
            },
        }
    }

    /// The age of the card `name` at `now_ms` (see [`card_age`]).
    pub fn age(&self, name: &str, now_ms: u64) -> (r: u64)
        ensures
            r == card_age(self@, name@, now_ms),
    {
        match self.born.get(name) {
            Some(t) => {
                if now_ms >= *t {
                    now_ms - *t
                } else {
                    0
                }
            },
            None => u64::MAX,
        }
    }
}

/// Whether a card's body (portrait, gauges and sections) is drawn: once
/// its border phase is over, and only in an inner area of at least 10
/// columns by 5 rows.
pub fn card_body_shown(elapsed_ms: u64, width: u16, height: u16) -> (r: bool)
    ensures
        r == (elapsed_ms >= CARD_BORDER_PHASE_MS && width >= 10 && height >= 5),
{
    elapsed_ms >= CARD_BORDER_PHASE_MS && width >= 10 && height >= 5
}

/// The card title: heartbeat, level (when known), name, position and gold
/// (when any), e.g. ` ♥ Lv12 Alice [3,-2]  450g `.
pub open spec fn card_title_of(heartbeat: bool, c: CharacterView) -> Seq<char> {
    " "@ + (if heartbeat {
        "♥ "@
    } else {
        "· "@
    }) + (if c.level > 0 {
        "Lv"@ + decimal(c.level as nat) + " "@
    } else {
        Seq::empty()
    }) + c.name + " ["@ + signed_decimal(c.x as int) + ","@ + signed_decimal(c.y as int) + "]"@
        + (if c.gold > 0 {
        "  "@ + decimal(c.gold as nat) + "g"@
    } else {
        Seq::empty()
    }) + " "@
}

/// The card title.
pub fn card_title(heartbeat: bool, c: &CharacterState) -> (r: String)
    ensures
        r@ == card_title_of(heartbeat, c@),
{
    let mut t = String::from_str(" ");
    t.append(if heartbeat {
        "♥ "
    } else {
        "· "
    });
    let ghost t0 = t@;
    if c.level > 0 {
        t.append("Lv");
        push_decimal(&mut t, c.level as u64);
        t.append(" ");
    }
    proof {
        reveal_strlit("");
    }
    assert(t@ =~= t0 + (if c.level > 0 {
        "Lv"@ + decimal(c.level as nat) + " "@
    } else {
        ""@
    }));
    t.append(c.name.as_str());
    t.append(" [");
    push_signed(&mut t, c.x as i64);
    t.append(",");
    push_signed(&mut t, c.y as i64);
    t.append("]");
    let ghost t1 = t@;
    if c.gold > 0 {
        t.append("  ");
        push_decimal(&mut t, c.gold as u64);
        t.append("g");
    }
    assert(t@ =~= t1 + (if c.gold > 0 {
        "  "@ + decimal(c.gold as nat) + "g"@
    } else {
        ""@
    }));
    t.append(" ");
    assert(t@ =~= card_title_of(heartbeat, c@));
    t
}

/// The vertical plan of a card's content below its gauges.
pub struct CardPlan {
    /// Whether the portrait column shows (wide enough, skin known).
    pub portrait: bool,
    pub skills: bool,
    pub stats: bool,
    pub gear: bool,
    /// Rows of action history (at most six).
    pub history_rows: u16,
}

/// The content plan of a card whose inner area is `width` × `height`
/// cells: skills from 12 rows, stats from 21, gear from 22, and the
/// history takes what is left after the fixed rows (at most six).
pub open spec fn card_plan_of(width: u16, height: u16, has_skin: bool) -> CardPlan {
    let skills = height >= 12;
    let stats = height >= 21;
    let gear = height >= 22;
    let overhead = 7 + (if skills {
        5int
    } else {
        0
    }) + (if stats {
        10int
    } else {
        0
    }) + (if gear {
        9int
    } else {
        0
    });
    let left = if height >= overhead {
        height - overhead
    } else {
        0
    };
    CardPlan {
        portrait: width >= PORTRAIT_MIN_WIDTH && has_skin,
        skills,
        stats,
        gear,
        history_rows: (if left <= 6 {
            left
        } else {
            6
        }) as u16,
    }
}

/// The content plan of a card (see [`card_plan_of`]). Cards narrower than
/// 10 columns or lower than 5 rows show no content.
pub fn card_plan(width: u16, height: u16, has_skin: bool) -> (r: CardPlan)
    ensures
        r == card_plan_of(width, height, has_skin),
{
    let skills = height >= 12;
    let stats = height >= 21;
    let gear = height >= 22;
    let mut overhead: u16 = 7;
    if skills {
        overhead = overhead + 5;
    }
    if stats {
        overhead = overhead + 10;
    }
    if gear {
        overhead = overhead + 9;
    }
    let left = height.saturating_sub(overhead);
    CardPlan {
        portrait: width >= PORTRAIT_MIN_WIDTH && has_skin,
        skills,
        stats,
        gear,
        history_rows: if left <= 6 {
            left
        } else {
            6
        },
    }
}

/// The row lengths below the gauges of a card with plan `p`: for each
/// shown sub-panel its rows and a one-row gap (skills 4, stats 9, gear 8),
/// then the history, the signal line; the goal takes the rest.
pub open spec fn section_lengths_of(p: CardPlan) -> Seq<u16> {
    (if p.skills {
        seq![4u16, 1u16]
    } else {
        Seq::empty()
    }) + (if p.stats {
        seq![9u16, 1u16]
    } else {
        Seq::empty()
    }) + (if p.gear {
        seq![8u16, 1u16]
    } else {
        Seq::empty()
    }) + seq![p.history_rows, 1u16]
}

/// The row lengths below the gauges (see [`section_lengths_of`]).
pub fn section_lengths(p: &CardPlan) -> (r: Vec<u16>)
    ensures
        r@ == section_lengths_of(*p),
{
    let mut v: Vec<u16> = Vec::new();
    if p.skills {
        v.push(4);
        v.push(1);
    }
    let ghost v1 = v@;
    if p.stats {
        v.push(9);
        v.push(1);
    }
    let ghost v2 = v@;
    if p.gear {
        v.push(8);
        v.push(1);
    }
    let ghost v3 = v@;
    v.push(p.history_rows);
    v.push(1);
    assert(v1 =~= (if p.skills {
        seq![4u16, 1u16]
    } else {
        Seq::<u16>::empty()
    }));
    assert(v2 =~= v1 + (if p.stats {
        seq![9u16, 1u16]
    } else {
        Seq::<u16>::empty()
    }));
    assert(v3 =~= v2 + (if p.gear {
        seq![8u16, 1u16]
    } else {
        Seq::<u16>::empty()
    }));
    assert(v@ =~= section_lengths_of(*p));
    v
}

/// The number of cards in each grid row: rows of `N_COLS`, the last row
/// holding the remainder.
pub open spec fn grid_rows_of(n: nat) -> Seq<usize>
    decreases n,
{
    if n == 0 {
        Seq::empty()
    } else if n <= N_COLS {
        seq![n as usize]
    } else {
        seq![N_COLS] + grid_rows_of((n - N_COLS) as nat)
    }
}

/// The number of cards in each row of a grid of `n` cards.
pub fn grid_rows(n: usize) -> (r: Vec<usize>)
    ensures
        r@ == grid_rows_of(n as nat),
{
    let mut v: Vec<usize> = Vec::new();
    let mut left: usize = n;
    assert(grid_rows_of(n as nat) =~= v@ + grid_rows_of(left as nat));
    while left > 0
        invariant
            left <= n,
            grid_rows_of(n as nat) == v@ + grid_rows_of(left as nat),
        decreases left,
    {
        if left <= N_COLS {
            v.push(left);
            assert(grid_rows_of(n as nat) =~= v@ + grid_rows_of(0));
            left = 0;
        } else {
            v.push(N_COLS);
            assert(grid_rows_of(n as nat) =~= v@ + grid_rows_of((left - N_COLS) as nat));
            left = left - N_COLS;
        }
    }
    assert(v@ =~= v@ + grid_rows_of(0));
    v
}

/// The card drawn as selected among `n` cards: the selection, kept to the
/// last card (0 without cards).
pub fn clamp_selection(selected: usize, n: usize) -> (r: usize)
    ensures
        r == if selected < n {
            selected as int
        } else if n == 0 {
            0
        } else {
            n - 1
        },
{
    let last = n.saturating_sub(1);
    if selected < last {
        selected
    } else {
        last
    }
}

/// The sum of a list of counts.
pub open spec fn total(s: Seq<usize>) -> nat
    decreases s.len(),
{
    if s.len() == 0 {
        0
    } else {
        s[0] as nat + total(s.drop_first())
    }
}

/// The grid holds every card exactly once: the row sizes add up to the
/// number of cards, every row holds between one and `N_COLS` cards, and
/// there are `ceil(n / N_COLS)` rows.
pub proof fn grid_rows_law(n: nat)
    ensures
        total(grid_rows_of(n)) == n,
        forall|i: int| 0 <= i < grid_rows_of(n).len() ==> 1 <= #[trigger] grid_rows_of(n)[i] <= N_COLS,
        grid_rows_of(n).len() == (n + N_COLS - 1) / (N_COLS as int),
    decreases n,
{
    reveal_with_fuel(total, 2);
    if n == 0 {
    } else if n <= N_COLS {
        assert(grid_rows_of(n).drop_first() =~= Seq::<usize>::empty());
    } else {
        let rest = grid_rows_of((n - N_COLS) as nat);
        grid_rows_law((n - N_COLS) as nat);
        assert(grid_rows_of(n).drop_first() =~= rest);
        assert forall|i: int| 0 <= i < grid_rows_of(n).len() implies 1 <= #[trigger] grid_rows_of(
            n,
        )[i] <= N_COLS by {
            if i > 0 {
                assert(grid_rows_of(n)[i] == rest[i - 1]);
            }
        }
    }
}

/// The text and colour of an HP line: a gauge labelled `HP hp/max`
/// coloured by the share of HP left (green above 60 %, orange above 30 %,
/// crimson otherwise), or a grey `HP  —` when the maximum is unknown.
pub struct HpLine {
    pub text: String,
    pub color: Color,
    /// Whether the line is a gauge (the maximum is known).
    pub gauge: bool,
}

/// The HP gauge colour for `hp` out of `max` (`max > 0`).
pub open spec fn hp_color_of(hp: u32, max: u32) -> Color {
    if 5 * hp > 3 * max {
        Color::Rgb(40, 120, 70)
    } else if 10 * hp > 3 * max {
        Color::Rgb(180, 90, 30)
    } else {
        Color::Rgb(150, 40, 40)
    }
}

/// The rank of an HP gauge colour: crimson 0, orange 1, green 2.
pub open spec fn hp_rank(c: Color) -> int {
    if c == Color::Rgb(40, 120, 70) {
        2
    } else if c == Color::Rgb(180, 90, 30) {
        1
    } else {
        0
    }
}

/// More HP never gives a gauge that looks worse: full HP is green, none is
/// crimson, the colour only improves as HP grows, and it is green exactly
/// when more than 60 % is left and crimson exactly when at most 30 % is.
pub proof fn hp_color_law(hp: u32, more: u32, max: u32)
    requires
        max > 0,
        hp <= more,
    ensures
        hp_color_of(max, max) == Color::Rgb(40, 120, 70),
        hp_color_of(0, max) == Color::Rgb(150, 40, 40),
        hp_rank(hp_color_of(hp, max)) <= hp_rank(hp_color_of(more, max)),
        hp_color_of(hp, max) == Color::Rgb(40, 120, 70) <==> 100 * hp > 60 * max,
        hp_color_of(hp, max) == Color::Rgb(150, 40, 40) <==> 100 * hp <= 30 * max,
{
}

/// The HP line of a card.
pub fn hp_line(c: &CharacterState) -> (r: HpLine)
    ensures
        c.max_hp > 0 ==> r.gauge && r.color == hp_color_of(c.hp, c.max_hp) && r.text@ == "HP "@
            + decimal(c.hp as nat) + "/"@ + decimal(c.max_hp as nat),
        c.max_hp == 0 ==> !r.gauge && r.color == Color::DarkGray && r.text@ == "HP  —"@,
{
    if c.max_hp > 0 {
        let mut t = String::from_str("HP ");
        push_decimal(&mut t, c.hp as u64);
        t.append("/");
        push_decimal(&mut t, c.max_hp as u64);
        let hp = c.hp as u64;
        let max = c.max_hp as u64;
        let color = if 5 * hp > 3 * max {
            Color::Rgb(40, 120, 70)
        } else if 10 * hp > 3 * max {
            Color::Rgb(180, 90, 30)
        } else {
            Color::Rgb(150, 40, 40)
        };
        HpLine { text: t, color, gauge: true }
    } else {
        HpLine { text: String::from_str("HP  —"), color: Color::DarkGray, gauge: false }
    }
}

/// The XP gauge label, `XP xp/max`.
pub fn xp_label(c: &CharacterState) -> (r: String)
    ensures
        r@ == "XP "@ + decimal(c.xp as nat) + "/"@ + decimal(c.max_xp as nat),
{
    let mut t = String::from_str("XP ");
    push_decimal(&mut t, c.xp as u64);
    t.append("/");
    push_decimal(&mut t, c.max_xp as u64);
    t
}

/// The total quantity of a list of inventory slots.
pub open spec fn quantity_sum(s: Seq<SlotView>) -> nat
    decreases s.len(),
{
    if s.len() == 0 {
        0
    } else {
        quantity_sum(s.drop_last()) + s.last().quantity as nat
    }
}

/// The bag gauge colour for `count` items in a bag of `capacity`
/// (zero counting as one): crimson above 90 %, orange above 70 %, slate
/// blue otherwise.
pub open spec fn bag_color_of(count: nat, capacity: u32) -> Color {
    let m: int = if capacity > 0 {
        capacity as int
    } else {
        1
    };
    if 10 * count > 9 * m {
        Color::Rgb(150, 40, 40)
    } else if 10 * count > 7 * m {
        Color::Rgb(180, 90, 30)
    } else {
        Color::Rgb(60, 110, 160)
    }
}

/// The bag gauge of a card: the label `Bag items/capacity`, its colour,
/// and the item count. The item count must fit in 32 bits.
pub fn bag_line(c: &CharacterState) -> (r: (String, Color, u32))
    requires
        quantity_sum(crate::game::slots_view(c.inventory@)) <= u32::MAX,
    ensures
        r.2 == quantity_sum(crate::game::slots_view(c.inventory@)),
        r.1 == bag_color_of(r.2 as nat, c.inventory_max_items),
        r.0@ == "Bag "@ + decimal(r.2 as nat) + "/"@ + decimal(c.inventory_max_items as nat),
{
    let ghost sv = crate::game::slots_view(c.inventory@);
    let mut count: u32 = 0;
    let mut i: usize = 0;
    assert(sv.take(0) =~= Seq::<SlotView>::empty());
    while i < c.inventory.len()
        invariant
            i <= c.inventory@.len(),
            sv == crate::game::slots_view(c.inventory@),
            quantity_sum(sv) <= u32::MAX,
            count == quantity_sum(sv.take(i as int)),
        decreases c.inventory.len() - i,
    {
        assert(sv.take(i + 1).drop_last() =~= sv.take(i as int));
        proof {
            lemma_quantity_sum_prefix(sv, i + 1);
        }
        count = count + c.inventory[i].quantity;
        i = i + 1;
    }
    assert(sv.take(sv.len() as int) =~= sv);
    let m: u64 = if c.inventory_max_items > 0 {
        c.inventory_max_items as u64
    } else {
        1
    };
    let n = count as u64;
    let color = if 10 * n > 9 * m {
        Color::Rgb(150, 40, 40)
    } else if 10 * n > 7 * m {
        Color::Rgb(180, 90, 30)
    } else {
        Color::Rgb(60, 110, 160)
    };
    let mut t = String::from_str("Bag ");
    push_decimal(&mut t, count as u64);
    t.append("/");
    push_decimal(&mut t, c.inventory_max_items as u64);
    (t, color, count)
}

proof fn lemma_quantity_sum_prefix(s: Seq<SlotView>, k: int)
    requires
        0 <= k <= s.len(),
    ensures
        quantity_sum(s.take(k)) <= quantity_sum(s),
    decreases s.len(),
{
    if k < s.len() {
        assert(s.drop_last().take(k) =~= s.take(k));
        lemma_quantity_sum_prefix(s.drop_last(), k);
    } else {
        assert(s.take(k) =~= s);
    }
}

/// The icon and colour of an account log type in the card history.
pub open spec fn log_icon_of(t: Seq<char>) -> (Seq<char>, Color) {
    if t == "fight"@ || t == "multi_fight"@ {
        ("✕"@, Color::Red)
    } else if t == "gathering"@ {
        ("⌃"@, Color::Green)
    } else if t == "crafting"@ {
        ("◈"@, Color::Yellow)
    } else if t == "movement"@ {
        ("→"@, Color::Cyan)
    } else if t == "rest"@ {
        ("♥"@, Color::Blue)
    } else if t == "task_completed"@ {
        ("✓"@, Color::Magenta)
    } else if t == "new_task"@ {
        ("+"@, Color::Magenta)
    } else if t == "recycling"@ {
        ("♻"@, Color::LightYellow)
    } else if t == "buy_ge"@ || t == "sell_ge"@ || t == "create_buy_order_ge"@ || t
        == "fill_buy_order_ge"@ {
        ("$"@, Color::Cyan)
    } else if t == "deposit_item"@ || t == "deposit_gold"@ {
        ("▼"@, Color::Gray)
    } else if t == "withdraw_item"@ || t == "withdraw_gold"@ {
        ("▲"@, Color::Gray)
    } else {
        ("·"@, Color::DarkGray)
    }
}

/// The icon and colour of an account log type in the card history.
pub fn log_type_icon(log_type: &str) -> (r: (&'static str, Color))
    ensures
        (r.0@, r.1) == log_icon_of(log_type@),
{
    let t = log_type;
    if same_text(t, "fight") || same_text(t, "multi_fight") {
        ("✕", Color::Red)
    } else if same_text(t, "gathering") {
        ("⌃", Color::Green)
    } else if same_text(t, "crafting") {
        ("◈", Color::Yellow)
    } else if same_text(t, "movement") {
        ("→", Color::Cyan)
    } else if same_text(t, "rest") {
        ("♥", Color::Blue)
    } else if same_text(t, "task_completed") {
        ("✓", Color::Magenta)
    } else if same_text(t, "new_task") {
        ("+", Color::Magenta)
    } else if same_text(t, "recycling") {
        ("♻", Color::LightYellow)
    } else if same_text(t, "buy_ge") || same_text(t, "sell_ge") || same_text(
        t,
        "create_buy_order_ge",
    ) || same_text(t, "fill_buy_order_ge") {
        ("$", Color::Cyan)
    } else if same_text(t, "deposit_item") || same_text(t, "deposit_gold") {
        ("▼", Color::Gray)
    } else if same_text(t, "withdraw_item") || same_text(t, "withdraw_gold") {
        ("▲", Color::Gray)
    } else {
        ("·", Color::DarkGray)
    }
}

/// One history line: icon, its colour, and the description cut to the
/// width less the icon's byte length and a space.
pub struct HistoryLine {
    pub icon: &'static str,
    pub color: Color,
    pub text: String,
}

/// The description width of a history line in `width` columns after
/// `icon` and a space (the icon counted in bytes).
pub open spec fn history_text_width(icon: Seq<char>, width: u16) -> nat {
    if width as int >= byte_len(icon) + 1 {
        (width - byte_len(icon) - 1) as nat
    } else {
        0
    }
}

/// Whether `line` shows the record `rec` in `width` columns.
pub open spec fn shows_record(line: HistoryLine, rec: ActionRecord, width: u16) -> bool {
    &&& (line.icon@, line.color) == log_icon_of(rec.log_type@)
    &&& line.text@ == truncated(rec.description@, history_text_width(line.icon@, width))
}

/// The last `rows` records of a history, oldest first, as lines of
/// `width` columns.
pub fn history_lines(history: &std::collections::VecDeque<ActionRecord>, rows: u16, width: u16) -> (r: Vec<HistoryLine>)
    ensures
        r@.len() == if history@.len() <= rows as nat {
            history@.len()
        } else {
            rows as nat
        },
        forall|i: int|
            0 <= i < r@.len() ==> shows_record(
                #[trigger] r@[i],
                history@[history@.len() - r@.len() + i],
                width,
            ),
{
    let n = history.len();
    let take = if n <= rows as usize {
        n
    } else {
        rows as usize
    };
    let start = n - take;
    let mut v: Vec<HistoryLine> = Vec::new();
    let mut i: usize = start;
    while i < n
        invariant
            start <= i <= n,
            n == history@.len(),
            start == n - take,
            v@.len() == i - start,
            forall|j: int|
                0 <= j < v@.len() ==> shows_record(#[trigger] v@[j], history@[start + j], width),
        decreases n - i,
    {
        let rec = &history[i];
        let (icon, color) = log_type_icon(rec.log_type.as_str());
        let w = (width as usize).saturating_sub(icon.len().saturating_add(1));
        let text = truncate(rec.description.as_str(), w);
        v.push(HistoryLine { icon, color, text });
        i = i + 1;
    }
    v
}

/// The signal line: while cooling down it is the cooldown timer (drawn
/// yellow by the caller), otherwise the last description or `—` in grey.
pub open spec fn signal_of(cooling: bool, last_description: Seq<char>) -> (Option<Seq<char>>, Color) {
    if cooling {
        (None, Color::Yellow)
    } else if last_description.len() > 0 {
        (Some(last_description), Color::DarkGray)
    } else {
        (Some("—"@), Color::DarkGray)
    }
}

/// The signal line text (none while cooling down) and colour.
pub fn card_signal(cooling: bool, last_description: &str) -> (r: (Option<String>, Color))
    ensures
        (match r.0 {
            Some(t) => Some(t@),
            None => None,
        }, r.1) == signal_of(cooling, last_description@),
{
    if cooling {
        (None, Color::Yellow)
    } else if !last_description.is_empty() {
        (Some(String::from_str(last_description)), Color::DarkGray)
    } else {
        (Some(String::from_str("—")), Color::DarkGray)
    }
}

/// The goal lines of a card: with a task, the activity label and the task
/// (cut to the width less six); without, the activity label followed by
/// `: ` and the last description cut to fit, or the label alone.
pub struct GoalLines {
    pub headline: String,
    pub task: Option<String>,
    pub color: Color,
}

/// The goal headline of a card without a task.
pub open spec fn goal_headline_of(c: CharacterView, width: u16) -> Seq<char> {
    let act = crate::game::activity_label_of(c.last_action);
    if c.last_description.len() == 0 {
        act
    } else {
        act + ": "@ + truncated(
            c.last_description,
            if width as int >= byte_len(act) + 2 {
                (width - byte_len(act) - 2) as nat
            } else {
                0
            },
        )
    }
}

/// The goal lines of a card in `width` columns.
pub fn goal_lines(c: &CharacterState, width: u16) -> (r: GoalLines)
    ensures
        r.color == crate::game::activity_color_of(c.last_action@),
        c.task@.len() > 0 ==> r.headline@ == crate::game::activity_label_of(c.last_action@),
        c.task@.len() > 0 ==> (r.task matches Some(t) && t@ == truncated(
            crate::game::task_text(c.task@, c.task_progress, c.task_total),
            if width >= 6 {
                (width - 6) as nat
            } else {
                0
            },
        )),
        c.task@.len() == 0 ==> r.headline@ == goal_headline_of(c@, width) && r.task is None,
{
    let color = c.activity_color();
    let act = c.activity_label();
    match c.task_display() {
        Some(t) => {
            let task = truncate(t.as_str(), (width as usize).saturating_sub(6));
            GoalLines { headline: String::from_str(act), task: Some(task), color }
        },
        None => {
            if c.last_description.as_str().is_empty() {
                GoalLines { headline: String::from_str(act), task: None, color }
            } else {
                let mut h = String::from_str(act);
                h.append(": ");
                let d = truncate(
                    c.last_description.as_str(),
                    (width as usize).saturating_sub(act.len().saturating_add(2)),
                );
                h.append(d.as_str());
                GoalLines { headline: h, task: None, color }
            }
        },
    }
}

/// The placeholder shown while a portrait loads: the first character of
/// the name, or `?` for an empty name.
pub fn portrait_initial(name: &str) -> (r: char)
    ensures
        name@.len() > 0 ==> r == name@[0],
        name@.len() == 0 ==> r == '?',
{
    if name.unicode_len() > 0 {
        name.get_char(0)
    } else {
        '?'
    }
}

/// A band of the selected card's border pulse.
#[derive(Clone, Copy, Debug, PartialEq, Eq, Structural)]
pub enum Pulse {
    /// The bright head (2 cells).
    Bright,
    /// The core body in the base colour (3 cells).
    Base,
    /// The fading tail (4 cells).
    Dark,
    /// The long dark gap (15 cells).
    Darkest,
}

/// The band of position `i` along the repeating 24-cell pulse pattern.
pub open spec fn pulse_of(i: int) -> Pulse {
    let k = i % 24;
    if k < 2 {
        Pulse::Bright
    } else if k < 5 {
        Pulse::Base
    } else if k < 9 {
        Pulse::Dark
    } else {
        Pulse::Darkest
    }
}

/// The band of the `k`-th border cell when the pulse has moved `offset`
/// cells.
pub fn pulse_at(offset: usize, k: usize) -> (r: Pulse)
    ensures
        r == pulse_of(offset + k),
{
    let i = (offset % 24 + k % 24) % 24;
    proof {
        vstd::arithmetic::div_mod::lemma_add_mod_noop(offset as int, k as int, 24);
    }
    if i < 2 {
        Pulse::Bright
    } else if i < 5 {
        Pulse::Base
    } else if i < 9 {
        Pulse::Dark
    } else {
        Pulse::Darkest
    }
}

/// How far the pulse has moved `elapsed_ms` after start: 14 cells per
/// second, rounded down (and held at `usize::MAX`).
pub fn pulse_offset(elapsed_ms: u64) -> (r: usize)
    ensures
        r == if elapsed_ms * 14 / 1000 <= usize::MAX {
            elapsed_ms * 14 / 1000
        } else {
            usize::MAX as int
        },
{
    let q: u64 = elapsed_ms / 1000 * 14 + elapsed_ms % 1000 * 14 / 1000;
    assert(q == elapsed_ms * 14 / 1000) by (nonlinear_arith)
        requires
            q == elapsed_ms / 1000 * 14 + elapsed_ms % 1000 * 14 / 1000,
    {
        let a = elapsed_ms / 1000;
        let b = elapsed_ms % 1000;
        assert(elapsed_ms == a * 1000 + b);
        assert(elapsed_ms * 14 == a * 14 * 1000 + b * 14);
    }
    if q <= usize::MAX as u64 {
        q as usize
    } else {
        usize::MAX
    }
}

/// The border cells of `area` in pulse order: the top row left to right,
/// the right column downwards, the bottom row right to left, and the left
/// column upwards (corners once each).
pub open spec fn border_path_of(a: Area) -> Seq<(int, int)> {
    let w = a.width as int;
    let h = a.height as int;
    Seq::new(
        (2 * w + 2 * (h - 2)) as nat,
        |i: int|
            if i < w {
                (a.x + i, a.y as int)
            } else if i < w + (h - 2) {
                (a.x + w - 1, a.y + 1 + (i - w))
            } else if i < 2 * w + (h - 2) {
                (a.x + w - 1 - (i - w - (h - 2)), a.y + h - 1)
            } else {
                (a.x as int, a.y + h - 2 - (i - 2 * w - (h - 2)))
            },
    )
}

/// The border cells of `area` in pulse order (none for areas smaller than
/// 2×2).
pub fn border_path(a: Area) -> (r: Vec<(u16, u16)>)
    requires
        a.x + a.width <= u16::MAX,
        a.y + a.height <= u16::MAX,
    ensures
        a.width < 2 || a.height < 2 ==> r@.len() == 0,
        a.width >= 2 && a.height >= 2 ==> r@.len() == border_path_of(a).len() && forall|i: int|
            0 <= i < r@.len() ==> ((#[trigger] r@[i]).0 as int, r@[i].1 as int)
                == border_path_of(a)[i],
{
    let mut v: Vec<(u16, u16)> = Vec::new();
    if a.width < 2 || a.height < 2 {
        return v;
    }
    let ghost p = border_path_of(a);
    let w = a.width;
    let h = a.height;
    let mut i: u16 = 0;
    while i < w
        invariant
            a.width >= 2 && a.height >= 2,
            a.x + a.width <= u16::MAX,
            a.y + a.height <= u16::MAX,
            w == a.width,
            h == a.height,
            p == border_path_of(a),
            i <= w,
            v@.len() == i,
            forall|j: int| 0 <= j < v@.len() ==> ((#[trigger] v@[j]).0 as int, v@[j].1 as int) == p[j],
        decreases w - i,
    {
        v.push((a.x + i, a.y));
        i = i + 1;
    }
    let mut j: u16 = 0;
    while j < h - 2
        invariant
            a.width >= 2 && a.height >= 2,
            a.x + a.width <= u16::MAX,
            a.y + a.height <= u16::MAX,
            w == a.width,
            h == a.height,
            p == border_path_of(a),
            j <= h - 2,
            v@.len() == w + j,
            forall|k: int| 0 <= k < v@.len() ==> ((#[trigger] v@[k]).0 as int, v@[k].1 as int) == p[k],
        decreases h - 2 - j,
    {
        v.push((a.x + w - 1, a.y + 1 + j));
        j = j + 1;
    }
    let mut i: u16 = 0;
    while i < w
        invariant
            a.width >= 2 && a.height >= 2,
            a.x + a.width <= u16::MAX,
            a.y + a.height <= u16::MAX,
            w == a.width,
            h == a.height,
            p == border_path_of(a),
            i <= w,
            v@.len() == w + (h - 2) + i,
            forall|k: int| 0 <= k < v@.len() ==> ((#[trigger] v@[k]).0 as int, v@[k].1 as int) == p[k],
        decreases w - i,
    {
        v.push((a.x + w - 1 - i, a.y + h - 1));
        i = i + 1;
    }
    let mut j: u16 = 0;
    while j < h - 2
        invariant
            a.width >= 2 && a.height >= 2,
            a.x + a.width <= u16::MAX,
            a.y + a.height <= u16::MAX,
            w == a.width,
            h == a.height,
            p == border_path_of(a),
            j <= h - 2,
            v@.len() == 2 * w + (h - 2) + j,
            forall|k: int| 0 <= k < v@.len() ==> ((#[trigger] v@[k]).0 as int, v@[k].1 as int) == p[k],
        decreases h - 2 - j,
    {
        v.push((a.x, a.y + h - 2 - j));
        j = j + 1;
    }
    v
}

} // verus!
