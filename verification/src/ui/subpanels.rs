//! The sub-panels of a character card: the skills grid, the stats grid,
//! the gear table and their section separators.

use vstd::prelude::*;

use crate::apply::{char_node_members_law, full_schema_members_law, reads_i32, reads_skill, reads_text};
use crate::color::Color;
use crate::images::equipment_of;
use crate::json::Json;
use crate::game::{CharacterState, CharacterView, SkillInfo};
use crate::text::{
    decimal, display_name, normalise_code, push_char, push_decimal, push_signed, signed_decimal,
    truncate, truncated,
};
use crate::ui::cards::ICON_COL_W;

verus! {

/// `n` copies of `c`.
pub open spec fn repeated(c: char, n: nat) -> Seq<char> {
    Seq::new(n, |i: int| c)
}

fn push_repeated(out: &mut String, c: char, n: usize)
    ensures
        final(out)@ == old(out)@ + repeated(c, n as nat),
{
    let mut i: usize = 0;
    while i < n
        invariant
            i <= n,
            out@ == old(out)@ + repeated(c, i as nat),
        decreases n - i,
    {
        push_char(out, c);
        i = i + 1;
        assert(out@ =~= old(out)@ + repeated(c, i as nat));
    }
}

/// A section separator in `width` columns: the label part `─ label ` and
/// the dashes that fill the rest of the row.
pub open spec fn section_label_of(label: Seq<char>, width: u16) -> (Seq<char>, Seq<char>) {
    let head = "─ "@ + label + " "@;
    (head, repeated('─', if width >= head.len() { (width - head.len()) as nat } else { 0 }))
}

/// A section separator in `width` columns.
pub fn section_label(label: &str, width: u16) -> (r: (String, String))
    ensures
        (r.0@, r.1@) == section_label_of(label@, width),
{
    let mut head = String::from_str("─ ");
    head.append(label);
    head.append(" ");
    let n = head.as_str().unicode_len();
    let mut dashes = String::new();
    push_repeated(&mut dashes, '─', (width as usize).saturating_sub(n));
    assert(dashes@ =~= repeated('─', if width >= head@.len() { (width - head@.len()) as nat } else { 0 }));
    (head, dashes)
}

/// The eight skills of a card in grid order (row by row, left then
/// right): display name, icon code and level information.
pub open spec fn skills_of(c: CharacterView) -> Seq<(Seq<char>, Seq<char>, SkillInfo)> {
    seq![
        ("Mining"@, "mining"@, c.mining),
        ("Woodcutting"@, "woodcutting"@, c.woodcutting),
        ("Fishing"@, "fishing"@, c.fishing),
        ("Weaponcrafting"@, "weaponcrafting"@, c.weaponcrafting),
        ("Gearcrafting"@, "gearcrafting"@, c.gearcrafting),
        ("Jewelrycrafting"@, "jewelrycrafting"@, c.jewelrycrafting),
        ("Cooking"@, "cooking"@, c.cooking),
        ("Alchemy"@, "alchemy"@, c.alchemy),
    ]
}

/// Each entry of the skills table carries the skill its icon code names:
/// for a character whose skills came from a schema `n`, the entry with
/// code `k` holds the members `k_level`, `k_xp` and `k_max_xp` of `n`. The
/// eight codes are distinct, and each label is its code with the first
/// letter capitalised.
pub proof fn skill_table_law(v: CharacterView, n: Json)
    ensures
        skills_of(v).len() == 8,
        forall|i: int|
            0 <= i < 8 ==> reads_skill(
                (#[trigger] skills_of(v.with_full_schema(n))[i]).2,
                n,
                skills_of(v.with_full_schema(n))[i].1,
            ),
        forall|i: int, j: int|
            0 <= i < j < 8 ==> (#[trigger] skills_of(v)[i]).1 != (#[trigger] skills_of(v)[j]).1,
        forall|i: int|
            0 <= i < 8 ==> {
                let e = #[trigger] skills_of(v)[i];
                &&& e.0.len() == e.1.len()
                &&& e.1.len() > 0
                &&& 97 <= (e.1[0] as u32) <= 122
                &&& (e.0[0] as u32) == (e.1[0] as u32) - 32
                &&& e.0.drop_first() == e.1.drop_first()
            },
{
    full_schema_members_law(v, n);
    reveal_strlit("mining");
    reveal_strlit("Mining");
    reveal_strlit("woodcutting");
    reveal_strlit("Woodcutting");
    reveal_strlit("fishing");
    reveal_strlit("Fishing");
    reveal_strlit("weaponcrafting");
    reveal_strlit("Weaponcrafting");
    reveal_strlit("gearcrafting");
    reveal_strlit("Gearcrafting");
    reveal_strlit("jewelrycrafting");
    reveal_strlit("Jewelrycrafting");
    reveal_strlit("cooking");
    reveal_strlit("Cooking");
    reveal_strlit("alchemy");
    reveal_strlit("Alchemy");
    let w = v.with_full_schema(n);
    assert forall|i: int| 0 <= i < 8 implies reads_skill(
        (#[trigger] skills_of(w)[i]).2,
        n,
        skills_of(w)[i].1,
    ) by {
        if i == 0 {} else if i == 1 {} else if i == 2 {} else if i == 3 {}
        else if i == 4 {} else if i == 5 {} else if i == 6 {} else {}
    }
    assert forall|i: int, j: int| 0 <= i < j < 8 implies (#[trigger] skills_of(v)[i]).1
        != (#[trigger] skills_of(v)[j]).1 by {
        let a = skills_of(v)[i].1;
        let b = skills_of(v)[j].1;
        if a.len() == b.len() {
            assert(a[0] != b[0] || a[1] != b[1]);
        }
    }
    assert forall|i: int| 0 <= i < 8 implies {
        let e = #[trigger] skills_of(v)[i];
        &&& e.0.len() == e.1.len()
        &&& e.1.len() > 0
        &&& 97 <= (e.1[0] as u32) <= 122
        &&& (e.0[0] as u32) == (e.1[0] as u32) - 32
        &&& e.0.drop_first() == e.1.drop_first()
    } by {
        let e = skills_of(v)[i];
        assert(e.0.drop_first() =~= e.1.drop_first());
    }
}

/// The eight skills of a card in grid order.
pub fn skill_table(c: &CharacterState) -> (r: Vec<(&'static str, &'static str, SkillInfo)>)
    ensures
        r@.map_values(|e: (&'static str, &'static str, SkillInfo)| (e.0@, e.1@, e.2)) == skills_of(
            c@,
        ),
{
    let mut v: Vec<(&'static str, &'static str, SkillInfo)> = Vec::new();
    v.push(("Mining", "mining", c.mining));
    v.push(("Woodcutting", "woodcutting", c.woodcutting));
    v.push(("Fishing", "fishing", c.fishing));
    v.push(("Weaponcrafting", "weaponcrafting", c.weaponcrafting));
    v.push(("Gearcrafting", "gearcrafting", c.gearcrafting));
    v.push(("Jewelrycrafting", "jewelrycrafting", c.jewelrycrafting));
    v.push(("Cooking", "cooking", c.cooking));
    v.push(("Alchemy", "alchemy", c.alchemy));
    assert(v@.map_values(|e: (&'static str, &'static str, SkillInfo)| (e.0@, e.1@, e.2))
        =~= skills_of(c@));
    v
}

/// The gauge colour of a skill level: deep purple from 30, forest green
/// from 20, rust from 10, slate blue from 1, dark grey at 0.
pub open spec fn skill_level_color_of(level: u32) -> Color {
    if level >= 30 {
        Color::Rgb(120, 60, 180)
    } else if level >= 20 {
        Color::Rgb(40, 120, 70)
    } else if level >= 10 {
        Color::Rgb(180, 90, 30)
    } else if level > 0 {
        Color::Rgb(60, 110, 160)
    } else {
        Color::DarkGray
    }
}

/// The gauge colour of a skill level.
pub fn skill_level_color(level: u32) -> (r: Color)
    ensures
        r == skill_level_color_of(level),
{
    if level >= 30 {
        Color::Rgb(120, 60, 180)
    } else if level >= 20 {
        Color::Rgb(40, 120, 70)
    } else if level >= 10 {
        Color::Rgb(180, 90, 30)
    } else if level > 0 {
        Color::Rgb(60, 110, 160)
    } else {
        Color::DarkGray
    }
}

/// A skill gauge label in `width` columns: the name (cut to leave room
/// for a space and the level), padding, and the level at the right.
pub open spec fn skill_label_of(name: Seq<char>, level: u32, width: u16) -> Seq<char> {
    let lv = decimal(level as nat);
    let part = truncated(name, if width >= lv.len() + 1 { (width - lv.len() - 1) as nat } else { 0 });
    let pad = if width >= part.len() + lv.len() {
        (width - part.len() - lv.len()) as nat
    } else {
        0
    };
    part + repeated(' ', pad) + lv
}

/// A skill gauge label in `width` columns.
pub fn skill_label(name: &str, level: u32, width: u16) -> (r: String)
    ensures
        r@ == skill_label_of(name@, level, width),
{
    let mut lv = String::new();
    push_decimal(&mut lv, level as u64);
    let lv_len = lv.as_str().unicode_len();
    let w = width as usize;
    let part = truncate(name, w.saturating_sub(lv_len.saturating_add(1)));
    let part_len = part.as_str().unicode_len();
    let pad = w.saturating_sub(part_len.saturating_add(lv_len));
    let mut t = part;
    push_repeated(&mut t, ' ', pad);
    t.append(lv.as_str());
    t
}

/// The styles of a skill cell: the gauge colour and boldness (bold in the
/// active skill's colour, dark grey at level 0, else the level colour),
/// and the label colour and boldness (grey at level 0, else bold white).
pub open spec fn skill_style_of(level: u32, active: bool) -> (Color, bool, Color, bool) {
    let fill = if active {
        (skill_level_color_of(level), true)
    } else if level == 0 {
        (Color::DarkGray, false)
    } else {
        (skill_level_color_of(level), false)
    };
    let label = if level == 0 {
        (Color::Gray, false)
    } else {
        (Color::White, true)
    };
    (fill.0, fill.1, label.0, label.1)
}

/// The styles of a skill cell.
pub fn skill_style(level: u32, active: bool) -> (r: (Color, bool, Color, bool))
    ensures
        r == skill_style_of(level, active),
{
    let base = skill_level_color(level);
    let (fill, bold) = if active {
        (base, true)
    } else if level == 0 {
        (Color::DarkGray, false)
    } else {
        (base, false)
    };
    let (label, label_bold) = if level == 0 {
        (Color::Gray, false)
    } else {
        (Color::White, true)
    };
    (fill, bold, label, label_bold)
}

/// One stat of the stats grid: effect icon code, label, value and accent
/// colour.
pub struct StatCell {
    pub code: &'static str,
    pub label: &'static str,
    pub value: i32,
    pub color: Color,
}

/// The stats grid of a card: the section labels with their colours, and
/// the stat rows (core, combat, attack, damage, resistance).
pub open spec fn stat_rows_of(c: CharacterView) -> Seq<Seq<(Seq<char>, Seq<char>, i32, Color)>> {
    seq![
        seq![
            ("haste"@, "Haste"@, c.haste, Color::LightCyan),
            ("critical_strike"@, "Crit"@, c.critical_strike, Color::LightYellow),
            ("wisdom"@, "Wisdom"@, c.wisdom, Color::Magenta),
            ("prospecting"@, "Prosp"@, c.prospecting, Color::Green),
        ],
        seq![
            ("initiative"@, "Init"@, c.initiative, Color::LightBlue),
            ("threat"@, "Threat"@, c.threat, Color::Red),
            ("dmg"@, "Dmg"@, c.dmg, Color::LightRed),
        ],
        seq![
            ("attack_fire"@, "Fire"@, c.attack_fire, Color::Red),
            ("attack_earth"@, "Earth"@, c.attack_earth, Color::Green),
            ("attack_water"@, "Water"@, c.attack_water, Color::Blue),
            ("attack_air"@, "Air"@, c.attack_air, Color::Cyan),
        ],
        seq![
            ("dmg_fire"@, "Fire"@, c.dmg_fire, Color::Red),
            ("dmg_earth"@, "Earth"@, c.dmg_earth, Color::Green),
            ("dmg_water"@, "Water"@, c.dmg_water, Color::Blue),
            ("dmg_air"@, "Air"@, c.dmg_air, Color::Cyan),
        ],
        seq![
            ("res_fire"@, "Fire"@, c.res_fire, Color::Red),
            ("res_earth"@, "Earth"@, c.res_earth, Color::Green),
            ("res_water"@, "Water"@, c.res_water, Color::Blue),
            ("res_air"@, "Air"@, c.res_air, Color::Cyan),
        ],
    ]
}

/// Each stat cell shows the character value its code names: after a
/// `character` node `n`, the cell with code `k` holds the integer member
/// `k` of `n` (or the value before when `n` lacks it).
pub proof fn stat_rows_law(v: CharacterView, n: Json)
    ensures
        stat_rows_of(v).len() == 5,
        forall|r: int, k: int|
            0 <= r < 5 && 0 <= k < stat_rows_of(v)[r].len() ==> {
                let after = #[trigger] stat_rows_of(v.with_char_node(n))[r][k];
                let before = stat_rows_of(v)[r][k];
                &&& after.0 == before.0
                &&& reads_i32(after.2, before.2, n, before.0)
            },
{
    char_node_members_law(v, n);
    let w = v.with_char_node(n);
    assert forall|r: int, k: int| 0 <= r < 5 && 0 <= k < stat_rows_of(v)[r].len() implies {
        let after = #[trigger] stat_rows_of(w)[r][k];
        let before = stat_rows_of(v)[r][k];
        &&& after.0 == before.0
        &&& reads_i32(after.2, before.2, n, before.0)
    } by {
        if r == 0 {} else if r == 1 {} else if r == 2 {} else if r == 3 {} else {}
    }
}

/// A stat cell as plain values.
pub open spec fn cell_view(s: StatCell) -> (Seq<char>, Seq<char>, i32, Color) {
    (s.code@, s.label@, s.value, s.color)
}

fn cell(code: &'static str, label: &'static str, value: i32, color: Color) -> (r: StatCell)
    ensures
        cell_view(r) == (code@, label@, value, color),
{
    StatCell { code, label, value, color }
}

/// The stat rows of a card (see [`stat_rows_of`]).
pub fn stat_rows(c: &CharacterState) -> (r: Vec<Vec<StatCell>>)
    ensures
        r@.len() == 5,
        forall|i: int|
            0 <= i < 5 ==> (#[trigger] r@[i])@.map_values(|s: StatCell| cell_view(s))
                == stat_rows_of(c@)[i],
{
    let mut rows: Vec<Vec<StatCell>> = Vec::new();
    let mut r0: Vec<StatCell> = Vec::new();
    r0.push(cell("haste", "Haste", c.haste, Color::LightCyan));
    r0.push(cell("critical_strike", "Crit", c.critical_strike, Color::LightYellow));
    r0.push(cell("wisdom", "Wisdom", c.wisdom, Color::Magenta));
    r0.push(cell("prospecting", "Prosp", c.prospecting, Color::Green));
    assert(r0@.map_values(|s: StatCell| cell_view(s)) =~= stat_rows_of(c@)[0]);
    let mut r1: Vec<StatCell> = Vec::new();
    r1.push(cell("initiative", "Init", c.initiative, Color::LightBlue));
    r1.push(cell("threat", "Threat", c.threat, Color::Red));
    r1.push(cell("dmg", "Dmg", c.dmg, Color::LightRed));
    assert(r1@.map_values(|s: StatCell| cell_view(s)) =~= stat_rows_of(c@)[1]);
    let mut r2: Vec<StatCell> = Vec::new();
    r2.push(cell("attack_fire", "Fire", c.attack_fire, Color::Red));
    r2.push(cell("attack_earth", "Earth", c.attack_earth, Color::Green));
    r2.push(cell("attack_water", "Water", c.attack_water, Color::Blue));
    r2.push(cell("attack_air", "Air", c.attack_air, Color::Cyan));
    assert(r2@.map_values(|s: StatCell| cell_view(s)) =~= stat_rows_of(c@)[2]);
    let mut r3: Vec<StatCell> = Vec::new();
    r3.push(cell("dmg_fire", "Fire", c.dmg_fire, Color::Red));
    r3.push(cell("dmg_earth", "Earth", c.dmg_earth, Color::Green));
    r3.push(cell("dmg_water", "Water", c.dmg_water, Color::Blue));
    r3.push(cell("dmg_air", "Air", c.dmg_air, Color::Cyan));
    assert(r3@.map_values(|s: StatCell| cell_view(s)) =~= stat_rows_of(c@)[3]);
    let mut r4: Vec<StatCell> = Vec::new();
    r4.push(cell("res_fire", "Fire", c.res_fire, Color::Red));
    r4.push(cell("res_earth", "Earth", c.res_earth, Color::Green));
    r4.push(cell("res_water", "Water", c.res_water, Color::Blue));
    r4.push(cell("res_air", "Air", c.res_air, Color::Cyan));
    assert(r4@.map_values(|s: StatCell| cell_view(s)) =~= stat_rows_of(c@)[4]);
    rows.push(r0);
    rows.push(r1);
    rows.push(r2);
    rows.push(r3);
    rows.push(r4);
    rows
}

/// The section labels of the stats grid, in order, with their colours.
pub open spec fn stat_sections_of() -> Seq<(Seq<char>, Color)> {
    seq![
        ("Core"@, Color::White),
        ("Attack"@, Color::Red),
        ("Damage"@, Color::LightRed),
        ("Resist"@, Color::Blue),
    ]
}

/// The section labels of the stats grid, in order, with their colours.
pub fn stat_sections() -> (r: Vec<(&'static str, Color)>)
    ensures
        r@.map_values(|e: (&'static str, Color)| (e.0@, e.1)) == stat_sections_of(),
{
    let mut v: Vec<(&'static str, Color)> = Vec::new();
    v.push(("Core", Color::White));
    v.push(("Attack", Color::Red));
    v.push(("Damage", Color::LightRed));
    v.push(("Resist", Color::Blue));
    assert(v@.map_values(|e: (&'static str, Color)| (e.0@, e.1)) =~= stat_sections_of());
    v
}

/// The value colour of a stat: its accent when positive, else dark grey.
pub open spec fn stat_value_color_of(value: i32, accent: Color) -> Color {
    if value > 0 {
        accent
    } else {
        Color::DarkGray
    }
}

/// The value colour of a stat.
pub fn stat_value_color(value: i32, accent: Color) -> (r: Color)
    ensures
        r == stat_value_color_of(value, accent),
{
    if value > 0 {
        accent
    } else {
        Color::DarkGray
    }
}

/// The text of a stat cell whose text area is `width` columns: the label
/// cut and padded to the width left by the value and a space, a space,
/// and the value.
pub open spec fn stat_text_of(label: Seq<char>, value: i32, width: u16) -> Seq<char> {
    let val = signed_decimal(value as int);
    let lw: nat = if width >= val.len() + 1 {
        (width - val.len() - 1) as nat
    } else {
        0
    };
    let shown = if label.len() <= lw {
        label
    } else {
        label.take(lw as int)
    };
    shown + repeated(' ', (lw - shown.len()) as nat) + " "@ + val
}

/// The text of a stat cell whose text area is `width` columns.
pub fn stat_text(label: &str, value: i32, width: u16) -> (r: String)
    ensures
        r@ == stat_text_of(label@, value, width),
{
    let mut val = String::new();
    push_signed(&mut val, value as i64);
    let val_len = val.as_str().unicode_len();
    let lw = (width as usize).saturating_sub(val_len.saturating_add(1));
    let n = label.unicode_len();
    let mut t = if n <= lw {
        String::from_str(label)
    } else {
        String::from_str(label.substring_char(0, lw))
    };
    let shown_len = if n <= lw {
        n
    } else {
        lw
    };
    push_repeated(&mut t, ' ', lw - shown_len);
    t.append(" ");
    t.append(val.as_str());
    t
}

/// The gear table of a card: eight rows of two `(label, item code)` slots.
pub open spec fn gear_rows_of(c: CharacterView) -> Seq<(Seq<char>, Seq<char>)> {
    seq![
        ("Weapon"@, c.weapon_slot),
        ("Shield"@, c.shield_slot),
        ("Helmet"@, c.helmet_slot),
        ("Body"@, c.body_armor_slot),
        ("Legs"@, c.leg_armor_slot),
        ("Boots"@, c.boots_slot),
        ("Ring 1"@, c.ring1_slot),
        ("Ring 2"@, c.ring2_slot),
        ("Amulet"@, c.amulet_slot),
        ("Rune"@, c.rune_slot),
        ("Artifact 1"@, c.artifact1_slot),
        ("Artifact 2"@, c.artifact2_slot),
        ("Artifact 3"@, c.artifact3_slot),
        ("Bag"@, c.bag_slot),
        ("Utility 1"@, c.utility1_slot),
        ("Utility 2"@, c.utility2_slot),
    ]
}

/// The schema member that each gear label shows.
pub open spec fn gear_members() -> Seq<(Seq<char>, Seq<char>)> {
    seq![
        ("Weapon"@, "weapon_slot"@),
        ("Shield"@, "shield_slot"@),
        ("Helmet"@, "helmet_slot"@),
        ("Body"@, "body_armor_slot"@),
        ("Legs"@, "leg_armor_slot"@),
        ("Boots"@, "boots_slot"@),
        ("Ring 1"@, "ring1_slot"@),
        ("Ring 2"@, "ring2_slot"@),
        ("Amulet"@, "amulet_slot"@),
        ("Rune"@, "rune_slot"@),
        ("Artifact 1"@, "artifact1_slot"@),
        ("Artifact 2"@, "artifact2_slot"@),
        ("Artifact 3"@, "artifact3_slot"@),
        ("Bag"@, "bag_slot"@),
        ("Utility 1"@, "utility1_slot"@),
        ("Utility 2"@, "utility2_slot"@),
    ]
}

/// Each gear row shows the slot its label names: for a character whose
/// gear came from a full schema `n`, the row labelled `l` holds the member
/// of `n` that `gear_members` pairs with `l` (or what was there before when
/// `n` lacks it).
pub proof fn gear_rows_law(v: CharacterView, n: Json)
    ensures
        gear_rows_of(v).len() == gear_members().len(),
        forall|i: int|
            0 <= i < 16 ==> (#[trigger] gear_rows_of(v.with_full_schema(n))[i]).0 == gear_members()[i].0
                && reads_text(gear_rows_of(v.with_full_schema(n))[i].1, gear_rows_of(v)[i].1, n, gear_members()[i].1),
{
    full_schema_members_law(v, n);
    let w = v.with_full_schema(n);
    assert forall|i: int| 0 <= i < 16 implies (#[trigger] gear_rows_of(w)[i]).0 == gear_members()[i].0
        && reads_text(gear_rows_of(w)[i].1, gear_rows_of(v)[i].1, n, gear_members()[i].1) by {
        if i < 4 {} else if i < 8 {} else if i < 12 {} else {}
    }
}

/// The gear table shows exactly the equipment whose images a card asks
/// for, in the same order.
pub proof fn gear_matches_equipment_law(c: CharacterView)
    ensures
        gear_rows_of(c).len() == equipment_of(c).len(),
        forall|i: int| 0 <= i < 16 ==> (#[trigger] gear_rows_of(c)[i]).1 == equipment_of(c)[i],
{
}

/// The gear slots of a card, left then right for each of the eight rows.
pub fn gear_slots(c: &CharacterState) -> (r: Vec<(&'static str, &String)>)
    ensures
        r@.map_values(|e: (&'static str, &String)| (e.0@, e.1@)) == gear_rows_of(c@),
{
    let mut v: Vec<(&'static str, &String)> = Vec::new();
    v.push(("Weapon", &c.weapon_slot));
    v.push(("Shield", &c.shield_slot));
    v.push(("Helmet", &c.helmet_slot));
    v.push(("Body", &c.body_armor_slot));
    v.push(("Legs", &c.leg_armor_slot));
    v.push(("Boots", &c.boots_slot));
    v.push(("Ring 1", &c.ring1_slot));
    v.push(("Ring 2", &c.ring2_slot));
    v.push(("Amulet", &c.amulet_slot));
    v.push(("Rune", &c.rune_slot));
    v.push(("Artifact 1", &c.artifact1_slot));
    v.push(("Artifact 2", &c.artifact2_slot));
    v.push(("Artifact 3", &c.artifact3_slot));
    v.push(("Bag", &c.bag_slot));
    v.push(("Utility 1", &c.utility1_slot));
    v.push(("Utility 2", &c.utility2_slot));
    assert(v@.map_values(|e: (&'static str, &String)| (e.0@, e.1@)) =~= gear_rows_of(c@));
    v
}

/// The texts of a gear slot `width` columns wide, drawn only when the
/// width leaves room for the icon column and four more: the label cut to
/// a third of the text width (at least four), and the item's display name
/// cut to the rest (or `—` for an empty slot, in dark grey).
pub open spec fn gear_cell_of(label: Seq<char>, code: Seq<char>, width: u16) -> Option<(Seq<char>, Seq<char>, Color)> {
    if width < ICON_COL_W + 4 {
        None
    } else {
        let text_w = width - ICON_COL_W;
        let lw = if text_w / 3 >= 4 {
            text_w / 3
        } else {
            4
        };
        let iw: nat = if text_w >= lw + 1 {
            (text_w - lw - 1) as nat
        } else {
            0
        };
        Some(
            (
                truncated(label, lw as nat),
                if code.len() == 0 {
                    "—"@
                } else {
                    truncated(display_name(code), iw)
                },
                if code.len() == 0 {
                    Color::DarkGray
                } else {
                    Color::Gray
                },
            ),
        )
    }
}

/// The texts of a gear slot (see [`gear_cell_of`]).
pub fn gear_cell(label: &str, code: &str, width: u16) -> (r: Option<(String, String, Color)>)
    ensures
        match r {
            Some(t) => gear_cell_of(label@, code@, width) == Some((t.0@, t.1@, t.2)),
            None => gear_cell_of(label@, code@, width) is None,
        },
{
    if width < ICON_COL_W + 4 {
        return None;
    }
    let text_w = width - ICON_COL_W;
    let lw = if text_w / 3 >= 4 {
        text_w / 3
    } else {
        4
    };
    let iw = (text_w as usize).saturating_sub(lw as usize + 1);
    let l = truncate(label, lw as usize);
    if code.is_empty() {
        Some((l, String::from_str("—"), Color::DarkGray))
    } else {
        let name = normalise_code(code);
        Some((l, truncate(name.as_str(), iw), Color::Gray))
    }
}

} // verus!
