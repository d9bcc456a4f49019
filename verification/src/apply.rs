//! Applying character payloads (the `character` node of an account log,
//! or a full character schema) to a character's state.

use vstd::prelude::*;

use crate::game::{
    effects_view, slots_view, CharacterEffect, CharacterState, CharacterView, EffectView,
    InventorySlot, SkillInfo, SlotView,
};
use crate::json::{
    field_i64, field_text, field_u64, get_i64, get_str, get_u64, json_str, text_or_empty, Json,
};

verus! {

/// `old` replaced by member `key` read as an unsigned integer and cut to 32
/// bits, when the member is one.
pub open spec fn upd_u32(old: u32, n: Json, key: Seq<char>) -> u32 {
    match field_u64(n, key) {
        Some(v) => v as u32,
        None => old,
    }
}

/// `old` replaced by member `key` read as a signed integer and cut to 32
/// bits, when the member is one.
pub open spec fn upd_i32(old: i32, n: Json, key: Seq<char>) -> i32 {
    match field_i64(n, key) {
        Some(v) => v as i32,
        None => old,
    }
}

/// `old` replaced by member `key` when it is a string.
pub open spec fn upd_text(old: Seq<char>, n: Json, key: Seq<char>) -> Seq<char> {
    match field_text(n, key) {
        Some(t) => t,
        None => old,
    }
}

/// Member `key` as an unsigned integer, zero when missing or not one.
pub open spec fn u64_or_zero(n: Json, key: Seq<char>) -> u64 {
    match field_u64(n, key) {
        Some(v) => v,
        None => 0,
    }
}

/// The elements of member `key`, when it is an array.
pub open spec fn field_elements(n: Json, key: Seq<char>) -> Option<Seq<Json>> {
    match n.field(key) {
        Some(m) => m.elements(),
        None => None,
    }
}

/// A skill read from its level, XP and maximum-XP members (zero when
/// missing), each cut to 32 bits.
pub open spec fn skill_from(n: Json, level: Seq<char>, xp: Seq<char>, max_xp: Seq<char>) -> SkillInfo {
    SkillInfo {
        level: u64_or_zero(n, level) as u32,
        xp: u64_or_zero(n, xp) as u32,
        max_xp: u64_or_zero(n, max_xp) as u32,
    }
}

/// An inventory slot read from its JSON object.
pub open spec fn slot_from(j: Json) -> SlotView {
    SlotView {
        slot: u64_or_zero(j, "slot"@) as u32,
        code: text_or_empty(j, "code"@),
        quantity: u64_or_zero(j, "quantity"@) as u32,
    }
}

/// The slots read from an inventory array, keeping those with an item code
/// and a non-zero quantity.
pub open spec fn slots_from(a: Seq<Json>) -> Seq<SlotView>
    decreases a.len(),
{
    if a.len() == 0 {
        Seq::empty()
    } else {
        let rest = slots_from(a.drop_last());
        let s = slot_from(a.last());
        if s.code.len() == 0 || s.quantity == 0 {
            rest
        } else {
            rest.push(s)
        }
    }
}

/// The name of an effect: member `name` as text when present (empty when
/// not a string), else member `code` as text.
pub open spec fn effect_name(j: Json) -> Seq<char> {
    match j.field("name"@) {
        Some(m) => match m.text() {
            Some(t) => t,
            None => Seq::empty(),
        },
        None => text_or_empty(j, "code"@),
    }
}

/// The value of an effect: member `value` when present, else member
/// `stacks`, read as a signed integer (zero when not one), cut to 32 bits.
pub open spec fn effect_value(j: Json) -> i32 {
    let v = match j.field("value"@) {
        Some(m) => m.i64_value(),
        None => match j.field("stacks"@) {
            Some(m) => m.i64_value(),
            None => None,
        },
    };
    match v {
        Some(i) => i as i32,
        None => 0,
    }
}

/// An effect read from its JSON object; `None` when it has no name.
pub open spec fn effect_from(j: Json) -> Option<EffectView> {
    if effect_name(j).len() == 0 {
        None
    } else {
        Some(EffectView { name: effect_name(j), code: text_or_empty(j, "code"@), value: effect_value(j) })
    }
}

/// The effects read from an effects array, skipping unnamed ones.
pub open spec fn effects_from(a: Seq<Json>) -> Seq<EffectView>
    decreases a.len(),
{
    if a.len() == 0 {
        Seq::empty()
    } else {
        let rest = effects_from(a.drop_last());
        match effect_from(a.last()) {
            Some(e) => rest.push(e),
            None => rest,
        }
    }
}

impl CharacterView {
    /// The state after applying the `character` node of an account log:
    /// vitals, level, gold, position, speed, task, attributes, elemental
    /// values and cooldown are taken from the node where present; the skin
    /// only when none is known yet.
    pub open spec fn with_char_node(self, n: Json) -> CharacterView {
        CharacterView {
            hp: upd_u32(self.hp, n, "hp"@),
            max_hp: upd_u32(self.max_hp, n, "max_hp"@),
            xp: upd_u32(self.xp, n, "xp"@),
            max_xp: upd_u32(self.max_xp, n, "max_xp"@),
            level: upd_u32(self.level, n, "level"@),
            gold: upd_u32(self.gold, n, "gold"@),
            x: upd_i32(self.x, n, "x"@),
            y: upd_i32(self.y, n, "y"@),
            map_id: upd_i32(self.map_id, n, "map_id"@),
            speed: upd_i32(self.speed, n, "speed"@),
            skin: if self.skin.len() == 0 { upd_text(self.skin, n, "skin"@) } else { self.skin },
            task: upd_text(self.task, n, "task"@),
            task_type: upd_text(self.task_type, n, "task_type"@),
            task_progress: upd_u32(self.task_progress, n, "task_progress"@),
            task_total: upd_u32(self.task_total, n, "task_total"@),
            haste: upd_i32(self.haste, n, "haste"@),
            critical_strike: upd_i32(self.critical_strike, n, "critical_strike"@),
            wisdom: upd_i32(self.wisdom, n, "wisdom"@),
            prospecting: upd_i32(self.prospecting, n, "prospecting"@),
            initiative: upd_i32(self.initiative, n, "initiative"@),
            threat: upd_i32(self.threat, n, "threat"@),
            attack_fire: upd_i32(self.attack_fire, n, "attack_fire"@),
            attack_earth: upd_i32(self.attack_earth, n, "attack_earth"@),
            attack_water: upd_i32(self.attack_water, n, "attack_water"@),
            attack_air: upd_i32(self.attack_air, n, "attack_air"@),
            dmg: upd_i32(self.dmg, n, "dmg"@),
            dmg_fire: upd_i32(self.dmg_fire, n, "dmg_fire"@),
            dmg_earth: upd_i32(self.dmg_earth, n, "dmg_earth"@),
            dmg_water: upd_i32(self.dmg_water, n, "dmg_water"@),
            dmg_air: upd_i32(self.dmg_air, n, "dmg_air"@),
            res_fire: upd_i32(self.res_fire, n, "res_fire"@),
            res_earth: upd_i32(self.res_earth, n, "res_earth"@),
            res_water: upd_i32(self.res_water, n, "res_water"@),
            res_air: upd_i32(self.res_air, n, "res_air"@),
            cooldown_secs: upd_i32(self.cooldown_secs, n, "cooldown"@),
            cooldown_expiration: upd_text(self.cooldown_expiration, n, "cooldown_expiration"@),
            ..self
        }
    }

    /// The state after applying a full character schema: everything the
    /// `character` node sets, then the eight skills (zero when missing), all
    /// equipment slots, the inventory size and, when given as arrays, the
    /// inventory and effects.
    pub open spec fn with_full_schema(self, n: Json) -> CharacterView {
        let c = self.with_char_node(n);
        CharacterView {
            mining: skill_from(n, "mining_level"@, "mining_xp"@, "mining_max_xp"@),
            woodcutting: skill_from(n, "woodcutting_level"@, "woodcutting_xp"@, "woodcutting_max_xp"@),
            fishing: skill_from(n, "fishing_level"@, "fishing_xp"@, "fishing_max_xp"@),
            weaponcrafting: skill_from(n, "weaponcrafting_level"@, "weaponcrafting_xp"@, "weaponcrafting_max_xp"@),
            gearcrafting: skill_from(n, "gearcrafting_level"@, "gearcrafting_xp"@, "gearcrafting_max_xp"@),
            jewelrycrafting: skill_from(n, "jewelrycrafting_level"@, "jewelrycrafting_xp"@, "jewelrycrafting_max_xp"@),
            cooking: skill_from(n, "cooking_level"@, "cooking_xp"@, "cooking_max_xp"@),
            alchemy: skill_from(n, "alchemy_level"@, "alchemy_xp"@, "alchemy_max_xp"@),
            weapon_slot: upd_text(c.weapon_slot, n, "weapon_slot"@),
            rune_slot: upd_text(c.rune_slot, n, "rune_slot"@),
            shield_slot: upd_text(c.shield_slot, n, "shield_slot"@),
            helmet_slot: upd_text(c.helmet_slot, n, "helmet_slot"@),
            body_armor_slot: upd_text(c.body_armor_slot, n, "body_armor_slot"@),
            leg_armor_slot: upd_text(c.leg_armor_slot, n, "leg_armor_slot"@),
            boots_slot: upd_text(c.boots_slot, n, "boots_slot"@),
            ring1_slot: upd_text(c.ring1_slot, n, "ring1_slot"@),
            ring2_slot: upd_text(c.ring2_slot, n, "ring2_slot"@),
            amulet_slot: upd_text(c.amulet_slot, n, "amulet_slot"@),
            artifact1_slot: upd_text(c.artifact1_slot, n, "artifact1_slot"@),
            artifact2_slot: upd_text(c.artifact2_slot, n, "artifact2_slot"@),
            artifact3_slot: upd_text(c.artifact3_slot, n, "artifact3_slot"@),
            utility1_slot: upd_text(c.utility1_slot, n, "utility1_slot"@),
            utility1_slot_quantity: upd_u32(c.utility1_slot_quantity, n, "utility1_slot_quantity"@),
            utility2_slot: upd_text(c.utility2_slot, n, "utility2_slot"@),
            utility2_slot_quantity: upd_u32(c.utility2_slot_quantity, n, "utility2_slot_quantity"@),
            bag_slot: upd_text(c.bag_slot, n, "bag_slot"@),
            inventory_max_items: upd_u32(c.inventory_max_items, n, "inventory_max_items"@),
            inventory: match field_elements(n, "inventory"@) {
                Some(a) => slots_from(a),
                None => c.inventory,
            },
            effects: match field_elements(n, "effects"@) {
                Some(a) => effects_from(a),
                None => c.effects,
            },
            ..c
        }
    }
}

fn set_u32(field: &mut u32, node: &Json, key: &str)
    ensures
        *final(field) == upd_u32(*old(field), *node, key@),
{
    match get_u64(node, key) {
        Some(v) => {
            *field = v as u32;
        },
        None => {},
    }
}

fn set_i32(field: &mut i32, node: &Json, key: &str)
    ensures
        *final(field) == upd_i32(*old(field), *node, key@),
{
    match get_i64(node, key) {
        Some(v) => {
            *field = v as i32;
        },
        None => {},
    }
}

fn set_text(field: &mut String, node: &Json, key: &str)
    ensures
        final(field)@ == upd_text(old(field)@, *node, key@),
{
    match get_str(node, key) {
        Some(t) => {
            *field = String::from_str(t);
        },
        None => {},
    }
}

fn u64_member_or_zero(node: &Json, key: &str) -> (r: u64)
    ensures
        r == u64_or_zero(*node, key@),
{
    match get_u64(node, key) {
        Some(v) => v,
        None => 0,
    }
}

fn read_skill(node: &Json, level: &str, xp: &str, max_xp: &str) -> (r: SkillInfo)
    ensures
        r == skill_from(*node, level@, xp@, max_xp@),
{
    SkillInfo {
        level: u64_member_or_zero(node, level) as u32,
        xp: u64_member_or_zero(node, xp) as u32,
        max_xp: u64_member_or_zero(node, max_xp) as u32,
    }
}

fn read_slots(arr: &Vec<Json>) -> (r: Vec<InventorySlot>)
    ensures
        slots_view(r@) == slots_from(arr@),
{
    let mut r: Vec<InventorySlot> = Vec::new();
    let mut i: usize = 0;
    while i < arr.len()
        invariant
            i <= arr@.len(),
            slots_view(r@) == slots_from(arr@.take(i as int)),
        decreases arr.len() - i,
    {
        let j = &arr[i];
        let code = json_str(j, "code");
        let quantity = u64_member_or_zero(j, "quantity") as u32;
        let slot = u64_member_or_zero(j, "slot") as u32;
        assert(arr@.take(i + 1).drop_last() =~= arr@.take(i as int));
        assert(arr@.take(i + 1).last() == arr@[i as int]);
        if !code.as_str().is_empty() && quantity != 0 {
            let ghost before = r@;
            let s = InventorySlot { slot, code, quantity };
            r.push(s);
            assert(slots_view(r@) =~= slots_view(before).push(s@));
            assert(s@ =~~= slot_from(arr@[i as int]));
        }
        i = i + 1;
    }
    assert(arr@.take(arr@.len() as int) =~= arr@);
    r
}

fn read_effect(j: &Json) -> (r: Option<CharacterEffect>)
    ensures
        r matches Some(e) ==> effect_from(*j) == Some(e@),
        r is None ==> effect_from(*j) is None,
{
    let name = match j.get("name") {
        Some(m) => match m.as_str() {
            Some(t) => String::from_str(t),
            None => String::new(),
        },
        None => json_str(j, "code"),
    };
    if name.as_str().is_empty() {
        return None;
    }
    let code = json_str(j, "code");
    let v = match j.get("value") {
        Some(m) => m.as_i64(),
        None => match j.get("stacks") {
            Some(m) => m.as_i64(),
            None => None,
        },
    };
    let value: i32 = match v {
        Some(i) => i as i32,
        None => 0,
    };
    let e = CharacterEffect { name, code, value };
    assert(e@ =~~= effect_from(*j)->0);
    Some(e)
}

fn read_effects(arr: &Vec<Json>) -> (r: Vec<CharacterEffect>)
    ensures
        effects_view(r@) == effects_from(arr@),
{
    let mut r: Vec<CharacterEffect> = Vec::new();
    let mut i: usize = 0;
    while i < arr.len()
        invariant
            i <= arr@.len(),
            effects_view(r@) == effects_from(arr@.take(i as int)),
        decreases arr.len() - i,
    {
        assert(arr@.take(i + 1).drop_last() =~= arr@.take(i as int));
        assert(arr@.take(i + 1).last() == arr@[i as int]);
        match read_effect(&arr[i]) {
            Some(e) => {
                let ghost before = r@;
                r.push(e);
                assert(effects_view(r@) =~= effects_view(before).push(e@));
            },
            None => {},
        }
        i = i + 1;
    }
    assert(arr@.take(arr@.len() as int) =~= arr@);
    r
}

impl CharacterState {
    /// Applies the `character` node of an account log: the fields that
    /// commonly change during play.
    pub fn apply_char_node(&mut self, node: &Json)
        ensures
            final(self)@ == old(self)@.with_char_node(*node),
    {
        set_u32(&mut self.hp, node, "hp");
        set_u32(&mut self.max_hp, node, "max_hp");
        set_u32(&mut self.xp, node, "xp");
        set_u32(&mut self.max_xp, node, "max_xp");
        set_u32(&mut self.level, node, "level");
        set_u32(&mut self.gold, node, "gold");
        set_i32(&mut self.x, node, "x");
        set_i32(&mut self.y, node, "y");
        set_i32(&mut self.map_id, node, "map_id");
        set_i32(&mut self.speed, node, "speed");
        if self.skin.as_str().is_empty() {
            set_text(&mut self.skin, node, "skin");
        }
        set_text(&mut self.task, node, "task");
        set_text(&mut self.task_type, node, "task_type");
        set_u32(&mut self.task_progress, node, "task_progress");
        set_u32(&mut self.task_total, node, "task_total");
        set_i32(&mut self.haste, node, "haste");
        set_i32(&mut self.critical_strike, node, "critical_strike");
        set_i32(&mut self.wisdom, node, "wisdom");
        set_i32(&mut self.prospecting, node, "prospecting");
        set_i32(&mut self.initiative, node, "initiative");
        set_i32(&mut self.threat, node, "threat");
        set_i32(&mut self.attack_fire, node, "attack_fire");
        set_i32(&mut self.attack_earth, node, "attack_earth");
        set_i32(&mut self.attack_water, node, "attack_water");
        set_i32(&mut self.attack_air, node, "attack_air");
        set_i32(&mut self.dmg, node, "dmg");
        set_i32(&mut self.dmg_fire, node, "dmg_fire");
        set_i32(&mut self.dmg_earth, node, "dmg_earth");
        set_i32(&mut self.dmg_water, node, "dmg_water");
        set_i32(&mut self.dmg_air, node, "dmg_air");
        set_i32(&mut self.res_fire, node, "res_fire");
        set_i32(&mut self.res_earth, node, "res_earth");
        set_i32(&mut self.res_water, node, "res_water");
        set_i32(&mut self.res_air, node, "res_air");
        set_i32(&mut self.cooldown_secs, node, "cooldown");
        set_text(&mut self.cooldown_expiration, node, "cooldown_expiration");
        assert(self@ =~~= old(self)@.with_char_node(*node));
    }

    /// Applies a full character schema (a REST character or a complete
    /// notification payload).
    pub fn apply_full_schema(&mut self, node: &Json)
        ensures
            final(self)@ == old(self)@.with_full_schema(*node),
    {
        self.apply_char_node(node);
        let ghost c = self@;
        self.mining = read_skill(node, "mining_level", "mining_xp", "mining_max_xp");
        self.woodcutting = read_skill(node, "woodcutting_level", "woodcutting_xp", "woodcutting_max_xp");
        self.fishing = read_skill(node, "fishing_level", "fishing_xp", "fishing_max_xp");
        self.weaponcrafting = read_skill(node, "weaponcrafting_level", "weaponcrafting_xp", "weaponcrafting_max_xp");
        self.gearcrafting = read_skill(node, "gearcrafting_level", "gearcrafting_xp", "gearcrafting_max_xp");
        self.jewelrycrafting = read_skill(node, "jewelrycrafting_level", "jewelrycrafting_xp", "jewelrycrafting_max_xp");
        self.cooking = read_skill(node, "cooking_level", "cooking_xp", "cooking_max_xp");
        self.alchemy = read_skill(node, "alchemy_level", "alchemy_xp", "alchemy_max_xp");
        set_text(&mut self.weapon_slot, node, "weapon_slot");
        set_text(&mut self.rune_slot, node, "rune_slot");
        set_text(&mut self.shield_slot, node, "shield_slot");
        set_text(&mut self.helmet_slot, node, "helmet_slot");
        set_text(&mut self.body_armor_slot, node, "body_armor_slot");
        set_text(&mut self.leg_armor_slot, node, "leg_armor_slot");
        set_text(&mut self.boots_slot, node, "boots_slot");
        set_text(&mut self.ring1_slot, node, "ring1_slot");
        set_text(&mut self.ring2_slot, node, "ring2_slot");
        set_text(&mut self.amulet_slot, node, "amulet_slot");
        set_text(&mut self.artifact1_slot, node, "artifact1_slot");
        set_text(&mut self.artifact2_slot, node, "artifact2_slot");
        set_text(&mut self.artifact3_slot, node, "artifact3_slot");
        set_text(&mut self.utility1_slot, node, "utility1_slot");
        set_u32(&mut self.utility1_slot_quantity, node, "utility1_slot_quantity");
        set_text(&mut self.utility2_slot, node, "utility2_slot");
        set_u32(&mut self.utility2_slot_quantity, node, "utility2_slot_quantity");
        set_text(&mut self.bag_slot, node, "bag_slot");
        set_u32(&mut self.inventory_max_items, node, "inventory_max_items");
        match node.get("inventory") {
            Some(v) => match v.as_array() {
                Some(arr) => {
                    self.inventory = read_slots(arr);
                },
                None => {},
            },
            None => {},
        }
        match node.get("effects") {
            Some(v) => match v.as_array() {
                Some(arr) => {
                    self.effects = read_effects(arr);
                },
                None => {},
            },
            None => {},
        }
        assert(self@ =~~= old(self)@.with_full_schema(*node));
    }
}

/// Applying the same `character` node twice is the same as applying it
/// once.
pub proof fn char_node_idempotent_law(v: CharacterView, n: Json)
    ensures
        v.with_char_node(n).with_char_node(n) == v.with_char_node(n),
{
    assert(v.with_char_node(n).with_char_node(n) =~~= v.with_char_node(n));
}

/// Applying the same full schema twice is the same as applying it once.
pub proof fn full_schema_idempotent_law(v: CharacterView, n: Json)
    ensures
        v.with_full_schema(n).with_full_schema(n) == v.with_full_schema(n),
{
    char_node_idempotent_law(v, n);
    assert(v.with_full_schema(n).with_full_schema(n) =~~= v.with_full_schema(n));
}

/// Character payloads never change who the character is or what it was
/// last seen doing: the name, account, creation time, last action and its
/// description stay as they were.
pub proof fn payload_keeps_identity_law(v: CharacterView, n: Json)
    ensures
        v.with_char_node(n).name == v.name,
        v.with_char_node(n).account == v.account,
        v.with_char_node(n).last_action == v.last_action,
        v.with_char_node(n).last_description == v.last_description,
        v.with_full_schema(n).name == v.name,
        v.with_full_schema(n).account == v.account,
        v.with_full_schema(n).created_at == v.created_at,
        v.with_full_schema(n).last_action == v.last_action,
        v.with_full_schema(n).last_description == v.last_description,
{
}

/// `new` is member `key` of `n` read as an unsigned integer cut to 32
/// bits, or `old` when `n` has no unsigned integer member `key`.
pub open spec fn reads_u32(new: u32, old: u32, n: Json, key: Seq<char>) -> bool {
    match n.field(key) {
        Some(m) => match m.u64_value() {
            Some(k) => new == k as u32,
            None => new == old,
        },
        None => new == old,
    }
}

/// `new` is member `key` of `n` read as a signed integer cut to 32 bits,
/// or `old` when `n` has no integer member `key` in `i64` range.
pub open spec fn reads_i32(new: i32, old: i32, n: Json, key: Seq<char>) -> bool {
    match n.field(key) {
        Some(m) => match m.i64_value() {
            Some(k) => new == k as i32,
            None => new == old,
        },
        None => new == old,
    }
}

/// `new` is the string member `key` of `n`, or `old` when `n` has no
/// string member `key`.
pub open spec fn reads_text(new: Seq<char>, old: Seq<char>, n: Json, key: Seq<char>) -> bool {
    match n.field(key) {
        Some(m) => match m.text() {
            Some(t) => new == t,
            None => new == old,
        },
        None => new == old,
    }
}

/// `s` is the skill `name` of the schema `n`: its level, XP and maximum XP
/// are the members `name_level`, `name_xp` and `name_max_xp` (zero when
/// missing).
pub open spec fn reads_skill(s: SkillInfo, n: Json, name: Seq<char>) -> bool {
    &&& reads_u32(s.level, 0, n, name + "_level"@)
    &&& reads_u32(s.xp, 0, n, name + "_xp"@)
    &&& reads_u32(s.max_xp, 0, n, name + "_max_xp"@)
}

/// Every field that a `character` node carries is read, in `new`, from the
/// node's member of the same name (the cooldown from `cooldown`), and keeps
/// its value `old` when the node lacks it; the skin is taken only when none
/// was known.
pub open spec fn node_members_read(new: CharacterView, old: CharacterView, n: Json) -> bool {
    &&& reads_u32(new.hp, old.hp, n, "hp"@)
    &&& reads_u32(new.max_hp, old.max_hp, n, "max_hp"@)
    &&& reads_u32(new.xp, old.xp, n, "xp"@)
    &&& reads_u32(new.max_xp, old.max_xp, n, "max_xp"@)
    &&& reads_u32(new.level, old.level, n, "level"@)
    &&& reads_u32(new.gold, old.gold, n, "gold"@)
    &&& reads_u32(new.task_progress, old.task_progress, n, "task_progress"@)
    &&& reads_u32(new.task_total, old.task_total, n, "task_total"@)
    &&& reads_i32(new.x, old.x, n, "x"@)
    &&& reads_i32(new.y, old.y, n, "y"@)
    &&& reads_i32(new.map_id, old.map_id, n, "map_id"@)
    &&& reads_i32(new.speed, old.speed, n, "speed"@)
    &&& reads_i32(new.haste, old.haste, n, "haste"@)
    &&& reads_i32(new.critical_strike, old.critical_strike, n, "critical_strike"@)
    &&& reads_i32(new.wisdom, old.wisdom, n, "wisdom"@)
    &&& reads_i32(new.prospecting, old.prospecting, n, "prospecting"@)
    &&& reads_i32(new.initiative, old.initiative, n, "initiative"@)
    &&& reads_i32(new.threat, old.threat, n, "threat"@)
    &&& reads_i32(new.attack_fire, old.attack_fire, n, "attack_fire"@)
    &&& reads_i32(new.attack_earth, old.attack_earth, n, "attack_earth"@)
    &&& reads_i32(new.attack_water, old.attack_water, n, "attack_water"@)
    &&& reads_i32(new.attack_air, old.attack_air, n, "attack_air"@)
    &&& reads_i32(new.dmg, old.dmg, n, "dmg"@)
    &&& reads_i32(new.dmg_fire, old.dmg_fire, n, "dmg_fire"@)
    &&& reads_i32(new.dmg_earth, old.dmg_earth, n, "dmg_earth"@)
    &&& reads_i32(new.dmg_water, old.dmg_water, n, "dmg_water"@)
    &&& reads_i32(new.dmg_air, old.dmg_air, n, "dmg_air"@)
    &&& reads_i32(new.res_fire, old.res_fire, n, "res_fire"@)
    &&& reads_i32(new.res_earth, old.res_earth, n, "res_earth"@)
    &&& reads_i32(new.res_water, old.res_water, n, "res_water"@)
    &&& reads_i32(new.res_air, old.res_air, n, "res_air"@)
    &&& reads_i32(new.cooldown_secs, old.cooldown_secs, n, "cooldown"@)
    &&& reads_text(new.task, old.task, n, "task"@)
    &&& reads_text(new.task_type, old.task_type, n, "task_type"@)
    &&& reads_text(new.cooldown_expiration, old.cooldown_expiration, n, "cooldown_expiration"@)
    &&& (old.skin.len() == 0 ==> reads_text(new.skin, old.skin, n, "skin"@))
    &&& (old.skin.len() > 0 ==> new.skin == old.skin)
}

/// Applying a `character` node sets each field from the node's member of
/// its own name (keeping it when the member is missing or of another
/// kind), and leaves the skills, the equipment and the inventory alone.
pub proof fn char_node_members_law(v: CharacterView, n: Json)
    ensures
        node_members_read(v.with_char_node(n), v, n),
        v.with_char_node(n).mining == v.mining,
        v.with_char_node(n).woodcutting == v.woodcutting,
        v.with_char_node(n).fishing == v.fishing,
        v.with_char_node(n).weaponcrafting == v.weaponcrafting,
        v.with_char_node(n).gearcrafting == v.gearcrafting,
        v.with_char_node(n).jewelrycrafting == v.jewelrycrafting,
        v.with_char_node(n).cooking == v.cooking,
        v.with_char_node(n).alchemy == v.alchemy,
        v.with_char_node(n).weapon_slot == v.weapon_slot,
        v.with_char_node(n).rune_slot == v.rune_slot,
        v.with_char_node(n).shield_slot == v.shield_slot,
        v.with_char_node(n).helmet_slot == v.helmet_slot,
        v.with_char_node(n).body_armor_slot == v.body_armor_slot,
        v.with_char_node(n).leg_armor_slot == v.leg_armor_slot,
        v.with_char_node(n).boots_slot == v.boots_slot,
        v.with_char_node(n).ring1_slot == v.ring1_slot,
        v.with_char_node(n).ring2_slot == v.ring2_slot,
        v.with_char_node(n).amulet_slot == v.amulet_slot,
        v.with_char_node(n).artifact1_slot == v.artifact1_slot,
        v.with_char_node(n).artifact2_slot == v.artifact2_slot,
        v.with_char_node(n).artifact3_slot == v.artifact3_slot,
        v.with_char_node(n).utility1_slot == v.utility1_slot,
        v.with_char_node(n).utility2_slot == v.utility2_slot,
        v.with_char_node(n).bag_slot == v.bag_slot,
        v.with_char_node(n).utility1_slot_quantity == v.utility1_slot_quantity,
        v.with_char_node(n).utility2_slot_quantity == v.utility2_slot_quantity,
        v.with_char_node(n).inventory_max_items == v.inventory_max_items,
        v.with_char_node(n).inventory == v.inventory,
        v.with_char_node(n).effects == v.effects,
{
}

/// Applying a full character schema reads everything a `character` node
/// carries as that node does, each skill from its `_level`, `_xp` and
/// `_max_xp` members (zero when missing), and each equipment slot, utility
/// quantity and the inventory size from the member of its own name.
pub proof fn full_schema_members_law(v: CharacterView, n: Json)
    ensures
        node_members_read(v.with_full_schema(n), v, n),
        reads_skill(v.with_full_schema(n).mining, n, "mining"@),
        reads_skill(v.with_full_schema(n).woodcutting, n, "woodcutting"@),
        reads_skill(v.with_full_schema(n).fishing, n, "fishing"@),
        reads_skill(v.with_full_schema(n).weaponcrafting, n, "weaponcrafting"@),
        reads_skill(v.with_full_schema(n).gearcrafting, n, "gearcrafting"@),
        reads_skill(v.with_full_schema(n).jewelrycrafting, n, "jewelrycrafting"@),
        reads_skill(v.with_full_schema(n).cooking, n, "cooking"@),
        reads_skill(v.with_full_schema(n).alchemy, n, "alchemy"@),
        reads_text(v.with_full_schema(n).weapon_slot, v.weapon_slot, n, "weapon_slot"@),
        reads_text(v.with_full_schema(n).rune_slot, v.rune_slot, n, "rune_slot"@),
        reads_text(v.with_full_schema(n).shield_slot, v.shield_slot, n, "shield_slot"@),
        reads_text(v.with_full_schema(n).helmet_slot, v.helmet_slot, n, "helmet_slot"@),
        reads_text(v.with_full_schema(n).body_armor_slot, v.body_armor_slot, n, "body_armor_slot"@),
        reads_text(v.with_full_schema(n).leg_armor_slot, v.leg_armor_slot, n, "leg_armor_slot"@),
        reads_text(v.with_full_schema(n).boots_slot, v.boots_slot, n, "boots_slot"@),
        reads_text(v.with_full_schema(n).ring1_slot, v.ring1_slot, n, "ring1_slot"@),
        reads_text(v.with_full_schema(n).ring2_slot, v.ring2_slot, n, "ring2_slot"@),
        reads_text(v.with_full_schema(n).amulet_slot, v.amulet_slot, n, "amulet_slot"@),
        reads_text(v.with_full_schema(n).artifact1_slot, v.artifact1_slot, n, "artifact1_slot"@),
        reads_text(v.with_full_schema(n).artifact2_slot, v.artifact2_slot, n, "artifact2_slot"@),
        reads_text(v.with_full_schema(n).artifact3_slot, v.artifact3_slot, n, "artifact3_slot"@),
        reads_text(v.with_full_schema(n).utility1_slot, v.utility1_slot, n, "utility1_slot"@),
        reads_text(v.with_full_schema(n).utility2_slot, v.utility2_slot, n, "utility2_slot"@),
        reads_text(v.with_full_schema(n).bag_slot, v.bag_slot, n, "bag_slot"@),
        reads_u32(v.with_full_schema(n).utility1_slot_quantity, v.utility1_slot_quantity, n, "utility1_slot_quantity"@),
        reads_u32(v.with_full_schema(n).utility2_slot_quantity, v.utility2_slot_quantity, n, "utility2_slot_quantity"@),
        reads_u32(v.with_full_schema(n).inventory_max_items, v.inventory_max_items, n, "inventory_max_items"@),
        field_elements(n, "inventory"@) is None ==> v.with_full_schema(n).inventory == v.inventory,
        field_elements(n, "effects"@) is None ==> v.with_full_schema(n).effects == v.effects,
{
    reveal_strlit("_level");
    reveal_strlit("_xp");
    reveal_strlit("_max_xp");
    reveal_strlit("mining");
    reveal_strlit("mining_level");
    reveal_strlit("mining_xp");
    reveal_strlit("mining_max_xp");
    assert("mining"@ + "_level"@ =~= "mining_level"@);
    assert("mining"@ + "_xp"@ =~= "mining_xp"@);
    assert("mining"@ + "_max_xp"@ =~= "mining_max_xp"@);
    reveal_strlit("woodcutting");
    reveal_strlit("woodcutting_level");
    reveal_strlit("woodcutting_xp");
    reveal_strlit("woodcutting_max_xp");
    assert("woodcutting"@ + "_level"@ =~= "woodcutting_level"@);
    assert("woodcutting"@ + "_xp"@ =~= "woodcutting_xp"@);
    assert("woodcutting"@ + "_max_xp"@ =~= "woodcutting_max_xp"@);
    reveal_strlit("fishing");
    reveal_strlit("fishing_level");
    reveal_strlit("fishing_xp");
    reveal_strlit("fishing_max_xp");
    assert("fishing"@ + "_level"@ =~= "fishing_level"@);
    assert("fishing"@ + "_xp"@ =~= "fishing_xp"@);
    assert("fishing"@ + "_max_xp"@ =~= "fishing_max_xp"@);
    reveal_strlit("weaponcrafting");
    reveal_strlit("weaponcrafting_level");
    reveal_strlit("weaponcrafting_xp");
    reveal_strlit("weaponcrafting_max_xp");
    assert("weaponcrafting"@ + "_level"@ =~= "weaponcrafting_level"@);
    assert("weaponcrafting"@ + "_xp"@ =~= "weaponcrafting_xp"@);
    assert("weaponcrafting"@ + "_max_xp"@ =~= "weaponcrafting_max_xp"@);
    reveal_strlit("gearcrafting");
    reveal_strlit("gearcrafting_level");
    reveal_strlit("gearcrafting_xp");
    reveal_strlit("gearcrafting_max_xp");
    assert("gearcrafting"@ + "_level"@ =~= "gearcrafting_level"@);
    assert("gearcrafting"@ + "_xp"@ =~= "gearcrafting_xp"@);
    assert("gearcrafting"@ + "_max_xp"@ =~= "gearcrafting_max_xp"@);
    reveal_strlit("jewelrycrafting");
    reveal_strlit("jewelrycrafting_level");
    reveal_strlit("jewelrycrafting_xp");
    reveal_strlit("jewelrycrafting_max_xp");
    assert("jewelrycrafting"@ + "_level"@ =~= "jewelrycrafting_level"@);
    assert("jewelrycrafting"@ + "_xp"@ =~= "jewelrycrafting_xp"@);
    assert("jewelrycrafting"@ + "_max_xp"@ =~= "jewelrycrafting_max_xp"@);
    reveal_strlit("cooking");
    reveal_strlit("cooking_level");
    reveal_strlit("cooking_xp");
    reveal_strlit("cooking_max_xp");
    assert("cooking"@ + "_level"@ =~= "cooking_level"@);
    assert("cooking"@ + "_xp"@ =~= "cooking_xp"@);
    assert("cooking"@ + "_max_xp"@ =~= "cooking_max_xp"@);
    reveal_strlit("alchemy");
    reveal_strlit("alchemy_level");
    reveal_strlit("alchemy_xp");
    reveal_strlit("alchemy_max_xp");
    assert("alchemy"@ + "_level"@ =~= "alchemy_level"@);
    assert("alchemy"@ + "_xp"@ =~= "alchemy_xp"@);
    assert("alchemy"@ + "_max_xp"@ =~= "alchemy_max_xp"@);
}

/// An inventory slot is read from the members of its own names: `slot`,
/// `code` and `quantity` (zero or empty when missing).
pub proof fn slot_members_law(j: Json)
    ensures
        reads_u32(slot_from(j).slot, 0, j, "slot"@),
        reads_text(slot_from(j).code, Seq::empty(), j, "code"@),
        reads_u32(slot_from(j).quantity, 0, j, "quantity"@),
{
}

/// An effect is read from the members of its own names: its name from
/// `name` (from `code` when there is no `name`), its code from `code`, and
/// its value from `value` (from `stacks` when there is no `value`); an
/// effect without a name is skipped.
pub proof fn effect_members_law(j: Json)
    ensures
        j.field("name"@) is None ==> reads_text(effect_name(j), Seq::empty(), j, "code"@),
        j.field("name"@) is Some ==> reads_text(effect_name(j), Seq::empty(), j, "name"@),
        effect_from(j) is None <==> effect_name(j).len() == 0,
        effect_from(j) matches Some(e) ==> e.name == effect_name(j) && reads_text(
            e.code,
            Seq::empty(),
            j,
            "code"@,
        ),
        j.field("value"@) is Some ==> (effect_from(j) matches Some(e) ==> reads_i32(e.value, 0, j, "value"@)),
        j.field("value"@) is None ==> (effect_from(j) matches Some(e) ==> reads_i32(e.value, 0, j, "stacks"@)),
{
}

} // verus!
