//! Game state types: characters, inventory, skills, map tiles, world events
//! and Grand Exchange activity.

use vstd::prelude::*;

use crate::color::Color;
use crate::json::{field_text, Json};
use crate::text::same_text;

verus! {

/// Skill level and XP information.
#[derive(Clone, Copy, Debug, PartialEq, Eq, Structural)]
pub struct SkillInfo {
    /// Current skill level.
    pub level: u32,
    /// Current experience points toward the next level.
    pub xp: u32,
    /// Experience points needed to reach the next level.
    pub max_xp: u32,
}

impl SkillInfo {
    /// The skill with level and XP all zero.
    pub open spec fn zero() -> SkillInfo {
        SkillInfo { level: 0, xp: 0, max_xp: 0 }
    }

    /// A skill at level 0 with no experience.
    pub fn new() -> (r: SkillInfo)
        ensures
            r == SkillInfo::zero(),
    {
        SkillInfo { level: 0, xp: 0, max_xp: 0 }
    }
}

/// A single inventory slot with item and quantity.
#[derive(Clone, Debug)]
pub struct InventorySlot {
    /// Slot index in the inventory.
    pub slot: u32,
    /// Item code (e.g. "iron_ore").
    pub code: String,
    /// Quantity of this item in the slot.
    pub quantity: u32,
}

/// The content of an inventory slot.
#[verifier::ext_equal]
pub struct SlotView {
    pub slot: u32,
    pub code: Seq<char>,
    pub quantity: u32,
}

impl View for InventorySlot {
    type V = SlotView;

    open spec fn view(&self) -> SlotView {
        SlotView { slot: self.slot, code: self.code@, quantity: self.quantity }
    }
}

impl InventorySlot {
    /// An equal copy of the slot.
    pub fn duplicate(&self) -> (r: InventorySlot)
        ensures
            r@ == self@,
    {
        InventorySlot { slot: self.slot, code: self.code.clone(), quantity: self.quantity }
    }
}

/// An active effect on a character (e.g. poison, blessing).
#[derive(Clone, Debug)]
pub struct CharacterEffect {
    /// Effect display name.
    pub name: String,
    /// Effect code identifier.
    pub code: String,
    /// Remaining stacks or duration ticks.
    pub value: i32,
}

/// The content of an effect.
#[verifier::ext_equal]
pub struct EffectView {
    pub name: Seq<char>,
    pub code: Seq<char>,
    pub value: i32,
}

impl View for CharacterEffect {
    type V = EffectView;

    open spec fn view(&self) -> EffectView {
        EffectView { name: self.name@, code: self.code@, value: self.value }
    }
}

impl CharacterEffect {
    /// An equal copy of the effect.
    pub fn duplicate(&self) -> (r: CharacterEffect)
        ensures
            r@ == self@,
    {
        CharacterEffect { name: self.name.clone(), code: self.code.clone(), value: self.value }
    }
}

/// The views of a list of slots.
pub open spec fn slots_view(v: Seq<InventorySlot>) -> Seq<SlotView> {
    v.map_values(|s: InventorySlot| s@)
}

/// The views of a list of effects.
pub open spec fn effects_view(v: Seq<CharacterEffect>) -> Seq<EffectView> {
    v.map_values(|e: CharacterEffect| e@)
}

/// Copies a list of slots.
pub fn duplicate_slots(v: &Vec<InventorySlot>) -> (r: Vec<InventorySlot>)
    ensures
        slots_view(r@) == slots_view(v@),
{
    let mut r: Vec<InventorySlot> = Vec::new();
    let mut i: usize = 0;
    while i < v.len()
        invariant
            i <= v@.len(),
            slots_view(r@) == slots_view(v@.take(i as int)),
        decreases v.len() - i,
    {
        let ghost before = r@;
        let d = v[i].duplicate();
        r.push(d);
        assert(v@.take(i + 1) =~= v@.take(i as int).push(v@[i as int]));
        assert(slots_view(r@) =~= slots_view(before).push(d@));
        assert(slots_view(v@.take(i + 1)) =~= slots_view(v@.take(i as int)).push(v@[i as int]@));
        i = i + 1;
    }
    assert(v@.take(v@.len() as int) =~= v@);
    r
}

/// Copies a list of effects.
pub fn duplicate_effects(v: &Vec<CharacterEffect>) -> (r: Vec<CharacterEffect>)
    ensures
        effects_view(r@) == effects_view(v@),
{
    let mut r: Vec<CharacterEffect> = Vec::new();
    let mut i: usize = 0;
    while i < v.len()
        invariant
            i <= v@.len(),
            effects_view(r@) == effects_view(v@.take(i as int)),
        decreases v.len() - i,
    {
        let ghost before = r@;
        let d = v[i].duplicate();
        r.push(d);
        assert(v@.take(i + 1) =~= v@.take(i as int).push(v@[i as int]));
        assert(effects_view(r@) =~= effects_view(before).push(d@));
        assert(effects_view(v@.take(i + 1)) =~= effects_view(v@.take(i as int)).push(v@[i as int]@));
        i = i + 1;
    }
    assert(v@.take(v@.len() as int) =~= v@);
    r
}


/// Complete character state and statistics.
///
/// Initially populated from the character list at startup and updated by
/// `account_log` and `online_characters` notifications.
#[derive(Clone, Debug)]
pub struct CharacterState {
    /// Character name.
    pub name: String,
    /// Account name (empty if not known).
    pub account: String,
    /// Skin/appearance code (e.g. "human_f").
    pub skin: String,
    pub x: i32,
    pub y: i32,
    pub map_id: i32,
    pub level: u32,
    pub xp: u32,
    pub max_xp: u32,
    pub hp: u32,
    pub max_hp: u32,
    pub gold: u32,
    pub speed: i32,
    pub haste: i32,
    pub critical_strike: i32,
    pub wisdom: i32,
    pub prospecting: i32,
    pub initiative: i32,
    pub threat: i32,
    pub attack_fire: i32,
    pub attack_earth: i32,
    pub attack_water: i32,
    pub attack_air: i32,
    pub dmg: i32,
    pub dmg_fire: i32,
    pub dmg_earth: i32,
    pub dmg_water: i32,
    pub dmg_air: i32,
    pub res_fire: i32,
    pub res_earth: i32,
    pub res_water: i32,
    pub res_air: i32,
    pub mining: SkillInfo,
    pub woodcutting: SkillInfo,
    pub fishing: SkillInfo,
    pub weaponcrafting: SkillInfo,
    pub gearcrafting: SkillInfo,
    pub jewelrycrafting: SkillInfo,
    pub cooking: SkillInfo,
    pub alchemy: SkillInfo,
    pub task: String,
    pub task_type: String,
    pub task_progress: u32,
    pub task_total: u32,
    pub weapon_slot: String,
    pub rune_slot: String,
    pub shield_slot: String,
    pub helmet_slot: String,
    pub body_armor_slot: String,
    pub leg_armor_slot: String,
    pub boots_slot: String,
    pub ring1_slot: String,
    pub ring2_slot: String,
    pub amulet_slot: String,
    pub artifact1_slot: String,
    pub artifact2_slot: String,
    pub artifact3_slot: String,
    pub utility1_slot: String,
    pub utility1_slot_quantity: u32,
    pub utility2_slot: String,
    pub utility2_slot_quantity: u32,
    pub bag_slot: String,
    /// Inventory slots.
    pub inventory: Vec<InventorySlot>,
    pub inventory_max_items: u32,
    /// Active effects.
    pub effects: Vec<CharacterEffect>,
    /// Remaining cooldown seconds as last reported.
    pub cooldown_secs: i32,
    /// ISO-8601 expiration timestamp of the cooldown.
    pub cooldown_expiration: String,
    pub created_at: String,
    /// Type of the last reported action.
    pub last_action: String,
    /// Description of the last reported action.
    pub last_description: String,
}

/// The content of a character's state.
#[verifier::ext_equal]
pub struct CharacterView {
    pub name: Seq<char>,
    pub account: Seq<char>,
    pub skin: Seq<char>,
    pub x: i32,
    pub y: i32,
    pub map_id: i32,
    pub level: u32,
    pub xp: u32,
    pub max_xp: u32,
    pub hp: u32,
    pub max_hp: u32,
    pub gold: u32,
    pub speed: i32,
    pub haste: i32,
    pub critical_strike: i32,
    pub wisdom: i32,
    pub prospecting: i32,
    pub initiative: i32,
    pub threat: i32,
    pub attack_fire: i32,
    pub attack_earth: i32,
    pub attack_water: i32,
    pub attack_air: i32,
    pub dmg: i32,
    pub dmg_fire: i32,
    pub dmg_earth: i32,
    pub dmg_water: i32,
    pub dmg_air: i32,
    pub res_fire: i32,
    pub res_earth: i32,
    pub res_water: i32,
    pub res_air: i32,
    pub mining: SkillInfo,
    pub woodcutting: SkillInfo,
    pub fishing: SkillInfo,
    pub weaponcrafting: SkillInfo,
    pub gearcrafting: SkillInfo,
    pub jewelrycrafting: SkillInfo,
    pub cooking: SkillInfo,
    pub alchemy: SkillInfo,
    pub task: Seq<char>,
    pub task_type: Seq<char>,
    pub task_progress: u32,
    pub task_total: u32,
    pub weapon_slot: Seq<char>,
    pub rune_slot: Seq<char>,
    pub shield_slot: Seq<char>,
    pub helmet_slot: Seq<char>,
    pub body_armor_slot: Seq<char>,
    pub leg_armor_slot: Seq<char>,
    pub boots_slot: Seq<char>,
    pub ring1_slot: Seq<char>,
    pub ring2_slot: Seq<char>,
    pub amulet_slot: Seq<char>,
    pub artifact1_slot: Seq<char>,
    pub artifact2_slot: Seq<char>,
    pub artifact3_slot: Seq<char>,
    pub utility1_slot: Seq<char>,
    pub utility1_slot_quantity: u32,
    pub utility2_slot: Seq<char>,
    pub utility2_slot_quantity: u32,
    pub bag_slot: Seq<char>,
    pub inventory: Seq<SlotView>,
    pub inventory_max_items: u32,
    pub effects: Seq<EffectView>,
    pub cooldown_secs: i32,
    pub cooldown_expiration: Seq<char>,
    pub created_at: Seq<char>,
    pub last_action: Seq<char>,
    pub last_description: Seq<char>,
}

impl View for CharacterState {
    type V = CharacterView;

    open spec fn view(&self) -> CharacterView {
        CharacterView {
            name: self.name@,
            account: self.account@,
            skin: self.skin@,
            x: self.x,
            y: self.y,
            map_id: self.map_id,
            level: self.level,
            xp: self.xp,
            max_xp: self.max_xp,
            hp: self.hp,
            max_hp: self.max_hp,
            gold: self.gold,
            speed: self.speed,
            haste: self.haste,
            critical_strike: self.critical_strike,
            wisdom: self.wisdom,
            prospecting: self.prospecting,
            initiative: self.initiative,
            threat: self.threat,
            attack_fire: self.attack_fire,
            attack_earth: self.attack_earth,
            attack_water: self.attack_water,
            attack_air: self.attack_air,
            dmg: self.dmg,
            dmg_fire: self.dmg_fire,
            dmg_earth: self.dmg_earth,
            dmg_water: self.dmg_water,
            dmg_air: self.dmg_air,
            res_fire: self.res_fire,
            res_earth: self.res_earth,
            res_water: self.res_water,
            res_air: self.res_air,
            mining: self.mining,
            woodcutting: self.woodcutting,
            fishing: self.fishing,
            weaponcrafting: self.weaponcrafting,
            gearcrafting: self.gearcrafting,
            jewelrycrafting: self.jewelrycrafting,
            cooking: self.cooking,
            alchemy: self.alchemy,
            task: self.task@,
            task_type: self.task_type@,
            task_progress: self.task_progress,
            task_total: self.task_total,
            weapon_slot: self.weapon_slot@,
            rune_slot: self.rune_slot@,
            shield_slot: self.shield_slot@,
            helmet_slot: self.helmet_slot@,
            body_armor_slot: self.body_armor_slot@,
            leg_armor_slot: self.leg_armor_slot@,
            boots_slot: self.boots_slot@,
            ring1_slot: self.ring1_slot@,
            ring2_slot: self.ring2_slot@,
            amulet_slot: self.amulet_slot@,
            artifact1_slot: self.artifact1_slot@,
            artifact2_slot: self.artifact2_slot@,
            artifact3_slot: self.artifact3_slot@,
            utility1_slot: self.utility1_slot@,
            utility1_slot_quantity: self.utility1_slot_quantity,
            utility2_slot: self.utility2_slot@,
            utility2_slot_quantity: self.utility2_slot_quantity,
            bag_slot: self.bag_slot@,
            inventory: slots_view(self.inventory@),
            inventory_max_items: self.inventory_max_items,
            effects: effects_view(self.effects@),
            cooldown_secs: self.cooldown_secs,
            cooldown_expiration: self.cooldown_expiration@,
            created_at: self.created_at@,
            last_action: self.last_action@,
            last_description: self.last_description@,
        }
    }
}

impl CharacterView {
    /// The state of a character nothing is known about yet: all numbers
    /// zero except map 1, all texts empty except the last action `idle`.
    pub open spec fn initial() -> CharacterView {
        CharacterView {
            name: Seq::empty(),
            account: Seq::empty(),
            skin: Seq::empty(),
            x: 0,
            y: 0,
            map_id: 1,
            level: 0,
            xp: 0,
            max_xp: 0,
            hp: 0,
            max_hp: 0,
            gold: 0,
            speed: 0,
            haste: 0,
            critical_strike: 0,
            wisdom: 0,
            prospecting: 0,
            initiative: 0,
            threat: 0,
            attack_fire: 0,
            attack_earth: 0,
            attack_water: 0,
            attack_air: 0,
            dmg: 0,
            dmg_fire: 0,
            dmg_earth: 0,
            dmg_water: 0,
            dmg_air: 0,
            res_fire: 0,
            res_earth: 0,
            res_water: 0,
            res_air: 0,
            mining: SkillInfo::zero(),
            woodcutting: SkillInfo::zero(),
            fishing: SkillInfo::zero(),
            weaponcrafting: SkillInfo::zero(),
            gearcrafting: SkillInfo::zero(),
            jewelrycrafting: SkillInfo::zero(),
            cooking: SkillInfo::zero(),
            alchemy: SkillInfo::zero(),
            task: Seq::empty(),
            task_type: Seq::empty(),
            task_progress: 0,
            task_total: 0,
            weapon_slot: Seq::empty(),
            rune_slot: Seq::empty(),
            shield_slot: Seq::empty(),
            helmet_slot: Seq::empty(),
            body_armor_slot: Seq::empty(),
            leg_armor_slot: Seq::empty(),
            boots_slot: Seq::empty(),
            ring1_slot: Seq::empty(),
            ring2_slot: Seq::empty(),
            amulet_slot: Seq::empty(),
            artifact1_slot: Seq::empty(),
            artifact2_slot: Seq::empty(),
            artifact3_slot: Seq::empty(),
            utility1_slot: Seq::empty(),
            utility1_slot_quantity: 0,
            utility2_slot: Seq::empty(),
            utility2_slot_quantity: 0,
            bag_slot: Seq::empty(),
            inventory: Seq::empty(),
            inventory_max_items: 0,
            effects: Seq::empty(),
            cooldown_secs: 0,
            cooldown_expiration: Seq::empty(),
            created_at: Seq::empty(),
            last_action: seq!['i', 'd', 'l', 'e'],
            last_description: Seq::empty(),
        }
    }
}

impl Default for CharacterState {
    fn default() -> (r: CharacterState)
        ensures
            r@ == CharacterView::initial(),
    {
        let r = CharacterState {
            name: String::new(),
            account: String::new(),
            skin: String::new(),
            x: 0,
            y: 0,
            map_id: 1,
            level: 0,
            xp: 0,
            max_xp: 0,
            hp: 0,
            max_hp: 0,
            gold: 0,
            speed: 0,
            haste: 0,
            critical_strike: 0,
            wisdom: 0,
            prospecting: 0,
            initiative: 0,
            threat: 0,
            attack_fire: 0,
            attack_earth: 0,
            attack_water: 0,
            attack_air: 0,
            dmg: 0,
            dmg_fire: 0,
            dmg_earth: 0,
            dmg_water: 0,
            dmg_air: 0,
            res_fire: 0,
            res_earth: 0,
            res_water: 0,
            res_air: 0,
            mining: SkillInfo::new(),
            woodcutting: SkillInfo::new(),
            fishing: SkillInfo::new(),
            weaponcrafting: SkillInfo::new(),
            gearcrafting: SkillInfo::new(),
            jewelrycrafting: SkillInfo::new(),
            cooking: SkillInfo::new(),
            alchemy: SkillInfo::new(),
            task: String::new(),
            task_type: String::new(),
            task_progress: 0,
            task_total: 0,
            weapon_slot: String::new(),
            rune_slot: String::new(),
            shield_slot: String::new(),
            helmet_slot: String::new(),
            body_armor_slot: String::new(),
            leg_armor_slot: String::new(),
            boots_slot: String::new(),
            ring1_slot: String::new(),
            ring2_slot: String::new(),
            amulet_slot: String::new(),
            artifact1_slot: String::new(),
            artifact2_slot: String::new(),
            artifact3_slot: String::new(),
            utility1_slot: String::new(),
            utility1_slot_quantity: 0,
            utility2_slot: String::new(),
            utility2_slot_quantity: 0,
            bag_slot: String::new(),
            inventory: Vec::new(),
            inventory_max_items: 0,
            effects: Vec::new(),
            cooldown_secs: 0,
            cooldown_expiration: String::new(),
            created_at: String::new(),
            last_action: String::from_str("idle"),
            last_description: String::new(),
        };
        proof {
            reveal_strlit("idle");
        }
        assert(r@ =~~= CharacterView::initial());
        r
    }
}

impl CharacterState {
    /// An equal copy of the character.
    pub fn duplicate(&self) -> (r: CharacterState)
        ensures
            r@ == self@,
    {
        let r = CharacterState {
            name: self.name.clone(),
            account: self.account.clone(),
            skin: self.skin.clone(),
            x: self.x,
            y: self.y,
            map_id: self.map_id,
            level: self.level,
            xp: self.xp,
            max_xp: self.max_xp,
            hp: self.hp,
            max_hp: self.max_hp,
            gold: self.gold,
            speed: self.speed,
            haste: self.haste,
            critical_strike: self.critical_strike,
            wisdom: self.wisdom,
            prospecting: self.prospecting,
            initiative: self.initiative,
            threat: self.threat,
            attack_fire: self.attack_fire,
            attack_earth: self.attack_earth,
            attack_water: self.attack_water,
            attack_air: self.attack_air,
            dmg: self.dmg,
            dmg_fire: self.dmg_fire,
            dmg_earth: self.dmg_earth,
            dmg_water: self.dmg_water,
            dmg_air: self.dmg_air,
            res_fire: self.res_fire,
            res_earth: self.res_earth,
            res_water: self.res_water,
            res_air: self.res_air,
            mining: self.mining,
            woodcutting: self.woodcutting,
            fishing: self.fishing,
            weaponcrafting: self.weaponcrafting,
            gearcrafting: self.gearcrafting,
            jewelrycrafting: self.jewelrycrafting,
            cooking: self.cooking,
            alchemy: self.alchemy,
            task: self.task.clone(),
            task_type: self.task_type.clone(),
            task_progress: self.task_progress,
            task_total: self.task_total,
            weapon_slot: self.weapon_slot.clone(),
            rune_slot: self.rune_slot.clone(),
            shield_slot: self.shield_slot.clone(),
            helmet_slot: self.helmet_slot.clone(),
            body_armor_slot: self.body_armor_slot.clone(),
            leg_armor_slot: self.leg_armor_slot.clone(),
            boots_slot: self.boots_slot.clone(),
            ring1_slot: self.ring1_slot.clone(),
            ring2_slot: self.ring2_slot.clone(),
            amulet_slot: self.amulet_slot.clone(),
            artifact1_slot: self.artifact1_slot.clone(),
            artifact2_slot: self.artifact2_slot.clone(),
            artifact3_slot: self.artifact3_slot.clone(),
            utility1_slot: self.utility1_slot.clone(),
            utility1_slot_quantity: self.utility1_slot_quantity,
            utility2_slot: self.utility2_slot.clone(),
            utility2_slot_quantity: self.utility2_slot_quantity,
            bag_slot: self.bag_slot.clone(),
            inventory: duplicate_slots(&self.inventory),
            inventory_max_items: self.inventory_max_items,
            effects: duplicate_effects(&self.effects),
            cooldown_secs: self.cooldown_secs,
            cooldown_expiration: self.cooldown_expiration.clone(),
            created_at: self.created_at.clone(),
            last_action: self.last_action.clone(),
            last_description: self.last_description.clone(),
        };
        assert(r@ =~~= self@);
        r
    }
}


/// The occupied slots of an inventory, in inventory order.
pub open spec fn occupied(slots: Seq<SlotView>) -> Seq<SlotView> {
    slots.filter(|s: SlotView| s.code.len() > 0 && s.quantity > 0)
}

/// `s` with `x` inserted after every element whose slot index is at most
/// `x`'s (so equal indices keep their order).
pub open spec fn insert_by_slot(s: Seq<SlotView>, x: SlotView) -> Seq<SlotView>
    decreases s.len(),
{
    if s.len() == 0 {
        seq![x]
    } else if s.last().slot <= x.slot {
        s.push(x)
    } else {
        insert_by_slot(s.drop_last(), x).push(s.last())
    }
}

/// The slots stably sorted by slot index (insertion in list order).
pub open spec fn sorted_by_slot(s: Seq<SlotView>) -> Seq<SlotView>
    decreases s.len(),
{
    if s.len() == 0 {
        Seq::empty()
    } else {
        insert_by_slot(sorted_by_slot(s.drop_last()), s.last())
    }
}

/// Whether slot indices never decrease along `s`.
pub open spec fn slot_ordered(s: Seq<SlotView>) -> bool {
    forall|i: int, j: int| 0 <= i <= j < s.len() ==> s[i].slot <= s[j].slot
}

proof fn lemma_insert_by_slot(s: Seq<SlotView>, x: SlotView)
    requires
        slot_ordered(s),
    ensures
        slot_ordered(insert_by_slot(s, x)),
        insert_by_slot(s, x).to_multiset() =~= s.to_multiset().insert(x),
    decreases s.len(),
{
    broadcast use vstd::seq_lib::group_to_multiset_ensures, vstd::multiset::group_multiset_axioms;

    if s.len() == 0 {
        assert(s.to_multiset() =~= vstd::multiset::Multiset::empty());
        assert(seq![x] =~= s.push(x));
    } else if s.last().slot <= x.slot {
    } else {
        let d = s.drop_last();
        lemma_insert_by_slot(d, x);
        let r = insert_by_slot(d, x);
        assert forall|i: int| 0 <= i < r.len() implies r[i].slot <= s.last().slot by {
            assert(r.contains(r[i]));
            if r[i] != x {
                assert(r.to_multiset().count(r[i]) > 0);
                assert(d.to_multiset().insert(x).count(r[i]) == d.to_multiset().count(r[i]));
                assert(d.to_multiset().count(r[i]) > 0);
                let j = choose|j: int| 0 <= j < d.len() && d[j] == r[i];
                assert(s[j] == d[j]);
            }
        }
        assert(s =~= d.push(s.last()));
    }
}

proof fn lemma_sorted_by_slot(s: Seq<SlotView>)
    ensures
        slot_ordered(sorted_by_slot(s)),
        sorted_by_slot(s).to_multiset() =~= s.to_multiset(),
    decreases s.len(),
{
    broadcast use vstd::seq_lib::group_to_multiset_ensures;

    if s.len() == 0 {
        assert(sorted_by_slot(s).to_multiset() =~= s.to_multiset());
    } else {
        lemma_sorted_by_slot(s.drop_last());
        lemma_insert_by_slot(sorted_by_slot(s.drop_last()), s.last());
        assert(s =~= s.drop_last().push(s.last()));
    }
}

/// The item listing of an inventory is ordered by slot index, holds
/// exactly the occupied slots (each as often as it occurs), and every slot
/// in it has an item code and a positive quantity.
pub proof fn items_listing_law(inventory: Seq<SlotView>)
    ensures
        slot_ordered(sorted_by_slot(occupied(inventory))),
        sorted_by_slot(occupied(inventory)).to_multiset() == occupied(inventory).to_multiset(),
        forall|k: int|
            0 <= k < sorted_by_slot(occupied(inventory)).len() ==> {
                let e = #[trigger] sorted_by_slot(occupied(inventory))[k];
                e.code.len() > 0 && e.quantity > 0
            },
{
    broadcast use vstd::seq_lib::group_to_multiset_ensures;

    let o = occupied(inventory);
    lemma_sorted_by_slot(o);
    inventory.filter_lemma(|s: SlotView| s.code.len() > 0 && s.quantity > 0);
    let r = sorted_by_slot(o);
    assert forall|k: int| 0 <= k < r.len() implies #[trigger] r[k].code.len() > 0 && r[k].quantity > 0 by {
        assert(r.contains(r[k]));
        assert(o.to_multiset().count(r[k]) > 0);
        let j = choose|j: int| 0 <= j < o.len() && o[j] == r[k];
        assert(o[j].code.len() > 0 && o[j].quantity > 0);
    }
}

/// The label shown for a character's last action type.
pub open spec fn activity_label_of(a: Seq<char>) -> Seq<char> {
    if a == "fight"@ || a == "multi_fight"@ {
        "Fighting"@
    } else if a == "gathering"@ {
        "Gathering"@
    } else if a == "crafting"@ {
        "Crafting"@
    } else if a == "movement"@ {
        "Moving"@
    } else if a == "rest"@ {
        "Resting"@
    } else if a == "task_completed"@ {
        "Task Done"@
    } else if a == "new_task"@ {
        "New Task"@
    } else if a == "task_exchange"@ || a == "task_cancelled"@ {
        "Task"@
    } else if a == "recycling"@ {
        "Recycling"@
    } else if a == "buy_ge"@ || a == "sell_ge"@ || a == "create_buy_order_ge"@
        || a == "fill_buy_order_ge"@ {
        "Trading"@
    } else if a == "deposit_item"@ || a == "withdraw_item"@ || a == "deposit_gold"@
        || a == "withdraw_gold"@ {
        "Banking"@
    } else if a == "equip"@ || a == "unequip"@ {
        "Equipping"@
    } else {
        "Idle"@
    }
}

/// The accent colour for a character's last action type.
pub open spec fn activity_color_of(a: Seq<char>) -> Color {
    if a == "fight"@ || a == "multi_fight"@ {
        Color::Red
    } else if a == "gathering"@ {
        Color::Green
    } else if a == "crafting"@ {
        Color::Yellow
    } else if a == "movement"@ {
        Color::Cyan
    } else if a == "rest"@ {
        Color::Blue
    } else if a == "task_completed"@ || a == "new_task"@ || a == "task_exchange"@
        || a == "task_cancelled"@ {
        Color::Magenta
    } else if a == "recycling"@ {
        Color::LightYellow
    } else if a == "buy_ge"@ || a == "sell_ge"@ || a == "create_buy_order_ge"@
        || a == "fill_buy_order_ge"@ {
        Color::LightCyan
    } else if a == "deposit_item"@ || a == "withdraw_item"@ || a == "deposit_gold"@
        || a == "withdraw_gold"@ {
        Color::Gray
    } else {
        Color::DarkGray
    }
}

/// The skill being exercised, inferred from the last action and the task
/// type: gathering trains mining, woodcutting or fishing; crafting trains
/// the five crafting skills.
pub open spec fn activity_skill_of(action: Seq<char>, task_type: Seq<char>) -> Option<Seq<char>> {
    if action == "gathering"@ {
        if task_type == "mining"@ {
            Some("Mining"@)
        } else if task_type == "woodcutting"@ {
            Some("Woodcutting"@)
        } else if task_type == "fishing"@ {
            Some("Fishing"@)
        } else {
            None
        }
    } else if action == "crafting"@ {
        if task_type == "weaponcrafting"@ {
            Some("Weaponcrafting"@)
        } else if task_type == "gearcrafting"@ {
            Some("Gearcrafting"@)
        } else if task_type == "jewelrycrafting"@ {
            Some("Jewelrycrafting"@)
        } else if task_type == "cooking"@ {
            Some("Cooking"@)
        } else if task_type == "alchemy"@ {
            Some("Alchemy"@)
        } else {
            None
        }
    } else {
        None
    }
}

/// The task line, e.g. `kill chicken (3/5)`; just the task when no total
/// is known.
pub open spec fn task_text(task: Seq<char>, progress: u32, total: u32) -> Seq<char> {
    if total > 0 {
        task + " ("@ + crate::text::decimal(progress as nat) + "/"@ + crate::text::decimal(
            total as nat,
        ) + ")"@
    } else {
        task
    }
}

impl CharacterState {
    /// Non-empty inventory slots (an item code and a positive quantity),
    /// sorted by slot index.
    pub fn items(&self) -> (r: Vec<InventorySlot>)
        ensures
            slots_view(r@) == sorted_by_slot(occupied(slots_view(self.inventory@))),
    {
        let mut r: Vec<InventorySlot> = Vec::new();
        let ghost all = slots_view(self.inventory@);
        let mut i: usize = 0;
        while i < self.inventory.len()
            invariant
                i <= self.inventory@.len(),
                all == slots_view(self.inventory@),
                slots_view(r@) == sorted_by_slot(occupied(all.take(i as int))),
            decreases self.inventory.len() - i,
        {
            let slot = &self.inventory[i];
            assert(all.take(i + 1) =~= all.take(i as int).push(all[i as int]));
            proof {
                reveal_with_fuel(Seq::filter, 1);
                assert(all.take(i + 1).drop_last() =~= all.take(i as int));
            }
            if !slot.code.as_str().is_empty() && slot.quantity > 0 {
                let ghost before = slots_view(r@);
                insert_slot_sorted(&mut r, slot.duplicate());
                assert(occupied(all.take(i + 1)) =~= occupied(all.take(i as int)).push(slot@));
                assert(occupied(all.take(i + 1)).drop_last() =~= occupied(all.take(i as int)));
            } else {
                assert(occupied(all.take(i + 1)) =~= occupied(all.take(i as int)));
            }
            i = i + 1;
        }
        assert(all.take(self.inventory@.len() as int) =~= all);
        r
    }

    /// Whether any elemental attack or resistance is non-zero.
    pub fn has_combat_stats(&self) -> (r: bool)
        ensures
            r == (self.attack_fire != 0 || self.attack_earth != 0 || self.attack_water != 0
                || self.attack_air != 0 || self.res_fire != 0 || self.res_earth != 0
                || self.res_water != 0 || self.res_air != 0),
    {
        self.attack_fire != 0 || self.attack_earth != 0 || self.attack_water != 0
            || self.attack_air != 0 || self.res_fire != 0 || self.res_earth != 0
            || self.res_water != 0 || self.res_air != 0
    }

    /// The current task for display, e.g. `kill chicken (3/5)`; `None`
    /// without a task.
    pub fn task_display(&self) -> (r: Option<String>)
        ensures
            self.task@.len() == 0 ==> r is None,
            self.task@.len() > 0 ==> (r matches Some(t) && t@ == task_text(
                self.task@,
                self.task_progress,
                self.task_total,
            )),
    {
        if self.task.as_str().is_empty() {
            return None;
        }
        let mut t = self.task.clone();
        if self.task_total > 0 {
            t.append(" (");
            crate::text::push_decimal(&mut t, self.task_progress as u64);
            t.append("/");
            crate::text::push_decimal(&mut t, self.task_total as u64);
            t.append(")");
        }
        Some(t)
    }

    /// Display label for the current activity.
    pub fn activity_label(&self) -> (r: &'static str)
        ensures
            r@ == activity_label_of(self.last_action@),
    {
        let a = self.last_action.as_str();
        if same_text(a, "fight") || same_text(a, "multi_fight") {
            "Fighting"
        } else if same_text(a, "gathering") {
            "Gathering"
        } else if same_text(a, "crafting") {
            "Crafting"
        } else if same_text(a, "movement") {
            "Moving"
        } else if same_text(a, "rest") {
            "Resting"
        } else if same_text(a, "task_completed") {
            "Task Done"
        } else if same_text(a, "new_task") {
            "New Task"
        } else if same_text(a, "task_exchange") || same_text(a, "task_cancelled") {
            "Task"
        } else if same_text(a, "recycling") {
            "Recycling"
        } else if same_text(a, "buy_ge") || same_text(a, "sell_ge") || same_text(
            a,
            "create_buy_order_ge",
        ) || same_text(a, "fill_buy_order_ge") {
            "Trading"
        } else if same_text(a, "deposit_item") || same_text(a, "withdraw_item") || same_text(
            a,
            "deposit_gold",
        ) || same_text(a, "withdraw_gold") {
            "Banking"
        } else if same_text(a, "equip") || same_text(a, "unequip") {
            "Equipping"
        } else {
            "Idle"
        }
    }

    /// Accent colour for the current activity.
    pub fn activity_color(&self) -> (r: Color)
        ensures
            r == activity_color_of(self.last_action@),
    {
        let a = self.last_action.as_str();
        if same_text(a, "fight") || same_text(a, "multi_fight") {
            Color::Red
        } else if same_text(a, "gathering") {
            Color::Green
        } else if same_text(a, "crafting") {
            Color::Yellow
        } else if same_text(a, "movement") {
            Color::Cyan
        } else if same_text(a, "rest") {
            Color::Blue
        } else if same_text(a, "task_completed") || same_text(a, "new_task") || same_text(
            a,
            "task_exchange",
        ) || same_text(a, "task_cancelled") {
            Color::Magenta
        } else if same_text(a, "recycling") {
            Color::LightYellow
        } else if same_text(a, "buy_ge") || same_text(a, "sell_ge") || same_text(
            a,
            "create_buy_order_ge",
        ) || same_text(a, "fill_buy_order_ge") {
            Color::LightCyan
        } else if same_text(a, "deposit_item") || same_text(a, "withdraw_item") || same_text(
            a,
            "deposit_gold",
        ) || same_text(a, "withdraw_gold") {
            Color::Gray
        } else {
            Color::DarkGray
        }
    }

    /// The skill the character is currently exercising, if it can be told
    /// from its last action and task type.
    pub fn activity_skill(&self) -> (r: Option<&'static str>)
        ensures
            r matches Some(t) ==> activity_skill_of(self.last_action@, self.task_type@) == Some(
                t@,
            ),
            r is None ==> activity_skill_of(self.last_action@, self.task_type@) is None,
    {
        let a = self.last_action.as_str();
        let t = self.task_type.as_str();
        if same_text(a, "gathering") {
            if same_text(t, "mining") {
                Some("Mining")
            } else if same_text(t, "woodcutting") {
                Some("Woodcutting")
            } else if same_text(t, "fishing") {
                Some("Fishing")
            } else {
                None
            }
        } else if same_text(a, "crafting") {
            if same_text(t, "weaponcrafting") {
                Some("Weaponcrafting")
            } else if same_text(t, "gearcrafting") {
                Some("Gearcrafting")
            } else if same_text(t, "jewelrycrafting") {
                Some("Jewelrycrafting")
            } else if same_text(t, "cooking") {
                Some("Cooking")
            } else if same_text(t, "alchemy") {
                Some("Alchemy")
            } else {
                None
            }
        } else {
            None
        }
    }
}

/// Inserts a slot into a list ordered by slot index, after every slot with
/// an index at most its own.
fn insert_slot_sorted(v: &mut Vec<InventorySlot>, x: InventorySlot)
    ensures
        slots_view(final(v)@) == insert_by_slot(slots_view(old(v)@), x@),
{
    let ghost s0 = slots_view(v@);
    let ghost xv = x@;
    let mut k: usize = v.len();
    assert(s0.take(k as int) =~= s0);
    assert(s0 + s0.skip(k as int) =~= s0);
    while k > 0 && v[k - 1].slot > x.slot
        invariant
            k <= v@.len(),
            v@ == old(v)@,
            s0 == slots_view(v@),
            xv == x@,
            insert_by_slot(s0, xv) == insert_by_slot(s0.take(k as int), xv) + s0.skip(k as int),
        decreases k,
    {
        proof {
            let t = s0.take(k as int);
            assert(t.last() == s0[k - 1]);
            assert(t.drop_last() =~= s0.take(k - 1));
            assert(insert_by_slot(t, xv) == insert_by_slot(s0.take(k - 1), xv).push(s0[k - 1]));
            assert(s0.skip(k - 1) =~= seq![s0[k - 1]] + s0.skip(k as int));
            assert(insert_by_slot(s0.take(k - 1), xv).push(s0[k - 1]) + s0.skip(k as int)
                =~= insert_by_slot(s0.take(k - 1), xv) + s0.skip(k - 1));
        }
        k = k - 1;
    }
    proof {
        let t = s0.take(k as int);
        if k > 0 {
            assert(t.last() == s0[k - 1]);
        }
        assert(insert_by_slot(t, xv) =~= t.push(xv));
        assert(t.push(xv) + s0.skip(k as int) =~= s0.take(k as int).push(xv) + s0.skip(k as int));
    }
    v.insert(k, x);
    assert(slots_view(v@) =~= s0.take(k as int).push(xv) + s0.skip(k as int));
}

/// Whether an element of a `characters` array describes the character
/// `name` (by its `name` or `character_name` member).
pub open spec fn names_character(c: Json, name: Seq<char>) -> bool {
    field_text(c, "name"@) == Some(name) || field_text(c, "character_name"@) == Some(name)
}

/// The first element of `a` that describes the character `name`.
pub open spec fn first_named(a: Seq<Json>, name: Seq<char>) -> Option<Json>
    decreases a.len(),
{
    if a.len() == 0 {
        None
    } else if names_character(a[0], name) {
        Some(a[0])
    } else {
        first_named(a.drop_first(), name)
    }
}

/// The character data node of an account log's content: member `character`
/// when it is an object, otherwise the element of the `characters` array
/// that describes the log's character.
pub open spec fn character_node_of(content: Json, name: Seq<char>) -> Option<Json> {
    let listed = match content.field("characters"@) {
        Some(m) => match m.elements() {
            Some(a) => first_named(a, name),
            None => None,
        },
        None => None,
    };
    match content.field("character"@) {
        Some(v) => if v is Object {
            Some(v)
        } else {
            listed
        },
        None => listed,
    }
}

/// A parsed `account_log` notification.
#[derive(Clone, Debug)]
pub struct AccountLogEntry {
    pub character: String,
    pub account: String,
    pub log_type: String,
    pub description: String,
    pub cooldown: i32,
    pub content: Json,
}

fn names_character_exec(c: &Json, name: &str) -> (r: bool)
    ensures
        r == names_character(*c, name@),
{
    let by_name = match crate::json::get_str(c, "name") {
        Some(n) => same_text(n, name),
        None => false,
    };
    if by_name {
        return true;
    }
    match crate::json::get_str(c, "character_name") {
        Some(n) => same_text(n, name),
        None => false,
    }
}

impl AccountLogEntry {
    /// Finds the character data node inside the content payload.
    pub fn character_node(&self) -> (r: Option<&Json>)
        ensures
            crate::json::deref_opt(r) == character_node_of(self.content, self.character@),
    {
        match self.content.get("character") {
            Some(v) => {
                if v.is_object() {
                    return Some(v);
                }
            },
            None => {},
        }
        match self.content.get("characters") {
            Some(m) => match m.as_array() {
                Some(arr) => {
                    let name = self.character.as_str();
                    let mut i: usize = 0;
                    assert(arr@.skip(0) =~= arr@);
                    while i < arr.len()
                        invariant
                            i <= arr@.len(),
                            character_node_of(self.content, self.character@) == first_named(
                                arr@.skip(i as int),
                                name@,
                            ),
                            name@ == self.character@,
                        decreases arr.len() - i,
                    {
                        assert(arr@.skip(i as int).drop_first() =~= arr@.skip(i + 1));
                        assert(arr@.skip(i as int)[0] == arr@[i as int]);
                        let c = &arr[i];
                        if names_character_exec(c, name) {
                            return Some(c);
                        }
                        i = i + 1;
                    }
                    None
                },
                None => None,
            },
            None => None,
        }
    }

    /// Member `key` of the content's `cooldown` object (such as
    /// `remaining_seconds` or `total_seconds`), when present.
    pub fn cooldown_member(&self, key: &str) -> (r: Option<&Json>)
        ensures
            crate::json::deref_opt(r) == match self.content.field("cooldown"@) {
                Some(c) => c.field(key@),
                None => None,
            },
    {
        match self.content.get("cooldown") {
            Some(c) => c.get(key),
            None => None,
        }
    }
}

/// Single map tile.
#[derive(Clone, Debug)]
pub struct MapTile {
    pub x: i32,
    pub y: i32,
    /// Unique tile ID (identifies a character's current layer).
    pub map_id: i32,
    /// Layer the tile belongs to: "overworld", "underground", "interior", ...
    pub layer: String,
    /// Human-readable tile name.
    pub name: String,
    /// Visual skin identifier of the tile sprite.
    pub skin: String,
    /// Content type ("monster", "resource", "bank", ...) or empty.
    pub content_type: String,
    /// Content code (monster/resource/workshop code).
    pub content_code: String,
}

/// The content of a map tile.
#[verifier::ext_equal]
pub struct TileView {
    pub x: i32,
    pub y: i32,
    pub map_id: i32,
    pub layer: Seq<char>,
    pub name: Seq<char>,
    pub skin: Seq<char>,
    pub content_type: Seq<char>,
    pub content_code: Seq<char>,
}

impl View for MapTile {
    type V = TileView;

    open spec fn view(&self) -> TileView {
        TileView {
            x: self.x,
            y: self.y,
            map_id: self.map_id,
            layer: self.layer@,
            name: self.name@,
            skin: self.skin@,
            content_type: self.content_type@,
            content_code: self.content_code@,
        }
    }
}

impl MapTile {
    /// An equal copy of the tile.
    pub fn duplicate(&self) -> (r: MapTile)
        ensures
            r@ == self@,
    {
        MapTile {
            x: self.x,
            y: self.y,
            map_id: self.map_id,
            layer: self.layer.clone(),
            name: self.name.clone(),
            skin: self.skin.clone(),
            content_type: self.content_type.clone(),
            content_code: self.content_code.clone(),
        }
    }
}

/// Which top-level panel currently holds keyboard focus.
#[derive(Clone, Copy, Debug, PartialEq, Eq, Structural)]
pub enum FocusedPanel {
    CharGrid,
    Sidebar,
    LogPanel,
}

impl Default for FocusedPanel {
    fn default() -> (r: FocusedPanel)
        ensures
            r == FocusedPanel::CharGrid,
    {
        FocusedPanel::CharGrid
    }
}

impl FocusedPanel {
    /// The panel after this one in the cycle grid → sidebar → log → grid.
    pub open spec fn following(self) -> FocusedPanel {
        match self {
            FocusedPanel::CharGrid => FocusedPanel::Sidebar,
            FocusedPanel::Sidebar => FocusedPanel::LogPanel,
            FocusedPanel::LogPanel => FocusedPanel::CharGrid,
        }
    }

    /// The panel before this one in the cycle grid → sidebar → log → grid.
    pub open spec fn preceding(self) -> FocusedPanel {
        match self {
            FocusedPanel::CharGrid => FocusedPanel::LogPanel,
            FocusedPanel::Sidebar => FocusedPanel::CharGrid,
            FocusedPanel::LogPanel => FocusedPanel::Sidebar,
        }
    }

    /// The next panel in the focus cycle.
    pub fn next(self) -> (r: FocusedPanel)
        ensures
            r == self.following(),
    {
        match self {
            FocusedPanel::CharGrid => FocusedPanel::Sidebar,
            FocusedPanel::Sidebar => FocusedPanel::LogPanel,
            FocusedPanel::LogPanel => FocusedPanel::CharGrid,
        }
    }

    /// The previous panel in the focus cycle.
    pub fn prev(self) -> (r: FocusedPanel)
        ensures
            r == self.preceding(),
    {
        match self {
            FocusedPanel::CharGrid => FocusedPanel::LogPanel,
            FocusedPanel::Sidebar => FocusedPanel::CharGrid,
            FocusedPanel::LogPanel => FocusedPanel::Sidebar,
        }
    }
}

/// Moving focus forward then back (or back then forward) returns to the
/// same panel, and three steps forward visit every panel and come back.
pub proof fn focus_cycle_law(p: FocusedPanel)
    ensures
        p.following().preceding() == p,
        p.preceding().following() == p,
        p.following().following().following() == p,
        p.following() != p,
        p.following().following() != p,
{
}

/// WebSocket connection status.
#[derive(Clone, Debug)]
pub enum WsStatus {
    Connecting,
    Connected,
    Disconnected(String),
}

/// A Grand Exchange order notification.
#[derive(Clone, Debug)]
pub struct GEOrder {
    pub order_type: String,
    pub code: String,
    pub quantity: u32,
    pub price: u32,
    pub account: Option<String>,
}

/// A completed Grand Exchange transaction.
#[derive(Clone, Debug)]
pub struct GETransaction {
    pub order_type: String,
    pub code: String,
    pub quantity: u32,
    pub total_price: u32,
}

/// A single entry in the Grand Exchange feed.
#[derive(Clone, Debug)]
pub enum GEFeedEntry {
    Order(GEOrder),
    Transaction(GETransaction),
}

/// An active world event.
#[derive(Clone, Debug)]
pub struct WorldEvent {
    pub name: String,
    pub code: String,
    pub expiration: String,
}

impl WorldEvent {
    /// An equal copy of the event.
    pub fn duplicate(&self) -> (r: WorldEvent)
        ensures
            r == *self,
    {
        WorldEvent {
            name: self.name.clone(),
            code: self.code.clone(),
            expiration: self.expiration.clone(),
        }
    }
}

/// A compact record for a character's action history.
#[derive(Clone, Debug)]
pub struct ActionRecord {
    pub log_type: String,
    pub description: String,
}

/// A single entry in the footer log.
#[derive(Clone, Debug)]
pub struct LogEntry {
    pub tag: &'static str,
    pub tag_color: Color,
    pub character: String,
    pub message: String,
}

} // verus!
