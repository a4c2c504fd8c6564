//! The data model of the battlefield: units, their statistics and equipment,
//! ability templates and the small value types they are built from.

use vstd::prelude::*;

verus! {

/// A quantity with three decimal places, held as a whole number of thousandths.
///
/// `Permille { thousandths: 500 }` is one half; `Permille { thousandths: 1000 }` is one.
#[derive(Debug, Clone, Copy, PartialEq, Eq, Structural)]
pub struct Permille {
    pub thousandths: i32,
}

/// Integer quotient rounded toward zero, for a positive divisor.
pub open spec fn truncating_quotient(numerator: int, divisor: int) -> int {
    if numerator >= 0 {
        numerator / divisor
    } else {
        -((-numerator) / divisor)
    }
}

/// The nearest value to `value` that an `i32` can hold.
pub open spec fn clamp_to_i32(value: int) -> int {
    if value < i32::MIN {
        i32::MIN as int
    } else if value > i32::MAX {
        i32::MAX as int
    } else {
        value
    }
}

impl Permille {
    /// `value` multiplied by this quantity, rounded toward zero and held to the `i32` range.
    pub open spec fn scaled(self, value: int) -> int {
        clamp_to_i32(truncating_quotient(value * self.thousandths, 1000))
    }

    /// Multiplies `value` by this quantity. The product is rounded toward zero;
    /// a product beyond the `i32` range is held at the nearest bound.
    pub fn scale(self, value: i32) -> (scaled: i32)
        ensures
            scaled == self.scaled(value as int),
    {
        assert(-0x4000_0000_0000_0000 <= (value as int) * (self.thousandths as int)
            <= 0x4000_0000_0000_0000) by (nonlinear_arith)
            requires
                -0x8000_0000 <= value as int <= 0x7fff_ffff,
                -0x8000_0000 <= self.thousandths as int <= 0x7fff_ffff,
        ;
        let product: i64 = (value as i64) * (self.thousandths as i64);
        let quotient: i64 = if product >= 0 {
            product / 1000
        } else {
            -((-product) / 1000)
        };
        if quotient < i32::MIN as i64 {
            i32::MIN
        } else if quotient > i32::MAX as i64 {
            i32::MAX
        } else {
            quotient as i32
        }
    }
}

/// The characteristics of a unit.
#[derive(Debug, Clone, Copy, PartialEq, Eq, Structural)]
pub struct Stats {
    pub strength: i32,
    pub toughness: i32,
    pub agility: i32,
    pub intellect: i32,
    pub willpower: i32,
    pub fellowship: i32,
    pub max_health: i32,
    pub max_action: u32,
}

impl Stats {
    /// The statistics in which every characteristic is zero.
    pub open spec fn zero() -> Stats {
        Stats {
            strength: 0,
            toughness: 0,
            agility: 0,
            intellect: 0,
            willpower: 0,
            fellowship: 0,
            max_health: 0,
            max_action: 0,
        }
    }
}

impl Default for Stats {
    fn default() -> (stats: Self)
        ensures
            stats == Stats::zero(),
    {
        Stats {
            strength: 0,
            toughness: 0,
            agility: 0,
            intellect: 0,
            willpower: 0,
            fellowship: 0,
            max_health: 0,
            max_action: 0,
        }
    }
}

#[derive(Debug, Clone, Copy, PartialEq, Eq, Structural)]
pub enum UnitType {
    SpaceMarine,
    Guardsman,
    Commissar,
    TechPriest,
    OrkBoy,
    OrkNob,
    Weirdboy,
    Cultist,
    ChaosMarine,
    Daemon,
}

#[derive(Debug, Clone, Copy, PartialEq, Eq, Structural)]
pub enum Faction {
    Imperial,
    Ork,
    Chaos,
}

/// A cell coordinate on the battlefield grid.
#[derive(Debug, Clone, Copy, PartialEq, Eq, Hash, Structural)]
pub struct Position {
    pub x: usize,
    pub y: usize,
}

#[derive(Debug, Clone, Copy, PartialEq, Eq, Structural)]
pub enum EffectType {
    Poison,
    Stun,
    Shield,
    Suppression,
}

/// A lingering condition on a unit.
#[derive(Debug, Clone, Copy, PartialEq, Eq, Structural)]
pub struct StatusEffect {
    pub effect_type: EffectType,
    pub remaining_turns: u32,
    pub magnitude: i32,
}

#[derive(Debug, Clone, Copy, PartialEq, Eq, Structural)]
pub enum AnimationType {
    Idle,
    Move,
    Attack,
    AbilityCast,
    Death,
}

/// What a unit's sprite is currently showing. `timer` counts seconds.
#[derive(Debug, Clone, Copy, PartialEq, Eq, Structural)]
pub struct AnimationState {
    pub current_animation: AnimationType,
    pub frame_index: usize,
    pub timer: Permille,
}

#[derive(Debug, Clone, Copy, PartialEq, Eq, Structural)]
pub enum WeaponTier {
    Basic,
    Advanced,
    MasterCrafted,
}

#[derive(Debug, Clone, Copy, PartialEq, Eq, Structural)]
pub enum ArmorTier {
    Flak,
    Carapace,
    PowerArmor,
}

#[derive(Debug, Clone, Copy, PartialEq, Eq, Structural)]
pub enum ArmorProperty {
    ReactivePlating,
    InoculatedCeramite,
}

#[derive(Debug, Clone, Copy, PartialEq, Eq, Structural)]
pub enum AbilityType {
    RangedAttack,
    MeleeAttack,
    PsychicBlast,
    Healing,
    Buff,
    Debuff,
    Summon,
    Special,
}

#[derive(Debug, Clone, Copy, PartialEq, Eq, Structural)]
pub enum AreaOfEffect {
    Cone { radius: u32 },
    Line { length: u32 },
    Circle { radius: u32 },
}

/// A bundle of additive adjustments to a unit's characteristics.
#[derive(Debug, Clone, Copy, PartialEq, Eq, Structural)]
pub struct StatsModifier {
    pub strength_mod: i32,
    pub toughness_mod: i32,
    pub agility_mod: i32,
    pub intellect_mod: i32,
    pub willpower_mod: i32,
    pub fellowship_mod: i32,
}

#[derive(Debug, Clone, Copy, PartialEq, Eq, Structural)]
pub enum Accessory {
    Grenade { damage: i32, aoe_radius: u32 },
    Stimpack { heal_amount: i32, cooldown: u32 },
    Medkit { heal_over_time: i32, duration: u32 },
    Bionics { stat_bonus: StatsModifier, duration: u32 },
}

/// A weapon template. `accuracy` and `critical_chance` are fractions of one.
#[derive(Debug, Clone)]
pub struct Weapon {
    pub id: String,
    pub name: String,
    pub tier: WeaponTier,
    pub damage: i32,
    pub accuracy: Permille,
    pub range: u32,
    pub armor_piercing: Option<Permille>,
    pub action_point_cost: u32,
    pub critical_chance: Permille,
    pub abilities_granted: Vec<AbilityType>,
}

/// An armor template.
#[derive(Debug, Clone)]
pub struct Armor {
    pub id: String,
    pub name: String,
    pub tier: ArmorTier,
    pub toughness_bonus: i32,
    pub agility_penalty: i32,
    pub special_properties: Vec<ArmorProperty>,
}

/// What a unit carries.
#[derive(Debug, Clone)]
pub struct Equipment {
    pub weapon: Option<Weapon>,
    pub armor: Option<Armor>,
    pub accessory_slots: Vec<Accessory>,
}

/// What an ability does to each unit it is applied to.
#[derive(Debug, Clone, Copy)]
pub struct AbilityEffect {
    pub damage: Option<i32>,
    pub healing: Option<i32>,
    pub buff: Option<StatsModifier>,
    pub debuff: Option<StatsModifier>,
    pub status_applied: Option<EffectType>,
    pub duration: Option<u32>,
}

/// An ability as one unit holds it: the template, and in `current_cooldown`
/// the turns that must pass before this unit may use it again.
#[derive(Debug, Clone)]
pub struct Ability {
    pub id: String,
    pub name: String,
    pub ability_type: AbilityType,
    pub description: String,
    pub action_point_cost: u32,
    pub cooldown: u32,
    pub current_cooldown: u32,
    pub range: u32,
    pub area_of_effect: Option<AreaOfEffect>,
    pub effect: AbilityEffect,
    pub animation: AnimationType,
    pub sound_effect_key: String,
}

/// A combatant.
///
/// `current_stats` is a scratchpad: abilities and hazards adjust it in place, and every
/// refresh of the equipment overwrites it with `equipped_stats(base_stats, equipment)`.
#[derive(Debug, Clone)]
pub struct Unit {
    pub id: String,
    pub name: String,
    pub unit_type: UnitType,
    pub level: u32,
    pub base_stats: Stats,
    pub current_stats: Stats,
    pub equipment: Equipment,
    pub abilities: Vec<Ability>,
    pub grid_position: Position,
    pub experience: u32,
    pub health_points: i32,
    pub action_points: u32,
    pub faction: Faction,
    pub status_effects: Vec<StatusEffect>,
    pub animation_state: AnimationState,
    pub sprite_id: String,
    pub is_selected: bool,
}

/// The statistics every freshly created unit starts with.
pub open spec fn starting_stats() -> Stats {
    Stats { max_health: 10, max_action: 2, ..Stats::zero() }
}

/// The statistics of a unit with the given baseline wearing the given equipment:
/// armor adds its toughness bonus and its agility penalty, nothing else counts.
pub open spec fn equipped_stats(base: Stats, equipment: Equipment) -> Stats {
    match equipment.armor {
        Some(armor) => Stats {
            toughness: (base.toughness + armor.toughness_bonus) as i32,
            agility: (base.agility + armor.agility_penalty) as i32,
            ..base
        },
        None => base,
    }
}

/// Whether the sums that `equipped_stats` forms stay within `i32`.
pub open spec fn equipment_fits(base: Stats, equipment: Equipment) -> bool {
    match equipment.armor {
        Some(armor) => {
            &&& i32::MIN <= base.toughness + armor.toughness_bonus <= i32::MAX
            &&& i32::MIN <= base.agility + armor.agility_penalty <= i32::MAX
        },
        None => true,
    }
}

/// Computes the statistics of a unit from its baseline and its equipment.
pub fn recompute(base: &Stats, equipment: &Equipment) -> (stats: Stats)
    requires
        equipment_fits(*base, *equipment),
    ensures
        stats == equipped_stats(*base, *equipment),
{
    let mut stats = *base;
    match &equipment.armor {
        Some(armor) => {
            stats.toughness = stats.toughness + armor.toughness_bonus;
            stats.agility = stats.agility + armor.agility_penalty;
        },
        None => {},
    }
    stats
}

impl Unit {
    /// A level-one unit with the starting statistics, full health and action points,
    /// no equipment and no abilities, standing at the origin.
    pub fn new(id: &str, name: &str, unit_type: UnitType, faction: Faction) -> (unit: Self)
        ensures
            unit.id@ == id@,
            unit.name@ == name@,
            unit.unit_type == unit_type,
            unit.level == 1,
            unit.base_stats == starting_stats(),
            unit.current_stats == starting_stats(),
            unit.equipment.weapon is None,
            unit.equipment.armor is None,
            unit.equipment.accessory_slots@.len() == 0,
            unit.abilities@.len() == 0,
            unit.grid_position == (Position { x: 0, y: 0 }),
            unit.experience == 0,
            unit.health_points == 10,
            unit.action_points == 2,
            unit.faction == faction,
            unit.status_effects@.len() == 0,
            unit.animation_state == (AnimationState {
                current_animation: AnimationType::Idle,
                frame_index: 0,
                timer: Permille { thousandths: 0 },
            }),
            unit.sprite_id@.len() == 0,
            !unit.is_selected,
    {
        let stats = Stats {
            strength: 0,
            toughness: 0,
            agility: 0,
            intellect: 0,
            willpower: 0,
            fellowship: 0,
            max_health: 10,
            max_action: 2,
        };
        Unit {
            id: id.to_owned(),
            name: name.to_owned(),
            unit_type,
            level: 1,
            base_stats: stats,
            current_stats: stats,
            equipment: Equipment { weapon: None, armor: None, accessory_slots: Vec::new() },
            abilities: Vec::new(),
            grid_position: Position { x: 0, y: 0 },
            experience: 0,
            health_points: stats.max_health,
            action_points: stats.max_action,
            faction,
            status_effects: Vec::new(),
            animation_state: AnimationState {
                current_animation: AnimationType::Idle,
                frame_index: 0,
                timer: Permille { thousandths: 0 },
            },
            sprite_id: String::new(),
            is_selected: false,
        }
    }

    /// Whether refreshing this unit's equipment stays within `i32`.
    pub open spec fn equipment_fits(&self) -> bool {
        equipment_fits(self.base_stats, self.equipment)
    }

    /// This unit after a refresh of its equipment.
    pub open spec fn refreshed(self) -> Unit {
        Unit { current_stats: equipped_stats(self.base_stats, self.equipment), ..self }
    }

    /// Overwrites `current_stats` with what the baseline and the equipment give.
    /// Adjustments made to `current_stats` since the last refresh are lost.
    pub fn apply_equipment(&mut self)
        requires
            old(self).equipment_fits(),
        ensures
            *final(self) == old(self).refreshed(),
    {
        self.current_stats = recompute(&self.base_stats, &self.equipment);
    }

    /// Overwrites `current_stats` with the baseline.
    pub fn remove_equipment(&mut self)
        ensures
            *final(self) == (Unit { current_stats: old(self).base_stats, ..*old(self) }),
    {
        self.current_stats = self.base_stats;
    }

    /// Puts `weapon` in the weapon slot, dropping what was there, and refreshes the statistics.
    pub fn equip_weapon(&mut self, weapon: Weapon)
        requires
            old(self).equipment_fits(),
        ensures
            *final(self) == (Unit {
                equipment: Equipment { weapon: Some(weapon), ..old(self).equipment },
                ..*old(self)
            }).refreshed(),
    {
        self.remove_equipment();
        self.equipment.weapon = Some(weapon);
        self.apply_equipment();
    }

    /// Empties the weapon slot, hands back what was in it, and refreshes the statistics.
    pub fn unequip_weapon(&mut self) -> (removed: Option<Weapon>)
        requires
            old(self).equipment_fits(),
        ensures
            removed == old(self).equipment.weapon,
            *final(self) == (Unit {
                equipment: Equipment { weapon: None, ..old(self).equipment },
                ..*old(self)
            }).refreshed(),
    {
        let removed = self.equipment.weapon.take();
        self.remove_equipment();
        self.apply_equipment();
        removed
    }

    /// Puts `armor` in the armor slot, dropping what was there, and refreshes the statistics.
    pub fn equip_armor(&mut self, armor: Armor)
        requires
            equipment_fits(
                old(self).base_stats,
                Equipment { armor: Some(armor), ..old(self).equipment },
            ),
        ensures
            *final(self) == (Unit {
                equipment: Equipment { armor: Some(armor), ..old(self).equipment },
                ..*old(self)
            }).refreshed(),
    {
        self.remove_equipment();
        self.equipment.armor = Some(armor);
        self.apply_equipment();
    }

    /// Empties the armor slot, hands back what was in it, and returns the statistics
    /// to the baseline.
    pub fn unequip_armor(&mut self) -> (removed: Option<Armor>)
        ensures
            removed == old(self).equipment.armor,
            *final(self) == (Unit {
                equipment: Equipment { armor: None, ..old(self).equipment },
                current_stats: old(self).base_stats,
                ..*old(self)
            }),
    {
        let removed = self.equipment.armor.take();
        self.remove_equipment();
        self.apply_equipment();
        removed
    }
}

/// A lore quiz that unlocks a recruit.
#[derive(Debug, Clone)]
pub struct RecruitmentChallenge {
    pub unit_name: String,
    pub questions: Vec<LoreQuestion>,
    pub required_correct_answers: u32,
    pub player_score: u32,
    pub is_completed: bool,
}

/// One multiple-choice question of a recruitment challenge.
#[derive(Debug, Clone)]
pub struct LoreQuestion {
    pub question: String,
    pub options: Vec<String>,
    pub correct_answer_index: usize,
    pub explanation: String,
}

} // verus!
