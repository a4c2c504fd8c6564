use gero::models::{
    recompute, Armor, ArmorTier, Equipment, Faction, Permille, Stats, Unit, UnitType, Weapon,
    WeaponTier,
};

#[test]
fn armor_modifiers_change_stats() {
    let mut unit = Unit::new("u", "Unit", UnitType::Guardsman, Faction::Imperial);
    unit.base_stats.toughness = 3;
    unit.base_stats.agility = 4;
    unit.apply_equipment();

    let armor = Armor {
        id: "a1".into(),
        name: "Flak".into(),
        tier: ArmorTier::Flak,
        toughness_bonus: 2,
        agility_penalty: -1,
        special_properties: Vec::new(),
    };

    unit.equip_armor(armor.clone());
    assert_eq!(unit.current_stats.toughness, 5);
    assert_eq!(unit.current_stats.agility, 3);

    unit.unequip_armor();
    assert_eq!(unit.current_stats.toughness, unit.base_stats.toughness);
    assert_eq!(unit.current_stats.agility, unit.base_stats.agility);
}

#[test]
fn weapon_equipment_pipeline_keeps_stats_unchanged() {
    let mut unit = Unit::new("u", "Unit", UnitType::Guardsman, Faction::Imperial);
    unit.base_stats.strength = 2;
    unit.base_stats.agility = 3;
    unit.apply_equipment();

    let weapon = Weapon {
        id: "w1".into(),
        name: "Lasgun".into(),
        tier: WeaponTier::Basic,
        damage: 2,
        accuracy: Permille { thousandths: 1000 },
        range: 5,
        armor_piercing: None,
        action_point_cost: 1,
        critical_chance: Permille { thousandths: 0 },
        abilities_granted: Vec::new(),
    };

    let base = unit.base_stats.clone();
    unit.equip_weapon(weapon.clone());
    assert_eq!(unit.current_stats.strength, base.strength);
    assert_eq!(unit.current_stats.toughness, base.toughness);
    assert_eq!(unit.current_stats.agility, base.agility);
    assert_eq!(unit.current_stats.intellect, base.intellect);
    assert_eq!(unit.current_stats.willpower, base.willpower);
    assert_eq!(unit.current_stats.fellowship, base.fellowship);
    assert_eq!(unit.current_stats.max_health, base.max_health);
    assert_eq!(unit.current_stats.max_action, base.max_action);

    let returned = unit.unequip_weapon().expect("weapon returned");
    assert_eq!(returned.id, weapon.id);
    assert_eq!(returned.name, weapon.name);
    assert!(matches!(returned.tier, WeaponTier::Basic));
    assert_eq!(returned.damage, weapon.damage);
    assert_eq!(returned.accuracy, weapon.accuracy);
    assert_eq!(returned.range, weapon.range);
    assert_eq!(returned.armor_piercing, weapon.armor_piercing);
    assert_eq!(returned.action_point_cost, weapon.action_point_cost);
    assert_eq!(returned.critical_chance, weapon.critical_chance);
    assert_eq!(returned.abilities_granted.len(), weapon.abilities_granted.len());

    assert_eq!(unit.current_stats.strength, base.strength);
    assert_eq!(unit.current_stats.toughness, base.toughness);
    assert_eq!(unit.current_stats.agility, base.agility);
    assert_eq!(unit.current_stats.intellect, base.intellect);
    assert_eq!(unit.current_stats.willpower, base.willpower);
    assert_eq!(unit.current_stats.fellowship, base.fellowship);
    assert_eq!(unit.current_stats.max_health, base.max_health);
    assert_eq!(unit.current_stats.max_action, base.max_action);
}

#[test]
fn new_unit_starts_with_the_starting_stats() {
    let unit = Unit::new("id", "Name", UnitType::Commissar, Faction::Chaos);
    assert_eq!(unit.id, "id");
    assert_eq!(unit.name, "Name");
    assert!(matches!(unit.unit_type, UnitType::Commissar));
    assert!(matches!(unit.faction, Faction::Chaos));
    assert_eq!(unit.level, 1);
    let starting = Stats { max_health: 10, max_action: 2, ..Stats::default() };
    assert_eq!(unit.base_stats, starting);
    assert_eq!(unit.current_stats, starting);
    assert_eq!(Stats::default().max_health, 0);
    assert_eq!(unit.health_points, 10);
    assert_eq!(unit.action_points, 2);
    assert_eq!(unit.experience, 0);
    assert_eq!(unit.grid_position.x, 0);
    assert_eq!(unit.grid_position.y, 0);
    assert!(unit.equipment.weapon.is_none());
    assert!(unit.equipment.armor.is_none());
    assert!(unit.equipment.accessory_slots.is_empty());
    assert!(unit.abilities.is_empty());
    assert!(unit.status_effects.is_empty());
    assert_eq!(unit.animation_state.frame_index, 0);
    assert_eq!(unit.animation_state.timer, Permille { thousandths: 0 });
    assert_eq!(unit.sprite_id, "");
    assert!(!unit.is_selected);
}

#[test]
fn refresh_overwrites_the_scratchpad() {
    let mut unit = Unit::new("u", "Unit", UnitType::Guardsman, Faction::Imperial);
    unit.base_stats.toughness = 3;
    unit.equipment.armor = Some(Armor {
        id: "a1".into(),
        name: "Carapace".into(),
        tier: ArmorTier::Carapace,
        toughness_bonus: 4,
        agility_penalty: -2,
        special_properties: Vec::new(),
    });
    unit.current_stats.toughness = 99;
    unit.current_stats.strength = 99;
    unit.apply_equipment();
    assert_eq!(unit.current_stats.toughness, 7);
    assert_eq!(unit.current_stats.agility, -2);
    assert_eq!(unit.current_stats.strength, 0);
    assert_eq!(
        recompute(&unit.base_stats, &unit.equipment),
        Stats { toughness: 7, agility: -2, max_health: 10, max_action: 2, ..Stats::default() }
    );
    unit.remove_equipment();
    assert_eq!(unit.current_stats, unit.base_stats);
    assert!(unit.equipment.armor.is_some());
    let bare = Equipment { weapon: None, armor: None, accessory_slots: Vec::new() };
    assert_eq!(recompute(&unit.base_stats, &bare), unit.base_stats);
}

#[test]
fn unequipping_hands_back_what_was_worn() {
    let mut unit = Unit::new("u", "Unit", UnitType::Guardsman, Faction::Imperial);
    assert!(unit.unequip_armor().is_none());
    assert!(unit.unequip_weapon().is_none());
    unit.equip_armor(Armor {
        id: "a1".into(),
        name: "Flak".into(),
        tier: ArmorTier::Flak,
        toughness_bonus: 2,
        agility_penalty: -1,
        special_properties: Vec::new(),
    });
    unit.equip_armor(Armor {
        id: "a2".into(),
        name: "Power".into(),
        tier: ArmorTier::PowerArmor,
        toughness_bonus: 6,
        agility_penalty: -3,
        special_properties: Vec::new(),
    });
    assert_eq!(unit.current_stats.toughness, 6);
    let removed = unit.unequip_armor().expect("armor returned");
    assert_eq!(removed.id, "a2");
    assert!(unit.equipment.armor.is_none());
    assert_eq!(unit.current_stats.toughness, 0);
}

#[test]
fn permille_scales_toward_zero_and_within_bounds() {
    let half = Permille { thousandths: 500 };
    assert_eq!(half.scale(4), 2);
    assert_eq!(half.scale(5), 2);
    assert_eq!(half.scale(-5), -2);
    assert_eq!(half.scale(0), 0);
    assert_eq!(Permille { thousandths: 1000 }.scale(-7), -7);
    assert_eq!(Permille { thousandths: 1 }.scale(999), 0);
    assert_eq!(Permille { thousandths: 1 }.scale(-999), 0);
    assert_eq!(Permille { thousandths: -1500 }.scale(3), -4);
    assert_eq!(Permille { thousandths: 2000 }.scale(i32::MAX), i32::MAX);
    assert_eq!(Permille { thousandths: 2000 }.scale(i32::MIN), i32::MIN);
    assert_eq!(Permille { thousandths: i32::MIN }.scale(i32::MIN), i32::MAX);
}
