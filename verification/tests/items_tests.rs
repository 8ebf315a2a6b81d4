use dungeon_maze::items::{
    handle_item_used, DamageKind, ItemEffect, ItemKind, ItemUseOutcome, Stat, ITEM_STRENGTH, REGEN_MODIFIER_PERCENT,
    REGEN_MODIFIER_SECONDS,
};

#[test]
fn potions_heal() {
    assert_eq!(handle_item_used(ItemKind::HealthPotion, true, false), ItemUseOutcome::Apply(ItemEffect::Heal { stat: Stat::Health, amount: 30 }));
    assert_eq!(handle_item_used(ItemKind::StaminaPotion, true, false), ItemUseOutcome::Apply(ItemEffect::Heal { stat: Stat::Stamina, amount: 30 }));
    assert_eq!(ITEM_STRENGTH, 30);
}

#[test]
fn stamina_potion_is_checked_against_health() {
    assert_eq!(handle_item_used(ItemKind::StaminaPotion, false, true), ItemUseOutcome::MissingStat(Stat::Health));
}

#[test]
fn regen_modifiers() {
    assert_eq!(
        handle_item_used(ItemKind::HealthRegenPotion, true, true),
        ItemUseOutcome::Apply(ItemEffect::TempModifier { stat: Stat::Health, percent: 5, seconds: 90 })
    );
    assert_eq!(
        handle_item_used(ItemKind::StaminaRegenPoison, true, true),
        ItemUseOutcome::Apply(ItemEffect::TempModifier { stat: Stat::Stamina, percent: -5, seconds: 90 })
    );
    assert_eq!((REGEN_MODIFIER_PERCENT, REGEN_MODIFIER_SECONDS), (5, 90));
}

#[test]
fn regen_poison_opposes_potion() {
    for (potion, poison) in [
        (ItemKind::HealthRegenPotion, ItemKind::HealthRegenPoison),
        (ItemKind::StaminaRegenPotion, ItemKind::StaminaRegenPoison),
    ] {
        match (handle_item_used(potion, true, true), handle_item_used(poison, true, true)) {
            (
                ItemUseOutcome::Apply(ItemEffect::TempModifier { stat: s1, percent: p1, seconds: d1 }),
                ItemUseOutcome::Apply(ItemEffect::TempModifier { stat: s2, percent: p2, seconds: d2 }),
            ) => {
                assert_eq!(s1, s2);
                assert_eq!(d1, d2);
                assert_eq!(p1 + p2, 0);
            }
            other => panic!("unexpected outcome {:?}", other),
        }
    }
}

#[test]
fn poisons_damage() {
    assert_eq!(handle_item_used(ItemKind::HealthPoison, true, false), ItemUseOutcome::Apply(ItemEffect::Damage { kind: DamageKind::Poison, amount: 30 }));
    assert_eq!(handle_item_used(ItemKind::StaminaPoison, false, true), ItemUseOutcome::Apply(ItemEffect::Damage { kind: DamageKind::Stamina, amount: 30 }));
}

#[test]
fn missing_stat() {
    assert_eq!(handle_item_used(ItemKind::HealthPoison, false, true), ItemUseOutcome::MissingStat(Stat::Health));
    assert_eq!(handle_item_used(ItemKind::StaminaRegenPotion, true, false), ItemUseOutcome::MissingStat(Stat::Stamina));
    assert_eq!(handle_item_used(ItemKind::StaminaPoison, true, false), ItemUseOutcome::MissingStat(Stat::Stamina));
    assert_eq!(handle_item_used(ItemKind::HealthRegenPoison, false, false), ItemUseOutcome::MissingStat(Stat::Health));
}

#[test]
fn other_items_do_nothing() {
    assert_eq!(handle_item_used(ItemKind::Other, true, true), ItemUseOutcome::NoEffect);
    assert_eq!(handle_item_used(ItemKind::Other, false, false), ItemUseOutcome::NoEffect);
}
