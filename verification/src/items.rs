//! What using an item does to the entity that uses it.
use vstd::prelude::*;

verus! {

/// The kinds of item that an entity can use.
#[derive(Clone, Copy, Debug, PartialEq, Eq, Structural)]
pub enum ItemKind {
    HealthPotion,
    StaminaPotion,
    HealthRegenPotion,
    StaminaRegenPotion,
    HealthPoison,
    StaminaPoison,
    HealthRegenPoison,
    StaminaRegenPoison,
    /// Any item that has no effect when used.
    Other,
}

/// A statistic of an entity that items act upon.
#[derive(Clone, Copy, Debug, PartialEq, Eq, Structural)]
pub enum Stat {
    Health,
    Stamina,
}

/// The kind of damage a poison deals.
#[derive(Clone, Copy, Debug, PartialEq, Eq, Structural)]
pub enum DamageKind {
    Poison,
    Stamina,
}

/// How much a potion heals and a poison damages.
pub const ITEM_STRENGTH: u32 = 30;

/// The change of regeneration that a regeneration potion or poison makes,
/// in hundredths.
pub const REGEN_MODIFIER_PERCENT: i32 = 5;

/// How long a regeneration potion or poison lasts, in seconds.
pub const REGEN_MODIFIER_SECONDS: u32 = 90;

/// The effect of an item on the entity that uses it.
#[derive(Clone, Copy, Debug, PartialEq, Eq, Structural)]
pub enum ItemEffect {
    /// `stat` is healed by `amount`.
    Heal { stat: Stat, amount: u32 },
    /// The regeneration of `stat` changes by `percent` hundredths for `seconds`.
    TempModifier { stat: Stat, percent: i32, seconds: u32 },
    /// `amount` damage of kind `kind` is dealt.
    Damage { kind: DamageKind, amount: u32 },
}

/// What using an item comes to.
#[derive(Clone, Copy, Debug, PartialEq, Eq, Structural)]
pub enum ItemUseOutcome {
    /// The effect is applied to the entity.
    Apply(ItemEffect),
    /// The item needs the entity to have this statistic, and it has none;
    /// this should not happen.
    MissingStat(Stat),
    /// The item does nothing.
    NoEffect,
}

/// The statistic that an entity must have for an item to act on it, if the
/// item does anything. A stamina potion is checked against health.
pub open spec fn required_stat(item: ItemKind) -> Option<Stat> {
    match item {
        ItemKind::HealthPotion => Some(Stat::Health),
        ItemKind::StaminaPotion => Some(Stat::Health),
        ItemKind::HealthRegenPotion => Some(Stat::Health),
        ItemKind::StaminaRegenPotion => Some(Stat::Stamina),
        ItemKind::HealthPoison => Some(Stat::Health),
        ItemKind::StaminaPoison => Some(Stat::Stamina),
        ItemKind::HealthRegenPoison => Some(Stat::Health),
        ItemKind::StaminaRegenPoison => Some(Stat::Stamina),
        ItemKind::Other => None,
    }
}

/// The effect of an item, if it has one.
pub open spec fn item_effect(item: ItemKind) -> Option<ItemEffect> {
    match item {
        ItemKind::HealthPotion => Some(ItemEffect::Heal { stat: Stat::Health, amount: ITEM_STRENGTH }),
        ItemKind::StaminaPotion => Some(ItemEffect::Heal { stat: Stat::Stamina, amount: ITEM_STRENGTH }),
        ItemKind::HealthRegenPotion => Some(
            ItemEffect::TempModifier {
                stat: Stat::Health,
                percent: REGEN_MODIFIER_PERCENT,
                seconds: REGEN_MODIFIER_SECONDS,
            },
        ),
        ItemKind::StaminaRegenPotion => Some(
            ItemEffect::TempModifier {
                stat: Stat::Stamina,
                percent: REGEN_MODIFIER_PERCENT,
                seconds: REGEN_MODIFIER_SECONDS,
            },
        ),
        ItemKind::HealthPoison => Some(ItemEffect::Damage { kind: DamageKind::Poison, amount: ITEM_STRENGTH }),
        ItemKind::StaminaPoison => Some(ItemEffect::Damage { kind: DamageKind::Stamina, amount: ITEM_STRENGTH }),
        ItemKind::HealthRegenPoison => Some(
            ItemEffect::TempModifier {
                stat: Stat::Health,
                percent: (-REGEN_MODIFIER_PERCENT) as i32,
                seconds: REGEN_MODIFIER_SECONDS,
            },
        ),
        ItemKind::StaminaRegenPoison => Some(
            ItemEffect::TempModifier {
                stat: Stat::Stamina,
                percent: (-REGEN_MODIFIER_PERCENT) as i32,
                seconds: REGEN_MODIFIER_SECONDS,
            },
        ),
        ItemKind::Other => None,
    }
}

/// What using `item` on an entity with or without health and stamina does.
pub open spec fn item_use_outcome(item: ItemKind, has_health: bool, has_stamina: bool) -> ItemUseOutcome {
    match required_stat(item) {
        None => ItemUseOutcome::NoEffect,
        Some(stat) => {
            let has = match stat {
                Stat::Health => has_health,
                Stat::Stamina => has_stamina,
            };
            if has {
                ItemUseOutcome::Apply(item_effect(item)->0)
            } else {
                ItemUseOutcome::MissingStat(stat)
            }
        },
    }
}

/// Decides what using `item` does to an entity, given whether the entity has
/// health and whether it has stamina.
pub fn handle_item_used(item: ItemKind, has_health: bool, has_stamina: bool) -> (res: ItemUseOutcome)
    ensures
        res == item_use_outcome(item, has_health, has_stamina),
        res matches ItemUseOutcome::Apply(e) ==> item_effect(item) == Some(e),
        res is Apply <==> needs_met(item, has_health, has_stamina),
        res is NoEffect <==> item == ItemKind::Other,
        res matches ItemUseOutcome::MissingStat(st) ==> !needs_met(item, has_health, has_stamina) && (st
            == Stat::Stamina <==> needs_stamina(item)),
{
    proof {
        lemma_item_use_explained(item, has_health, has_stamina);
    }
    let regen = REGEN_MODIFIER_PERCENT;
    let secs = REGEN_MODIFIER_SECONDS;
    match item {
        ItemKind::HealthPotion => if has_health {
            ItemUseOutcome::Apply(ItemEffect::Heal { stat: Stat::Health, amount: ITEM_STRENGTH })
        } else {
            ItemUseOutcome::MissingStat(Stat::Health)
        },
        ItemKind::StaminaPotion => if has_health {
            ItemUseOutcome::Apply(ItemEffect::Heal { stat: Stat::Stamina, amount: ITEM_STRENGTH })
        } else {
            ItemUseOutcome::MissingStat(Stat::Health)
        },
        ItemKind::HealthRegenPotion => if has_health {
            ItemUseOutcome::Apply(ItemEffect::TempModifier { stat: Stat::Health, percent: regen, seconds: secs })
        } else {
            ItemUseOutcome::MissingStat(Stat::Health)
        },
        ItemKind::StaminaRegenPotion => if has_stamina {
            ItemUseOutcome::Apply(ItemEffect::TempModifier { stat: Stat::Stamina, percent: regen, seconds: secs })
        } else {
            ItemUseOutcome::MissingStat(Stat::Stamina)
        },
        ItemKind::HealthPoison => if has_health {
            ItemUseOutcome::Apply(ItemEffect::Damage { kind: DamageKind::Poison, amount: ITEM_STRENGTH })
        } else {
            ItemUseOutcome::MissingStat(Stat::Health)
        },
        ItemKind::StaminaPoison => if has_stamina {
            ItemUseOutcome::Apply(ItemEffect::Damage { kind: DamageKind::Stamina, amount: ITEM_STRENGTH })
        } else {
            ItemUseOutcome::MissingStat(Stat::Stamina)
        },
        ItemKind::HealthRegenPoison => if has_health {
            ItemUseOutcome::Apply(ItemEffect::TempModifier { stat: Stat::Health, percent: -regen, seconds: secs })
        } else {
            ItemUseOutcome::MissingStat(Stat::Health)
        },
        ItemKind::StaminaRegenPoison => if has_stamina {
            ItemUseOutcome::Apply(ItemEffect::TempModifier { stat: Stat::Stamina, percent: -regen, seconds: secs })
        } else {
            ItemUseOutcome::MissingStat(Stat::Stamina)
        },
        ItemKind::Other => ItemUseOutcome::NoEffect,
    }
}

/// A regeneration poison undoes the matching regeneration potion: same
/// statistic, same duration, opposite change.
pub proof fn lemma_regen_poison_opposes_potion()
    ensures
        regen_pair_opposed(ItemKind::HealthRegenPotion, ItemKind::HealthRegenPoison),
        regen_pair_opposed(ItemKind::StaminaRegenPotion, ItemKind::StaminaRegenPoison),
{
}

/// Whether `potion` and `poison` change the regeneration of the same
/// statistic for the same time by opposite amounts.
pub open spec fn regen_pair_opposed(potion: ItemKind, poison: ItemKind) -> bool {
    &&& item_effect(potion) matches Some(ItemEffect::TempModifier { stat: s1, percent: p1, seconds: d1 })
    &&& item_effect(poison) matches Some(ItemEffect::TempModifier { stat: s2, percent: p2, seconds: d2 })
    &&& s1 == s2 && d1 == d2 && p1 + p2 == 0 && p1 > 0
}

/// Whether `item` acts on stamina, so that it needs the entity to have
/// stamina; every other item except `Other` needs health.
pub open spec fn needs_stamina(item: ItemKind) -> bool {
    item == ItemKind::StaminaRegenPotion || item == ItemKind::StaminaPoison || item == ItemKind::StaminaRegenPoison
}

/// Whether the entity has what `item` needs to act on it.
pub open spec fn needs_met(item: ItemKind, has_health: bool, has_stamina: bool) -> bool {
    item != ItemKind::Other && (if needs_stamina(item) { has_stamina } else { has_health })
}

/// Using an item applies the item's own effect, exactly when the entity has
/// the statistic the item needs (stamina for the stamina regeneration potion,
/// the stamina poison and the stamina regeneration poison, health for every
/// other item but `Other`); `Other` does nothing; otherwise the missing
/// statistic is reported.
pub proof fn lemma_item_use_explained(item: ItemKind, has_health: bool, has_stamina: bool)
    ensures
        item_use_outcome(item, has_health, has_stamina) matches ItemUseOutcome::Apply(e) ==> item_effect(item)
            == Some(e),
        item_use_outcome(item, has_health, has_stamina) is Apply <==> needs_met(item, has_health, has_stamina),
        item_use_outcome(item, has_health, has_stamina) is NoEffect <==> item == ItemKind::Other,
        item_use_outcome(item, has_health, has_stamina) matches ItemUseOutcome::MissingStat(st) ==> !needs_met(
            item,
            has_health,
            has_stamina,
        ) && (st == Stat::Stamina <==> needs_stamina(item)),
{
}

/// What an item does depends on the item alone: two uses of the same item
/// that both take effect have the same effect, whatever else the entities
/// have.
pub proof fn lemma_effect_depends_on_item_only(item: ItemKind, h1: bool, s1: bool, h2: bool, s2: bool)
    ensures
        item_use_outcome(item, h1, s1) is Apply && item_use_outcome(item, h2, s2) is Apply ==> item_use_outcome(
            item,
            h1,
            s1,
        ) == item_use_outcome(item, h2, s2),
        needs_stamina(item) && s1 == s2 ==> item_use_outcome(item, h1, s1) == item_use_outcome(item, h2, s2),
        !needs_stamina(item) && h1 == h2 ==> item_use_outcome(item, h1, s1) == item_use_outcome(item, h2, s2),
{
}

/// The effect of every item: potions heal the statistic they are named after
/// by `ITEM_STRENGTH`, poisons deal `ITEM_STRENGTH` damage (poison damage for
/// the health poison, stamina damage for the stamina poison), regeneration
/// potions raise and regeneration poisons lower the regeneration of their
/// statistic by `REGEN_MODIFIER_PERCENT` hundredths for
/// `REGEN_MODIFIER_SECONDS`, and any other item has no effect.
pub proof fn lemma_item_effect_table(item: ItemKind)
    ensures
        item == ItemKind::HealthPotion ==> item_effect(item) == Some(ItemEffect::Heal { stat: Stat::Health, amount: 30 }),
        item == ItemKind::StaminaPotion ==> item_effect(item) == Some(
            ItemEffect::Heal { stat: Stat::Stamina, amount: 30 },
        ),
        item == ItemKind::HealthPoison ==> item_effect(item) == Some(
            ItemEffect::Damage { kind: DamageKind::Poison, amount: 30 },
        ),
        item == ItemKind::StaminaPoison ==> item_effect(item) == Some(
            ItemEffect::Damage { kind: DamageKind::Stamina, amount: 30 },
        ),
        item == ItemKind::HealthRegenPotion ==> item_effect(item) == Some(
            ItemEffect::TempModifier { stat: Stat::Health, percent: 5, seconds: 90 },
        ),
        item == ItemKind::StaminaRegenPotion ==> item_effect(item) == Some(
            ItemEffect::TempModifier { stat: Stat::Stamina, percent: 5, seconds: 90 },
        ),
        item == ItemKind::HealthRegenPoison ==> item_effect(item) == Some(
            ItemEffect::TempModifier { stat: Stat::Health, percent: -5i32, seconds: 90 },
        ),
        item == ItemKind::StaminaRegenPoison ==> item_effect(item) == Some(
            ItemEffect::TempModifier { stat: Stat::Stamina, percent: -5i32, seconds: 90 },
        ),
        item == ItemKind::Other ==> item_effect(item) is None,
{
}

/// An item acts on an entity exactly when the entity has the statistic the
/// item needs; an item that needs none has no effect.
pub proof fn lemma_effect_iff_stat_present(item: ItemKind, has_health: bool, has_stamina: bool)
    ensures
        (item_use_outcome(item, has_health, has_stamina) is Apply) <==> (required_stat(item) matches Some(s)
            && (if s == Stat::Health { has_health } else { has_stamina })),
        (item_use_outcome(item, has_health, has_stamina) is NoEffect) <==> item_effect(item) is None,
        required_stat(item) is Some <==> item_effect(item) is Some,
{
}

} // verus!
