//! Effects that act on characters over the course of a single frame: each
//! effect instance aims either at its caster's target or at the caster, is
//! applied once, and is removed afterwards.
use vstd::prelude::*;

use core::marker::PhantomData;

verus! {

/// Marks an entity as an effect instance.
#[derive(Clone, Copy, Debug, PartialEq, Eq, Structural, Default)]
pub struct EffectMarker;

/// A spell being cast, with the schools it belongs to.
#[derive(Clone, Copy, Debug, PartialEq, Eq, Structural)]
pub struct Cast {
    pub cast_id: u64,
    pub fire: bool,
    pub frost: bool,
    pub nature: bool,
    /// Whether the cast can be interrupted at all.
    pub interruptable: bool,
}

/// What effects act on: a character's health, its cast in progress, the
/// instants at which each school was locked out, and the last cast that
/// failed.
#[derive(Clone, Copy, Debug, PartialEq, Eq, Structural)]
pub struct Character {
    pub health: u64,
    pub cast: Option<Cast>,
    pub fire_lock: Option<u64>,
    pub frost_lock: Option<u64>,
    pub nature_lock: Option<u64>,
    pub failed_cast: Option<u64>,
}

/// An effect over the course of a single frame.
pub trait Effect {
    /// The character after the effect, applied at instant `now`.
    spec fn applied(&self, now: u64, c: Character) -> Character;

    fn apply(&self, now: u64, c: &mut Character)
        ensures
            *final(c) == self.applied(now, *old(c)),
    ;
}

/// The effect is aimed at the current target.
#[derive(Clone, Copy, Debug, PartialEq, Eq)]
pub struct AtTarget<T>(pub T);

/// The effect is aimed at its caster.
#[derive(Clone, Copy, Debug, PartialEq, Eq)]
pub struct AtSelf<T>(pub T);

/// The characters after a sequence of effects, each with the index of the
/// character it acts on, applied in order.
pub open spec fn after_effects<E: Effect>(cs: Seq<Character>, effects: Seq<(E, usize)>, now: u64) -> Seq<
    Character,
>
    decreases effects.len(),
{
    if effects.len() == 0 {
        cs
    } else {
        let before = after_effects(cs, effects.drop_last(), now);
        let t = effects.last().1 as int;
        before.update(t, effects.last().0.applied(now, before[t]))
    }
}

pub open spec fn aimed_at_target<E>(effects: Seq<(AtTarget<E>, usize)>) -> Seq<(E, usize)> {
    effects.map_values(|p: (AtTarget<E>, usize)| (p.0.0, p.1))
}

pub open spec fn aimed_at_self<E>(effects: Seq<(AtSelf<E>, usize)>) -> Seq<(E, usize)> {
    effects.map_values(|p: (AtSelf<E>, usize)| (p.0.0, p.1))
}

/// Applies each effect instance, with the index of its target, to that
/// target, in order.
pub fn apply_effect_target<E: Effect>(
    now: u64,
    effects: &Vec<(AtTarget<E>, usize)>,
    characters: &mut Vec<Character>,
)
    requires
        forall|i: int| 0 <= i < effects@.len() ==> (#[trigger] effects@[i]).1 < old(characters)@.len(),
    ensures
        final(characters)@ == after_effects(old(characters)@, aimed_at_target(effects@), now),
{
    let ghost start = characters@;
    let mut i: usize = 0;
    while i < effects.len()
        invariant
            i <= effects@.len(),
            characters@.len() == start.len(),
            forall|k: int| 0 <= k < effects@.len() ==> (#[trigger] effects@[k]).1 < start.len(),
            characters@ == after_effects(start, aimed_at_target(effects@.subrange(0, i as int)), now),
        decreases effects@.len() - i,
    {
        let t = effects[i].1;
        let mut c = characters[t];
        effects[i].0.0.apply(now, &mut c);
        characters.set(t, c);
        assert(aimed_at_target(effects@.subrange(0, i + 1)).drop_last() =~= aimed_at_target(
            effects@.subrange(0, i as int),
        ));
        i += 1;
    }
    assert(effects@.subrange(0, effects@.len() as int) =~= effects@);
}

/// Applies each effect instance, with the index of its caster, to that
/// caster, in order.
pub fn apply_effect_self<E: Effect>(
    now: u64,
    effects: &Vec<(AtSelf<E>, usize)>,
    characters: &mut Vec<Character>,
)
    requires
        forall|i: int| 0 <= i < effects@.len() ==> (#[trigger] effects@[i]).1 < old(characters)@.len(),
    ensures
        final(characters)@ == after_effects(old(characters)@, aimed_at_self(effects@), now),
{
    let ghost start = characters@;
    let mut i: usize = 0;
    while i < effects.len()
        invariant
            i <= effects@.len(),
            characters@.len() == start.len(),
            forall|k: int| 0 <= k < effects@.len() ==> (#[trigger] effects@[k]).1 < start.len(),
            characters@ == after_effects(start, aimed_at_self(effects@.subrange(0, i as int)), now),
        decreases effects@.len() - i,
    {
        let t = effects[i].1;
        let mut c = characters[t];
        effects[i].0.0.apply(now, &mut c);
        characters.set(t, c);
        assert(aimed_at_self(effects@.subrange(0, i + 1)).drop_last() =~= aimed_at_self(
            effects@.subrange(0, i as int),
        ));
        i += 1;
    }
    assert(effects@.subrange(0, effects@.len() as int) =~= effects@);
}

/// Removes every effect instance once the frame's effects are applied.
pub fn cleanup<E>(at_target: &mut Vec<(AtTarget<E>, usize)>, at_self: &mut Vec<(AtSelf<E>, usize)>)
    ensures
        final(at_target)@.len() == 0,
        final(at_self)@.len() == 0,
{
    at_target.clear();
    at_self.clear();
}

/// One effect kind's share of the effect systems, run in `state` under
/// `label`.
pub struct SingleEffectPlugin<T, L, E> {
    pub state: T,
    pub label: L,
    pub _effect: PhantomData<E>,
}

impl<T, L, E> SingleEffectPlugin<T, L, E> {
    pub fn new(state: T, label: L) -> (r: Self)
        ensures
            r.state == state,
            r.label == label,
    {
        SingleEffectPlugin { state, label, _effect: PhantomData }
    }
}

/// All the effect systems, run in `state` under `label`.
pub struct EffectPlugin<T, L> {
    pub state: T,
    pub label: L,
}

/// Damage: takes the amount from health, which stops at zero.
#[derive(Clone, Copy, Debug, PartialEq, Eq, Structural, Default)]
pub struct Damage(pub u64);

impl Effect for Damage {
    open spec fn applied(&self, now: u64, c: Character) -> Character {
        Character {
            health: if c.health >= self.0 {
                (c.health - self.0) as u64
            } else {
                0
            },
            ..c
        }
    }

    fn apply(&self, now: u64, c: &mut Character) {
        c.health = c.health.saturating_sub(self.0);
    }
}

/// Interrupt: stops an interruptable cast in progress. Each school of the
/// cast is locked out from the instant of the frame, and the cast is
/// recorded as failed. A character that is not casting, or whose cast
/// cannot be interrupted, is left as it is.
#[derive(Clone, Copy, Debug, PartialEq, Eq, Structural, Default)]
pub struct Interrupt(pub u64);

impl Effect for Interrupt {
    open spec fn applied(&self, now: u64, c: Character) -> Character {
        match c.cast {
            Some(cast) => {
                if cast.interruptable {
                    Character {
                        cast: None,
                        fire_lock: if cast.fire {
                            Some(now)
                        } else {
                            c.fire_lock
                        },
                        frost_lock: if cast.frost {
                            Some(now)
                        } else {
                            c.frost_lock
                        },
                        nature_lock: if cast.nature {
                            Some(now)
                        } else {
                            c.nature_lock
                        },
                        failed_cast: Some(cast.cast_id),
                        ..c
                    }
                } else {
                    c
                }
            },
            None => c,
        }
    }

    fn apply(&self, now: u64, c: &mut Character) {
        let cast = match c.cast {
            Some(cast) => cast,
            None => {
                return;
            },
        };
        if cast.interruptable {
            if cast.fire {
                c.fire_lock = Some(now);
            }
            if cast.frost {
                c.frost_lock = Some(now);
            }
            if cast.nature {
                c.nature_lock = Some(now);
            }
            c.failed_cast = Some(cast.cast_id);
            c.cast = None;
        }
    }
}

} // verus!
