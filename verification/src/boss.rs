use vstd::prelude::*;

verus! {

/// The health of the owl boss.
#[derive(Clone, Copy, Debug, PartialEq, Eq, Structural)]
pub struct OwlBossHp {
    pub current: u32,
    pub max: u32,
}

/// Health the boss is spawned with.
pub const BOSS_MAX_HP: u32 = 10;

/// Health a hit on the boss takes away.
pub const BOSS_HIT_DAMAGE: u32 = 2;

impl OwlBossHp {
    /// A boss's health is well formed when it does not exceed its maximum.
    pub open spec fn wf(self) -> bool {
        self.current <= self.max
    }

    /// The health left after `hits` hits from `current`, never below zero.
    pub open spec fn after_hits(current: nat, hits: nat) -> nat {
        if current >= BOSS_HIT_DAMAGE * hits {
            (current - BOSS_HIT_DAMAGE * hits) as nat
        } else {
            0
        }
    }

    /// The boss as it is spawned: ten of ten.
    pub fn new() -> (hp: Self)
        ensures
            hp.current == BOSS_MAX_HP,
            hp.max == BOSS_MAX_HP,
            hp.wf(),
    {
        OwlBossHp { current: BOSS_MAX_HP, max: BOSS_MAX_HP }
    }

    /// A hit on the boss takes two health, stopping at zero.
    pub fn hit(&mut self)
        ensures
            final(self).current == Self::after_hits(old(self).current as nat, 1),
            final(self).max == old(self).max,
            old(self).wf() ==> final(self).wf(),
    {
        self.current = self.current.saturating_sub(BOSS_HIT_DAMAGE);
    }
}

/// Hits never heal the boss and never break its bound: after any number
/// of hits its health is what the hits took away from it, at most its
/// maximum, and one more hit lowers it by two or to zero.
pub proof fn lemma_hits_compose(current: nat, n: nat)
    ensures
        OwlBossHp::after_hits(OwlBossHp::after_hits(current, n), 1) == OwlBossHp::after_hits(
            current,
            n + 1,
        ),
        OwlBossHp::after_hits(current, n) <= current,
        OwlBossHp::after_hits(current, n + 1) <= OwlBossHp::after_hits(current, n),
{
}

/// A well-formed boss stays well formed when hit.
pub proof fn lemma_hit_keeps_bound(hp: OwlBossHp)
    requires
        hp.wf(),
    ensures
        OwlBossHp::after_hits(hp.current as nat, 1) <= hp.max,
{
}

/// Hits beat any boss: `ceil(current / 2)` hits bring its health to zero.
pub proof fn lemma_enough_hits_defeat(current: nat)
    ensures
        OwlBossHp::after_hits(current, (current + 1) / 2) == 0,
{
}

/// One hit takes exactly two health, or all that is left when less than
/// two remain; a new boss has ten of ten.
pub proof fn lemma_one_hit(current: nat)
    ensures
        current >= 2 ==> OwlBossHp::after_hits(current, 1) == current - 2,
        current < 2 ==> OwlBossHp::after_hits(current, 1) == 0,
        BOSS_MAX_HP == 10,
{
}

} // verus!
