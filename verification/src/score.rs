use vstd::prelude::*;
use crate::states::{GameState, LevelState};

verus! {

/// The tally of a run: coins held, hearts left, and how often the bat hit
/// pillars, gears and owls and fell out of the sky.
#[derive(Clone, Copy, Debug, PartialEq, Eq, Structural)]
pub struct Score {
    pub coin: u32,
    pub heart: u32,
    pub pillar: u32,
    pub gear: u32,
    pub owl: u32,
    pub game_over: u32,
}

/// Hearts a run starts with, and the hearts given back when the last one
/// is lost.
pub const START_HEARTS: u32 = 3;

/// No new heart floats in while the player holds this many or more.
pub const MAX_HEARTS_FOR_SPAWN: u32 = 6;

/// Coins a projectile costs.
pub const PROJECTILE_COST: u32 = 2;

/// Coins added by the debug key.
pub const DEBUG_COINS: u32 = 10;

/// Coins a collected coin is worth: five when caught low on the screen,
/// one otherwise.
pub open spec fn coin_reward(low: bool) -> nat {
    if low {
        5
    } else {
        1
    }
}

/// The tally of a fresh run: no coins, three hearts, nothing hit.
pub open spec fn initial_score() -> Score {
    Score { coin: 0, heart: START_HEARTS, pillar: 0, gear: 0, owl: 0, game_over: 0 }
}

/// The outcome of being hit while holding `s`: the last heart lost ends
/// the run and gives back three hearts; any other heart lost also costs a
/// coin.
pub open spec fn after_hit(s: Score) -> Score {
    if s.heart <= 1 {
        Score { heart: START_HEARTS, ..s }
    } else {
        Score { coin: (s.coin - 1) as u32, heart: (s.heart - 1) as u32, ..s }
    }
}

/// Whether a hit while holding `s` ends the run.
pub open spec fn hit_ends_run(s: Score) -> bool {
    s.heart <= 1
}

/// Whether a hit while holding `s` can be taken without a coin count
/// going below zero.
pub open spec fn can_take_hit(s: Score) -> bool {
    s.heart <= 1 || s.coin >= 1
}

/// The tally after an owl strikes: the strike is counted, then it is a hit.
pub open spec fn after_owl_hit(s: Score) -> Score {
    after_hit(Score { owl: (s.owl + 1) as u32, ..s })
}

/// The tally after a coin is collected.
pub open spec fn after_coin(s: Score, low: bool) -> Score {
    Score { coin: (s.coin + coin_reward(low)) as u32, ..s }
}

/// The tally after the player tries to shoot: a projectile costs two coins
/// and is only fired when they are there.
pub open spec fn after_shot(s: Score) -> Score {
    if s.coin >= PROJECTILE_COST {
        Score { coin: (s.coin - PROJECTILE_COST) as u32, ..s }
    } else {
        s
    }
}

/// The tally after a heart is collected.
pub open spec fn after_heart(s: Score) -> Score {
    Score { heart: (s.heart + 1) as u32, ..s }
}

/// The tally after the bat falls out of the sky.
pub open spec fn after_fall(s: Score) -> Score {
    Score { game_over: (s.game_over + 1) as u32, ..s }
}

/// The tally after the debug key is pressed.
pub open spec fn after_debug_coins(s: Score) -> Score {
    Score { coin: (s.coin + DEBUG_COINS) as u32, ..s }
}

/// Coins a collected coin is worth: five when caught low on the screen,
/// one otherwise.
pub fn coin_value(low: bool) -> (value: u32)
    ensures
        value == coin_reward(low),
{
    if low {
        5
    } else {
        1
    }
}

impl Default for Score {
    fn default() -> (s: Self)
        ensures
            s == initial_score(),
    {
        Score { coin: 0, heart: START_HEARTS, pillar: 0, gear: 0, owl: 0, game_over: 0 }
    }
}

impl Score {
    /// Whether a hit can be taken now without the coin count going below
    /// zero: always when it takes the last heart, else when a coin is held.
    pub fn can_take_hit(&self) -> (ok: bool)
        ensures
            ok == can_take_hit(*self),
    {
        self.heart <= 1 || self.coin >= 1
    }

    /// Takes one hit, from a gear or an owl. Returns whether the run is
    /// over: that is when the hit takes the last heart, which refills the
    /// hearts to three. Otherwise a heart and a coin are lost.
    pub fn take_hit(&mut self) -> (game_over: bool)
        requires
            can_take_hit(*old(self)),
        ensures
            *final(self) == after_hit(*old(self)),
            game_over == hit_ends_run(*old(self)),
    {
        if self.heart <= 1 {
            self.heart = START_HEARTS;
            true
        } else {
            self.coin = self.coin - 1;
            self.heart = self.heart - 1;
            false
        }
    }

    /// The bat flew into a gear. Returns whether the run is over.
    pub fn gear_hit(&mut self) -> (game_over: bool)
        requires
            can_take_hit(*old(self)),
        ensures
            *final(self) == after_hit(*old(self)),
            game_over == hit_ends_run(*old(self)),
    {
        self.take_hit()
    }

    /// An owl minion struck the bat: the strike is counted, then taken as a
    /// hit. Returns whether the run is over.
    pub fn owl_hit(&mut self) -> (game_over: bool)
        requires
            old(self).owl < u32::MAX,
            can_take_hit(*old(self)),
        ensures
            *final(self) == after_owl_hit(*old(self)),
            game_over == hit_ends_run(*old(self)),
    {
        self.owl = self.owl + 1;
        self.take_hit()
    }

    /// The bat caught a coin; `low` tells whether the coin was below the
    /// line one unit under the screen's middle, where coins are worth five.
    pub fn collect_coin(&mut self, low: bool)
        requires
            old(self).coin + coin_reward(low) <= u32::MAX,
        ensures
            *final(self) == after_coin(*old(self), low),
    {
        self.coin = self.coin + coin_value(low);
    }

    /// The bat caught a heart.
    pub fn collect_heart(&mut self)
        requires
            old(self).heart < u32::MAX,
        ensures
            *final(self) == after_heart(*old(self)),
    {
        self.heart = self.heart + 1;
    }

    /// The bat fell below the screen; the fall is counted.
    pub fn fall(&mut self)
        requires
            old(self).game_over < u32::MAX,
        ensures
            *final(self) == after_fall(*old(self)),
    {
        self.game_over = self.game_over + 1;
    }

    /// The player asked for a projectile. Returns whether one may be
    /// fired: only with at least two coins, which it then costs.
    pub fn shoot(&mut self) -> (fired: bool)
        ensures
            *final(self) == after_shot(*old(self)),
            fired == (old(self).coin >= PROJECTILE_COST),
            fired == (old(self).coin >= 2),
    {
        if self.coin == 0 {
            false
        } else if self.coin >= PROJECTILE_COST {
            self.coin = self.coin - PROJECTILE_COST;
            true
        } else {
            false
        }
    }

    /// The debug key grants ten coins.
    pub fn debug_coins(&mut self)
        requires
            old(self).coin + DEBUG_COINS <= u32::MAX,
        ensures
            *final(self) == after_debug_coins(*old(self)),
    {
        self.coin = self.coin + DEBUG_COINS;
    }

    /// Whether a new heart may float in: only while fewer than six are held.
    pub fn heart_spawn_allowed(&self) -> (allowed: bool)
        ensures
            allowed == (self.heart < MAX_HEARTS_FOR_SPAWN),
            allowed == (self.heart < 6),
    {
        self.heart < MAX_HEARTS_FOR_SPAWN
    }
}

/// What the restart button does at the end screen: a fresh tally, back to
/// level 1, and straight into play.
pub fn restart_game() -> (res: (Score, LevelState, GameState))
    ensures
        res.0 == initial_score(),
        res.1 == LevelState::Level1,
        res.2 == GameState::Playing,
{
    (Score::default(), LevelState::Level1, GameState::Playing)
}

/// A run is never left without hearts: from a tally with at least one
/// heart, every event of play leads to a tally with at least one heart.
pub proof fn lemma_hearts_never_run_out(s: Score, low: bool)
    requires
        s.heart >= 1,
    ensures
        initial_score().heart >= 1,
        can_take_hit(s) ==> after_hit(s).heart >= 1,
        can_take_hit(s) && s.owl < u32::MAX ==> after_owl_hit(s).heart >= 1,
        s.coin + coin_reward(low) <= u32::MAX ==> after_coin(s, low).heart >= 1,
        after_shot(s).heart >= 1,
        s.heart < u32::MAX ==> after_heart(s).heart >= 1,
        after_fall(s).heart >= 1,
        after_debug_coins(s).heart >= 1,
{
}

/// A hit ends the run exactly when it takes the last heart, and then the
/// hearts are back at three with the coins untouched; any other hit costs
/// exactly one heart and one coin. Nothing else in the tally changes.
pub proof fn lemma_hit_outcome(s: Score)
    requires
        can_take_hit(s),
    ensures
        hit_ends_run(s) ==> after_hit(s).heart == 3 && after_hit(s).coin == s.coin,
        !hit_ends_run(s) ==> after_hit(s).heart == s.heart - 1 && after_hit(s).coin == s.coin
            - 1,
        after_hit(s).pillar == s.pillar && after_hit(s).gear == s.gear && after_hit(s).owl
            == s.owl && after_hit(s).game_over == s.game_over,
{
}

/// Shooting never takes the coin count below zero and never costs more
/// than two coins; a shot with fewer than two coins changes nothing.
pub proof fn lemma_shot_cost(s: Score)
    ensures
        after_shot(s).coin <= s.coin,
        s.coin - after_shot(s).coin == (if s.coin >= 2 { 2int } else { 0int }),
        s.coin < 2 ==> after_shot(s) == s,
{
}

/// A coin caught low pays for a shot: catching it and then shooting
/// leaves three coins more than before.
pub proof fn lemma_low_coin_pays_for_a_shot(s: Score)
    requires
        s.coin + 5 <= u32::MAX,
    ensures
        after_shot(after_coin(s, true)).coin == s.coin + 3,
{
}

/// Collecting coins only ever adds to them, and never touches hearts.
pub proof fn lemma_coins_only_grow_by_collecting(s: Score, low: bool)
    requires
        s.coin + coin_reward(low) <= u32::MAX,
    ensures
        after_coin(s, low).coin > s.coin,
        after_coin(s, low).heart == s.heart,
{
}

/// A fresh run holds no coins and three hearts, and has hit nothing and
/// never fallen.
pub proof fn lemma_fresh_run(s: Score)
    requires
        s == initial_score(),
    ensures
        s.coin == 0,
        s.heart == 3,
        s.pillar == 0,
        s.gear == 0,
        s.owl == 0,
        s.game_over == 0,
{
}

/// A hit can be taken exactly when the coins it costs are held: the last
/// heart costs no coin, any other heart costs one; and it ends the run
/// exactly when it takes the last heart.
pub proof fn lemma_when_a_hit_can_be_taken(s: Score)
    ensures
        can_take_hit(s) <==> s.coin >= (if s.heart <= 1 { 0int } else { 1int }),
        s.coin >= 1 ==> can_take_hit(s),
        s.heart <= 1 ==> can_take_hit(s),
        hit_ends_run(s) <==> s.heart <= 1,
{
}

/// What a hit leaves, field by field: on the last heart the hearts become
/// three and the coins stay; otherwise one heart and one coin are gone.
/// The counts of pillars, gears, owls and falls are untouched.
pub proof fn lemma_hit_fields(s: Score)
    requires
        can_take_hit(s),
    ensures
        s.heart <= 1 ==> after_hit(s).heart == 3 && after_hit(s).coin == s.coin,
        s.heart > 1 ==> after_hit(s).heart == s.heart - 1 && after_hit(s).coin == s.coin - 1,
        after_hit(s).pillar == s.pillar,
        after_hit(s).gear == s.gear,
        after_hit(s).owl == s.owl,
        after_hit(s).game_over == s.game_over,
{
}

/// An owl strike is a gear hit that is also counted: it leaves exactly
/// what a gear hit leaves, with one more owl. Field by field: one more owl,
/// and either three hearts with the coins kept (last heart) or one heart and
/// one coin fewer; pillars, gears and falls untouched.
pub proof fn lemma_owl_strike_is_a_counted_hit(s: Score)
    requires
        can_take_hit(s),
        s.owl < u32::MAX,
    ensures
        after_owl_hit(s) == (Score { owl: (s.owl + 1) as u32, ..after_hit(s) }),
        after_owl_hit(s).owl == s.owl + 1,
        s.heart <= 1 ==> after_owl_hit(s).heart == 3 && after_owl_hit(s).coin == s.coin,
        s.heart > 1 ==> after_owl_hit(s).heart == s.heart - 1 && after_owl_hit(s).coin == s.coin
            - 1,
        after_owl_hit(s).pillar == s.pillar,
        after_owl_hit(s).gear == s.gear,
        after_owl_hit(s).game_over == s.game_over,
{
}

/// A collected coin adds exactly five coins when caught low and one
/// otherwise, and changes nothing else.
pub proof fn lemma_coin_fields(s: Score, low: bool)
    requires
        s.coin + 5 <= u32::MAX,
    ensures
        after_coin(s, true).coin == s.coin + 5,
        after_coin(s, false).coin == s.coin + 1,
        coin_reward(true) == 5,
        coin_reward(false) == 1,
        after_coin(s, low).heart == s.heart,
        after_coin(s, low).pillar == s.pillar,
        after_coin(s, low).gear == s.gear,
        after_coin(s, low).owl == s.owl,
        after_coin(s, low).game_over == s.game_over,
{
}

/// A collected heart is exactly one more heart, and nothing else changes.
pub proof fn lemma_heart_fields(s: Score)
    requires
        s.heart < u32::MAX,
    ensures
        after_heart(s).heart == s.heart + 1,
        after_heart(s).coin == s.coin,
        after_heart(s).pillar == s.pillar,
        after_heart(s).gear == s.gear,
        after_heart(s).owl == s.owl,
        after_heart(s).game_over == s.game_over,
{
}

/// Every fall is counted, once, and nothing else changes.
pub proof fn lemma_fall_fields(s: Score)
    requires
        s.game_over < u32::MAX,
    ensures
        after_fall(s).game_over == s.game_over + 1,
        after_fall(s).coin == s.coin,
        after_fall(s).heart == s.heart,
        after_fall(s).pillar == s.pillar,
        after_fall(s).gear == s.gear,
        after_fall(s).owl == s.owl,
{
}

/// A shot takes two coins when two are held and changes nothing else; with
/// fewer it changes nothing at all.
pub proof fn lemma_shot_fields(s: Score)
    ensures
        s.coin >= 2 ==> after_shot(s).coin == s.coin - 2,
        s.coin < 2 ==> after_shot(s) == s,
        after_shot(s).heart == s.heart,
        after_shot(s).pillar == s.pillar,
        after_shot(s).gear == s.gear,
        after_shot(s).owl == s.owl,
        after_shot(s).game_over == s.game_over,
{
}

/// The debug key adds exactly ten coins and changes nothing else.
pub proof fn lemma_debug_coin_fields(s: Score)
    requires
        s.coin + 10 <= u32::MAX,
    ensures
        after_debug_coins(s).coin == s.coin + 10,
        after_debug_coins(s).heart == s.heart,
        after_debug_coins(s).pillar == s.pillar,
        after_debug_coins(s).gear == s.gear,
        after_debug_coins(s).owl == s.owl,
        after_debug_coins(s).game_over == s.game_over,
{
}

} // verus!
