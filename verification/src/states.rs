use vstd::prelude::*;

verus! {

/// Whether the player is at the start menu, flying, or has just crashed.
#[derive(Clone, Copy, Debug, PartialEq, Eq, Structural, Hash)]
pub enum GameState {
    Menu,
    Playing,
    GameOver,
}

impl Default for GameState {
    fn default() -> (s: Self)
        ensures
            s == GameState::Menu,
    {
        GameState::Menu
    }
}

/// The stage of a run. Each level brings its own obstacles; `LevelEnd`
/// is the closing screen.
#[derive(Clone, Copy, Debug, PartialEq, Eq, Structural, Hash)]
pub enum LevelState {
    Level1,
    Level2,
    Level3,
    Level4,
    Level5,
    LevelEnd,
}

impl Default for LevelState {
    fn default() -> (s: Self)
        ensures
            s == LevelState::Level1,
    {
        LevelState::Level1
    }
}

/// The position of a level in the run: 1 to 5 for the levels, 6 for the end.
pub open spec fn level_number(level: LevelState) -> nat {
    match level {
        LevelState::Level1 => 1,
        LevelState::Level2 => 2,
        LevelState::Level3 => 3,
        LevelState::Level4 => 4,
        LevelState::Level5 => 5,
        LevelState::LevelEnd => 6,
    }
}

/// The level that follows `level`; the end screen has none.
pub open spec fn next_level(level: LevelState) -> Option<LevelState> {
    match level {
        LevelState::Level1 => Some(LevelState::Level2),
        LevelState::Level2 => Some(LevelState::Level3),
        LevelState::Level3 => Some(LevelState::Level4),
        LevelState::Level4 => Some(LevelState::Level5),
        LevelState::Level5 => Some(LevelState::LevelEnd),
        LevelState::LevelEnd => None,
    }
}

/// The coins a player must hold to leave a level: ten per level number.
pub open spec fn coin_goal(level: LevelState) -> nat {
    10 * level_number(level)
}

/// Whether a press happened this frame: space, the left mouse button, or a
/// touch that has just begun.
pub fn is_press(space: bool, left_click: bool, tap: bool) -> (pressed: bool)
    ensures
        pressed == (space || left_click || tap),
{
    space || left_click || tap
}

/// What a press does to the game state: it starts the game from the menu
/// and restarts it after a crash. While playing, a press is a flap and
/// leaves the state as it is.
pub fn press_transition(state: GameState, pressed: bool) -> (next: GameState)
    ensures
        pressed && state != GameState::Playing ==> next == GameState::Playing,
        !pressed || state == GameState::Playing ==> next == state,
{
    if pressed {
        match state {
            GameState::Menu => GameState::Playing,
            GameState::GameOver => GameState::Playing,
            GameState::Playing => GameState::Playing,
        }
    } else {
        state
    }
}

/// The level a run moves to, if any, from `level` with `coin` coins held:
/// a level is left for the next one once the player holds at least its coin
/// goal; the end screen leads nowhere.
pub open spec fn progress(level: LevelState, coin: nat) -> Option<LevelState> {
    if level != LevelState::LevelEnd && coin >= coin_goal(level) {
        next_level(level)
    } else {
        None
    }
}

/// Whether hearts float by in a level.
pub open spec fn has_hearts(level: LevelState) -> bool {
    level == LevelState::Level2 || level == LevelState::Level3
}

/// Whether pillars stand in a level.
pub open spec fn has_pillars(level: LevelState) -> bool {
    level == LevelState::Level2 || level == LevelState::Level3
}

/// Whether gears fly at the bat in a level.
pub open spec fn has_gears(level: LevelState) -> bool {
    level == LevelState::Level3
}

/// Whether owl minions attack in a level.
pub open spec fn has_owls(level: LevelState) -> bool {
    level == LevelState::Level4 || level == LevelState::Level5
}

/// The level to move to, if any, given the current level and the coins
/// held: 10 coins leave level 1, 20 level 2, and so on up to 50 for level 5.
pub fn check_level_progress(level: LevelState, coin: u32) -> (res: Option<LevelState>)
    ensures
        res == progress(level, coin as nat),
{
    match level {
        LevelState::Level1 => if coin >= 10 { Some(LevelState::Level2) } else { None },
        LevelState::Level2 => if coin >= 20 { Some(LevelState::Level3) } else { None },
        LevelState::Level3 => if coin >= 30 { Some(LevelState::Level4) } else { None },
        LevelState::Level4 => if coin >= 40 { Some(LevelState::Level5) } else { None },
        LevelState::Level5 => if coin >= 50 { Some(LevelState::LevelEnd) } else { None },
        LevelState::LevelEnd => None,
    }
}

/// The levels in which hearts float by: levels 2 and 3.
pub fn heart_levels(level: LevelState) -> (res: bool)
    ensures
        res == has_hearts(level),
{
    match level {
        LevelState::Level2 | LevelState::Level3 => true,
        _ => false,
    }
}

/// The levels with pillars to fly between: levels 2 and 3.
pub fn pillar_levels(level: LevelState) -> (res: bool)
    ensures
        res == has_pillars(level),
{
    match level {
        LevelState::Level2 | LevelState::Level3 => true,
        _ => false,
    }
}

/// The level in which gears fly at the bat: level 3.
pub fn gear_levels(level: LevelState) -> (res: bool)
    ensures
        res == has_gears(level),
{
    match level {
        LevelState::Level3 => true,
        _ => false,
    }
}

/// The levels in which owl minions attack: levels 4 and 5.
pub fn owl_levels(level: LevelState) -> (res: bool)
    ensures
        res == has_owls(level),
{
    match level {
        LevelState::Level4 | LevelState::Level5 => true,
        _ => false,
    }
}

/// Progress only ever moves a run one level forward, and only once the
/// coin goal of the current level is met.
pub proof fn lemma_progress_moves_one_level_forward(level: LevelState, coin: nat)
    requires
        progress(level, coin) is Some,
    ensures
        level_number(progress(level, coin)->0) == level_number(level) + 1,
        coin >= coin_goal(level),
{
}

/// The end screen is final: no amount of coins leads away from it.
pub proof fn lemma_level_end_is_final(coin: nat)
    ensures
        progress(LevelState::LevelEnd, coin) is None,
{
}

/// Holding more coins never stops a level from being left: where `coin`
/// coins move a run on, any larger amount moves it to the same level.
pub proof fn lemma_progress_monotone_in_coins(level: LevelState, coin: nat, more: nat)
    requires
        progress(level, coin) is Some,
        more >= coin,
    ensures
        progress(level, more) == progress(level, coin),
{
}

/// Each coin goal is ten coins above the one of the level before.
pub proof fn lemma_coin_goals_increase(level: LevelState)
    requires
        next_level(level) is Some,
    ensures
        coin_goal(next_level(level)->0) == coin_goal(level) + 10,
{
}

/// A run that holds 50 coins or more passes every level: five steps of
/// progress from level 1 reach the end screen.
pub proof fn lemma_enough_coins_reach_the_end(coin: nat)
    requires
        coin >= 50,
    ensures
        progress(LevelState::Level1, coin) == Some(LevelState::Level2),
        progress(LevelState::Level2, coin) == Some(LevelState::Level3),
        progress(LevelState::Level3, coin) == Some(LevelState::Level4),
        progress(LevelState::Level4, coin) == Some(LevelState::Level5),
        progress(LevelState::Level5, coin) == Some(LevelState::LevelEnd),
{
}

/// No level has both hearts and owls; pillars stand exactly where hearts
/// float; gears come only in a level that also has pillars; the first level
/// and the end screen have none of these.
pub proof fn lemma_level_hazards(level: LevelState)
    ensures
        !(has_hearts(level) && has_owls(level)),
        has_pillars(level) == has_hearts(level),
        has_gears(level) ==> has_pillars(level),
        level == LevelState::Level1 || level == LevelState::LevelEnd ==> !has_hearts(level)
            && !has_pillars(level) && !has_gears(level) && !has_owls(level),
{
}

/// The whole table of progress: ten coins leave level 1 for level 2,
/// twenty leave level 2 for level 3, thirty level 3 for level 4, forty
/// level 4 for level 5, fifty level 5 for the end screen; fewer coins leave
/// the run where it is, and nothing leaves the end screen.
pub proof fn lemma_progress_table(coin: nat)
    ensures
        progress(LevelState::Level1, coin) == (if coin >= 10 { Some(LevelState::Level2) } else { None }),
        progress(LevelState::Level2, coin) == (if coin >= 20 { Some(LevelState::Level3) } else { None }),
        progress(LevelState::Level3, coin) == (if coin >= 30 { Some(LevelState::Level4) } else { None }),
        progress(LevelState::Level4, coin) == (if coin >= 40 { Some(LevelState::Level5) } else { None }),
        progress(LevelState::Level5, coin) == (if coin >= 50 { Some(LevelState::LevelEnd) } else { None }),
        progress(LevelState::LevelEnd, coin) == None::<LevelState>,
{
}

/// Which hazards each level has: hearts and pillars in levels 2 and 3,
/// gears in level 3 only, owls in levels 4 and 5.
pub proof fn lemma_hazard_table(level: LevelState)
    ensures
        has_hearts(level) <==> (level == LevelState::Level2 || level == LevelState::Level3),
        has_pillars(level) <==> (level == LevelState::Level2 || level == LevelState::Level3),
        has_gears(level) <==> level == LevelState::Level3,
        has_owls(level) <==> (level == LevelState::Level4 || level == LevelState::Level5),
{
}

/// The levels are numbered one to five in order, with the end screen sixth.
pub proof fn lemma_level_numbers()
    ensures
        level_number(LevelState::Level1) == 1,
        level_number(LevelState::Level2) == 2,
        level_number(LevelState::Level3) == 3,
        level_number(LevelState::Level4) == 4,
        level_number(LevelState::Level5) == 5,
        level_number(LevelState::LevelEnd) == 6,
{
}

} // verus!
