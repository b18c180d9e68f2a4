//! The rules of Bat Flight: the game and level states, the score sheet and
//! what each event of play does to it, level progression, the boss's health,
//! and the text shown at the end of a run.

pub mod boss;
pub mod score;
pub mod states;
pub mod text;
