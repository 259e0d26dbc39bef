//! The gens standing: what a ranking report means for the player's gens,
//! and the labels under which the gens shell shows it.

use vstd::prelude::*;

use crate::packets::GensRankingInfo;
use crate::session::SessionPhase;

verus! {

/// The gens family a player belongs to.
#[derive(Debug, Clone, Copy, PartialEq, Eq, Structural)]
pub enum GensType {
    NoGens,
    Duprian,
    Vanert,
}

/// What the gens manager is doing.
#[derive(Debug, Clone, Copy, PartialEq, Eq, Structural)]
pub enum GensMode {
    Idle,
    Joining,
    Leaving,
    Rewarding,
    Ranking,
    Error,
}

/// The state of the gens ranking screen.
#[derive(Debug, Clone, Copy, PartialEq, Eq, Structural)]
pub enum GensRankingScreenState {
    Ready,
    Join,
    Reward,
    Error,
}

/// The family that an influence byte names: 1 Duprian, 2 Vanert.
pub open spec fn gens_type_of(influence: u8) -> GensType {
    if influence == 1 {
        GensType::Duprian
    } else if influence == 2 {
        GensType::Vanert
    } else {
        GensType::NoGens
    }
}

pub open spec fn team_name_of(influence: u8) -> Seq<char> {
    if influence == 1 {
        "Duprian"@
    } else if influence == 2 {
        "Vanert"@
    } else {
        ""@
    }
}

pub fn gens_type_from_influence(influence: u8) -> (r: GensType)
    ensures
        r == gens_type_of(influence),
{
    match influence {
        1 => GensType::Duprian,
        2 => GensType::Vanert,
        _ => GensType::NoGens,
    }
}

pub fn gens_team_name_from_influence(influence: u8) -> (r: &'static str)
    ensures
        r@ == team_name_of(influence),
{
    match influence {
        1 => "Duprian",
        2 => "Vanert",
        _ => "",
    }
}

/// A positive rank that fits in 16 bits; none otherwise.
pub fn positive_i32_to_option_u16(value: i32) -> (r: Option<u16>)
    ensures
        r == (if 0 < value && value <= u16::MAX {
            Some(value as u16)
        } else {
            None
        }),
{
    if value <= 0 {
        return None;
    }
    if value <= 0xFFFF {
        Some(value as u16)
    } else {
        None
    }
}

/// A positive number of points; zero for anything else.
pub fn positive_i32_to_u32(value: i32) -> (r: u32)
    ensures
        r == (if value <= 0 {
            0
        } else {
            value as int
        }),
{
    if value <= 0 {
        0
    } else {
        value as u32
    }
}

/// A text, or none when it is empty.
pub fn maybe_text(value: &str) -> (r: Option<&str>)
    ensures
        value@.len() == 0 ==> r is None,
        value@.len() > 0 ==> r == Some(value),
{
    if value.unicode_len() == 0 {
        None
    } else {
        Some(value)
    }
}

pub fn gens_mode_label(mode: GensMode) -> (r: &'static str)
    ensures
        r@ == (match mode {
            GensMode::Idle => "idle"@,
            GensMode::Joining => "joining"@,
            GensMode::Leaving => "leaving"@,
            GensMode::Rewarding => "rewarding"@,
            GensMode::Ranking => "ranking"@,
            GensMode::Error => "error"@,
        }),
{
    match mode {
        GensMode::Idle => "idle",
        GensMode::Joining => "joining",
        GensMode::Leaving => "leaving",
        GensMode::Rewarding => "rewarding",
        GensMode::Ranking => "ranking",
        GensMode::Error => "error",
    }
}

pub fn gens_type_label(gens_type: GensType) -> (r: &'static str)
    ensures
        r@ == (match gens_type {
            GensType::NoGens => "none"@,
            GensType::Duprian => "duprian"@,
            GensType::Vanert => "vanert"@,
        }),
{
    match gens_type {
        GensType::NoGens => "none",
        GensType::Duprian => "duprian",
        GensType::Vanert => "vanert",
    }
}

/// The ranking screen that a gens mode shows.
pub fn gens_shell_state_for_mode(mode: GensMode) -> (r: GensRankingScreenState)
    ensures
        r == (match mode {
            GensMode::Joining => GensRankingScreenState::Join,
            GensMode::Rewarding => GensRankingScreenState::Reward,
            GensMode::Error => GensRankingScreenState::Error,
            _ => GensRankingScreenState::Ready,
        }),
{
    match mode {
        GensMode::Idle | GensMode::Leaving | GensMode::Ranking => GensRankingScreenState::Ready,
        GensMode::Joining => GensRankingScreenState::Join,
        GensMode::Rewarding => GensRankingScreenState::Reward,
        GensMode::Error => GensRankingScreenState::Error,
    }
}

/// What a ranking report sets on the gens manager: the family and its
/// name, the rank, the points and the next points, and the class number
/// from which the manager takes the title.
#[derive(Debug, Clone, Copy, PartialEq, Eq)]
pub struct GensStanding {
    pub gens_type: GensType,
    pub team_name: &'static str,
    pub ranking: Option<u16>,
    pub contribution: u32,
    pub next_contribution: u32,
    pub gens_class: i32,
}

pub open spec fn points(value: i32) -> int {
    if value <= 0 {
        0
    } else {
        value as int
    }
}

/// The standing that a ranking report gives.
pub fn apply_gens_ranking_snapshot(snapshot: GensRankingInfo) -> (r: GensStanding)
    ensures
        r.gens_type == gens_type_of(snapshot.influence),
        r.team_name@ == team_name_of(snapshot.influence),
        r.ranking == (if 0 < snapshot.ranking && snapshot.ranking <= u16::MAX {
            Some(snapshot.ranking as u16)
        } else {
            None
        }),
        r.contribution == points(snapshot.contribution_point),
        r.next_contribution == points(snapshot.next_contribution_point),
        r.gens_class == snapshot.gens_class,
{
    GensStanding {
        gens_type: gens_type_from_influence(snapshot.influence),
        team_name: gens_team_name_from_influence(snapshot.influence),
        ranking: positive_i32_to_option_u16(snapshot.ranking),
        contribution: positive_i32_to_u32(snapshot.contribution_point),
        next_contribution: positive_i32_to_u32(snapshot.next_contribution_point),
        gens_class: snapshot.gens_class,
    }
}

/// What the gens shell does about the ranking request in a frame: whether
/// it asks now, and whether it forgets that it asked (the session is no
/// longer logged in). It asks once per logged-in activation.
pub fn gens_ranking_request_step(phase: SessionPhase, requested: bool) -> (r: (bool, bool))
    ensures
        r.0 == (phase == SessionPhase::LoggedIn && !requested),
        r.1 == (phase != SessionPhase::LoggedIn),
{
    if phase != SessionPhase::LoggedIn {
        return (false, true);
    }
    (!requested, false)
}

} // verus!
