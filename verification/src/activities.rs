//! The duel and event screens: which screen the player's standing in a
//! duel or an event shows, and the names under which events are reported.

use vstd::prelude::*;

use crate::session::SessionPhase;

verus! {

/// The screens of the duel shell.
#[derive(Debug, Clone, Copy, PartialEq, Eq, Structural)]
pub enum DuelScreenState {
    Challenge,
    ChannelList,
    Watching,
    Error,
}

pub open spec fn duel_screen_name(state: DuelScreenState) -> Seq<char> {
    match state {
        DuelScreenState::Challenge => "challenge"@,
        DuelScreenState::ChannelList => "channel-list"@,
        DuelScreenState::Watching => "watching"@,
        DuelScreenState::Error => "error"@,
    }
}

impl DuelScreenState {
    pub fn as_str(self) -> (r: &'static str)
        ensures
            r@ == duel_screen_name(self),
    {
        match self {
            DuelScreenState::Challenge => "challenge",
            DuelScreenState::ChannelList => "channel-list",
            DuelScreenState::Watching => "watching",
            DuelScreenState::Error => "error",
        }
    }
}

/// The duel screen: the error screen before login, the watch screen while
/// anyone is watched, the channel list once a channel is chosen (a channel
/// number of zero or more), the challenge screen otherwise.
pub fn duel_screen_state_for_phase_and_manager(
    phase: SessionPhase,
    watching_anyone: bool,
    current_channel: i32,
) -> (r: DuelScreenState)
    ensures
        r == (if phase == SessionPhase::ReadyForLogin {
            DuelScreenState::Error
        } else if watching_anyone {
            DuelScreenState::Watching
        } else if current_channel >= 0 {
            DuelScreenState::ChannelList
        } else {
            DuelScreenState::Challenge
        }),
{
    if phase == SessionPhase::ReadyForLogin {
        return DuelScreenState::Error;
    }
    if watching_anyone {
        DuelScreenState::Watching
    } else if current_channel >= 0 {
        DuelScreenState::ChannelList
    } else {
        DuelScreenState::Challenge
    }
}

/// The kinds of timed events.
#[derive(Debug, Clone, Copy, PartialEq, Eq, Structural)]
pub enum EventKind {
    NoEvent,
    BloodCastle,
    ChaosCastle,
    Doppelganger,
    CursedTemple,
    DevilSquare,
    LuckyCoin,
    EmpireGuardian,
    IllusionTemple,
    Kanturu,
    CryWolf,
    BattleSoccer,
}

/// Where the player stands in an event.
#[derive(Debug, Clone, Copy, PartialEq, Eq, Structural)]
pub enum EventMode {
    Idle,
    Entry,
    Countdown,
    Reward,
    Result,
    Error,
}

/// The screens of the events shell.
#[derive(Debug, Clone, Copy, PartialEq, Eq, Structural)]
pub enum EventScreenState {
    Entry,
    Countdown,
    Reward,
    Result,
    Error,
}

pub open spec fn event_kind_name(kind: EventKind) -> Seq<char> {
    match kind {
        EventKind::NoEvent => "none"@,
        EventKind::BloodCastle => "blood-castle"@,
        EventKind::ChaosCastle => "chaos-castle"@,
        EventKind::Doppelganger => "doppelganger"@,
        EventKind::CursedTemple => "cursed-temple"@,
        EventKind::DevilSquare => "devil-square"@,
        EventKind::LuckyCoin => "lucky-coin"@,
        EventKind::EmpireGuardian => "empire-guardian"@,
        EventKind::IllusionTemple => "illusion-temple"@,
        EventKind::Kanturu => "kanturu"@,
        EventKind::CryWolf => "crywolf"@,
        EventKind::BattleSoccer => "battle-soccer"@,
    }
}

pub fn event_kind_label(kind: EventKind) -> (r: &'static str)
    ensures
        r@ == event_kind_name(kind),
{
    match kind {
        EventKind::NoEvent => "none",
        EventKind::BloodCastle => "blood-castle",
        EventKind::ChaosCastle => "chaos-castle",
        EventKind::Doppelganger => "doppelganger",
        EventKind::CursedTemple => "cursed-temple",
        EventKind::DevilSquare => "devil-square",
        EventKind::LuckyCoin => "lucky-coin",
        EventKind::EmpireGuardian => "empire-guardian",
        EventKind::IllusionTemple => "illusion-temple",
        EventKind::Kanturu => "kanturu",
        EventKind::CryWolf => "crywolf",
        EventKind::BattleSoccer => "battle-soccer",
    }
}

pub fn event_mode_label(mode: EventMode) -> (r: &'static str)
    ensures
        r@ == (match mode {
            EventMode::Idle => "idle"@,
            EventMode::Entry => "entry"@,
            EventMode::Countdown => "countdown"@,
            EventMode::Reward => "reward"@,
            EventMode::Result => "result"@,
            EventMode::Error => "error"@,
        }),
{
    match mode {
        EventMode::Idle => "idle",
        EventMode::Entry => "entry",
        EventMode::Countdown => "countdown",
        EventMode::Reward => "reward",
        EventMode::Result => "result",
        EventMode::Error => "error",
    }
}

/// The events screen: the error screen before login or when an event is
/// under way without a kind; else the screen of the player's mode.
pub open spec fn event_screen(phase: SessionPhase, kind: EventKind, mode: EventMode) -> EventScreenState {
    if phase == SessionPhase::ReadyForLogin {
        EventScreenState::Error
    } else if kind == EventKind::NoEvent && mode != EventMode::Idle {
        EventScreenState::Error
    } else {
        match mode {
            EventMode::Idle | EventMode::Entry => EventScreenState::Entry,
            EventMode::Countdown => EventScreenState::Countdown,
            EventMode::Reward => EventScreenState::Reward,
            EventMode::Result => EventScreenState::Result,
            EventMode::Error => EventScreenState::Error,
        }
    }
}

pub fn events_shell_state_for_phase_and_manager(
    phase: SessionPhase,
    kind: EventKind,
    mode: EventMode,
) -> (r: EventScreenState)
    ensures
        r == event_screen(phase, kind, mode),
{
    if phase == SessionPhase::ReadyForLogin {
        return EventScreenState::Error;
    }
    if kind == EventKind::NoEvent && mode != EventMode::Idle {
        return EventScreenState::Error;
    }
    match mode {
        EventMode::Idle | EventMode::Entry => EventScreenState::Entry,
        EventMode::Countdown => EventScreenState::Countdown,
        EventMode::Reward => EventScreenState::Reward,
        EventMode::Result => EventScreenState::Result,
        EventMode::Error => EventScreenState::Error,
    }
}

} // verus!
