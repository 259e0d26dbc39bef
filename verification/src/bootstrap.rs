//! The bootstrap runtime: what the client remembers of the login,
//! character and social flow, the signals that the network worker sends it,
//! and what each signal changes.
//!
//! The worker itself (the connection, the packet transport, the command
//! channel) runs outside the library. Here a frame becomes a signal, and a
//! signal moves the runtime, the session, the visible route, and tells the
//! mailbox and the party roster what to do.

use vstd::prelude::*;

use crate::packets::{
    decode_friend_roster, decode_guild_roster, decode_letter_alert, decode_letter_delete_result,
    decode_party_info, decode_party_list, friend_roster_result, guild_roster_result,
    letter_alert_result, letter_delete_result, party_info_result, party_list_result,
    FriendRosterSnapshot, GensRankingInfo, GuildRosterSnapshot, MailLetterEntry, MovementUpdate,
    PacketFrame, PartyInfoSnapshot, PartyListSnapshot,
};
use crate::session::{after_event, SessionEvent, SessionState};
use crate::text::{decimal, push_decimal, push_str, string_of};
use crate::ui::{CharacterCreateScreenState, UiRoute};

verus! {

/// What the network worker reports to the client.
#[derive(Debug)]
pub enum BootstrapSignal {
    Session(SessionEvent),
    ServerList,
    CharacterList,
    CharacterCreateSuccess,
    CharacterCreateFailure,
    Movement(MovementUpdate),
    FriendRoster(FriendRosterSnapshot),
    GuildRoster(GuildRosterSnapshot),
    MailLetter(MailLetterEntry),
    MailLetterDelete(u32),
    PartyList(PartyListSnapshot),
    PartyInfo(PartyInfoSnapshot),
    PartyLeave,
    GensRanking(GensRankingInfo),
    Logout(u8),
    JoinMap(u8),
    Error(String),
}

/// What a frame turns into. `movement` is what the movement decoder made of
/// the frame and `gens_ranking` what the gens ranking decoder made of it;
/// a movement update wins over everything else, and the gens ranking result
/// counts only for a gens ranking frame.
pub open spec fn classified(
    frame: PacketFrame,
    movement: Option<MovementUpdate>,
    gens_ranking: Result<GensRankingInfo, String>,
    r: Option<BootstrapSignal>,
) -> bool {
    let h = frame.headcode;
    let s = frame.subcode;
    let p = frame.payload@;
    if movement is Some {
        r == Some(BootstrapSignal::Movement(movement->0))
    } else if h == 0xC0 {
        match r {
            Some(BootstrapSignal::FriendRoster(x)) => friend_roster_result(frame, Ok(x)),
            Some(BootstrapSignal::Error(e)) => friend_roster_result(frame, Err(e)),
            _ => false,
        }
    } else if h == 0xC6 {
        match r {
            Some(BootstrapSignal::MailLetter(x)) => letter_alert_result(frame, Ok(x)),
            Some(BootstrapSignal::Error(e)) => letter_alert_result(frame, Err(e)),
            _ => false,
        }
    } else if h == 0xC8 {
        match r {
            None => letter_delete_result(frame, Ok(None)),
            Some(BootstrapSignal::MailLetterDelete(id)) => letter_delete_result(frame, Ok(Some(id))),
            Some(BootstrapSignal::Error(e)) => letter_delete_result(frame, Err(e)),
            _ => false,
        }
    } else if h == 0x03 && s == 0x42 {
        match r {
            Some(BootstrapSignal::PartyList(x)) => party_list_result(frame, Ok(x)),
            Some(BootstrapSignal::Error(e)) => party_list_result(frame, Err(e)),
            _ => false,
        }
    } else if h == 0x03 && s == 0x43 {
        r == Some(BootstrapSignal::PartyLeave)
    } else if h == 0x03 && s == 0x44 {
        match r {
            Some(BootstrapSignal::PartyInfo(x)) => party_info_result(frame, Ok(x)),
            Some(BootstrapSignal::Error(e)) => party_info_result(frame, Err(e)),
            _ => false,
        }
    } else if h == 0xF4 && s == 0x06 {
        r == Some(BootstrapSignal::ServerList)
    } else if h == 0xF4 && s == 0x05 {
        r matches Some(BootstrapSignal::Error(e)) && e@ == "server is busy"@
    } else if h == 0xF3 && s == 0x00 {
        r == Some(BootstrapSignal::CharacterList)
    } else if h == 0xF3 && s == 0x01 {
        if p.len() == 0 {
            r is None
        } else if p[0] == 1 {
            r == Some(BootstrapSignal::CharacterCreateSuccess)
        } else {
            r == Some(BootstrapSignal::CharacterCreateFailure)
        }
    } else if h == 0xF3 && s == 0x03 {
        if p.len() < 3 {
            r is None
        } else {
            r == Some(BootstrapSignal::JoinMap(p[2]))
        }
    } else if h == 0xF1 && s == 0x02 {
        if p.len() == 0 {
            r is None
        } else {
            r == Some(BootstrapSignal::Logout(p[0]))
        }
    } else if h == 0xF8 && s == 0x07 {
        match gens_ranking {
            Ok(g) => r == Some(BootstrapSignal::GensRanking(g)),
            Err(e) => r == Some(BootstrapSignal::Error(e)),
        }
    } else if h == 0xD1 && s == 0x52 {
        match r {
            Some(BootstrapSignal::GuildRoster(x)) => guild_roster_result(frame, Ok(x)),
            Some(BootstrapSignal::Error(e)) => guild_roster_result(frame, Err(e)),
            _ => false,
        }
    } else {
        r is None
    }
}

/// Turns a frame into the signal it carries, if any.
pub fn classify_bootstrap_packet(
    frame: &PacketFrame,
    movement: Option<MovementUpdate>,
    gens_ranking: Result<GensRankingInfo, String>,
) -> (r: Option<BootstrapSignal>)
    ensures
        classified(*frame, movement, gens_ranking, r),
{
    if let Some(update) = movement {
        return Some(BootstrapSignal::Movement(update));
    }
    let h = frame.headcode;
    let s = frame.subcode;
    if h == 0xC0 {
        Some(
            match decode_friend_roster(frame) {
                Ok(roster) => BootstrapSignal::FriendRoster(roster),
                Err(error) => BootstrapSignal::Error(error),
            },
        )
    } else if h == 0xC6 {
        Some(
            match decode_letter_alert(frame) {
                Ok(letter) => BootstrapSignal::MailLetter(letter),
                Err(error) => BootstrapSignal::Error(error),
            },
        )
    } else if h == 0xC8 {
        match decode_letter_delete_result(frame) {
            Ok(Some(letter_id)) => Some(BootstrapSignal::MailLetterDelete(letter_id)),
            Ok(None) => None,
            Err(error) => Some(BootstrapSignal::Error(error)),
        }
    } else if h == 0x03 && s == 0x42 {
        Some(
            match decode_party_list(frame) {
                Ok(roster) => BootstrapSignal::PartyList(roster),
                Err(error) => BootstrapSignal::Error(error),
            },
        )
    } else if h == 0x03 && s == 0x43 {
        Some(BootstrapSignal::PartyLeave)
    } else if h == 0x03 && s == 0x44 {
        Some(
            match decode_party_info(frame) {
                Ok(info) => BootstrapSignal::PartyInfo(info),
                Err(error) => BootstrapSignal::Error(error),
            },
        )
    } else if h == 0xF4 && s == 0x06 {
        Some(BootstrapSignal::ServerList)
    } else if h == 0xF4 && s == 0x05 {
        Some(BootstrapSignal::Error("server is busy".to_string()))
    } else if h == 0xF3 && s == 0x00 {
        Some(BootstrapSignal::CharacterList)
    } else if h == 0xF3 && s == 0x01 {
        if frame.payload.len() == 0 {
            None
        } else if frame.payload[0] == 1 {
            Some(BootstrapSignal::CharacterCreateSuccess)
        } else {
            Some(BootstrapSignal::CharacterCreateFailure)
        }
    } else if h == 0xF3 && s == 0x03 {
        if frame.payload.len() < 3 {
            None
        } else {
            Some(BootstrapSignal::JoinMap(frame.payload[2]))
        }
    } else if h == 0xF1 && s == 0x02 {
        if frame.payload.len() == 0 {
            None
        } else {
            Some(BootstrapSignal::Logout(frame.payload[0]))
        }
    } else if h == 0xF8 && s == 0x07 {
        match gens_ranking {
            Ok(snapshot) => Some(BootstrapSignal::GensRanking(snapshot)),
            Err(error) => Some(BootstrapSignal::Error(error)),
        }
    } else if h == 0xD1 && s == 0x52 {
        Some(
            match decode_guild_roster(frame) {
                Ok(roster) => BootstrapSignal::GuildRoster(roster),
                Err(error) => BootstrapSignal::Error(error),
            },
        )
    } else {
        None
    }
}

/// The plugin that installs the bootstrap runtime in the client: an idle
/// runtime at start-up, then the signal polling, the world loading and the
/// character selection keys every frame. The engine glue that schedules
/// those steps lives with the client application.
#[derive(Debug, Default, Clone, Copy)]
pub struct BootstrapRuntimePlugin;

// ---------------------------------------------------------------------------
// The runtime state

/// What the client remembers of the login, character and social flow.
#[derive(Debug)]
pub struct BootstrapRuntime {
    pub pending_world_map: Option<u8>,
    pub character_list_ready: bool,
    pub character_select_index: Option<usize>,
    pub selected_character_name: Option<String>,
    pub character_create_state: CharacterCreateScreenState,
    pub last_error: Option<String>,
    pub friend_roster: Option<FriendRosterSnapshot>,
    pub guild_roster: Option<GuildRosterSnapshot>,
    pub gens_ranking_snapshot: Option<GensRankingInfo>,
}

/// The runtime seen as values.
#[verifier::ext_equal]
pub struct BootstrapView {
    pub pending_world_map: Option<u8>,
    pub character_list_ready: bool,
    pub character_select_index: Option<usize>,
    pub selected_character_name: Option<Seq<char>>,
    pub character_create_state: CharacterCreateScreenState,
    pub last_error: Option<Seq<char>>,
    pub friend_roster: Option<FriendRosterSnapshot>,
    pub guild_roster: Option<GuildRosterSnapshot>,
    pub gens_ranking: Option<GensRankingInfo>,
}

pub open spec fn opt_text(o: Option<String>) -> Option<Seq<char>> {
    match o {
        Some(s) => Some(s@),
        None => None,
    }
}

impl View for BootstrapRuntime {
    type V = BootstrapView;

    open spec fn view(&self) -> BootstrapView {
        BootstrapView {
            pending_world_map: self.pending_world_map,
            character_list_ready: self.character_list_ready,
            character_select_index: self.character_select_index,
            selected_character_name: opt_text(self.selected_character_name),
            character_create_state: self.character_create_state,
            last_error: opt_text(self.last_error),
            friend_roster: self.friend_roster,
            guild_roster: self.guild_roster,
            gens_ranking: self.gens_ranking_snapshot,
        }
    }
}

/// A runtime that has seen nothing yet.
pub open spec fn idle_view() -> BootstrapView {
    BootstrapView {
        pending_world_map: None,
        character_list_ready: false,
        character_select_index: None,
        selected_character_name: None,
        character_create_state: CharacterCreateScreenState::Ready,
        last_error: None,
        friend_roster: None,
        guild_roster: None,
        gens_ranking: None,
    }
}

/// What the mailbox is told to do.
#[derive(Debug)]
pub enum MailAction {
    Keep,
    Upsert(MailLetterEntry),
    Remove(u32),
    Reset,
}

/// What the party roster is told to do.
#[derive(Debug)]
pub enum PartyAction {
    Keep,
    SetList(PartyListSnapshot),
    SetInfo(PartyInfoSnapshot),
    Clear,
}

/// What a signal asks of the parts of the client that the runtime does not
/// hold: the mailbox, the party roster and the local player's position.
#[derive(Debug)]
pub struct BootstrapEffects {
    pub mail: MailAction,
    pub party: PartyAction,
    pub movement: Option<MovementUpdate>,
}

/// The runtime, the session, the route and the effects after a signal.
pub struct SignalOutcome {
    pub runtime: BootstrapView,
    pub session: SessionState,
    pub route: UiRoute,
    pub effects: BootstrapEffects,
}

pub open spec fn effects(mail: MailAction, party: PartyAction) -> BootstrapEffects {
    BootstrapEffects { mail, party, movement: None }
}

/// No character chosen on the selection screen.
pub open spec fn without_selection(v: BootstrapView) -> BootstrapView {
    BootstrapView { character_select_index: None, selected_character_name: None, ..v }
}

/// No social rosters and no gens ranking.
pub open spec fn without_social(v: BootstrapView) -> BootstrapView {
    BootstrapView { friend_roster: None, guild_roster: None, gens_ranking: None, ..v }
}

/// The message of a logout of a kind that the client does not know.
pub open spec fn logout_kind_message(kind: u8) -> Seq<char> {
    "unexpected logout kind: "@ + decimal(kind as nat)
}

/// The runtime after a logout of the given kind.
pub open spec fn logout_runtime(v: BootstrapView, kind: u8) -> BootstrapView {
    let reset = without_social(
        without_selection(
            BootstrapView {
                pending_world_map: None,
                character_list_ready: false,
                character_create_state: CharacterCreateScreenState::Ready,
                last_error: None,
                ..v
            },
        ),
    );
    if kind == 1 || kind == 2 {
        reset
    } else {
        BootstrapView { last_error: Some(logout_kind_message(kind)), ..reset }
    }
}

/// The route after a logout of the given kind.
pub open spec fn logout_route(kind: u8) -> UiRoute {
    if kind == 1 {
        UiRoute::CharacterSelect
    } else {
        UiRoute::Login
    }
}

/// What a session event does. `world_ready` tells whether the world was
/// loaded when the event came.
pub open spec fn after_session_event(
    v: BootstrapView,
    s: SessionState,
    route: UiRoute,
    event: SessionEvent,
    world_ready: bool,
) -> SignalOutcome {
    let s2 = after_event(s, event);
    match event {
        SessionEvent::LoginSuccess => SignalOutcome {
            runtime: without_social(
                without_selection(
                    BootstrapView {
                        pending_world_map: None,
                        character_list_ready: false,
                        character_create_state: CharacterCreateScreenState::Ready,
                        last_error: None,
                        ..v
                    },
                ),
            ),
            session: s2,
            route: UiRoute::CharacterSelect,
            effects: effects(MailAction::Reset, PartyAction::Keep),
        },
        SessionEvent::LoginFailure => SignalOutcome {
            runtime: without_social(
                without_selection(
                    BootstrapView {
                        pending_world_map: None,
                        character_list_ready: false,
                        character_create_state: CharacterCreateScreenState::Ready,
                        last_error: Some("login failed"@),
                        ..v
                    },
                ),
            ),
            session: s2,
            route: UiRoute::Login,
            effects: effects(MailAction::Reset, PartyAction::Clear),
        },
        SessionEvent::Logout => SignalOutcome {
            runtime: without_social(
                without_selection(
                    BootstrapView {
                        character_list_ready: false,
                        character_create_state: CharacterCreateScreenState::Ready,
                        ..v
                    },
                ),
            ),
            session: s2,
            route: UiRoute::Login,
            effects: effects(MailAction::Reset, PartyAction::Clear),
        },
        SessionEvent::Disconnect => {
            let reset = without_social(v);
            if v.pending_world_map is Some {
                SignalOutcome {
                    runtime: reset,
                    session: s2,
                    route,
                    effects: effects(MailAction::Reset, PartyAction::Clear),
                }
            } else {
                let lost = without_selection(
                    BootstrapView {
                        pending_world_map: None,
                        character_list_ready: false,
                        last_error: Some("connection lost"@),
                        ..reset
                    },
                );
                if v.character_create_state == CharacterCreateScreenState::Submitting {
                    SignalOutcome {
                        runtime: BootstrapView {
                            character_create_state: CharacterCreateScreenState::Error,
                            ..lost
                        },
                        session: s2,
                        route: UiRoute::CharacterCreate,
                        effects: effects(MailAction::Reset, PartyAction::Clear),
                    }
                } else {
                    SignalOutcome {
                        runtime: lost,
                        session: s2,
                        route: if world_ready {
                            route
                        } else {
                            UiRoute::Error
                        },
                        effects: effects(MailAction::Reset, PartyAction::Clear),
                    }
                }
            }
        },
    }
}

/// What a signal does to the runtime, the session and the route, and what
/// it asks of the mailbox, the party roster and the player's position.
pub open spec fn after_signal(
    v: BootstrapView,
    s: SessionState,
    route: UiRoute,
    signal: BootstrapSignal,
    world_ready: bool,
) -> SignalOutcome {
    let keep = effects(MailAction::Keep, PartyAction::Keep);
    match signal {
        BootstrapSignal::Session(event) => after_session_event(v, s, route, event, world_ready),
        BootstrapSignal::ServerList => SignalOutcome {
            runtime: without_selection(
                BootstrapView {
                    character_list_ready: false,
                    character_create_state: CharacterCreateScreenState::Ready,
                    last_error: None,
                    ..v
                },
            ),
            session: s,
            route: UiRoute::ServerSelect,
            effects: keep,
        },
        BootstrapSignal::CharacterList | BootstrapSignal::CharacterCreateSuccess => SignalOutcome {
            runtime: without_selection(
                BootstrapView {
                    character_list_ready: true,
                    character_create_state: CharacterCreateScreenState::Ready,
                    last_error: None,
                    ..v
                },
            ),
            session: s,
            route: UiRoute::CharacterSelect,
            effects: keep,
        },
        BootstrapSignal::CharacterCreateFailure => SignalOutcome {
            runtime: BootstrapView {
                character_create_state: CharacterCreateScreenState::Error,
                last_error: Some("character creation failed"@),
                ..v
            },
            session: s,
            route: UiRoute::CharacterCreate,
            effects: keep,
        },
        BootstrapSignal::Movement(update) => SignalOutcome {
            runtime: v,
            session: s,
            route,
            effects: BootstrapEffects {
                mail: MailAction::Keep,
                party: PartyAction::Keep,
                movement: Some(update),
            },
        },
        BootstrapSignal::FriendRoster(roster) => SignalOutcome {
            runtime: BootstrapView { friend_roster: Some(roster), last_error: None, ..v },
            session: s,
            route,
            effects: keep,
        },
        BootstrapSignal::GuildRoster(roster) => SignalOutcome {
            runtime: BootstrapView { guild_roster: Some(roster), last_error: None, ..v },
            session: s,
            route,
            effects: keep,
        },
        BootstrapSignal::MailLetter(letter) => SignalOutcome {
            runtime: BootstrapView { last_error: None, ..v },
            session: s,
            route,
            effects: effects(MailAction::Upsert(letter), PartyAction::Keep),
        },
        BootstrapSignal::MailLetterDelete(id) => SignalOutcome {
            runtime: BootstrapView { last_error: None, ..v },
            session: s,
            route,
            effects: effects(MailAction::Remove(id), PartyAction::Keep),
        },
        BootstrapSignal::PartyList(roster) => SignalOutcome {
            runtime: BootstrapView { last_error: None, ..v },
            session: s,
            route,
            effects: effects(MailAction::Keep, PartyAction::SetList(roster)),
        },
        BootstrapSignal::PartyInfo(info) => SignalOutcome {
            runtime: BootstrapView { last_error: None, ..v },
            session: s,
            route,
            effects: effects(MailAction::Keep, PartyAction::SetInfo(info)),
        },
        BootstrapSignal::PartyLeave => SignalOutcome {
            runtime: BootstrapView { last_error: None, ..v },
            session: s,
            route,
            effects: effects(MailAction::Keep, PartyAction::Clear),
        },
        BootstrapSignal::GensRanking(snapshot) => SignalOutcome {
            runtime: BootstrapView { gens_ranking: Some(snapshot), last_error: None, ..v },
            session: s,
            route,
            effects: keep,
        },
        BootstrapSignal::Logout(kind) => SignalOutcome {
            runtime: logout_runtime(v, kind),
            session: s,
            route: logout_route(kind),
            effects: effects(MailAction::Reset, PartyAction::Clear),
        },
        BootstrapSignal::JoinMap(map) => SignalOutcome {
            runtime: BootstrapView {
                pending_world_map: Some(map),
                character_list_ready: false,
                character_create_state: CharacterCreateScreenState::Ready,
                last_error: None,
                ..v
            },
            session: s,
            route: UiRoute::Loading,
            effects: keep,
        },
        BootstrapSignal::Error(message) => {
            let reset = without_social(
                without_selection(
                    BootstrapView {
                        pending_world_map: None,
                        character_list_ready: false,
                        last_error: Some(message@),
                        ..v
                    },
                ),
            );
            if v.character_create_state == CharacterCreateScreenState::Submitting {
                SignalOutcome {
                    runtime: BootstrapView {
                        character_create_state: CharacterCreateScreenState::Error,
                        ..reset
                    },
                    session: s,
                    route: UiRoute::CharacterCreate,
                    effects: effects(MailAction::Reset, PartyAction::Clear),
                }
            } else {
                SignalOutcome {
                    runtime: reset,
                    session: s,
                    route: UiRoute::Error,
                    effects: effects(MailAction::Reset, PartyAction::Clear),
                }
            }
        },
    }
}

impl BootstrapRuntime {
    /// A runtime with no worker behind it.
    pub fn idle() -> (r: Self)
        ensures
            r@ == idle_view(),
    {
        BootstrapRuntime {
            pending_world_map: None,
            character_list_ready: false,
            character_select_index: None,
            selected_character_name: None,
            character_create_state: CharacterCreateScreenState::Ready,
            last_error: None,
            friend_roster: None,
            guild_roster: None,
            gens_ranking_snapshot: None,
        }
    }

    /// A runtime that could not start, with the reason.
    pub fn with_error(message: String) -> (r: Self)
        ensures
            r@ == (BootstrapView { last_error: Some(message@), ..idle_view() }),
    {
        let mut runtime = Self::idle();
        runtime.last_error = Some(message);
        runtime
    }

    pub fn last_error(&self) -> (r: Option<&str>)
        ensures
            r matches Some(e) ==> self@.last_error == Some(e@),
            r is None ==> self@.last_error is None,
    {
        match &self.last_error {
            Some(e) => Some(e.as_str()),
            None => None,
        }
    }

    pub fn friend_roster_snapshot(&self) -> (r: Option<&FriendRosterSnapshot>)
        ensures
            r matches Some(x) ==> self.friend_roster == Some(*x),
            r is None ==> self.friend_roster is None,
    {
        self.friend_roster.as_ref()
    }

    pub fn guild_roster_snapshot(&self) -> (r: Option<&GuildRosterSnapshot>)
        ensures
            r matches Some(x) ==> self.guild_roster == Some(*x),
            r is None ==> self.guild_roster is None,
    {
        self.guild_roster.as_ref()
    }

    pub fn clear_social_rosters(&mut self)
        ensures
            final(self)@ == (BootstrapView {
                friend_roster: None,
                guild_roster: None,
                ..old(self)@
            }),
    {
        self.friend_roster = None;
        self.guild_roster = None;
    }

    pub fn gens_ranking_snapshot(&self) -> (r: Option<GensRankingInfo>)
        ensures
            r == self.gens_ranking_snapshot,
    {
        self.gens_ranking_snapshot
    }

    pub fn set_gens_ranking_snapshot(&mut self, snapshot: Option<GensRankingInfo>)
        ensures
            final(self)@ == (BootstrapView { gens_ranking: snapshot, ..old(self)@ }),
    {
        self.gens_ranking_snapshot = snapshot;
    }

    pub fn clear_gens_ranking_snapshot(&mut self)
        ensures
            final(self)@ == (BootstrapView { gens_ranking: None, ..old(self)@ }),
    {
        self.gens_ranking_snapshot = None;
    }

    pub fn set_friend_roster_snapshot(&mut self, roster: Option<FriendRosterSnapshot>)
        ensures
            final(self)@ == (BootstrapView { friend_roster: roster, ..old(self)@ }),
    {
        self.friend_roster = roster;
    }

    pub fn set_guild_roster_snapshot(&mut self, roster: Option<GuildRosterSnapshot>)
        ensures
            final(self)@ == (BootstrapView { guild_roster: roster, ..old(self)@ }),
    {
        self.guild_roster = roster;
    }

    pub fn character_list_ready(&self) -> (r: bool)
        ensures
            r == self.character_list_ready,
    {
        self.character_list_ready
    }

    pub fn set_character_list_ready(&mut self, ready: bool)
        ensures
            final(self)@ == (BootstrapView { character_list_ready: ready, ..old(self)@ }),
    {
        self.character_list_ready = ready;
    }

    pub fn clear_character_select_selection(&mut self)
        ensures
            final(self)@ == without_selection(old(self)@),
    {
        self.character_select_index = None;
        self.selected_character_name = None;
    }

    pub fn character_select_index(&self) -> (r: Option<usize>)
        ensures
            r == self.character_select_index,
    {
        self.character_select_index
    }

    pub fn set_character_select_index(&mut self, index: Option<usize>)
        ensures
            final(self)@ == (BootstrapView { character_select_index: index, ..old(self)@ }),
    {
        self.character_select_index = index;
    }

    pub fn character_create_state(&self) -> (r: CharacterCreateScreenState)
        ensures
            r == self.character_create_state,
    {
        self.character_create_state
    }

    pub fn set_character_create_state(&mut self, state: CharacterCreateScreenState)
        ensures
            final(self)@ == (BootstrapView { character_create_state: state, ..old(self)@ }),
    {
        self.character_create_state = state;
    }

    /// Records the outcome of handing a character selection to the worker:
    /// the name is remembered when it went out. Tells whether it did.
    pub fn record_character_select_request(&mut self, character_name: String, sent: bool) -> (r:
        bool)
        ensures
            r == sent,
            sent ==> final(self)@ == (BootstrapView {
                selected_character_name: Some(character_name@),
                ..old(self)@
            }),
            !sent ==> final(self)@ == old(self)@,
    {
        if sent {
            self.selected_character_name = Some(character_name);
        }
        sent
    }

    /// Records the outcome of handing a character creation to the worker:
    /// the request is submitting when it went out. Tells whether it did.
    pub fn record_character_create_request(&mut self, sent: bool) -> (r: bool)
        ensures
            r == sent,
            sent ==> final(self)@ == (BootstrapView {
                character_create_state: CharacterCreateScreenState::Submitting,
                ..old(self)@
            }),
            !sent ==> final(self)@ == old(self)@,
    {
        if sent {
            self.character_create_state = CharacterCreateScreenState::Submitting;
        }
        sent
    }

    /// Takes the map that a join asked for, if one waits to be loaded.
    pub fn take_pending_world_map(&mut self) -> (r: Option<u8>)
        ensures
            r == old(self)@.pending_world_map,
            final(self)@ == (BootstrapView { pending_world_map: None, ..old(self)@ }),
    {
        let map = self.pending_world_map;
        self.pending_world_map = None;
        map
    }

    /// Finishes a world load: `load` is `None` when no asset root is
    /// configured, else what loading the world gave. Success shows the
    /// world; a failure shows the error screen with the reason.
    pub fn finish_world_bootstrap(&mut self, route: &mut UiRoute, load: Option<Result<(), String>>)
        ensures
            match load {
                None => final(self)@ == (BootstrapView {
                    last_error: Some("missing asset root"@),
                    ..old(self)@
                }) && *final(route) == UiRoute::Error,
                Some(Ok(())) => final(self)@ == (BootstrapView { last_error: None, ..old(self)@ })
                    && *final(route) == UiRoute::World,
                Some(Err(e)) => final(self)@ == (BootstrapView {
                    last_error: Some(e@),
                    ..old(self)@
                }) && *final(route) == UiRoute::Error,
            },
    {
        match load {
            None => {
                self.last_error = Some("missing asset root".to_string());
                *route = UiRoute::Error;
            },
            Some(Ok(())) => {
                self.last_error = None;
                *route = UiRoute::World;
            },
            Some(Err(error)) => {
                self.last_error = Some(error);
                *route = UiRoute::Error;
            },
        }
    }
}

fn keep_effects() -> (r: BootstrapEffects)
    ensures
        r == effects(MailAction::Keep, PartyAction::Keep),
{
    BootstrapEffects { mail: MailAction::Keep, party: PartyAction::Keep, movement: None }
}

fn reset_effects(party: PartyAction) -> (r: BootstrapEffects)
    ensures
        r == effects(MailAction::Reset, party),
{
    BootstrapEffects { mail: MailAction::Reset, party, movement: None }
}

/// Applies a session event to the runtime, the session and the route.
pub fn apply_session_event(
    event: SessionEvent,
    bootstrap: &mut BootstrapRuntime,
    session_state: &mut SessionState,
    route: &mut UiRoute,
    world_ready: bool,
) -> (r: BootstrapEffects)
    ensures
        ({
            let o = after_session_event(
                old(bootstrap)@,
                *old(session_state),
                *old(route),
                event,
                world_ready,
            );
            &&& final(bootstrap)@ == o.runtime
            &&& *final(session_state) == o.session
            &&& *final(route) == o.route
            &&& r == o.effects
        }),
{
    match event {
        SessionEvent::LoginSuccess => {
            session_state.apply_event(event);
            bootstrap.pending_world_map = None;
            bootstrap.set_character_list_ready(false);
            bootstrap.clear_character_select_selection();
            bootstrap.set_character_create_state(CharacterCreateScreenState::Ready);
            bootstrap.last_error = None;
            bootstrap.clear_social_rosters();
            bootstrap.clear_gens_ranking_snapshot();
            *route = UiRoute::CharacterSelect;
            reset_effects(PartyAction::Keep)
        },
        SessionEvent::LoginFailure => {
            session_state.apply_event(event);
            bootstrap.pending_world_map = None;
            bootstrap.set_character_list_ready(false);
            bootstrap.clear_character_select_selection();
            bootstrap.set_character_create_state(CharacterCreateScreenState::Ready);
            bootstrap.last_error = Some("login failed".to_string());
            bootstrap.clear_social_rosters();
            bootstrap.clear_gens_ranking_snapshot();
            *route = UiRoute::Login;
            reset_effects(PartyAction::Clear)
        },
        SessionEvent::Logout => {
            session_state.apply_event(event);
            bootstrap.set_character_list_ready(false);
            bootstrap.clear_character_select_selection();
            bootstrap.set_character_create_state(CharacterCreateScreenState::Ready);
            bootstrap.clear_social_rosters();
            bootstrap.clear_gens_ranking_snapshot();
            *route = UiRoute::Login;
            reset_effects(PartyAction::Clear)
        },
        SessionEvent::Disconnect => {
            let pending_world_map = bootstrap.pending_world_map.is_some();
            let create_pending = bootstrap.character_create_state()
                == CharacterCreateScreenState::Submitting;
            session_state.apply_event(event);
            bootstrap.clear_social_rosters();
            bootstrap.clear_gens_ranking_snapshot();
            if pending_world_map {
                return reset_effects(PartyAction::Clear);
            }
            bootstrap.pending_world_map = None;
            bootstrap.set_character_list_ready(false);
            bootstrap.clear_character_select_selection();
            bootstrap.last_error = Some("connection lost".to_string());
            if create_pending {
                bootstrap.set_character_create_state(CharacterCreateScreenState::Error);
                *route = UiRoute::CharacterCreate;
                return reset_effects(PartyAction::Clear);
            }
            if !world_ready {
                *route = UiRoute::Error;
            }
            reset_effects(PartyAction::Clear)
        },
    }
}

/// Applies a logout of the given kind: 1 goes back to character
/// selection, 2 to the login screen, any other kind to the login screen
/// with an error.
pub fn apply_logout(kind: u8, bootstrap: &mut BootstrapRuntime, route: &mut UiRoute) -> (r:
    BootstrapEffects)
    ensures
        final(bootstrap)@ == logout_runtime(old(bootstrap)@, kind),
        *final(route) == logout_route(kind),
        r == effects(MailAction::Reset, PartyAction::Clear),
{
    bootstrap.pending_world_map = None;
    bootstrap.set_character_list_ready(false);
    bootstrap.clear_character_select_selection();
    bootstrap.set_character_create_state(CharacterCreateScreenState::Ready);
    bootstrap.last_error = None;
    bootstrap.clear_social_rosters();
    bootstrap.clear_gens_ranking_snapshot();
    if kind == 1 {
        *route = UiRoute::CharacterSelect;
    } else if kind == 2 {
        *route = UiRoute::Login;
    } else {
        let mut message: Vec<char> = Vec::new();
        push_str(&mut message, "unexpected logout kind: ");
        push_decimal(&mut message, kind as u64);
        bootstrap.last_error = Some(string_of(&message));
        *route = UiRoute::Login;
    }
    reset_effects(PartyAction::Clear)
}

/// Applies one signal of the worker: moves the runtime, the session and
/// the route, and tells what the mailbox, the party roster and the player's
/// position are to do. `world_ready` tells whether the world is loaded.
pub fn apply_bootstrap_signal(
    signal: BootstrapSignal,
    bootstrap: &mut BootstrapRuntime,
    session_state: &mut SessionState,
    route: &mut UiRoute,
    world_ready: bool,
) -> (r: BootstrapEffects)
    ensures
        ({
            let o = after_signal(
                old(bootstrap)@,
                *old(session_state),
                *old(route),
                signal,
                world_ready,
            );
            &&& final(bootstrap)@ == o.runtime
            &&& *final(session_state) == o.session
            &&& *final(route) == o.route
            &&& r == o.effects
        }),
{
    match signal {
        BootstrapSignal::Session(event) => apply_session_event(
            event,
            bootstrap,
            session_state,
            route,
            world_ready,
        ),
        BootstrapSignal::ServerList => {
            bootstrap.set_character_list_ready(false);
            bootstrap.clear_character_select_selection();
            bootstrap.set_character_create_state(CharacterCreateScreenState::Ready);
            bootstrap.last_error = None;
            *route = UiRoute::ServerSelect;
            keep_effects()
        },
        BootstrapSignal::CharacterList => {
            bootstrap.set_character_list_ready(true);
            bootstrap.clear_character_select_selection();
            bootstrap.set_character_create_state(CharacterCreateScreenState::Ready);
            bootstrap.last_error = None;
            *route = UiRoute::CharacterSelect;
            keep_effects()
        },
        BootstrapSignal::CharacterCreateSuccess => {
            bootstrap.set_character_list_ready(true);
            bootstrap.clear_character_select_selection();
            bootstrap.set_character_create_state(CharacterCreateScreenState::Ready);
            bootstrap.last_error = None;
            *route = UiRoute::CharacterSelect;
            keep_effects()
        },
        BootstrapSignal::CharacterCreateFailure => {
            bootstrap.set_character_create_state(CharacterCreateScreenState::Error);
            bootstrap.last_error = Some("character creation failed".to_string());
            *route = UiRoute::CharacterCreate;
            keep_effects()
        },
        BootstrapSignal::Movement(update) => BootstrapEffects {
            mail: MailAction::Keep,
            party: PartyAction::Keep,
            movement: Some(update),
        },
        BootstrapSignal::FriendRoster(roster) => {
            bootstrap.set_friend_roster_snapshot(Some(roster));
            bootstrap.last_error = None;
            keep_effects()
        },
        BootstrapSignal::GuildRoster(roster) => {
            bootstrap.set_guild_roster_snapshot(Some(roster));
            bootstrap.last_error = None;
            keep_effects()
        },
        BootstrapSignal::MailLetter(letter) => {
            bootstrap.last_error = None;
            BootstrapEffects { mail: MailAction::Upsert(letter), party: PartyAction::Keep, movement: None }
        },
        BootstrapSignal::MailLetterDelete(letter_id) => {
            bootstrap.last_error = None;
            BootstrapEffects {
                mail: MailAction::Remove(letter_id),
                party: PartyAction::Keep,
                movement: None,
            }
        },
        BootstrapSignal::PartyList(roster) => {
            bootstrap.last_error = None;
            BootstrapEffects {
                mail: MailAction::Keep,
                party: PartyAction::SetList(roster),
                movement: None,
            }
        },
        BootstrapSignal::PartyInfo(info) => {
            bootstrap.last_error = None;
            BootstrapEffects { mail: MailAction::Keep, party: PartyAction::SetInfo(info), movement: None }
        },
        BootstrapSignal::PartyLeave => {
            bootstrap.last_error = None;
            BootstrapEffects { mail: MailAction::Keep, party: PartyAction::Clear, movement: None }
        },
        BootstrapSignal::GensRanking(snapshot) => {
            bootstrap.set_gens_ranking_snapshot(Some(snapshot));
            bootstrap.last_error = None;
            keep_effects()
        },
        BootstrapSignal::Logout(kind) => apply_logout(kind, bootstrap, route),
        BootstrapSignal::JoinMap(map) => {
            bootstrap.pending_world_map = Some(map);
            bootstrap.set_character_list_ready(false);
            bootstrap.set_character_create_state(CharacterCreateScreenState::Ready);
            bootstrap.last_error = None;
            *route = UiRoute::Loading;
            keep_effects()
        },
        BootstrapSignal::Error(message) => {
            bootstrap.pending_world_map = None;
            bootstrap.set_character_list_ready(false);
            bootstrap.clear_character_select_selection();
            bootstrap.last_error = Some(message);
            bootstrap.clear_social_rosters();
            bootstrap.clear_gens_ranking_snapshot();
            if bootstrap.character_create_state() == CharacterCreateScreenState::Submitting {
                bootstrap.set_character_create_state(CharacterCreateScreenState::Error);
                *route = UiRoute::CharacterCreate;
            } else {
                *route = UiRoute::Error;
            }
            reset_effects(PartyAction::Clear)
        },
    }
}

// ---------------------------------------------------------------------------
// Character selection

/// A character on the selection screen.
#[derive(Debug, Clone, PartialEq, Eq)]
pub struct CharacterSelectCharacter {
    pub name: String,
    pub selected: bool,
}

/// The keys that the selection screen reacts to, as pressed in this frame:
/// back (up or left), forward (down or right) and Enter.
#[derive(Debug, Clone, Copy, PartialEq, Eq, Structural)]
pub struct CharacterSelectKeys {
    pub previous: bool,
    pub next: bool,
    pub enter: bool,
}

/// The step that the arrow keys ask for: back, forward, or none when both
/// or neither are pressed.
pub open spec fn navigation_delta(previous: bool, next: bool) -> int {
    if previous && !next {
        -1
    } else if !previous && next {
        1
    } else {
        0
    }
}

pub fn character_select_navigation_delta(previous: bool, next: bool) -> (r: isize)
    ensures
        r == navigation_delta(previous, next),
{
    if previous && !next {
        -1
    } else if !previous && next {
        1
    } else {
        0
    }
}

/// Moves `delta` places from `current` in a ring of `len` places.
pub open spec fn cycle_index(current: int, len: int, delta: int) -> int {
    (current + delta) % len
}

pub fn cycle_character_select_index(current: usize, len: usize, delta: isize) -> (r: usize)
    requires
        0 < len,
    ensures
        r == cycle_index(current as int, len as int, delta as int),
        r < len,
{
    let n: u128 = len as u128;
    let x: i128 = current as i128 + delta as i128;
    if x >= 0 {
        let m = (x as u128) % n;
        m as usize
    } else {
        let y: u128 = (0 - x) as u128;
        let m = y % n;
        proof {
            let q = y as int / n as int;
            vstd::arithmetic::div_mod::lemma_fundamental_div_mod(y as int, n as int);
            assert(y as int == n as int * q + m as int);
            if m == 0 {
                assert(x as int == (-q) * (n as int) + 0) by (nonlinear_arith)
                    requires
                        y as int == n as int * q + m as int,
                        x as int == -(y as int),
                        m == 0,
                ;
                vstd::arithmetic::div_mod::lemma_fundamental_div_mod_converse(
                    x as int,
                    n as int,
                    -q,
                    0,
                );
            } else {
                assert(x as int == (-q - 1) * (n as int) + (n - m)) by (nonlinear_arith)
                    requires
                        y as int == n as int * q + m as int,
                        x as int == -(y as int),
                ;
                vstd::arithmetic::div_mod::lemma_fundamental_div_mod_converse(
                    x as int,
                    n as int,
                    -q - 1,
                    n - m,
                );
            }
        }
        if m == 0 {
            0
        } else {
            (n - m) as usize
        }
    }
}

/// The first character marked as selected, or the first character.
pub open spec fn default_selection_from(chars: Seq<CharacterSelectCharacter>, i: int) -> int
    decreases chars.len() - i,
{
    if i >= chars.len() {
        0
    } else if chars[i].selected {
        i
    } else {
        default_selection_from(chars, i + 1)
    }
}

/// The default selection is the first character marked as selected, or
/// the first character when none is.
pub proof fn lemma_default_selection(chars: Seq<CharacterSelectCharacter>, k: int, i: int)
    requires
        0 <= k <= i <= chars.len(),
        forall|j: int| k <= j < i ==> !chars[j].selected,
        i == chars.len() || chars[i].selected,
    ensures
        default_selection_from(chars, k) == (if i == chars.len() {
            0
        } else {
            i
        }),
    decreases i - k,
{
    if k < i {
        lemma_default_selection(chars, k + 1, i);
    }
}

/// Searching from `k`, the default selection is a marked character with no
/// marked one between `k` and it, or 0 when none from `k` on is marked.
proof fn lemma_default_selection_found(chars: Seq<CharacterSelectCharacter>, k: int)
    requires
        0 <= k <= chars.len(),
    ensures
        ({
            let d = default_selection_from(chars, k);
            ||| (k <= d < chars.len() && chars[d].selected && forall|j: int|
                k <= j < d ==> !chars[j].selected)
            ||| (d == 0 && forall|j: int| k <= j < chars.len() ==> !chars[j].selected)
        }),
    decreases chars.len() - k,
{
    if k < chars.len() && !chars[k].selected {
        lemma_default_selection_found(chars, k + 1);
    }
}

/// The character that the selection screen points at after the keys of
/// one frame: the remembered one if it is still on the list, else the
/// default one, moved by the arrow keys.
pub open spec fn selection_after_keys(
    remembered: Option<usize>,
    chars: Seq<CharacterSelectCharacter>,
    keys: CharacterSelectKeys,
) -> int {
    let default_index = default_selection_from(chars, 0);
    let current = match remembered {
        Some(i) => if i < chars.len() {
            i as int
        } else {
            default_index
        },
        None => default_index,
    };
    let delta = navigation_delta(keys.previous, keys.next);
    if delta != 0 {
        cycle_index(current, chars.len() as int, delta)
    } else {
        current
    }
}

/// With no remembered place on the list and no arrow key, the selection
/// points at the first character marked as selected, and at the first
/// character only when none is marked.
pub proof fn lemma_selection_starts_at_first_marked(
    remembered: Option<usize>,
    chars: Seq<CharacterSelectCharacter>,
    keys: CharacterSelectKeys,
)
    requires
        chars.len() > 0,
        remembered matches Some(i) ==> i >= chars.len(),
        keys.previous == keys.next,
    ensures
        ({
            let i = selection_after_keys(remembered, chars, keys);
            &&& 0 <= i < chars.len()
            &&& forall|j: int| 0 <= j < i ==> !chars[j].selected
            &&& chars[i].selected || (i == 0 && forall|j: int|
                0 <= j < chars.len() ==> !chars[j].selected)
        }),
{
    lemma_default_selection_found(chars, 0);
}

/// With a remembered place on the list, an arrow key moves the selection
/// one place along the list, wrapping around at either end.
pub proof fn lemma_selection_arrows_wrap(
    remembered: usize,
    chars: Seq<CharacterSelectCharacter>,
    keys: CharacterSelectKeys,
)
    requires
        remembered < chars.len(),
    ensures
        keys.next && !keys.previous ==> selection_after_keys(Some(remembered), chars, keys) == (
        if remembered + 1 == chars.len() {
            0
        } else {
            remembered + 1
        }),
        keys.previous && !keys.next ==> selection_after_keys(Some(remembered), chars, keys) == (
        if remembered == 0 {
            chars.len() - 1
        } else {
            remembered - 1
        }),
        keys.previous == keys.next ==> selection_after_keys(Some(remembered), chars, keys)
            == remembered,
{
    let n = chars.len() as int;
    let c = remembered as int;
    if keys.next && !keys.previous {
        if c + 1 == n {
            vstd::arithmetic::div_mod::lemma_mod_self_0(n);
        } else {
            vstd::arithmetic::div_mod::lemma_small_mod((c + 1) as nat, n as nat);
        }
    }
    if keys.previous && !keys.next {
        if c == 0 {
            vstd::arithmetic::div_mod::lemma_fundamental_div_mod_converse(-1, n, -1, n - 1);
        } else {
            vstd::arithmetic::div_mod::lemma_small_mod((c - 1) as nat, n as nat);
        }
    }
}

/// Whether the selection screen takes keys: it is shown, the session is
/// logged in, the character list came and is not empty.
pub open spec fn selection_active(
    v: BootstrapView,
    route: UiRoute,
    phase: crate::session::SessionPhase,
    chars: Seq<CharacterSelectCharacter>,
) -> bool {
    &&& route == UiRoute::CharacterSelect
    &&& phase == crate::session::SessionPhase::LoggedIn
    &&& v.character_list_ready
    &&& chars.len() > 0
}

/// Applies the keys of one frame to the character selection screen.
/// Returns the name of the character to enter the world with when Enter was
/// pressed; the caller hands it to the worker and records the outcome with
/// [`BootstrapRuntime::record_character_select_request`].
pub fn apply_character_select_input(
    bootstrap: &mut BootstrapRuntime,
    route: UiRoute,
    phase: crate::session::SessionPhase,
    characters: &Vec<CharacterSelectCharacter>,
    keys: CharacterSelectKeys,
) -> (r: Option<String>)
    ensures
        !selection_active(old(bootstrap)@, route, phase, characters@) ==> {
            &&& final(bootstrap)@ == without_selection(old(bootstrap)@)
            &&& r is None
        },
        selection_active(old(bootstrap)@, route, phase, characters@) ==> {
            let i = selection_after_keys(old(bootstrap)@.character_select_index, characters@, keys);
            &&& 0 <= i < characters@.len()
            &&& final(bootstrap)@ == (BootstrapView {
                character_select_index: Some(i as usize),
                ..old(bootstrap)@
            })
            &&& keys.enter ==> (r matches Some(name) && name@ == characters@[i].name@)
            &&& !keys.enter ==> r is None
        },
        selection_active(old(bootstrap)@, route, phase, characters@) && keys.previous == keys.next
            && (old(bootstrap)@.character_select_index matches Some(m) ==> m >= characters@.len())
            ==> (final(bootstrap)@.character_select_index matches Some(i) && i < characters@.len()
            && (forall|j: int| 0 <= j < i ==> !characters@[j].selected) && (characters@[i as int].selected
            || (i == 0 && forall|j: int| 0 <= j < characters@.len() ==> !characters@[j].selected))
            && (keys.enter ==> (r matches Some(name) && name@ == characters@[i as int].name@))),
{
    if route != UiRoute::CharacterSelect || phase != crate::session::SessionPhase::LoggedIn {
        bootstrap.clear_character_select_selection();
        return None;
    }
    if !bootstrap.character_list_ready() {
        bootstrap.clear_character_select_selection();
        return None;
    }
    let len = characters.len();
    if len == 0 {
        bootstrap.clear_character_select_selection();
        return None;
    }
    let mut default_index: usize = 0;
    let mut k: usize = 0;
    while k < len && !characters[k].selected
        invariant
            len == characters@.len(),
            k <= len,
            forall|j: int| 0 <= j < k ==> !characters@[j].selected,
        decreases len - k,
    {
        k = k + 1;
    }
    proof {
        lemma_default_selection(characters@, 0, k as int);
        if keys.previous == keys.next && (bootstrap@.character_select_index matches Some(m)
            ==> m >= len) {
            lemma_selection_starts_at_first_marked(
                bootstrap@.character_select_index,
                characters@,
                keys,
            );
        }
    }
    if k < len {
        default_index = k;
    }
    let current_index = match bootstrap.character_select_index() {
        Some(index) => if index < len {
            index
        } else {
            default_index
        },
        None => default_index,
    };
    bootstrap.set_character_select_index(Some(current_index));
    let direction = character_select_navigation_delta(keys.previous, keys.next);
    let mut index = current_index;
    if direction != 0 {
        index = cycle_character_select_index(current_index, len, direction);
        bootstrap.set_character_select_index(Some(index));
    }
    if keys.enter {
        let name = characters[index].name.clone();
        Some(name)
    } else {
        None
    }
}

// ---------------------------------------------------------------------------
// What the effects amount to

/// The health steps that a party health report gives the first members:
/// one per member that both the report and the roster hold, each capped at
/// ten.
pub open spec fn party_step_hp(info: PartyInfoSnapshot, party_number: int) -> Seq<u8> {
    let limit = if info.count < party_number {
        info.count as int
    } else {
        party_number
    };
    let n = if limit < info.step_hp_values@.len() {
        limit
    } else {
        info.step_hp_values@.len() as int
    };
    Seq::new(
        n as nat,
        |i: int|
            if info.step_hp_values@[i] < 10 {
                info.step_hp_values@[i]
            } else {
                10u8
            },
    )
}

/// The health steps to give the party members `0..`, in order, for a
/// party health report, when the roster holds `party_number` members.
pub fn apply_party_info_snapshot(info: &PartyInfoSnapshot, party_number: usize) -> (r: Vec<u8>)
    ensures
        r@ == party_step_hp(*info, party_number as int),
{
    let count = info.count as usize;
    let limit = if count < party_number {
        count
    } else {
        party_number
    };
    let mut steps: Vec<u8> = Vec::new();
    let mut i: usize = 0;
    while i < limit && i < info.step_hp_values.len()
        invariant
            i <= limit,
            i <= info.step_hp_values@.len(),
            limit == (if info.count < party_number {
                info.count as int
            } else {
                party_number as int
            }),
            steps@.len() == i,
            forall|j: int|
                0 <= j < i ==> #[trigger] steps@[j] == (if info.step_hp_values@[j] < 10 {
                    info.step_hp_values@[j]
                } else {
                    10u8
                }),
        decreases limit - i,
    {
        let v = info.step_hp_values[i];
        steps.push(
            if v < 10 {
                v
            } else {
                10
            },
        );
        i = i + 1;
    }
    assert(steps@ =~= party_step_hp(*info, party_number as int));
    steps
}

/// Where a movement update puts the local player: its target or position,
/// when the update is about the local player (whose key is `local_key`).
pub open spec fn local_player_tile(local_key: Option<u32>, update: MovementUpdate) -> Option<(u8, u8)> {
    match local_key {
        None => None,
        Some(key) => match update {
            MovementUpdate::Character { key: k, target_x, target_y } => if key == k {
                Some((target_x, target_y))
            } else {
                None
            },
            MovementUpdate::Position { key: k, position_x, position_y } => if key == k {
                Some((position_x, position_y))
            } else {
                None
            },
        },
    }
}

/// The tile the local player is to stand on after a movement update, if
/// the update is about the local player.
pub fn apply_movement_update(local_key: Option<u32>, update: MovementUpdate) -> (r: Option<(u8, u8)>)
    ensures
        r == local_player_tile(local_key, update),
{
    let key = match local_key {
        Some(key) => key,
        None => return None,
    };
    match update {
        MovementUpdate::Character { key: k, target_x, target_y } => if key == k as u32 {
            Some((target_x, target_y))
        } else {
            None
        },
        MovementUpdate::Position { key: k, position_x, position_y } => if key == k as u32 {
            Some((position_x, position_y))
        } else {
            None
        },
    }
}

// ---------------------------------------------------------------------------
// What the network worker decides

/// What the worker does when a packet moved the session from its previous
/// last event to the current one: the event it reports to the client (none
/// when nothing changed, and never a logout, which the logout packet
/// reports), and whether it first asks for the character list (after a
/// successful login).
pub open spec fn session_step(
    previous: Option<SessionEvent>,
    current: Option<SessionEvent>,
) -> (Option<SessionEvent>, bool) {
    if current == previous {
        (None, false)
    } else {
        match current {
            None => (None, false),
            Some(SessionEvent::Logout) => (None, false),
            Some(event) => (Some(event), event == SessionEvent::LoginSuccess),
        }
    }
}

pub fn worker_session_step(previous: Option<SessionEvent>, current: Option<SessionEvent>) -> (r: (
    Option<SessionEvent>,
    bool,
))
    ensures
        r == session_step(previous, current),
{
    if current == previous {
        return (None, false);
    }
    match current {
        None => (None, false),
        Some(SessionEvent::Logout) => (None, false),
        Some(event) => (Some(event), event == SessionEvent::LoginSuccess),
    }
}

/// Whether the worker stops after handing a signal over: it stops after
/// an error.
pub fn signal_stops_worker(signal: &BootstrapSignal) -> (r: bool)
    ensures
        r == (*signal is Error),
{
    match signal {
        BootstrapSignal::Error(_) => true,
        _ => false,
    }
}

// ---------------------------------------------------------------------------
// Laws of the signal flow

/// Whether a signal ends the session: a login failure, logout or
/// disconnect event, a logout packet of any kind, or a worker error.
pub open spec fn ends_session(signal: BootstrapSignal) -> bool {
    ||| signal matches BootstrapSignal::Session(SessionEvent::LoginFailure)
    ||| signal matches BootstrapSignal::Session(SessionEvent::Logout)
    ||| signal matches BootstrapSignal::Session(SessionEvent::Disconnect)
    ||| signal is Logout
    ||| signal is Error
}

/// Whenever the session ends, the social rosters and the gens ranking are
/// forgotten, the mailbox is reset and the party roster is cleared.
pub proof fn lemma_session_end_clears_social_state(
    v: BootstrapView,
    s: SessionState,
    route: UiRoute,
    signal: BootstrapSignal,
    world_ready: bool,
)
    requires
        ends_session(signal),
    ensures
        ({
            let o = after_signal(v, s, route, signal, world_ready);
            &&& o.runtime.friend_roster is None
            &&& o.runtime.guild_roster is None
            &&& o.runtime.gens_ranking is None
            &&& o.effects.mail is Reset
            &&& o.effects.party is Clear
        }),
{
}

/// A new login starts from a clean slate: no rosters, no gens ranking, no
/// pending world, no error, the mailbox reset, and the character selection
/// screen shown.
pub proof fn lemma_login_starts_clean(
    v: BootstrapView,
    s: SessionState,
    route: UiRoute,
    world_ready: bool,
)
    ensures
        ({
            let o = after_signal(
                v,
                s,
                route,
                BootstrapSignal::Session(SessionEvent::LoginSuccess),
                world_ready,
            );
            &&& o.runtime.friend_roster is None
            &&& o.runtime.guild_roster is None
            &&& o.runtime.gens_ranking is None
            &&& o.runtime.pending_world_map is None
            &&& o.runtime.last_error is None
            &&& o.runtime.character_create_state == CharacterCreateScreenState::Ready
            &&& o.effects.mail is Reset
            &&& o.route == UiRoute::CharacterSelect
        }),
{
}

/// A character creation that is still being submitted fails when the
/// connection is lost before a world join or the worker reports an error:
/// the creation screen stays, showing the error.
pub proof fn lemma_pending_creation_fails_on_connection_loss(
    v: BootstrapView,
    s: SessionState,
    route: UiRoute,
    signal: BootstrapSignal,
    world_ready: bool,
)
    requires
        v.character_create_state == CharacterCreateScreenState::Submitting,
        v.pending_world_map is None,
        signal matches BootstrapSignal::Session(SessionEvent::Disconnect) || signal is Error,
    ensures
        ({
            let o = after_signal(v, s, route, signal, world_ready);
            &&& o.runtime.character_create_state == CharacterCreateScreenState::Error
            &&& o.route == UiRoute::CharacterCreate
            &&& o.runtime.last_error is Some
        }),
{
}

/// Only session events move the session; every other signal leaves it as
/// it was.
pub proof fn lemma_only_session_events_move_the_session(
    v: BootstrapView,
    s: SessionState,
    route: UiRoute,
    signal: BootstrapSignal,
    world_ready: bool,
)
    requires
        !(signal is Session),
    ensures
        after_signal(v, s, route, signal, world_ready).session == s,
{
}

/// A disconnect while a world join is pending keeps the route, the
/// character selection and the pending world: the join goes on.
pub proof fn lemma_disconnect_during_join_keeps_the_join(
    v: BootstrapView,
    s: SessionState,
    route: UiRoute,
    world_ready: bool,
)
    requires
        v.pending_world_map is Some,
    ensures
        ({
            let o = after_signal(
                v,
                s,
                route,
                BootstrapSignal::Session(SessionEvent::Disconnect),
                world_ready,
            );
            &&& o.route == route
            &&& o.runtime.pending_world_map == v.pending_world_map
            &&& o.runtime.character_select_index == v.character_select_index
            &&& o.runtime.selected_character_name == v.selected_character_name
            &&& o.runtime.last_error == v.last_error
        }),
{
}

/// A movement update changes nothing that the runtime holds; it only asks
/// for the player's position to be updated.
pub proof fn lemma_movement_only_moves(
    v: BootstrapView,
    s: SessionState,
    route: UiRoute,
    update: MovementUpdate,
    world_ready: bool,
)
    ensures
        ({
            let o = after_signal(v, s, route, BootstrapSignal::Movement(update), world_ready);
            &&& o.runtime == v
            &&& o.session == s
            &&& o.route == route
            &&& o.effects.movement == Some(update)
            &&& o.effects.mail is Keep
            &&& o.effects.party is Keep
        }),
{
}

} // verus!
