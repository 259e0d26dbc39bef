//! The control snapshot: the state that the control endpoint reports, and
//! how each command changes it.

use vstd::prelude::*;

use crate::command::{command_name, ControlCommand};
use crate::emblem::{emblem_hex, emblem_hex_chars};
use crate::session::{phase_name, SessionPhase};
use crate::text::{decimal, push_decimal, push_str, string_of};
use crate::ui::{
    friend_screen_name, guild_screen_name, route_slug, siege_screen_name, FriendScreenState,
    GuildScreenState, SiegeScreenState, UiRoute,
};

verus! {

/// The application's top-level state.
#[derive(Debug, Clone, Copy, PartialEq, Eq, Structural)]
pub enum AppState {
    Boot,
    AssetCheckFailed,
    ReadyForLogin,
    Exit,
}

pub open spec fn app_state_name(state: AppState) -> Seq<char> {
    match state {
        AppState::Boot => "boot"@,
        AppState::AssetCheckFailed => "asset-check-failed"@,
        AppState::ReadyForLogin => "ready-for-login"@,
        AppState::Exit => "exit"@,
    }
}

impl AppState {
    pub fn as_str(self) -> (r: &'static str)
        ensures
            r@ == app_state_name(self),
    {
        match self {
            AppState::Boot => "boot",
            AppState::AssetCheckFailed => "asset-check-failed",
            AppState::ReadyForLogin => "ready-for-login",
            AppState::Exit => "exit",
        }
    }
}

/// The route a snapshot starts on.
pub open spec fn start_route(state: AppState) -> UiRoute {
    match state {
        AppState::Boot => UiRoute::Boot,
        AppState::AssetCheckFailed => UiRoute::Error,
        AppState::ReadyForLogin => UiRoute::Login,
        AppState::Exit => UiRoute::Error,
    }
}

/// The session phase a snapshot starts in.
pub open spec fn start_phase(state: AppState) -> SessionPhase {
    match state {
        AppState::Exit => SessionPhase::Disconnected,
        _ => SessionPhase::ReadyForLogin,
    }
}

pub fn initial_ui_route(state: AppState) -> (r: UiRoute)
    ensures
        r == start_route(state),
{
    match state {
        AppState::Boot => UiRoute::Boot,
        AppState::AssetCheckFailed => UiRoute::Error,
        AppState::ReadyForLogin => UiRoute::Login,
        AppState::Exit => UiRoute::Error,
    }
}

pub fn initial_session_phase(state: AppState) -> (r: SessionPhase)
    ensures
        r == start_phase(state),
{
    match state {
        AppState::Exit => SessionPhase::Disconnected,
        _ => SessionPhase::ReadyForLogin,
    }
}

// ---------------------------------------------------------------------------
// What each command does

/// The application state a command moves to; `None` leaves it as it is.
pub open spec fn command_app_state(command: ControlCommand) -> Option<AppState> {
    match command {
        ControlCommand::Boot => Some(AppState::Boot),
        ControlCommand::AssetCheckFailed => Some(AppState::AssetCheckFailed),
        ControlCommand::ReadyForLogin | ControlCommand::ServerSelect | ControlCommand::Options | ControlCommand::CharacterSelect | ControlCommand::CharacterCreate | ControlCommand::CreateCharacter | ControlCommand::Loading | ControlCommand::World | ControlCommand::Chat | ControlCommand::Npc | ControlCommand::Shop | ControlCommand::GameShop | ControlCommand::Trade | ControlCommand::Marketplace | ControlCommand::Party | ControlCommand::Gate | ControlCommand::Siege | ControlCommand::SiegeInactive | ControlCommand::SiegeSoldier | ControlCommand::SiegeCommander | ControlCommand::Events | ControlCommand::Gens | ControlCommand::Friend | ControlCommand::Guild | ControlCommand::FriendAdd | ControlCommand::FriendDelete | ControlCommand::GuildJoin | ControlCommand::GuildCreate | ControlCommand::FriendRoster | ControlCommand::FriendInbox | ControlCommand::FriendCompose | ControlCommand::FriendChatRooms | ControlCommand::GuildSummary | ControlCommand::GuildMembers | ControlCommand::GuildUnion | ControlCommand::GuildNoGuild | ControlCommand::GuildError | ControlCommand::GuildRoleAssign | ControlCommand::GuildFire | ControlCommand::GuildBanUnion | ControlCommand::InventoryUse | ControlCommand::InventoryEquip | ControlCommand::InventoryUnequip | ControlCommand::InventoryMove | ControlCommand::VaultDeposit | ControlCommand::VaultWithdraw | ControlCommand::Duel | ControlCommand::DuelStart | ControlCommand::DuelStop | ControlCommand::DuelChannelJoin | ControlCommand::DuelChannelQuit | ControlCommand::SkillTargeted | ControlCommand::Quests | ControlCommand::MuHelper | ControlCommand::LoginSuccess | ControlCommand::LoginFailure | ControlCommand::SelectCharacter | ControlCommand::LogoutLogin | ControlCommand::LogoutCharacter | ControlCommand::Disconnect => Some(AppState::ReadyForLogin),
        ControlCommand::Exit => Some(AppState::Exit),
        ControlCommand::Ping => None,
    }
}

/// The route a command moves to; `None` leaves it as it is.
pub open spec fn command_route(command: ControlCommand) -> Option<UiRoute> {
    match command {
        ControlCommand::Boot => Some(UiRoute::Boot),
        ControlCommand::AssetCheckFailed | ControlCommand::Exit => Some(UiRoute::Error),
        ControlCommand::ReadyForLogin | ControlCommand::LoginFailure | ControlCommand::LogoutLogin | ControlCommand::Disconnect => Some(UiRoute::Login),
        ControlCommand::ServerSelect => Some(UiRoute::ServerSelect),
        ControlCommand::Options => Some(UiRoute::Options),
        ControlCommand::CharacterSelect | ControlCommand::LoginSuccess | ControlCommand::SelectCharacter | ControlCommand::LogoutCharacter => Some(UiRoute::CharacterSelect),
        ControlCommand::CharacterCreate | ControlCommand::CreateCharacter => Some(UiRoute::CharacterCreate),
        ControlCommand::Loading => Some(UiRoute::Loading),
        ControlCommand::World | ControlCommand::SkillTargeted => Some(UiRoute::World),
        ControlCommand::Chat => Some(UiRoute::Chat),
        ControlCommand::Npc => Some(UiRoute::Npc),
        ControlCommand::Shop => Some(UiRoute::Shop),
        ControlCommand::GameShop => Some(UiRoute::GameShop),
        ControlCommand::Trade => Some(UiRoute::Trade),
        ControlCommand::Marketplace => Some(UiRoute::Marketplace),
        ControlCommand::Party => Some(UiRoute::Party),
        ControlCommand::Gate => Some(UiRoute::Gate),
        ControlCommand::Siege | ControlCommand::SiegeInactive | ControlCommand::SiegeSoldier | ControlCommand::SiegeCommander => Some(UiRoute::Siege),
        ControlCommand::Events => Some(UiRoute::Events),
        ControlCommand::Gens => Some(UiRoute::Hud),
        ControlCommand::Friend | ControlCommand::FriendAdd | ControlCommand::FriendDelete | ControlCommand::FriendRoster | ControlCommand::FriendInbox | ControlCommand::FriendCompose | ControlCommand::FriendChatRooms => Some(UiRoute::Friend),
        ControlCommand::Guild | ControlCommand::GuildJoin | ControlCommand::GuildCreate | ControlCommand::GuildSummary | ControlCommand::GuildMembers | ControlCommand::GuildUnion | ControlCommand::GuildNoGuild | ControlCommand::GuildError | ControlCommand::GuildRoleAssign | ControlCommand::GuildFire | ControlCommand::GuildBanUnion => Some(UiRoute::Guild),
        ControlCommand::InventoryUse | ControlCommand::InventoryEquip | ControlCommand::InventoryUnequip | ControlCommand::InventoryMove | ControlCommand::VaultDeposit | ControlCommand::VaultWithdraw => Some(UiRoute::Inventory),
        ControlCommand::Duel | ControlCommand::DuelStart | ControlCommand::DuelStop | ControlCommand::DuelChannelJoin | ControlCommand::DuelChannelQuit => Some(UiRoute::Duel),
        ControlCommand::Quests => Some(UiRoute::Quests),
        ControlCommand::MuHelper => Some(UiRoute::MuHelper),
        ControlCommand::Ping => None,
    }
}

/// The session phase a command moves to; `None` leaves it as it is.
pub open spec fn command_phase(command: ControlCommand) -> Option<SessionPhase> {
    match command {
        ControlCommand::Boot | ControlCommand::AssetCheckFailed | ControlCommand::ReadyForLogin | ControlCommand::LoginFailure | ControlCommand::LogoutLogin | ControlCommand::LogoutCharacter => Some(SessionPhase::ReadyForLogin),
        ControlCommand::ServerSelect | ControlCommand::Options | ControlCommand::CharacterSelect | ControlCommand::Loading | ControlCommand::World | ControlCommand::Ping => None,
        ControlCommand::CharacterCreate | ControlCommand::CreateCharacter | ControlCommand::Chat | ControlCommand::Npc | ControlCommand::Shop | ControlCommand::GameShop | ControlCommand::Trade | ControlCommand::Marketplace | ControlCommand::Party | ControlCommand::Gate | ControlCommand::Siege | ControlCommand::SiegeInactive | ControlCommand::SiegeSoldier | ControlCommand::SiegeCommander | ControlCommand::Events | ControlCommand::Gens | ControlCommand::Friend | ControlCommand::Guild | ControlCommand::FriendAdd | ControlCommand::FriendDelete | ControlCommand::GuildJoin | ControlCommand::GuildCreate | ControlCommand::FriendRoster | ControlCommand::FriendInbox | ControlCommand::FriendCompose | ControlCommand::FriendChatRooms | ControlCommand::GuildSummary | ControlCommand::GuildMembers | ControlCommand::GuildUnion | ControlCommand::GuildNoGuild | ControlCommand::GuildError | ControlCommand::GuildRoleAssign | ControlCommand::GuildFire | ControlCommand::GuildBanUnion | ControlCommand::InventoryUse | ControlCommand::InventoryEquip | ControlCommand::InventoryUnequip | ControlCommand::InventoryMove | ControlCommand::VaultDeposit | ControlCommand::VaultWithdraw | ControlCommand::Duel | ControlCommand::DuelStart | ControlCommand::DuelStop | ControlCommand::DuelChannelJoin | ControlCommand::DuelChannelQuit | ControlCommand::SkillTargeted | ControlCommand::Quests | ControlCommand::MuHelper | ControlCommand::LoginSuccess | ControlCommand::SelectCharacter => Some(SessionPhase::LoggedIn),
        ControlCommand::Disconnect | ControlCommand::Exit => Some(SessionPhase::Disconnected),
    }
}

/// How a command sets the friend-screen override: `Some(v)` sets it to `v`,
/// `None` leaves it as it is.
pub open spec fn command_friend_screen(command: ControlCommand) -> Option<Option<FriendScreenState>> {
    match command {
        ControlCommand::Friend | ControlCommand::FriendAdd | ControlCommand::FriendDelete => Some(None),
        ControlCommand::FriendRoster => Some(Some(FriendScreenState::Roster)),
        ControlCommand::FriendInbox => Some(Some(FriendScreenState::Inbox)),
        ControlCommand::FriendCompose => Some(Some(FriendScreenState::Compose)),
        ControlCommand::FriendChatRooms => Some(Some(FriendScreenState::ChatRooms)),
        _ => None,
    }
}

/// How a command sets the guild-screen override: `Some(v)` sets it to `v`,
/// `None` leaves it as it is.
pub open spec fn command_guild_screen(command: ControlCommand) -> Option<Option<GuildScreenState>> {
    match command {
        ControlCommand::Guild | ControlCommand::GuildJoin | ControlCommand::GuildCreate => Some(None),
        ControlCommand::GuildSummary => Some(Some(GuildScreenState::Summary)),
        ControlCommand::GuildMembers | ControlCommand::GuildRoleAssign | ControlCommand::GuildFire => Some(
            Some(GuildScreenState::Members),
        ),
        ControlCommand::GuildUnion | ControlCommand::GuildBanUnion => Some(Some(GuildScreenState::Union)),
        ControlCommand::GuildNoGuild => Some(Some(GuildScreenState::NoGuild)),
        ControlCommand::GuildError => Some(Some(GuildScreenState::Error)),
        _ => None,
    }
}

/// The siege-screen override after a command: the siege commands set it,
/// every other command clears it.
pub open spec fn command_siege_screen(command: ControlCommand) -> Option<SiegeScreenState> {
    match command {
        ControlCommand::Siege => Some(SiegeScreenState::Observer),
        ControlCommand::SiegeInactive => Some(SiegeScreenState::Inactive),
        ControlCommand::SiegeSoldier => Some(SiegeScreenState::Soldier),
        ControlCommand::SiegeCommander => Some(SiegeScreenState::Commander),
        _ => None,
    }
}

/// Whether a command asks the endpoint to shut down.
pub open spec fn command_requests_exit(command: ControlCommand) -> bool {
    command == ControlCommand::Exit
}

pub fn app_state_for(command: ControlCommand) -> (r: Option<AppState>)
    ensures
        r == command_app_state(command),
{
    match command {
        ControlCommand::Boot => Some(AppState::Boot),
        ControlCommand::AssetCheckFailed => Some(AppState::AssetCheckFailed),
        ControlCommand::ReadyForLogin | ControlCommand::ServerSelect | ControlCommand::Options | ControlCommand::CharacterSelect | ControlCommand::CharacterCreate | ControlCommand::CreateCharacter | ControlCommand::Loading | ControlCommand::World | ControlCommand::Chat | ControlCommand::Npc | ControlCommand::Shop | ControlCommand::GameShop | ControlCommand::Trade | ControlCommand::Marketplace | ControlCommand::Party | ControlCommand::Gate | ControlCommand::Siege | ControlCommand::SiegeInactive | ControlCommand::SiegeSoldier | ControlCommand::SiegeCommander | ControlCommand::Events | ControlCommand::Gens | ControlCommand::Friend | ControlCommand::Guild | ControlCommand::FriendAdd | ControlCommand::FriendDelete | ControlCommand::GuildJoin | ControlCommand::GuildCreate | ControlCommand::FriendRoster | ControlCommand::FriendInbox | ControlCommand::FriendCompose | ControlCommand::FriendChatRooms | ControlCommand::GuildSummary | ControlCommand::GuildMembers | ControlCommand::GuildUnion | ControlCommand::GuildNoGuild | ControlCommand::GuildError | ControlCommand::GuildRoleAssign | ControlCommand::GuildFire | ControlCommand::GuildBanUnion | ControlCommand::InventoryUse | ControlCommand::InventoryEquip | ControlCommand::InventoryUnequip | ControlCommand::InventoryMove | ControlCommand::VaultDeposit | ControlCommand::VaultWithdraw | ControlCommand::Duel | ControlCommand::DuelStart | ControlCommand::DuelStop | ControlCommand::DuelChannelJoin | ControlCommand::DuelChannelQuit | ControlCommand::SkillTargeted | ControlCommand::Quests | ControlCommand::MuHelper | ControlCommand::LoginSuccess | ControlCommand::LoginFailure | ControlCommand::SelectCharacter | ControlCommand::LogoutLogin | ControlCommand::LogoutCharacter | ControlCommand::Disconnect => Some(AppState::ReadyForLogin),
        ControlCommand::Exit => Some(AppState::Exit),
        ControlCommand::Ping => None,
    }
}

pub fn route_for(command: ControlCommand) -> (r: Option<UiRoute>)
    ensures
        r == command_route(command),
{
    match command {
        ControlCommand::Boot => Some(UiRoute::Boot),
        ControlCommand::AssetCheckFailed | ControlCommand::Exit => Some(UiRoute::Error),
        ControlCommand::ReadyForLogin | ControlCommand::LoginFailure | ControlCommand::LogoutLogin | ControlCommand::Disconnect => Some(UiRoute::Login),
        ControlCommand::ServerSelect => Some(UiRoute::ServerSelect),
        ControlCommand::Options => Some(UiRoute::Options),
        ControlCommand::CharacterSelect | ControlCommand::LoginSuccess | ControlCommand::SelectCharacter | ControlCommand::LogoutCharacter => Some(UiRoute::CharacterSelect),
        ControlCommand::CharacterCreate | ControlCommand::CreateCharacter => Some(UiRoute::CharacterCreate),
        ControlCommand::Loading => Some(UiRoute::Loading),
        ControlCommand::World | ControlCommand::SkillTargeted => Some(UiRoute::World),
        ControlCommand::Chat => Some(UiRoute::Chat),
        ControlCommand::Npc => Some(UiRoute::Npc),
        ControlCommand::Shop => Some(UiRoute::Shop),
        ControlCommand::GameShop => Some(UiRoute::GameShop),
        ControlCommand::Trade => Some(UiRoute::Trade),
        ControlCommand::Marketplace => Some(UiRoute::Marketplace),
        ControlCommand::Party => Some(UiRoute::Party),
        ControlCommand::Gate => Some(UiRoute::Gate),
        ControlCommand::Siege | ControlCommand::SiegeInactive | ControlCommand::SiegeSoldier | ControlCommand::SiegeCommander => Some(UiRoute::Siege),
        ControlCommand::Events => Some(UiRoute::Events),
        ControlCommand::Gens => Some(UiRoute::Hud),
        ControlCommand::Friend | ControlCommand::FriendAdd | ControlCommand::FriendDelete | ControlCommand::FriendRoster | ControlCommand::FriendInbox | ControlCommand::FriendCompose | ControlCommand::FriendChatRooms => Some(UiRoute::Friend),
        ControlCommand::Guild | ControlCommand::GuildJoin | ControlCommand::GuildCreate | ControlCommand::GuildSummary | ControlCommand::GuildMembers | ControlCommand::GuildUnion | ControlCommand::GuildNoGuild | ControlCommand::GuildError | ControlCommand::GuildRoleAssign | ControlCommand::GuildFire | ControlCommand::GuildBanUnion => Some(UiRoute::Guild),
        ControlCommand::InventoryUse | ControlCommand::InventoryEquip | ControlCommand::InventoryUnequip | ControlCommand::InventoryMove | ControlCommand::VaultDeposit | ControlCommand::VaultWithdraw => Some(UiRoute::Inventory),
        ControlCommand::Duel | ControlCommand::DuelStart | ControlCommand::DuelStop | ControlCommand::DuelChannelJoin | ControlCommand::DuelChannelQuit => Some(UiRoute::Duel),
        ControlCommand::Quests => Some(UiRoute::Quests),
        ControlCommand::MuHelper => Some(UiRoute::MuHelper),
        ControlCommand::Ping => None,
    }
}

pub fn phase_for(command: ControlCommand) -> (r: Option<SessionPhase>)
    ensures
        r == command_phase(command),
{
    match command {
        ControlCommand::Boot | ControlCommand::AssetCheckFailed | ControlCommand::ReadyForLogin | ControlCommand::LoginFailure | ControlCommand::LogoutLogin | ControlCommand::LogoutCharacter => Some(SessionPhase::ReadyForLogin),
        ControlCommand::ServerSelect | ControlCommand::Options | ControlCommand::CharacterSelect | ControlCommand::Loading | ControlCommand::World | ControlCommand::Ping => None,
        ControlCommand::CharacterCreate | ControlCommand::CreateCharacter | ControlCommand::Chat | ControlCommand::Npc | ControlCommand::Shop | ControlCommand::GameShop | ControlCommand::Trade | ControlCommand::Marketplace | ControlCommand::Party | ControlCommand::Gate | ControlCommand::Siege | ControlCommand::SiegeInactive | ControlCommand::SiegeSoldier | ControlCommand::SiegeCommander | ControlCommand::Events | ControlCommand::Gens | ControlCommand::Friend | ControlCommand::Guild | ControlCommand::FriendAdd | ControlCommand::FriendDelete | ControlCommand::GuildJoin | ControlCommand::GuildCreate | ControlCommand::FriendRoster | ControlCommand::FriendInbox | ControlCommand::FriendCompose | ControlCommand::FriendChatRooms | ControlCommand::GuildSummary | ControlCommand::GuildMembers | ControlCommand::GuildUnion | ControlCommand::GuildNoGuild | ControlCommand::GuildError | ControlCommand::GuildRoleAssign | ControlCommand::GuildFire | ControlCommand::GuildBanUnion | ControlCommand::InventoryUse | ControlCommand::InventoryEquip | ControlCommand::InventoryUnequip | ControlCommand::InventoryMove | ControlCommand::VaultDeposit | ControlCommand::VaultWithdraw | ControlCommand::Duel | ControlCommand::DuelStart | ControlCommand::DuelStop | ControlCommand::DuelChannelJoin | ControlCommand::DuelChannelQuit | ControlCommand::SkillTargeted | ControlCommand::Quests | ControlCommand::MuHelper | ControlCommand::LoginSuccess | ControlCommand::SelectCharacter => Some(SessionPhase::LoggedIn),
        ControlCommand::Disconnect | ControlCommand::Exit => Some(SessionPhase::Disconnected),
    }
}

pub fn friend_screen_for(command: ControlCommand) -> (r: Option<Option<FriendScreenState>>)
    ensures
        r == command_friend_screen(command),
{
    match command {
        ControlCommand::Friend | ControlCommand::FriendAdd | ControlCommand::FriendDelete => Some(None),
        ControlCommand::FriendRoster => Some(Some(FriendScreenState::Roster)),
        ControlCommand::FriendInbox => Some(Some(FriendScreenState::Inbox)),
        ControlCommand::FriendCompose => Some(Some(FriendScreenState::Compose)),
        ControlCommand::FriendChatRooms => Some(Some(FriendScreenState::ChatRooms)),
        _ => None,
    }
}

pub fn guild_screen_for(command: ControlCommand) -> (r: Option<Option<GuildScreenState>>)
    ensures
        r == command_guild_screen(command),
{
    match command {
        ControlCommand::Guild | ControlCommand::GuildJoin | ControlCommand::GuildCreate => Some(None),
        ControlCommand::GuildSummary => Some(Some(GuildScreenState::Summary)),
        ControlCommand::GuildMembers | ControlCommand::GuildRoleAssign | ControlCommand::GuildFire => Some(
            Some(GuildScreenState::Members),
        ),
        ControlCommand::GuildUnion | ControlCommand::GuildBanUnion => Some(Some(GuildScreenState::Union)),
        ControlCommand::GuildNoGuild => Some(Some(GuildScreenState::NoGuild)),
        ControlCommand::GuildError => Some(Some(GuildScreenState::Error)),
        _ => None,
    }
}

pub fn siege_screen_for(command: ControlCommand) -> (r: Option<SiegeScreenState>)
    ensures
        r == command_siege_screen(command),
{
    match command {
        ControlCommand::Siege => Some(SiegeScreenState::Observer),
        ControlCommand::SiegeInactive => Some(SiegeScreenState::Inactive),
        ControlCommand::SiegeSoldier => Some(SiegeScreenState::Soldier),
        ControlCommand::SiegeCommander => Some(SiegeScreenState::Commander),
        _ => None,
    }
}

// ---------------------------------------------------------------------------
// The snapshot and its abstract view

/// The control snapshot seen as values: strings as character sequences and
/// the emblem as a byte sequence.
#[verifier::ext_equal]
pub struct SnapshotView {
    pub state: AppState,
    pub ui_route: UiRoute,
    pub session_phase: SessionPhase,
    pub last_command: Option<ControlCommand>,
    pub selected_character_name: Option<Seq<char>>,
    pub friend_name: Option<Seq<char>>,
    pub guild_master_player_id: Option<u16>,
    pub guild_player_name: Option<Seq<char>>,
    pub guild_create_name: Option<Seq<char>>,
    pub guild_create_emblem: Option<Seq<u8>>,
    pub duel_player_id: Option<u16>,
    pub duel_player_name: Option<Seq<char>>,
    pub duel_channel_id: Option<u8>,
    pub skill_id: Option<u16>,
    pub skill_target_id: Option<u16>,
    pub guild_role: Option<u8>,
    pub guild_assignment_type: Option<u8>,
    pub guild_security_code: Option<Seq<char>>,
    pub guild_union_name: Option<Seq<char>>,
    pub siege_screen_state: Option<SiegeScreenState>,
    pub inventory_use_slot: Option<u8>,
    pub inventory_use_target: Option<u8>,
    pub inventory_use_add_points: Option<bool>,
    pub inventory_equip_slot: Option<u8>,
    pub inventory_unequip_slot: Option<u8>,
    pub inventory_move_from_slot: Option<u8>,
    pub inventory_move_to_slot: Option<u8>,
    pub friend_screen_state: Option<FriendScreenState>,
    pub guild_screen_state: Option<GuildScreenState>,
    pub vault_money_amount: Option<u32>,
    pub command_count: u64,
}

pub open spec fn opt_text(o: Option<String>) -> Option<Seq<char>> {
    match o {
        Some(s) => Some(s@),
        None => None,
    }
}

pub open spec fn opt_emblem(o: Option<[u8; 32]>) -> Option<Seq<u8>> {
    match o {
        Some(e) => Some(e@),
        None => None,
    }
}

/// Everything the control endpoint reports and the last payload of each
/// command that carries one.
#[derive(Debug, Clone, PartialEq, Eq)]
pub struct ControlSnapshot {
    pub state: AppState,
    pub ui_route: UiRoute,
    pub session_phase: SessionPhase,
    pub last_command: Option<ControlCommand>,
    pub selected_character_name: Option<String>,
    pub friend_name: Option<String>,
    pub guild_master_player_id: Option<u16>,
    pub guild_player_name: Option<String>,
    pub guild_create_name: Option<String>,
    pub guild_create_emblem: Option<[u8; 32]>,
    pub duel_player_id: Option<u16>,
    pub duel_player_name: Option<String>,
    pub duel_channel_id: Option<u8>,
    pub skill_id: Option<u16>,
    pub skill_target_id: Option<u16>,
    pub guild_role: Option<u8>,
    pub guild_assignment_type: Option<u8>,
    pub guild_security_code: Option<String>,
    pub guild_union_name: Option<String>,
    pub siege_screen_state: Option<SiegeScreenState>,
    pub inventory_use_slot: Option<u8>,
    pub inventory_use_target: Option<u8>,
    pub inventory_use_add_points: Option<bool>,
    pub inventory_equip_slot: Option<u8>,
    pub inventory_unequip_slot: Option<u8>,
    pub inventory_move_from_slot: Option<u8>,
    pub inventory_move_to_slot: Option<u8>,
    pub friend_screen_state: Option<FriendScreenState>,
    pub guild_screen_state: Option<GuildScreenState>,
    pub vault_money_amount: Option<u32>,
    pub command_count: u64,
}

impl View for ControlSnapshot {
    type V = SnapshotView;

    open spec fn view(&self) -> SnapshotView {
        SnapshotView {
            state: self.state,
            ui_route: self.ui_route,
            session_phase: self.session_phase,
            last_command: self.last_command,
            selected_character_name: opt_text(self.selected_character_name),
            friend_name: opt_text(self.friend_name),
            guild_master_player_id: self.guild_master_player_id,
            guild_player_name: opt_text(self.guild_player_name),
            guild_create_name: opt_text(self.guild_create_name),
            guild_create_emblem: opt_emblem(self.guild_create_emblem),
            duel_player_id: self.duel_player_id,
            duel_player_name: opt_text(self.duel_player_name),
            duel_channel_id: self.duel_channel_id,
            skill_id: self.skill_id,
            skill_target_id: self.skill_target_id,
            guild_role: self.guild_role,
            guild_assignment_type: self.guild_assignment_type,
            guild_security_code: opt_text(self.guild_security_code),
            guild_union_name: opt_text(self.guild_union_name),
            siege_screen_state: self.siege_screen_state,
            inventory_use_slot: self.inventory_use_slot,
            inventory_use_target: self.inventory_use_target,
            inventory_use_add_points: self.inventory_use_add_points,
            inventory_equip_slot: self.inventory_equip_slot,
            inventory_unequip_slot: self.inventory_unequip_slot,
            inventory_move_from_slot: self.inventory_move_from_slot,
            inventory_move_to_slot: self.inventory_move_to_slot,
            friend_screen_state: self.friend_screen_state,
            guild_screen_state: self.guild_screen_state,
            vault_money_amount: self.vault_money_amount,
            command_count: self.command_count,
        }
    }
}

/// A fresh snapshot for the given application state: on that state's start
/// route and phase, with no command and no payload seen.
pub open spec fn fresh_snapshot(state: AppState) -> SnapshotView {
    SnapshotView {
        state: state,
        ui_route: start_route(state),
        session_phase: start_phase(state),
        last_command: None,
        selected_character_name: None,
        friend_name: None,
        guild_master_player_id: None,
        guild_player_name: None,
        guild_create_name: None,
        guild_create_emblem: None,
        duel_player_id: None,
        duel_player_name: None,
        duel_channel_id: None,
        skill_id: None,
        skill_target_id: None,
        guild_role: None,
        guild_assignment_type: None,
        guild_security_code: None,
        guild_union_name: None,
        siege_screen_state: None,
        inventory_use_slot: None,
        inventory_use_target: None,
        inventory_use_add_points: None,
        inventory_equip_slot: None,
        inventory_unequip_slot: None,
        inventory_move_from_slot: None,
        inventory_move_to_slot: None,
        friend_screen_state: None,
        guild_screen_state: None,
        vault_money_amount: None,
        command_count: 0,
    }
}

/// The command counter after one more command; it stops at its maximum.
pub open spec fn count_after(count: u64) -> u64 {
    if count == u64::MAX {
        count
    } else {
        (count + 1) as u64
    }
}

/// The snapshot after `command` has been applied to `s`.
pub open spec fn applied(s: SnapshotView, command: ControlCommand) -> SnapshotView {
    SnapshotView {
        state: match command_app_state(command) {
            Some(a) => a,
            None => s.state,
        },
        ui_route: match command_route(command) {
            Some(r) => r,
            None => s.ui_route,
        },
        session_phase: match command_phase(command) {
            Some(p) => p,
            None => s.session_phase,
        },
        last_command: Some(command),
        selected_character_name: if command == ControlCommand::CharacterCreate {
            None
        } else {
            s.selected_character_name
        },
        duel_channel_id: if command == ControlCommand::DuelChannelQuit {
            None
        } else {
            s.duel_channel_id
        },
        siege_screen_state: command_siege_screen(command),
        friend_screen_state: match command_friend_screen(command) {
            Some(v) => v,
            None => s.friend_screen_state,
        },
        guild_screen_state: match command_guild_screen(command) {
            Some(v) => v,
            None => s.guild_screen_state,
        },
        command_count: count_after(s.command_count),
        ..s
    }
}

impl ControlSnapshot {
    pub fn new(state: AppState) -> (r: Self)
        ensures
            r@ == fresh_snapshot(state),
    {
        ControlSnapshot {
            state,
            ui_route: initial_ui_route(state),
            session_phase: initial_session_phase(state),
            last_command: None,
            selected_character_name: None,
            friend_name: None,
            guild_master_player_id: None,
            guild_player_name: None,
            guild_create_name: None,
            guild_create_emblem: None,
            duel_player_id: None,
            duel_player_name: None,
            duel_channel_id: None,
            skill_id: None,
            skill_target_id: None,
            guild_role: None,
            guild_assignment_type: None,
            guild_security_code: None,
            guild_union_name: None,
            siege_screen_state: None,
            inventory_use_slot: None,
            inventory_use_target: None,
            inventory_use_add_points: None,
            inventory_equip_slot: None,
            inventory_unequip_slot: None,
            inventory_move_from_slot: None,
            inventory_move_to_slot: None,
            friend_screen_state: None,
            guild_screen_state: None,
            vault_money_amount: None,
            command_count: 0,
        }
    }

    /// Takes over the route and the session phase that the client shows.
    pub fn sync_from_runtime(&mut self, ui_route: UiRoute, session_phase: SessionPhase)
        ensures
            final(self)@ == (SnapshotView { ui_route, session_phase, ..old(self)@ }),
    {
        self.ui_route = ui_route;
        self.session_phase = session_phase;
        assert(self@ =~= (SnapshotView { ui_route, session_phase, ..old(self)@ }));
    }

    /// Records `command` and moves the snapshot to the route, phase and
    /// screen overrides that it names; tells whether it asks for shutdown.
    pub fn apply_command(&mut self, command: ControlCommand) -> (shutdown: bool)
        ensures
            final(self)@ == applied(old(self)@, command),
            shutdown == command_requests_exit(command),
            command == ControlCommand::Disconnect || command == ControlCommand::Exit
                ==> final(self).session_phase == SessionPhase::Disconnected,
            command == ControlCommand::LoginSuccess ==> final(self).session_phase
                == SessionPhase::LoggedIn,
    {
        self.last_command = Some(command);
        self.command_count = self.command_count.saturating_add(1);
        self.siege_screen_state = siege_screen_for(command);
        if let Some(state) = app_state_for(command) {
            self.state = state;
        }
        if let Some(route) = route_for(command) {
            self.ui_route = route;
        }
        if let Some(phase) = phase_for(command) {
            self.session_phase = phase;
        }
        if let Some(screen) = friend_screen_for(command) {
            self.friend_screen_state = screen;
        }
        if let Some(screen) = guild_screen_for(command) {
            self.guild_screen_state = screen;
        }
        if command == ControlCommand::CharacterCreate {
            self.selected_character_name = None;
        }
        if command == ControlCommand::DuelChannelQuit {
            self.duel_channel_id = None;
        }
        assert(self@ =~= applied(old(self)@, command));
        command == ControlCommand::Exit
    }
}

/// The session phase that a command leaves behind, whatever the snapshot
/// was: a disconnect or an exit leaves the session disconnected; a login
/// failure or a logout leaves it ready for the next login; a successful
/// login or entering any in-game screen leaves it logged in; a ping leaves
/// it as it was.
pub proof fn lemma_command_session_phase(s: SnapshotView, command: ControlCommand)
    ensures
        command == ControlCommand::Disconnect || command == ControlCommand::Exit ==> applied(
            s,
            command,
        ).session_phase == SessionPhase::Disconnected,
        command == ControlCommand::LoginFailure || command == ControlCommand::LogoutLogin
            || command == ControlCommand::LogoutCharacter ==> applied(s, command).session_phase
            == SessionPhase::ReadyForLogin,
        command == ControlCommand::LoginSuccess || command == ControlCommand::Chat || command
            == ControlCommand::DuelChannelJoin || command == ControlCommand::SelectCharacter
            ==> applied(s, command).session_phase == SessionPhase::LoggedIn,
        command == ControlCommand::Ping ==> applied(s, command).session_phase == s.session_phase,
{
}

/// Applying the same command a second time changes nothing but the command
/// counter: what a command does depends on the command alone.
pub proof fn lemma_repeated_command_changes_only_the_counter(s: SnapshotView, command: ControlCommand)
    ensures
        applied(applied(s, command), command) == (SnapshotView {
            command_count: count_after(applied(s, command).command_count),
            ..applied(s, command)
        }),
{
    assert(applied(applied(s, command), command) =~= (SnapshotView {
        command_count: count_after(applied(s, command).command_count),
        ..applied(s, command)
    }));
}

/// Only the siege commands leave a siege-screen override behind, and a
/// command never touches the payload fields that it does not own.
pub proof fn lemma_command_keeps_payloads(s: SnapshotView, command: ControlCommand)
    ensures
        (applied(s, command).siege_screen_state is Some) == (command == ControlCommand::Siege
            || command == ControlCommand::SiegeInactive || command == ControlCommand::SiegeSoldier
            || command == ControlCommand::SiegeCommander),
        applied(s, command).friend_name == s.friend_name,
        applied(s, command).guild_master_player_id == s.guild_master_player_id,
        applied(s, command).guild_create_emblem == s.guild_create_emblem,
        applied(s, command).vault_money_amount == s.vault_money_amount,
        applied(s, command).inventory_move_from_slot == s.inventory_move_from_slot,
        applied(s, command).inventory_move_to_slot == s.inventory_move_to_slot,
        command != ControlCommand::CharacterCreate ==> applied(s, command).selected_character_name
            == s.selected_character_name,
{
}

// ---------------------------------------------------------------------------
// JSON rendering

/// A JSON string holding the text as it is, or `null`.
pub open spec fn json_text(o: Option<Seq<char>>) -> Seq<char> {
    match o {
        Some(t) => "\""@ + t + "\""@,
        None => "null"@,
    }
}

/// A JSON number, or `null`.
pub open spec fn json_number(o: Option<int>) -> Seq<char> {
    match o {
        Some(n) => decimal(n as nat),
        None => "null"@,
    }
}

/// A JSON boolean, or `null`.
pub open spec fn json_flag(o: Option<bool>) -> Seq<char> {
    match o {
        Some(true) => "true"@,
        Some(false) => "false"@,
        None => "null"@,
    }
}

pub open spec fn wide8(o: Option<u8>) -> Option<int> {
    match o {
        Some(x) => Some(x as int),
        None => None,
    }
}

pub open spec fn wide16(o: Option<u16>) -> Option<int> {
    match o {
        Some(x) => Some(x as int),
        None => None,
    }
}

pub open spec fn wide32(o: Option<u32>) -> Option<int> {
    match o {
        Some(x) => Some(x as int),
        None => None,
    }
}

pub open spec fn command_text(o: Option<ControlCommand>) -> Option<Seq<char>> {
    match o {
        Some(c) => Some(command_name(c)),
        None => None,
    }
}

pub open spec fn emblem_text(o: Option<Seq<u8>>) -> Option<Seq<char>> {
    match o {
        Some(e) => Some(emblem_hex(e)),
        None => None,
    }
}

pub open spec fn friend_screen_text(o: Option<FriendScreenState>) -> Option<Seq<char>> {
    match o {
        Some(v) => Some(friend_screen_name(v)),
        None => None,
    }
}

pub open spec fn guild_screen_text(o: Option<GuildScreenState>) -> Option<Seq<char>> {
    match o {
        Some(v) => Some(guild_screen_name(v)),
        None => None,
    }
}

pub open spec fn siege_screen_text(o: Option<SiegeScreenState>) -> Option<Seq<char>> {
    match o {
        Some(v) => Some(siege_screen_name(v)),
        None => None,
    }
}

/// The JSON object that reports a snapshot, with its fields in a fixed
/// order and no white space.
pub open spec fn snapshot_json(s: SnapshotView) -> Seq<char> {
    "{\"state\":\""@ + app_state_name(s.state) + "\",\"ui_route\":\""@ + route_slug(s.ui_route)
        + "\",\"session_phase\":\""@ + phase_name(s.session_phase) + "\",\"last_command\":"@
        + json_text(command_text(s.last_command)) + ",\"selected_character_name\":"@ + json_text(
        s.selected_character_name,
    ) + ",\"friend_name\":"@ + json_text(s.friend_name) + ",\"guild_master_player_id\":"@
        + json_number(wide16(s.guild_master_player_id)) + ",\"guild_player_name\":"@ + json_text(
        s.guild_player_name,
    ) + ",\"guild_create_name\":"@ + json_text(s.guild_create_name) + ",\"guild_create_emblem\":"@
        + json_text(emblem_text(s.guild_create_emblem)) + ",\"duel_player_id\":"@ + json_number(
        wide16(s.duel_player_id),
    ) + ",\"duel_player_name\":"@ + json_text(s.duel_player_name) + ",\"duel_channel_id\":"@
        + json_number(wide8(s.duel_channel_id)) + ",\"skill_id\":"@ + json_number(wide16(s.skill_id))
        + ",\"skill_target_id\":"@ + json_number(wide16(s.skill_target_id)) + ",\"guild_role\":"@
        + json_number(wide8(s.guild_role)) + ",\"guild_assignment_type\":"@ + json_number(
        wide8(s.guild_assignment_type),
    ) + ",\"guild_security_code\":"@ + json_text(s.guild_security_code) + ",\"guild_union_name\":"@
        + json_text(s.guild_union_name) + ",\"inventory_use_slot\":"@ + json_number(
        wide8(s.inventory_use_slot),
    ) + ",\"inventory_use_target\":"@ + json_number(wide8(s.inventory_use_target))
        + ",\"inventory_use_add_points\":"@ + json_flag(s.inventory_use_add_points)
        + ",\"inventory_equip_slot\":"@ + json_number(wide8(s.inventory_equip_slot))
        + ",\"inventory_unequip_slot\":"@ + json_number(wide8(s.inventory_unequip_slot))
        + ",\"friend_screen_state\":"@ + json_text(friend_screen_text(s.friend_screen_state))
        + ",\"guild_screen_state\":"@ + json_text(guild_screen_text(s.guild_screen_state))
        + ",\"siege_screen_state\":"@ + json_text(siege_screen_text(s.siege_screen_state))
        + ",\"vault_money_amount\":"@ + json_number(wide32(s.vault_money_amount))
        + ",\"inventory_move_from_slot\":"@ + json_number(wide8(s.inventory_move_from_slot))
        + ",\"inventory_move_to_slot\":"@ + json_number(wide8(s.inventory_move_to_slot))
        + ",\"command_count\":"@ + decimal(s.command_count as nat) + "}"@
}

fn push_json_text(out: &mut Vec<char>, o: Option<&str>)
    ensures
        final(out)@ == old(out)@ + json_text(
            match o {
                Some(t) => Some(t@),
                None => None,
            },
        ),
{
    match o {
        Some(t) => {
            push_str(out, "\"");
            push_str(out, t);
            push_str(out, "\"");
        },
        None => {
            push_str(out, "null");
        },
    }
}

fn push_json_string(out: &mut Vec<char>, o: &Option<String>)
    ensures
        final(out)@ == old(out)@ + json_text(opt_text(*o)),
{
    match o {
        Some(t) => push_json_text(out, Some(t.as_str())),
        None => push_json_text(out, None),
    }
}

fn push_json_u64(out: &mut Vec<char>, o: Option<u64>)
    ensures
        final(out)@ == old(out)@ + json_number(
            match o {
                Some(x) => Some(x as int),
                None => None,
            },
        ),
{
    match o {
        Some(x) => push_decimal(out, x),
        None => push_str(out, "null"),
    }
}

fn push_json_u8(out: &mut Vec<char>, o: Option<u8>)
    ensures
        final(out)@ == old(out)@ + json_number(wide8(o)),
{
    match o {
        Some(x) => push_json_u64(out, Some(x as u64)),
        None => push_json_u64(out, None),
    }
}

fn push_json_u16(out: &mut Vec<char>, o: Option<u16>)
    ensures
        final(out)@ == old(out)@ + json_number(wide16(o)),
{
    match o {
        Some(x) => push_json_u64(out, Some(x as u64)),
        None => push_json_u64(out, None),
    }
}

fn push_json_u32(out: &mut Vec<char>, o: Option<u32>)
    ensures
        final(out)@ == old(out)@ + json_number(wide32(o)),
{
    match o {
        Some(x) => push_json_u64(out, Some(x as u64)),
        None => push_json_u64(out, None),
    }
}

fn push_json_flag(out: &mut Vec<char>, o: Option<bool>)
    ensures
        final(out)@ == old(out)@ + json_flag(o),
{
    match o {
        Some(true) => push_str(out, "true"),
        Some(false) => push_str(out, "false"),
        None => push_str(out, "null"),
    }
}

impl ControlSnapshot {
    /// The snapshot as a JSON object.
    #[verifier::rlimit(40)]
    pub fn to_json(&self) -> (r: String)
        ensures
            r@ == snapshot_json(self@),
    {
        let mut out: Vec<char> = Vec::new();
        push_str(&mut out, "{\"state\":\"");
        assert(out@ =~= "{\"state\":\""@);
        push_str(&mut out, self.state.as_str());
        push_str(&mut out, "\",\"ui_route\":\"");
        push_str(&mut out, self.ui_route.slug());
        push_str(&mut out, "\",\"session_phase\":\"");
        push_str(&mut out, self.session_phase.as_str());
        push_str(&mut out, "\",\"last_command\":");
        match self.last_command {
            Some(c) => push_json_text(&mut out, Some(c.as_str())),
            None => push_json_text(&mut out, None),
        }
        push_str(&mut out, ",\"selected_character_name\":");
        push_json_string(&mut out, &self.selected_character_name);
        push_str(&mut out, ",\"friend_name\":");
        push_json_string(&mut out, &self.friend_name);
        push_str(&mut out, ",\"guild_master_player_id\":");
        push_json_u16(&mut out, self.guild_master_player_id);
        push_str(&mut out, ",\"guild_player_name\":");
        push_json_string(&mut out, &self.guild_player_name);
        push_str(&mut out, ",\"guild_create_name\":");
        push_json_string(&mut out, &self.guild_create_name);
        push_str(&mut out, ",\"guild_create_emblem\":");
        match &self.guild_create_emblem {
            Some(e) => {
                let hex = emblem_hex_chars(e);
                let hex_text = string_of(&hex);
                push_json_text(&mut out, Some(hex_text.as_str()));
            },
            None => push_json_text(&mut out, None),
        }
        push_str(&mut out, ",\"duel_player_id\":");
        push_json_u16(&mut out, self.duel_player_id);
        push_str(&mut out, ",\"duel_player_name\":");
        push_json_string(&mut out, &self.duel_player_name);
        push_str(&mut out, ",\"duel_channel_id\":");
        push_json_u8(&mut out, self.duel_channel_id);
        push_str(&mut out, ",\"skill_id\":");
        push_json_u16(&mut out, self.skill_id);
        push_str(&mut out, ",\"skill_target_id\":");
        push_json_u16(&mut out, self.skill_target_id);
        push_str(&mut out, ",\"guild_role\":");
        push_json_u8(&mut out, self.guild_role);
        push_str(&mut out, ",\"guild_assignment_type\":");
        push_json_u8(&mut out, self.guild_assignment_type);
        push_str(&mut out, ",\"guild_security_code\":");
        push_json_string(&mut out, &self.guild_security_code);
        push_str(&mut out, ",\"guild_union_name\":");
        push_json_string(&mut out, &self.guild_union_name);
        push_str(&mut out, ",\"inventory_use_slot\":");
        push_json_u8(&mut out, self.inventory_use_slot);
        push_str(&mut out, ",\"inventory_use_target\":");
        push_json_u8(&mut out, self.inventory_use_target);
        push_str(&mut out, ",\"inventory_use_add_points\":");
        push_json_flag(&mut out, self.inventory_use_add_points);
        push_str(&mut out, ",\"inventory_equip_slot\":");
        push_json_u8(&mut out, self.inventory_equip_slot);
        push_str(&mut out, ",\"inventory_unequip_slot\":");
        push_json_u8(&mut out, self.inventory_unequip_slot);
        push_str(&mut out, ",\"friend_screen_state\":");
        match self.friend_screen_state {
            Some(v) => push_json_text(&mut out, Some(v.as_str())),
            None => push_json_text(&mut out, None),
        }
        push_str(&mut out, ",\"guild_screen_state\":");
        match self.guild_screen_state {
            Some(v) => push_json_text(&mut out, Some(v.as_str())),
            None => push_json_text(&mut out, None),
        }
        push_str(&mut out, ",\"siege_screen_state\":");
        match self.siege_screen_state {
            Some(v) => push_json_text(&mut out, Some(v.as_str())),
            None => push_json_text(&mut out, None),
        }
        push_str(&mut out, ",\"vault_money_amount\":");
        push_json_u32(&mut out, self.vault_money_amount);
        push_str(&mut out, ",\"inventory_move_from_slot\":");
        push_json_u8(&mut out, self.inventory_move_from_slot);
        push_str(&mut out, ",\"inventory_move_to_slot\":");
        push_json_u8(&mut out, self.inventory_move_to_slot);
        push_str(&mut out, ",\"command_count\":");
        push_decimal(&mut out, self.command_count);
        push_str(&mut out, "}");
        string_of(&out)
    }
}

} // verus!
