//! The control endpoint's commands: their names, their aliases, and how a
//! name is read back into a command.

use vstd::prelude::*;

use crate::text::{chars_eq_str, chars_of, is_space, lower, normalize, normalized, trim_end, trim_start};

verus! {

/// A command that the control endpoint accepts.
#[derive(Debug, Clone, Copy, PartialEq, Eq, Structural)]
pub enum ControlCommand {
    Boot,
    AssetCheckFailed,
    ReadyForLogin,
    ServerSelect,
    Options,
    CharacterSelect,
    CharacterCreate,
    CreateCharacter,
    Loading,
    World,
    Chat,
    Npc,
    Shop,
    GameShop,
    Trade,
    Marketplace,
    Party,
    Gate,
    Siege,
    SiegeInactive,
    SiegeSoldier,
    SiegeCommander,
    Events,
    Gens,
    Friend,
    Guild,
    FriendAdd,
    FriendDelete,
    GuildJoin,
    GuildCreate,
    FriendRoster,
    FriendInbox,
    FriendCompose,
    FriendChatRooms,
    GuildSummary,
    GuildMembers,
    GuildUnion,
    GuildNoGuild,
    GuildError,
    GuildRoleAssign,
    GuildFire,
    GuildBanUnion,
    InventoryUse,
    InventoryEquip,
    InventoryUnequip,
    InventoryMove,
    VaultDeposit,
    VaultWithdraw,
    Duel,
    DuelStart,
    DuelStop,
    DuelChannelJoin,
    DuelChannelQuit,
    SkillTargeted,
    Quests,
    MuHelper,
    LoginSuccess,
    LoginFailure,
    SelectCharacter,
    LogoutLogin,
    LogoutCharacter,
    Disconnect,
    Exit,
    Ping,
}

/// The canonical name of a command.
pub open spec fn command_name(command: ControlCommand) -> Seq<char> {
    match command {
        ControlCommand::Boot => "boot"@,
        ControlCommand::AssetCheckFailed => "asset-check-failed"@,
        ControlCommand::ReadyForLogin => "ready-for-login"@,
        ControlCommand::ServerSelect => "server-select"@,
        ControlCommand::Options => "options"@,
        ControlCommand::CharacterSelect => "character-select"@,
        ControlCommand::CharacterCreate => "character-create"@,
        ControlCommand::CreateCharacter => "create-character"@,
        ControlCommand::Loading => "loading"@,
        ControlCommand::World => "world"@,
        ControlCommand::Chat => "chat"@,
        ControlCommand::Npc => "npc"@,
        ControlCommand::Shop => "shop"@,
        ControlCommand::GameShop => "game-shop"@,
        ControlCommand::Trade => "trade"@,
        ControlCommand::Marketplace => "marketplace"@,
        ControlCommand::Party => "party"@,
        ControlCommand::Gate => "gate"@,
        ControlCommand::Siege => "siege"@,
        ControlCommand::SiegeInactive => "siege-inactive"@,
        ControlCommand::SiegeSoldier => "siege-soldier"@,
        ControlCommand::SiegeCommander => "siege-commander"@,
        ControlCommand::Events => "events"@,
        ControlCommand::Gens => "gens"@,
        ControlCommand::Friend => "friend"@,
        ControlCommand::Guild => "guild"@,
        ControlCommand::FriendAdd => "friend-add"@,
        ControlCommand::FriendDelete => "friend-delete"@,
        ControlCommand::GuildJoin => "guild-join"@,
        ControlCommand::GuildCreate => "guild-create"@,
        ControlCommand::FriendRoster => "friend-roster"@,
        ControlCommand::FriendInbox => "friend-inbox"@,
        ControlCommand::FriendCompose => "friend-compose"@,
        ControlCommand::FriendChatRooms => "friend-chat-rooms"@,
        ControlCommand::GuildSummary => "guild-summary"@,
        ControlCommand::GuildMembers => "guild-members"@,
        ControlCommand::GuildUnion => "guild-union"@,
        ControlCommand::GuildNoGuild => "guild-no-guild"@,
        ControlCommand::GuildError => "guild-error"@,
        ControlCommand::GuildRoleAssign => "guild-role-assign"@,
        ControlCommand::GuildFire => "guild-fire"@,
        ControlCommand::GuildBanUnion => "guild-ban-union"@,
        ControlCommand::InventoryUse => "inventory-use"@,
        ControlCommand::InventoryEquip => "inventory-equip"@,
        ControlCommand::InventoryUnequip => "inventory-unequip"@,
        ControlCommand::InventoryMove => "inventory-move"@,
        ControlCommand::VaultDeposit => "vault-deposit"@,
        ControlCommand::VaultWithdraw => "vault-withdraw"@,
        ControlCommand::Duel => "duel"@,
        ControlCommand::DuelStart => "duel-start"@,
        ControlCommand::DuelStop => "duel-stop"@,
        ControlCommand::DuelChannelJoin => "duel-channel-join"@,
        ControlCommand::DuelChannelQuit => "duel-channel-quit"@,
        ControlCommand::SkillTargeted => "skill-targeted"@,
        ControlCommand::Quests => "quests"@,
        ControlCommand::MuHelper => "mu-helper"@,
        ControlCommand::LoginSuccess => "login-success"@,
        ControlCommand::LoginFailure => "login-failure"@,
        ControlCommand::SelectCharacter => "select-character"@,
        ControlCommand::LogoutLogin => "logout-login"@,
        ControlCommand::LogoutCharacter => "logout-character"@,
        ControlCommand::Disconnect => "disconnect"@,
        ControlCommand::Exit => "exit"@,
        ControlCommand::Ping => "ping"@,
    }
}

/// The command that a normalized name denotes: each command answers to its
/// canonical name and to a few aliases, listed here by length.
pub open spec fn command_for_name(name: Seq<char>) -> Option<ControlCommand> {
    if name.len() == 3 {
        if name == "npc"@ {
            Some(ControlCommand::Npc)
        } else {
            None
        }
    } else if name.len() == 4 {
        if name == "boot"@ {
            Some(ControlCommand::Boot)
        } else if name == "chat"@ {
            Some(ControlCommand::Chat)
        } else if name == "shop"@ {
            Some(ControlCommand::Shop)
        } else if name == "gate"@ {
            Some(ControlCommand::Gate)
        } else if name == "gens"@ {
            Some(ControlCommand::Gens)
        } else if name == "duel"@ {
            Some(ControlCommand::Duel)
        } else if name == "exit"@ {
            Some(ControlCommand::Exit)
        } else if name == "ping"@ {
            Some(ControlCommand::Ping)
        } else {
            None
        }
    } else if name.len() == 5 {
        if name == "world"@ {
            Some(ControlCommand::World)
        } else if name == "trade"@ {
            Some(ControlCommand::Trade)
        } else if name == "party"@ {
            Some(ControlCommand::Party)
        } else if name == "siege"@ {
            Some(ControlCommand::Siege)
        } else if name == "guild"@ {
            Some(ControlCommand::Guild)
        } else {
            None
        }
    } else if name.len() == 6 {
        if name == "events"@ {
            Some(ControlCommand::Events)
        } else if name == "friend"@ {
            Some(ControlCommand::Friend)
        } else if name == "quests"@ {
            Some(ControlCommand::Quests)
        } else {
            None
        }
    } else if name.len() == 7 {
        if name == "options"@ {
            Some(ControlCommand::Options)
        } else if name == "loading"@ {
            Some(ControlCommand::Loading)
        } else {
            None
        }
    } else if name.len() == 8 {
        if name == "item-use"@ {
            Some(ControlCommand::InventoryUse)
        } else if name == "item_use"@ {
            Some(ControlCommand::InventoryUse)
        } else {
            None
        }
    } else if name.len() == 9 {
        if name == "game-shop"@ {
            Some(ControlCommand::GameShop)
        } else if name == "game_shop"@ {
            Some(ControlCommand::GameShop)
        } else if name == "item-move"@ {
            Some(ControlCommand::InventoryMove)
        } else if name == "item_move"@ {
            Some(ControlCommand::InventoryMove)
        } else if name == "duel-stop"@ {
            Some(ControlCommand::DuelStop)
        } else if name == "duel_stop"@ {
            Some(ControlCommand::DuelStop)
        } else if name == "mu-helper"@ {
            Some(ControlCommand::MuHelper)
        } else if name == "mu_helper"@ {
            Some(ControlCommand::MuHelper)
        } else {
            None
        }
    } else if name.len() == 10 {
        if name == "friend-add"@ {
            Some(ControlCommand::FriendAdd)
        } else if name == "friend_add"@ {
            Some(ControlCommand::FriendAdd)
        } else if name == "guild-join"@ {
            Some(ControlCommand::GuildJoin)
        } else if name == "guild_join"@ {
            Some(ControlCommand::GuildJoin)
        } else if name == "guild-fire"@ {
            Some(ControlCommand::GuildFire)
        } else if name == "guild_fire"@ {
            Some(ControlCommand::GuildFire)
        } else if name == "item-equip"@ {
            Some(ControlCommand::InventoryEquip)
        } else if name == "item_equip"@ {
            Some(ControlCommand::InventoryEquip)
        } else if name == "duel-start"@ {
            Some(ControlCommand::DuelStart)
        } else if name == "duel_start"@ {
            Some(ControlCommand::DuelStart)
        } else if name == "disconnect"@ {
            Some(ControlCommand::Disconnect)
        } else {
            None
        }
    } else if name.len() == 11 {
        if name == "server-list"@ {
            Some(ControlCommand::ServerSelect)
        } else if name == "server_list"@ {
            Some(ControlCommand::ServerSelect)
        } else if name == "marketplace"@ {
            Some(ControlCommand::Marketplace)
        } else if name == "player-shop"@ {
            Some(ControlCommand::Marketplace)
        } else if name == "player_shop"@ {
            Some(ControlCommand::Marketplace)
        } else if name == "guild-union"@ {
            Some(ControlCommand::GuildUnion)
        } else if name == "guild_union"@ {
            Some(ControlCommand::GuildUnion)
        } else if name == "guild-error"@ {
            Some(ControlCommand::GuildError)
        } else if name == "guild_error"@ {
            Some(ControlCommand::GuildError)
        } else {
            None
        }
    } else if name.len() == 12 {
        if name == "guild-create"@ {
            Some(ControlCommand::GuildCreate)
        } else if name == "guild_create"@ {
            Some(ControlCommand::GuildCreate)
        } else if name == "friend-inbox"@ {
            Some(ControlCommand::FriendInbox)
        } else if name == "friend_inbox"@ {
            Some(ControlCommand::FriendInbox)
        } else if name == "item-unequip"@ {
            Some(ControlCommand::InventoryUnequip)
        } else if name == "item_unequip"@ {
            Some(ControlCommand::InventoryUnequip)
        } else if name == "skill-target"@ {
            Some(ControlCommand::SkillTargeted)
        } else if name == "skill_target"@ {
            Some(ControlCommand::SkillTargeted)
        } else if name == "logout-login"@ {
            Some(ControlCommand::LogoutLogin)
        } else if name == "logout_login"@ {
            Some(ControlCommand::LogoutLogin)
        } else {
            None
        }
    } else if name.len() == 13 {
        if name == "server-select"@ {
            Some(ControlCommand::ServerSelect)
        } else if name == "server_select"@ {
            Some(ControlCommand::ServerSelect)
        } else if name == "siege-soldier"@ {
            Some(ControlCommand::SiegeSoldier)
        } else if name == "siege_soldier"@ {
            Some(ControlCommand::SiegeSoldier)
        } else if name == "friend-delete"@ {
            Some(ControlCommand::FriendDelete)
        } else if name == "friend_delete"@ {
            Some(ControlCommand::FriendDelete)
        } else if name == "friend-roster"@ {
            Some(ControlCommand::FriendRoster)
        } else if name == "friend_roster"@ {
            Some(ControlCommand::FriendRoster)
        } else if name == "guild-summary"@ {
            Some(ControlCommand::GuildSummary)
        } else if name == "guild_summary"@ {
            Some(ControlCommand::GuildSummary)
        } else if name == "guild-members"@ {
            Some(ControlCommand::GuildMembers)
        } else if name == "guild_members"@ {
            Some(ControlCommand::GuildMembers)
        } else if name == "inventory-use"@ {
            Some(ControlCommand::InventoryUse)
        } else if name == "inventory_use"@ {
            Some(ControlCommand::InventoryUse)
        } else if name == "vault-deposit"@ {
            Some(ControlCommand::VaultDeposit)
        } else if name == "vault_deposit"@ {
            Some(ControlCommand::VaultDeposit)
        } else if name == "login-success"@ {
            Some(ControlCommand::LoginSuccess)
        } else if name == "login_success"@ {
            Some(ControlCommand::LoginSuccess)
        } else if name == "login-failure"@ {
            Some(ControlCommand::LoginFailure)
        } else if name == "login_failure"@ {
            Some(ControlCommand::LoginFailure)
        } else {
            None
        }
    } else if name.len() == 14 {
        if name == "character-list"@ {
            Some(ControlCommand::CharacterSelect)
        } else if name == "character_list"@ {
            Some(ControlCommand::CharacterSelect)
        } else if name == "siege-inactive"@ {
            Some(ControlCommand::SiegeInactive)
        } else if name == "siege_inactive"@ {
            Some(ControlCommand::SiegeInactive)
        } else if name == "friend-compose"@ {
            Some(ControlCommand::FriendCompose)
        } else if name == "friend_compose"@ {
            Some(ControlCommand::FriendCompose)
        } else if name == "guild-no-guild"@ {
            Some(ControlCommand::GuildNoGuild)
        } else if name == "guild_no_guild"@ {
            Some(ControlCommand::GuildNoGuild)
        } else if name == "inventory-move"@ {
            Some(ControlCommand::InventoryMove)
        } else if name == "inventory_move"@ {
            Some(ControlCommand::InventoryMove)
        } else if name == "vault-withdraw"@ {
            Some(ControlCommand::VaultWithdraw)
        } else if name == "vault_withdraw"@ {
            Some(ControlCommand::VaultWithdraw)
        } else if name == "skill-targeted"@ {
            Some(ControlCommand::SkillTargeted)
        } else if name == "skill_targeted"@ {
            Some(ControlCommand::SkillTargeted)
        } else {
            None
        }
    } else if name.len() == 15 {
        if name == "ready-for-login"@ {
            Some(ControlCommand::ReadyForLogin)
        } else if name == "ready_for_login"@ {
            Some(ControlCommand::ReadyForLogin)
        } else if name == "siege-commander"@ {
            Some(ControlCommand::SiegeCommander)
        } else if name == "siege_commander"@ {
            Some(ControlCommand::SiegeCommander)
        } else if name == "guild-ban-union"@ {
            Some(ControlCommand::GuildBanUnion)
        } else if name == "guild_ban_union"@ {
            Some(ControlCommand::GuildBanUnion)
        } else if name == "inventory-equip"@ {
            Some(ControlCommand::InventoryEquip)
        } else if name == "inventory_equip"@ {
            Some(ControlCommand::InventoryEquip)
        } else {
            None
        }
    } else if name.len() == 16 {
        if name == "character-select"@ {
            Some(ControlCommand::CharacterSelect)
        } else if name == "character_select"@ {
            Some(ControlCommand::CharacterSelect)
        } else if name == "character-create"@ {
            Some(ControlCommand::CharacterCreate)
        } else if name == "character_create"@ {
            Some(ControlCommand::CharacterCreate)
        } else if name == "create-character"@ {
            Some(ControlCommand::CreateCharacter)
        } else if name == "create_character"@ {
            Some(ControlCommand::CreateCharacter)
        } else if name == "select-character"@ {
            Some(ControlCommand::SelectCharacter)
        } else if name == "select_character"@ {
            Some(ControlCommand::SelectCharacter)
        } else if name == "logout-character"@ {
            Some(ControlCommand::LogoutCharacter)
        } else if name == "logout_character"@ {
            Some(ControlCommand::LogoutCharacter)
        } else {
            None
        }
    } else if name.len() == 17 {
        if name == "friend-chat-rooms"@ {
            Some(ControlCommand::FriendChatRooms)
        } else if name == "friend_chat_rooms"@ {
            Some(ControlCommand::FriendChatRooms)
        } else if name == "friend-chat_rooms"@ {
            Some(ControlCommand::FriendChatRooms)
        } else if name == "guild-role-assign"@ {
            Some(ControlCommand::GuildRoleAssign)
        } else if name == "guild_role_assign"@ {
            Some(ControlCommand::GuildRoleAssign)
        } else if name == "guild-kick-player"@ {
            Some(ControlCommand::GuildFire)
        } else if name == "guild_kick_player"@ {
            Some(ControlCommand::GuildFire)
        } else if name == "inventory-unequip"@ {
            Some(ControlCommand::InventoryUnequip)
        } else if name == "inventory_unequip"@ {
            Some(ControlCommand::InventoryUnequip)
        } else if name == "duel-channel-join"@ {
            Some(ControlCommand::DuelChannelJoin)
        } else if name == "duel_channel_join"@ {
            Some(ControlCommand::DuelChannelJoin)
        } else if name == "duel-join-channel"@ {
            Some(ControlCommand::DuelChannelJoin)
        } else if name == "duel-channel-quit"@ {
            Some(ControlCommand::DuelChannelQuit)
        } else if name == "duel_channel_quit"@ {
            Some(ControlCommand::DuelChannelQuit)
        } else if name == "duel-quit-channel"@ {
            Some(ControlCommand::DuelChannelQuit)
        } else {
            None
        }
    } else if name.len() == 18 {
        if name == "asset-check-failed"@ {
            Some(ControlCommand::AssetCheckFailed)
        } else if name == "asset_check_failed"@ {
            Some(ControlCommand::AssetCheckFailed)
        } else {
            None
        }
    } else if name.len() == 21 {
        if name == "guild-remove-alliance"@ {
            Some(ControlCommand::GuildBanUnion)
        } else if name == "guild_remove_alliance"@ {
            Some(ControlCommand::GuildBanUnion)
        } else {
            None
        }
    } else {
        None
    }
}

impl ControlCommand {
    pub fn as_str(self) -> (r: &'static str)
        ensures
            r@ == command_name(self),
    {
        match self {
            ControlCommand::Boot => "boot",
            ControlCommand::AssetCheckFailed => "asset-check-failed",
            ControlCommand::ReadyForLogin => "ready-for-login",
            ControlCommand::ServerSelect => "server-select",
            ControlCommand::Options => "options",
            ControlCommand::CharacterSelect => "character-select",
            ControlCommand::CharacterCreate => "character-create",
            ControlCommand::CreateCharacter => "create-character",
            ControlCommand::Loading => "loading",
            ControlCommand::World => "world",
            ControlCommand::Chat => "chat",
            ControlCommand::Npc => "npc",
            ControlCommand::Shop => "shop",
            ControlCommand::GameShop => "game-shop",
            ControlCommand::Trade => "trade",
            ControlCommand::Marketplace => "marketplace",
            ControlCommand::Party => "party",
            ControlCommand::Gate => "gate",
            ControlCommand::Siege => "siege",
            ControlCommand::SiegeInactive => "siege-inactive",
            ControlCommand::SiegeSoldier => "siege-soldier",
            ControlCommand::SiegeCommander => "siege-commander",
            ControlCommand::Events => "events",
            ControlCommand::Gens => "gens",
            ControlCommand::Friend => "friend",
            ControlCommand::Guild => "guild",
            ControlCommand::FriendAdd => "friend-add",
            ControlCommand::FriendDelete => "friend-delete",
            ControlCommand::GuildJoin => "guild-join",
            ControlCommand::GuildCreate => "guild-create",
            ControlCommand::FriendRoster => "friend-roster",
            ControlCommand::FriendInbox => "friend-inbox",
            ControlCommand::FriendCompose => "friend-compose",
            ControlCommand::FriendChatRooms => "friend-chat-rooms",
            ControlCommand::GuildSummary => "guild-summary",
            ControlCommand::GuildMembers => "guild-members",
            ControlCommand::GuildUnion => "guild-union",
            ControlCommand::GuildNoGuild => "guild-no-guild",
            ControlCommand::GuildError => "guild-error",
            ControlCommand::GuildRoleAssign => "guild-role-assign",
            ControlCommand::GuildFire => "guild-fire",
            ControlCommand::GuildBanUnion => "guild-ban-union",
            ControlCommand::InventoryUse => "inventory-use",
            ControlCommand::InventoryEquip => "inventory-equip",
            ControlCommand::InventoryUnequip => "inventory-unequip",
            ControlCommand::InventoryMove => "inventory-move",
            ControlCommand::VaultDeposit => "vault-deposit",
            ControlCommand::VaultWithdraw => "vault-withdraw",
            ControlCommand::Duel => "duel",
            ControlCommand::DuelStart => "duel-start",
            ControlCommand::DuelStop => "duel-stop",
            ControlCommand::DuelChannelJoin => "duel-channel-join",
            ControlCommand::DuelChannelQuit => "duel-channel-quit",
            ControlCommand::SkillTargeted => "skill-targeted",
            ControlCommand::Quests => "quests",
            ControlCommand::MuHelper => "mu-helper",
            ControlCommand::LoginSuccess => "login-success",
            ControlCommand::LoginFailure => "login-failure",
            ControlCommand::SelectCharacter => "select-character",
            ControlCommand::LogoutLogin => "logout-login",
            ControlCommand::LogoutCharacter => "logout-character",
            ControlCommand::Disconnect => "disconnect",
            ControlCommand::Exit => "exit",
            ControlCommand::Ping => "ping",
        }
    }

    /// Reads a command name: surrounding whitespace and ASCII case are
    /// ignored, and each command answers to its canonical name and aliases.
    pub fn parse(value: &str) -> (r: Option<ControlCommand>)
        ensures
            r == command_for_name(normalized(value@)),
    {
        let raw = chars_of(value);
        let name = normalize(&raw);
        let n = name.len();
        if n == 3 {
            if chars_eq_str(&name, "npc") {
                Some(ControlCommand::Npc)
            } else {
                None
            }
        } else if n == 4 {
            if chars_eq_str(&name, "boot") {
                Some(ControlCommand::Boot)
            } else if chars_eq_str(&name, "chat") {
                Some(ControlCommand::Chat)
            } else if chars_eq_str(&name, "shop") {
                Some(ControlCommand::Shop)
            } else if chars_eq_str(&name, "gate") {
                Some(ControlCommand::Gate)
            } else if chars_eq_str(&name, "gens") {
                Some(ControlCommand::Gens)
            } else if chars_eq_str(&name, "duel") {
                Some(ControlCommand::Duel)
            } else if chars_eq_str(&name, "exit") {
                Some(ControlCommand::Exit)
            } else if chars_eq_str(&name, "ping") {
                Some(ControlCommand::Ping)
            } else {
                None
            }
        } else if n == 5 {
            if chars_eq_str(&name, "world") {
                Some(ControlCommand::World)
            } else if chars_eq_str(&name, "trade") {
                Some(ControlCommand::Trade)
            } else if chars_eq_str(&name, "party") {
                Some(ControlCommand::Party)
            } else if chars_eq_str(&name, "siege") {
                Some(ControlCommand::Siege)
            } else if chars_eq_str(&name, "guild") {
                Some(ControlCommand::Guild)
            } else {
                None
            }
        } else if n == 6 {
            if chars_eq_str(&name, "events") {
                Some(ControlCommand::Events)
            } else if chars_eq_str(&name, "friend") {
                Some(ControlCommand::Friend)
            } else if chars_eq_str(&name, "quests") {
                Some(ControlCommand::Quests)
            } else {
                None
            }
        } else if n == 7 {
            if chars_eq_str(&name, "options") {
                Some(ControlCommand::Options)
            } else if chars_eq_str(&name, "loading") {
                Some(ControlCommand::Loading)
            } else {
                None
            }
        } else if n == 8 {
            if chars_eq_str(&name, "item-use") {
                Some(ControlCommand::InventoryUse)
            } else if chars_eq_str(&name, "item_use") {
                Some(ControlCommand::InventoryUse)
            } else {
                None
            }
        } else if n == 9 {
            if chars_eq_str(&name, "game-shop") {
                Some(ControlCommand::GameShop)
            } else if chars_eq_str(&name, "game_shop") {
                Some(ControlCommand::GameShop)
            } else if chars_eq_str(&name, "item-move") {
                Some(ControlCommand::InventoryMove)
            } else if chars_eq_str(&name, "item_move") {
                Some(ControlCommand::InventoryMove)
            } else if chars_eq_str(&name, "duel-stop") {
                Some(ControlCommand::DuelStop)
            } else if chars_eq_str(&name, "duel_stop") {
                Some(ControlCommand::DuelStop)
            } else if chars_eq_str(&name, "mu-helper") {
                Some(ControlCommand::MuHelper)
            } else if chars_eq_str(&name, "mu_helper") {
                Some(ControlCommand::MuHelper)
            } else {
                None
            }
        } else if n == 10 {
            if chars_eq_str(&name, "friend-add") {
                Some(ControlCommand::FriendAdd)
            } else if chars_eq_str(&name, "friend_add") {
                Some(ControlCommand::FriendAdd)
            } else if chars_eq_str(&name, "guild-join") {
                Some(ControlCommand::GuildJoin)
            } else if chars_eq_str(&name, "guild_join") {
                Some(ControlCommand::GuildJoin)
            } else if chars_eq_str(&name, "guild-fire") {
                Some(ControlCommand::GuildFire)
            } else if chars_eq_str(&name, "guild_fire") {
                Some(ControlCommand::GuildFire)
            } else if chars_eq_str(&name, "item-equip") {
                Some(ControlCommand::InventoryEquip)
            } else if chars_eq_str(&name, "item_equip") {
                Some(ControlCommand::InventoryEquip)
            } else if chars_eq_str(&name, "duel-start") {
                Some(ControlCommand::DuelStart)
            } else if chars_eq_str(&name, "duel_start") {
                Some(ControlCommand::DuelStart)
            } else if chars_eq_str(&name, "disconnect") {
                Some(ControlCommand::Disconnect)
            } else {
                None
            }
        } else if n == 11 {
            if chars_eq_str(&name, "server-list") {
                Some(ControlCommand::ServerSelect)
            } else if chars_eq_str(&name, "server_list") {
                Some(ControlCommand::ServerSelect)
            } else if chars_eq_str(&name, "marketplace") {
                Some(ControlCommand::Marketplace)
            } else if chars_eq_str(&name, "player-shop") {
                Some(ControlCommand::Marketplace)
            } else if chars_eq_str(&name, "player_shop") {
                Some(ControlCommand::Marketplace)
            } else if chars_eq_str(&name, "guild-union") {
                Some(ControlCommand::GuildUnion)
            } else if chars_eq_str(&name, "guild_union") {
                Some(ControlCommand::GuildUnion)
            } else if chars_eq_str(&name, "guild-error") {
                Some(ControlCommand::GuildError)
            } else if chars_eq_str(&name, "guild_error") {
                Some(ControlCommand::GuildError)
            } else {
                None
            }
        } else if n == 12 {
            if chars_eq_str(&name, "guild-create") {
                Some(ControlCommand::GuildCreate)
            } else if chars_eq_str(&name, "guild_create") {
                Some(ControlCommand::GuildCreate)
            } else if chars_eq_str(&name, "friend-inbox") {
                Some(ControlCommand::FriendInbox)
            } else if chars_eq_str(&name, "friend_inbox") {
                Some(ControlCommand::FriendInbox)
            } else if chars_eq_str(&name, "item-unequip") {
                Some(ControlCommand::InventoryUnequip)
            } else if chars_eq_str(&name, "item_unequip") {
                Some(ControlCommand::InventoryUnequip)
            } else if chars_eq_str(&name, "skill-target") {
                Some(ControlCommand::SkillTargeted)
            } else if chars_eq_str(&name, "skill_target") {
                Some(ControlCommand::SkillTargeted)
            } else if chars_eq_str(&name, "logout-login") {
                Some(ControlCommand::LogoutLogin)
            } else if chars_eq_str(&name, "logout_login") {
                Some(ControlCommand::LogoutLogin)
            } else {
                None
            }
        } else if n == 13 {
            if chars_eq_str(&name, "server-select") {
                Some(ControlCommand::ServerSelect)
            } else if chars_eq_str(&name, "server_select") {
                Some(ControlCommand::ServerSelect)
            } else if chars_eq_str(&name, "siege-soldier") {
                Some(ControlCommand::SiegeSoldier)
            } else if chars_eq_str(&name, "siege_soldier") {
                Some(ControlCommand::SiegeSoldier)
            } else if chars_eq_str(&name, "friend-delete") {
                Some(ControlCommand::FriendDelete)
            } else if chars_eq_str(&name, "friend_delete") {
                Some(ControlCommand::FriendDelete)
            } else if chars_eq_str(&name, "friend-roster") {
                Some(ControlCommand::FriendRoster)
            } else if chars_eq_str(&name, "friend_roster") {
                Some(ControlCommand::FriendRoster)
            } else if chars_eq_str(&name, "guild-summary") {
                Some(ControlCommand::GuildSummary)
            } else if chars_eq_str(&name, "guild_summary") {
                Some(ControlCommand::GuildSummary)
            } else if chars_eq_str(&name, "guild-members") {
                Some(ControlCommand::GuildMembers)
            } else if chars_eq_str(&name, "guild_members") {
                Some(ControlCommand::GuildMembers)
            } else if chars_eq_str(&name, "inventory-use") {
                Some(ControlCommand::InventoryUse)
            } else if chars_eq_str(&name, "inventory_use") {
                Some(ControlCommand::InventoryUse)
            } else if chars_eq_str(&name, "vault-deposit") {
                Some(ControlCommand::VaultDeposit)
            } else if chars_eq_str(&name, "vault_deposit") {
                Some(ControlCommand::VaultDeposit)
            } else if chars_eq_str(&name, "login-success") {
                Some(ControlCommand::LoginSuccess)
            } else if chars_eq_str(&name, "login_success") {
                Some(ControlCommand::LoginSuccess)
            } else if chars_eq_str(&name, "login-failure") {
                Some(ControlCommand::LoginFailure)
            } else if chars_eq_str(&name, "login_failure") {
                Some(ControlCommand::LoginFailure)
            } else {
                None
            }
        } else if n == 14 {
            if chars_eq_str(&name, "character-list") {
                Some(ControlCommand::CharacterSelect)
            } else if chars_eq_str(&name, "character_list") {
                Some(ControlCommand::CharacterSelect)
            } else if chars_eq_str(&name, "siege-inactive") {
                Some(ControlCommand::SiegeInactive)
            } else if chars_eq_str(&name, "siege_inactive") {
                Some(ControlCommand::SiegeInactive)
            } else if chars_eq_str(&name, "friend-compose") {
                Some(ControlCommand::FriendCompose)
            } else if chars_eq_str(&name, "friend_compose") {
                Some(ControlCommand::FriendCompose)
            } else if chars_eq_str(&name, "guild-no-guild") {
                Some(ControlCommand::GuildNoGuild)
            } else if chars_eq_str(&name, "guild_no_guild") {
                Some(ControlCommand::GuildNoGuild)
            } else if chars_eq_str(&name, "inventory-move") {
                Some(ControlCommand::InventoryMove)
            } else if chars_eq_str(&name, "inventory_move") {
                Some(ControlCommand::InventoryMove)
            } else if chars_eq_str(&name, "vault-withdraw") {
                Some(ControlCommand::VaultWithdraw)
            } else if chars_eq_str(&name, "vault_withdraw") {
                Some(ControlCommand::VaultWithdraw)
            } else if chars_eq_str(&name, "skill-targeted") {
                Some(ControlCommand::SkillTargeted)
            } else if chars_eq_str(&name, "skill_targeted") {
                Some(ControlCommand::SkillTargeted)
            } else {
                None
            }
        } else if n == 15 {
            if chars_eq_str(&name, "ready-for-login") {
                Some(ControlCommand::ReadyForLogin)
            } else if chars_eq_str(&name, "ready_for_login") {
                Some(ControlCommand::ReadyForLogin)
            } else if chars_eq_str(&name, "siege-commander") {
                Some(ControlCommand::SiegeCommander)
            } else if chars_eq_str(&name, "siege_commander") {
                Some(ControlCommand::SiegeCommander)
            } else if chars_eq_str(&name, "guild-ban-union") {
                Some(ControlCommand::GuildBanUnion)
            } else if chars_eq_str(&name, "guild_ban_union") {
                Some(ControlCommand::GuildBanUnion)
            } else if chars_eq_str(&name, "inventory-equip") {
                Some(ControlCommand::InventoryEquip)
            } else if chars_eq_str(&name, "inventory_equip") {
                Some(ControlCommand::InventoryEquip)
            } else {
                None
            }
        } else if n == 16 {
            if chars_eq_str(&name, "character-select") {
                Some(ControlCommand::CharacterSelect)
            } else if chars_eq_str(&name, "character_select") {
                Some(ControlCommand::CharacterSelect)
            } else if chars_eq_str(&name, "character-create") {
                Some(ControlCommand::CharacterCreate)
            } else if chars_eq_str(&name, "character_create") {
                Some(ControlCommand::CharacterCreate)
            } else if chars_eq_str(&name, "create-character") {
                Some(ControlCommand::CreateCharacter)
            } else if chars_eq_str(&name, "create_character") {
                Some(ControlCommand::CreateCharacter)
            } else if chars_eq_str(&name, "select-character") {
                Some(ControlCommand::SelectCharacter)
            } else if chars_eq_str(&name, "select_character") {
                Some(ControlCommand::SelectCharacter)
            } else if chars_eq_str(&name, "logout-character") {
                Some(ControlCommand::LogoutCharacter)
            } else if chars_eq_str(&name, "logout_character") {
                Some(ControlCommand::LogoutCharacter)
            } else {
                None
            }
        } else if n == 17 {
            if chars_eq_str(&name, "friend-chat-rooms") {
                Some(ControlCommand::FriendChatRooms)
            } else if chars_eq_str(&name, "friend_chat_rooms") {
                Some(ControlCommand::FriendChatRooms)
            } else if chars_eq_str(&name, "friend-chat_rooms") {
                Some(ControlCommand::FriendChatRooms)
            } else if chars_eq_str(&name, "guild-role-assign") {
                Some(ControlCommand::GuildRoleAssign)
            } else if chars_eq_str(&name, "guild_role_assign") {
                Some(ControlCommand::GuildRoleAssign)
            } else if chars_eq_str(&name, "guild-kick-player") {
                Some(ControlCommand::GuildFire)
            } else if chars_eq_str(&name, "guild_kick_player") {
                Some(ControlCommand::GuildFire)
            } else if chars_eq_str(&name, "inventory-unequip") {
                Some(ControlCommand::InventoryUnequip)
            } else if chars_eq_str(&name, "inventory_unequip") {
                Some(ControlCommand::InventoryUnequip)
            } else if chars_eq_str(&name, "duel-channel-join") {
                Some(ControlCommand::DuelChannelJoin)
            } else if chars_eq_str(&name, "duel_channel_join") {
                Some(ControlCommand::DuelChannelJoin)
            } else if chars_eq_str(&name, "duel-join-channel") {
                Some(ControlCommand::DuelChannelJoin)
            } else if chars_eq_str(&name, "duel-channel-quit") {
                Some(ControlCommand::DuelChannelQuit)
            } else if chars_eq_str(&name, "duel_channel_quit") {
                Some(ControlCommand::DuelChannelQuit)
            } else if chars_eq_str(&name, "duel-quit-channel") {
                Some(ControlCommand::DuelChannelQuit)
            } else {
                None
            }
        } else if n == 18 {
            if chars_eq_str(&name, "asset-check-failed") {
                Some(ControlCommand::AssetCheckFailed)
            } else if chars_eq_str(&name, "asset_check_failed") {
                Some(ControlCommand::AssetCheckFailed)
            } else {
                None
            }
        } else if n == 21 {
            if chars_eq_str(&name, "guild-remove-alliance") {
                Some(ControlCommand::GuildBanUnion)
            } else if chars_eq_str(&name, "guild_remove_alliance") {
                Some(ControlCommand::GuildBanUnion)
            } else {
                None
            }
        } else {
            None
        }
    }
}

/// Every command reads back from its canonical name.
pub proof fn lemma_name_round_trip(command: ControlCommand)
    ensures
        command_for_name(command_name(command)) == Some(command),
{
    match command {
        ControlCommand::Boot => {
            reveal_strlit("boot");
        },
        ControlCommand::AssetCheckFailed => {
            reveal_strlit("asset-check-failed");
        },
        ControlCommand::ReadyForLogin => {
            reveal_strlit("ready-for-login");
        },
        ControlCommand::ServerSelect => {
            reveal_strlit("server-select");
        },
        ControlCommand::Options => {
            reveal_strlit("options");
        },
        ControlCommand::CharacterSelect => {
            reveal_strlit("character-select");
        },
        ControlCommand::CharacterCreate => {
            reveal_strlit("character-create");
            reveal_strlit("character-select");
            assert("character-select"@[10] != "character-create"@[10]);
            reveal_strlit("character_select");
            assert("character_select"@[9] != "character-create"@[9]);
        },
        ControlCommand::CreateCharacter => {
            reveal_strlit("create-character");
            reveal_strlit("character-select");
            assert("character-select"@[1] != "create-character"@[1]);
            reveal_strlit("character_select");
            assert("character_select"@[1] != "create-character"@[1]);
            reveal_strlit("character-create");
            assert("character-create"@[1] != "create-character"@[1]);
            reveal_strlit("character_create");
            assert("character_create"@[1] != "create-character"@[1]);
        },
        ControlCommand::Loading => {
            reveal_strlit("loading");
            reveal_strlit("options");
            assert("options"@[0] != "loading"@[0]);
        },
        ControlCommand::World => {
            reveal_strlit("world");
        },
        ControlCommand::Chat => {
            reveal_strlit("chat");
            reveal_strlit("boot");
            assert("boot"@[0] != "chat"@[0]);
        },
        ControlCommand::Npc => {
            reveal_strlit("npc");
        },
        ControlCommand::Shop => {
            reveal_strlit("shop");
            reveal_strlit("boot");
            assert("boot"@[0] != "shop"@[0]);
            reveal_strlit("chat");
            assert("chat"@[0] != "shop"@[0]);
        },
        ControlCommand::GameShop => {
            reveal_strlit("game-shop");
        },
        ControlCommand::Trade => {
            reveal_strlit("trade");
            reveal_strlit("world");
            assert("world"@[0] != "trade"@[0]);
        },
        ControlCommand::Marketplace => {
            reveal_strlit("marketplace");
            reveal_strlit("server-list");
            assert("server-list"@[0] != "marketplace"@[0]);
            reveal_strlit("server_list");
            assert("server_list"@[0] != "marketplace"@[0]);
        },
        ControlCommand::Party => {
            reveal_strlit("party");
            reveal_strlit("world");
            assert("world"@[0] != "party"@[0]);
            reveal_strlit("trade");
            assert("trade"@[0] != "party"@[0]);
        },
        ControlCommand::Gate => {
            reveal_strlit("gate");
            reveal_strlit("boot");
            assert("boot"@[0] != "gate"@[0]);
            reveal_strlit("chat");
            assert("chat"@[0] != "gate"@[0]);
            reveal_strlit("shop");
            assert("shop"@[0] != "gate"@[0]);
        },
        ControlCommand::Siege => {
            reveal_strlit("siege");
            reveal_strlit("world");
            assert("world"@[0] != "siege"@[0]);
            reveal_strlit("trade");
            assert("trade"@[0] != "siege"@[0]);
            reveal_strlit("party");
            assert("party"@[0] != "siege"@[0]);
        },
        ControlCommand::SiegeInactive => {
            reveal_strlit("siege-inactive");
            reveal_strlit("character-list");
            assert("character-list"@[0] != "siege-inactive"@[0]);
            reveal_strlit("character_list");
            assert("character_list"@[0] != "siege-inactive"@[0]);
        },
        ControlCommand::SiegeSoldier => {
            reveal_strlit("siege-soldier");
            reveal_strlit("server-select");
            assert("server-select"@[1] != "siege-soldier"@[1]);
            reveal_strlit("server_select");
            assert("server_select"@[1] != "siege-soldier"@[1]);
        },
        ControlCommand::SiegeCommander => {
            reveal_strlit("siege-commander");
            reveal_strlit("ready-for-login");
            assert("ready-for-login"@[0] != "siege-commander"@[0]);
            reveal_strlit("ready_for_login");
            assert("ready_for_login"@[0] != "siege-commander"@[0]);
        },
        ControlCommand::Events => {
            reveal_strlit("events");
        },
        ControlCommand::Gens => {
            reveal_strlit("gens");
            reveal_strlit("boot");
            assert("boot"@[0] != "gens"@[0]);
            reveal_strlit("chat");
            assert("chat"@[0] != "gens"@[0]);
            reveal_strlit("shop");
            assert("shop"@[0] != "gens"@[0]);
            reveal_strlit("gate");
            assert("gate"@[1] != "gens"@[1]);
        },
        ControlCommand::Friend => {
            reveal_strlit("friend");
            reveal_strlit("events");
            assert("events"@[0] != "friend"@[0]);
        },
        ControlCommand::Guild => {
            reveal_strlit("guild");
            reveal_strlit("world");
            assert("world"@[0] != "guild"@[0]);
            reveal_strlit("trade");
            assert("trade"@[0] != "guild"@[0]);
            reveal_strlit("party");
            assert("party"@[0] != "guild"@[0]);
            reveal_strlit("siege");
            assert("siege"@[0] != "guild"@[0]);
        },
        ControlCommand::FriendAdd => {
            reveal_strlit("friend-add");
        },
        ControlCommand::FriendDelete => {
            reveal_strlit("friend-delete");
            reveal_strlit("server-select");
            assert("server-select"@[0] != "friend-delete"@[0]);
            reveal_strlit("server_select");
            assert("server_select"@[0] != "friend-delete"@[0]);
            reveal_strlit("siege-soldier");
            assert("siege-soldier"@[0] != "friend-delete"@[0]);
            reveal_strlit("siege_soldier");
            assert("siege_soldier"@[0] != "friend-delete"@[0]);
        },
        ControlCommand::GuildJoin => {
            reveal_strlit("guild-join");
            reveal_strlit("friend-add");
            assert("friend-add"@[0] != "guild-join"@[0]);
            reveal_strlit("friend_add");
            assert("friend_add"@[0] != "guild-join"@[0]);
        },
        ControlCommand::GuildCreate => {
            reveal_strlit("guild-create");
        },
        ControlCommand::FriendRoster => {
            reveal_strlit("friend-roster");
            reveal_strlit("server-select");
            assert("server-select"@[0] != "friend-roster"@[0]);
            reveal_strlit("server_select");
            assert("server_select"@[0] != "friend-roster"@[0]);
            reveal_strlit("siege-soldier");
            assert("siege-soldier"@[0] != "friend-roster"@[0]);
            reveal_strlit("siege_soldier");
            assert("siege_soldier"@[0] != "friend-roster"@[0]);
            reveal_strlit("friend-delete");
            assert("friend-delete"@[7] != "friend-roster"@[7]);
            reveal_strlit("friend_delete");
            assert("friend_delete"@[6] != "friend-roster"@[6]);
        },
        ControlCommand::FriendInbox => {
            reveal_strlit("friend-inbox");
            reveal_strlit("guild-create");
            assert("guild-create"@[0] != "friend-inbox"@[0]);
            reveal_strlit("guild_create");
            assert("guild_create"@[0] != "friend-inbox"@[0]);
        },
        ControlCommand::FriendCompose => {
            reveal_strlit("friend-compose");
            reveal_strlit("character-list");
            assert("character-list"@[0] != "friend-compose"@[0]);
            reveal_strlit("character_list");
            assert("character_list"@[0] != "friend-compose"@[0]);
            reveal_strlit("siege-inactive");
            assert("siege-inactive"@[0] != "friend-compose"@[0]);
            reveal_strlit("siege_inactive");
            assert("siege_inactive"@[0] != "friend-compose"@[0]);
        },
        ControlCommand::FriendChatRooms => {
            reveal_strlit("friend-chat-rooms");
        },
        ControlCommand::GuildSummary => {
            reveal_strlit("guild-summary");
            reveal_strlit("server-select");
            assert("server-select"@[0] != "guild-summary"@[0]);
            reveal_strlit("server_select");
            assert("server_select"@[0] != "guild-summary"@[0]);
            reveal_strlit("siege-soldier");
            assert("siege-soldier"@[0] != "guild-summary"@[0]);
            reveal_strlit("siege_soldier");
            assert("siege_soldier"@[0] != "guild-summary"@[0]);
            reveal_strlit("friend-delete");
            assert("friend-delete"@[0] != "guild-summary"@[0]);
            reveal_strlit("friend_delete");
            assert("friend_delete"@[0] != "guild-summary"@[0]);
            reveal_strlit("friend-roster");
            assert("friend-roster"@[0] != "guild-summary"@[0]);
            reveal_strlit("friend_roster");
            assert("friend_roster"@[0] != "guild-summary"@[0]);
        },
        ControlCommand::GuildMembers => {
            reveal_strlit("guild-members");
            reveal_strlit("server-select");
            assert("server-select"@[0] != "guild-members"@[0]);
            reveal_strlit("server_select");
            assert("server_select"@[0] != "guild-members"@[0]);
            reveal_strlit("siege-soldier");
            assert("siege-soldier"@[0] != "guild-members"@[0]);
            reveal_strlit("siege_soldier");
            assert("siege_soldier"@[0] != "guild-members"@[0]);
            reveal_strlit("friend-delete");
            assert("friend-delete"@[0] != "guild-members"@[0]);
            reveal_strlit("friend_delete");
            assert("friend_delete"@[0] != "guild-members"@[0]);
            reveal_strlit("friend-roster");
            assert("friend-roster"@[0] != "guild-members"@[0]);
            reveal_strlit("friend_roster");
            assert("friend_roster"@[0] != "guild-members"@[0]);
            reveal_strlit("guild-summary");
            assert("guild-summary"@[6] != "guild-members"@[6]);
            reveal_strlit("guild_summary");
            assert("guild_summary"@[5] != "guild-members"@[5]);
        },
        ControlCommand::GuildUnion => {
            reveal_strlit("guild-union");
            reveal_strlit("server-list");
            assert("server-list"@[0] != "guild-union"@[0]);
            reveal_strlit("server_list");
            assert("server_list"@[0] != "guild-union"@[0]);
            reveal_strlit("marketplace");
            assert("marketplace"@[0] != "guild-union"@[0]);
            reveal_strlit("player-shop");
            assert("player-shop"@[0] != "guild-union"@[0]);
            reveal_strlit("player_shop");
            assert("player_shop"@[0] != "guild-union"@[0]);
        },
        ControlCommand::GuildNoGuild => {
            reveal_strlit("guild-no-guild");
            reveal_strlit("character-list");
            assert("character-list"@[0] != "guild-no-guild"@[0]);
            reveal_strlit("character_list");
            assert("character_list"@[0] != "guild-no-guild"@[0]);
            reveal_strlit("siege-inactive");
            assert("siege-inactive"@[0] != "guild-no-guild"@[0]);
            reveal_strlit("siege_inactive");
            assert("siege_inactive"@[0] != "guild-no-guild"@[0]);
            reveal_strlit("friend-compose");
            assert("friend-compose"@[0] != "guild-no-guild"@[0]);
            reveal_strlit("friend_compose");
            assert("friend_compose"@[0] != "guild-no-guild"@[0]);
        },
        ControlCommand::GuildError => {
            reveal_strlit("guild-error");
            reveal_strlit("server-list");
            assert("server-list"@[0] != "guild-error"@[0]);
            reveal_strlit("server_list");
            assert("server_list"@[0] != "guild-error"@[0]);
            reveal_strlit("marketplace");
            assert("marketplace"@[0] != "guild-error"@[0]);
            reveal_strlit("player-shop");
            assert("player-shop"@[0] != "guild-error"@[0]);
            reveal_strlit("player_shop");
            assert("player_shop"@[0] != "guild-error"@[0]);
            reveal_strlit("guild-union");
            assert("guild-union"@[6] != "guild-error"@[6]);
            reveal_strlit("guild_union");
            assert("guild_union"@[5] != "guild-error"@[5]);
        },
        ControlCommand::GuildRoleAssign => {
            reveal_strlit("guild-role-assign");
            reveal_strlit("friend-chat-rooms");
            assert("friend-chat-rooms"@[0] != "guild-role-assign"@[0]);
            reveal_strlit("friend_chat_rooms");
            assert("friend_chat_rooms"@[0] != "guild-role-assign"@[0]);
            reveal_strlit("friend-chat_rooms");
            assert("friend-chat_rooms"@[0] != "guild-role-assign"@[0]);
        },
        ControlCommand::GuildFire => {
            reveal_strlit("guild-fire");
            reveal_strlit("friend-add");
            assert("friend-add"@[0] != "guild-fire"@[0]);
            reveal_strlit("friend_add");
            assert("friend_add"@[0] != "guild-fire"@[0]);
            reveal_strlit("guild-join");
            assert("guild-join"@[6] != "guild-fire"@[6]);
            reveal_strlit("guild_join");
            assert("guild_join"@[5] != "guild-fire"@[5]);
        },
        ControlCommand::GuildBanUnion => {
            reveal_strlit("guild-ban-union");
            reveal_strlit("ready-for-login");
            assert("ready-for-login"@[0] != "guild-ban-union"@[0]);
            reveal_strlit("ready_for_login");
            assert("ready_for_login"@[0] != "guild-ban-union"@[0]);
            reveal_strlit("siege-commander");
            assert("siege-commander"@[0] != "guild-ban-union"@[0]);
            reveal_strlit("siege_commander");
            assert("siege_commander"@[0] != "guild-ban-union"@[0]);
        },
        ControlCommand::InventoryUse => {
            reveal_strlit("inventory-use");
            reveal_strlit("server-select");
            assert("server-select"@[0] != "inventory-use"@[0]);
            reveal_strlit("server_select");
            assert("server_select"@[0] != "inventory-use"@[0]);
            reveal_strlit("siege-soldier");
            assert("siege-soldier"@[0] != "inventory-use"@[0]);
            reveal_strlit("siege_soldier");
            assert("siege_soldier"@[0] != "inventory-use"@[0]);
            reveal_strlit("friend-delete");
            assert("friend-delete"@[0] != "inventory-use"@[0]);
            reveal_strlit("friend_delete");
            assert("friend_delete"@[0] != "inventory-use"@[0]);
            reveal_strlit("friend-roster");
            assert("friend-roster"@[0] != "inventory-use"@[0]);
            reveal_strlit("friend_roster");
            assert("friend_roster"@[0] != "inventory-use"@[0]);
            reveal_strlit("guild-summary");
            assert("guild-summary"@[0] != "inventory-use"@[0]);
            reveal_strlit("guild_summary");
            assert("guild_summary"@[0] != "inventory-use"@[0]);
            reveal_strlit("guild-members");
            assert("guild-members"@[0] != "inventory-use"@[0]);
            reveal_strlit("guild_members");
            assert("guild_members"@[0] != "inventory-use"@[0]);
        },
        ControlCommand::InventoryEquip => {
            reveal_strlit("inventory-equip");
            reveal_strlit("ready-for-login");
            assert("ready-for-login"@[0] != "inventory-equip"@[0]);
            reveal_strlit("ready_for_login");
            assert("ready_for_login"@[0] != "inventory-equip"@[0]);
            reveal_strlit("siege-commander");
            assert("siege-commander"@[0] != "inventory-equip"@[0]);
            reveal_strlit("siege_commander");
            assert("siege_commander"@[0] != "inventory-equip"@[0]);
            reveal_strlit("guild-ban-union");
            assert("guild-ban-union"@[0] != "inventory-equip"@[0]);
            reveal_strlit("guild_ban_union");
            assert("guild_ban_union"@[0] != "inventory-equip"@[0]);
        },
        ControlCommand::InventoryUnequip => {
            reveal_strlit("inventory-unequip");
            reveal_strlit("friend-chat-rooms");
            assert("friend-chat-rooms"@[0] != "inventory-unequip"@[0]);
            reveal_strlit("friend_chat_rooms");
            assert("friend_chat_rooms"@[0] != "inventory-unequip"@[0]);
            reveal_strlit("friend-chat_rooms");
            assert("friend-chat_rooms"@[0] != "inventory-unequip"@[0]);
            reveal_strlit("guild-role-assign");
            assert("guild-role-assign"@[0] != "inventory-unequip"@[0]);
            reveal_strlit("guild_role_assign");
            assert("guild_role_assign"@[0] != "inventory-unequip"@[0]);
            reveal_strlit("guild-kick-player");
            assert("guild-kick-player"@[0] != "inventory-unequip"@[0]);
            reveal_strlit("guild_kick_player");
            assert("guild_kick_player"@[0] != "inventory-unequip"@[0]);
        },
        ControlCommand::InventoryMove => {
            reveal_strlit("inventory-move");
            reveal_strlit("character-list");
            assert("character-list"@[0] != "inventory-move"@[0]);
            reveal_strlit("character_list");
            assert("character_list"@[0] != "inventory-move"@[0]);
            reveal_strlit("siege-inactive");
            assert("siege-inactive"@[0] != "inventory-move"@[0]);
            reveal_strlit("siege_inactive");
            assert("siege_inactive"@[0] != "inventory-move"@[0]);
            reveal_strlit("friend-compose");
            assert("friend-compose"@[0] != "inventory-move"@[0]);
            reveal_strlit("friend_compose");
            assert("friend_compose"@[0] != "inventory-move"@[0]);
            reveal_strlit("guild-no-guild");
            assert("guild-no-guild"@[0] != "inventory-move"@[0]);
            reveal_strlit("guild_no_guild");
            assert("guild_no_guild"@[0] != "inventory-move"@[0]);
        },
        ControlCommand::VaultDeposit => {
            reveal_strlit("vault-deposit");
            reveal_strlit("server-select");
            assert("server-select"@[0] != "vault-deposit"@[0]);
            reveal_strlit("server_select");
            assert("server_select"@[0] != "vault-deposit"@[0]);
            reveal_strlit("siege-soldier");
            assert("siege-soldier"@[0] != "vault-deposit"@[0]);
            reveal_strlit("siege_soldier");
            assert("siege_soldier"@[0] != "vault-deposit"@[0]);
            reveal_strlit("friend-delete");
            assert("friend-delete"@[0] != "vault-deposit"@[0]);
            reveal_strlit("friend_delete");
            assert("friend_delete"@[0] != "vault-deposit"@[0]);
            reveal_strlit("friend-roster");
            assert("friend-roster"@[0] != "vault-deposit"@[0]);
            reveal_strlit("friend_roster");
            assert("friend_roster"@[0] != "vault-deposit"@[0]);
            reveal_strlit("guild-summary");
            assert("guild-summary"@[0] != "vault-deposit"@[0]);
            reveal_strlit("guild_summary");
            assert("guild_summary"@[0] != "vault-deposit"@[0]);
            reveal_strlit("guild-members");
            assert("guild-members"@[0] != "vault-deposit"@[0]);
            reveal_strlit("guild_members");
            assert("guild_members"@[0] != "vault-deposit"@[0]);
            reveal_strlit("inventory-use");
            assert("inventory-use"@[0] != "vault-deposit"@[0]);
            reveal_strlit("inventory_use");
            assert("inventory_use"@[0] != "vault-deposit"@[0]);
        },
        ControlCommand::VaultWithdraw => {
            reveal_strlit("vault-withdraw");
            reveal_strlit("character-list");
            assert("character-list"@[0] != "vault-withdraw"@[0]);
            reveal_strlit("character_list");
            assert("character_list"@[0] != "vault-withdraw"@[0]);
            reveal_strlit("siege-inactive");
            assert("siege-inactive"@[0] != "vault-withdraw"@[0]);
            reveal_strlit("siege_inactive");
            assert("siege_inactive"@[0] != "vault-withdraw"@[0]);
            reveal_strlit("friend-compose");
            assert("friend-compose"@[0] != "vault-withdraw"@[0]);
            reveal_strlit("friend_compose");
            assert("friend_compose"@[0] != "vault-withdraw"@[0]);
            reveal_strlit("guild-no-guild");
            assert("guild-no-guild"@[0] != "vault-withdraw"@[0]);
            reveal_strlit("guild_no_guild");
            assert("guild_no_guild"@[0] != "vault-withdraw"@[0]);
            reveal_strlit("inventory-move");
            assert("inventory-move"@[0] != "vault-withdraw"@[0]);
            reveal_strlit("inventory_move");
            assert("inventory_move"@[0] != "vault-withdraw"@[0]);
        },
        ControlCommand::Duel => {
            reveal_strlit("duel");
            reveal_strlit("boot");
            assert("boot"@[0] != "duel"@[0]);
            reveal_strlit("chat");
            assert("chat"@[0] != "duel"@[0]);
            reveal_strlit("shop");
            assert("shop"@[0] != "duel"@[0]);
            reveal_strlit("gate");
            assert("gate"@[0] != "duel"@[0]);
            reveal_strlit("gens");
            assert("gens"@[0] != "duel"@[0]);
        },
        ControlCommand::DuelStart => {
            reveal_strlit("duel-start");
            reveal_strlit("friend-add");
            assert("friend-add"@[0] != "duel-start"@[0]);
            reveal_strlit("friend_add");
            assert("friend_add"@[0] != "duel-start"@[0]);
            reveal_strlit("guild-join");
            assert("guild-join"@[0] != "duel-start"@[0]);
            reveal_strlit("guild_join");
            assert("guild_join"@[0] != "duel-start"@[0]);
            reveal_strlit("guild-fire");
            assert("guild-fire"@[0] != "duel-start"@[0]);
            reveal_strlit("guild_fire");
            assert("guild_fire"@[0] != "duel-start"@[0]);
            reveal_strlit("item-equip");
            assert("item-equip"@[0] != "duel-start"@[0]);
            reveal_strlit("item_equip");
            assert("item_equip"@[0] != "duel-start"@[0]);
        },
        ControlCommand::DuelStop => {
            reveal_strlit("duel-stop");
            reveal_strlit("game-shop");
            assert("game-shop"@[0] != "duel-stop"@[0]);
            reveal_strlit("game_shop");
            assert("game_shop"@[0] != "duel-stop"@[0]);
            reveal_strlit("item-move");
            assert("item-move"@[0] != "duel-stop"@[0]);
            reveal_strlit("item_move");
            assert("item_move"@[0] != "duel-stop"@[0]);
        },
        ControlCommand::DuelChannelJoin => {
            reveal_strlit("duel-channel-join");
            reveal_strlit("friend-chat-rooms");
            assert("friend-chat-rooms"@[0] != "duel-channel-join"@[0]);
            reveal_strlit("friend_chat_rooms");
            assert("friend_chat_rooms"@[0] != "duel-channel-join"@[0]);
            reveal_strlit("friend-chat_rooms");
            assert("friend-chat_rooms"@[0] != "duel-channel-join"@[0]);
            reveal_strlit("guild-role-assign");
            assert("guild-role-assign"@[0] != "duel-channel-join"@[0]);
            reveal_strlit("guild_role_assign");
            assert("guild_role_assign"@[0] != "duel-channel-join"@[0]);
            reveal_strlit("guild-kick-player");
            assert("guild-kick-player"@[0] != "duel-channel-join"@[0]);
            reveal_strlit("guild_kick_player");
            assert("guild_kick_player"@[0] != "duel-channel-join"@[0]);
            reveal_strlit("inventory-unequip");
            assert("inventory-unequip"@[0] != "duel-channel-join"@[0]);
            reveal_strlit("inventory_unequip");
            assert("inventory_unequip"@[0] != "duel-channel-join"@[0]);
        },
        ControlCommand::DuelChannelQuit => {
            reveal_strlit("duel-channel-quit");
            reveal_strlit("friend-chat-rooms");
            assert("friend-chat-rooms"@[0] != "duel-channel-quit"@[0]);
            reveal_strlit("friend_chat_rooms");
            assert("friend_chat_rooms"@[0] != "duel-channel-quit"@[0]);
            reveal_strlit("friend-chat_rooms");
            assert("friend-chat_rooms"@[0] != "duel-channel-quit"@[0]);
            reveal_strlit("guild-role-assign");
            assert("guild-role-assign"@[0] != "duel-channel-quit"@[0]);
            reveal_strlit("guild_role_assign");
            assert("guild_role_assign"@[0] != "duel-channel-quit"@[0]);
            reveal_strlit("guild-kick-player");
            assert("guild-kick-player"@[0] != "duel-channel-quit"@[0]);
            reveal_strlit("guild_kick_player");
            assert("guild_kick_player"@[0] != "duel-channel-quit"@[0]);
            reveal_strlit("inventory-unequip");
            assert("inventory-unequip"@[0] != "duel-channel-quit"@[0]);
            reveal_strlit("inventory_unequip");
            assert("inventory_unequip"@[0] != "duel-channel-quit"@[0]);
            reveal_strlit("duel-channel-join");
            assert("duel-channel-join"@[13] != "duel-channel-quit"@[13]);
            reveal_strlit("duel_channel_join");
            assert("duel_channel_join"@[4] != "duel-channel-quit"@[4]);
            reveal_strlit("duel-join-channel");
            assert("duel-join-channel"@[5] != "duel-channel-quit"@[5]);
        },
        ControlCommand::SkillTargeted => {
            reveal_strlit("skill-targeted");
            reveal_strlit("character-list");
            assert("character-list"@[0] != "skill-targeted"@[0]);
            reveal_strlit("character_list");
            assert("character_list"@[0] != "skill-targeted"@[0]);
            reveal_strlit("siege-inactive");
            assert("siege-inactive"@[1] != "skill-targeted"@[1]);
            reveal_strlit("siege_inactive");
            assert("siege_inactive"@[1] != "skill-targeted"@[1]);
            reveal_strlit("friend-compose");
            assert("friend-compose"@[0] != "skill-targeted"@[0]);
            reveal_strlit("friend_compose");
            assert("friend_compose"@[0] != "skill-targeted"@[0]);
            reveal_strlit("guild-no-guild");
            assert("guild-no-guild"@[0] != "skill-targeted"@[0]);
            reveal_strlit("guild_no_guild");
            assert("guild_no_guild"@[0] != "skill-targeted"@[0]);
            reveal_strlit("inventory-move");
            assert("inventory-move"@[0] != "skill-targeted"@[0]);
            reveal_strlit("inventory_move");
            assert("inventory_move"@[0] != "skill-targeted"@[0]);
            reveal_strlit("vault-withdraw");
            assert("vault-withdraw"@[0] != "skill-targeted"@[0]);
            reveal_strlit("vault_withdraw");
            assert("vault_withdraw"@[0] != "skill-targeted"@[0]);
        },
        ControlCommand::Quests => {
            reveal_strlit("quests");
            reveal_strlit("events");
            assert("events"@[0] != "quests"@[0]);
            reveal_strlit("friend");
            assert("friend"@[0] != "quests"@[0]);
        },
        ControlCommand::MuHelper => {
            reveal_strlit("mu-helper");
            reveal_strlit("game-shop");
            assert("game-shop"@[0] != "mu-helper"@[0]);
            reveal_strlit("game_shop");
            assert("game_shop"@[0] != "mu-helper"@[0]);
            reveal_strlit("item-move");
            assert("item-move"@[0] != "mu-helper"@[0]);
            reveal_strlit("item_move");
            assert("item_move"@[0] != "mu-helper"@[0]);
            reveal_strlit("duel-stop");
            assert("duel-stop"@[0] != "mu-helper"@[0]);
            reveal_strlit("duel_stop");
            assert("duel_stop"@[0] != "mu-helper"@[0]);
        },
        ControlCommand::LoginSuccess => {
            reveal_strlit("login-success");
            reveal_strlit("server-select");
            assert("server-select"@[0] != "login-success"@[0]);
            reveal_strlit("server_select");
            assert("server_select"@[0] != "login-success"@[0]);
            reveal_strlit("siege-soldier");
            assert("siege-soldier"@[0] != "login-success"@[0]);
            reveal_strlit("siege_soldier");
            assert("siege_soldier"@[0] != "login-success"@[0]);
            reveal_strlit("friend-delete");
            assert("friend-delete"@[0] != "login-success"@[0]);
            reveal_strlit("friend_delete");
            assert("friend_delete"@[0] != "login-success"@[0]);
            reveal_strlit("friend-roster");
            assert("friend-roster"@[0] != "login-success"@[0]);
            reveal_strlit("friend_roster");
            assert("friend_roster"@[0] != "login-success"@[0]);
            reveal_strlit("guild-summary");
            assert("guild-summary"@[0] != "login-success"@[0]);
            reveal_strlit("guild_summary");
            assert("guild_summary"@[0] != "login-success"@[0]);
            reveal_strlit("guild-members");
            assert("guild-members"@[0] != "login-success"@[0]);
            reveal_strlit("guild_members");
            assert("guild_members"@[0] != "login-success"@[0]);
            reveal_strlit("inventory-use");
            assert("inventory-use"@[0] != "login-success"@[0]);
            reveal_strlit("inventory_use");
            assert("inventory_use"@[0] != "login-success"@[0]);
            reveal_strlit("vault-deposit");
            assert("vault-deposit"@[0] != "login-success"@[0]);
            reveal_strlit("vault_deposit");
            assert("vault_deposit"@[0] != "login-success"@[0]);
        },
        ControlCommand::LoginFailure => {
            reveal_strlit("login-failure");
            reveal_strlit("server-select");
            assert("server-select"@[0] != "login-failure"@[0]);
            reveal_strlit("server_select");
            assert("server_select"@[0] != "login-failure"@[0]);
            reveal_strlit("siege-soldier");
            assert("siege-soldier"@[0] != "login-failure"@[0]);
            reveal_strlit("siege_soldier");
            assert("siege_soldier"@[0] != "login-failure"@[0]);
            reveal_strlit("friend-delete");
            assert("friend-delete"@[0] != "login-failure"@[0]);
            reveal_strlit("friend_delete");
            assert("friend_delete"@[0] != "login-failure"@[0]);
            reveal_strlit("friend-roster");
            assert("friend-roster"@[0] != "login-failure"@[0]);
            reveal_strlit("friend_roster");
            assert("friend_roster"@[0] != "login-failure"@[0]);
            reveal_strlit("guild-summary");
            assert("guild-summary"@[0] != "login-failure"@[0]);
            reveal_strlit("guild_summary");
            assert("guild_summary"@[0] != "login-failure"@[0]);
            reveal_strlit("guild-members");
            assert("guild-members"@[0] != "login-failure"@[0]);
            reveal_strlit("guild_members");
            assert("guild_members"@[0] != "login-failure"@[0]);
            reveal_strlit("inventory-use");
            assert("inventory-use"@[0] != "login-failure"@[0]);
            reveal_strlit("inventory_use");
            assert("inventory_use"@[0] != "login-failure"@[0]);
            reveal_strlit("vault-deposit");
            assert("vault-deposit"@[0] != "login-failure"@[0]);
            reveal_strlit("vault_deposit");
            assert("vault_deposit"@[0] != "login-failure"@[0]);
            reveal_strlit("login-success");
            assert("login-success"@[6] != "login-failure"@[6]);
            reveal_strlit("login_success");
            assert("login_success"@[5] != "login-failure"@[5]);
        },
        ControlCommand::SelectCharacter => {
            reveal_strlit("select-character");
            reveal_strlit("character-select");
            assert("character-select"@[0] != "select-character"@[0]);
            reveal_strlit("character_select");
            assert("character_select"@[0] != "select-character"@[0]);
            reveal_strlit("character-create");
            assert("character-create"@[0] != "select-character"@[0]);
            reveal_strlit("character_create");
            assert("character_create"@[0] != "select-character"@[0]);
            reveal_strlit("create-character");
            assert("create-character"@[0] != "select-character"@[0]);
            reveal_strlit("create_character");
            assert("create_character"@[0] != "select-character"@[0]);
        },
        ControlCommand::LogoutLogin => {
            reveal_strlit("logout-login");
            reveal_strlit("guild-create");
            assert("guild-create"@[0] != "logout-login"@[0]);
            reveal_strlit("guild_create");
            assert("guild_create"@[0] != "logout-login"@[0]);
            reveal_strlit("friend-inbox");
            assert("friend-inbox"@[0] != "logout-login"@[0]);
            reveal_strlit("friend_inbox");
            assert("friend_inbox"@[0] != "logout-login"@[0]);
            reveal_strlit("item-unequip");
            assert("item-unequip"@[0] != "logout-login"@[0]);
            reveal_strlit("item_unequip");
            assert("item_unequip"@[0] != "logout-login"@[0]);
            reveal_strlit("skill-target");
            assert("skill-target"@[0] != "logout-login"@[0]);
            reveal_strlit("skill_target");
            assert("skill_target"@[0] != "logout-login"@[0]);
        },
        ControlCommand::LogoutCharacter => {
            reveal_strlit("logout-character");
            reveal_strlit("character-select");
            assert("character-select"@[0] != "logout-character"@[0]);
            reveal_strlit("character_select");
            assert("character_select"@[0] != "logout-character"@[0]);
            reveal_strlit("character-create");
            assert("character-create"@[0] != "logout-character"@[0]);
            reveal_strlit("character_create");
            assert("character_create"@[0] != "logout-character"@[0]);
            reveal_strlit("create-character");
            assert("create-character"@[0] != "logout-character"@[0]);
            reveal_strlit("create_character");
            assert("create_character"@[0] != "logout-character"@[0]);
            reveal_strlit("select-character");
            assert("select-character"@[0] != "logout-character"@[0]);
            reveal_strlit("select_character");
            assert("select_character"@[0] != "logout-character"@[0]);
        },
        ControlCommand::Disconnect => {
            reveal_strlit("disconnect");
            reveal_strlit("friend-add");
            assert("friend-add"@[0] != "disconnect"@[0]);
            reveal_strlit("friend_add");
            assert("friend_add"@[0] != "disconnect"@[0]);
            reveal_strlit("guild-join");
            assert("guild-join"@[0] != "disconnect"@[0]);
            reveal_strlit("guild_join");
            assert("guild_join"@[0] != "disconnect"@[0]);
            reveal_strlit("guild-fire");
            assert("guild-fire"@[0] != "disconnect"@[0]);
            reveal_strlit("guild_fire");
            assert("guild_fire"@[0] != "disconnect"@[0]);
            reveal_strlit("item-equip");
            assert("item-equip"@[0] != "disconnect"@[0]);
            reveal_strlit("item_equip");
            assert("item_equip"@[0] != "disconnect"@[0]);
            reveal_strlit("duel-start");
            assert("duel-start"@[1] != "disconnect"@[1]);
            reveal_strlit("duel_start");
            assert("duel_start"@[1] != "disconnect"@[1]);
        },
        ControlCommand::Exit => {
            reveal_strlit("exit");
            reveal_strlit("boot");
            assert("boot"@[0] != "exit"@[0]);
            reveal_strlit("chat");
            assert("chat"@[0] != "exit"@[0]);
            reveal_strlit("shop");
            assert("shop"@[0] != "exit"@[0]);
            reveal_strlit("gate");
            assert("gate"@[0] != "exit"@[0]);
            reveal_strlit("gens");
            assert("gens"@[0] != "exit"@[0]);
            reveal_strlit("duel");
            assert("duel"@[0] != "exit"@[0]);
        },
        ControlCommand::Ping => {
            reveal_strlit("ping");
            reveal_strlit("boot");
            assert("boot"@[0] != "ping"@[0]);
            reveal_strlit("chat");
            assert("chat"@[0] != "ping"@[0]);
            reveal_strlit("shop");
            assert("shop"@[0] != "ping"@[0]);
            reveal_strlit("gate");
            assert("gate"@[0] != "ping"@[0]);
            reveal_strlit("gens");
            assert("gens"@[0] != "ping"@[0]);
            reveal_strlit("duel");
            assert("duel"@[0] != "ping"@[0]);
            reveal_strlit("exit");
            assert("exit"@[0] != "ping"@[0]);
        },
    }
}
/// Whether a name holds only lower-case letters, digits, `-` and `_`.
pub open spec fn plain_name(s: Seq<char>) -> bool
    decreases s.len(),
{
    s.len() == 0 || ((('a' <= s[0] && s[0] <= 'z') || ('0' <= s[0] && s[0] <= '9') || s[0] == '-'
        || s[0] == '_') && plain_name(s.drop_first()))
}

proof fn lemma_plain_name_chars(s: Seq<char>)
    requires
        plain_name(s),
    ensures
        forall|i: int|
            0 <= i < s.len() ==> !is_space(#[trigger] s[i]) && !('A' <= s[i] && s[i] <= 'Z'),
    decreases s.len(),
{
    if s.len() > 0 {
        lemma_plain_name_chars(s.drop_first());
        assert forall|i: int| 0 <= i < s.len() implies !is_space(#[trigger] s[i]) && !('A' <= s[i]
            && s[i] <= 'Z') by {
            if i > 0 {
                assert(s[i] == s.drop_first()[i - 1]);
            }
        }
    }
}

/// A plain name is its own normal form.
proof fn lemma_plain_name_normalized(s: Seq<char>)
    requires
        plain_name(s),
    ensures
        normalized(s) == s,
{
    lemma_plain_name_chars(s);
    if s.len() > 0 {
        assert(trim_start(s) == s);
        assert(trim_end(s) == s);
    } else {
        assert(trim_start(s) == s);
        assert(trim_end(s) == s);
    }
    assert(lower(s) =~= s);
}

/// Every canonical command name is already in normal form, so the command
/// reads back from its name.
pub proof fn lemma_parse_round_trip(command: ControlCommand)
    ensures
        command_for_name(normalized(command_name(command))) == Some(command),
{
    match command {
        ControlCommand::Boot => {
            reveal_strlit("boot");
            assert(plain_name("boot"@)) by {
                reveal_with_fuel(plain_name, 5);
            }
        },
        ControlCommand::AssetCheckFailed => {
            reveal_strlit("asset-check-failed");
            assert(plain_name("asset-check-failed"@)) by {
                reveal_with_fuel(plain_name, 19);
            }
        },
        ControlCommand::ReadyForLogin => {
            reveal_strlit("ready-for-login");
            assert(plain_name("ready-for-login"@)) by {
                reveal_with_fuel(plain_name, 16);
            }
        },
        ControlCommand::ServerSelect => {
            reveal_strlit("server-select");
            assert(plain_name("server-select"@)) by {
                reveal_with_fuel(plain_name, 14);
            }
        },
        ControlCommand::Options => {
            reveal_strlit("options");
            assert(plain_name("options"@)) by {
                reveal_with_fuel(plain_name, 8);
            }
        },
        ControlCommand::CharacterSelect => {
            reveal_strlit("character-select");
            assert(plain_name("character-select"@)) by {
                reveal_with_fuel(plain_name, 17);
            }
        },
        ControlCommand::CharacterCreate => {
            reveal_strlit("character-create");
            assert(plain_name("character-create"@)) by {
                reveal_with_fuel(plain_name, 17);
            }
        },
        ControlCommand::CreateCharacter => {
            reveal_strlit("create-character");
            assert(plain_name("create-character"@)) by {
                reveal_with_fuel(plain_name, 17);
            }
        },
        ControlCommand::Loading => {
            reveal_strlit("loading");
            assert(plain_name("loading"@)) by {
                reveal_with_fuel(plain_name, 8);
            }
        },
        ControlCommand::World => {
            reveal_strlit("world");
            assert(plain_name("world"@)) by {
                reveal_with_fuel(plain_name, 6);
            }
        },
        ControlCommand::Chat => {
            reveal_strlit("chat");
            assert(plain_name("chat"@)) by {
                reveal_with_fuel(plain_name, 5);
            }
        },
        ControlCommand::Npc => {
            reveal_strlit("npc");
            assert(plain_name("npc"@)) by {
                reveal_with_fuel(plain_name, 4);
            }
        },
        ControlCommand::Shop => {
            reveal_strlit("shop");
            assert(plain_name("shop"@)) by {
                reveal_with_fuel(plain_name, 5);
            }
        },
        ControlCommand::GameShop => {
            reveal_strlit("game-shop");
            assert(plain_name("game-shop"@)) by {
                reveal_with_fuel(plain_name, 10);
            }
        },
        ControlCommand::Trade => {
            reveal_strlit("trade");
            assert(plain_name("trade"@)) by {
                reveal_with_fuel(plain_name, 6);
            }
        },
        ControlCommand::Marketplace => {
            reveal_strlit("marketplace");
            assert(plain_name("marketplace"@)) by {
                reveal_with_fuel(plain_name, 12);
            }
        },
        ControlCommand::Party => {
            reveal_strlit("party");
            assert(plain_name("party"@)) by {
                reveal_with_fuel(plain_name, 6);
            }
        },
        ControlCommand::Gate => {
            reveal_strlit("gate");
            assert(plain_name("gate"@)) by {
                reveal_with_fuel(plain_name, 5);
            }
        },
        ControlCommand::Siege => {
            reveal_strlit("siege");
            assert(plain_name("siege"@)) by {
                reveal_with_fuel(plain_name, 6);
            }
        },
        ControlCommand::SiegeInactive => {
            reveal_strlit("siege-inactive");
            assert(plain_name("siege-inactive"@)) by {
                reveal_with_fuel(plain_name, 15);
            }
        },
        ControlCommand::SiegeSoldier => {
            reveal_strlit("siege-soldier");
            assert(plain_name("siege-soldier"@)) by {
                reveal_with_fuel(plain_name, 14);
            }
        },
        ControlCommand::SiegeCommander => {
            reveal_strlit("siege-commander");
            assert(plain_name("siege-commander"@)) by {
                reveal_with_fuel(plain_name, 16);
            }
        },
        ControlCommand::Events => {
            reveal_strlit("events");
            assert(plain_name("events"@)) by {
                reveal_with_fuel(plain_name, 7);
            }
        },
        ControlCommand::Gens => {
            reveal_strlit("gens");
            assert(plain_name("gens"@)) by {
                reveal_with_fuel(plain_name, 5);
            }
        },
        ControlCommand::Friend => {
            reveal_strlit("friend");
            assert(plain_name("friend"@)) by {
                reveal_with_fuel(plain_name, 7);
            }
        },
        ControlCommand::Guild => {
            reveal_strlit("guild");
            assert(plain_name("guild"@)) by {
                reveal_with_fuel(plain_name, 6);
            }
        },
        ControlCommand::FriendAdd => {
            reveal_strlit("friend-add");
            assert(plain_name("friend-add"@)) by {
                reveal_with_fuel(plain_name, 11);
            }
        },
        ControlCommand::FriendDelete => {
            reveal_strlit("friend-delete");
            assert(plain_name("friend-delete"@)) by {
                reveal_with_fuel(plain_name, 14);
            }
        },
        ControlCommand::GuildJoin => {
            reveal_strlit("guild-join");
            assert(plain_name("guild-join"@)) by {
                reveal_with_fuel(plain_name, 11);
            }
        },
        ControlCommand::GuildCreate => {
            reveal_strlit("guild-create");
            assert(plain_name("guild-create"@)) by {
                reveal_with_fuel(plain_name, 13);
            }
        },
        ControlCommand::FriendRoster => {
            reveal_strlit("friend-roster");
            assert(plain_name("friend-roster"@)) by {
                reveal_with_fuel(plain_name, 14);
            }
        },
        ControlCommand::FriendInbox => {
            reveal_strlit("friend-inbox");
            assert(plain_name("friend-inbox"@)) by {
                reveal_with_fuel(plain_name, 13);
            }
        },
        ControlCommand::FriendCompose => {
            reveal_strlit("friend-compose");
            assert(plain_name("friend-compose"@)) by {
                reveal_with_fuel(plain_name, 15);
            }
        },
        ControlCommand::FriendChatRooms => {
            reveal_strlit("friend-chat-rooms");
            assert(plain_name("friend-chat-rooms"@)) by {
                reveal_with_fuel(plain_name, 18);
            }
        },
        ControlCommand::GuildSummary => {
            reveal_strlit("guild-summary");
            assert(plain_name("guild-summary"@)) by {
                reveal_with_fuel(plain_name, 14);
            }
        },
        ControlCommand::GuildMembers => {
            reveal_strlit("guild-members");
            assert(plain_name("guild-members"@)) by {
                reveal_with_fuel(plain_name, 14);
            }
        },
        ControlCommand::GuildUnion => {
            reveal_strlit("guild-union");
            assert(plain_name("guild-union"@)) by {
                reveal_with_fuel(plain_name, 12);
            }
        },
        ControlCommand::GuildNoGuild => {
            reveal_strlit("guild-no-guild");
            assert(plain_name("guild-no-guild"@)) by {
                reveal_with_fuel(plain_name, 15);
            }
        },
        ControlCommand::GuildError => {
            reveal_strlit("guild-error");
            assert(plain_name("guild-error"@)) by {
                reveal_with_fuel(plain_name, 12);
            }
        },
        ControlCommand::GuildRoleAssign => {
            reveal_strlit("guild-role-assign");
            assert(plain_name("guild-role-assign"@)) by {
                reveal_with_fuel(plain_name, 18);
            }
        },
        ControlCommand::GuildFire => {
            reveal_strlit("guild-fire");
            assert(plain_name("guild-fire"@)) by {
                reveal_with_fuel(plain_name, 11);
            }
        },
        ControlCommand::GuildBanUnion => {
            reveal_strlit("guild-ban-union");
            assert(plain_name("guild-ban-union"@)) by {
                reveal_with_fuel(plain_name, 16);
            }
        },
        ControlCommand::InventoryUse => {
            reveal_strlit("inventory-use");
            assert(plain_name("inventory-use"@)) by {
                reveal_with_fuel(plain_name, 14);
            }
        },
        ControlCommand::InventoryEquip => {
            reveal_strlit("inventory-equip");
            assert(plain_name("inventory-equip"@)) by {
                reveal_with_fuel(plain_name, 16);
            }
        },
        ControlCommand::InventoryUnequip => {
            reveal_strlit("inventory-unequip");
            assert(plain_name("inventory-unequip"@)) by {
                reveal_with_fuel(plain_name, 18);
            }
        },
        ControlCommand::InventoryMove => {
            reveal_strlit("inventory-move");
            assert(plain_name("inventory-move"@)) by {
                reveal_with_fuel(plain_name, 15);
            }
        },
        ControlCommand::VaultDeposit => {
            reveal_strlit("vault-deposit");
            assert(plain_name("vault-deposit"@)) by {
                reveal_with_fuel(plain_name, 14);
            }
        },
        ControlCommand::VaultWithdraw => {
            reveal_strlit("vault-withdraw");
            assert(plain_name("vault-withdraw"@)) by {
                reveal_with_fuel(plain_name, 15);
            }
        },
        ControlCommand::Duel => {
            reveal_strlit("duel");
            assert(plain_name("duel"@)) by {
                reveal_with_fuel(plain_name, 5);
            }
        },
        ControlCommand::DuelStart => {
            reveal_strlit("duel-start");
            assert(plain_name("duel-start"@)) by {
                reveal_with_fuel(plain_name, 11);
            }
        },
        ControlCommand::DuelStop => {
            reveal_strlit("duel-stop");
            assert(plain_name("duel-stop"@)) by {
                reveal_with_fuel(plain_name, 10);
            }
        },
        ControlCommand::DuelChannelJoin => {
            reveal_strlit("duel-channel-join");
            assert(plain_name("duel-channel-join"@)) by {
                reveal_with_fuel(plain_name, 18);
            }
        },
        ControlCommand::DuelChannelQuit => {
            reveal_strlit("duel-channel-quit");
            assert(plain_name("duel-channel-quit"@)) by {
                reveal_with_fuel(plain_name, 18);
            }
        },
        ControlCommand::SkillTargeted => {
            reveal_strlit("skill-targeted");
            assert(plain_name("skill-targeted"@)) by {
                reveal_with_fuel(plain_name, 15);
            }
        },
        ControlCommand::Quests => {
            reveal_strlit("quests");
            assert(plain_name("quests"@)) by {
                reveal_with_fuel(plain_name, 7);
            }
        },
        ControlCommand::MuHelper => {
            reveal_strlit("mu-helper");
            assert(plain_name("mu-helper"@)) by {
                reveal_with_fuel(plain_name, 10);
            }
        },
        ControlCommand::LoginSuccess => {
            reveal_strlit("login-success");
            assert(plain_name("login-success"@)) by {
                reveal_with_fuel(plain_name, 14);
            }
        },
        ControlCommand::LoginFailure => {
            reveal_strlit("login-failure");
            assert(plain_name("login-failure"@)) by {
                reveal_with_fuel(plain_name, 14);
            }
        },
        ControlCommand::SelectCharacter => {
            reveal_strlit("select-character");
            assert(plain_name("select-character"@)) by {
                reveal_with_fuel(plain_name, 17);
            }
        },
        ControlCommand::LogoutLogin => {
            reveal_strlit("logout-login");
            assert(plain_name("logout-login"@)) by {
                reveal_with_fuel(plain_name, 13);
            }
        },
        ControlCommand::LogoutCharacter => {
            reveal_strlit("logout-character");
            assert(plain_name("logout-character"@)) by {
                reveal_with_fuel(plain_name, 17);
            }
        },
        ControlCommand::Disconnect => {
            reveal_strlit("disconnect");
            assert(plain_name("disconnect"@)) by {
                reveal_with_fuel(plain_name, 11);
            }
        },
        ControlCommand::Exit => {
            reveal_strlit("exit");
            assert(plain_name("exit"@)) by {
                reveal_with_fuel(plain_name, 5);
            }
        },
        ControlCommand::Ping => {
            reveal_strlit("ping");
            assert(plain_name("ping"@)) by {
                reveal_with_fuel(plain_name, 5);
            }
        },
    }
    lemma_plain_name_normalized(command_name(command));
    lemma_name_round_trip(command);
}

/// A name spelled with underscores where it has dashes.
pub open spec fn snake_case(s: Seq<char>) -> Seq<char> {
    s.map_values(|c: char| if c == '-' { '_' } else { c })
}

/// Every command also answers to its canonical name spelled with
/// underscores in place of dashes.
pub proof fn lemma_snake_case_round_trip(command: ControlCommand)
    ensures
        command_for_name(snake_case(command_name(command))) == Some(command),
{
    match command {
        ControlCommand::Boot => {
            reveal_strlit("boot");
            assert(snake_case("boot"@) =~= "boot"@);
        },
        ControlCommand::AssetCheckFailed => {
            reveal_strlit("asset-check-failed");
            reveal_strlit("asset_check_failed");
            assert(snake_case("asset-check-failed"@) =~= "asset_check_failed"@);
            reveal_strlit("asset-check-failed");
            assert("asset-check-failed"@[5] != "asset_check_failed"@[5]);
        },
        ControlCommand::ReadyForLogin => {
            reveal_strlit("ready-for-login");
            reveal_strlit("ready_for_login");
            assert(snake_case("ready-for-login"@) =~= "ready_for_login"@);
            reveal_strlit("ready-for-login");
            assert("ready-for-login"@[5] != "ready_for_login"@[5]);
        },
        ControlCommand::ServerSelect => {
            reveal_strlit("server-select");
            reveal_strlit("server_select");
            assert(snake_case("server-select"@) =~= "server_select"@);
            reveal_strlit("server-select");
            assert("server-select"@[6] != "server_select"@[6]);
        },
        ControlCommand::Options => {
            reveal_strlit("options");
            assert(snake_case("options"@) =~= "options"@);
        },
        ControlCommand::CharacterSelect => {
            reveal_strlit("character-select");
            reveal_strlit("character_select");
            assert(snake_case("character-select"@) =~= "character_select"@);
            reveal_strlit("character-select");
            assert("character-select"@[9] != "character_select"@[9]);
        },
        ControlCommand::CharacterCreate => {
            reveal_strlit("character-create");
            reveal_strlit("character_create");
            assert(snake_case("character-create"@) =~= "character_create"@);
            reveal_strlit("character-select");
            assert("character-select"@[9] != "character_create"@[9]);
            reveal_strlit("character_select");
            assert("character_select"@[10] != "character_create"@[10]);
            reveal_strlit("character-create");
            assert("character-create"@[9] != "character_create"@[9]);
        },
        ControlCommand::CreateCharacter => {
            reveal_strlit("create-character");
            reveal_strlit("create_character");
            assert(snake_case("create-character"@) =~= "create_character"@);
            reveal_strlit("character-select");
            assert("character-select"@[1] != "create_character"@[1]);
            reveal_strlit("character_select");
            assert("character_select"@[1] != "create_character"@[1]);
            reveal_strlit("character-create");
            assert("character-create"@[1] != "create_character"@[1]);
            reveal_strlit("character_create");
            assert("character_create"@[1] != "create_character"@[1]);
            reveal_strlit("create-character");
            assert("create-character"@[6] != "create_character"@[6]);
        },
        ControlCommand::Loading => {
            reveal_strlit("loading");
            assert(snake_case("loading"@) =~= "loading"@);
            reveal_strlit("options");
            assert("options"@[0] != "loading"@[0]);
        },
        ControlCommand::World => {
            reveal_strlit("world");
            assert(snake_case("world"@) =~= "world"@);
        },
        ControlCommand::Chat => {
            reveal_strlit("chat");
            assert(snake_case("chat"@) =~= "chat"@);
            reveal_strlit("boot");
            assert("boot"@[0] != "chat"@[0]);
        },
        ControlCommand::Npc => {
            reveal_strlit("npc");
            assert(snake_case("npc"@) =~= "npc"@);
        },
        ControlCommand::Shop => {
            reveal_strlit("shop");
            assert(snake_case("shop"@) =~= "shop"@);
            reveal_strlit("boot");
            assert("boot"@[0] != "shop"@[0]);
            reveal_strlit("chat");
            assert("chat"@[0] != "shop"@[0]);
        },
        ControlCommand::GameShop => {
            reveal_strlit("game-shop");
            reveal_strlit("game_shop");
            assert(snake_case("game-shop"@) =~= "game_shop"@);
            reveal_strlit("game-shop");
            assert("game-shop"@[4] != "game_shop"@[4]);
        },
        ControlCommand::Trade => {
            reveal_strlit("trade");
            assert(snake_case("trade"@) =~= "trade"@);
            reveal_strlit("world");
            assert("world"@[0] != "trade"@[0]);
        },
        ControlCommand::Marketplace => {
            reveal_strlit("marketplace");
            assert(snake_case("marketplace"@) =~= "marketplace"@);
            reveal_strlit("server-list");
            assert("server-list"@[0] != "marketplace"@[0]);
            reveal_strlit("server_list");
            assert("server_list"@[0] != "marketplace"@[0]);
        },
        ControlCommand::Party => {
            reveal_strlit("party");
            assert(snake_case("party"@) =~= "party"@);
            reveal_strlit("world");
            assert("world"@[0] != "party"@[0]);
            reveal_strlit("trade");
            assert("trade"@[0] != "party"@[0]);
        },
        ControlCommand::Gate => {
            reveal_strlit("gate");
            assert(snake_case("gate"@) =~= "gate"@);
            reveal_strlit("boot");
            assert("boot"@[0] != "gate"@[0]);
            reveal_strlit("chat");
            assert("chat"@[0] != "gate"@[0]);
            reveal_strlit("shop");
            assert("shop"@[0] != "gate"@[0]);
        },
        ControlCommand::Siege => {
            reveal_strlit("siege");
            assert(snake_case("siege"@) =~= "siege"@);
            reveal_strlit("world");
            assert("world"@[0] != "siege"@[0]);
            reveal_strlit("trade");
            assert("trade"@[0] != "siege"@[0]);
            reveal_strlit("party");
            assert("party"@[0] != "siege"@[0]);
        },
        ControlCommand::SiegeInactive => {
            reveal_strlit("siege-inactive");
            reveal_strlit("siege_inactive");
            assert(snake_case("siege-inactive"@) =~= "siege_inactive"@);
            reveal_strlit("character-list");
            assert("character-list"@[0] != "siege_inactive"@[0]);
            reveal_strlit("character_list");
            assert("character_list"@[0] != "siege_inactive"@[0]);
            reveal_strlit("siege-inactive");
            assert("siege-inactive"@[5] != "siege_inactive"@[5]);
        },
        ControlCommand::SiegeSoldier => {
            reveal_strlit("siege-soldier");
            reveal_strlit("siege_soldier");
            assert(snake_case("siege-soldier"@) =~= "siege_soldier"@);
            reveal_strlit("server-select");
            assert("server-select"@[1] != "siege_soldier"@[1]);
            reveal_strlit("server_select");
            assert("server_select"@[1] != "siege_soldier"@[1]);
            reveal_strlit("siege-soldier");
            assert("siege-soldier"@[5] != "siege_soldier"@[5]);
        },
        ControlCommand::SiegeCommander => {
            reveal_strlit("siege-commander");
            reveal_strlit("siege_commander");
            assert(snake_case("siege-commander"@) =~= "siege_commander"@);
            reveal_strlit("ready-for-login");
            assert("ready-for-login"@[0] != "siege_commander"@[0]);
            reveal_strlit("ready_for_login");
            assert("ready_for_login"@[0] != "siege_commander"@[0]);
            reveal_strlit("siege-commander");
            assert("siege-commander"@[5] != "siege_commander"@[5]);
        },
        ControlCommand::Events => {
            reveal_strlit("events");
            assert(snake_case("events"@) =~= "events"@);
        },
        ControlCommand::Gens => {
            reveal_strlit("gens");
            assert(snake_case("gens"@) =~= "gens"@);
            reveal_strlit("boot");
            assert("boot"@[0] != "gens"@[0]);
            reveal_strlit("chat");
            assert("chat"@[0] != "gens"@[0]);
            reveal_strlit("shop");
            assert("shop"@[0] != "gens"@[0]);
            reveal_strlit("gate");
            assert("gate"@[1] != "gens"@[1]);
        },
        ControlCommand::Friend => {
            reveal_strlit("friend");
            assert(snake_case("friend"@) =~= "friend"@);
            reveal_strlit("events");
            assert("events"@[0] != "friend"@[0]);
        },
        ControlCommand::Guild => {
            reveal_strlit("guild");
            assert(snake_case("guild"@) =~= "guild"@);
            reveal_strlit("world");
            assert("world"@[0] != "guild"@[0]);
            reveal_strlit("trade");
            assert("trade"@[0] != "guild"@[0]);
            reveal_strlit("party");
            assert("party"@[0] != "guild"@[0]);
            reveal_strlit("siege");
            assert("siege"@[0] != "guild"@[0]);
        },
        ControlCommand::FriendAdd => {
            reveal_strlit("friend-add");
            reveal_strlit("friend_add");
            assert(snake_case("friend-add"@) =~= "friend_add"@);
            reveal_strlit("friend-add");
            assert("friend-add"@[6] != "friend_add"@[6]);
        },
        ControlCommand::FriendDelete => {
            reveal_strlit("friend-delete");
            reveal_strlit("friend_delete");
            assert(snake_case("friend-delete"@) =~= "friend_delete"@);
            reveal_strlit("server-select");
            assert("server-select"@[0] != "friend_delete"@[0]);
            reveal_strlit("server_select");
            assert("server_select"@[0] != "friend_delete"@[0]);
            reveal_strlit("siege-soldier");
            assert("siege-soldier"@[0] != "friend_delete"@[0]);
            reveal_strlit("siege_soldier");
            assert("siege_soldier"@[0] != "friend_delete"@[0]);
            reveal_strlit("friend-delete");
            assert("friend-delete"@[6] != "friend_delete"@[6]);
        },
        ControlCommand::GuildJoin => {
            reveal_strlit("guild-join");
            reveal_strlit("guild_join");
            assert(snake_case("guild-join"@) =~= "guild_join"@);
            reveal_strlit("friend-add");
            assert("friend-add"@[0] != "guild_join"@[0]);
            reveal_strlit("friend_add");
            assert("friend_add"@[0] != "guild_join"@[0]);
            reveal_strlit("guild-join");
            assert("guild-join"@[5] != "guild_join"@[5]);
        },
        ControlCommand::GuildCreate => {
            reveal_strlit("guild-create");
            reveal_strlit("guild_create");
            assert(snake_case("guild-create"@) =~= "guild_create"@);
            reveal_strlit("guild-create");
            assert("guild-create"@[5] != "guild_create"@[5]);
        },
        ControlCommand::FriendRoster => {
            reveal_strlit("friend-roster");
            reveal_strlit("friend_roster");
            assert(snake_case("friend-roster"@) =~= "friend_roster"@);
            reveal_strlit("server-select");
            assert("server-select"@[0] != "friend_roster"@[0]);
            reveal_strlit("server_select");
            assert("server_select"@[0] != "friend_roster"@[0]);
            reveal_strlit("siege-soldier");
            assert("siege-soldier"@[0] != "friend_roster"@[0]);
            reveal_strlit("siege_soldier");
            assert("siege_soldier"@[0] != "friend_roster"@[0]);
            reveal_strlit("friend-delete");
            assert("friend-delete"@[6] != "friend_roster"@[6]);
            reveal_strlit("friend_delete");
            assert("friend_delete"@[7] != "friend_roster"@[7]);
            reveal_strlit("friend-roster");
            assert("friend-roster"@[6] != "friend_roster"@[6]);
        },
        ControlCommand::FriendInbox => {
            reveal_strlit("friend-inbox");
            reveal_strlit("friend_inbox");
            assert(snake_case("friend-inbox"@) =~= "friend_inbox"@);
            reveal_strlit("guild-create");
            assert("guild-create"@[0] != "friend_inbox"@[0]);
            reveal_strlit("guild_create");
            assert("guild_create"@[0] != "friend_inbox"@[0]);
            reveal_strlit("friend-inbox");
            assert("friend-inbox"@[6] != "friend_inbox"@[6]);
        },
        ControlCommand::FriendCompose => {
            reveal_strlit("friend-compose");
            reveal_strlit("friend_compose");
            assert(snake_case("friend-compose"@) =~= "friend_compose"@);
            reveal_strlit("character-list");
            assert("character-list"@[0] != "friend_compose"@[0]);
            reveal_strlit("character_list");
            assert("character_list"@[0] != "friend_compose"@[0]);
            reveal_strlit("siege-inactive");
            assert("siege-inactive"@[0] != "friend_compose"@[0]);
            reveal_strlit("siege_inactive");
            assert("siege_inactive"@[0] != "friend_compose"@[0]);
            reveal_strlit("friend-compose");
            assert("friend-compose"@[6] != "friend_compose"@[6]);
        },
        ControlCommand::FriendChatRooms => {
            reveal_strlit("friend-chat-rooms");
            reveal_strlit("friend_chat_rooms");
            assert(snake_case("friend-chat-rooms"@) =~= "friend_chat_rooms"@);
            reveal_strlit("friend-chat-rooms");
            assert("friend-chat-rooms"@[6] != "friend_chat_rooms"@[6]);
        },
        ControlCommand::GuildSummary => {
            reveal_strlit("guild-summary");
            reveal_strlit("guild_summary");
            assert(snake_case("guild-summary"@) =~= "guild_summary"@);
            reveal_strlit("server-select");
            assert("server-select"@[0] != "guild_summary"@[0]);
            reveal_strlit("server_select");
            assert("server_select"@[0] != "guild_summary"@[0]);
            reveal_strlit("siege-soldier");
            assert("siege-soldier"@[0] != "guild_summary"@[0]);
            reveal_strlit("siege_soldier");
            assert("siege_soldier"@[0] != "guild_summary"@[0]);
            reveal_strlit("friend-delete");
            assert("friend-delete"@[0] != "guild_summary"@[0]);
            reveal_strlit("friend_delete");
            assert("friend_delete"@[0] != "guild_summary"@[0]);
            reveal_strlit("friend-roster");
            assert("friend-roster"@[0] != "guild_summary"@[0]);
            reveal_strlit("friend_roster");
            assert("friend_roster"@[0] != "guild_summary"@[0]);
            reveal_strlit("guild-summary");
            assert("guild-summary"@[5] != "guild_summary"@[5]);
        },
        ControlCommand::GuildMembers => {
            reveal_strlit("guild-members");
            reveal_strlit("guild_members");
            assert(snake_case("guild-members"@) =~= "guild_members"@);
            reveal_strlit("server-select");
            assert("server-select"@[0] != "guild_members"@[0]);
            reveal_strlit("server_select");
            assert("server_select"@[0] != "guild_members"@[0]);
            reveal_strlit("siege-soldier");
            assert("siege-soldier"@[0] != "guild_members"@[0]);
            reveal_strlit("siege_soldier");
            assert("siege_soldier"@[0] != "guild_members"@[0]);
            reveal_strlit("friend-delete");
            assert("friend-delete"@[0] != "guild_members"@[0]);
            reveal_strlit("friend_delete");
            assert("friend_delete"@[0] != "guild_members"@[0]);
            reveal_strlit("friend-roster");
            assert("friend-roster"@[0] != "guild_members"@[0]);
            reveal_strlit("friend_roster");
            assert("friend_roster"@[0] != "guild_members"@[0]);
            reveal_strlit("guild-summary");
            assert("guild-summary"@[5] != "guild_members"@[5]);
            reveal_strlit("guild_summary");
            assert("guild_summary"@[6] != "guild_members"@[6]);
            reveal_strlit("guild-members");
            assert("guild-members"@[5] != "guild_members"@[5]);
        },
        ControlCommand::GuildUnion => {
            reveal_strlit("guild-union");
            reveal_strlit("guild_union");
            assert(snake_case("guild-union"@) =~= "guild_union"@);
            reveal_strlit("server-list");
            assert("server-list"@[0] != "guild_union"@[0]);
            reveal_strlit("server_list");
            assert("server_list"@[0] != "guild_union"@[0]);
            reveal_strlit("marketplace");
            assert("marketplace"@[0] != "guild_union"@[0]);
            reveal_strlit("player-shop");
            assert("player-shop"@[0] != "guild_union"@[0]);
            reveal_strlit("player_shop");
            assert("player_shop"@[0] != "guild_union"@[0]);
            reveal_strlit("guild-union");
            assert("guild-union"@[5] != "guild_union"@[5]);
        },
        ControlCommand::GuildNoGuild => {
            reveal_strlit("guild-no-guild");
            reveal_strlit("guild_no_guild");
            assert(snake_case("guild-no-guild"@) =~= "guild_no_guild"@);
            reveal_strlit("character-list");
            assert("character-list"@[0] != "guild_no_guild"@[0]);
            reveal_strlit("character_list");
            assert("character_list"@[0] != "guild_no_guild"@[0]);
            reveal_strlit("siege-inactive");
            assert("siege-inactive"@[0] != "guild_no_guild"@[0]);
            reveal_strlit("siege_inactive");
            assert("siege_inactive"@[0] != "guild_no_guild"@[0]);
            reveal_strlit("friend-compose");
            assert("friend-compose"@[0] != "guild_no_guild"@[0]);
            reveal_strlit("friend_compose");
            assert("friend_compose"@[0] != "guild_no_guild"@[0]);
            reveal_strlit("guild-no-guild");
            assert("guild-no-guild"@[5] != "guild_no_guild"@[5]);
        },
        ControlCommand::GuildError => {
            reveal_strlit("guild-error");
            reveal_strlit("guild_error");
            assert(snake_case("guild-error"@) =~= "guild_error"@);
            reveal_strlit("server-list");
            assert("server-list"@[0] != "guild_error"@[0]);
            reveal_strlit("server_list");
            assert("server_list"@[0] != "guild_error"@[0]);
            reveal_strlit("marketplace");
            assert("marketplace"@[0] != "guild_error"@[0]);
            reveal_strlit("player-shop");
            assert("player-shop"@[0] != "guild_error"@[0]);
            reveal_strlit("player_shop");
            assert("player_shop"@[0] != "guild_error"@[0]);
            reveal_strlit("guild-union");
            assert("guild-union"@[5] != "guild_error"@[5]);
            reveal_strlit("guild_union");
            assert("guild_union"@[6] != "guild_error"@[6]);
            reveal_strlit("guild-error");
            assert("guild-error"@[5] != "guild_error"@[5]);
        },
        ControlCommand::GuildRoleAssign => {
            reveal_strlit("guild-role-assign");
            reveal_strlit("guild_role_assign");
            assert(snake_case("guild-role-assign"@) =~= "guild_role_assign"@);
            reveal_strlit("friend-chat-rooms");
            assert("friend-chat-rooms"@[0] != "guild_role_assign"@[0]);
            reveal_strlit("friend_chat_rooms");
            assert("friend_chat_rooms"@[0] != "guild_role_assign"@[0]);
            reveal_strlit("friend-chat_rooms");
            assert("friend-chat_rooms"@[0] != "guild_role_assign"@[0]);
            reveal_strlit("guild-role-assign");
            assert("guild-role-assign"@[5] != "guild_role_assign"@[5]);
        },
        ControlCommand::GuildFire => {
            reveal_strlit("guild-fire");
            reveal_strlit("guild_fire");
            assert(snake_case("guild-fire"@) =~= "guild_fire"@);
            reveal_strlit("friend-add");
            assert("friend-add"@[0] != "guild_fire"@[0]);
            reveal_strlit("friend_add");
            assert("friend_add"@[0] != "guild_fire"@[0]);
            reveal_strlit("guild-join");
            assert("guild-join"@[5] != "guild_fire"@[5]);
            reveal_strlit("guild_join");
            assert("guild_join"@[6] != "guild_fire"@[6]);
            reveal_strlit("guild-fire");
            assert("guild-fire"@[5] != "guild_fire"@[5]);
        },
        ControlCommand::GuildBanUnion => {
            reveal_strlit("guild-ban-union");
            reveal_strlit("guild_ban_union");
            assert(snake_case("guild-ban-union"@) =~= "guild_ban_union"@);
            reveal_strlit("ready-for-login");
            assert("ready-for-login"@[0] != "guild_ban_union"@[0]);
            reveal_strlit("ready_for_login");
            assert("ready_for_login"@[0] != "guild_ban_union"@[0]);
            reveal_strlit("siege-commander");
            assert("siege-commander"@[0] != "guild_ban_union"@[0]);
            reveal_strlit("siege_commander");
            assert("siege_commander"@[0] != "guild_ban_union"@[0]);
            reveal_strlit("guild-ban-union");
            assert("guild-ban-union"@[5] != "guild_ban_union"@[5]);
        },
        ControlCommand::InventoryUse => {
            reveal_strlit("inventory-use");
            reveal_strlit("inventory_use");
            assert(snake_case("inventory-use"@) =~= "inventory_use"@);
            reveal_strlit("server-select");
            assert("server-select"@[0] != "inventory_use"@[0]);
            reveal_strlit("server_select");
            assert("server_select"@[0] != "inventory_use"@[0]);
            reveal_strlit("siege-soldier");
            assert("siege-soldier"@[0] != "inventory_use"@[0]);
            reveal_strlit("siege_soldier");
            assert("siege_soldier"@[0] != "inventory_use"@[0]);
            reveal_strlit("friend-delete");
            assert("friend-delete"@[0] != "inventory_use"@[0]);
            reveal_strlit("friend_delete");
            assert("friend_delete"@[0] != "inventory_use"@[0]);
            reveal_strlit("friend-roster");
            assert("friend-roster"@[0] != "inventory_use"@[0]);
            reveal_strlit("friend_roster");
            assert("friend_roster"@[0] != "inventory_use"@[0]);
            reveal_strlit("guild-summary");
            assert("guild-summary"@[0] != "inventory_use"@[0]);
            reveal_strlit("guild_summary");
            assert("guild_summary"@[0] != "inventory_use"@[0]);
            reveal_strlit("guild-members");
            assert("guild-members"@[0] != "inventory_use"@[0]);
            reveal_strlit("guild_members");
            assert("guild_members"@[0] != "inventory_use"@[0]);
            reveal_strlit("inventory-use");
            assert("inventory-use"@[9] != "inventory_use"@[9]);
        },
        ControlCommand::InventoryEquip => {
            reveal_strlit("inventory-equip");
            reveal_strlit("inventory_equip");
            assert(snake_case("inventory-equip"@) =~= "inventory_equip"@);
            reveal_strlit("ready-for-login");
            assert("ready-for-login"@[0] != "inventory_equip"@[0]);
            reveal_strlit("ready_for_login");
            assert("ready_for_login"@[0] != "inventory_equip"@[0]);
            reveal_strlit("siege-commander");
            assert("siege-commander"@[0] != "inventory_equip"@[0]);
            reveal_strlit("siege_commander");
            assert("siege_commander"@[0] != "inventory_equip"@[0]);
            reveal_strlit("guild-ban-union");
            assert("guild-ban-union"@[0] != "inventory_equip"@[0]);
            reveal_strlit("guild_ban_union");
            assert("guild_ban_union"@[0] != "inventory_equip"@[0]);
            reveal_strlit("inventory-equip");
            assert("inventory-equip"@[9] != "inventory_equip"@[9]);
        },
        ControlCommand::InventoryUnequip => {
            reveal_strlit("inventory-unequip");
            reveal_strlit("inventory_unequip");
            assert(snake_case("inventory-unequip"@) =~= "inventory_unequip"@);
            reveal_strlit("friend-chat-rooms");
            assert("friend-chat-rooms"@[0] != "inventory_unequip"@[0]);
            reveal_strlit("friend_chat_rooms");
            assert("friend_chat_rooms"@[0] != "inventory_unequip"@[0]);
            reveal_strlit("friend-chat_rooms");
            assert("friend-chat_rooms"@[0] != "inventory_unequip"@[0]);
            reveal_strlit("guild-role-assign");
            assert("guild-role-assign"@[0] != "inventory_unequip"@[0]);
            reveal_strlit("guild_role_assign");
            assert("guild_role_assign"@[0] != "inventory_unequip"@[0]);
            reveal_strlit("guild-kick-player");
            assert("guild-kick-player"@[0] != "inventory_unequip"@[0]);
            reveal_strlit("guild_kick_player");
            assert("guild_kick_player"@[0] != "inventory_unequip"@[0]);
            reveal_strlit("inventory-unequip");
            assert("inventory-unequip"@[9] != "inventory_unequip"@[9]);
        },
        ControlCommand::InventoryMove => {
            reveal_strlit("inventory-move");
            reveal_strlit("inventory_move");
            assert(snake_case("inventory-move"@) =~= "inventory_move"@);
            reveal_strlit("character-list");
            assert("character-list"@[0] != "inventory_move"@[0]);
            reveal_strlit("character_list");
            assert("character_list"@[0] != "inventory_move"@[0]);
            reveal_strlit("siege-inactive");
            assert("siege-inactive"@[0] != "inventory_move"@[0]);
            reveal_strlit("siege_inactive");
            assert("siege_inactive"@[0] != "inventory_move"@[0]);
            reveal_strlit("friend-compose");
            assert("friend-compose"@[0] != "inventory_move"@[0]);
            reveal_strlit("friend_compose");
            assert("friend_compose"@[0] != "inventory_move"@[0]);
            reveal_strlit("guild-no-guild");
            assert("guild-no-guild"@[0] != "inventory_move"@[0]);
            reveal_strlit("guild_no_guild");
            assert("guild_no_guild"@[0] != "inventory_move"@[0]);
            reveal_strlit("inventory-move");
            assert("inventory-move"@[9] != "inventory_move"@[9]);
        },
        ControlCommand::VaultDeposit => {
            reveal_strlit("vault-deposit");
            reveal_strlit("vault_deposit");
            assert(snake_case("vault-deposit"@) =~= "vault_deposit"@);
            reveal_strlit("server-select");
            assert("server-select"@[0] != "vault_deposit"@[0]);
            reveal_strlit("server_select");
            assert("server_select"@[0] != "vault_deposit"@[0]);
            reveal_strlit("siege-soldier");
            assert("siege-soldier"@[0] != "vault_deposit"@[0]);
            reveal_strlit("siege_soldier");
            assert("siege_soldier"@[0] != "vault_deposit"@[0]);
            reveal_strlit("friend-delete");
            assert("friend-delete"@[0] != "vault_deposit"@[0]);
            reveal_strlit("friend_delete");
            assert("friend_delete"@[0] != "vault_deposit"@[0]);
            reveal_strlit("friend-roster");
            assert("friend-roster"@[0] != "vault_deposit"@[0]);
            reveal_strlit("friend_roster");
            assert("friend_roster"@[0] != "vault_deposit"@[0]);
            reveal_strlit("guild-summary");
            assert("guild-summary"@[0] != "vault_deposit"@[0]);
            reveal_strlit("guild_summary");
            assert("guild_summary"@[0] != "vault_deposit"@[0]);
            reveal_strlit("guild-members");
            assert("guild-members"@[0] != "vault_deposit"@[0]);
            reveal_strlit("guild_members");
            assert("guild_members"@[0] != "vault_deposit"@[0]);
            reveal_strlit("inventory-use");
            assert("inventory-use"@[0] != "vault_deposit"@[0]);
            reveal_strlit("inventory_use");
            assert("inventory_use"@[0] != "vault_deposit"@[0]);
            reveal_strlit("vault-deposit");
            assert("vault-deposit"@[5] != "vault_deposit"@[5]);
        },
        ControlCommand::VaultWithdraw => {
            reveal_strlit("vault-withdraw");
            reveal_strlit("vault_withdraw");
            assert(snake_case("vault-withdraw"@) =~= "vault_withdraw"@);
            reveal_strlit("character-list");
            assert("character-list"@[0] != "vault_withdraw"@[0]);
            reveal_strlit("character_list");
            assert("character_list"@[0] != "vault_withdraw"@[0]);
            reveal_strlit("siege-inactive");
            assert("siege-inactive"@[0] != "vault_withdraw"@[0]);
            reveal_strlit("siege_inactive");
            assert("siege_inactive"@[0] != "vault_withdraw"@[0]);
            reveal_strlit("friend-compose");
            assert("friend-compose"@[0] != "vault_withdraw"@[0]);
            reveal_strlit("friend_compose");
            assert("friend_compose"@[0] != "vault_withdraw"@[0]);
            reveal_strlit("guild-no-guild");
            assert("guild-no-guild"@[0] != "vault_withdraw"@[0]);
            reveal_strlit("guild_no_guild");
            assert("guild_no_guild"@[0] != "vault_withdraw"@[0]);
            reveal_strlit("inventory-move");
            assert("inventory-move"@[0] != "vault_withdraw"@[0]);
            reveal_strlit("inventory_move");
            assert("inventory_move"@[0] != "vault_withdraw"@[0]);
            reveal_strlit("vault-withdraw");
            assert("vault-withdraw"@[5] != "vault_withdraw"@[5]);
        },
        ControlCommand::Duel => {
            reveal_strlit("duel");
            assert(snake_case("duel"@) =~= "duel"@);
            reveal_strlit("boot");
            assert("boot"@[0] != "duel"@[0]);
            reveal_strlit("chat");
            assert("chat"@[0] != "duel"@[0]);
            reveal_strlit("shop");
            assert("shop"@[0] != "duel"@[0]);
            reveal_strlit("gate");
            assert("gate"@[0] != "duel"@[0]);
            reveal_strlit("gens");
            assert("gens"@[0] != "duel"@[0]);
        },
        ControlCommand::DuelStart => {
            reveal_strlit("duel-start");
            reveal_strlit("duel_start");
            assert(snake_case("duel-start"@) =~= "duel_start"@);
            reveal_strlit("friend-add");
            assert("friend-add"@[0] != "duel_start"@[0]);
            reveal_strlit("friend_add");
            assert("friend_add"@[0] != "duel_start"@[0]);
            reveal_strlit("guild-join");
            assert("guild-join"@[0] != "duel_start"@[0]);
            reveal_strlit("guild_join");
            assert("guild_join"@[0] != "duel_start"@[0]);
            reveal_strlit("guild-fire");
            assert("guild-fire"@[0] != "duel_start"@[0]);
            reveal_strlit("guild_fire");
            assert("guild_fire"@[0] != "duel_start"@[0]);
            reveal_strlit("item-equip");
            assert("item-equip"@[0] != "duel_start"@[0]);
            reveal_strlit("item_equip");
            assert("item_equip"@[0] != "duel_start"@[0]);
            reveal_strlit("duel-start");
            assert("duel-start"@[4] != "duel_start"@[4]);
        },
        ControlCommand::DuelStop => {
            reveal_strlit("duel-stop");
            reveal_strlit("duel_stop");
            assert(snake_case("duel-stop"@) =~= "duel_stop"@);
            reveal_strlit("game-shop");
            assert("game-shop"@[0] != "duel_stop"@[0]);
            reveal_strlit("game_shop");
            assert("game_shop"@[0] != "duel_stop"@[0]);
            reveal_strlit("item-move");
            assert("item-move"@[0] != "duel_stop"@[0]);
            reveal_strlit("item_move");
            assert("item_move"@[0] != "duel_stop"@[0]);
            reveal_strlit("duel-stop");
            assert("duel-stop"@[4] != "duel_stop"@[4]);
        },
        ControlCommand::DuelChannelJoin => {
            reveal_strlit("duel-channel-join");
            reveal_strlit("duel_channel_join");
            assert(snake_case("duel-channel-join"@) =~= "duel_channel_join"@);
            reveal_strlit("friend-chat-rooms");
            assert("friend-chat-rooms"@[0] != "duel_channel_join"@[0]);
            reveal_strlit("friend_chat_rooms");
            assert("friend_chat_rooms"@[0] != "duel_channel_join"@[0]);
            reveal_strlit("friend-chat_rooms");
            assert("friend-chat_rooms"@[0] != "duel_channel_join"@[0]);
            reveal_strlit("guild-role-assign");
            assert("guild-role-assign"@[0] != "duel_channel_join"@[0]);
            reveal_strlit("guild_role_assign");
            assert("guild_role_assign"@[0] != "duel_channel_join"@[0]);
            reveal_strlit("guild-kick-player");
            assert("guild-kick-player"@[0] != "duel_channel_join"@[0]);
            reveal_strlit("guild_kick_player");
            assert("guild_kick_player"@[0] != "duel_channel_join"@[0]);
            reveal_strlit("inventory-unequip");
            assert("inventory-unequip"@[0] != "duel_channel_join"@[0]);
            reveal_strlit("inventory_unequip");
            assert("inventory_unequip"@[0] != "duel_channel_join"@[0]);
            reveal_strlit("duel-channel-join");
            assert("duel-channel-join"@[4] != "duel_channel_join"@[4]);
        },
        ControlCommand::DuelChannelQuit => {
            reveal_strlit("duel-channel-quit");
            reveal_strlit("duel_channel_quit");
            assert(snake_case("duel-channel-quit"@) =~= "duel_channel_quit"@);
            reveal_strlit("friend-chat-rooms");
            assert("friend-chat-rooms"@[0] != "duel_channel_quit"@[0]);
            reveal_strlit("friend_chat_rooms");
            assert("friend_chat_rooms"@[0] != "duel_channel_quit"@[0]);
            reveal_strlit("friend-chat_rooms");
            assert("friend-chat_rooms"@[0] != "duel_channel_quit"@[0]);
            reveal_strlit("guild-role-assign");
            assert("guild-role-assign"@[0] != "duel_channel_quit"@[0]);
            reveal_strlit("guild_role_assign");
            assert("guild_role_assign"@[0] != "duel_channel_quit"@[0]);
            reveal_strlit("guild-kick-player");
            assert("guild-kick-player"@[0] != "duel_channel_quit"@[0]);
            reveal_strlit("guild_kick_player");
            assert("guild_kick_player"@[0] != "duel_channel_quit"@[0]);
            reveal_strlit("inventory-unequip");
            assert("inventory-unequip"@[0] != "duel_channel_quit"@[0]);
            reveal_strlit("inventory_unequip");
            assert("inventory_unequip"@[0] != "duel_channel_quit"@[0]);
            reveal_strlit("duel-channel-join");
            assert("duel-channel-join"@[4] != "duel_channel_quit"@[4]);
            reveal_strlit("duel_channel_join");
            assert("duel_channel_join"@[13] != "duel_channel_quit"@[13]);
            reveal_strlit("duel-join-channel");
            assert("duel-join-channel"@[4] != "duel_channel_quit"@[4]);
            reveal_strlit("duel-channel-quit");
            assert("duel-channel-quit"@[4] != "duel_channel_quit"@[4]);
        },
        ControlCommand::SkillTargeted => {
            reveal_strlit("skill-targeted");
            reveal_strlit("skill_targeted");
            assert(snake_case("skill-targeted"@) =~= "skill_targeted"@);
            reveal_strlit("character-list");
            assert("character-list"@[0] != "skill_targeted"@[0]);
            reveal_strlit("character_list");
            assert("character_list"@[0] != "skill_targeted"@[0]);
            reveal_strlit("siege-inactive");
            assert("siege-inactive"@[1] != "skill_targeted"@[1]);
            reveal_strlit("siege_inactive");
            assert("siege_inactive"@[1] != "skill_targeted"@[1]);
            reveal_strlit("friend-compose");
            assert("friend-compose"@[0] != "skill_targeted"@[0]);
            reveal_strlit("friend_compose");
            assert("friend_compose"@[0] != "skill_targeted"@[0]);
            reveal_strlit("guild-no-guild");
            assert("guild-no-guild"@[0] != "skill_targeted"@[0]);
            reveal_strlit("guild_no_guild");
            assert("guild_no_guild"@[0] != "skill_targeted"@[0]);
            reveal_strlit("inventory-move");
            assert("inventory-move"@[0] != "skill_targeted"@[0]);
            reveal_strlit("inventory_move");
            assert("inventory_move"@[0] != "skill_targeted"@[0]);
            reveal_strlit("vault-withdraw");
            assert("vault-withdraw"@[0] != "skill_targeted"@[0]);
            reveal_strlit("vault_withdraw");
            assert("vault_withdraw"@[0] != "skill_targeted"@[0]);
            reveal_strlit("skill-targeted");
            assert("skill-targeted"@[5] != "skill_targeted"@[5]);
        },
        ControlCommand::Quests => {
            reveal_strlit("quests");
            assert(snake_case("quests"@) =~= "quests"@);
            reveal_strlit("events");
            assert("events"@[0] != "quests"@[0]);
            reveal_strlit("friend");
            assert("friend"@[0] != "quests"@[0]);
        },
        ControlCommand::MuHelper => {
            reveal_strlit("mu-helper");
            reveal_strlit("mu_helper");
            assert(snake_case("mu-helper"@) =~= "mu_helper"@);
            reveal_strlit("game-shop");
            assert("game-shop"@[0] != "mu_helper"@[0]);
            reveal_strlit("game_shop");
            assert("game_shop"@[0] != "mu_helper"@[0]);
            reveal_strlit("item-move");
            assert("item-move"@[0] != "mu_helper"@[0]);
            reveal_strlit("item_move");
            assert("item_move"@[0] != "mu_helper"@[0]);
            reveal_strlit("duel-stop");
            assert("duel-stop"@[0] != "mu_helper"@[0]);
            reveal_strlit("duel_stop");
            assert("duel_stop"@[0] != "mu_helper"@[0]);
            reveal_strlit("mu-helper");
            assert("mu-helper"@[2] != "mu_helper"@[2]);
        },
        ControlCommand::LoginSuccess => {
            reveal_strlit("login-success");
            reveal_strlit("login_success");
            assert(snake_case("login-success"@) =~= "login_success"@);
            reveal_strlit("server-select");
            assert("server-select"@[0] != "login_success"@[0]);
            reveal_strlit("server_select");
            assert("server_select"@[0] != "login_success"@[0]);
            reveal_strlit("siege-soldier");
            assert("siege-soldier"@[0] != "login_success"@[0]);
            reveal_strlit("siege_soldier");
            assert("siege_soldier"@[0] != "login_success"@[0]);
            reveal_strlit("friend-delete");
            assert("friend-delete"@[0] != "login_success"@[0]);
            reveal_strlit("friend_delete");
            assert("friend_delete"@[0] != "login_success"@[0]);
            reveal_strlit("friend-roster");
            assert("friend-roster"@[0] != "login_success"@[0]);
            reveal_strlit("friend_roster");
            assert("friend_roster"@[0] != "login_success"@[0]);
            reveal_strlit("guild-summary");
            assert("guild-summary"@[0] != "login_success"@[0]);
            reveal_strlit("guild_summary");
            assert("guild_summary"@[0] != "login_success"@[0]);
            reveal_strlit("guild-members");
            assert("guild-members"@[0] != "login_success"@[0]);
            reveal_strlit("guild_members");
            assert("guild_members"@[0] != "login_success"@[0]);
            reveal_strlit("inventory-use");
            assert("inventory-use"@[0] != "login_success"@[0]);
            reveal_strlit("inventory_use");
            assert("inventory_use"@[0] != "login_success"@[0]);
            reveal_strlit("vault-deposit");
            assert("vault-deposit"@[0] != "login_success"@[0]);
            reveal_strlit("vault_deposit");
            assert("vault_deposit"@[0] != "login_success"@[0]);
            reveal_strlit("login-success");
            assert("login-success"@[5] != "login_success"@[5]);
        },
        ControlCommand::LoginFailure => {
            reveal_strlit("login-failure");
            reveal_strlit("login_failure");
            assert(snake_case("login-failure"@) =~= "login_failure"@);
            reveal_strlit("server-select");
            assert("server-select"@[0] != "login_failure"@[0]);
            reveal_strlit("server_select");
            assert("server_select"@[0] != "login_failure"@[0]);
            reveal_strlit("siege-soldier");
            assert("siege-soldier"@[0] != "login_failure"@[0]);
            reveal_strlit("siege_soldier");
            assert("siege_soldier"@[0] != "login_failure"@[0]);
            reveal_strlit("friend-delete");
            assert("friend-delete"@[0] != "login_failure"@[0]);
            reveal_strlit("friend_delete");
            assert("friend_delete"@[0] != "login_failure"@[0]);
            reveal_strlit("friend-roster");
            assert("friend-roster"@[0] != "login_failure"@[0]);
            reveal_strlit("friend_roster");
            assert("friend_roster"@[0] != "login_failure"@[0]);
            reveal_strlit("guild-summary");
            assert("guild-summary"@[0] != "login_failure"@[0]);
            reveal_strlit("guild_summary");
            assert("guild_summary"@[0] != "login_failure"@[0]);
            reveal_strlit("guild-members");
            assert("guild-members"@[0] != "login_failure"@[0]);
            reveal_strlit("guild_members");
            assert("guild_members"@[0] != "login_failure"@[0]);
            reveal_strlit("inventory-use");
            assert("inventory-use"@[0] != "login_failure"@[0]);
            reveal_strlit("inventory_use");
            assert("inventory_use"@[0] != "login_failure"@[0]);
            reveal_strlit("vault-deposit");
            assert("vault-deposit"@[0] != "login_failure"@[0]);
            reveal_strlit("vault_deposit");
            assert("vault_deposit"@[0] != "login_failure"@[0]);
            reveal_strlit("login-success");
            assert("login-success"@[5] != "login_failure"@[5]);
            reveal_strlit("login_success");
            assert("login_success"@[6] != "login_failure"@[6]);
            reveal_strlit("login-failure");
            assert("login-failure"@[5] != "login_failure"@[5]);
        },
        ControlCommand::SelectCharacter => {
            reveal_strlit("select-character");
            reveal_strlit("select_character");
            assert(snake_case("select-character"@) =~= "select_character"@);
            reveal_strlit("character-select");
            assert("character-select"@[0] != "select_character"@[0]);
            reveal_strlit("character_select");
            assert("character_select"@[0] != "select_character"@[0]);
            reveal_strlit("character-create");
            assert("character-create"@[0] != "select_character"@[0]);
            reveal_strlit("character_create");
            assert("character_create"@[0] != "select_character"@[0]);
            reveal_strlit("create-character");
            assert("create-character"@[0] != "select_character"@[0]);
            reveal_strlit("create_character");
            assert("create_character"@[0] != "select_character"@[0]);
            reveal_strlit("select-character");
            assert("select-character"@[6] != "select_character"@[6]);
        },
        ControlCommand::LogoutLogin => {
            reveal_strlit("logout-login");
            reveal_strlit("logout_login");
            assert(snake_case("logout-login"@) =~= "logout_login"@);
            reveal_strlit("guild-create");
            assert("guild-create"@[0] != "logout_login"@[0]);
            reveal_strlit("guild_create");
            assert("guild_create"@[0] != "logout_login"@[0]);
            reveal_strlit("friend-inbox");
            assert("friend-inbox"@[0] != "logout_login"@[0]);
            reveal_strlit("friend_inbox");
            assert("friend_inbox"@[0] != "logout_login"@[0]);
            reveal_strlit("item-unequip");
            assert("item-unequip"@[0] != "logout_login"@[0]);
            reveal_strlit("item_unequip");
            assert("item_unequip"@[0] != "logout_login"@[0]);
            reveal_strlit("skill-target");
            assert("skill-target"@[0] != "logout_login"@[0]);
            reveal_strlit("skill_target");
            assert("skill_target"@[0] != "logout_login"@[0]);
            reveal_strlit("logout-login");
            assert("logout-login"@[6] != "logout_login"@[6]);
        },
        ControlCommand::LogoutCharacter => {
            reveal_strlit("logout-character");
            reveal_strlit("logout_character");
            assert(snake_case("logout-character"@) =~= "logout_character"@);
            reveal_strlit("character-select");
            assert("character-select"@[0] != "logout_character"@[0]);
            reveal_strlit("character_select");
            assert("character_select"@[0] != "logout_character"@[0]);
            reveal_strlit("character-create");
            assert("character-create"@[0] != "logout_character"@[0]);
            reveal_strlit("character_create");
            assert("character_create"@[0] != "logout_character"@[0]);
            reveal_strlit("create-character");
            assert("create-character"@[0] != "logout_character"@[0]);
            reveal_strlit("create_character");
            assert("create_character"@[0] != "logout_character"@[0]);
            reveal_strlit("select-character");
            assert("select-character"@[0] != "logout_character"@[0]);
            reveal_strlit("select_character");
            assert("select_character"@[0] != "logout_character"@[0]);
            reveal_strlit("logout-character");
            assert("logout-character"@[6] != "logout_character"@[6]);
        },
        ControlCommand::Disconnect => {
            reveal_strlit("disconnect");
            assert(snake_case("disconnect"@) =~= "disconnect"@);
            reveal_strlit("friend-add");
            assert("friend-add"@[0] != "disconnect"@[0]);
            reveal_strlit("friend_add");
            assert("friend_add"@[0] != "disconnect"@[0]);
            reveal_strlit("guild-join");
            assert("guild-join"@[0] != "disconnect"@[0]);
            reveal_strlit("guild_join");
            assert("guild_join"@[0] != "disconnect"@[0]);
            reveal_strlit("guild-fire");
            assert("guild-fire"@[0] != "disconnect"@[0]);
            reveal_strlit("guild_fire");
            assert("guild_fire"@[0] != "disconnect"@[0]);
            reveal_strlit("item-equip");
            assert("item-equip"@[0] != "disconnect"@[0]);
            reveal_strlit("item_equip");
            assert("item_equip"@[0] != "disconnect"@[0]);
            reveal_strlit("duel-start");
            assert("duel-start"@[1] != "disconnect"@[1]);
            reveal_strlit("duel_start");
            assert("duel_start"@[1] != "disconnect"@[1]);
        },
        ControlCommand::Exit => {
            reveal_strlit("exit");
            assert(snake_case("exit"@) =~= "exit"@);
            reveal_strlit("boot");
            assert("boot"@[0] != "exit"@[0]);
            reveal_strlit("chat");
            assert("chat"@[0] != "exit"@[0]);
            reveal_strlit("shop");
            assert("shop"@[0] != "exit"@[0]);
            reveal_strlit("gate");
            assert("gate"@[0] != "exit"@[0]);
            reveal_strlit("gens");
            assert("gens"@[0] != "exit"@[0]);
            reveal_strlit("duel");
            assert("duel"@[0] != "exit"@[0]);
        },
        ControlCommand::Ping => {
            reveal_strlit("ping");
            assert(snake_case("ping"@) =~= "ping"@);
            reveal_strlit("boot");
            assert("boot"@[0] != "ping"@[0]);
            reveal_strlit("chat");
            assert("chat"@[0] != "ping"@[0]);
            reveal_strlit("shop");
            assert("shop"@[0] != "ping"@[0]);
            reveal_strlit("gate");
            assert("gate"@[0] != "ping"@[0]);
            reveal_strlit("gens");
            assert("gens"@[0] != "ping"@[0]);
            reveal_strlit("duel");
            assert("duel"@[0] != "ping"@[0]);
            reveal_strlit("exit");
            assert("exit"@[0] != "ping"@[0]);
        },
    }
}

/// Every canonical name spelled with underscores holds only lower-case
/// letters, digits and underscores.
proof fn lemma_snake_name_plain(command: ControlCommand)
    ensures
        plain_name(snake_case(command_name(command))),
{
    match command {
        ControlCommand::Boot => {
            reveal_strlit("boot");
            assert(snake_case("boot"@) =~= "boot"@);
            assert(plain_name("boot"@)) by {
                reveal_with_fuel(plain_name, 5);
            }
        },
        ControlCommand::AssetCheckFailed => {
            reveal_strlit("asset-check-failed");
            reveal_strlit("asset_check_failed");
            assert(snake_case("asset-check-failed"@) =~= "asset_check_failed"@);
            assert(plain_name("asset_check_failed"@)) by {
                reveal_with_fuel(plain_name, 19);
            }
        },
        ControlCommand::ReadyForLogin => {
            reveal_strlit("ready-for-login");
            reveal_strlit("ready_for_login");
            assert(snake_case("ready-for-login"@) =~= "ready_for_login"@);
            assert(plain_name("ready_for_login"@)) by {
                reveal_with_fuel(plain_name, 16);
            }
        },
        ControlCommand::ServerSelect => {
            reveal_strlit("server-select");
            reveal_strlit("server_select");
            assert(snake_case("server-select"@) =~= "server_select"@);
            assert(plain_name("server_select"@)) by {
                reveal_with_fuel(plain_name, 14);
            }
        },
        ControlCommand::Options => {
            reveal_strlit("options");
            assert(snake_case("options"@) =~= "options"@);
            assert(plain_name("options"@)) by {
                reveal_with_fuel(plain_name, 8);
            }
        },
        ControlCommand::CharacterSelect => {
            reveal_strlit("character-select");
            reveal_strlit("character_select");
            assert(snake_case("character-select"@) =~= "character_select"@);
            assert(plain_name("character_select"@)) by {
                reveal_with_fuel(plain_name, 17);
            }
        },
        ControlCommand::CharacterCreate => {
            reveal_strlit("character-create");
            reveal_strlit("character_create");
            assert(snake_case("character-create"@) =~= "character_create"@);
            assert(plain_name("character_create"@)) by {
                reveal_with_fuel(plain_name, 17);
            }
        },
        ControlCommand::CreateCharacter => {
            reveal_strlit("create-character");
            reveal_strlit("create_character");
            assert(snake_case("create-character"@) =~= "create_character"@);
            assert(plain_name("create_character"@)) by {
                reveal_with_fuel(plain_name, 17);
            }
        },
        ControlCommand::Loading => {
            reveal_strlit("loading");
            assert(snake_case("loading"@) =~= "loading"@);
            assert(plain_name("loading"@)) by {
                reveal_with_fuel(plain_name, 8);
            }
        },
        ControlCommand::World => {
            reveal_strlit("world");
            assert(snake_case("world"@) =~= "world"@);
            assert(plain_name("world"@)) by {
                reveal_with_fuel(plain_name, 6);
            }
        },
        ControlCommand::Chat => {
            reveal_strlit("chat");
            assert(snake_case("chat"@) =~= "chat"@);
            assert(plain_name("chat"@)) by {
                reveal_with_fuel(plain_name, 5);
            }
        },
        ControlCommand::Npc => {
            reveal_strlit("npc");
            assert(snake_case("npc"@) =~= "npc"@);
            assert(plain_name("npc"@)) by {
                reveal_with_fuel(plain_name, 4);
            }
        },
        ControlCommand::Shop => {
            reveal_strlit("shop");
            assert(snake_case("shop"@) =~= "shop"@);
            assert(plain_name("shop"@)) by {
                reveal_with_fuel(plain_name, 5);
            }
        },
        ControlCommand::GameShop => {
            reveal_strlit("game-shop");
            reveal_strlit("game_shop");
            assert(snake_case("game-shop"@) =~= "game_shop"@);
            assert(plain_name("game_shop"@)) by {
                reveal_with_fuel(plain_name, 10);
            }
        },
        ControlCommand::Trade => {
            reveal_strlit("trade");
            assert(snake_case("trade"@) =~= "trade"@);
            assert(plain_name("trade"@)) by {
                reveal_with_fuel(plain_name, 6);
            }
        },
        ControlCommand::Marketplace => {
            reveal_strlit("marketplace");
            assert(snake_case("marketplace"@) =~= "marketplace"@);
            assert(plain_name("marketplace"@)) by {
                reveal_with_fuel(plain_name, 12);
            }
        },
        ControlCommand::Party => {
            reveal_strlit("party");
            assert(snake_case("party"@) =~= "party"@);
            assert(plain_name("party"@)) by {
                reveal_with_fuel(plain_name, 6);
            }
        },
        ControlCommand::Gate => {
            reveal_strlit("gate");
            assert(snake_case("gate"@) =~= "gate"@);
            assert(plain_name("gate"@)) by {
                reveal_with_fuel(plain_name, 5);
            }
        },
        ControlCommand::Siege => {
            reveal_strlit("siege");
            assert(snake_case("siege"@) =~= "siege"@);
            assert(plain_name("siege"@)) by {
                reveal_with_fuel(plain_name, 6);
            }
        },
        ControlCommand::SiegeInactive => {
            reveal_strlit("siege-inactive");
            reveal_strlit("siege_inactive");
            assert(snake_case("siege-inactive"@) =~= "siege_inactive"@);
            assert(plain_name("siege_inactive"@)) by {
                reveal_with_fuel(plain_name, 15);
            }
        },
        ControlCommand::SiegeSoldier => {
            reveal_strlit("siege-soldier");
            reveal_strlit("siege_soldier");
            assert(snake_case("siege-soldier"@) =~= "siege_soldier"@);
            assert(plain_name("siege_soldier"@)) by {
                reveal_with_fuel(plain_name, 14);
            }
        },
        ControlCommand::SiegeCommander => {
            reveal_strlit("siege-commander");
            reveal_strlit("siege_commander");
            assert(snake_case("siege-commander"@) =~= "siege_commander"@);
            assert(plain_name("siege_commander"@)) by {
                reveal_with_fuel(plain_name, 16);
            }
        },
        ControlCommand::Events => {
            reveal_strlit("events");
            assert(snake_case("events"@) =~= "events"@);
            assert(plain_name("events"@)) by {
                reveal_with_fuel(plain_name, 7);
            }
        },
        ControlCommand::Gens => {
            reveal_strlit("gens");
            assert(snake_case("gens"@) =~= "gens"@);
            assert(plain_name("gens"@)) by {
                reveal_with_fuel(plain_name, 5);
            }
        },
        ControlCommand::Friend => {
            reveal_strlit("friend");
            assert(snake_case("friend"@) =~= "friend"@);
            assert(plain_name("friend"@)) by {
                reveal_with_fuel(plain_name, 7);
            }
        },
        ControlCommand::Guild => {
            reveal_strlit("guild");
            assert(snake_case("guild"@) =~= "guild"@);
            assert(plain_name("guild"@)) by {
                reveal_with_fuel(plain_name, 6);
            }
        },
        ControlCommand::FriendAdd => {
            reveal_strlit("friend-add");
            reveal_strlit("friend_add");
            assert(snake_case("friend-add"@) =~= "friend_add"@);
            assert(plain_name("friend_add"@)) by {
                reveal_with_fuel(plain_name, 11);
            }
        },
        ControlCommand::FriendDelete => {
            reveal_strlit("friend-delete");
            reveal_strlit("friend_delete");
            assert(snake_case("friend-delete"@) =~= "friend_delete"@);
            assert(plain_name("friend_delete"@)) by {
                reveal_with_fuel(plain_name, 14);
            }
        },
        ControlCommand::GuildJoin => {
            reveal_strlit("guild-join");
            reveal_strlit("guild_join");
            assert(snake_case("guild-join"@) =~= "guild_join"@);
            assert(plain_name("guild_join"@)) by {
                reveal_with_fuel(plain_name, 11);
            }
        },
        ControlCommand::GuildCreate => {
            reveal_strlit("guild-create");
            reveal_strlit("guild_create");
            assert(snake_case("guild-create"@) =~= "guild_create"@);
            assert(plain_name("guild_create"@)) by {
                reveal_with_fuel(plain_name, 13);
            }
        },
        ControlCommand::FriendRoster => {
            reveal_strlit("friend-roster");
            reveal_strlit("friend_roster");
            assert(snake_case("friend-roster"@) =~= "friend_roster"@);
            assert(plain_name("friend_roster"@)) by {
                reveal_with_fuel(plain_name, 14);
            }
        },
        ControlCommand::FriendInbox => {
            reveal_strlit("friend-inbox");
            reveal_strlit("friend_inbox");
            assert(snake_case("friend-inbox"@) =~= "friend_inbox"@);
            assert(plain_name("friend_inbox"@)) by {
                reveal_with_fuel(plain_name, 13);
            }
        },
        ControlCommand::FriendCompose => {
            reveal_strlit("friend-compose");
            reveal_strlit("friend_compose");
            assert(snake_case("friend-compose"@) =~= "friend_compose"@);
            assert(plain_name("friend_compose"@)) by {
                reveal_with_fuel(plain_name, 15);
            }
        },
        ControlCommand::FriendChatRooms => {
            reveal_strlit("friend-chat-rooms");
            reveal_strlit("friend_chat_rooms");
            assert(snake_case("friend-chat-rooms"@) =~= "friend_chat_rooms"@);
            assert(plain_name("friend_chat_rooms"@)) by {
                reveal_with_fuel(plain_name, 18);
            }
        },
        ControlCommand::GuildSummary => {
            reveal_strlit("guild-summary");
            reveal_strlit("guild_summary");
            assert(snake_case("guild-summary"@) =~= "guild_summary"@);
            assert(plain_name("guild_summary"@)) by {
                reveal_with_fuel(plain_name, 14);
            }
        },
        ControlCommand::GuildMembers => {
            reveal_strlit("guild-members");
            reveal_strlit("guild_members");
            assert(snake_case("guild-members"@) =~= "guild_members"@);
            assert(plain_name("guild_members"@)) by {
                reveal_with_fuel(plain_name, 14);
            }
        },
        ControlCommand::GuildUnion => {
            reveal_strlit("guild-union");
            reveal_strlit("guild_union");
            assert(snake_case("guild-union"@) =~= "guild_union"@);
            assert(plain_name("guild_union"@)) by {
                reveal_with_fuel(plain_name, 12);
            }
        },
        ControlCommand::GuildNoGuild => {
            reveal_strlit("guild-no-guild");
            reveal_strlit("guild_no_guild");
            assert(snake_case("guild-no-guild"@) =~= "guild_no_guild"@);
            assert(plain_name("guild_no_guild"@)) by {
                reveal_with_fuel(plain_name, 15);
            }
        },
        ControlCommand::GuildError => {
            reveal_strlit("guild-error");
            reveal_strlit("guild_error");
            assert(snake_case("guild-error"@) =~= "guild_error"@);
            assert(plain_name("guild_error"@)) by {
                reveal_with_fuel(plain_name, 12);
            }
        },
        ControlCommand::GuildRoleAssign => {
            reveal_strlit("guild-role-assign");
            reveal_strlit("guild_role_assign");
            assert(snake_case("guild-role-assign"@) =~= "guild_role_assign"@);
            assert(plain_name("guild_role_assign"@)) by {
                reveal_with_fuel(plain_name, 18);
            }
        },
        ControlCommand::GuildFire => {
            reveal_strlit("guild-fire");
            reveal_strlit("guild_fire");
            assert(snake_case("guild-fire"@) =~= "guild_fire"@);
            assert(plain_name("guild_fire"@)) by {
                reveal_with_fuel(plain_name, 11);
            }
        },
        ControlCommand::GuildBanUnion => {
            reveal_strlit("guild-ban-union");
            reveal_strlit("guild_ban_union");
            assert(snake_case("guild-ban-union"@) =~= "guild_ban_union"@);
            assert(plain_name("guild_ban_union"@)) by {
                reveal_with_fuel(plain_name, 16);
            }
        },
        ControlCommand::InventoryUse => {
            reveal_strlit("inventory-use");
            reveal_strlit("inventory_use");
            assert(snake_case("inventory-use"@) =~= "inventory_use"@);
            assert(plain_name("inventory_use"@)) by {
                reveal_with_fuel(plain_name, 14);
            }
        },
        ControlCommand::InventoryEquip => {
            reveal_strlit("inventory-equip");
            reveal_strlit("inventory_equip");
            assert(snake_case("inventory-equip"@) =~= "inventory_equip"@);
            assert(plain_name("inventory_equip"@)) by {
                reveal_with_fuel(plain_name, 16);
            }
        },
        ControlCommand::InventoryUnequip => {
            reveal_strlit("inventory-unequip");
            reveal_strlit("inventory_unequip");
            assert(snake_case("inventory-unequip"@) =~= "inventory_unequip"@);
            assert(plain_name("inventory_unequip"@)) by {
                reveal_with_fuel(plain_name, 18);
            }
        },
        ControlCommand::InventoryMove => {
            reveal_strlit("inventory-move");
            reveal_strlit("inventory_move");
            assert(snake_case("inventory-move"@) =~= "inventory_move"@);
            assert(plain_name("inventory_move"@)) by {
                reveal_with_fuel(plain_name, 15);
            }
        },
        ControlCommand::VaultDeposit => {
            reveal_strlit("vault-deposit");
            reveal_strlit("vault_deposit");
            assert(snake_case("vault-deposit"@) =~= "vault_deposit"@);
            assert(plain_name("vault_deposit"@)) by {
                reveal_with_fuel(plain_name, 14);
            }
        },
        ControlCommand::VaultWithdraw => {
            reveal_strlit("vault-withdraw");
            reveal_strlit("vault_withdraw");
            assert(snake_case("vault-withdraw"@) =~= "vault_withdraw"@);
            assert(plain_name("vault_withdraw"@)) by {
                reveal_with_fuel(plain_name, 15);
            }
        },
        ControlCommand::Duel => {
            reveal_strlit("duel");
            assert(snake_case("duel"@) =~= "duel"@);
            assert(plain_name("duel"@)) by {
                reveal_with_fuel(plain_name, 5);
            }
        },
        ControlCommand::DuelStart => {
            reveal_strlit("duel-start");
            reveal_strlit("duel_start");
            assert(snake_case("duel-start"@) =~= "duel_start"@);
            assert(plain_name("duel_start"@)) by {
                reveal_with_fuel(plain_name, 11);
            }
        },
        ControlCommand::DuelStop => {
            reveal_strlit("duel-stop");
            reveal_strlit("duel_stop");
            assert(snake_case("duel-stop"@) =~= "duel_stop"@);
            assert(plain_name("duel_stop"@)) by {
                reveal_with_fuel(plain_name, 10);
            }
        },
        ControlCommand::DuelChannelJoin => {
            reveal_strlit("duel-channel-join");
            reveal_strlit("duel_channel_join");
            assert(snake_case("duel-channel-join"@) =~= "duel_channel_join"@);
            assert(plain_name("duel_channel_join"@)) by {
                reveal_with_fuel(plain_name, 18);
            }
        },
        ControlCommand::DuelChannelQuit => {
            reveal_strlit("duel-channel-quit");
            reveal_strlit("duel_channel_quit");
            assert(snake_case("duel-channel-quit"@) =~= "duel_channel_quit"@);
            assert(plain_name("duel_channel_quit"@)) by {
                reveal_with_fuel(plain_name, 18);
            }
        },
        ControlCommand::SkillTargeted => {
            reveal_strlit("skill-targeted");
            reveal_strlit("skill_targeted");
            assert(snake_case("skill-targeted"@) =~= "skill_targeted"@);
            assert(plain_name("skill_targeted"@)) by {
                reveal_with_fuel(plain_name, 15);
            }
        },
        ControlCommand::Quests => {
            reveal_strlit("quests");
            assert(snake_case("quests"@) =~= "quests"@);
            assert(plain_name("quests"@)) by {
                reveal_with_fuel(plain_name, 7);
            }
        },
        ControlCommand::MuHelper => {
            reveal_strlit("mu-helper");
            reveal_strlit("mu_helper");
            assert(snake_case("mu-helper"@) =~= "mu_helper"@);
            assert(plain_name("mu_helper"@)) by {
                reveal_with_fuel(plain_name, 10);
            }
        },
        ControlCommand::LoginSuccess => {
            reveal_strlit("login-success");
            reveal_strlit("login_success");
            assert(snake_case("login-success"@) =~= "login_success"@);
            assert(plain_name("login_success"@)) by {
                reveal_with_fuel(plain_name, 14);
            }
        },
        ControlCommand::LoginFailure => {
            reveal_strlit("login-failure");
            reveal_strlit("login_failure");
            assert(snake_case("login-failure"@) =~= "login_failure"@);
            assert(plain_name("login_failure"@)) by {
                reveal_with_fuel(plain_name, 14);
            }
        },
        ControlCommand::SelectCharacter => {
            reveal_strlit("select-character");
            reveal_strlit("select_character");
            assert(snake_case("select-character"@) =~= "select_character"@);
            assert(plain_name("select_character"@)) by {
                reveal_with_fuel(plain_name, 17);
            }
        },
        ControlCommand::LogoutLogin => {
            reveal_strlit("logout-login");
            reveal_strlit("logout_login");
            assert(snake_case("logout-login"@) =~= "logout_login"@);
            assert(plain_name("logout_login"@)) by {
                reveal_with_fuel(plain_name, 13);
            }
        },
        ControlCommand::LogoutCharacter => {
            reveal_strlit("logout-character");
            reveal_strlit("logout_character");
            assert(snake_case("logout-character"@) =~= "logout_character"@);
            assert(plain_name("logout_character"@)) by {
                reveal_with_fuel(plain_name, 17);
            }
        },
        ControlCommand::Disconnect => {
            reveal_strlit("disconnect");
            assert(snake_case("disconnect"@) =~= "disconnect"@);
            assert(plain_name("disconnect"@)) by {
                reveal_with_fuel(plain_name, 11);
            }
        },
        ControlCommand::Exit => {
            reveal_strlit("exit");
            assert(snake_case("exit"@) =~= "exit"@);
            assert(plain_name("exit"@)) by {
                reveal_with_fuel(plain_name, 5);
            }
        },
        ControlCommand::Ping => {
            reveal_strlit("ping");
            assert(snake_case("ping"@) =~= "ping"@);
            assert(plain_name("ping"@)) by {
                reveal_with_fuel(plain_name, 5);
            }
        },
    }
}

/// `parse` takes every command's canonical name spelled with underscores
/// in place of dashes: such a name is already trimmed and lower-case, and
/// the name table holds it.
pub proof fn lemma_parse_snake_case(command: ControlCommand)
    ensures
        command_for_name(normalized(snake_case(command_name(command)))) == Some(command),
{
    lemma_snake_name_plain(command);
    lemma_plain_name_normalized(snake_case(command_name(command)));
    lemma_snake_case_round_trip(command);
}

/// Reading a name that is already trimmed and lower-cased gives the same
/// command as reading the name as it came: `parse(s)` and `parse` of `s`
/// trimmed and lower-cased agree.
pub proof fn lemma_parse_ignores_normalizing(s: Seq<char>)
    ensures
        command_for_name(normalized(normalized(s))) == command_for_name(normalized(s)),
{
    crate::text::lemma_normalized_idempotent(s);
}

} // verus!
