//! The screen routes and screen-level states that the client moves through,
//! with the names under which they are reported.

use vstd::prelude::*;

verus! {

/// The screen the client shows.
#[derive(Debug, Clone, Copy, PartialEq, Eq, Structural)]
pub enum UiRoute {
    Boot,
    Loading,
    Login,
    ServerSelect,
    Options,
    CharacterSelect,
    CharacterCreate,
    World,
    Hud,
    Chat,
    Npc,
    Shop,
    GameShop,
    Trade,
    Marketplace,
    Party,
    Gate,
    Siege,
    Events,
    Friend,
    Guild,
    Inventory,
    Duel,
    Quests,
    MuHelper,
    Error,
}

/// The name under which a route is reported.
pub open spec fn route_slug(route: UiRoute) -> Seq<char> {
    match route {
        UiRoute::Boot => "boot"@,
        UiRoute::Loading => "loading"@,
        UiRoute::Login => "login"@,
        UiRoute::ServerSelect => "server-select"@,
        UiRoute::Options => "options"@,
        UiRoute::CharacterSelect => "character-select"@,
        UiRoute::CharacterCreate => "character-create"@,
        UiRoute::World => "world"@,
        UiRoute::Hud => "hud"@,
        UiRoute::Chat => "chat"@,
        UiRoute::Npc => "npc"@,
        UiRoute::Shop => "shop"@,
        UiRoute::GameShop => "game-shop"@,
        UiRoute::Trade => "trade"@,
        UiRoute::Marketplace => "marketplace"@,
        UiRoute::Party => "party"@,
        UiRoute::Gate => "gate"@,
        UiRoute::Siege => "siege"@,
        UiRoute::Events => "events"@,
        UiRoute::Friend => "friend"@,
        UiRoute::Guild => "guild"@,
        UiRoute::Inventory => "inventory"@,
        UiRoute::Duel => "duel"@,
        UiRoute::Quests => "quests"@,
        UiRoute::MuHelper => "mu-helper"@,
        UiRoute::Error => "error"@,
    }
}

impl UiRoute {
    pub fn slug(self) -> (r: &'static str)
        ensures
            r@ == route_slug(self),
    {
        match self {
            UiRoute::Boot => "boot",
            UiRoute::Loading => "loading",
            UiRoute::Login => "login",
            UiRoute::ServerSelect => "server-select",
            UiRoute::Options => "options",
            UiRoute::CharacterSelect => "character-select",
            UiRoute::CharacterCreate => "character-create",
            UiRoute::World => "world",
            UiRoute::Hud => "hud",
            UiRoute::Chat => "chat",
            UiRoute::Npc => "npc",
            UiRoute::Shop => "shop",
            UiRoute::GameShop => "game-shop",
            UiRoute::Trade => "trade",
            UiRoute::Marketplace => "marketplace",
            UiRoute::Party => "party",
            UiRoute::Gate => "gate",
            UiRoute::Siege => "siege",
            UiRoute::Events => "events",
            UiRoute::Friend => "friend",
            UiRoute::Guild => "guild",
            UiRoute::Inventory => "inventory",
            UiRoute::Duel => "duel",
            UiRoute::Quests => "quests",
            UiRoute::MuHelper => "mu-helper",
            UiRoute::Error => "error",
        }
    }
}

/// Which view of the friend screen is shown.
#[derive(Debug, Clone, Copy, PartialEq, Eq, Structural)]
pub enum FriendScreenState {
    Roster,
    Inbox,
    Compose,
    ChatRooms,
    Error,
}

pub open spec fn friend_screen_name(state: FriendScreenState) -> Seq<char> {
    match state {
        FriendScreenState::Roster => "roster"@,
        FriendScreenState::Inbox => "inbox"@,
        FriendScreenState::Compose => "compose"@,
        FriendScreenState::ChatRooms => "chat-rooms"@,
        FriendScreenState::Error => "error"@,
    }
}

impl FriendScreenState {
    pub fn as_str(self) -> (r: &'static str)
        ensures
            r@ == friend_screen_name(self),
    {
        match self {
            FriendScreenState::Roster => "roster",
            FriendScreenState::Inbox => "inbox",
            FriendScreenState::Compose => "compose",
            FriendScreenState::ChatRooms => "chat-rooms",
            FriendScreenState::Error => "error",
        }
    }
}

/// Which view of the guild screen is shown.
#[derive(Debug, Clone, Copy, PartialEq, Eq, Structural)]
pub enum GuildScreenState {
    Summary,
    Members,
    Union,
    NoGuild,
    Error,
}

pub open spec fn guild_screen_name(state: GuildScreenState) -> Seq<char> {
    match state {
        GuildScreenState::Summary => "summary"@,
        GuildScreenState::Members => "members"@,
        GuildScreenState::Union => "union"@,
        GuildScreenState::NoGuild => "no-guild"@,
        GuildScreenState::Error => "error"@,
    }
}

impl GuildScreenState {
    pub fn as_str(self) -> (r: &'static str)
        ensures
            r@ == guild_screen_name(self),
    {
        match self {
            GuildScreenState::Summary => "summary",
            GuildScreenState::Members => "members",
            GuildScreenState::Union => "union",
            GuildScreenState::NoGuild => "no-guild",
            GuildScreenState::Error => "error",
        }
    }
}

/// Which view of the castle-siege screen is shown.
#[derive(Debug, Clone, Copy, PartialEq, Eq, Structural)]
pub enum SiegeScreenState {
    Inactive,
    Observer,
    Soldier,
    Commander,
}

pub open spec fn siege_screen_name(state: SiegeScreenState) -> Seq<char> {
    match state {
        SiegeScreenState::Inactive => "inactive"@,
        SiegeScreenState::Observer => "observer"@,
        SiegeScreenState::Soldier => "soldier"@,
        SiegeScreenState::Commander => "commander"@,
    }
}

impl SiegeScreenState {
    pub fn as_str(self) -> (r: &'static str)
        ensures
            r@ == siege_screen_name(self),
    {
        match self {
            SiegeScreenState::Inactive => "inactive",
            SiegeScreenState::Observer => "observer",
            SiegeScreenState::Soldier => "soldier",
            SiegeScreenState::Commander => "commander",
        }
    }
}

/// Progress of a character-creation request.
#[derive(Debug, Clone, Copy, PartialEq, Eq, Structural)]
pub enum CharacterCreateScreenState {
    Ready,
    Submitting,
    Error,
}

/// Whether a friend can be reached.
#[derive(Debug, Clone, Copy, PartialEq, Eq, Structural)]
pub enum FriendPresence {
    Online,
    Busy,
    Offline,
    Locked,
}

impl FriendPresence {
    pub fn as_str(self) -> (r: &'static str)
        ensures
            r@ == (match self {
                FriendPresence::Online => "online"@,
                FriendPresence::Busy => "busy"@,
                FriendPresence::Offline => "offline"@,
                FriendPresence::Locked => "locked"@,
            }),
    {
        match self {
            FriendPresence::Online => "online",
            FriendPresence::Busy => "busy",
            FriendPresence::Offline => "offline",
            FriendPresence::Locked => "locked",
        }
    }
}

/// The rank of a guild member.
#[derive(Debug, Clone, Copy, PartialEq, Eq, Structural)]
pub enum GuildMemberRole {
    Master,
    SubMaster,
    BattleMaster,
    Member,
}

impl GuildMemberRole {
    pub fn as_str(self) -> (r: &'static str)
        ensures
            r@ == (match self {
                GuildMemberRole::Master => "master"@,
                GuildMemberRole::SubMaster => "sub-master"@,
                GuildMemberRole::BattleMaster => "battle-master"@,
                GuildMemberRole::Member => "member"@,
            }),
    {
        match self {
            GuildMemberRole::Master => "master",
            GuildMemberRole::SubMaster => "sub-master",
            GuildMemberRole::BattleMaster => "battle-master",
            GuildMemberRole::Member => "member",
        }
    }
}

} // verus!
