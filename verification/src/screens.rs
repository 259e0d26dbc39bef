//! Which screen each in-game shell shows for the state of the part of the
//! game behind it, and the names under which those states are reported.

use vstd::prelude::*;

use crate::bootstrap::{default_selection_from, CharacterSelectCharacter};
use crate::control::ControlSnapshot;
use crate::session::SessionPhase;
use crate::ui::SiegeScreenState;

verus! {

/// The screens of the shell shown on the guild entrance route.
#[derive(Debug, Clone, Copy, PartialEq, Eq, Structural)]
pub enum GateScreenState {
    GuildMaster,
    GuestPublic,
    GuestPrivate,
}

/// The entrance screen for a session phase: the guild master's screen when
/// logged in, the public guest screen before login, the private one when
/// disconnected.
pub fn gate_shell_state_for_phase(phase: SessionPhase) -> (r: GateScreenState)
    ensures
        r == (match phase {
            SessionPhase::LoggedIn => GateScreenState::GuildMaster,
            SessionPhase::ReadyForLogin => GateScreenState::GuestPublic,
            SessionPhase::Disconnected => GateScreenState::GuestPrivate,
        }),
{
    match phase {
        SessionPhase::LoggedIn => GateScreenState::GuildMaster,
        SessionPhase::ReadyForLogin => GateScreenState::GuestPublic,
        SessionPhase::Disconnected => GateScreenState::GuestPrivate,
    }
}

/// What the quest manager is doing.
#[derive(Debug, Clone, Copy, PartialEq, Eq, Structural)]
pub enum QuestMode {
    Journal,
    Dialogue,
    Reward,
    ByEtc,
    Error,
}

/// The screens of the quests shell.
#[derive(Debug, Clone, Copy, PartialEq, Eq, Structural)]
pub enum QuestScreenState {
    Journal,
    Dialogue,
    Reward,
    Etc,
    Error,
}

pub fn quest_screen_state(mode: QuestMode) -> (r: QuestScreenState)
    ensures
        r == (match mode {
            QuestMode::Journal => QuestScreenState::Journal,
            QuestMode::Dialogue => QuestScreenState::Dialogue,
            QuestMode::Reward => QuestScreenState::Reward,
            QuestMode::ByEtc => QuestScreenState::Etc,
            QuestMode::Error => QuestScreenState::Error,
        }),
{
    match mode {
        QuestMode::Journal => QuestScreenState::Journal,
        QuestMode::Dialogue => QuestScreenState::Dialogue,
        QuestMode::Reward => QuestScreenState::Reward,
        QuestMode::ByEtc => QuestScreenState::Etc,
        QuestMode::Error => QuestScreenState::Error,
    }
}

pub fn quest_mode_label(mode: QuestMode) -> (r: &'static str)
    ensures
        r@ == (match mode {
            QuestMode::Journal => "journal"@,
            QuestMode::Dialogue => "dialogue"@,
            QuestMode::Reward => "reward"@,
            QuestMode::ByEtc => "etc"@,
            QuestMode::Error => "error"@,
        }),
{
    match mode {
        QuestMode::Journal => "journal",
        QuestMode::Dialogue => "dialogue",
        QuestMode::Reward => "reward",
        QuestMode::ByEtc => "etc",
        QuestMode::Error => "error",
    }
}

/// What the player's own shop is doing.
#[derive(Debug, Clone, Copy, PartialEq, Eq, Structural)]
pub enum PlayerShopMode {
    Editing,
    Open,
    Pricing,
    Error,
}

/// The screens of the player shop shell.
#[derive(Debug, Clone, Copy, PartialEq, Eq, Structural)]
pub enum PlayerShopScreenState {
    Editing,
    Open,
    Pricing,
    Error,
}

pub fn player_shop_screen_state_for_mode(mode: PlayerShopMode) -> (r: PlayerShopScreenState)
    ensures
        r == (match mode {
            PlayerShopMode::Editing => PlayerShopScreenState::Editing,
            PlayerShopMode::Open => PlayerShopScreenState::Open,
            PlayerShopMode::Pricing => PlayerShopScreenState::Pricing,
            PlayerShopMode::Error => PlayerShopScreenState::Error,
        }),
{
    match mode {
        PlayerShopMode::Editing => PlayerShopScreenState::Editing,
        PlayerShopMode::Open => PlayerShopScreenState::Open,
        PlayerShopMode::Pricing => PlayerShopScreenState::Pricing,
        PlayerShopMode::Error => PlayerShopScreenState::Error,
    }
}

pub fn player_shop_mode_label(mode: PlayerShopMode) -> (r: &'static str)
    ensures
        r@ == (match mode {
            PlayerShopMode::Editing => "editing"@,
            PlayerShopMode::Open => "open"@,
            PlayerShopMode::Pricing => "pricing"@,
            PlayerShopMode::Error => "error"@,
        }),
{
    match mode {
        PlayerShopMode::Editing => "editing",
        PlayerShopMode::Open => "open",
        PlayerShopMode::Pricing => "pricing",
        PlayerShopMode::Error => "error",
    }
}

/// Where a trade with another player stands.
#[derive(Debug, Clone, Copy, PartialEq, Eq, Structural)]
pub enum TradeMode {
    Idle,
    Requested,
    Active,
    Confirming,
    Error,
}

/// The screens of the trade shell.
#[derive(Debug, Clone, Copy, PartialEq, Eq, Structural)]
pub enum TradeScreenState {
    Requested,
    Active,
    Confirming,
    Error,
}

/// The trade screen: an idle trade shows the request screen.
pub fn trade_shell_state_for_mode(mode: TradeMode) -> (r: TradeScreenState)
    ensures
        r == (match mode {
            TradeMode::Idle | TradeMode::Requested => TradeScreenState::Requested,
            TradeMode::Active => TradeScreenState::Active,
            TradeMode::Confirming => TradeScreenState::Confirming,
            TradeMode::Error => TradeScreenState::Error,
        }),
{
    match mode {
        TradeMode::Idle | TradeMode::Requested => TradeScreenState::Requested,
        TradeMode::Active => TradeScreenState::Active,
        TradeMode::Confirming => TradeScreenState::Confirming,
        TradeMode::Error => TradeScreenState::Error,
    }
}

pub fn trade_mode_label(mode: TradeMode) -> (r: &'static str)
    ensures
        r@ == (match mode {
            TradeMode::Idle => "idle"@,
            TradeMode::Requested => "requested"@,
            TradeMode::Active => "active"@,
            TradeMode::Confirming => "confirming"@,
            TradeMode::Error => "error"@,
        }),
{
    match mode {
        TradeMode::Idle => "idle",
        TradeMode::Requested => "requested",
        TradeMode::Active => "active",
        TradeMode::Confirming => "confirming",
        TradeMode::Error => "error",
    }
}

/// The screens of the inventory shell.
#[derive(Debug, Clone, Copy, PartialEq, Eq, Structural)]
pub enum InventoryScreenState {
    Ready,
    Error,
}

/// The inventory screen: the error screen once disconnected.
pub fn inventory_screen_state(phase: SessionPhase) -> (r: InventoryScreenState)
    ensures
        r == (if phase == SessionPhase::Disconnected {
            InventoryScreenState::Error
        } else {
            InventoryScreenState::Ready
        }),
{
    if phase == SessionPhase::Disconnected {
        InventoryScreenState::Error
    } else {
        InventoryScreenState::Ready
    }
}

/// The screens of the NPC shell.
#[derive(Debug, Clone, Copy, PartialEq, Eq, Structural)]
pub enum NpcScreenState {
    Dialogue,
    QuestList,
    Confirming,
}

/// The NPC screen: the quest list when the dialogue lists quests, the
/// confirmation while a chosen answer cannot be clicked again, else the
/// dialogue.
pub fn npc_screen_state(quest_list_mode: bool, answer_selected: bool, can_click: bool) -> (r:
    NpcScreenState)
    ensures
        r == (if quest_list_mode {
            NpcScreenState::QuestList
        } else if answer_selected && !can_click {
            NpcScreenState::Confirming
        } else {
            NpcScreenState::Dialogue
        }),
{
    if quest_list_mode {
        NpcScreenState::QuestList
    } else if answer_selected && !can_click {
        NpcScreenState::Confirming
    } else {
        NpcScreenState::Dialogue
    }
}

/// The screens of the NPC shop shell.
#[derive(Debug, Clone, Copy, PartialEq, Eq, Structural)]
pub enum ShopScreenState {
    BuySell,
    Selling,
    Repair,
}

/// The shop screen: selling while an item is being sold, repair in a repair
/// shop set to repair, else buying and selling.
pub fn shop_screen_state(selling_item: bool, repair_shop: bool, repair_mode: bool) -> (r:
    ShopScreenState)
    ensures
        r == (if selling_item {
            ShopScreenState::Selling
        } else if repair_shop && repair_mode {
            ShopScreenState::Repair
        } else {
            ShopScreenState::BuySell
        }),
{
    if selling_item {
        ShopScreenState::Selling
    } else if repair_shop && repair_mode {
        ShopScreenState::Repair
    } else {
        ShopScreenState::BuySell
    }
}

/// The character that the selection screen marks: the runtime's choice
/// while it is on the list, else the first character marked as selected.
pub fn character_select_selected_index(
    remembered: Option<usize>,
    characters: &Vec<CharacterSelectCharacter>,
) -> (r: Option<usize>)
    ensures
        match remembered {
            Some(i) if i < characters@.len() => r == Some(i),
            _ => {
                &&& (exists|j: int| 0 <= j < characters@.len() && #[trigger] characters@[j].selected)
                    ==> r == Some(default_selection_from(characters@, 0) as usize)
                &&& !(exists|j: int| 0 <= j < characters@.len() && #[trigger] characters@[j].selected)
                    ==> r is None
            },
        },
{
    if let Some(index) = remembered {
        if index < characters.len() {
            return Some(index);
        }
    }
    let len = characters.len();
    let mut k: usize = 0;
    while k < len && !characters[k].selected
        invariant
            len == characters@.len(),
            k <= len,
            forall|j: int| 0 <= j < k ==> !characters@[j].selected,
        decreases len - k,
    {
        k = k + 1;
    }
    proof {
        crate::bootstrap::lemma_default_selection(characters@, 0, k as int);
    }
    if k < len {
        Some(k)
    } else {
        None
    }
}

/// The siege screen that the control endpoint's snapshot asks for; the
/// inactive screen when there is no snapshot or it sets none.
pub fn siege_screen_state_for_control_http(snapshot: Option<&ControlSnapshot>) -> (r:
    SiegeScreenState)
    ensures
        r == (match snapshot {
            Some(s) => match s.siege_screen_state {
                Some(state) => state,
                None => SiegeScreenState::Inactive,
            },
            None => SiegeScreenState::Inactive,
        }),
{
    match snapshot {
        Some(s) => match s.siege_screen_state {
            Some(state) => state,
            None => SiegeScreenState::Inactive,
        },
        None => SiegeScreenState::Inactive,
    }
}

} // verus!
