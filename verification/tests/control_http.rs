use mu_app::command::ControlCommand;
use mu_app::control::{AppState, ControlSnapshot};
use mu_app::http::{parse_header_line, parse_request_line, response_head, split_target, HeaderLine};
use mu_app::request::HttpRequest;
use mu_app::router::{route_request, HttpResponse};
use mu_app::session::SessionPhase;
use mu_app::ui::{FriendScreenState, GuildScreenState, SiegeScreenState, UiRoute};

fn route(snapshot: &mut ControlSnapshot, shutdown: &mut bool, request: HttpRequest) -> HttpResponse {
    let (response, stop) = route_request(&request, snapshot);
    if stop {
        *shutdown = true;
    }
    response
}

/// A control server without a socket: each call reads one raw request the
/// way a connection does and answers it with the head and the body.
struct TestServer {
    snapshot: ControlSnapshot,
    shutdown: bool,
}

impl TestServer {
    fn spawn(state: AppState) -> TestServer {
        TestServer { snapshot: ControlSnapshot::new(state), shutdown: false }
    }

    fn request_shutdown(&mut self) {
        let _ = send_request(self, "GET /__shutdown HTTP/1.1\r\nHost: localhost\r\nConnection: close\r\n\r\n");
    }

    fn join(self) -> Result<ControlSnapshot, String> {
        if self.shutdown {
            Ok(self.snapshot)
        } else {
            Err("server still running".to_string())
        }
    }
}

fn read_request(raw: &str) -> Option<HttpRequest> {
    let mut rest = raw;
    let line_end = rest.find('\n').map(|i| i + 1).unwrap_or(rest.len());
    let (request_line, tail) = rest.split_at(line_end);
    rest = tail;
    let (method, target) = parse_request_line(request_line).ok()?;
    let mut content_length = 0usize;
    while !rest.is_empty() {
        let line_end = rest.find('\n').map(|i| i + 1).unwrap_or(rest.len());
        let (line, tail) = rest.split_at(line_end);
        rest = tail;
        match parse_header_line(line) {
            HeaderLine::End => break,
            HeaderLine::ContentLength(n) => content_length = n,
            HeaderLine::Other => {}
        }
    }
    if rest.len() < content_length {
        return None;
    }
    let body = rest[..content_length].to_string();
    let (path, query) = split_target(&target);
    Some(HttpRequest { method, path, query, body })
}

fn send_request(server: &mut TestServer, raw: &str) -> (String, String) {
    let (status, reason, content_type, body) = match read_request(raw) {
        Some(request) => {
            let response = route(&mut server.snapshot, &mut server.shutdown, request);
            (response.status, response.reason, response.content_type, response.body)
        }
        None => (
            400,
            "Bad Request",
            "application/json",
            r#"{"error":"bad request"}"#.to_string(),
        ),
    };
    let head = response_head(status, reason, content_type, &body);
    let wire = format!("{head}{body}");
    let (head, body) = wire.split_once("\r\n\r\n").unwrap();
    (head.to_string(), body.to_string())
}

#[test]
fn snapshot_serializes_current_state() {
    let mut snapshot = ControlSnapshot::new(AppState::ReadyForLogin);
    snapshot.apply_command(ControlCommand::Ping);

    assert_eq!(
        snapshot.to_json(),
        r#"{"state":"ready-for-login","ui_route":"login","session_phase":"ready-for-login","last_command":"ping","selected_character_name":null,"friend_name":null,"guild_master_player_id":null,"guild_player_name":null,"guild_create_name":null,"guild_create_emblem":null,"duel_player_id":null,"duel_player_name":null,"duel_channel_id":null,"skill_id":null,"skill_target_id":null,"guild_role":null,"guild_assignment_type":null,"guild_security_code":null,"guild_union_name":null,"inventory_use_slot":null,"inventory_use_target":null,"inventory_use_add_points":null,"inventory_equip_slot":null,"inventory_unequip_slot":null,"friend_screen_state":null,"guild_screen_state":null,"siege_screen_state":null,"vault_money_amount":null,"inventory_move_from_slot":null,"inventory_move_to_slot":null,"command_count":1}"#
    );
}

#[test]
fn command_parser_recognizes_game_shop_mu_helper_events_gens_social_vault_and_inventory_aliases(
) {
    assert_eq!(
        ControlCommand::parse("game-shop"),
        Some(ControlCommand::GameShop)
    );
    assert_eq!(
        ControlCommand::parse("game_shop"),
        Some(ControlCommand::GameShop)
    );
    assert_eq!(ControlCommand::GameShop.as_str(), "game-shop");
    assert_eq!(
        ControlCommand::parse("marketplace"),
        Some(ControlCommand::Marketplace)
    );
    assert_eq!(
        ControlCommand::parse("player-shop"),
        Some(ControlCommand::Marketplace)
    );
    assert_eq!(
        ControlCommand::parse("player_shop"),
        Some(ControlCommand::Marketplace)
    );
    assert_eq!(ControlCommand::Marketplace.as_str(), "marketplace");
    assert_eq!(
        ControlCommand::parse("mu-helper"),
        Some(ControlCommand::MuHelper)
    );
    assert_eq!(
        ControlCommand::parse("mu_helper"),
        Some(ControlCommand::MuHelper)
    );
    assert_eq!(ControlCommand::MuHelper.as_str(), "mu-helper");
    assert_eq!(
        ControlCommand::parse("select-character"),
        Some(ControlCommand::SelectCharacter)
    );
    assert_eq!(
        ControlCommand::parse("select_character"),
        Some(ControlCommand::SelectCharacter)
    );
    assert_eq!(ControlCommand::SelectCharacter.as_str(), "select-character");
    assert_eq!(
        ControlCommand::parse("character-create"),
        Some(ControlCommand::CharacterCreate)
    );
    assert_eq!(
        ControlCommand::parse("character_create"),
        Some(ControlCommand::CharacterCreate)
    );
    assert_eq!(ControlCommand::CharacterCreate.as_str(), "character-create");
    assert_eq!(
        ControlCommand::parse("create-character"),
        Some(ControlCommand::CreateCharacter)
    );
    assert_eq!(
        ControlCommand::parse("create_character"),
        Some(ControlCommand::CreateCharacter)
    );
    assert_eq!(ControlCommand::CreateCharacter.as_str(), "create-character");
    assert_eq!(
        ControlCommand::parse("guild-join"),
        Some(ControlCommand::GuildJoin)
    );
    assert_eq!(
        ControlCommand::parse("guild_join"),
        Some(ControlCommand::GuildJoin)
    );
    assert_eq!(ControlCommand::GuildJoin.as_str(), "guild-join");
    assert_eq!(
        ControlCommand::parse("guild-create"),
        Some(ControlCommand::GuildCreate)
    );
    assert_eq!(
        ControlCommand::parse("guild_create"),
        Some(ControlCommand::GuildCreate)
    );
    assert_eq!(ControlCommand::GuildCreate.as_str(), "guild-create");
    assert_eq!(
        ControlCommand::parse("guild-role-assign"),
        Some(ControlCommand::GuildRoleAssign)
    );
    assert_eq!(
        ControlCommand::parse("guild_role_assign"),
        Some(ControlCommand::GuildRoleAssign)
    );
    assert_eq!(
        ControlCommand::GuildRoleAssign.as_str(),
        "guild-role-assign"
    );
    assert_eq!(
        ControlCommand::parse("guild-fire"),
        Some(ControlCommand::GuildFire)
    );
    assert_eq!(
        ControlCommand::parse("guild_fire"),
        Some(ControlCommand::GuildFire)
    );
    assert_eq!(
        ControlCommand::parse("guild-kick-player"),
        Some(ControlCommand::GuildFire)
    );
    assert_eq!(ControlCommand::GuildFire.as_str(), "guild-fire");
    assert_eq!(
        ControlCommand::parse("guild-ban-union"),
        Some(ControlCommand::GuildBanUnion)
    );
    assert_eq!(
        ControlCommand::parse("guild_ban_union"),
        Some(ControlCommand::GuildBanUnion)
    );
    assert_eq!(
        ControlCommand::parse("guild-remove-alliance"),
        Some(ControlCommand::GuildBanUnion)
    );
    assert_eq!(
        ControlCommand::parse("guild_remove_alliance"),
        Some(ControlCommand::GuildBanUnion)
    );
    assert_eq!(ControlCommand::GuildBanUnion.as_str(), "guild-ban-union");
    assert_eq!(
        ControlCommand::parse("inventory-use"),
        Some(ControlCommand::InventoryUse)
    );
    assert_eq!(
        ControlCommand::parse("inventory_use"),
        Some(ControlCommand::InventoryUse)
    );
    assert_eq!(
        ControlCommand::parse("item-use"),
        Some(ControlCommand::InventoryUse)
    );
    assert_eq!(
        ControlCommand::parse("item_use"),
        Some(ControlCommand::InventoryUse)
    );
    assert_eq!(ControlCommand::InventoryUse.as_str(), "inventory-use");
    assert_eq!(
        ControlCommand::parse("inventory-equip"),
        Some(ControlCommand::InventoryEquip)
    );
    assert_eq!(
        ControlCommand::parse("inventory_equip"),
        Some(ControlCommand::InventoryEquip)
    );
    assert_eq!(
        ControlCommand::parse("item-equip"),
        Some(ControlCommand::InventoryEquip)
    );
    assert_eq!(
        ControlCommand::parse("item_equip"),
        Some(ControlCommand::InventoryEquip)
    );
    assert_eq!(ControlCommand::InventoryEquip.as_str(), "inventory-equip");
    assert_eq!(
        ControlCommand::parse("inventory-unequip"),
        Some(ControlCommand::InventoryUnequip)
    );
    assert_eq!(
        ControlCommand::parse("inventory_unequip"),
        Some(ControlCommand::InventoryUnequip)
    );
    assert_eq!(
        ControlCommand::parse("item-unequip"),
        Some(ControlCommand::InventoryUnequip)
    );
    assert_eq!(
        ControlCommand::parse("item_unequip"),
        Some(ControlCommand::InventoryUnequip)
    );
    assert_eq!(
        ControlCommand::InventoryUnequip.as_str(),
        "inventory-unequip"
    );
    assert_eq!(
        ControlCommand::parse("inventory-move"),
        Some(ControlCommand::InventoryMove)
    );
    assert_eq!(
        ControlCommand::parse("inventory_move"),
        Some(ControlCommand::InventoryMove)
    );
    assert_eq!(
        ControlCommand::parse("item-move"),
        Some(ControlCommand::InventoryMove)
    );
    assert_eq!(
        ControlCommand::parse("item_move"),
        Some(ControlCommand::InventoryMove)
    );
    assert_eq!(ControlCommand::InventoryMove.as_str(), "inventory-move");
    assert_eq!(
        ControlCommand::parse("options"),
        Some(ControlCommand::Options)
    );
    assert_eq!(ControlCommand::Options.as_str(), "options");
    assert_eq!(
        ControlCommand::parse("friend"),
        Some(ControlCommand::Friend)
    );
    assert_eq!(ControlCommand::Friend.as_str(), "friend");
    assert_eq!(ControlCommand::parse("guild"), Some(ControlCommand::Guild));
    assert_eq!(ControlCommand::Guild.as_str(), "guild");
    assert_eq!(
        ControlCommand::parse("events"),
        Some(ControlCommand::Events)
    );
    assert_eq!(ControlCommand::Events.as_str(), "events");
    assert_eq!(ControlCommand::parse("gens"), Some(ControlCommand::Gens));
    assert_eq!(ControlCommand::Gens.as_str(), "gens");
    assert_eq!(ControlCommand::parse("siege"), Some(ControlCommand::Siege));
    assert_eq!(ControlCommand::Siege.as_str(), "siege");
    assert_eq!(
        ControlCommand::parse("siege-inactive"),
        Some(ControlCommand::SiegeInactive)
    );
    assert_eq!(
        ControlCommand::parse("siege_inactive"),
        Some(ControlCommand::SiegeInactive)
    );
    assert_eq!(ControlCommand::SiegeInactive.as_str(), "siege-inactive");
    assert_eq!(
        ControlCommand::parse("siege-soldier"),
        Some(ControlCommand::SiegeSoldier)
    );
    assert_eq!(
        ControlCommand::parse("siege_soldier"),
        Some(ControlCommand::SiegeSoldier)
    );
    assert_eq!(ControlCommand::SiegeSoldier.as_str(), "siege-soldier");
    assert_eq!(
        ControlCommand::parse("siege-commander"),
        Some(ControlCommand::SiegeCommander)
    );
    assert_eq!(
        ControlCommand::parse("siege_commander"),
        Some(ControlCommand::SiegeCommander)
    );
    assert_eq!(ControlCommand::SiegeCommander.as_str(), "siege-commander");
    assert_eq!(
        ControlCommand::parse("friend-add"),
        Some(ControlCommand::FriendAdd)
    );
    assert_eq!(
        ControlCommand::parse("friend_add"),
        Some(ControlCommand::FriendAdd)
    );
    assert_eq!(ControlCommand::FriendAdd.as_str(), "friend-add");
    assert_eq!(
        ControlCommand::parse("friend-delete"),
        Some(ControlCommand::FriendDelete)
    );
    assert_eq!(
        ControlCommand::parse("friend_delete"),
        Some(ControlCommand::FriendDelete)
    );
    assert_eq!(ControlCommand::FriendDelete.as_str(), "friend-delete");
    assert_eq!(
        ControlCommand::parse("friend-roster"),
        Some(ControlCommand::FriendRoster)
    );
    assert_eq!(
        ControlCommand::parse("friend_inbox"),
        Some(ControlCommand::FriendInbox)
    );
    assert_eq!(
        ControlCommand::parse("friend-compose"),
        Some(ControlCommand::FriendCompose)
    );
    assert_eq!(
        ControlCommand::parse("friend-chat-rooms"),
        Some(ControlCommand::FriendChatRooms)
    );
    assert_eq!(
        ControlCommand::parse("guild-summary"),
        Some(ControlCommand::GuildSummary)
    );
    assert_eq!(
        ControlCommand::parse("guild_members"),
        Some(ControlCommand::GuildMembers)
    );
    assert_eq!(
        ControlCommand::parse("guild-union"),
        Some(ControlCommand::GuildUnion)
    );
    assert_eq!(
        ControlCommand::parse("guild-no-guild"),
        Some(ControlCommand::GuildNoGuild)
    );
    assert_eq!(
        ControlCommand::parse("guild-error"),
        Some(ControlCommand::GuildError)
    );
    assert_eq!(ControlCommand::parse("duel"), Some(ControlCommand::Duel));
    assert_eq!(ControlCommand::Duel.as_str(), "duel");
    assert_eq!(
        ControlCommand::parse("duel-start"),
        Some(ControlCommand::DuelStart)
    );
    assert_eq!(
        ControlCommand::parse("duel_start"),
        Some(ControlCommand::DuelStart)
    );
    assert_eq!(ControlCommand::DuelStart.as_str(), "duel-start");
    assert_eq!(
        ControlCommand::parse("duel-stop"),
        Some(ControlCommand::DuelStop)
    );
    assert_eq!(
        ControlCommand::parse("duel_stop"),
        Some(ControlCommand::DuelStop)
    );
    assert_eq!(ControlCommand::DuelStop.as_str(), "duel-stop");
    assert_eq!(
        ControlCommand::parse("duel-channel-join"),
        Some(ControlCommand::DuelChannelJoin)
    );
    assert_eq!(
        ControlCommand::parse("duel_channel_join"),
        Some(ControlCommand::DuelChannelJoin)
    );
    assert_eq!(
        ControlCommand::DuelChannelJoin.as_str(),
        "duel-channel-join"
    );
    assert_eq!(
        ControlCommand::parse("duel-channel-quit"),
        Some(ControlCommand::DuelChannelQuit)
    );
    assert_eq!(
        ControlCommand::parse("duel_channel_quit"),
        Some(ControlCommand::DuelChannelQuit)
    );
    assert_eq!(
        ControlCommand::DuelChannelQuit.as_str(),
        "duel-channel-quit"
    );
    assert_eq!(
        ControlCommand::parse("skill-targeted"),
        Some(ControlCommand::SkillTargeted)
    );
    assert_eq!(
        ControlCommand::parse("skill_targeted"),
        Some(ControlCommand::SkillTargeted)
    );
    assert_eq!(
        ControlCommand::parse("skill-target"),
        Some(ControlCommand::SkillTargeted)
    );
    assert_eq!(ControlCommand::SkillTargeted.as_str(), "skill-targeted");
    assert_eq!(
        ControlCommand::parse("vault-deposit"),
        Some(ControlCommand::VaultDeposit)
    );
    assert_eq!(
        ControlCommand::parse("vault_deposit"),
        Some(ControlCommand::VaultDeposit)
    );
    assert_eq!(
        ControlCommand::parse("vault-withdraw"),
        Some(ControlCommand::VaultWithdraw)
    );
    assert_eq!(
        ControlCommand::parse("vault_withdraw"),
        Some(ControlCommand::VaultWithdraw)
    );
    assert_eq!(ControlCommand::VaultDeposit.as_str(), "vault-deposit");
    assert_eq!(ControlCommand::VaultWithdraw.as_str(), "vault-withdraw");
}

#[test]
fn snapshot_tracks_social_view_overrides() {
    let mut snapshot = ControlSnapshot::new(AppState::ReadyForLogin);

    snapshot.apply_command(ControlCommand::FriendCompose);

    assert_eq!(snapshot.ui_route, UiRoute::Friend);
    assert_eq!(snapshot.session_phase, SessionPhase::LoggedIn);
    assert_eq!(
        snapshot.friend_screen_state,
        Some(FriendScreenState::Compose)
    );
    assert_eq!(snapshot.guild_screen_state, None);

    snapshot.apply_command(ControlCommand::GuildMembers);

    assert_eq!(snapshot.ui_route, UiRoute::Guild);
    assert_eq!(snapshot.session_phase, SessionPhase::LoggedIn);
    assert_eq!(
        snapshot.friend_screen_state,
        Some(FriendScreenState::Compose)
    );
    assert_eq!(snapshot.guild_screen_state, Some(GuildScreenState::Members));

    snapshot.apply_command(ControlCommand::Friend);

    assert_eq!(snapshot.ui_route, UiRoute::Friend);
    assert_eq!(snapshot.friend_screen_state, None);
    assert_eq!(snapshot.guild_screen_state, Some(GuildScreenState::Members));

    snapshot.apply_command(ControlCommand::Guild);

    assert_eq!(snapshot.ui_route, UiRoute::Guild);
    assert_eq!(snapshot.guild_screen_state, None);
}

#[test]
fn snapshot_tracks_siege_view_overrides() {
    let mut snapshot = ControlSnapshot::new(AppState::ReadyForLogin);

    snapshot.apply_command(ControlCommand::Siege);
    assert_eq!(snapshot.ui_route, UiRoute::Siege);
    assert_eq!(snapshot.session_phase, SessionPhase::LoggedIn);
    assert_eq!(
        snapshot.siege_screen_state,
        Some(SiegeScreenState::Observer)
    );

    snapshot.apply_command(ControlCommand::SiegeInactive);
    assert_eq!(
        snapshot.siege_screen_state,
        Some(SiegeScreenState::Inactive)
    );

    snapshot.apply_command(ControlCommand::SiegeSoldier);
    assert_eq!(
        snapshot.siege_screen_state,
        Some(SiegeScreenState::Soldier)
    );

    snapshot.apply_command(ControlCommand::SiegeCommander);
    assert_eq!(
        snapshot.siege_screen_state,
        Some(SiegeScreenState::Commander)
    );

    snapshot.apply_command(ControlCommand::Chat);
    assert_eq!(snapshot.siege_screen_state, None);
}

#[test]
fn snapshot_tracks_inventory_move_payload() {
    let mut snapshot = ControlSnapshot::new(AppState::ReadyForLogin);

    snapshot.inventory_move_from_slot = Some(0x12);
    snapshot.inventory_move_to_slot = Some(0x34);
    snapshot.apply_command(ControlCommand::InventoryMove);

    assert_eq!(snapshot.ui_route, UiRoute::Inventory);
    assert_eq!(snapshot.session_phase, SessionPhase::LoggedIn);
    assert_eq!(snapshot.inventory_move_from_slot, Some(0x12));
    assert_eq!(snapshot.inventory_move_to_slot, Some(0x34));
}

#[test]
fn snapshot_tracks_inventory_item_action_payloads() {
    let mut snapshot = ControlSnapshot::new(AppState::ReadyForLogin);

    snapshot.inventory_use_slot = Some(7);
    snapshot.inventory_use_target = Some(3);
    snapshot.inventory_use_add_points = Some(false);
    snapshot.inventory_equip_slot = Some(9);
    snapshot.inventory_unequip_slot = Some(2);
    snapshot.apply_command(ControlCommand::InventoryUse);

    let body = snapshot.to_json();
    assert!(body.contains(r#""inventory_use_slot":7"#));
    assert!(body.contains(r#""inventory_use_target":3"#));
    assert!(body.contains(r#""inventory_use_add_points":false"#));
    assert!(body.contains(r#""inventory_equip_slot":9"#));
    assert!(body.contains(r#""inventory_unequip_slot":2"#));
    assert!(body.contains(r#""ui_route":"inventory""#));
    assert!(body.contains(r#""session_phase":"logged-in""#));
}

#[test]
fn snapshot_tracks_guild_join_payload() {
    let mut snapshot = ControlSnapshot::new(AppState::ReadyForLogin);

    snapshot.guild_master_player_id = Some(0x1234);
    snapshot.apply_command(ControlCommand::GuildJoin);

    assert_eq!(snapshot.ui_route, UiRoute::Guild);
    assert_eq!(snapshot.session_phase, SessionPhase::LoggedIn);
    assert_eq!(snapshot.guild_master_player_id, Some(0x1234));
    assert_eq!(snapshot.guild_screen_state, None);
}

#[test]
fn snapshot_tracks_guild_create_payload() {
    let mut snapshot = ControlSnapshot::new(AppState::ReadyForLogin);

    snapshot.guild_create_name = Some("Guild".to_string());
    snapshot.guild_create_emblem = Some([1u8; 32]);
    snapshot.apply_command(ControlCommand::GuildCreate);

    assert_eq!(snapshot.ui_route, UiRoute::Guild);
    assert_eq!(snapshot.session_phase, SessionPhase::LoggedIn);
    assert_eq!(snapshot.guild_create_name.as_deref(), Some("Guild"));
    assert_eq!(snapshot.guild_create_emblem, Some([1u8; 32]));
    assert_eq!(snapshot.guild_screen_state, None);

    let body = snapshot.to_json();
    assert!(body.contains(r#""guild_create_name":"Guild""#));
    assert!(body.contains(&format!(r#""guild_create_emblem":"{}""#, "01".repeat(32))));
}

#[test]
fn snapshot_tracks_duel_start_payload() {
    let mut snapshot = ControlSnapshot::new(AppState::ReadyForLogin);

    snapshot.duel_player_id = Some(0x1234);
    snapshot.duel_player_name = Some("Astra".to_string());
    snapshot.apply_command(ControlCommand::DuelStart);

    assert_eq!(snapshot.ui_route, UiRoute::Duel);
    assert_eq!(snapshot.session_phase, SessionPhase::LoggedIn);
    assert_eq!(snapshot.duel_player_id, Some(0x1234));
    assert_eq!(snapshot.duel_player_name.as_deref(), Some("Astra"));

    let body = snapshot.to_json();
    assert!(body.contains(r#""duel_player_id":4660"#));
    assert!(body.contains(r#""duel_player_name":"Astra""#));
}

#[test]
fn control_http_route_accepts_duel_start_payload() {
    let mut snapshot = ControlSnapshot::new(AppState::ReadyForLogin);
    let mut shutdown = false;

    let response = route(
        &mut snapshot,
        &mut shutdown,
        HttpRequest {
            method: "POST".to_string(),
            path: "/command".to_string(),
            query: "name=duel-start&player_id=4660&player_name=Astra".to_string(),
            body: String::new(),
        },
    );

    assert_eq!(response.status, 200);
        assert_eq!(snapshot.last_command, Some(ControlCommand::DuelStart));
    assert_eq!(snapshot.duel_player_id, Some(4660));
    assert_eq!(snapshot.duel_player_name.as_deref(), Some("Astra"));
    assert_eq!(snapshot.ui_route, UiRoute::Duel);
}

#[test]
fn control_http_route_accepts_duel_channel_join_payload() {
    let mut snapshot = ControlSnapshot::new(AppState::ReadyForLogin);
    let mut shutdown = false;

    let response = route(
        &mut snapshot,
        &mut shutdown,
        HttpRequest {
            method: "POST".to_string(),
            path: "/command".to_string(),
            query: "name=duel-channel-join&channel_id=7".to_string(),
            body: String::new(),
        },
    );

    assert_eq!(response.status, 200);
        assert_eq!(snapshot.last_command, Some(ControlCommand::DuelChannelJoin));
    assert_eq!(snapshot.duel_channel_id, Some(7));
    assert_eq!(snapshot.ui_route, UiRoute::Duel);
}

#[test]
fn control_http_route_accepts_marketplace_command() {
    let mut snapshot = ControlSnapshot::new(AppState::ReadyForLogin);
    let mut shutdown = false;

    let response = route(
        &mut snapshot,
        &mut shutdown,
        HttpRequest {
            method: "POST".to_string(),
            path: "/command".to_string(),
            query: "name=marketplace".to_string(),
            body: String::new(),
        },
    );

    assert_eq!(response.status, 200);
        assert_eq!(snapshot.last_command, Some(ControlCommand::Marketplace));
    assert_eq!(snapshot.ui_route, UiRoute::Marketplace);
    assert_eq!(snapshot.session_phase, SessionPhase::LoggedIn);
}

#[test]
fn duel_channel_join_requests_require_a_payload() {
    let mut handle = TestServer::spawn(AppState::ReadyForLogin);

    let (head, body) = send_request(
        &mut handle,
        "POST /command?name=duel-channel-join HTTP/1.1\r\nHost: localhost\r\nContent-Length: 0\r\nConnection: close\r\n\r\n",
    );
    assert!(head.contains("400 Bad Request"));
    assert!(body.contains(r#""error":"missing duel channel payload""#));

    let (head, body) = send_request(
        &mut handle,
        "POST /command?name=duel-channel-join&channel_id=bad HTTP/1.1\r\nHost: localhost\r\nContent-Length: 0\r\nConnection: close\r\n\r\n",
    );
    assert!(head.contains("400 Bad Request"));
    assert!(body.contains(r#""error":"missing duel channel payload""#));

    let (head, body) = send_request(
        &mut handle,
        "POST /command?name=duel-channel-join&channel_id=7 HTTP/1.1\r\nHost: localhost\r\nContent-Length: 0\r\nConnection: close\r\n\r\n",
    );
    assert!(head.contains("200 OK"));
    assert!(body.contains(r#""duel_channel_id":7"#));
    assert!(body.contains(r#""ui_route":"duel""#));

    let (_, state_body) = send_request(
        &mut handle,
        "GET /state HTTP/1.1\r\nHost: localhost\r\nConnection: close\r\n\r\n",
    );
    assert!(state_body.contains(r#""duel_channel_id":7"#));
    assert!(state_body.contains(r#""command_count":1"#));
}

#[test]
fn skill_targeted_requests_require_a_payload() {
    let mut handle = TestServer::spawn(AppState::ReadyForLogin);

    let (head, body) = send_request(
        &mut handle,
        "POST /command?name=skill-targeted HTTP/1.1\r\nHost: localhost\r\nContent-Length: 0\r\nConnection: close\r\n\r\n",
    );
    assert!(head.contains("400 Bad Request"));
    assert!(body.contains(r#""error":"missing skill targeted payload""#));

    let (head, body) = send_request(
        &mut handle,
        "POST /command?name=skill-targeted&skill_id=bad&target_id=7 HTTP/1.1\r\nHost: localhost\r\nContent-Length: 0\r\nConnection: close\r\n\r\n",
    );
    assert!(head.contains("400 Bad Request"));
    assert!(body.contains(r#""error":"missing skill targeted payload""#));

    let (head, body) = send_request(
        &mut handle,
        "POST /command?name=skill-targeted&skill_id=6&target_id=77 HTTP/1.1\r\nHost: localhost\r\nContent-Length: 0\r\nConnection: close\r\n\r\n",
    );
    assert!(head.contains("200 OK"));
    assert!(body.contains(r#""skill_id":6"#));
    assert!(body.contains(r#""skill_target_id":77"#));
    assert!(body.contains(r#""ui_route":"world""#));

    let (_, state_body) = send_request(
        &mut handle,
        "GET /state HTTP/1.1\r\nHost: localhost\r\nConnection: close\r\n\r\n",
    );
    assert!(state_body.contains(r#""skill_id":6"#));
    assert!(state_body.contains(r#""skill_target_id":77"#));
    assert!(state_body.contains(r#""command_count":1"#));

    handle.request_shutdown();
    let _ = handle.join();
}

#[test]
fn snapshot_tracks_guild_fire_payload() {
    let mut snapshot = ControlSnapshot::new(AppState::ReadyForLogin);

    snapshot.guild_player_name = Some("Blade".to_string());
    snapshot.guild_security_code = Some("1234".to_string());
    snapshot.apply_command(ControlCommand::GuildFire);

    assert_eq!(snapshot.ui_route, UiRoute::Guild);
    assert_eq!(snapshot.session_phase, SessionPhase::LoggedIn);
    assert_eq!(snapshot.guild_player_name.as_deref(), Some("Blade"));
    assert_eq!(snapshot.guild_security_code.as_deref(), Some("1234"));
    assert_eq!(snapshot.guild_screen_state, Some(GuildScreenState::Members));
}

#[test]
fn snapshot_tracks_guild_ban_union_payload() {
    let mut snapshot = ControlSnapshot::new(AppState::ReadyForLogin);

    snapshot.guild_union_name = Some("Alliance".to_string());
    snapshot.apply_command(ControlCommand::GuildBanUnion);

    assert_eq!(snapshot.ui_route, UiRoute::Guild);
    assert_eq!(snapshot.session_phase, SessionPhase::LoggedIn);
    assert_eq!(snapshot.guild_union_name.as_deref(), Some("Alliance"));
    assert_eq!(snapshot.guild_screen_state, Some(GuildScreenState::Union));
}

#[test]
fn snapshot_tracks_skill_targeted_payload() {
    let mut snapshot = ControlSnapshot::new(AppState::ReadyForLogin);

    snapshot.skill_id = Some(6);
    snapshot.skill_target_id = Some(77);
    snapshot.apply_command(ControlCommand::SkillTargeted);

    assert_eq!(snapshot.ui_route, UiRoute::World);
    assert_eq!(snapshot.session_phase, SessionPhase::LoggedIn);
    assert_eq!(snapshot.skill_id, Some(6));
    assert_eq!(snapshot.skill_target_id, Some(77));
}

#[test]
fn snapshot_tracks_route_and_session_state() {
    let mut snapshot = ControlSnapshot::new(AppState::ReadyForLogin);

    assert_eq!(snapshot.ui_route, UiRoute::Login);
    assert_eq!(snapshot.session_phase, SessionPhase::ReadyForLogin);

    snapshot.apply_command(ControlCommand::LoginSuccess);

    assert_eq!(snapshot.ui_route, UiRoute::CharacterSelect);
    assert_eq!(snapshot.session_phase, SessionPhase::LoggedIn);

    snapshot.selected_character_name = Some("Astra".to_string());
    snapshot.apply_command(ControlCommand::SelectCharacter);

    assert_eq!(snapshot.ui_route, UiRoute::CharacterSelect);
    assert_eq!(snapshot.session_phase, SessionPhase::LoggedIn);
    assert_eq!(snapshot.selected_character_name.as_deref(), Some("Astra"));

    snapshot.apply_command(ControlCommand::CharacterCreate);

    assert_eq!(snapshot.ui_route, UiRoute::CharacterCreate);
    assert_eq!(snapshot.session_phase, SessionPhase::LoggedIn);
    assert_eq!(snapshot.selected_character_name, None);

    snapshot.apply_command(ControlCommand::Chat);

    assert_eq!(snapshot.ui_route, UiRoute::Chat);
    assert_eq!(snapshot.session_phase, SessionPhase::LoggedIn);

    snapshot.apply_command(ControlCommand::Options);

    assert_eq!(snapshot.ui_route, UiRoute::Options);
    assert_eq!(snapshot.session_phase, SessionPhase::LoggedIn);

    snapshot.apply_command(ControlCommand::Npc);

    assert_eq!(snapshot.ui_route, UiRoute::Npc);
    assert_eq!(snapshot.session_phase, SessionPhase::LoggedIn);

    snapshot.apply_command(ControlCommand::Shop);

    assert_eq!(snapshot.ui_route, UiRoute::Shop);
    assert_eq!(snapshot.session_phase, SessionPhase::LoggedIn);

    snapshot.apply_command(ControlCommand::GameShop);

    assert_eq!(snapshot.ui_route, UiRoute::GameShop);
    assert_eq!(snapshot.session_phase, SessionPhase::LoggedIn);

    snapshot.apply_command(ControlCommand::Trade);

    assert_eq!(snapshot.ui_route, UiRoute::Trade);
    assert_eq!(snapshot.session_phase, SessionPhase::LoggedIn);

    snapshot.apply_command(ControlCommand::Marketplace);

    assert_eq!(snapshot.ui_route, UiRoute::Marketplace);
    assert_eq!(snapshot.session_phase, SessionPhase::LoggedIn);

    snapshot.apply_command(ControlCommand::Party);

    assert_eq!(snapshot.ui_route, UiRoute::Party);
    assert_eq!(snapshot.session_phase, SessionPhase::LoggedIn);

    snapshot.apply_command(ControlCommand::Gate);

    assert_eq!(snapshot.ui_route, UiRoute::Gate);
    assert_eq!(snapshot.session_phase, SessionPhase::LoggedIn);

    snapshot.apply_command(ControlCommand::Friend);

    assert_eq!(snapshot.ui_route, UiRoute::Friend);
    assert_eq!(snapshot.session_phase, SessionPhase::LoggedIn);

    snapshot.apply_command(ControlCommand::Guild);

    assert_eq!(snapshot.ui_route, UiRoute::Guild);
    assert_eq!(snapshot.session_phase, SessionPhase::LoggedIn);

    snapshot.apply_command(ControlCommand::Duel);

    assert_eq!(snapshot.ui_route, UiRoute::Duel);
    assert_eq!(snapshot.session_phase, SessionPhase::LoggedIn);

    snapshot.apply_command(ControlCommand::Quests);

    assert_eq!(snapshot.ui_route, UiRoute::Quests);
    assert_eq!(snapshot.session_phase, SessionPhase::LoggedIn);

    snapshot.apply_command(ControlCommand::MuHelper);

    assert_eq!(snapshot.ui_route, UiRoute::MuHelper);
    assert_eq!(snapshot.session_phase, SessionPhase::LoggedIn);
}

#[test]
fn server_exposes_state_and_applies_commands() {
    let mut handle = TestServer::spawn(AppState::Boot);

    let (_, body) = send_request(
        &mut handle,
        "GET /state HTTP/1.1\r\nHost: localhost\r\nConnection: close\r\n\r\n",
    );
    assert!(body.contains(r#""state":"boot""#));
    assert!(body.contains(r#""ui_route":"boot""#));
    assert!(body.contains(r#""session_phase":"ready-for-login""#));

    let (_, body) = send_request(
        &mut handle,
        "POST /command?name=ready-for-login HTTP/1.1\r\nHost: localhost\r\nContent-Length: 0\r\nConnection: close\r\n\r\n",
    );
    assert!(body.contains(r#""state":"ready-for-login""#));
    assert!(body.contains(r#""last_command":"ready-for-login""#));
    assert!(body.contains(r#""ui_route":"login""#));
    assert!(body.contains(r#""session_phase":"ready-for-login""#));

    let (_, body) = send_request(
        &mut handle,
        "POST /command?name=login-success HTTP/1.1\r\nHost: localhost\r\nContent-Length: 0\r\nConnection: close\r\n\r\n",
    );
    assert!(body.contains(r#""ui_route":"character-select""#));
    assert!(body.contains(r#""session_phase":"logged-in""#));
    assert!(body.contains(r#""selected_character_name":null"#));

    let (_, body) = send_request(
        &mut handle,
        "POST /command?name=character-create HTTP/1.1\r\nHost: localhost\r\nContent-Length: 0\r\nConnection: close\r\n\r\n",
    );
    assert!(body.contains(r#""ui_route":"character-create""#));
    assert!(body.contains(r#""session_phase":"logged-in""#));
    assert!(body.contains(r#""selected_character_name":null"#));

    let (_, body) = send_request(
        &mut handle,
        "POST /command?name=create-character&character=Astra HTTP/1.1\r\nHost: localhost\r\nContent-Length: 0\r\nConnection: close\r\n\r\n",
    );
    assert!(body.contains(r#""ui_route":"character-create""#));
    assert!(body.contains(r#""session_phase":"logged-in""#));
    assert!(body.contains(r#""last_command":"create-character""#));
    assert!(body.contains(r#""selected_character_name":"Astra""#));

    let (_, body) = send_request(
        &mut handle,
        "POST /command?name=select-character HTTP/1.1\r\nHost: localhost\r\nContent-Length: 5\r\nConnection: close\r\n\r\nAstra",
    );
    assert!(body.contains(r#""ui_route":"character-select""#));
    assert!(body.contains(r#""session_phase":"logged-in""#));
    assert!(body.contains(r#""selected_character_name":"Astra""#));

    let (_, body) = send_request(
        &mut handle,
        "POST /command?name=chat HTTP/1.1\r\nHost: localhost\r\nContent-Length: 0\r\nConnection: close\r\n\r\n",
    );
    assert!(body.contains(r#""ui_route":"chat""#));
    assert!(body.contains(r#""session_phase":"logged-in""#));

    let (_, body) = send_request(
        &mut handle,
        "POST /command?name=options HTTP/1.1\r\nHost: localhost\r\nContent-Length: 0\r\nConnection: close\r\n\r\n",
    );
    assert!(body.contains(r#""ui_route":"options""#));
    assert!(body.contains(r#""session_phase":"logged-in""#));

    let (_, body) = send_request(
        &mut handle,
        "POST /command?name=npc HTTP/1.1\r\nHost: localhost\r\nContent-Length: 0\r\nConnection: close\r\n\r\n",
    );
    assert!(body.contains(r#""ui_route":"npc""#));
    assert!(body.contains(r#""session_phase":"logged-in""#));

    let (_, body) = send_request(
        &mut handle,
        "POST /command?name=shop HTTP/1.1\r\nHost: localhost\r\nContent-Length: 0\r\nConnection: close\r\n\r\n",
    );
    assert!(body.contains(r#""ui_route":"shop""#));
    assert!(body.contains(r#""session_phase":"logged-in""#));

    let (_, body) = send_request(
        &mut handle,
        "POST /command?name=game-shop HTTP/1.1\r\nHost: localhost\r\nContent-Length: 0\r\nConnection: close\r\n\r\n",
    );
    assert!(body.contains(r#""ui_route":"game-shop""#));
    assert!(body.contains(r#""session_phase":"logged-in""#));

    let (_, body) = send_request(
        &mut handle,
        "POST /command?name=trade HTTP/1.1\r\nHost: localhost\r\nContent-Length: 0\r\nConnection: close\r\n\r\n",
    );
    assert!(body.contains(r#""ui_route":"trade""#));
    assert!(body.contains(r#""session_phase":"logged-in""#));

    let (_, body) = send_request(
        &mut handle,
        "POST /command?name=vault-deposit&amount=250 HTTP/1.1\r\nHost: localhost\r\nContent-Length: 0\r\nConnection: close\r\n\r\n",
    );
    assert!(body.contains(r#""ui_route":"inventory""#));
    assert!(body.contains(r#""session_phase":"logged-in""#));
    assert!(body.contains(r#""vault_money_amount":250"#));

    let (_, body) = send_request(
        &mut handle,
        "POST /command?name=vault-withdraw&amount=125 HTTP/1.1\r\nHost: localhost\r\nContent-Length: 0\r\nConnection: close\r\n\r\n",
    );
    assert!(body.contains(r#""ui_route":"inventory""#));
    assert!(body.contains(r#""session_phase":"logged-in""#));
    assert!(body.contains(r#""vault_money_amount":125"#));

    let (_, body) = send_request(
        &mut handle,
        "POST /command?name=inventory-move&from_slot=0&to_slot=1 HTTP/1.1\r\nHost: localhost\r\nContent-Length: 0\r\nConnection: close\r\n\r\n",
    );
    assert!(body.contains(r#""ui_route":"inventory""#));
    assert!(body.contains(r#""inventory_move_from_slot":0"#));
    assert!(body.contains(r#""inventory_move_to_slot":1"#));

    let (_, body) = send_request(
        &mut handle,
        "POST /command?name=quests HTTP/1.1\r\nHost: localhost\r\nContent-Length: 0\r\nConnection: close\r\n\r\n",
    );
    assert!(body.contains(r#""ui_route":"quests""#));
    assert!(body.contains(r#""session_phase":"logged-in""#));

    let (_, body) = send_request(
        &mut handle,
        "POST /command?name=party HTTP/1.1\r\nHost: localhost\r\nContent-Length: 0\r\nConnection: close\r\n\r\n",
    );
    assert!(body.contains(r#""ui_route":"party""#));
    assert!(body.contains(r#""session_phase":"logged-in""#));

    let (_, body) = send_request(
        &mut handle,
        "POST /command?name=gate HTTP/1.1\r\nHost: localhost\r\nContent-Length: 0\r\nConnection: close\r\n\r\n",
    );
    assert!(body.contains(r#""ui_route":"gate""#));
    assert!(body.contains(r#""session_phase":"logged-in""#));

    let (_, body) = send_request(
        &mut handle,
        "POST /command?name=siege HTTP/1.1\r\nHost: localhost\r\nContent-Length: 0\r\nConnection: close\r\n\r\n",
    );
    assert!(body.contains(r#""ui_route":"siege""#));
    assert!(body.contains(r#""session_phase":"logged-in""#));
    assert!(body.contains(r#""siege_screen_state":"observer""#));

    let (_, body) = send_request(
        &mut handle,
        "POST /command?name=events HTTP/1.1\r\nHost: localhost\r\nContent-Length: 0\r\nConnection: close\r\n\r\n",
    );
    assert!(body.contains(r#""ui_route":"events""#));
    assert!(body.contains(r#""session_phase":"logged-in""#));

    let (_, body) = send_request(
        &mut handle,
        "POST /command?name=gens HTTP/1.1\r\nHost: localhost\r\nContent-Length: 0\r\nConnection: close\r\n\r\n",
    );
    assert!(body.contains(r#""ui_route":"hud""#));
    assert!(body.contains(r#""session_phase":"logged-in""#));

    let (_, body) = send_request(
        &mut handle,
        "POST /command?name=friend-compose HTTP/1.1\r\nHost: localhost\r\nContent-Length: 0\r\nConnection: close\r\n\r\n",
    );
    assert!(body.contains(r#""ui_route":"friend""#));
    assert!(body.contains(r#""friend_screen_state":"compose""#));

    let (_, body) = send_request(
        &mut handle,
        "POST /command?name=friend-add&friend=Astra HTTP/1.1\r\nHost: localhost\r\nContent-Length: 0\r\nConnection: close\r\n\r\n",
    );
    assert!(body.contains(r#""ui_route":"friend""#));
    assert!(body.contains(r#""friend_name":"Astra""#));
    assert!(body.contains(r#""last_command":"friend-add""#));

    let (_, body) = send_request(
        &mut handle,
        "POST /command?name=guild-members HTTP/1.1\r\nHost: localhost\r\nContent-Length: 0\r\nConnection: close\r\n\r\n",
    );
    assert!(body.contains(r#""ui_route":"guild""#));
    assert!(body.contains(r#""guild_screen_state":"members""#));

    let (_, body) = send_request(
        &mut handle,
        "POST /command?name=mu-helper HTTP/1.1\r\nHost: localhost\r\nContent-Length: 0\r\nConnection: close\r\n\r\n",
    );
    assert!(body.contains(r#""ui_route":"mu-helper""#));
    assert!(body.contains(r#""session_phase":"logged-in""#));

    let (_, body) = send_request(
        &mut handle,
        "POST /command?name=duel HTTP/1.1\r\nHost: localhost\r\nContent-Length: 0\r\nConnection: close\r\n\r\n",
    );
    assert!(body.contains(r#""ui_route":"duel""#));
    assert!(body.contains(r#""session_phase":"logged-in""#));

    let (_, body) = send_request(
        &mut handle,
        "POST /command?name=exit HTTP/1.1\r\nHost: localhost\r\nContent-Length: 0\r\nConnection: close\r\n\r\n",
    );
    assert!(body.contains(r#""state":"exit""#));

    let final_snapshot = handle.join().unwrap();
    assert_eq!(final_snapshot.state, AppState::Exit);
    assert_eq!(final_snapshot.command_count, 26);
}

#[test]
fn create_character_rejects_short_names() {
    let mut handle = TestServer::spawn(AppState::ReadyForLogin);

    let (head, body) = send_request(
        &mut handle,
        "POST /command?name=create-character&character=Aba HTTP/1.1\r\nHost: localhost\r\nContent-Length: 0\r\nConnection: close\r\n\r\n",
    );

    assert!(head.contains("400 Bad Request"));
    assert!(body.contains("character name must be at least 4 characters"));

    let (_, state_body) = send_request(
        &mut handle,
        "GET /state HTTP/1.1\r\nHost: localhost\r\nConnection: close\r\n\r\n",
    );
    assert!(state_body.contains(r#""ui_route":"login""#));
    assert!(state_body.contains(r#""selected_character_name":null"#));

    handle.request_shutdown();
    let _ = handle.join();
}

#[test]
fn friend_actions_require_a_name() {
    let mut handle = TestServer::spawn(AppState::ReadyForLogin);

    let (head, body) = send_request(
        &mut handle,
        "POST /command?name=friend-add HTTP/1.1\r\nHost: localhost\r\nContent-Length: 0\r\nConnection: close\r\n\r\n",
    );
    assert!(head.contains("400 Bad Request"));
    assert!(body.contains(r#""error":"missing friend name""#));

    let (head, body) = send_request(
        &mut handle,
        "POST /command?name=friend-delete HTTP/1.1\r\nHost: localhost\r\nContent-Length: 0\r\nConnection: close\r\n\r\n",
    );
    assert!(head.contains("400 Bad Request"));
    assert!(body.contains(r#""error":"missing friend name""#));

    let (head, body) = send_request(
        &mut handle,
        "POST /command?name=friend-add&friend= HTTP/1.1\r\nHost: localhost\r\nContent-Length: 0\r\nConnection: close\r\n\r\n",
    );
    assert!(head.contains("400 Bad Request"));
    assert!(body.contains(r#""error":"missing friend name""#));

    let (head, body) = send_request(
        &mut handle,
        "POST /command?name=friend-delete HTTP/1.1\r\nHost: localhost\r\nContent-Length: 3\r\nConnection: close\r\n\r\n   ",
    );
    assert!(head.contains("400 Bad Request"));
    assert!(body.contains(r#""error":"missing friend name""#));

    let (_, state_body) = send_request(
        &mut handle,
        "GET /state HTTP/1.1\r\nHost: localhost\r\nConnection: close\r\n\r\n",
    );
    assert!(state_body.contains(r#""friend_name":null"#));
    assert!(state_body.contains(r#""command_count":0"#));

    handle.request_shutdown();
    let _ = handle.join();
}

#[test]
fn vault_money_actions_require_an_amount() {
    let mut handle = TestServer::spawn(AppState::ReadyForLogin);

    let (head, body) = send_request(
        &mut handle,
        "POST /command?name=vault-deposit HTTP/1.1\r\nHost: localhost\r\nContent-Length: 0\r\nConnection: close\r\n\r\n",
    );
    assert!(head.contains("400 Bad Request"));
    assert!(body.contains(r#""error":"missing vault amount""#));

    let (head, body) = send_request(
        &mut handle,
        "POST /command?name=vault-withdraw&amount=bad HTTP/1.1\r\nHost: localhost\r\nContent-Length: 0\r\nConnection: close\r\n\r\n",
    );
    assert!(head.contains("400 Bad Request"));
    assert!(body.contains(r#""error":"missing vault amount""#));

    let (head, body) = send_request(
        &mut handle,
        "POST /command?name=vault-deposit&amount=0 HTTP/1.1\r\nHost: localhost\r\nContent-Length: 0\r\nConnection: close\r\n\r\n",
    );
    assert!(head.contains("400 Bad Request"));
    assert!(body.contains(r#""error":"vault amount must be positive""#));

    let (_, state_body) = send_request(
        &mut handle,
        "GET /state HTTP/1.1\r\nHost: localhost\r\nConnection: close\r\n\r\n",
    );
    assert!(state_body.contains(r#""vault_money_amount":null"#));
    assert!(state_body.contains(r#""command_count":0"#));

    handle.request_shutdown();
    let _ = handle.join();
}

#[test]
fn inventory_move_actions_require_a_payload() {
    let mut handle = TestServer::spawn(AppState::ReadyForLogin);

    let (head, body) = send_request(
        &mut handle,
        "POST /command?name=inventory-move HTTP/1.1\r\nHost: localhost\r\nContent-Length: 0\r\nConnection: close\r\n\r\n",
    );
    assert!(head.contains("400 Bad Request"));
    assert!(body.contains(r#""error":"missing inventory move payload""#));

    let (_, state_body) = send_request(
        &mut handle,
        "GET /state HTTP/1.1\r\nHost: localhost\r\nConnection: close\r\n\r\n",
    );
    assert!(state_body.contains(r#""inventory_move_from_slot":null"#));
    assert!(state_body.contains(r#""inventory_move_to_slot":null"#));
    assert!(state_body.contains(r#""command_count":0"#));

    handle.request_shutdown();
    let _ = handle.join();
}

#[test]
fn inventory_item_actions_require_payloads() {
    let mut handle = TestServer::spawn(AppState::ReadyForLogin);

    let (head, body) = send_request(
        &mut handle,
        "POST /command?name=inventory-use HTTP/1.1\r\nHost: localhost\r\nContent-Length: 0\r\nConnection: close\r\n\r\n",
    );
    assert!(head.contains("400 Bad Request"));
    assert!(body.contains(r#""error":"missing inventory use payload""#));

    let (head, body) = send_request(
        &mut handle,
        "POST /command?name=inventory-equip HTTP/1.1\r\nHost: localhost\r\nContent-Length: 0\r\nConnection: close\r\n\r\n",
    );
    assert!(head.contains("400 Bad Request"));
    assert!(body.contains(r#""error":"missing inventory equip payload""#));

    let (head, body) = send_request(
        &mut handle,
        "POST /command?name=inventory-unequip HTTP/1.1\r\nHost: localhost\r\nContent-Length: 0\r\nConnection: close\r\n\r\n",
    );
    assert!(head.contains("400 Bad Request"));
    assert!(body.contains(r#""error":"missing inventory unequip payload""#));

    let (_, state_body) = send_request(
        &mut handle,
        "GET /state HTTP/1.1\r\nHost: localhost\r\nConnection: close\r\n\r\n",
    );
    assert!(state_body.contains(r#""inventory_use_slot":null"#));
    assert!(state_body.contains(r#""inventory_equip_slot":null"#));
    assert!(state_body.contains(r#""inventory_unequip_slot":null"#));
    assert!(state_body.contains(r#""command_count":0"#));

    handle.request_shutdown();
    let _ = handle.join();
}

#[test]
fn inventory_item_actions_accept_payloads() {
    let mut handle = TestServer::spawn(AppState::ReadyForLogin);

    let (head, body) = send_request(
        &mut handle,
        "POST /command?name=inventory-use&item_slot=7&target=3&fruit=false HTTP/1.1\r\nHost: localhost\r\nContent-Length: 0\r\nConnection: close\r\n\r\n",
    );
    assert!(head.contains("200 OK"));
    assert!(body.contains(r#""last_command":"inventory-use""#));
    assert!(body.contains(r#""inventory_use_slot":7"#));
    assert!(body.contains(r#""inventory_use_target":3"#));
    assert!(body.contains(r#""inventory_use_add_points":false"#));

    let (head, body) = send_request(
        &mut handle,
        "POST /command?name=inventory-equip&slot=9 HTTP/1.1\r\nHost: localhost\r\nContent-Length: 0\r\nConnection: close\r\n\r\n",
    );
    assert!(head.contains("200 OK"));
    assert!(body.contains(r#""last_command":"inventory-equip""#));
    assert!(body.contains(r#""inventory_equip_slot":9"#));

    let (head, body) = send_request(
        &mut handle,
        "POST /command?name=inventory-unequip&item_slot=2 HTTP/1.1\r\nHost: localhost\r\nContent-Length: 0\r\nConnection: close\r\n\r\n",
    );
    assert!(head.contains("200 OK"));
    assert!(body.contains(r#""last_command":"inventory-unequip""#));
    assert!(body.contains(r#""inventory_unequip_slot":2"#));

    let (_, state_body) = send_request(
        &mut handle,
        "GET /state HTTP/1.1\r\nHost: localhost\r\nConnection: close\r\n\r\n",
    );
    assert!(state_body.contains(r#""state":"ready-for-login""#));
    assert!(state_body.contains(r#""ui_route":"inventory""#));
    assert!(state_body.contains(r#""session_phase":"logged-in""#));
    assert!(state_body.contains(r#""inventory_use_slot":7"#));
    assert!(state_body.contains(r#""inventory_equip_slot":9"#));
    assert!(state_body.contains(r#""inventory_unequip_slot":2"#));
    assert!(state_body.contains(r#""command_count":3"#));

    handle.request_shutdown();
    let _ = handle.join();
}

#[test]
fn guild_join_requests_require_a_payload() {
    let mut handle = TestServer::spawn(AppState::ReadyForLogin);

    let (head, body) = send_request(
        &mut handle,
        "POST /command?name=guild-join HTTP/1.1\r\nHost: localhost\r\nContent-Length: 0\r\nConnection: close\r\n\r\n",
    );
    assert!(head.contains("400 Bad Request"));
    assert!(body.contains(r#""error":"missing guild join payload""#));

    let (head, body) = send_request(
        &mut handle,
        "POST /command?name=guild-join&master_id=bad HTTP/1.1\r\nHost: localhost\r\nContent-Length: 0\r\nConnection: close\r\n\r\n",
    );
    assert!(head.contains("400 Bad Request"));
    assert!(body.contains(r#""error":"missing guild join payload""#));

    let (head, body) = send_request(
        &mut handle,
        "POST /command?name=guild-join&master_id=4660 HTTP/1.1\r\nHost: localhost\r\nContent-Length: 0\r\nConnection: close\r\n\r\n",
    );
    assert!(head.contains("200 OK"));
    assert!(body.contains(r#""guild_master_player_id":4660"#));
    assert!(body.contains(r#""guild_screen_state":null"#));

    let (_, state_body) = send_request(
        &mut handle,
        "GET /state HTTP/1.1\r\nHost: localhost\r\nConnection: close\r\n\r\n",
    );
    assert!(state_body.contains(r#""guild_master_player_id":4660"#));
    assert!(state_body.contains(r#""command_count":1"#));

    handle.request_shutdown();
    let _ = handle.join();
}

#[test]
fn guild_create_requests_require_a_payload() {
    let mut handle = TestServer::spawn(AppState::ReadyForLogin);

    let (head, body) = send_request(
        &mut handle,
        "POST /command?name=guild-create HTTP/1.1\r\nHost: localhost\r\nContent-Length: 0\r\nConnection: close\r\n\r\n",
    );
    assert!(head.contains("400 Bad Request"));
    assert!(body.contains(r#""error":"missing guild create payload""#));

    let (head, body) = send_request(
        &mut handle,
        "POST /command?name=guild-create&guild_name=Guild&guild_emblem=bad HTTP/1.1\r\nHost: localhost\r\nContent-Length: 0\r\nConnection: close\r\n\r\n",
    );
    assert!(head.contains("400 Bad Request"));
    assert!(body.contains(r#""error":"missing guild create payload""#));

    let emblem = "01".repeat(32);
    let (head, body) = send_request(
        &mut handle,
        format!(
            "POST /command?name=guild-create&guild_name=Guild&guild_emblem={emblem} HTTP/1.1\r\nHost: localhost\r\nContent-Length: 0\r\nConnection: close\r\n\r\n"
        )
        .as_str(),
    );
    assert!(head.contains("200 OK"));
    assert!(body.contains(r#""guild_create_name":"Guild""#));
    assert!(body.contains(&format!(r#""guild_create_emblem":"{}""#, emblem)));
    assert!(body.contains(r#""guild_screen_state":null"#));

    let (_, state_body) = send_request(
        &mut handle,
        "GET /state HTTP/1.1\r\nHost: localhost\r\nConnection: close\r\n\r\n",
    );
    assert!(state_body.contains(r#""guild_create_name":"Guild""#));
    assert!(state_body.contains(&format!(r#""guild_create_emblem":"{}""#, emblem)));
    assert!(state_body.contains(r#""command_count":1"#));

    handle.request_shutdown();
    let _ = handle.join();
}

#[test]
fn guild_role_assign_requests_require_a_payload() {
    let mut handle = TestServer::spawn(AppState::ReadyForLogin);

    let (head, body) = send_request(
        &mut handle,
        "POST /command?name=guild-role-assign HTTP/1.1\r\nHost: localhost\r\nContent-Length: 0\r\nConnection: close\r\n\r\n",
    );
    assert!(head.contains("400 Bad Request"));
    assert!(body.contains(r#""error":"missing guild role assignment payload""#));

    let (head, body) = send_request(
        &mut handle,
        "POST /command?name=guild-role-assign&player=Astra&role=bad&type=1 HTTP/1.1\r\nHost: localhost\r\nContent-Length: 0\r\nConnection: close\r\n\r\n",
    );
    assert!(head.contains("400 Bad Request"));
    assert!(body.contains(r#""error":"missing guild role assignment payload""#));

    let (head, body) = send_request(
        &mut handle,
        "POST /command?name=guild-role-assign&player=Astra&role=64&type=2 HTTP/1.1\r\nHost: localhost\r\nContent-Length: 0\r\nConnection: close\r\n\r\n",
    );
    assert!(head.contains("200 OK"));
    assert!(body.contains(r#""guild_player_name":"Astra""#));
    assert!(body.contains(r#""guild_role":64"#));
    assert!(body.contains(r#""guild_assignment_type":2"#));
    assert!(body.contains(r#""guild_screen_state":"members""#));

    let (_, state_body) = send_request(
        &mut handle,
        "GET /state HTTP/1.1\r\nHost: localhost\r\nConnection: close\r\n\r\n",
    );
    assert!(state_body.contains(r#""guild_player_name":"Astra""#));
    assert!(state_body.contains(r#""guild_role":64"#));
    assert!(state_body.contains(r#""guild_assignment_type":2"#));
    assert!(state_body.contains(r#""command_count":1"#));

    handle.request_shutdown();
    let _ = handle.join();
}

#[test]
fn guild_fire_requests_require_a_payload() {
    let mut handle = TestServer::spawn(AppState::ReadyForLogin);

    let (head, body) = send_request(
        &mut handle,
        "POST /command?name=guild-fire HTTP/1.1\r\nHost: localhost\r\nContent-Length: 0\r\nConnection: close\r\n\r\n",
    );
    assert!(head.contains("400 Bad Request"));
    assert!(body.contains(r#""error":"missing guild fire payload""#));

    let (head, body) = send_request(
        &mut handle,
        "POST /command?name=guild-fire&player=Blade&security_code= HTTP/1.1\r\nHost: localhost\r\nContent-Length: 0\r\nConnection: close\r\n\r\n",
    );
    assert!(head.contains("400 Bad Request"));
    assert!(body.contains(r#""error":"missing guild fire payload""#));

    let (head, body) = send_request(
        &mut handle,
        "POST /command?name=guild-fire&player=Blade&security_code=1234 HTTP/1.1\r\nHost: localhost\r\nContent-Length: 0\r\nConnection: close\r\n\r\n",
    );
    assert!(head.contains("200 OK"));
    assert!(body.contains(r#""guild_player_name":"Blade""#));
    assert!(body.contains(r#""guild_security_code":"1234""#));
    assert!(body.contains(r#""guild_screen_state":"members""#));

    let (_, state_body) = send_request(
        &mut handle,
        "GET /state HTTP/1.1\r\nHost: localhost\r\nConnection: close\r\n\r\n",
    );
    assert!(state_body.contains(r#""guild_player_name":"Blade""#));
    assert!(state_body.contains(r#""guild_security_code":"1234""#));
    assert!(state_body.contains(r#""command_count":1"#));

    handle.request_shutdown();
    let _ = handle.join();
}

#[test]
fn guild_ban_union_requests_require_a_payload() {
    let mut handle = TestServer::spawn(AppState::ReadyForLogin);

    let (head, body) = send_request(
        &mut handle,
        "POST /command?name=guild-ban-union HTTP/1.1\r\nHost: localhost\r\nContent-Length: 0\r\nConnection: close\r\n\r\n",
    );
    assert!(head.contains("400 Bad Request"));
    assert!(body.contains(r#""error":"missing guild ban union payload""#));

    let (head, body) = send_request(
        &mut handle,
        "POST /command?name=guild-ban-union&guild_name= HTTP/1.1\r\nHost: localhost\r\nContent-Length: 0\r\nConnection: close\r\n\r\n",
    );
    assert!(head.contains("400 Bad Request"));
    assert!(body.contains(r#""error":"missing guild ban union payload""#));

    let (head, body) = send_request(
        &mut handle,
        "POST /command?name=guild-ban-union HTTP/1.1\r\nHost: localhost\r\nContent-Length: 11\r\nConnection: close\r\n\r\nguild_name=",
    );
    assert!(head.contains("400 Bad Request"));
    assert!(body.contains(r#""error":"missing guild ban union payload""#));

    let (head, body) = send_request(
        &mut handle,
        "POST /command?name=guild-ban-union&guild_name=Alliance HTTP/1.1\r\nHost: localhost\r\nContent-Length: 0\r\nConnection: close\r\n\r\n",
    );
    assert!(head.contains("200 OK"));
    assert!(body.contains(r#""guild_union_name":"Alliance""#));
    assert!(body.contains(r#""guild_screen_state":"union""#));

    let (_, state_body) = send_request(
        &mut handle,
        "GET /state HTTP/1.1\r\nHost: localhost\r\nConnection: close\r\n\r\n",
    );
    assert!(state_body.contains(r#""guild_union_name":"Alliance""#));
    assert!(state_body.contains(r#""command_count":1"#));

    handle.request_shutdown();
    let _ = handle.join();
}

#[test]
fn select_character_requires_a_name() {
    let mut handle = TestServer::spawn(AppState::ReadyForLogin);

    let (head, body) = send_request(
        &mut handle,
        "POST /command?name=select-character HTTP/1.1\r\nHost: localhost\r\nContent-Length: 0\r\nConnection: close\r\n\r\n",
    );

    assert!(head.contains("400 Bad Request"));
    assert!(body.contains(r#""error":"missing character name""#));

    handle.request_shutdown();
    let final_snapshot = handle.join().unwrap();
    assert_eq!(final_snapshot.command_count, 0);
}

#[test]
fn unknown_command_returns_error() {
    let mut handle = TestServer::spawn(AppState::Boot);

    let (head, body) = send_request(
        &mut handle,
        "POST /command?name=unknown HTTP/1.1\r\nHost: localhost\r\nContent-Length: 0\r\nConnection: close\r\n\r\n",
    );

    assert!(head.contains("400 Bad Request"));
    assert!(body.contains(r#""error":"unknown command""#));

    handle.request_shutdown();
    let _ = handle.join();
}

#[test]
fn shutdown_request_joins_cleanly() {
    let mut handle = TestServer::spawn(AppState::Boot);

    handle.request_shutdown();

    let final_snapshot = handle.join().unwrap();
    assert_eq!(final_snapshot.state, AppState::Boot);
    assert_eq!(final_snapshot.command_count, 0);
}

#[test]
fn shutdown_request_joins_cleanly_on_wildcard_bind() {
    let mut handle = TestServer::spawn(AppState::Boot);

    handle.request_shutdown();

    let final_snapshot = handle.join().unwrap();
    assert_eq!(final_snapshot.state, AppState::Boot);
    assert_eq!(final_snapshot.command_count, 0);
}

#[test]
fn command_names_read_the_same_in_snake_case_and_after_normalizing() {
    assert_eq!(ControlCommand::parse("  Game-Shop\t"), Some(ControlCommand::GameShop));
    assert_eq!(ControlCommand::parse("game-shop"), ControlCommand::parse("  GAME-SHOP "));
    assert_eq!(ControlCommand::parse("asset_check_failed"), Some(ControlCommand::AssetCheckFailed));
    assert_eq!(ControlCommand::parse("duel_channel_quit"), Some(ControlCommand::DuelChannelQuit));
    assert_eq!(ControlCommand::parse("Login_Success"), Some(ControlCommand::LoginSuccess));
    for command in [
        ControlCommand::GameShop,
        ControlCommand::AssetCheckFailed,
        ControlCommand::GuildRoleAssign,
        ControlCommand::VaultWithdraw,
        ControlCommand::Ping,
    ] {
        assert_eq!(ControlCommand::parse(&command.as_str().replace('-', "_")), Some(command));
    }
}
