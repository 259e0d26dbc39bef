//! Answering control requests: reading the state, applying a command with
//! its payload, or refusing the request.

use vstd::prelude::*;

use crate::command::{command_for_name, ControlCommand};
use crate::control::{applied, snapshot_json, ControlSnapshot, SnapshotView};
use crate::request::{
    character_name_from_request, duel_channel_join_from_request, duel_start_from_request,
    friend_name_from_request, guild_ban_union_from_request, guild_create_from_request,
    guild_fire_from_request, guild_join_from_request, guild_role_assign_from_request,
    inventory_action_slot_from_request, inventory_move_from_request, inventory_use_from_request,
    request_character_name, request_command_name, request_duel_channel, request_duel_start,
    request_friend_name, request_guild_ban_union, request_guild_create, request_guild_fire,
    request_guild_master, request_guild_role_assign, request_inventory_move,
    request_inventory_use, request_item_slot, request_skill_targeted, request_vault_amount,
    skill_targeted_from_request, vault_money_amount_from_request, HttpRequest, RequestView,
};
use crate::text::{chars_eq_str, chars_of, normalized, trim, trim_chars, utf8_len, utf8_shorter_than};
use crate::ui::UiRoute;

verus! {

/// The fewest bytes a new character's name may take.
pub const CHARACTER_CREATE_NAME_MIN_LENGTH: usize = 4;

/// An answer of the control endpoint.
#[derive(Debug, Clone)]
pub struct HttpResponse {
    pub status: u16,
    pub reason: &'static str,
    pub content_type: &'static str,
    pub body: String,
}

/// An answer seen as values.
pub struct ResponseView {
    pub status: u16,
    pub reason: Seq<char>,
    pub content_type: Seq<char>,
    pub body: Seq<char>,
}

impl View for HttpResponse {
    type V = ResponseView;

    open spec fn view(&self) -> ResponseView {
        ResponseView {
            status: self.status,
            reason: self.reason@,
            content_type: self.content_type@,
            body: self.body@,
        }
    }
}

pub open spec fn json_response(status: u16, reason: Seq<char>, body: Seq<char>) -> ResponseView {
    ResponseView { status, reason, content_type: "application/json"@, body }
}

pub open spec fn bad_request(body: Seq<char>) -> ResponseView {
    json_response(400, "Bad Request"@, body)
}

impl HttpResponse {
    pub fn json(status: u16, reason: &'static str, body: String) -> (r: Self)
        ensures
            r@ == json_response(status, reason@, body@),
    {
        HttpResponse { status, reason, content_type: "application/json", body }
    }

    pub fn empty(status: u16, reason: &'static str) -> (r: Self)
        ensures
            r@ == (ResponseView {
                status,
                reason: reason@,
                content_type: "text/plain; charset=utf-8"@,
                body: Seq::<char>::empty(),
            }),
    {
        HttpResponse {
            status,
            reason,
            content_type: "text/plain; charset=utf-8",
            body: String::new(),
        }
    }
}

/// What answering a request does: the answer, the snapshot afterwards, and
/// whether the endpoint is to shut down.
pub struct RouteOutcome {
    pub response: ResponseView,
    pub snapshot: SnapshotView,
    pub shutdown: bool,
}

/// The snapshot with the payload that `command` reads from the request, or
/// the error body when the payload is missing or invalid.
#[verifier::opaque]
pub open spec fn with_payload(
    command: ControlCommand,
    r: RequestView,
    s: SnapshotView,
) -> Result<SnapshotView, Seq<char>> {
    match command {
        ControlCommand::SelectCharacter => match request_character_name(r) {
            Some(n) => Ok(SnapshotView { selected_character_name: Some(n), ..s }),
            None => Err("{\"error\":\"missing character name\"}"@),
        },
        ControlCommand::FriendAdd | ControlCommand::FriendDelete => match request_friend_name(r) {
            Some(n) => if trim(n).len() == 0 {
                Err("{\"error\":\"missing friend name\"}"@)
            } else {
                Ok(SnapshotView { friend_name: Some(n), ..s })
            },
            None => Err("{\"error\":\"missing friend name\"}"@),
        },
        ControlCommand::GuildJoin => match request_guild_master(r) {
            Some(id) => Ok(SnapshotView { guild_master_player_id: Some(id as u16), ..s }),
            None => Err("{\"error\":\"missing guild join payload\"}"@),
        },
        ControlCommand::GuildCreate => match request_guild_create(r) {
            Some((name, emblem)) => Ok(
                SnapshotView {
                    guild_create_name: Some(name),
                    guild_create_emblem: Some(emblem),
                    ..s
                },
            ),
            None => Err("{\"error\":\"missing guild create payload\"}"@),
        },
        ControlCommand::GuildRoleAssign => match request_guild_role_assign(r) {
            Some((player, role, kind)) => Ok(
                SnapshotView {
                    guild_player_name: Some(player),
                    guild_role: Some(role as u8),
                    guild_assignment_type: Some(kind as u8),
                    ..s
                },
            ),
            None => Err("{\"error\":\"missing guild role assignment payload\"}"@),
        },
        ControlCommand::GuildFire => match request_guild_fire(r) {
            Some((player, code)) => Ok(
                SnapshotView {
                    guild_player_name: Some(player),
                    guild_security_code: Some(code),
                    ..s
                },
            ),
            None => Err("{\"error\":\"missing guild fire payload\"}"@),
        },
        ControlCommand::GuildBanUnion => match request_guild_ban_union(r) {
            Some(name) => Ok(SnapshotView { guild_union_name: Some(name), ..s }),
            None => Err("{\"error\":\"missing guild ban union payload\"}"@),
        },
        ControlCommand::DuelStart => match request_duel_start(r) {
            Some((id, name)) => Ok(
                SnapshotView { duel_player_id: Some(id as u16), duel_player_name: Some(name), ..s },
            ),
            None => Err("{\"error\":\"missing duel start payload\"}"@),
        },
        ControlCommand::DuelChannelJoin => match request_duel_channel(r) {
            Some(c) => Ok(SnapshotView { duel_channel_id: Some(c as u8), ..s }),
            None => Err("{\"error\":\"missing duel channel payload\"}"@),
        },
        ControlCommand::DuelChannelQuit => Ok(SnapshotView { duel_channel_id: None, ..s }),
        ControlCommand::SkillTargeted => match request_skill_targeted(r) {
            Some((skill, target)) => Ok(
                SnapshotView {
                    skill_id: Some(skill as u16),
                    skill_target_id: Some(target as u16),
                    ..s
                },
            ),
            None => Err("{\"error\":\"missing skill targeted payload\"}"@),
        },
        ControlCommand::InventoryUse => match request_inventory_use(r) {
            Some((slot, target, add)) => Ok(
                SnapshotView {
                    inventory_use_slot: Some(slot as u8),
                    inventory_use_target: Some(target as u8),
                    inventory_use_add_points: Some(add),
                    ..s
                },
            ),
            None => Err("{\"error\":\"missing inventory use payload\"}"@),
        },
        ControlCommand::InventoryEquip => match request_item_slot(r) {
            Some(slot) => Ok(SnapshotView { inventory_equip_slot: Some(slot as u8), ..s }),
            None => Err("{\"error\":\"missing inventory equip payload\"}"@),
        },
        ControlCommand::InventoryUnequip => match request_item_slot(r) {
            Some(slot) => Ok(SnapshotView { inventory_unequip_slot: Some(slot as u8), ..s }),
            None => Err("{\"error\":\"missing inventory unequip payload\"}"@),
        },
        ControlCommand::InventoryMove => match request_inventory_move(r) {
            Some((from, to)) => Ok(
                SnapshotView {
                    inventory_move_from_slot: Some(from as u8),
                    inventory_move_to_slot: Some(to as u8),
                    ..s
                },
            ),
            None => Err("{\"error\":\"missing inventory move payload\"}"@),
        },
        ControlCommand::VaultDeposit | ControlCommand::VaultWithdraw => match request_vault_amount(
            r,
        ) {
            Some(amount) => if amount == 0 {
                Err("{\"error\":\"vault amount must be positive\"}"@)
            } else {
                Ok(SnapshotView { vault_money_amount: Some(amount as u32), ..s })
            },
            None => Err("{\"error\":\"missing vault amount\"}"@),
        },
        ControlCommand::CreateCharacter => match request_character_name(r) {
            Some(n) => if utf8_len(trim(n)) < CHARACTER_CREATE_NAME_MIN_LENGTH {
                Err("{\"error\":\"character name must be at least 4 characters\"}"@)
            } else {
                Ok(SnapshotView { selected_character_name: Some(n), ..s })
            },
            None => Err("{\"error\":\"missing character name\"}"@),
        },
        _ => Ok(s),
    }
}

/// How the endpoint answers a request in a given snapshot.
pub open spec fn route(r: RequestView, s: SnapshotView) -> RouteOutcome {
    if r.method == "GET"@ && (r.path == "/"@ || r.path == "/state"@) {
        RouteOutcome {
            response: json_response(200, "OK"@, snapshot_json(s)),
            snapshot: s,
            shutdown: false,
        }
    } else if r.method == "POST"@ && r.path == "/command"@ {
        match request_command_name(r) {
            None => RouteOutcome {
                response: bad_request("{\"error\":\"missing command\"}"@),
                snapshot: s,
                shutdown: false,
            },
            Some(name) => match command_for_name(normalized(name)) {
                None => RouteOutcome {
                    response: bad_request("{\"error\":\"unknown command\"}"@),
                    snapshot: s,
                    shutdown: false,
                },
                Some(command) => match with_payload(command, r, s) {
                    Err(error) => RouteOutcome {
                        response: bad_request(error),
                        snapshot: s,
                        shutdown: false,
                    },
                    Ok(loaded) => RouteOutcome {
                        response: json_response(200, "OK"@, snapshot_json(applied(loaded, command))),
                        snapshot: applied(loaded, command),
                        shutdown: command == ControlCommand::Exit,
                    },
                },
            },
        }
    } else if r.method == "GET"@ && r.path == "/__shutdown"@ {
        RouteOutcome {
            response: ResponseView {
                status: 204,
                reason: "No Content"@,
                content_type: "text/plain; charset=utf-8"@,
                body: Seq::<char>::empty(),
            },
            snapshot: s,
            shutdown: true,
        }
    } else {
        RouteOutcome {
            response: json_response(404, "Not Found"@, "{\"error\":\"not found\"}"@),
            snapshot: s,
            shutdown: false,
        }
    }
}

/// Loads the payload of `command` into the snapshot, or leaves the snapshot
/// as it is and gives the error body.
fn load_payload(command: ControlCommand, request: &HttpRequest, snapshot: &mut ControlSnapshot) -> (r:
    Result<(), &'static str>)
    ensures
        r is Ok ==> with_payload(command, request@, old(snapshot)@) == Ok::<SnapshotView, Seq<char>>(
            final(snapshot)@,
        ),
        r matches Err(e) ==> with_payload(command, request@, old(snapshot)@) == Err::<
            SnapshotView,
            Seq<char>,
        >(e@),
        r is Err ==> *final(snapshot) == *old(snapshot),
{
    reveal(with_payload);
    match command {
        ControlCommand::SelectCharacter => {
            let Some(name) = character_name_from_request(request) else {
                return Err("{\"error\":\"missing character name\"}");
            };
            snapshot.selected_character_name = Some(name);
        },
        ControlCommand::FriendAdd | ControlCommand::FriendDelete => {
            let Some(name) = friend_name_from_request(request) else {
                return Err("{\"error\":\"missing friend name\"}");
            };
            let chars = chars_of(name.as_str());
            let trimmed = trim_chars(&chars);
            if trimmed.len() == 0 {
                return Err("{\"error\":\"missing friend name\"}");
            }
            snapshot.friend_name = Some(name);
        },
        ControlCommand::GuildJoin => {
            let Some(id) = guild_join_from_request(request) else {
                return Err("{\"error\":\"missing guild join payload\"}");
            };
            snapshot.guild_master_player_id = Some(id);
        },
        ControlCommand::GuildCreate => {
            let Some((name, emblem)) = guild_create_from_request(request) else {
                return Err("{\"error\":\"missing guild create payload\"}");
            };
            snapshot.guild_create_name = Some(name);
            snapshot.guild_create_emblem = Some(emblem);
        },
        ControlCommand::GuildRoleAssign => {
            let Some((player, role, kind)) = guild_role_assign_from_request(request) else {
                return Err("{\"error\":\"missing guild role assignment payload\"}");
            };
            snapshot.guild_player_name = Some(player);
            snapshot.guild_role = Some(role);
            snapshot.guild_assignment_type = Some(kind);
        },
        ControlCommand::GuildFire => {
            let Some((player, code)) = guild_fire_from_request(request) else {
                return Err("{\"error\":\"missing guild fire payload\"}");
            };
            snapshot.guild_player_name = Some(player);
            snapshot.guild_security_code = Some(code);
        },
        ControlCommand::GuildBanUnion => {
            let Some(name) = guild_ban_union_from_request(request) else {
                return Err("{\"error\":\"missing guild ban union payload\"}");
            };
            snapshot.guild_union_name = Some(name);
        },
        ControlCommand::DuelStart => {
            let Some((id, name)) = duel_start_from_request(request) else {
                return Err("{\"error\":\"missing duel start payload\"}");
            };
            snapshot.duel_player_id = Some(id);
            snapshot.duel_player_name = Some(name);
        },
        ControlCommand::DuelChannelJoin => {
            let Some(channel) = duel_channel_join_from_request(request) else {
                return Err("{\"error\":\"missing duel channel payload\"}");
            };
            snapshot.duel_channel_id = Some(channel);
        },
        ControlCommand::DuelChannelQuit => {
            snapshot.duel_channel_id = None;
        },
        ControlCommand::SkillTargeted => {
            let Some((skill, target)) = skill_targeted_from_request(request) else {
                return Err("{\"error\":\"missing skill targeted payload\"}");
            };
            snapshot.skill_id = Some(skill);
            snapshot.skill_target_id = Some(target);
        },
        ControlCommand::InventoryUse => {
            let Some((slot, target, add)) = inventory_use_from_request(request) else {
                return Err("{\"error\":\"missing inventory use payload\"}");
            };
            snapshot.inventory_use_slot = Some(slot);
            snapshot.inventory_use_target = Some(target);
            snapshot.inventory_use_add_points = Some(add);
        },
        ControlCommand::InventoryEquip => {
            let Some(slot) = inventory_action_slot_from_request(request) else {
                return Err("{\"error\":\"missing inventory equip payload\"}");
            };
            snapshot.inventory_equip_slot = Some(slot);
        },
        ControlCommand::InventoryUnequip => {
            let Some(slot) = inventory_action_slot_from_request(request) else {
                return Err("{\"error\":\"missing inventory unequip payload\"}");
            };
            snapshot.inventory_unequip_slot = Some(slot);
        },
        ControlCommand::InventoryMove => {
            let Some((from, to)) = inventory_move_from_request(request) else {
                return Err("{\"error\":\"missing inventory move payload\"}");
            };
            snapshot.inventory_move_from_slot = Some(from);
            snapshot.inventory_move_to_slot = Some(to);
        },
        ControlCommand::VaultDeposit | ControlCommand::VaultWithdraw => {
            let Some(amount) = vault_money_amount_from_request(request) else {
                return Err("{\"error\":\"missing vault amount\"}");
            };
            if amount == 0 {
                return Err("{\"error\":\"vault amount must be positive\"}");
            }
            snapshot.vault_money_amount = Some(amount);
        },
        ControlCommand::CreateCharacter => {
            let Some(name) = character_name_from_request(request) else {
                return Err("{\"error\":\"missing character name\"}");
            };
            let chars = chars_of(name.as_str());
            let trimmed = trim_chars(&chars);
            if utf8_shorter_than(&trimmed, CHARACTER_CREATE_NAME_MIN_LENGTH) {
                return Err("{\"error\":\"character name must be at least 4 characters\"}");
            }
            snapshot.selected_character_name = Some(name);
        },
        _ => {},
    }
    assert(Ok::<SnapshotView, Seq<char>>(snapshot@) == with_payload(command, request@, old(snapshot)@));
    Ok(())
}

/// Answers one request: `GET /` or `GET /state` report the snapshot,
/// `POST /command` applies a command with its payload, and
/// `GET /__shutdown` asks the endpoint to stop. The flag tells whether the
/// endpoint is to shut down.
#[verifier::rlimit(60)]
pub fn route_request(request: &HttpRequest, snapshot: &mut ControlSnapshot) -> (r: (HttpResponse, bool))
    ensures
        r.0@ == route(request@, old(snapshot)@).response,
        final(snapshot)@ == route(request@, old(snapshot)@).snapshot,
        r.1 == route(request@, old(snapshot)@).shutdown,
{
    let method = chars_of(request.method.as_str());
    let path = chars_of(request.path.as_str());
    let is_get = chars_eq_str(&method, "GET");
    if is_get && (chars_eq_str(&path, "/") || chars_eq_str(&path, "/state")) {
        return (HttpResponse::json(200, "OK", snapshot.to_json()), false);
    }
    if chars_eq_str(&method, "POST") && chars_eq_str(&path, "/command") {
        let Some(command_name) = request.command_name() else {
            return (
                HttpResponse::json(400, "Bad Request", "{\"error\":\"missing command\"}".to_string()),
                false,
            );
        };
        let Some(command) = ControlCommand::parse(command_name.as_str()) else {
            return (
                HttpResponse::json(400, "Bad Request", "{\"error\":\"unknown command\"}".to_string()),
                false,
            );
        };
        match load_payload(command, request, snapshot) {
            Err(error) => {
                return (HttpResponse::json(400, "Bad Request", error.to_string()), false);
            },
            Ok(()) => {},
        }
        let shutdown = snapshot.apply_command(command);
        return (HttpResponse::json(200, "OK", snapshot.to_json()), shutdown);
    }
    if is_get && chars_eq_str(&path, "/__shutdown") {
        return (HttpResponse::empty(204, "No Content"), true);
    }
    (HttpResponse::json(404, "Not Found", "{\"error\":\"not found\"}".to_string()), false)
}

/// A refused request (any answer but 200 and 204) leaves the snapshot as it
/// was, and only an accepted `exit` command or a shutdown request stops the
/// endpoint.
pub proof fn lemma_refusal_changes_nothing(r: RequestView, s: SnapshotView)
    ensures
        route(r, s).response.status != 200 && route(r, s).response.status != 204 ==> route(r, s).snapshot
            == s && !route(r, s).shutdown,
        route(r, s).response.status == 400 ==> route(r, s).snapshot == s,
{
}

/// Loading a payload touches neither the command counter nor the last
/// command.
pub proof fn lemma_payload_keeps_counter(command: ControlCommand, r: RequestView, s: SnapshotView)
    ensures
        with_payload(command, r, s) matches Ok(loaded) ==> loaded.command_count == s.command_count
            && loaded.last_command == s.last_command,
{
    reveal(with_payload);
}

/// Every accepted command advances the command counter by one (until it
/// reaches its maximum) and records itself as the last command.
pub proof fn lemma_accepted_command_counts(r: RequestView, s: SnapshotView)
    requires
        r.method == "POST"@,
        r.path == "/command"@,
        route(r, s).response.status == 200,
    ensures
        route(r, s).snapshot.command_count == (if s.command_count == u64::MAX {
            s.command_count as int
        } else {
            s.command_count + 1
        }),
        route(r, s).snapshot.last_command == command_for_name(
            normalized(request_command_name(r)->0),
        ),
{
    reveal_strlit("GET");
    reveal_strlit("POST");
    assert("GET"@.len() == 3);
    assert("POST"@.len() == 4);
    let command = command_for_name(normalized(request_command_name(r)->0))->0;
    lemma_payload_keeps_counter(command, r, s);
}

/// Reading the state reports the snapshot and changes nothing.
pub proof fn lemma_reading_changes_nothing(r: RequestView, s: SnapshotView)
    requires
        r.method == "GET"@,
        r.path == "/"@ || r.path == "/state"@,
    ensures
        route(r, s).snapshot == s,
        route(r, s).response.status == 200,
        route(r, s).response.body == snapshot_json(s),
        !route(r, s).shutdown,
{
}

/// A shutdown request stops the endpoint and leaves the snapshot as it was,
/// so that the endpoint hands back the state it had.
pub proof fn lemma_shutdown_keeps_the_snapshot(r: RequestView, s: SnapshotView)
    requires
        r.method == "GET"@,
        r.path == "/__shutdown"@,
    ensures
        route(r, s).snapshot == s,
        route(r, s).shutdown,
        route(r, s).response.status == 204,
{
    reveal_strlit("GET");
    reveal_strlit("POST");
    reveal_strlit("/");
    reveal_strlit("/state");
    reveal_strlit("/__shutdown");
    assert("GET"@.len() == 3);
    assert("POST"@.len() == 4);
    assert("/"@.len() == 1);
    assert("/state"@.len() == 6);
    assert("/__shutdown"@.len() == 11);
}

/// Quitting the duel channel always succeeds and leaves no channel behind:
/// a `POST /command` naming `duel-channel-quit` is answered 200, the
/// snapshot has no duel channel, and the session shows the duel screen.
pub proof fn lemma_duel_channel_quit_clears_channel(r: RequestView, s: SnapshotView)
    requires
        r.method == "POST"@,
        r.path == "/command"@,
        request_command_name(r) matches Some(n) && command_for_name(normalized(n)) == Some(
            ControlCommand::DuelChannelQuit,
        ),
    ensures
        route(r, s).response.status == 200,
        route(r, s).snapshot.duel_channel_id is None,
        route(r, s).snapshot.ui_route == UiRoute::Duel,
        route(r, s).snapshot.last_command == Some(ControlCommand::DuelChannelQuit),
{
    let loaded = SnapshotView { duel_channel_id: None, ..s };
    assert(with_payload(ControlCommand::DuelChannelQuit, r, s) == Ok::<SnapshotView, Seq<char>>(
        loaded,
    )) by {
        reveal(with_payload);
    }
    reveal_strlit("GET");
    reveal_strlit("POST");
    assert("GET"@.len() == 3);
    assert("POST"@.len() == 4);
    assert(r.method != "GET"@);
}

} // verus!
