//! Control requests, and the payloads that commands read from them.

use vstd::prelude::*;

use crate::emblem::{decode_emblem, decode_emblem_chars};
use crate::text::{
    chars_eq_str, chars_of, contains_char, normalize, lookup_first, normalized, parse_unsigned, parse_unsigned_chars, query_value_any,
    string_of, trim, trim_chars, all_digits, digits_value,
};

verus! {

/// The longest guild name, in characters.
pub const MAX_GUILD_NAME_LENGTH: usize = 8;

/// A request to the control endpoint: method, path, query string (the part
/// of the target after `?`) and body.
#[derive(Debug, Clone)]
pub struct HttpRequest {
    pub method: String,
    pub path: String,
    pub query: String,
    pub body: String,
}

/// A request seen as character sequences.
pub struct RequestView {
    pub method: Seq<char>,
    pub path: Seq<char>,
    pub query: Seq<char>,
    pub body: Seq<char>,
}

impl View for HttpRequest {
    type V = RequestView;

    open spec fn view(&self) -> RequestView {
        RequestView {
            method: self.method@,
            path: self.path@,
            query: self.query@,
            body: self.body@,
        }
    }
}

/// The value bound to the first of `keys` in the query, or else in the body.
pub open spec fn param(r: RequestView, keys: Seq<&str>) -> Option<Seq<char>> {
    match lookup_first(r.query, keys) {
        Some(v) => Some(v),
        None => lookup_first(r.body, keys),
    }
}

/// The trimmed body, unless it is blank.
pub open spec fn body_text(r: RequestView) -> Option<Seq<char>> {
    if trim(r.body).len() == 0 {
        None
    } else {
        Some(trim(r.body))
    }
}

/// The trimmed value, unless it is blank.
pub open spec fn trimmed_nonblank(o: Option<Seq<char>>) -> Option<Seq<char>> {
    match o {
        Some(v) => if trim(v).len() == 0 {
            None
        } else {
            Some(trim(v))
        },
        None => None,
    }
}

pub open spec fn or_else(a: Option<Seq<char>>, b: Option<Seq<char>>) -> Option<Seq<char>> {
    match a {
        Some(v) => Some(v),
        None => b,
    }
}

pub open spec fn parse_opt(o: Option<Seq<char>>, max: int) -> Option<int> {
    match o {
        Some(v) => parse_unsigned(trim(v), max),
        None => None,
    }
}

/// The command name: the `name` parameter, or else the trimmed body.
pub open spec fn request_command_name(r: RequestView) -> Option<Seq<char>> {
    or_else(param(r, seq!["name"]), body_text(r))
}

/// A character name: the `character` parameter, or else the trimmed body.
pub open spec fn request_character_name(r: RequestView) -> Option<Seq<char>> {
    or_else(param(r, seq!["character"]), body_text(r))
}

/// A friend name: the `friend` parameter, or else the trimmed body.
pub open spec fn request_friend_name(r: RequestView) -> Option<Seq<char>> {
    or_else(param(r, seq!["friend"]), body_text(r))
}

/// The guild master to join: the `master_id` parameter, or else the body.
pub open spec fn request_guild_master(r: RequestView) -> Option<int> {
    match or_else(trimmed_nonblank(param(r, seq!["master_id", "master-id"])), body_text(r)) {
        Some(v) => parse_unsigned(v, 0xffff),
        None => None,
    }
}

/// A guild name of four to eight characters (after trimming) and a valid
/// emblem.
pub open spec fn request_guild_create(r: RequestView) -> Option<(Seq<char>, Seq<u8>)> {
    match param(r, seq!["guild_name", "guild-name"]) {
        Some(raw) => {
            let name = trim(raw);
            if name.len() < 4 || name.len() > MAX_GUILD_NAME_LENGTH {
                None
            } else {
                match param(r, seq!["guild_emblem", "guild-emblem"]) {
                    Some(e) => match decode_emblem(trim(e)) {
                        Some(bytes) => Some((name, bytes)),
                        None => None,
                    },
                    None => None,
                }
            }
        },
        None => None,
    }
}

/// The trimmed `player` parameter, unless it is blank.
pub open spec fn request_player(r: RequestView) -> Option<Seq<char>> {
    match param(r, seq!["player"]) {
        Some(v) => if trim(v).len() == 0 {
            None
        } else {
            Some(trim(v))
        },
        None => None,
    }
}

/// Player, role and assignment type of a guild role assignment.
pub open spec fn request_guild_role_assign(r: RequestView) -> Option<(Seq<char>, int, int)> {
    match (
        request_player(r),
        parse_opt(param(r, seq!["role"]), 0xff),
        parse_opt(param(r, seq!["type"]), 0xff),
    ) {
        (Some(p), Some(role), Some(t)) => Some((p, role, t)),
        _ => None,
    }
}

/// Player and security code of a guild expulsion.
pub open spec fn request_guild_fire(r: RequestView) -> Option<(Seq<char>, Seq<char>)> {
    match (
        request_player(r),
        trimmed_nonblank(
            param(r, seq!["security_code", "security-code", "authority_code", "authority-code"]),
        ),
    ) {
        (Some(p), Some(code)) => Some((p, code)),
        _ => None,
    }
}

/// The trimmed body if it is neither blank nor a `key=value` form.
pub open spec fn bare_body(r: RequestView) -> Option<Seq<char>> {
    if trim(r.body).len() == 0 || r.body.contains('=') {
        None
    } else {
        Some(trim(r.body))
    }
}

/// The alliance guild to remove.
pub open spec fn request_guild_ban_union(r: RequestView) -> Option<Seq<char>> {
    or_else(
        trimmed_nonblank(param(r, seq!["guild_name", "guild-name", "union_name", "union-name"])),
        bare_body(r),
    )
}

/// Player id and player name of a duel challenge.
pub open spec fn request_duel_start(r: RequestView) -> Option<(int, Seq<char>)> {
    match parse_opt(param(r, seq!["player_id", "player-id"]), 0xffff) {
        Some(id) => match param(r, seq!["player_name", "player-name", "player"]) {
            Some(v) => if trim(v).len() == 0 {
                None
            } else {
                Some((id, trim(v)))
            },
            None => None,
        },
        None => None,
    }
}

/// The duel channel to join.
pub open spec fn request_duel_channel(r: RequestView) -> Option<int> {
    match parse_opt(param(r, seq!["channel_id", "channel-id", "channel"]), 0xff) {
        Some(c) => Some(c),
        None => match bare_body(r) {
            Some(v) => parse_unsigned(v, 0xff),
            None => None,
        },
    }
}

/// A channel given by a `channel_id`, `channel-id` or `channel` parameter
/// is the one joined, whatever the body says.
pub proof fn lemma_duel_channel_parameter_wins(r: RequestView, v: Seq<char>)
    requires
        param(r, seq!["channel_id", "channel-id", "channel"]) == Some(v),
        trim(v).len() > 0,
        all_digits(trim(v)),
        digits_value(trim(v)) <= 0xff,
    ensures
        request_duel_channel(r) == Some(digits_value(trim(v))),
{
}

/// Where no channel parameter holds a channel number, a plain body (not
/// blank, not a `key=value` form) made of decimal digits up to 255 is the
/// channel joined.
pub proof fn lemma_duel_channel_from_plain_body(r: RequestView)
    requires
        parse_opt(param(r, seq!["channel_id", "channel-id", "channel"]), 0xff) is None,
        !r.body.contains('='),
        trim(r.body).len() > 0,
        all_digits(trim(r.body)),
        digits_value(trim(r.body)) <= 0xff,
    ensures
        request_duel_channel(r) == Some(digits_value(trim(r.body))),
{
    assert(trim(r.body).len() == 0 || trim(r.body)[0] != '+') by {
        if trim(r.body).len() > 0 {
            assert(all_digits(trim(r.body)) ==> '0' <= trim(r.body)[0] <= '9');
        }
    }
}

/// Skill id and target id of a targeted skill.
pub open spec fn request_skill_targeted(r: RequestView) -> Option<(int, int)> {
    match (
        parse_opt(param(r, seq!["skill_id", "skill-id"]), 0xffff),
        parse_opt(param(r, seq!["target_id", "target-id"]), 0xffff),
    ) {
        (Some(s), Some(t)) => Some((s, t)),
        _ => None,
    }
}

/// Source and destination slot of an inventory move.
pub open spec fn request_inventory_move(r: RequestView) -> Option<(int, int)> {
    match (
        parse_opt(param(r, seq!["from_slot"]), 0xff),
        parse_opt(param(r, seq!["to_slot"]), 0xff),
    ) {
        (Some(f), Some(t)) => Some((f, t)),
        _ => None,
    }
}

/// The inventory slot an item action applies to.
pub open spec fn request_item_slot(r: RequestView) -> Option<int> {
    parse_opt(param(r, seq!["slot", "item_slot"]), 0xff)
}

/// What a boolean parameter says: `1`, `true`, `yes`, `on` or `0`, `false`,
/// `no`, `off`, ignoring surrounding space and ASCII case.
pub open spec fn bool_value(v: Seq<char>) -> Option<bool> {
    let n = normalized(v);
    if n == "1"@ || n == "true"@ || n == "yes"@ || n == "on"@ {
        Some(true)
    } else if n == "0"@ || n == "false"@ || n == "no"@ || n == "off"@ {
        Some(false)
    } else {
        None
    }
}

/// Slot, target (zero when absent) and the add-points flag (set when
/// absent) of an item use.
pub open spec fn request_inventory_use(r: RequestView) -> Option<(int, int, bool)> {
    match request_item_slot(r) {
        Some(slot) => {
            let target = match param(r, seq!["target"]) {
                Some(v) => parse_unsigned(trim(v), 0xff),
                None => Some(0),
            };
            let add = match param(r, seq!["add_points", "add-points", "fruit"]) {
                Some(v) => bool_value(v),
                None => Some(true),
            };
            match (target, add) {
                (Some(t), Some(a)) => Some((slot, t, a)),
                _ => None,
            }
        },
        None => None,
    }
}

/// The amount of a vault transfer: the `amount` parameter, or else the body.
pub open spec fn request_vault_amount(r: RequestView) -> Option<int> {
    match or_else(trimmed_nonblank(param(r, seq!["amount"])), body_text(r)) {
        Some(v) => parse_unsigned(v, 0xffff_ffff),
        None => None,
    }
}

// ---------------------------------------------------------------------------
// Executable readers

fn param_of(request: &HttpRequest, keys: &[&str]) -> (r: Option<Vec<char>>)
    ensures
        r matches Some(x) ==> param(request@, keys@) == Some(x@),
        r is None ==> param(request@, keys@) is None,
{
    let q = chars_of(request.query.as_str());
    match query_value_any(&q, keys) {
        Some(v) => Some(v),
        None => {
            let b = chars_of(request.body.as_str());
            query_value_any(&b, keys)
        },
    }
}

fn body_text_of(request: &HttpRequest) -> (r: Option<Vec<char>>)
    ensures
        r matches Some(x) ==> body_text(request@) == Some(x@),
        r is None ==> body_text(request@) is None,
{
    let b = chars_of(request.body.as_str());
    let t = trim_chars(&b);
    if t.len() == 0 {
        None
    } else {
        Some(t)
    }
}

fn trimmed_nonblank_of(o: Option<Vec<char>>) -> (r: Option<Vec<char>>)
    ensures
        r matches Some(x) ==> trimmed_nonblank(opt_chars(o)) == Some(x@),
        r is None ==> trimmed_nonblank(opt_chars(o)) is None,
{
    match o {
        Some(v) => {
            let t = trim_chars(&v);
            if t.len() == 0 {
                None
            } else {
                Some(t)
            }
        },
        None => None,
    }
}

pub open spec fn opt_chars(o: Option<Vec<char>>) -> Option<Seq<char>> {
    match o {
        Some(v) => Some(v@),
        None => None,
    }
}

fn parse_trimmed(v: &Vec<char>, max: u64) -> (r: Option<u64>)
    ensures
        r matches Some(x) ==> parse_unsigned(trim(v@), max as int) == Some(x as int),
        r is None ==> parse_unsigned(trim(v@), max as int) is None,
{
    let t = trim_chars(v);
    parse_unsigned_chars(&t, max)
}

impl HttpRequest {
    /// The command name the request carries.
    pub fn command_name(&self) -> (r: Option<String>)
        ensures
            r matches Some(x) ==> request_command_name(self@) == Some(x@),
            r is None ==> request_command_name(self@) is None,
    {
        let keys = ["name"];
        assert(keys@ =~= seq!["name"]);
        match param_of(self, &keys) {
            Some(v) => Some(string_of(&v)),
            None => match body_text_of(self) {
                Some(v) => Some(string_of(&v)),
                None => None,
            },
        }
    }
}

pub fn character_name_from_request(request: &HttpRequest) -> (r: Option<String>)
    ensures
        r matches Some(x) ==> request_character_name(request@) == Some(x@),
        r is None ==> request_character_name(request@) is None,
{
    let keys = ["character"];
    assert(keys@ =~= seq!["character"]);
    match param_of(request, &keys) {
        Some(v) => Some(string_of(&v)),
        None => match body_text_of(request) {
            Some(v) => Some(string_of(&v)),
            None => None,
        },
    }
}

pub fn friend_name_from_request(request: &HttpRequest) -> (r: Option<String>)
    ensures
        r matches Some(x) ==> request_friend_name(request@) == Some(x@),
        r is None ==> request_friend_name(request@) is None,
{
    let keys = ["friend"];
    assert(keys@ =~= seq!["friend"]);
    match param_of(request, &keys) {
        Some(v) => Some(string_of(&v)),
        None => match body_text_of(request) {
            Some(v) => Some(string_of(&v)),
            None => None,
        },
    }
}

pub fn guild_join_from_request(request: &HttpRequest) -> (r: Option<u16>)
    ensures
        r matches Some(x) ==> request_guild_master(request@) == Some(x as int),
        r is None ==> request_guild_master(request@) is None,
{
    let keys = ["master_id", "master-id"];
    assert(keys@ =~= seq!["master_id", "master-id"]);
    let text = match trimmed_nonblank_of(param_of(request, &keys)) {
        Some(v) => v,
        None => match body_text_of(request) {
            Some(v) => v,
            None => {
                return None;
            },
        },
    };
    match parse_unsigned_chars(&text, 0xffff) {
        Some(x) => Some(x as u16),
        None => None,
    }
}

pub fn guild_emblem_from_request(request: &HttpRequest) -> (r: Option<[u8; 32]>)
    ensures
        r matches Some(e) ==> (match param(request@, seq!["guild_emblem", "guild-emblem"]) {
            Some(v) => decode_emblem(trim(v)),
            None => None,
        }) == Some(e@),
        r is None ==> (match param(request@, seq!["guild_emblem", "guild-emblem"]) {
            Some(v) => decode_emblem(trim(v)),
            None => None,
        }) is None,
{
    let keys = ["guild_emblem", "guild-emblem"];
    assert(keys@ =~= seq!["guild_emblem", "guild-emblem"]);
    match param_of(request, &keys) {
        Some(v) => {
            let t = trim_chars(&v);
            decode_emblem_chars(&t)
        },
        None => None,
    }
}

pub fn guild_create_from_request(request: &HttpRequest) -> (r: Option<(String, [u8; 32])>)
    ensures
        r matches Some((n, e)) ==> request_guild_create(request@) == Some((n@, e@)),
        r is None ==> request_guild_create(request@) is None,
{
    let keys = ["guild_name", "guild-name"];
    assert(keys@ =~= seq!["guild_name", "guild-name"]);
    let raw = match param_of(request, &keys) {
        Some(v) => v,
        None => {
            return None;
        },
    };
    let name = trim_chars(&raw);
    if name.len() < 4 || name.len() > MAX_GUILD_NAME_LENGTH {
        return None;
    }
    let emblem = match guild_emblem_from_request(request) {
        Some(e) => e,
        None => {
            return None;
        },
    };
    Some((string_of(&name), emblem))
}

fn player_from_request(request: &HttpRequest) -> (r: Option<Vec<char>>)
    ensures
        r matches Some(x) ==> request_player(request@) == Some(x@),
        r is None ==> request_player(request@) is None,
{
    let keys = ["player"];
    assert(keys@ =~= seq!["player"]);
    match param_of(request, &keys) {
        Some(v) => {
            let t = trim_chars(&v);
            if t.len() == 0 {
                None
            } else {
                Some(t)
            }
        },
        None => None,
    }
}

fn parse_param(request: &HttpRequest, keys: &[&str], max: u64) -> (r: Option<u64>)
    ensures
        r matches Some(x) ==> parse_opt(param(request@, keys@), max as int) == Some(x as int),
        r is None ==> parse_opt(param(request@, keys@), max as int) is None,
{
    match param_of(request, keys) {
        Some(v) => parse_trimmed(&v, max),
        None => None,
    }
}

pub fn guild_role_assign_from_request(request: &HttpRequest) -> (r: Option<(String, u8, u8)>)
    ensures
        r matches Some((p, role, t)) ==> request_guild_role_assign(request@) == Some(
            (p@, role as int, t as int),
        ),
        r is None ==> request_guild_role_assign(request@) is None,
{
    let player = match player_from_request(request) {
        Some(p) => p,
        None => {
            return None;
        },
    };
    let role_keys = ["role"];
    assert(role_keys@ =~= seq!["role"]);
    let role = match parse_param(request, &role_keys, 0xff) {
        Some(x) => x as u8,
        None => {
            return None;
        },
    };
    let type_keys = ["type"];
    assert(type_keys@ =~= seq!["type"]);
    let assignment_type = match parse_param(request, &type_keys, 0xff) {
        Some(x) => x as u8,
        None => {
            return None;
        },
    };
    Some((string_of(&player), role, assignment_type))
}

pub fn guild_fire_from_request(request: &HttpRequest) -> (r: Option<(String, String)>)
    ensures
        r matches Some((p, c)) ==> request_guild_fire(request@) == Some((p@, c@)),
        r is None ==> request_guild_fire(request@) is None,
{
    let player = match player_from_request(request) {
        Some(p) => p,
        None => {
            return None;
        },
    };
    let keys = ["security_code", "security-code", "authority_code", "authority-code"];
    assert(keys@ =~= seq!["security_code", "security-code", "authority_code", "authority-code"]);
    let code = match trimmed_nonblank_of(param_of(request, &keys)) {
        Some(c) => c,
        None => {
            return None;
        },
    };
    Some((string_of(&player), string_of(&code)))
}

fn bare_body_of(request: &HttpRequest) -> (r: Option<Vec<char>>)
    ensures
        r matches Some(x) ==> bare_body(request@) == Some(x@),
        r is None ==> bare_body(request@) is None,
{
    let b = chars_of(request.body.as_str());
    let t = trim_chars(&b);
    if t.len() == 0 || contains_char(&b, '=') {
        None
    } else {
        Some(t)
    }
}

pub fn guild_ban_union_from_request(request: &HttpRequest) -> (r: Option<String>)
    ensures
        r matches Some(x) ==> request_guild_ban_union(request@) == Some(x@),
        r is None ==> request_guild_ban_union(request@) is None,
{
    let keys = ["guild_name", "guild-name", "union_name", "union-name"];
    assert(keys@ =~= seq!["guild_name", "guild-name", "union_name", "union-name"]);
    match trimmed_nonblank_of(param_of(request, &keys)) {
        Some(v) => Some(string_of(&v)),
        None => match bare_body_of(request) {
            Some(v) => Some(string_of(&v)),
            None => None,
        },
    }
}

pub fn duel_start_from_request(request: &HttpRequest) -> (r: Option<(u16, String)>)
    ensures
        r matches Some((id, n)) ==> request_duel_start(request@) == Some((id as int, n@)),
        r is None ==> request_duel_start(request@) is None,
{
    let id_keys = ["player_id", "player-id"];
    assert(id_keys@ =~= seq!["player_id", "player-id"]);
    let player_id = match parse_param(request, &id_keys, 0xffff) {
        Some(x) => x as u16,
        None => {
            return None;
        },
    };
    let name_keys = ["player_name", "player-name", "player"];
    assert(name_keys@ =~= seq!["player_name", "player-name", "player"]);
    let raw = match param_of(request, &name_keys) {
        Some(v) => v,
        None => {
            return None;
        },
    };
    let name = trim_chars(&raw);
    if name.len() == 0 {
        return None;
    }
    Some((player_id, string_of(&name)))
}

pub fn duel_channel_join_from_request(request: &HttpRequest) -> (r: Option<u8>)
    ensures
        r matches Some(c) ==> request_duel_channel(request@) == Some(c as int),
        r is None ==> request_duel_channel(request@) is None,
        parse_opt(param(request@, seq!["channel_id", "channel-id", "channel"]), 0xff) is None
            && !request@.body.contains('=') && trim(request@.body).len() > 0 && all_digits(
            trim(request@.body),
        ) && digits_value(trim(request@.body)) <= 0xff ==> r == Some(
            digits_value(trim(request@.body)) as u8,
        ),
{
    let keys = ["channel_id", "channel-id", "channel"];
    assert(keys@ =~= seq!["channel_id", "channel-id", "channel"]);
    if let Some(c) = parse_param(request, &keys, 0xff) {
        return Some(c as u8);
    }
    proof {
        if !request@.body.contains('=') && trim(request@.body).len() > 0 && all_digits(
            trim(request@.body),
        ) && digits_value(trim(request@.body)) <= 0xff {
            lemma_duel_channel_from_plain_body(request@);
        }
    }
    match bare_body_of(request) {
        Some(v) => match parse_unsigned_chars(&v, 0xff) {
            Some(c) => Some(c as u8),
            None => None,
        },
        None => None,
    }
}

pub fn skill_targeted_from_request(request: &HttpRequest) -> (r: Option<(u16, u16)>)
    ensures
        r matches Some((s, t)) ==> request_skill_targeted(request@) == Some((s as int, t as int)),
        r is None ==> request_skill_targeted(request@) is None,
{
    let skill_keys = ["skill_id", "skill-id"];
    assert(skill_keys@ =~= seq!["skill_id", "skill-id"]);
    let skill = match parse_param(request, &skill_keys, 0xffff) {
        Some(x) => x as u16,
        None => {
            return None;
        },
    };
    let target_keys = ["target_id", "target-id"];
    assert(target_keys@ =~= seq!["target_id", "target-id"]);
    let target = match parse_param(request, &target_keys, 0xffff) {
        Some(x) => x as u16,
        None => {
            return None;
        },
    };
    Some((skill, target))
}

pub fn inventory_move_from_request(request: &HttpRequest) -> (r: Option<(u8, u8)>)
    ensures
        r matches Some((f, t)) ==> request_inventory_move(request@) == Some((f as int, t as int)),
        r is None ==> request_inventory_move(request@) is None,
{
    let from_keys = ["from_slot"];
    assert(from_keys@ =~= seq!["from_slot"]);
    let from_slot = match parse_param(request, &from_keys, 0xff) {
        Some(x) => x as u8,
        None => {
            return None;
        },
    };
    let to_keys = ["to_slot"];
    assert(to_keys@ =~= seq!["to_slot"]);
    let to_slot = match parse_param(request, &to_keys, 0xff) {
        Some(x) => x as u8,
        None => {
            return None;
        },
    };
    Some((from_slot, to_slot))
}

pub fn inventory_action_slot_from_request(request: &HttpRequest) -> (r: Option<u8>)
    ensures
        r matches Some(s) ==> request_item_slot(request@) == Some(s as int),
        r is None ==> request_item_slot(request@) is None,
{
    let keys = ["slot", "item_slot"];
    assert(keys@ =~= seq!["slot", "item_slot"]);
    match parse_param(request, &keys, 0xff) {
        Some(x) => Some(x as u8),
        None => None,
    }
}

/// Reads a flag: `1`, `true`, `yes`, `on` or `0`, `false`, `no`, `off`,
/// trimmed and in any ASCII case.
pub fn parse_bool_value(value: &str) -> (r: Option<bool>)
    ensures
        r == bool_value(value@),
{
    parse_bool_chars(&chars_of(value))
}

fn parse_bool_chars(v: &Vec<char>) -> (r: Option<bool>)
    ensures
        r == bool_value(v@),
{
    let n = normalize(v);
    if chars_eq_str(&n, "1") || chars_eq_str(&n, "true") || chars_eq_str(&n, "yes")
        || chars_eq_str(&n, "on") {
        Some(true)
    } else if chars_eq_str(&n, "0") || chars_eq_str(&n, "false") || chars_eq_str(&n, "no")
        || chars_eq_str(&n, "off") {
        Some(false)
    } else {
        None
    }
}

pub fn inventory_use_from_request(request: &HttpRequest) -> (r: Option<(u8, u8, bool)>)
    ensures
        r matches Some((s, t, a)) ==> request_inventory_use(request@) == Some(
            (s as int, t as int, a),
        ),
        r is None ==> request_inventory_use(request@) is None,
{
    let slot = match inventory_action_slot_from_request(request) {
        Some(s) => s,
        None => {
            return None;
        },
    };
    let target_keys = ["target"];
    assert(target_keys@ =~= seq!["target"]);
    let target: u8 = match param_of(request, &target_keys) {
        Some(v) => match parse_trimmed(&v, 0xff) {
            Some(x) => x as u8,
            None => {
                return None;
            },
        },
        None => 0,
    };
    let add_keys = ["add_points", "add-points", "fruit"];
    assert(add_keys@ =~= seq!["add_points", "add-points", "fruit"]);
    let add_points = match param_of(request, &add_keys) {
        Some(v) => match parse_bool_chars(&v) {
            Some(b) => b,
            None => {
                return None;
            },
        },
        None => true,
    };
    Some((slot, target, add_points))
}

pub fn vault_money_amount_from_request(request: &HttpRequest) -> (r: Option<u32>)
    ensures
        r matches Some(a) ==> request_vault_amount(request@) == Some(a as int),
        r is None ==> request_vault_amount(request@) is None,
{
    let keys = ["amount"];
    assert(keys@ =~= seq!["amount"]);
    let text = match trimmed_nonblank_of(param_of(request, &keys)) {
        Some(v) => v,
        None => match body_text_of(request) {
            Some(v) => v,
            None => {
                return None;
            },
        },
    };
    match parse_unsigned_chars(&text, 0xffff_ffff) {
        Some(x) => Some(x as u32),
        None => None,
    }
}

} // verus!
