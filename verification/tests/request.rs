use mu_app::emblem::{decode_guild_emblem_hex, decode_hex_byte, decode_hex_digit, guild_emblem_to_hex};
use mu_app::request::{
    character_name_from_request, duel_channel_join_from_request, duel_start_from_request,
    friend_name_from_request, guild_ban_union_from_request, guild_create_from_request,
    guild_fire_from_request, guild_join_from_request, guild_role_assign_from_request,
    inventory_action_slot_from_request, inventory_move_from_request, inventory_use_from_request,
    parse_bool_value, skill_targeted_from_request, vault_money_amount_from_request, HttpRequest,
};
use mu_app::text::query_value;

fn request(query: &str, body: &str) -> HttpRequest {
    HttpRequest {
        method: "POST".to_string(),
        path: "/command".to_string(),
        query: query.to_string(),
        body: body.to_string(),
    }
}

#[test]
fn query_values_come_from_the_first_matching_pair() {
    assert_eq!(query_value("a=1&b=2&a=3", "a").as_deref(), Some("1"));
    assert_eq!(query_value("a=1&b=2", "b").as_deref(), Some("2"));
    assert_eq!(query_value("flag&b=x=y", "b").as_deref(), Some("x=y"));
    assert_eq!(query_value("a=1", "c"), None);
    assert_eq!(query_value("", "a"), None);
    assert_eq!(query_value("a=", "a").as_deref(), Some(""));
}

#[test]
fn command_names_come_from_query_body_or_plain_body() {
    assert_eq!(request("name=ping", "").command_name().as_deref(), Some("ping"));
    assert_eq!(request("", "name=chat").command_name().as_deref(), Some("chat"));
    assert_eq!(request("", "  exit \n").command_name().as_deref(), Some("exit"));
    assert_eq!(request("", "   ").command_name(), None);
}

#[test]
fn names_fall_back_to_the_trimmed_body() {
    assert_eq!(character_name_from_request(&request("character=Astra", "")).as_deref(), Some("Astra"));
    assert_eq!(character_name_from_request(&request("", " Selene ")).as_deref(), Some("Selene"));
    assert_eq!(character_name_from_request(&request("", "")), None);
    assert_eq!(friend_name_from_request(&request("", "friend=Blade")).as_deref(), Some("Blade"));
    assert_eq!(friend_name_from_request(&request("", "\t")), None);
}

#[test]
fn numeric_payloads_parse_within_their_range() {
    assert_eq!(guild_join_from_request(&request("master_id=4660", "")), Some(4660));
    assert_eq!(guild_join_from_request(&request("master-id=70000", "")), None);
    assert_eq!(guild_join_from_request(&request("", " 12 ")), Some(12));
    assert_eq!(duel_channel_join_from_request(&request("channel_id=7", "")), Some(7));
    assert_eq!(duel_channel_join_from_request(&request("channel_id=bad", "")), None);
    assert_eq!(skill_targeted_from_request(&request("skill_id=6&target_id=77", "")), Some((6, 77)));
    assert_eq!(skill_targeted_from_request(&request("skill_id=bad&target_id=7", "")), None);
    assert_eq!(inventory_move_from_request(&request("from_slot=18&to_slot=52", "")), Some((18, 52)));
    assert_eq!(inventory_move_from_request(&request("from_slot=18", "")), None);
    assert_eq!(inventory_action_slot_from_request(&request("item_slot=9", "")), Some(9));
    assert_eq!(vault_money_amount_from_request(&request("amount=+500", "")), Some(500));
    assert_eq!(vault_money_amount_from_request(&request("", "4294967296")), None);
    assert_eq!(vault_money_amount_from_request(&request("amount=", " 25 ")), Some(25));
}

#[test]
fn inventory_use_defaults_target_and_points() {
    assert_eq!(inventory_use_from_request(&request("slot=7", "")), Some((7, 0, true)));
    assert_eq!(
        inventory_use_from_request(&request("slot=7&target=3&add_points=OFF", "")),
        Some((7, 3, false))
    );
    assert_eq!(inventory_use_from_request(&request("slot=7&fruit=maybe", "")), None);
    assert_eq!(inventory_use_from_request(&request("slot=7&target=x", "")), None);
    assert_eq!(parse_bool_value(" Yes "), Some(true));
    assert_eq!(parse_bool_value("0"), Some(false));
    assert_eq!(parse_bool_value("nope"), None);
}

#[test]
fn guild_payloads_need_their_fields() {
    assert_eq!(
        guild_role_assign_from_request(&request("player=Blade&role=64&type=1", "")),
        Some(("Blade".to_string(), 64, 1))
    );
    assert_eq!(guild_role_assign_from_request(&request("player= &role=64&type=1", "")), None);
    assert_eq!(
        guild_fire_from_request(&request("player=Blade&authority-code=1234", "")),
        Some(("Blade".to_string(), "1234".to_string()))
    );
    assert_eq!(guild_fire_from_request(&request("player=Blade&security_code= ", "")), None);
    assert_eq!(
        guild_ban_union_from_request(&request("union_name=Alliance", "")).as_deref(),
        Some("Alliance")
    );
    assert_eq!(
        duel_start_from_request(&request("player_id=4660&player=Astra", "")),
        Some((4660, "Astra".to_string()))
    );
    assert_eq!(duel_start_from_request(&request("player_id=4660&player_name=", "")), None);

    let emblem = "01".repeat(32);
    let created = guild_create_from_request(&request(
        &format!("guild_name=Guild&guild_emblem={emblem}"),
        "",
    ));
    assert_eq!(created, Some(("Guild".to_string(), [1u8; 32])));
    assert_eq!(
        guild_create_from_request(&request(&format!("guild_name=abc&guild_emblem={emblem}"), "")),
        None
    );
    assert_eq!(
        guild_create_from_request(&request(&format!("guild_name=Longnames&guild_emblem={emblem}"), "")),
        None
    );
    assert_eq!(guild_create_from_request(&request("guild_name=Guild&guild_emblem=zz", "")), None);
}

#[test]
fn emblems_read_and_write_hexadecimal() {
    assert_eq!(decode_hex_digit('7'), Some(7));
    assert_eq!(decode_hex_digit('b'), Some(11));
    assert_eq!(decode_hex_digit('F'), Some(15));
    assert_eq!(decode_hex_digit('g'), None);
    assert_eq!(decode_hex_byte('a', '5'), Some(0xA5));
    assert_eq!(decode_hex_byte('x', '5'), None);

    let mut emblem = [0u8; 32];
    for (index, byte) in emblem.iter_mut().enumerate() {
        *byte = (index as u8).wrapping_mul(37);
    }
    let hex = guild_emblem_to_hex(&emblem);
    assert_eq!(hex.len(), 64);
    assert_eq!(&hex[..6], "00254a");
    assert_eq!(decode_guild_emblem_hex(&hex), Some(emblem));
    assert_eq!(decode_guild_emblem_hex(&hex.to_uppercase()), Some(emblem));
    assert_eq!(decode_guild_emblem_hex(&hex[..62]), None);
    assert_eq!(decode_guild_emblem_hex(&format!("{}zz", &hex[..62])), None);
}
