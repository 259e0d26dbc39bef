use mu_app::bootstrap::{
    apply_bootstrap_signal, apply_character_select_input, apply_movement_update,
    apply_party_info_snapshot, classify_bootstrap_packet, cycle_character_select_index,
    character_select_navigation_delta, BootstrapEffects, BootstrapRuntime, BootstrapSignal,
    CharacterSelectCharacter, CharacterSelectKeys, MailAction, PartyAction, signal_stops_worker,
    worker_session_step,
};
use mu_app::packets::{
    decode_friend_roster, decode_guild_roster, decode_legacy_name, decode_letter_alert,
    decode_party_info, decode_party_list, friend_entry_server, friend_presence_from_server,
    guild_member_role, guild_member_server, legacy_language_byte, GensRankingInfo,
    MailLetterEntry, MovementUpdate, PacketFrame, PartyInfoSnapshot, PartyListSnapshot,
    PartyMemberInfo,
    LETTER_ALERT_RESERVED_LEN,
};
use mu_app::session::{SessionEvent, SessionPhase, SessionState};
use mu_app::ui::{CharacterCreateScreenState, FriendPresence, GuildMemberRole, UiRoute};

fn frame(headcode: u8, subcode: u8, payload: &[u8]) -> PacketFrame {
    PacketFrame { headcode, subcode, payload: payload.to_vec() }
}

fn classify(frame: &PacketFrame) -> Option<BootstrapSignal> {
    classify_bootstrap_packet(frame, None, Err("not a gens ranking frame".to_string()))
}

fn fixed_name<const N: usize>(value: &[u8]) -> [u8; N] {
    let mut bytes = [0u8; N];
    let len = value.len().min(N);
    bytes[..len].copy_from_slice(&value[..len]);
    bytes
}

fn friend_roster_packet() -> PacketFrame {
    let mut payload = Vec::new();
    payload.push(8);
    payload.push(2);
    payload.extend_from_slice(&fixed_name::<10>(b"Astra"));
    payload.push(2);
    payload.extend_from_slice(&fixed_name::<10>(b"Blade"));
    payload.push(0xFD);
    frame(0xC0, 0x02, &payload)
}

fn mail_letter_alert_packet(
    index: u16,
    sender: &[u8],
    date: &[u8],
    time: &[u8],
    subject: &[u8],
    read: u8,
) -> PacketFrame {
    let mut payload = Vec::new();
    payload.extend_from_slice(&index.to_le_bytes());
    payload.extend_from_slice(&fixed_name::<10>(sender));
    payload.extend_from_slice(&fixed_name::<10>(date));
    payload.push(0);
    payload.extend_from_slice(&fixed_name::<8>(time));
    payload.extend_from_slice(&[0; LETTER_ALERT_RESERVED_LEN]);
    payload.extend_from_slice(&fixed_name::<60>(subject));
    payload.push(read);
    frame(0xC6, 0x00, &payload)
}

fn mail_letter_delete_result_packet(index: u16, result: u8) -> PacketFrame {
    frame(0xC8, 0x00, &[result, index as u8, (index >> 8) as u8])
}

fn guild_roster_packet() -> PacketFrame {
    let mut payload = Vec::new();
    payload.push(2);
    payload.extend_from_slice(&12_500u32.to_le_bytes());
    payload.push(7);
    payload.extend_from_slice(&fixed_name::<8>(b"Rivals"));
    payload.extend_from_slice(&fixed_name::<10>(b"Astra"));
    payload.push(11);
    payload.push(0x83);
    payload.push(128);
    payload.extend_from_slice(&fixed_name::<10>(b"Blade"));
    payload.push(22);
    payload.push(0x00);
    payload.push(64);
    frame(0xD1, 0x52, &payload)
}

fn party_member_bytes(
    name: &[u8],
    number: u8,
    map: u8,
    x: u8,
    y: u8,
    curr_hp: i32,
    max_hp: i32,
) -> Vec<u8> {
    let mut entry = Vec::with_capacity(24);
    entry.extend_from_slice(&fixed_name::<10>(name));
    entry.push(number);
    entry.push(map);
    entry.push(x);
    entry.push(y);
    entry.extend_from_slice(&[0, 0]);
    entry.extend_from_slice(&curr_hp.to_le_bytes());
    entry.extend_from_slice(&max_hp.to_le_bytes());
    entry
}

fn party_roster_packet() -> PacketFrame {
    let mut payload = Vec::new();
    payload.push(0);
    payload.push(2);
    payload.extend_from_slice(&party_member_bytes(b"Astra", 11, 3, 12, 21, 480, 600));
    payload.extend_from_slice(&party_member_bytes(b"Blade", 22, 6, 44, 15, 220, 450));
    frame(0x03, 0x42, &payload)
}

fn party_info_packet() -> PacketFrame {
    frame(0x03, 0x44, &[2, 10, 7])
}

fn party_leave_packet() -> PacketFrame {
    frame(0x03, 0x43, &[])
}

/// The party roster that the client keeps, fed with the party effects.
struct Party {
    party_number: usize,
    members: Vec<PartyMemberInfo>,
}

impl Party {
    fn new() -> Party {
        Party { party_number: 0, members: Vec::new() }
    }

    fn apply(&mut self, action: PartyAction) {
        match action {
            PartyAction::Keep => {}
            PartyAction::SetList(snapshot) => self.set_list(snapshot),
            PartyAction::SetInfo(info) => {
                let steps = apply_party_info_snapshot(&info, self.party_number);
                for (index, step) in steps.into_iter().enumerate() {
                    self.members[index].step_hp = step;
                }
            }
            PartyAction::Clear => {
                self.party_number = 0;
                self.members.clear();
            }
        }
    }

    fn set_list(&mut self, snapshot: PartyListSnapshot) {
        self.party_number = usize::from(snapshot.count);
        self.members = snapshot.members;
    }
}

struct Client {
    bootstrap: BootstrapRuntime,
    session: SessionState,
    route: UiRoute,
    party: Party,
    world_ready: bool,
}

impl Client {
    fn new() -> Client {
        Client {
            bootstrap: BootstrapRuntime::idle(),
            session: SessionState::new(),
            route: UiRoute::Boot,
            party: Party::new(),
            world_ready: false,
        }
    }

    fn apply(&mut self, signal: BootstrapSignal) -> MailAction {
        let BootstrapEffects { mail, party, .. } = apply_bootstrap_signal(
            signal,
            &mut self.bootstrap,
            &mut self.session,
            &mut self.route,
            self.world_ready,
        );
        self.party.apply(party);
        mail
    }
}

#[test]
fn legacy_language_byte_maps_expected_aliases() {
    assert_eq!(legacy_language_byte("en"), 0);
    assert_eq!(legacy_language_byte("ENG"), 0);
    assert_eq!(legacy_language_byte("pt"), 1);
    assert_eq!(legacy_language_byte("por"), 1);
    assert_eq!(legacy_language_byte("es"), 2);
    assert_eq!(legacy_language_byte("spn"), 2);
}

#[test]
fn legacy_language_byte_trims_and_ignores_case() {
    assert_eq!(legacy_language_byte("  PT \n"), 1);
    assert_eq!(legacy_language_byte("Spn"), 2);
    assert_eq!(legacy_language_byte(""), 0);
    assert_eq!(legacy_language_byte("p t"), 0);
}

#[test]
fn login_failure_stays_on_the_login_surface() {
    let mut client = Client::new();
    client.apply(BootstrapSignal::Session(SessionEvent::LoginFailure));

    assert_eq!(client.route, UiRoute::Login);
    assert_eq!(client.session.phase(), SessionPhase::ReadyForLogin);
    assert!(client.bootstrap.last_error().is_some());
    assert_eq!(client.bootstrap.last_error(), Some("login failed"));
}

#[test]
fn character_select_input_waits_for_the_character_list() {
    let mut bootstrap = BootstrapRuntime::idle();
    let characters = vec![CharacterSelectCharacter { name: "Astra".to_string(), selected: true }];
    let keys = CharacterSelectKeys { previous: false, next: false, enter: true };

    let queued = apply_character_select_input(
        &mut bootstrap,
        UiRoute::CharacterSelect,
        SessionPhase::LoggedIn,
        &characters,
        keys,
    );

    assert!(!bootstrap.character_list_ready());
    assert!(bootstrap.character_select_index().is_none());
    assert!(queued.is_none());
}

#[test]
fn character_select_input_wraps_navigation_and_queues_the_selected_character() {
    let mut bootstrap = BootstrapRuntime::idle();
    bootstrap.set_character_list_ready(true);
    let characters = vec![
        CharacterSelectCharacter { name: "Astra".to_string(), selected: true },
        CharacterSelectCharacter { name: "Selene".to_string(), selected: false },
    ];

    let queued = apply_character_select_input(
        &mut bootstrap,
        UiRoute::CharacterSelect,
        SessionPhase::LoggedIn,
        &characters,
        CharacterSelectKeys { previous: false, next: true, enter: false },
    );
    assert!(queued.is_none());
    assert_eq!(bootstrap.character_select_index(), Some(1));

    let queued = apply_character_select_input(
        &mut bootstrap,
        UiRoute::CharacterSelect,
        SessionPhase::LoggedIn,
        &characters,
        CharacterSelectKeys { previous: false, next: false, enter: true },
    );
    let character_name = queued.expect("select_character command missing");
    assert_eq!(character_name, "Selene");
    assert!(bootstrap.record_character_select_request(character_name, true));

    assert_eq!(bootstrap.selected_character_name.as_deref(), Some("Selene"));
    bootstrap.clear_character_select_selection();
    assert!(bootstrap.selected_character_name.is_none());
}

#[test]
fn character_select_navigation_wraps_both_ways() {
    let mut bootstrap = BootstrapRuntime::idle();
    bootstrap.set_character_list_ready(true);
    let characters = vec![
        CharacterSelectCharacter { name: "Astra".to_string(), selected: false },
        CharacterSelectCharacter { name: "Blade".to_string(), selected: false },
        CharacterSelectCharacter { name: "Selene".to_string(), selected: false },
    ];
    let back = CharacterSelectKeys { previous: true, next: false, enter: false };

    apply_character_select_input(
        &mut bootstrap,
        UiRoute::CharacterSelect,
        SessionPhase::LoggedIn,
        &characters,
        back,
    );
    assert_eq!(bootstrap.character_select_index(), Some(2));

    let both = CharacterSelectKeys { previous: true, next: true, enter: false };
    apply_character_select_input(
        &mut bootstrap,
        UiRoute::CharacterSelect,
        SessionPhase::LoggedIn,
        &characters,
        both,
    );
    assert_eq!(bootstrap.character_select_index(), Some(2));

    apply_character_select_input(
        &mut bootstrap,
        UiRoute::Login,
        SessionPhase::LoggedIn,
        &characters,
        back,
    );
    assert_eq!(bootstrap.character_select_index(), None);
}

#[test]
fn cycle_index_is_euclidean() {
    assert_eq!(cycle_character_select_index(0, 3, -1), 2);
    assert_eq!(cycle_character_select_index(2, 3, 1), 0);
    assert_eq!(cycle_character_select_index(1, 3, 0), 1);
    assert_eq!(cycle_character_select_index(0, 3, -7), 2);
    assert_eq!(cycle_character_select_index(4, 3, 5), 0);
    assert_eq!(character_select_navigation_delta(true, false), -1);
    assert_eq!(character_select_navigation_delta(false, true), 1);
    assert_eq!(character_select_navigation_delta(true, true), 0);
    assert_eq!(character_select_navigation_delta(false, false), 0);
}

#[test]
fn character_create_request_marks_the_state_submitting_and_queues_the_name() {
    let mut bootstrap = BootstrapRuntime::idle();

    assert!(bootstrap.record_character_create_request(true));
    assert_eq!(bootstrap.character_create_state(), CharacterCreateScreenState::Submitting);

    let mut idle = BootstrapRuntime::idle();
    assert!(!idle.record_character_create_request(false));
    assert_eq!(idle.character_create_state(), CharacterCreateScreenState::Ready);
}

#[test]
fn friend_roster_packets_classify_and_update_runtime_state() {
    let roster = match classify(&friend_roster_packet()) {
        Some(BootstrapSignal::FriendRoster(roster)) => roster,
        other => panic!("unexpected bootstrap signal: {other:?}"),
    };

    assert_eq!(roster.memo_count, 0x02);
    assert_eq!(roster.max_memo, 8);
    assert_eq!(roster.count, 2);
    assert_eq!(roster.friends.len(), 2);
    assert_eq!(roster.friends[0].name, "Astra");
    assert_eq!(roster.friends[0].server, Some(3));
    assert_eq!(roster.friends[0].presence, FriendPresence::Online);
    assert_eq!(roster.friends[1].name, "Blade");
    assert_eq!(roster.friends[1].server, None);
    assert_eq!(roster.friends[1].presence, FriendPresence::Busy);

    let mut client = Client::new();
    client.apply(BootstrapSignal::FriendRoster(roster));

    let live_roster = client.bootstrap.friend_roster_snapshot().expect("friend roster snapshot");
    assert_eq!(live_roster.friends[0].name, "Astra");
}

#[test]
fn guild_roster_packets_classify_and_update_runtime_state() {
    let roster = match classify(&guild_roster_packet()) {
        Some(BootstrapSignal::GuildRoster(roster)) => roster,
        other => panic!("unexpected bootstrap signal: {other:?}"),
    };

    assert_eq!(roster.result, 0x52);
    assert_eq!(roster.count, 2);
    assert_eq!(roster.total_score, 12_500);
    assert_eq!(roster.score, 7);
    assert_eq!(roster.rival_guild_name.as_deref(), Some("Rivals"));
    assert_eq!(roster.members.len(), 2);
    assert_eq!(roster.members[0].name, "Astra");
    assert_eq!(roster.members[0].number, 11);
    assert_eq!(roster.members[0].server, Some(3));
    assert_eq!(roster.members[0].role, GuildMemberRole::Master);
    assert_eq!(roster.members[1].name, "Blade");
    assert_eq!(roster.members[1].server, None);
    assert_eq!(roster.members[1].role, GuildMemberRole::SubMaster);

    let mut client = Client::new();
    client.apply(BootstrapSignal::GuildRoster(roster));

    let live_roster = client.bootstrap.guild_roster_snapshot().expect("guild roster snapshot");
    assert_eq!(live_roster.members[0].name, "Astra");
}

#[test]
fn party_roster_packets_classify_and_update_runtime_state() {
    let roster = match classify(&party_roster_packet()) {
        Some(BootstrapSignal::PartyList(roster)) => roster,
        other => panic!("unexpected bootstrap signal: {other:?}"),
    };

    assert_eq!(roster.count, 2);
    assert_eq!(roster.members.len(), 2);
    assert_eq!(roster.members[0].name, "Astra");
    assert_eq!(roster.members[0].number, 11);
    assert_eq!(roster.members[0].map, 3);
    assert_eq!(roster.members[0].x, 12);
    assert_eq!(roster.members[0].y, 21);
    assert_eq!(roster.members[0].curr_hp, 480);
    assert_eq!(roster.members[0].max_hp, 600);
    assert_eq!(roster.members[1].name, "Blade");
    assert_eq!(roster.members[1].number, 22);
    assert_eq!(roster.members[1].map, 6);
    assert_eq!(roster.members[1].x, 44);
    assert_eq!(roster.members[1].y, 15);
    assert_eq!(roster.members[1].curr_hp, 220);
    assert_eq!(roster.members[1].max_hp, 450);

    let info = match classify(&party_info_packet()) {
        Some(BootstrapSignal::PartyInfo(info)) => info,
        other => panic!("unexpected bootstrap signal: {other:?}"),
    };

    assert_eq!(info.count, 2);
    assert_eq!(info.step_hp_values, vec![10, 7]);

    assert!(matches!(classify(&party_leave_packet()), Some(BootstrapSignal::PartyLeave)));

    let mut client = Client::new();
    client.apply(BootstrapSignal::PartyList(roster));
    client.apply(BootstrapSignal::PartyInfo(info));

    assert_eq!(client.party.party_number, 2);
    assert_eq!(client.party.members[0].name, "Astra");
    assert_eq!(client.party.members[0].step_hp, 10);
    assert_eq!(client.party.members[1].name, "Blade");
    assert_eq!(client.party.members[1].step_hp, 7);

    client.apply(BootstrapSignal::PartyLeave);

    assert_eq!(client.party.party_number, 0);
}

#[test]
fn social_rosters_clear_on_logout_and_disconnect() {
    let signals = || {
        let friend_roster = match classify(&friend_roster_packet()) {
            Some(BootstrapSignal::FriendRoster(roster)) => roster,
            other => panic!("unexpected bootstrap signal: {other:?}"),
        };
        let guild_roster = match classify(&guild_roster_packet()) {
            Some(BootstrapSignal::GuildRoster(roster)) => roster,
            other => panic!("unexpected bootstrap signal: {other:?}"),
        };
        let party_roster = match classify(&party_roster_packet()) {
            Some(BootstrapSignal::PartyList(roster)) => roster,
            other => panic!("unexpected bootstrap signal: {other:?}"),
        };
        let party_info = match classify(&party_info_packet()) {
            Some(BootstrapSignal::PartyInfo(info)) => info,
            other => panic!("unexpected bootstrap signal: {other:?}"),
        };
        vec![
            BootstrapSignal::FriendRoster(friend_roster),
            BootstrapSignal::GuildRoster(guild_roster),
            BootstrapSignal::PartyList(party_roster),
            BootstrapSignal::PartyInfo(party_info),
        ]
    };

    let mut client = Client::new();
    for signal in signals() {
        client.apply(signal);
    }

    assert!(client.bootstrap.friend_roster_snapshot().is_some());
    assert!(client.bootstrap.guild_roster_snapshot().is_some());
    assert_eq!(client.party.party_number, 2);

    client.apply(BootstrapSignal::Session(SessionEvent::Logout));

    assert!(client.bootstrap.friend_roster_snapshot().is_none());
    assert!(client.bootstrap.guild_roster_snapshot().is_none());
    assert_eq!(client.party.party_number, 0);

    for signal in signals() {
        client.apply(signal);
    }
    client.apply(BootstrapSignal::Session(SessionEvent::Disconnect));

    assert!(client.bootstrap.friend_roster_snapshot().is_none());
    assert!(client.bootstrap.guild_roster_snapshot().is_none());
    assert_eq!(client.party.party_number, 0);
}

#[test]
fn letter_packets_update_and_reset_mail_state() {
    let letter_index = 0x0304;
    let letter_packet = mail_letter_alert_packet(
        letter_index,
        b"Astra",
        b"05/19/2026",
        b"10:12",
        b"Potion run",
        0x02,
    );
    let letter = match classify(&letter_packet) {
        Some(BootstrapSignal::MailLetter(letter)) => letter,
        other => panic!("unexpected bootstrap signal: {other:?}"),
    };

    assert_eq!(
        letter,
        MailLetterEntry {
            id: u32::from(letter_index),
            sender: "Astra".to_string(),
            subject: "Potion run".to_string(),
            date: "05/19/2026".to_string(),
            time: "10:12".to_string(),
            read: false,
        }
    );

    match classify(&mail_letter_delete_result_packet(letter_index, 0x01)) {
        Some(BootstrapSignal::MailLetterDelete(letter_id)) => {
            assert_eq!(letter_id, u32::from(letter_index));
        }
        other => panic!("unexpected bootstrap signal: {other:?}"),
    }

    let mut client = Client::new();

    match client.apply(BootstrapSignal::MailLetter(letter.clone())) {
        MailAction::Upsert(stored) => assert_eq!(stored, letter),
        other => panic!("unexpected mail action: {other:?}"),
    }
    assert!(matches!(
        client.apply(BootstrapSignal::MailLetterDelete(letter.id)),
        MailAction::Remove(id) if id == letter.id
    ));
    assert!(matches!(
        client.apply(BootstrapSignal::Session(SessionEvent::LoginSuccess)),
        MailAction::Reset
    ));
    assert!(matches!(client.apply(BootstrapSignal::Logout(1)), MailAction::Reset));
    assert!(matches!(
        client.apply(BootstrapSignal::Session(SessionEvent::Disconnect)),
        MailAction::Reset
    ));
}

#[test]
fn letter_delete_results_other_than_success_carry_nothing() {
    assert!(classify(&mail_letter_delete_result_packet(7, 0x00)).is_none());
    match classify(&frame(0xC8, 0x00, &[1, 2])) {
        Some(BootstrapSignal::Error(message)) => {
            assert_eq!(message, "letter delete result packet missing result header");
        }
        other => panic!("unexpected bootstrap signal: {other:?}"),
    }
}

#[test]
fn truncated_packets_become_errors() {
    match classify(&frame(0xC0, 0x00, &[8])) {
        Some(BootstrapSignal::Error(message)) => {
            assert_eq!(message, "friend list packet missing roster header");
        }
        other => panic!("unexpected bootstrap signal: {other:?}"),
    }
    match classify(&frame(0xC0, 0x00, &[8, 2, 1, 2, 3])) {
        Some(BootstrapSignal::Error(message)) => {
            assert_eq!(
                message,
                "friend list packet truncated: expected 22 roster bytes, found 3"
            );
        }
        other => panic!("unexpected bootstrap signal: {other:?}"),
    }
    assert_eq!(
        decode_guild_roster(&frame(0xD1, 0x52, &[0; 13])).unwrap_err(),
        "guild list packet missing roster header"
    );
    let mut short_guild = vec![1u8];
    short_guild.extend_from_slice(&[0; 13]);
    short_guild.extend_from_slice(&[0; 5]);
    assert_eq!(
        decode_guild_roster(&frame(0xD1, 0x52, &short_guild)).unwrap_err(),
        "guild list packet truncated: expected 13 roster bytes, found 5"
    );
    assert_eq!(
        decode_letter_alert(&frame(0xC6, 0x00, &[0; 40])).unwrap_err(),
        "letter alert packet truncated: expected 103 bytes, found 40"
    );
    assert_eq!(
        decode_party_list(&frame(0x03, 0x42, &[0])).unwrap_err(),
        "party list packet missing roster header"
    );
    assert_eq!(
        decode_party_list(&frame(0x03, 0x42, &[0, 1, 0, 0])).unwrap_err(),
        "party list packet truncated: expected 24 roster bytes, found 2"
    );
    assert_eq!(
        decode_party_info(&frame(0x03, 0x44, &[])).unwrap_err(),
        "party info packet missing info header"
    );
    assert_eq!(
        decode_party_info(&frame(0x03, 0x44, &[3, 1])).unwrap_err(),
        "party info packet truncated: expected 3 info bytes, found 1"
    );
    match classify(&frame(0xF4, 0x05, &[])) {
        Some(BootstrapSignal::Error(message)) => assert_eq!(message, "server is busy"),
        other => panic!("unexpected bootstrap signal: {other:?}"),
    }
}

#[test]
fn decoders_read_fields_exactly() {
    let roster = decode_friend_roster(&friend_roster_packet()).unwrap();
    assert_eq!(roster.friends[0].name, "Astra");
    assert!(!roster.friends[0].selected);

    let mut empty_rival = vec![0u8];
    empty_rival.extend_from_slice(&[0xFF, 0xFF, 0xFF, 0xFF]);
    empty_rival.push(1);
    empty_rival.extend_from_slice(&[0; 8]);
    let roster = decode_guild_roster(&frame(0xD1, 0x52, &empty_rival)).unwrap();
    assert_eq!(roster.total_score, u32::MAX);
    assert_eq!(roster.rival_guild_name, None);
    assert!(roster.members.is_empty());

    let mut negative = vec![0u8, 1];
    negative.extend_from_slice(&party_member_bytes(b"Ghost", 1, 2, 3, 4, -5, i32::MIN));
    let party = decode_party_list(&frame(0x03, 0x42, &negative)).unwrap();
    assert_eq!(party.members[0].curr_hp, -5);
    assert_eq!(party.members[0].max_hp, i32::MIN);

    let info = decode_party_info(&frame(0x03, 0x44, &[2, 0xF3, 0x2A, 0x99])).unwrap();
    assert_eq!(info.step_hp_values, vec![3, 10]);
}

#[test]
fn legacy_names_stop_at_the_first_zero() {
    assert_eq!(decode_legacy_name(b"Astra\0\0junk"), "Astra");
    assert_eq!(decode_legacy_name(b"\0Astra"), "");
    assert_eq!(decode_legacy_name(b"Selene"), "Selene");
    assert_eq!(decode_legacy_name(b"Ab\xFFc\0"), "Ab\u{FFFD}c");
}

#[test]
fn server_bytes_map_to_servers_presence_and_roles() {
    assert_eq!(friend_entry_server(0), Some(1));
    assert_eq!(friend_entry_server(0xFB), Some(0xFC));
    assert_eq!(friend_entry_server(0xFC), None);
    assert_eq!(friend_entry_server(0xFF), None);
    assert_eq!(friend_presence_from_server(0xFD), FriendPresence::Busy);
    assert_eq!(friend_presence_from_server(0xFC), FriendPresence::Offline);
    assert_eq!(friend_presence_from_server(0xFE), FriendPresence::Offline);
    assert_eq!(friend_presence_from_server(7), FriendPresence::Online);
    assert_eq!(guild_member_server(0x83), Some(3));
    assert_eq!(guild_member_server(0x80), Some(0));
    assert_eq!(guild_member_server(0x7F), None);
    assert_eq!(guild_member_role(128), GuildMemberRole::Master);
    assert_eq!(guild_member_role(64), GuildMemberRole::SubMaster);
    assert_eq!(guild_member_role(32), GuildMemberRole::BattleMaster);
    assert_eq!(guild_member_role(0), GuildMemberRole::Member);
}

#[test]
fn gens_ranking_packets_classify_and_store_runtime_state() {
    let decoded = GensRankingInfo {
        influence: 1,
        ranking: 9,
        gens_class: 2,
        contribution_point: 100,
        next_contribution_point: 200,
    };
    let snapshot = match classify_bootstrap_packet(&frame(0xF8, 0x07, &[1; 17]), None, Ok(decoded)) {
        Some(BootstrapSignal::GensRanking(snapshot)) => snapshot,
        other => panic!("unexpected bootstrap signal: {other:?}"),
    };

    assert_eq!(snapshot, decoded);

    let mut client = Client::new();
    client.apply(BootstrapSignal::GensRanking(snapshot));

    assert_eq!(client.bootstrap.gens_ranking_snapshot(), Some(snapshot));
}

#[test]
fn gens_ranking_snapshot_clears_on_session_reset() {
    let snapshot = GensRankingInfo {
        influence: 2,
        ranking: 4,
        gens_class: 1,
        contribution_point: 300,
        next_contribution_point: 400,
    };

    let mut client = Client::new();
    client.bootstrap.set_gens_ranking_snapshot(Some(snapshot));
    client.apply(BootstrapSignal::Session(SessionEvent::LoginSuccess));
    assert!(client.bootstrap.gens_ranking_snapshot().is_none());

    client.bootstrap.set_gens_ranking_snapshot(Some(snapshot));
    client.apply(BootstrapSignal::Session(SessionEvent::Logout));
    assert!(client.bootstrap.gens_ranking_snapshot().is_none());

    client.bootstrap.set_gens_ranking_snapshot(Some(snapshot));
    client.apply(BootstrapSignal::Session(SessionEvent::Disconnect));
    assert!(client.bootstrap.gens_ranking_snapshot().is_none());
}

#[test]
fn character_create_packets_classify_success_and_failure() {
    assert!(matches!(
        classify(&frame(0xF3, 0x01, &[1, 0x41, 0x73])),
        Some(BootstrapSignal::CharacterCreateSuccess)
    ));
    assert!(matches!(
        classify(&frame(0xF3, 0x01, &[0])),
        Some(BootstrapSignal::CharacterCreateFailure)
    ));
    assert!(matches!(
        classify(&frame(0xF3, 0x01, &[2])),
        Some(BootstrapSignal::CharacterCreateFailure)
    ));
    assert!(classify(&frame(0xF3, 0x01, &[])).is_none());
}

#[test]
fn session_packets_classify_to_their_signals() {
    assert!(matches!(classify(&frame(0xF4, 0x06, &[])), Some(BootstrapSignal::ServerList)));
    assert!(matches!(classify(&frame(0xF3, 0x00, &[])), Some(BootstrapSignal::CharacterList)));
    assert!(matches!(
        classify(&frame(0xF3, 0x03, &[0, 0, 7, 0])),
        Some(BootstrapSignal::JoinMap(7))
    ));
    assert!(classify(&frame(0xF3, 0x03, &[0, 0])).is_none());
    assert!(matches!(classify(&frame(0xF1, 0x02, &[2])), Some(BootstrapSignal::Logout(2))));
    assert!(classify(&frame(0xF1, 0x02, &[])).is_none());
    assert!(classify(&frame(0x00, 0x00, &[1, 2, 3])).is_none());
    let update = MovementUpdate::Position { key: 5, position_x: 10, position_y: 20 };
    assert!(matches!(
        classify_bootstrap_packet(&frame(0xC0, 0x00, &[]), Some(update), Err(String::new())),
        Some(BootstrapSignal::Movement(u)) if u == update
    ));
    match classify_bootstrap_packet(&frame(0xF8, 0x07, &[]), None, Err("short".to_string())) {
        Some(BootstrapSignal::Error(message)) => assert_eq!(message, "short"),
        other => panic!("unexpected bootstrap signal: {other:?}"),
    }
}

#[test]
fn movement_updates_move_only_the_local_player() {
    let update = MovementUpdate::Character { key: 7, target_x: 30, target_y: 40 };
    assert_eq!(apply_movement_update(Some(7), update), Some((30, 40)));
    assert_eq!(apply_movement_update(Some(8), update), None);
    assert_eq!(apply_movement_update(None, update), None);
    let update = MovementUpdate::Position { key: 7, position_x: 1, position_y: 2 };
    assert_eq!(apply_movement_update(Some(7), update), Some((1, 2)));
}

#[test]
fn character_create_signal_updates_the_visible_route_state() {
    let mut client = Client::new();
    client.bootstrap.set_character_create_state(CharacterCreateScreenState::Submitting);

    client.apply(BootstrapSignal::CharacterCreateSuccess);

    assert_eq!(client.route, UiRoute::CharacterSelect);
    assert_eq!(client.bootstrap.character_create_state(), CharacterCreateScreenState::Ready);
    assert!(client.bootstrap.character_list_ready());
}

#[test]
fn character_create_failure_keeps_the_create_route_in_error() {
    let mut client = Client::new();
    client.bootstrap.set_character_create_state(CharacterCreateScreenState::Submitting);
    client.route = UiRoute::CharacterCreate;

    client.apply(BootstrapSignal::CharacterCreateFailure);

    assert_eq!(client.route, UiRoute::CharacterCreate);
    assert_eq!(client.bootstrap.character_create_state(), CharacterCreateScreenState::Error);
    assert_eq!(client.bootstrap.last_error(), Some("character creation failed"));
}

#[test]
fn character_create_disconnect_keeps_the_create_route_in_error() {
    let mut client = Client::new();
    client.bootstrap.set_character_create_state(CharacterCreateScreenState::Submitting);
    client.route = UiRoute::CharacterCreate;

    client.apply(BootstrapSignal::Session(SessionEvent::Disconnect));

    assert_eq!(client.session.phase(), SessionPhase::Disconnected);
    assert_eq!(client.route, UiRoute::CharacterCreate);
    assert_eq!(client.bootstrap.character_create_state(), CharacterCreateScreenState::Error);
    assert_eq!(client.bootstrap.last_error(), Some("connection lost"));
}

#[test]
fn disconnect_during_world_join_keeps_the_join() {
    let mut client = Client::new();
    client.apply(BootstrapSignal::Session(SessionEvent::LoginSuccess));
    client.apply(BootstrapSignal::JoinMap(3));
    assert_eq!(client.route, UiRoute::Loading);

    client.apply(BootstrapSignal::Session(SessionEvent::Disconnect));

    assert_eq!(client.route, UiRoute::Loading);
    assert_eq!(client.bootstrap.take_pending_world_map(), Some(3));
    assert_eq!(client.bootstrap.take_pending_world_map(), None);
    assert!(client.bootstrap.last_error().is_none());
}

#[test]
fn disconnect_outside_the_world_shows_the_error_screen() {
    let mut client = Client::new();
    client.route = UiRoute::CharacterSelect;
    client.apply(BootstrapSignal::Session(SessionEvent::Disconnect));
    assert_eq!(client.route, UiRoute::Error);

    let mut client = Client::new();
    client.world_ready = true;
    client.route = UiRoute::World;
    client.apply(BootstrapSignal::Session(SessionEvent::Disconnect));
    assert_eq!(client.route, UiRoute::World);
}

#[test]
fn logout_kinds_choose_the_next_screen() {
    let mut client = Client::new();
    client.apply(BootstrapSignal::Logout(1));
    assert_eq!(client.route, UiRoute::CharacterSelect);
    assert!(client.bootstrap.last_error().is_none());

    client.apply(BootstrapSignal::Logout(2));
    assert_eq!(client.route, UiRoute::Login);
    assert!(client.bootstrap.last_error().is_none());

    client.apply(BootstrapSignal::Logout(9));
    assert_eq!(client.route, UiRoute::Login);
    assert_eq!(client.bootstrap.last_error(), Some("unexpected logout kind: 9"));
}

#[test]
fn worker_errors_reset_the_flow() {
    let mut client = Client::new();
    client.apply(BootstrapSignal::CharacterList);
    assert_eq!(client.route, UiRoute::CharacterSelect);
    assert!(client.bootstrap.character_list_ready());

    let mail = client.apply(BootstrapSignal::Error("connection refused".to_string()));
    assert!(matches!(mail, MailAction::Reset));
    assert_eq!(client.route, UiRoute::Error);
    assert!(!client.bootstrap.character_list_ready());
    assert_eq!(client.bootstrap.last_error(), Some("connection refused"));

    client.bootstrap.set_character_create_state(CharacterCreateScreenState::Submitting);
    client.apply(BootstrapSignal::Error("gone".to_string()));
    assert_eq!(client.route, UiRoute::CharacterCreate);
    assert_eq!(client.bootstrap.character_create_state(), CharacterCreateScreenState::Error);
}

#[test]
fn world_loads_finish_the_bootstrap() {
    let mut bootstrap = BootstrapRuntime::idle();
    let mut route = UiRoute::Loading;
    bootstrap.finish_world_bootstrap(&mut route, Some(Ok(())));
    assert_eq!(route, UiRoute::World);
    assert!(bootstrap.last_error().is_none());

    bootstrap.finish_world_bootstrap(&mut route, None);
    assert_eq!(route, UiRoute::Error);
    assert_eq!(bootstrap.last_error(), Some("missing asset root"));

    bootstrap.finish_world_bootstrap(&mut route, Some(Err("map 9 missing".to_string())));
    assert_eq!(route, UiRoute::Error);
    assert_eq!(bootstrap.last_error(), Some("map 9 missing"));

    let errored = BootstrapRuntime::with_error("invalid server address: x".to_string());
    assert_eq!(errored.last_error(), Some("invalid server address: x"));
}

#[test]
fn party_health_steps_are_capped_and_limited() {
    let info = PartyInfoSnapshot { count: 3, step_hp_values: vec![12, 4, 9] };
    assert_eq!(apply_party_info_snapshot(&info, 2), vec![10, 4]);
    assert_eq!(apply_party_info_snapshot(&info, 5), vec![10, 4, 9]);
    let info = PartyInfoSnapshot { count: 1, step_hp_values: vec![3, 4] };
    assert_eq!(apply_party_info_snapshot(&info, 5), vec![3]);
}

#[test]
fn worker_reports_session_changes_and_asks_for_characters_after_login() {
    assert_eq!(worker_session_step(None, Some(SessionEvent::LoginSuccess)), (Some(SessionEvent::LoginSuccess), true));
    assert_eq!(
        worker_session_step(Some(SessionEvent::LoginSuccess), Some(SessionEvent::LoginSuccess)),
        (None, false)
    );
    assert_eq!(
        worker_session_step(Some(SessionEvent::LoginSuccess), Some(SessionEvent::Logout)),
        (None, false)
    );
    assert_eq!(
        worker_session_step(None, Some(SessionEvent::LoginFailure)),
        (Some(SessionEvent::LoginFailure), false)
    );
    assert_eq!(worker_session_step(Some(SessionEvent::Logout), None), (None, false));
    assert!(signal_stops_worker(&BootstrapSignal::Error("x".to_string())));
    assert!(!signal_stops_worker(&BootstrapSignal::PartyLeave));
}

#[test]
fn routes_progress_from_login_to_world() {
    let mut client = Client::new();

    client.apply(BootstrapSignal::ServerList);
    assert_eq!(client.route, UiRoute::ServerSelect);

    client.apply(BootstrapSignal::Session(SessionEvent::LoginSuccess));
    assert_eq!(client.route, UiRoute::CharacterSelect);
    assert!(!client.bootstrap.character_list_ready());

    client.apply(BootstrapSignal::CharacterList);
    assert_eq!(client.route, UiRoute::CharacterSelect);
    assert!(client.bootstrap.character_list_ready());

    client.apply(BootstrapSignal::JoinMap(1));
    assert_eq!(client.route, UiRoute::Loading);

    assert_eq!(client.bootstrap.take_pending_world_map(), Some(1));
    client.bootstrap.finish_world_bootstrap(&mut client.route, Some(Ok(())));

    assert_eq!(client.route, UiRoute::World);
    assert!(
        client.bootstrap.last_error().is_none(),
        "unexpected bootstrap error: {:?}",
        client.bootstrap.last_error()
    );
}
