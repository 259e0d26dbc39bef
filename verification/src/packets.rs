//! Server packets that the bootstrap worker reads: the frame as the
//! transport hands it over, the rosters and letters it carries, and the
//! signals that a frame turns into.

use vstd::prelude::*;
use vstd::slice::slice_subrange;

use crate::text::{chars_eq_str, chars_of, decimal, normalize, normalized, push_decimal, push_str, string_of};
use crate::ui::{FriendPresence, GuildMemberRole};

verus! {

/// One decoded frame: its head code, its sub code, and the bytes after them.
#[derive(Debug, Clone, PartialEq, Eq)]
pub struct PacketFrame {
    pub headcode: u8,
    pub subcode: u8,
    pub payload: Vec<u8>,
}

/// A friend on the roster.
#[derive(Debug, Clone, PartialEq, Eq)]
pub struct FriendEntry {
    pub name: String,
    pub server: Option<u8>,
    pub presence: FriendPresence,
    pub selected: bool,
}

/// A member on the guild roster.
#[derive(Debug, Clone, PartialEq, Eq)]
pub struct GuildMemberEntry {
    pub name: String,
    pub number: u8,
    pub server: Option<u8>,
    pub role: GuildMemberRole,
    pub selected: bool,
    pub is_self: bool,
}

/// A member of the party, as the party list reports it.
#[derive(Debug, Clone, PartialEq, Eq)]
pub struct PartyMemberInfo {
    pub name: String,
    pub number: u8,
    pub map: u8,
    pub x: u8,
    pub y: u8,
    pub curr_hp: i32,
    pub max_hp: i32,
    pub step_hp: u8,
}

/// A letter in the mailbox.
#[derive(Debug, Clone, PartialEq, Eq)]
pub struct MailLetterEntry {
    pub id: u32,
    pub sender: String,
    pub subject: String,
    pub date: String,
    pub time: String,
    pub read: bool,
}

/// The friend roster as the server sent it.
#[derive(Debug, Clone, PartialEq, Eq)]
pub struct FriendRosterSnapshot {
    pub memo_count: u8,
    pub max_memo: u8,
    pub count: u8,
    pub friends: Vec<FriendEntry>,
}

/// The guild roster as the server sent it.
#[derive(Debug, Clone, PartialEq, Eq)]
pub struct GuildRosterSnapshot {
    pub result: u8,
    pub count: u8,
    pub total_score: u32,
    pub score: u8,
    pub rival_guild_name: Option<String>,
    pub members: Vec<GuildMemberEntry>,
}

/// The party list as the server sent it.
#[derive(Debug, Clone, PartialEq, Eq)]
pub struct PartyListSnapshot {
    pub count: u8,
    pub members: Vec<PartyMemberInfo>,
}

/// The health steps of the party members, as the server sent them.
#[derive(Debug, Clone, PartialEq, Eq)]
pub struct PartyInfoSnapshot {
    pub count: u8,
    pub step_hp_values: Vec<u8>,
}

/// The player's standing in the gens ranking.
#[derive(Debug, Clone, Copy, PartialEq, Eq, Structural)]
pub struct GensRankingInfo {
    pub influence: u8,
    pub ranking: i32,
    pub gens_class: i32,
    pub contribution_point: i32,
    pub next_contribution_point: i32,
}

/// A character on the map moved: where it is headed, or where it now stands.
#[derive(Debug, Clone, Copy, PartialEq, Eq, Structural)]
pub enum MovementUpdate {
    Character { key: u16, target_x: u8, target_y: u8 },
    Position { key: u16, position_x: u8, position_y: u8 },
}

/// The bytes of one friend entry.
pub const FRIEND_LIST_ENTRY_LEN: usize = 11;

/// The bytes of one guild member entry.
pub const GUILD_LIST_ENTRY_LEN: usize = 13;

/// The bytes of one party member entry.
pub const PARTY_LIST_ENTRY_LEN: usize = 24;

/// The bytes of one party health entry.
pub const PARTY_INFO_ENTRY_LEN: usize = 1;

/// The widths of the text fields of a letter.
pub const MAX_MAIL_RECIPIENT_LENGTH: usize = 10;

pub const MAX_MAIL_DATE_LENGTH: usize = 10;

pub const MAX_MAIL_TIME_LENGTH: usize = 8;

pub const MAX_MAIL_SUBJECT_LENGTH: usize = 60;

/// The unused bytes between a letter's time and its subject.
pub const LETTER_ALERT_RESERVED_LEN: usize = 11;

/// The bytes of a letter alert.
pub const LETTER_ALERT_PAYLOAD_LEN: usize = 103;

// ---------------------------------------------------------------------------
// Fixed-width names

/// The position of the first zero byte, or the length when there is none.
pub open spec fn first_zero_from(b: Seq<u8>, i: int) -> int
    decreases b.len() - i,
{
    if i >= b.len() {
        b.len() as int
    } else if b[i] == 0 {
        i
    } else {
        first_zero_from(b, i + 1)
    }
}

/// The bytes before the first zero byte.
pub open spec fn until_nul(b: Seq<u8>) -> Seq<u8> {
    b.take(first_zero_from(b, 0))
}

/// What `String::from_utf8_lossy` makes of a byte sequence.
pub uninterp spec fn lossy_utf8(bytes: Seq<u8>) -> Seq<char>;

/// Whether every byte is an ASCII character.
pub open spec fn all_ascii(b: Seq<u8>) -> bool {
    forall|i: int| 0 <= i < b.len() ==> #[trigger] b[i] < 0x80
}

/// ASCII bytes read as the characters they stand for.
pub open spec fn ascii_text(b: Seq<u8>) -> Seq<char> {
    b.map_values(|x: u8| x as char)
}

/// A name in a fixed-width field: the bytes before the first zero byte,
/// decoded as UTF-8 with invalid sequences replaced.
pub open spec fn legacy_name(b: Seq<u8>) -> Seq<char> {
    lossy_utf8(until_nul(b))
}

/// `String::from_utf8_lossy` (made into an owned `String`). Its result is
/// named by `lossy_utf8`; of it the contract says only what the
/// documentation gives plainly: ASCII bytes, being valid UTF-8, decode to
/// the characters they stand for. How other sequences decode is left unsaid.
#[verifier::external_body]
fn utf8_lossy_string(bytes: &[u8]) -> (r: String)
    ensures
        r@ == lossy_utf8(bytes@),
        all_ascii(bytes@) ==> r@ == ascii_text(bytes@),
{
    String::from_utf8_lossy(bytes).into_owned()
}

proof fn lemma_first_zero(b: Seq<u8>, k: int, i: int)
    requires
        0 <= k <= i <= b.len(),
        forall|j: int| k <= j < i ==> b[j] != 0,
        i == b.len() || b[i] == 0,
    ensures
        first_zero_from(b, k) == i,
    decreases i - k,
{
    if k < i {
        lemma_first_zero(b, k + 1, i);
    }
}

/// Decodes a fixed-width name: the bytes up to the first zero byte, as
/// UTF-8 with invalid sequences replaced.
pub fn decode_legacy_name(bytes: &[u8]) -> (r: String)
    ensures
        r@ == legacy_name(bytes@),
        all_ascii(until_nul(bytes@)) ==> r@ == ascii_text(until_nul(bytes@)),
{
    let mut end: usize = 0;
    while end < bytes.len() && bytes[end] != 0
        invariant
            end <= bytes@.len(),
            forall|j: int| 0 <= j < end ==> bytes@[j] != 0,
        decreases bytes.len() - end,
    {
        end = end + 1;
    }
    proof {
        lemma_first_zero(bytes@, 0, end as int);
    }
    let prefix = slice_subrange(bytes, 0, end);
    assert(prefix@ =~= until_nul(bytes@));
    utf8_lossy_string(prefix)
}

// ---------------------------------------------------------------------------
// Small field decoders

/// The server a friend is on, counted from one; none when the friend is
/// offline, busy or locked out.
pub open spec fn friend_server(server: u8) -> Option<u8> {
    if server >= 0xFC {
        None
    } else {
        Some((server + 1) as u8)
    }
}

pub open spec fn friend_presence(server: u8) -> FriendPresence {
    if server == 0xFD {
        FriendPresence::Busy
    } else if server >= 0xFC {
        FriendPresence::Offline
    } else {
        FriendPresence::Online
    }
}

/// The server a guild member is on: the low seven bits, when the high bit
/// says that the member is connected.
pub open spec fn guild_server(current_server: u8) -> Option<u8> {
    if current_server < 0x80 {
        None
    } else {
        Some((current_server - 0x80) as u8)
    }
}

pub open spec fn guild_role(status: u8) -> GuildMemberRole {
    if status == 128 {
        GuildMemberRole::Master
    } else if status == 64 {
        GuildMemberRole::SubMaster
    } else if status == 32 {
        GuildMemberRole::BattleMaster
    } else {
        GuildMemberRole::Member
    }
}

/// The server of a friend entry, counted from one.
pub fn friend_entry_server(server: u8) -> (r: Option<u8>)
    ensures
        r == friend_server(server),
{
    match server {
        0xFC | 0xFD | 0xFE | 0xFF => None,
        value => Some(value + 1),
    }
}

pub fn friend_presence_from_server(server: u8) -> (r: FriendPresence)
    ensures
        r == friend_presence(server),
{
    match server {
        0xFD => FriendPresence::Busy,
        0xFC | 0xFE | 0xFF => FriendPresence::Offline,
        _ => FriendPresence::Online,
    }
}

pub fn guild_member_server(current_server: u8) -> (r: Option<u8>)
    ensures
        r == guild_server(current_server),
{
    if current_server & 0x80 == 0 {
        assert(current_server & 0x80 == 0 ==> current_server < 0x80) by (bit_vector);
        return None;
    }
    assert(current_server & 0x80 != 0 ==> current_server & 0x7F == current_server - 0x80)
        by (bit_vector);
    Some(current_server & 0x7F)
}

pub fn guild_member_role(status: u8) -> (r: GuildMemberRole)
    ensures
        r == guild_role(status),
{
    match status {
        128 => GuildMemberRole::Master,
        64 => GuildMemberRole::SubMaster,
        32 => GuildMemberRole::BattleMaster,
        _ => GuildMemberRole::Member,
    }
}

/// The language byte that the character list request carries for a locale:
/// Portuguese 1, Spanish 2, anything else 0. The locale is trimmed and
/// compared without regard to ASCII case.
pub open spec fn language_byte(locale: Seq<char>) -> u8 {
    let key = normalized(locale);
    if key == "pt"@ || key == "por"@ {
        1
    } else if key == "es"@ || key == "spn"@ {
        2
    } else {
        0
    }
}

pub fn legacy_language_byte(locale: &str) -> (r: u8)
    ensures
        r == language_byte(locale@),
{
    let key = normalize(&chars_of(locale));
    if chars_eq_str(&key, "pt") || chars_eq_str(&key, "por") {
        1
    } else if chars_eq_str(&key, "es") || chars_eq_str(&key, "spn") {
        2
    } else {
        0
    }
}

// ---------------------------------------------------------------------------
// Little-endian numbers

pub open spec fn le_u16(lo: u8, hi: u8) -> int {
    lo + 256 * hi
}

pub open spec fn le_u32(b0: u8, b1: u8, b2: u8, b3: u8) -> int {
    b0 + 256 * b1 + 65536 * b2 + 16777216 * b3
}

/// Four bytes read as a little-endian two's complement number.
pub open spec fn le_i32(b0: u8, b1: u8, b2: u8, b3: u8) -> int {
    let u = le_u32(b0, b1, b2, b3);
    if u < 0x8000_0000 {
        u
    } else {
        u - 0x1_0000_0000
    }
}

fn read_u16(p: &Vec<u8>, at: usize) -> (r: u32)
    requires
        at + 2 <= p.len(),
    ensures
        r == le_u16(p@[at as int], p@[at + 1]),
{
    (p[at] as u32) + (p[at + 1] as u32) * 256
}

fn read_u32(p: &Vec<u8>, at: usize) -> (r: u32)
    requires
        at + 4 <= p.len(),
    ensures
        r == le_u32(p@[at as int], p@[at + 1], p@[at + 2], p@[at + 3]),
{
    (p[at] as u32) + (p[at + 1] as u32) * 256 + (p[at + 2] as u32) * 65536 + (p[at + 3] as u32)
        * 16777216
}

fn read_i32(p: &Vec<u8>, at: usize) -> (r: i32)
    requires
        at + 4 <= p.len(),
    ensures
        r == le_i32(p@[at as int], p@[at + 1], p@[at + 2], p@[at + 3]),
{
    let u = read_u32(p, at);
    if u < 0x8000_0000 {
        u as i32
    } else {
        ((u - 0x8000_0000) as i32) + i32::MIN
    }
}

// ---------------------------------------------------------------------------
// Roster and letter decoders

/// The message of a packet that is shorter than its header announces.
pub open spec fn truncated_message(kind: Seq<char>, unit: Seq<char>, expected: nat, found: nat) -> Seq<
    char,
> {
    kind + " packet truncated: expected "@ + decimal(expected) + unit + " bytes, found "@ + decimal(
        found,
    )
}

fn truncated_error(kind: &str, unit: &str, expected: usize, found: usize) -> (r: String)
    ensures
        r@ == truncated_message(kind@, unit@, expected as nat, found as nat),
{
    let mut v: Vec<char> = Vec::new();
    push_str(&mut v, kind);
    push_str(&mut v, " packet truncated: expected ");
    push_decimal(&mut v, expected as u64);
    push_str(&mut v, unit);
    push_str(&mut v, " bytes, found ");
    push_decimal(&mut v, found as u64);
    string_of(&v)
}

/// Whether `e` is the friend entry that starts at `at` in `p`.
pub open spec fn friend_entry_from(e: FriendEntry, p: Seq<u8>, at: int) -> bool {
    &&& e.name@ == legacy_name(p.subrange(at, at + 10))
    &&& e.server == friend_server(p[at + 10])
    &&& e.presence == friend_presence(p[at + 10])
    &&& !e.selected
}

/// What a friend list frame decodes to: the memo count from the sub code,
/// then the largest memo number, the friend count and one entry of eleven
/// bytes per friend (a ten-byte name and the server byte).
pub open spec fn friend_roster_result(
    frame: PacketFrame,
    r: Result<FriendRosterSnapshot, String>,
) -> bool {
    let p = frame.payload@;
    if p.len() < 2 {
        r matches Err(e) && e@ == "friend list packet missing roster header"@
    } else if p.len() - 2 < p[1] * 11 {
        r matches Err(e) && e@ == truncated_message(
            "friend list"@,
            " roster"@,
            (p[1] * 11) as nat,
            (p.len() - 2) as nat,
        )
    } else {
        &&& r matches Ok(s)
        &&& s.memo_count == frame.subcode
        &&& s.max_memo == p[0]
        &&& s.count == p[1]
        &&& s.friends@.len() == p[1]
        &&& forall|i: int|
            0 <= i < p[1] ==> friend_entry_from(#[trigger] s.friends@[i], p, 2 + 11 * i)
    }
}

pub fn decode_friend_roster(frame: &PacketFrame) -> (r: Result<FriendRosterSnapshot, String>)
    ensures
        friend_roster_result(*frame, r),
{
    let payload = &frame.payload;
    if payload.len() < 2 {
        return Err("friend list packet missing roster header".to_string());
    }
    let max_memo = payload[0];
    let count = payload[1];
    let expected_len = (count as usize) * FRIEND_LIST_ENTRY_LEN;
    let found = payload.len() - 2;
    if found < expected_len {
        return Err(truncated_error("friend list", " roster", expected_len, found));
    }
    let mut friends: Vec<FriendEntry> = Vec::new();
    let mut i: usize = 0;
    while i < count as usize
        invariant
            payload@ == frame.payload@,
            count == payload@[1],
            payload@.len() >= 2 + 11 * count,
            i <= count,
            friends@.len() == i,
            forall|j: int|
                0 <= j < i ==> friend_entry_from(#[trigger] friends@[j], payload@, 2 + 11 * j),
        decreases count - i,
    {
        let at = 2 + i * FRIEND_LIST_ENTRY_LEN;
        let name = decode_legacy_name(slice_subrange(payload.as_slice(), at, at + 10));
        let server = payload[at + 10];
        friends.push(
            FriendEntry {
                name,
                server: friend_entry_server(server),
                presence: friend_presence_from_server(server),
                selected: false,
            },
        );
        i = i + 1;
    }
    Ok(FriendRosterSnapshot { memo_count: frame.subcode, max_memo, count, friends })
}

/// Whether `e` is the guild member entry that starts at `at` in `p`.
pub open spec fn guild_member_from(e: GuildMemberEntry, p: Seq<u8>, at: int) -> bool {
    &&& e.name@ == legacy_name(p.subrange(at, at + 10))
    &&& e.number == p[at + 10]
    &&& e.server == guild_server(p[at + 11])
    &&& e.role == guild_role(p[at + 12])
    &&& !e.selected
    &&& !e.is_self
}

/// What a guild list frame decodes to: the result from the sub code, then
/// the member count, the total score (four bytes, little-endian), the score,
/// an eight-byte rival guild name (none when empty) and one entry of
/// thirteen bytes per member (name, number, server byte, status byte).
pub open spec fn guild_roster_result(
    frame: PacketFrame,
    r: Result<GuildRosterSnapshot, String>,
) -> bool {
    let p = frame.payload@;
    if p.len() < 14 {
        r matches Err(e) && e@ == "guild list packet missing roster header"@
    } else if p.len() - 14 < p[0] * 13 {
        r matches Err(e) && e@ == truncated_message(
            "guild list"@,
            " roster"@,
            (p[0] * 13) as nat,
            (p.len() - 14) as nat,
        )
    } else {
        let rival = legacy_name(p.subrange(6, 14));
        &&& r matches Ok(s)
        &&& s.result == frame.subcode
        &&& s.count == p[0]
        &&& s.total_score == le_u32(p[1], p[2], p[3], p[4])
        &&& s.score == p[5]
        &&& (if rival.len() == 0 {
            s.rival_guild_name is None
        } else {
            s.rival_guild_name matches Some(n) && n@ == rival
        })
        &&& s.members@.len() == p[0]
        &&& forall|i: int|
            0 <= i < p[0] ==> guild_member_from(#[trigger] s.members@[i], p, 14 + 13 * i)
    }
}

pub fn decode_guild_roster(frame: &PacketFrame) -> (r: Result<GuildRosterSnapshot, String>)
    ensures
        guild_roster_result(*frame, r),
{
    let payload = &frame.payload;
    if payload.len() < 14 {
        return Err("guild list packet missing roster header".to_string());
    }
    let count = payload[0];
    let total_score = read_u32(payload, 1);
    let score = payload[5];
    let rival_guild_name = decode_legacy_name(slice_subrange(payload.as_slice(), 6, 14));
    let expected_len = (count as usize) * GUILD_LIST_ENTRY_LEN;
    let found = payload.len() - 14;
    if found < expected_len {
        return Err(truncated_error("guild list", " roster", expected_len, found));
    }
    let mut members: Vec<GuildMemberEntry> = Vec::new();
    let mut i: usize = 0;
    while i < count as usize
        invariant
            payload@ == frame.payload@,
            count == payload@[0],
            payload@.len() >= 14 + 13 * count,
            i <= count,
            members@.len() == i,
            forall|j: int|
                0 <= j < i ==> guild_member_from(#[trigger] members@[j], payload@, 14 + 13 * j),
        decreases count - i,
    {
        let at = 14 + i * GUILD_LIST_ENTRY_LEN;
        let name = decode_legacy_name(slice_subrange(payload.as_slice(), at, at + 10));
        members.push(
            GuildMemberEntry {
                name,
                number: payload[at + 10],
                server: guild_member_server(payload[at + 11]),
                role: guild_member_role(payload[at + 12]),
                selected: false,
                is_self: false,
            },
        );
        i = i + 1;
    }
    let rival = if rival_guild_name.as_str().unicode_len() == 0 {
        None
    } else {
        Some(rival_guild_name)
    };
    Ok(
        GuildRosterSnapshot {
            result: frame.subcode,
            count,
            total_score,
            score,
            rival_guild_name: rival,
            members,
        },
    )
}

/// What a letter alert decodes to. The payload holds the letter number (two
/// bytes, little-endian), the sender, the date, one spare byte, the time,
/// reserved bytes, the subject and the read flag (read only when it is 1).
pub open spec fn letter_alert_result(frame: PacketFrame, r: Result<MailLetterEntry, String>) -> bool {
    let p = frame.payload@;
    if p.len() < 103 {
        r matches Err(e) && e@ == truncated_message(
            "letter alert"@,
            ""@,
            103,
            p.len() as nat,
        )
    } else {
        &&& r matches Ok(l)
        &&& l.id == le_u16(p[0], p[1])
        &&& l.sender@ == legacy_name(p.subrange(2, 12))
        &&& l.date@ == legacy_name(p.subrange(12, 22))
        &&& l.time@ == legacy_name(p.subrange(23, 31))
        &&& l.subject@ == legacy_name(p.subrange(42, 102))
        &&& l.read == (p[102] == 1)
    }
}

pub fn decode_letter_alert(frame: &PacketFrame) -> (r: Result<MailLetterEntry, String>)
    ensures
        letter_alert_result(*frame, r),
        frame.payload@.len() >= LETTER_ALERT_PAYLOAD_LEN ==> (r matches Ok(l) && l.id
            == frame.payload@[0] + 256 * frame.payload@[1] && (l.read <==> frame.payload@[102]
            == 1)),
        frame.payload@.len() < LETTER_ALERT_PAYLOAD_LEN ==> r is Err,
{
    let payload = &frame.payload;
    if payload.len() < LETTER_ALERT_PAYLOAD_LEN {
        return Err(truncated_error("letter alert", "", LETTER_ALERT_PAYLOAD_LEN, payload.len()));
    }
    let index = read_u16(payload, 0);
    let name_start: usize = 2;
    let date_start = name_start + MAX_MAIL_RECIPIENT_LENGTH;
    let time_start = date_start + MAX_MAIL_DATE_LENGTH + 1;
    let subject_start = time_start + MAX_MAIL_TIME_LENGTH + LETTER_ALERT_RESERVED_LEN;
    let read_index = subject_start + MAX_MAIL_SUBJECT_LENGTH;
    let bytes = payload.as_slice();
    Ok(
        MailLetterEntry {
            id: index,
            sender: decode_legacy_name(slice_subrange(bytes, name_start, date_start)),
            subject: decode_legacy_name(slice_subrange(bytes, subject_start, read_index)),
            date: decode_legacy_name(
                slice_subrange(bytes, date_start, date_start + MAX_MAIL_DATE_LENGTH),
            ),
            time: decode_legacy_name(
                slice_subrange(bytes, time_start, time_start + MAX_MAIL_TIME_LENGTH),
            ),
            read: payload[read_index] == 1,
        },
    )
}

/// A letter alert long enough to hold a letter always decodes to one, and
/// the letter is marked read exactly when the byte after its subject (the
/// last byte of the alert) is 1; a shorter alert never decodes.
pub proof fn lemma_letter_read_flag(frame: PacketFrame, r: Result<MailLetterEntry, String>)
    requires
        letter_alert_result(frame, r),
    ensures
        frame.payload@.len() >= 103 ==> (r matches Ok(l) && (l.read <==> frame.payload@[102]
            == 1)),
        frame.payload@.len() < 103 ==> r is Err,
{
}

/// What a letter deletion result decodes to: the number of the deleted
/// letter when the result byte is 1, nothing otherwise.
pub open spec fn letter_delete_result(frame: PacketFrame, r: Result<Option<u32>, String>) -> bool {
    let p = frame.payload@;
    if p.len() < 3 {
        r matches Err(e) && e@ == "letter delete result packet missing result header"@
    } else if p[0] == 1 {
        r matches Ok(Some(id)) && id == le_u16(p[1], p[2])
    } else {
        r matches Ok(None)
    }
}

pub fn decode_letter_delete_result(frame: &PacketFrame) -> (r: Result<Option<u32>, String>)
    ensures
        letter_delete_result(*frame, r),
{
    let payload = &frame.payload;
    if payload.len() < 3 {
        return Err("letter delete result packet missing result header".to_string());
    }
    let result = payload[0];
    let index = read_u16(payload, 1);
    if result == 1 {
        Ok(Some(index))
    } else {
        Ok(None)
    }
}

/// Whether `m` is the party member entry that starts at `at` in `p`.
pub open spec fn party_member_from(m: PartyMemberInfo, p: Seq<u8>, at: int) -> bool {
    &&& m.name@ == legacy_name(p.subrange(at, at + 10))
    &&& m.number == p[at + 10]
    &&& m.map == p[at + 11]
    &&& m.x == p[at + 12]
    &&& m.y == p[at + 13]
    &&& m.curr_hp == le_i32(p[at + 16], p[at + 17], p[at + 18], p[at + 19])
    &&& m.max_hp == le_i32(p[at + 20], p[at + 21], p[at + 22], p[at + 23])
    &&& m.step_hp == 0
}

/// What a party list frame decodes to: after one unused byte, the member
/// count and one entry of twenty-four bytes per member.
pub open spec fn party_list_result(frame: PacketFrame, r: Result<PartyListSnapshot, String>) -> bool {
    let p = frame.payload@;
    if p.len() < 2 {
        r matches Err(e) && e@ == "party list packet missing roster header"@
    } else if p.len() - 2 < p[1] * 24 {
        r matches Err(e) && e@ == truncated_message(
            "party list"@,
            " roster"@,
            (p[1] * 24) as nat,
            (p.len() - 2) as nat,
        )
    } else {
        &&& r matches Ok(s)
        &&& s.count == p[1]
        &&& s.members@.len() == p[1]
        &&& forall|i: int|
            0 <= i < p[1] ==> party_member_from(#[trigger] s.members@[i], p, 2 + 24 * i)
    }
}

pub fn decode_party_list(frame: &PacketFrame) -> (r: Result<PartyListSnapshot, String>)
    ensures
        party_list_result(*frame, r),
{
    let payload = &frame.payload;
    if payload.len() < 2 {
        return Err("party list packet missing roster header".to_string());
    }
    let count = payload[1];
    let expected_len = (count as usize) * PARTY_LIST_ENTRY_LEN;
    let found = payload.len() - 2;
    if found < expected_len {
        return Err(truncated_error("party list", " roster", expected_len, found));
    }
    let mut members: Vec<PartyMemberInfo> = Vec::new();
    let mut i: usize = 0;
    while i < count as usize
        invariant
            payload@ == frame.payload@,
            count == payload@[1],
            payload@.len() >= 2 + 24 * count,
            i <= count,
            members@.len() == i,
            forall|j: int|
                0 <= j < i ==> party_member_from(#[trigger] members@[j], payload@, 2 + 24 * j),
        decreases count - i,
    {
        let at = 2 + i * PARTY_LIST_ENTRY_LEN;
        let name = decode_legacy_name(slice_subrange(payload.as_slice(), at, at + 10));
        members.push(
            PartyMemberInfo {
                name,
                number: payload[at + 10],
                map: payload[at + 11],
                x: payload[at + 12],
                y: payload[at + 13],
                curr_hp: read_i32(payload, at + 16),
                max_hp: read_i32(payload, at + 20),
                step_hp: 0,
            },
        );
        i = i + 1;
    }
    Ok(PartyListSnapshot { count, members })
}

/// What a party health frame decodes to: the count, then one byte per
/// member whose low four bits are its health step.
pub open spec fn party_info_result(frame: PacketFrame, r: Result<PartyInfoSnapshot, String>) -> bool {
    let p = frame.payload@;
    if p.len() == 0 {
        r matches Err(e) && e@ == "party info packet missing info header"@
    } else if p.len() - 1 < p[0] {
        r matches Err(e) && e@ == truncated_message(
            "party info"@,
            " info"@,
            p[0] as nat,
            (p.len() - 1) as nat,
        )
    } else {
        &&& r matches Ok(s)
        &&& s.count == p[0]
        &&& s.step_hp_values@.len() == p[0]
        &&& forall|i: int| 0 <= i < p[0] ==> #[trigger] s.step_hp_values@[i] == p[1 + i] % 16
    }
}

pub fn decode_party_info(frame: &PacketFrame) -> (r: Result<PartyInfoSnapshot, String>)
    ensures
        party_info_result(*frame, r),
{
    let payload = &frame.payload;
    if payload.len() == 0 {
        return Err("party info packet missing info header".to_string());
    }
    let count = payload[0];
    let expected_len = (count as usize) * PARTY_INFO_ENTRY_LEN;
    let found = payload.len() - 1;
    if found < expected_len {
        return Err(truncated_error("party info", " info", expected_len, found));
    }
    let mut values: Vec<u8> = Vec::new();
    let mut i: usize = 0;
    while i < count as usize
        invariant
            payload@ == frame.payload@,
            count == payload@[0],
            payload@.len() >= 1 + count,
            i <= count,
            values@.len() == i,
            forall|j: int| 0 <= j < i ==> #[trigger] values@[j] == payload@[1 + j] % 16,
        decreases count - i,
    {
        let v = payload[1 + i];
        assert(v & 0x0f == v % 16) by (bit_vector);
        values.push(v & 0x0f);
        i = i + 1;
    }
    Ok(PartyInfoSnapshot { count, step_hp_values: values })
}

} // verus!
