//! What the on-screen shells decide and write: the compact text layout of
//! the social and activity shells (paragraphs and lists separated by a line
//! break, the last line unterminated), when each shell shows, when it asks
//! the server for live data, and how a live roster is laid over a screen.

use vstd::prelude::*;

use crate::bootstrap::opt_text;
use crate::packets::{FriendEntry, FriendRosterSnapshot, GuildMemberEntry, GuildRosterSnapshot};
use crate::session::SessionPhase;
use crate::text::{chars_of, decimal, push_decimal, push_str, string_of, string_push};
use crate::ui::{FriendPresence, FriendScreenState, GuildMemberRole, GuildScreenState, UiRoute};

verus! {

// ---------------------------------------------------------------------------
// Body layout

/// Appends the characters of `s` to `out`.
pub(crate) fn append_str(out: &mut String, s: &str)
    ensures
        final(out)@ == old(out)@ + s@,
{
    let chars = chars_of(s);
    let mut i: usize = 0;
    while i < chars.len()
        invariant
            chars@ == s@,
            i <= chars@.len(),
            out@ == old(out)@ + s@.take(i as int),
        decreases chars.len() - i,
    {
        string_push(out, chars[i]);
        assert(s@.take(i + 1) =~= s@.take(i as int).push(s@[i as int]));
        i = i + 1;
    }
    assert(s@.take(s@.len() as int) =~= s@);
}

/// The text so far, followed by a line break when it is not empty.
pub open spec fn separated(out: Seq<char>) -> Seq<char> {
    if out.len() == 0 {
        out
    } else {
        out.push('\n')
    }
}

/// A paragraph: its heading on one line and its text below.
pub open spec fn with_paragraph(out: Seq<char>, heading: Seq<char>, text: Seq<char>) -> Seq<char> {
    separated(out) + heading + "\n"@ + text
}

/// Each value on a line of its own, after a dash, every line ended.
pub open spec fn bullet_lines(values: Seq<Seq<char>>) -> Seq<char>
    decreases values.len(),
{
    if values.len() == 0 {
        Seq::empty()
    } else {
        bullet_lines(values.drop_last()) + "- "@ + values.last() + "\n"@
    }
}

/// A list: its heading, then one dashed line per value, or the empty label
/// (`<none>` when there is none) when there are no values.
pub open spec fn with_lines(
    out: Seq<char>,
    heading: Seq<char>,
    values: Seq<Seq<char>>,
    empty_label: Option<Seq<char>>,
) -> Seq<char> {
    let head = separated(out) + heading + "\n"@;
    if values.len() == 0 {
        head + match empty_label {
            Some(l) => l,
            None => "<none>"@,
        }
    } else {
        (head + bullet_lines(values)).drop_last()
    }
}

/// The characters of each string.
pub open spec fn texts(values: Seq<String>) -> Seq<Seq<char>> {
    values.map_values(|v: String| v@)
}

/// Appends a paragraph, separated from what came before by a line break.
pub fn push_paragraph(output: &mut String, heading: &str, text: &str)
    ensures
        final(output)@ == with_paragraph(old(output)@, heading@, text@),
{
    if output.as_str().unicode_len() > 0 {
        string_push(output, '\n');
    }
    append_str(output, heading);
    string_push(output, '\n');
    append_str(output, text);
    proof {
        reveal_strlit("\n");
    }
    assert(output@ =~= with_paragraph(old(output)@, heading@, text@));
}

/// Appends a list, separated from what came before by a line break.
pub fn push_lines(output: &mut String, heading: &str, values: &Vec<String>, empty_label: Option<&str>)
    ensures
        final(output)@ == with_lines(
            old(output)@,
            heading@,
            texts(values@),
            match empty_label {
                Some(l) => Some(l@),
                None => None,
            },
        ),
{
    if output.as_str().unicode_len() > 0 {
        string_push(output, '\n');
    }
    append_str(output, heading);
    string_push(output, '\n');
    let ghost head = output@;
    proof {
        reveal_strlit("\n");
        reveal_strlit("- ");
    }
    assert(head =~= separated(old(output)@) + heading@ + "\n"@);
    if values.len() == 0 {
        match empty_label {
            Some(label) => append_str(output, label),
            None => append_str(output, "<none>"),
        }
        return;
    }
    let mut i: usize = 0;
    while i < values.len()
        invariant
            i <= values@.len(),
            "\n"@ == seq!['\n'],
            "- "@ == seq!['-', ' '],
            output@ == head + bullet_lines(texts(values@).take(i as int)),
        decreases values.len() - i,
    {
        append_str(output, "- ");
        append_str(output, values[i].as_str());
        string_push(output, '\n');
        proof {
            let t = texts(values@).take(i + 1);
            assert(t.drop_last() =~= texts(values@).take(i as int));
            assert(t.last() == values@[i as int]@);
            assert(output@ =~= head + bullet_lines(t));
        }
        i = i + 1;
    }
    assert(texts(values@).take(values@.len() as int) =~= texts(values@));
    let mut text = output.clone();
    assert(text@ == output@);
    crate::chat::string_pop(&mut text);
    *output = text;
}

// ---------------------------------------------------------------------------
// When shells show and ask for live data

/// Whether the login-flow shell shows on a route: boot, loading, login,
/// server selection, options, character selection and creation, error.
pub open spec fn auth_route(route: UiRoute) -> bool {
    ||| route == UiRoute::Boot
    ||| route == UiRoute::Loading
    ||| route == UiRoute::Login
    ||| route == UiRoute::ServerSelect
    ||| route == UiRoute::Options
    ||| route == UiRoute::CharacterSelect
    ||| route == UiRoute::CharacterCreate
    ||| route == UiRoute::Error
}

pub fn auth_shell_visible(route: UiRoute) -> (r: bool)
    ensures
        r == auth_route(route),
{
    match route {
        UiRoute::Boot | UiRoute::Loading | UiRoute::Login | UiRoute::ServerSelect
        | UiRoute::Options | UiRoute::CharacterSelect | UiRoute::CharacterCreate
        | UiRoute::Error => true,
        _ => false,
    }
}

/// Whether an in-game shell that belongs to `shell_route` shows: its route
/// is the current one and the session is not disconnected.
pub fn shell_visible(shell_route: UiRoute, route: UiRoute, phase: SessionPhase) -> (r: bool)
    ensures
        r == (route == shell_route && phase != SessionPhase::Disconnected),
{
    route == shell_route && phase != SessionPhase::Disconnected
}

/// Whether the friend shell asks the server for the friend list: once per
/// logged-in activation.
pub fn friend_shell_should_queue_live_request(phase: SessionPhase, requested: bool) -> (r: bool)
    ensures
        r == (phase == SessionPhase::LoggedIn && !requested),
{
    phase == SessionPhase::LoggedIn && !requested
}

/// Whether the guild shell asks the server for the guild list: once per
/// logged-in activation.
pub fn guild_shell_should_queue_live_request(phase: SessionPhase, requested: bool) -> (r: bool)
    ensures
        r == (phase == SessionPhase::LoggedIn && !requested),
{
    phase == SessionPhase::LoggedIn && !requested
}

/// The guild screen that a session phase shows when nothing overrides it.
pub fn guild_screen_state_for_phase(phase: SessionPhase) -> (r: GuildScreenState)
    ensures
        r == (if phase == SessionPhase::LoggedIn {
            GuildScreenState::Summary
        } else {
            GuildScreenState::NoGuild
        }),
{
    match phase {
        SessionPhase::ReadyForLogin => GuildScreenState::NoGuild,
        SessionPhase::LoggedIn => GuildScreenState::Summary,
        SessionPhase::Disconnected => GuildScreenState::NoGuild,
    }
}

// ---------------------------------------------------------------------------
// Live rosters laid over a screen

/// The first position at or after `i` whose name is `wanted`, or the length.
pub open spec fn first_named_from(names: Seq<Seq<char>>, wanted: Seq<char>, i: int) -> int
    decreases names.len() - i,
{
    if i >= names.len() {
        names.len() as int
    } else if names[i] == wanted {
        i
    } else {
        first_named_from(names, wanted, i + 1)
    }
}

/// The first position whose name is the wanted one, or the length.
pub open spec fn first_named(names: Seq<Seq<char>>, wanted: Option<Seq<char>>) -> int {
    match wanted {
        Some(w) => first_named_from(names, w, 0),
        None => names.len() as int,
    }
}

/// Whether the entry at `i` is marked selected: it carries the wanted name,
/// or no entry does and it is the first one.
pub open spec fn marked(names: Seq<Seq<char>>, wanted: Option<Seq<char>>, i: int) -> bool {
    ||| wanted == Some(names[i])
    ||| (i == 0 && first_named(names, wanted) == names.len())
}

/// The first marked entry, or -1 when there are no entries.
pub open spec fn selected_position(names: Seq<Seq<char>>, wanted: Option<Seq<char>>) -> int {
    let first = first_named(names, wanted);
    if first < names.len() {
        first
    } else if names.len() > 0 {
        0
    } else {
        -1
    }
}

proof fn lemma_first_named(names: Seq<Seq<char>>, wanted: Seq<char>, k: int, i: int)
    requires
        0 <= k <= i <= names.len(),
        forall|j: int| k <= j < i ==> names[j] != wanted,
        i == names.len() || names[i] == wanted,
    ensures
        first_named_from(names, wanted, k) == i,
    decreases i - k,
{
    if k < i {
        lemma_first_named(names, wanted, k + 1, i);
    }
}

pub open spec fn friend_names(fs: Seq<FriendEntry>) -> Seq<Seq<char>> {
    fs.map_values(|f: FriendEntry| f.name@)
}

pub open spec fn member_names(ms: Seq<GuildMemberEntry>) -> Seq<Seq<char>> {
    ms.map_values(|m: GuildMemberEntry| m.name@)
}

pub open spec fn opt_str(o: Option<&str>) -> Option<Seq<char>> {
    match o {
        Some(s) => Some(s@),
        None => None,
    }
}

/// Where the positions that match a wanted name are, found in one pass:
/// whether each one matches, and the first that does (or the length).
fn match_names(names: &Vec<String>, wanted: Option<&str>) -> (r: (Vec<bool>, usize))
    ensures
        r.0@.len() == names@.len(),
        forall|i: int|
            0 <= i < names@.len() ==> #[trigger] r.0@[i] == (opt_str(wanted) == Some(
                names@[i]@,
            )),
        r.1 == first_named(texts(names@), opt_str(wanted)),
{
    let mut flags: Vec<bool> = Vec::new();
    let mut first: usize = names.len();
    let mut i: usize = 0;
    while i < names.len()
        invariant
            i <= names@.len(),
            flags@.len() == i,
            forall|j: int|
                0 <= j < i ==> #[trigger] flags@[j] == (opt_str(wanted) == Some(names@[j]@)),
            first == names@.len() ==> forall|j: int|
                0 <= j < i ==> opt_str(wanted) != Some(#[trigger] names@[j]@),
            first != names@.len() ==> first < i && opt_str(wanted) == Some(names@[first as int]@)
                && forall|j: int| 0 <= j < first ==> opt_str(wanted) != Some(#[trigger] names@[j]@),
        decreases names.len() - i,
    {
        let hit = match wanted {
            Some(w) => crate::text::chars_eq(&chars_of(names[i].as_str()), &chars_of(w)),
            None => false,
        };
        flags.push(hit);
        if hit && first == names.len() {
            first = i;
        }
        i = i + 1;
    }
    proof {
        match opt_str(wanted) {
            Some(w) => {
                assert forall|j: int| 0 <= j < first implies texts(names@)[j] != w by {}
                lemma_first_named(texts(names@), w, 0, first as int);
            },
            None => {},
        }
    }
    (flags, first)
}

/// The friend roster as a friend screen shows it.
#[derive(Debug)]
pub struct FriendRosterOverlay {
    pub friends: Vec<FriendEntry>,
    pub friend_count: usize,
    pub selected_friend: Option<String>,
    pub selected_friend_server: Option<u8>,
}

/// Lays a live friend roster over a friend screen on which
/// `selected_friend` was selected: the friend of that name stays selected,
/// else the first friend is.
pub fn apply_live_friend_roster(selected_friend: Option<&str>, live_roster: &FriendRosterSnapshot) -> (r:
    FriendRosterOverlay)
    ensures
        ({
            let fs = live_roster.friends@;
            let names = friend_names(fs);
            let k = selected_position(names, opt_str(selected_friend));
            &&& r.friends@.len() == fs.len()
            &&& r.friend_count == fs.len()
            &&& forall|i: int|
                0 <= i < fs.len() ==> {
                    &&& (#[trigger] r.friends@[i]).name@ == fs[i].name@
                    &&& r.friends@[i].server == fs[i].server
                    &&& r.friends@[i].presence == fs[i].presence
                    &&& r.friends@[i].selected == marked(names, opt_str(selected_friend), i)
                }
            &&& k >= 0 ==> (r.selected_friend matches Some(n) && n@ == fs[k].name@)
            &&& k >= 0 ==> r.selected_friend_server == fs[k].server
            &&& k < 0 ==> r.selected_friend is None && r.selected_friend_server is None
        }),
{
    let fs = &live_roster.friends;
    let mut names: Vec<String> = Vec::new();
    let mut i: usize = 0;
    while i < fs.len()
        invariant
            i <= fs@.len(),
            names@.len() == i,
            forall|j: int| 0 <= j < i ==> #[trigger] names@[j]@ == fs@[j].name@,
        decreases fs.len() - i,
    {
        names.push(fs[i].name.clone());
        i = i + 1;
    }
    assert(texts(names@) =~= friend_names(fs@));
    let (flags, first) = match_names(&names, selected_friend);
    let none_matched = first == fs.len();
    let mut friends: Vec<FriendEntry> = Vec::new();
    let mut i: usize = 0;
    while i < fs.len()
        invariant
            i <= fs@.len(),
            flags@.len() == fs@.len(),
            names@.len() == fs@.len(),
            forall|j: int| 0 <= j < fs@.len() ==> #[trigger] names@[j]@ == fs@[j].name@,
            forall|j: int|
                0 <= j < fs@.len() ==> #[trigger] flags@[j] == (opt_str(selected_friend) == Some(
                    names@[j]@,
                )),
            none_matched == (first_named(friend_names(fs@), opt_str(selected_friend))
                == fs@.len()),
            friends@.len() == i,
            forall|j: int|
                0 <= j < i ==> {
                    &&& (#[trigger] friends@[j]).name@ == fs@[j].name@
                    &&& friends@[j].server == fs@[j].server
                    &&& friends@[j].presence == fs@[j].presence
                    &&& friends@[j].selected == marked(
                        friend_names(fs@),
                        opt_str(selected_friend),
                        j,
                    )
                },
        decreases fs.len() - i,
    {
        let selected = flags[i] || (i == 0 && none_matched);
        friends.push(
            FriendEntry {
                name: fs[i].name.clone(),
                server: fs[i].server,
                presence: fs[i].presence,
                selected,
            },
        );
        i = i + 1;
    }
    let (selected_friend_name, selected_friend_server) = if first < fs.len() {
        (Some(fs[first].name.clone()), fs[first].server)
    } else if fs.len() > 0 {
        (Some(fs[0].name.clone()), fs[0].server)
    } else {
        (None, None)
    };
    FriendRosterOverlay {
        friend_count: friends.len(),
        friends,
        selected_friend: selected_friend_name,
        selected_friend_server,
    }
}

/// The first position at or after `i` holding a member of the given role,
/// or the length.
pub open spec fn first_role_from(ms: Seq<GuildMemberEntry>, role: GuildMemberRole, i: int) -> int
    decreases ms.len() - i,
{
    if i >= ms.len() {
        ms.len() as int
    } else if ms[i].role == role {
        i
    } else {
        first_role_from(ms, role, i + 1)
    }
}

/// Whether `name` is the name of the first member of the given role (none
/// when no member has it).
pub open spec fn role_holder(ms: Seq<GuildMemberEntry>, role: GuildMemberRole, name: Option<String>) -> bool {
    let k = first_role_from(ms, role, 0);
    if k < ms.len() {
        name matches Some(n) && n@ == ms[k].name@
    } else {
        name is None
    }
}

proof fn lemma_first_role(ms: Seq<GuildMemberEntry>, role: GuildMemberRole, k: int, i: int)
    requires
        0 <= k <= i <= ms.len(),
        forall|j: int| k <= j < i ==> ms[j].role != role,
        i == ms.len() || ms[i].role == role,
    ensures
        first_role_from(ms, role, k) == i,
    decreases i - k,
{
    if k < i {
        lemma_first_role(ms, role, k + 1, i);
    }
}

/// The name of the first member of the given role, if any.
fn role_holder_name(ms: &Vec<GuildMemberEntry>, role: GuildMemberRole) -> (r: Option<String>)
    ensures
        role_holder(ms@, role, r),
{
    let mut i: usize = 0;
    while i < ms.len() && ms[i].role != role
        invariant
            i <= ms@.len(),
            forall|j: int| 0 <= j < i ==> ms@[j].role != role,
        decreases ms.len() - i,
    {
        i = i + 1;
    }
    proof {
        lemma_first_role(ms@, role, 0, i as int);
    }
    if i < ms.len() {
        Some(ms[i].name.clone())
    } else {
        None
    }
}

/// The guild roster as a guild screen shows it.
#[derive(Debug)]
pub struct GuildRosterOverlay {
    pub members: Vec<GuildMemberEntry>,
    pub member_count: usize,
    pub guild_score: u32,
    pub rival_guild_name: Option<String>,
    pub guild_master_name: Option<String>,
    pub sub_master_name: Option<String>,
    pub battle_master_name: Option<String>,
    pub selected_member_name: Option<String>,
    pub selected_member_role: Option<GuildMemberRole>,
    pub selected_member_server: Option<u8>,
}

/// Lays a live guild roster over a guild screen on which `selected_member`
/// was selected and `self_member` was the player: the member of the
/// selected name stays selected (else the first member is), the member of
/// the player's name is marked as the player, and the masters are the first
/// members of their roles.
pub fn apply_live_guild_roster(
    selected_member: Option<&str>,
    self_member: Option<&str>,
    live_roster: &GuildRosterSnapshot,
) -> (r: GuildRosterOverlay)
    ensures
        ({
            let ms = live_roster.members@;
            let names = member_names(ms);
            let k = selected_position(names, opt_str(selected_member));
            &&& r.members@.len() == ms.len()
            &&& r.member_count == ms.len()
            &&& r.guild_score == live_roster.total_score
            &&& opt_text(r.rival_guild_name) == opt_text(live_roster.rival_guild_name)
            &&& forall|i: int|
                0 <= i < ms.len() ==> {
                    &&& (#[trigger] r.members@[i]).name@ == ms[i].name@
                    &&& r.members@[i].number == ms[i].number
                    &&& r.members@[i].server == ms[i].server
                    &&& r.members@[i].role == ms[i].role
                    &&& r.members@[i].selected == marked(names, opt_str(selected_member), i)
                    &&& r.members@[i].is_self == (opt_str(self_member) == Some(ms[i].name@))
                }
            &&& role_holder(ms, GuildMemberRole::Master, r.guild_master_name)
            &&& role_holder(ms, GuildMemberRole::SubMaster, r.sub_master_name)
            &&& role_holder(ms, GuildMemberRole::BattleMaster, r.battle_master_name)
            &&& k >= 0 ==> {
                &&& r.selected_member_name matches Some(n) && n@ == ms[k].name@
                &&& r.selected_member_role == Some(ms[k].role)
                &&& r.selected_member_server == ms[k].server
            }
            &&& k < 0 ==> {
                &&& r.selected_member_name is None
                &&& r.selected_member_role is None
                &&& r.selected_member_server is None
            }
        }),
{
    let ms = &live_roster.members;
    let mut names: Vec<String> = Vec::new();
    let mut i: usize = 0;
    while i < ms.len()
        invariant
            i <= ms@.len(),
            names@.len() == i,
            forall|j: int| 0 <= j < i ==> #[trigger] names@[j]@ == ms@[j].name@,
        decreases ms.len() - i,
    {
        names.push(ms[i].name.clone());
        i = i + 1;
    }
    assert(texts(names@) =~= member_names(ms@));
    let (flags, first) = match_names(&names, selected_member);
    let (self_flags, _) = match_names(&names, self_member);
    let none_matched = first == ms.len();
    let mut members: Vec<GuildMemberEntry> = Vec::new();
    let mut i: usize = 0;
    while i < ms.len()
        invariant
            i <= ms@.len(),
            flags@.len() == ms@.len(),
            self_flags@.len() == ms@.len(),
            names@.len() == ms@.len(),
            forall|j: int| 0 <= j < ms@.len() ==> #[trigger] names@[j]@ == ms@[j].name@,
            forall|j: int|
                0 <= j < ms@.len() ==> #[trigger] flags@[j] == (opt_str(selected_member) == Some(
                    names@[j]@,
                )),
            forall|j: int|
                0 <= j < ms@.len() ==> #[trigger] self_flags@[j] == (opt_str(self_member) == Some(
                    names@[j]@,
                )),
            none_matched == (first_named(member_names(ms@), opt_str(selected_member))
                == ms@.len()),
            members@.len() == i,
            forall|j: int|
                0 <= j < i ==> {
                    &&& (#[trigger] members@[j]).name@ == ms@[j].name@
                    &&& members@[j].number == ms@[j].number
                    &&& members@[j].server == ms@[j].server
                    &&& members@[j].role == ms@[j].role
                    &&& members@[j].selected == marked(
                        member_names(ms@),
                        opt_str(selected_member),
                        j,
                    )
                    &&& members@[j].is_self == (opt_str(self_member) == Some(ms@[j].name@))
                },
        decreases ms.len() - i,
    {
        let selected = flags[i] || (i == 0 && none_matched);
        members.push(
            GuildMemberEntry {
                name: ms[i].name.clone(),
                number: ms[i].number,
                server: ms[i].server,
                role: ms[i].role,
                selected,
                is_self: self_flags[i],
            },
        );
        i = i + 1;
    }
    let guild_master_name = role_holder_name(ms, GuildMemberRole::Master);
    let sub_master_name = role_holder_name(ms, GuildMemberRole::SubMaster);
    let battle_master_name = role_holder_name(ms, GuildMemberRole::BattleMaster);
    let pick = if first < ms.len() {
        first
    } else {
        0
    };
    let (selected_member_name, selected_member_role, selected_member_server) = if ms.len() > 0 {
        (Some(ms[pick].name.clone()), Some(ms[pick].role), ms[pick].server)
    } else {
        (None, None, None)
    };
    let rival_guild_name = match &live_roster.rival_guild_name {
        Some(n) => Some(n.clone()),
        None => None,
    };
    GuildRosterOverlay {
        member_count: members.len(),
        members,
        guild_score: live_roster.total_score,
        rival_guild_name,
        guild_master_name,
        sub_master_name,
        battle_master_name,
        selected_member_name,
        selected_member_role,
        selected_member_server,
    }
}

// ---------------------------------------------------------------------------
// Small decisions of the in-game shells

/// The route after the Tab key in a frame: from the world to the inventory
/// when the world is loaded and the session logged in; from the inventory
/// back to the world, or to the login screen when either no longer holds.
pub open spec fn route_after_tab(route: UiRoute, tab: bool, world_ready: bool, logged_in: bool) -> UiRoute {
    if !tab {
        route
    } else if route == UiRoute::World && world_ready && logged_in {
        UiRoute::Inventory
    } else if route == UiRoute::Inventory {
        if world_ready && logged_in {
            UiRoute::World
        } else {
            UiRoute::Login
        }
    } else {
        route
    }
}

pub fn toggle_inventory_route(route: &mut UiRoute, tab_pressed: bool, world_ready: bool, logged_in: bool)
    ensures
        *final(route) == route_after_tab(*old(route), tab_pressed, world_ready, logged_in),
{
    if !tab_pressed {
        return;
    }
    match *route {
        UiRoute::World => {
            if world_ready && logged_in {
                *route = UiRoute::Inventory;
            }
        },
        UiRoute::Inventory => {
            if world_ready && logged_in {
                *route = UiRoute::World;
            } else {
                *route = UiRoute::Login;
            }
        },
        _ => {},
    }
}

/// The local player's name when it is one of the first `party_number`
/// party members.
pub fn party_shell_hero_id(local_player_label: Option<&str>, member_names: &Vec<String>, party_number: usize) -> (r:
    Option<String>)
    ensures
        ({
            let limit = if party_number < member_names@.len() {
                party_number as int
            } else {
                member_names@.len() as int
            };
            match local_player_label {
                Some(label) => if label@.len() > 0 && exists|i: int|
                    0 <= i < limit && #[trigger] member_names@[i]@ == label@ {
                    r matches Some(h) && h@ == label@
                } else {
                    r is None
                },
                None => r is None,
            }
        }),
{
    let label = match local_player_label {
        Some(l) => l,
        None => return None,
    };
    if label.unicode_len() == 0 {
        return None;
    }
    let limit = if party_number < member_names.len() {
        party_number
    } else {
        member_names.len()
    };
    let wanted = chars_of(label);
    let mut i: usize = 0;
    while i < limit
        invariant
            limit == (if party_number < member_names@.len() {
                party_number as int
            } else {
                member_names@.len() as int
            }),
            i <= limit,
            wanted@ == label@,
            label@.len() > 0,
            local_player_label == Some(label),
            forall|j: int| 0 <= j < i ==> #[trigger] member_names@[j]@ != label@,
        decreases limit - i,
    {
        if crate::text::chars_eq(&chars_of(member_names[i].as_str()), &wanted) {
            assert(member_names@[i as int]@ == label@);
            let hero = label.to_owned();
            return Some(hero);
        }
        i = i + 1;
    }
    None
}

// ---------------------------------------------------------------------------
// Roster lines

/// `true` or `false`, as `Display` writes a `bool`.
pub open spec fn bool_text(b: bool) -> Seq<char> {
    if b {
        "true"@
    } else {
        "false"@
    }
}

/// `Some(n)` or `None`, as `Debug` writes an `Option<u8>`.
pub open spec fn debug_opt_u8(o: Option<u8>) -> Seq<char> {
    match o {
        Some(n) => "Some("@ + decimal(n as nat) + ")"@,
        None => "None"@,
    }
}

pub open spec fn presence_name(p: FriendPresence) -> Seq<char> {
    match p {
        FriendPresence::Online => "online"@,
        FriendPresence::Busy => "busy"@,
        FriendPresence::Offline => "offline"@,
        FriendPresence::Locked => "locked"@,
    }
}

pub open spec fn role_name(r: GuildMemberRole) -> Seq<char> {
    match r {
        GuildMemberRole::Master => "master"@,
        GuildMemberRole::SubMaster => "sub-master"@,
        GuildMemberRole::BattleMaster => "battle-master"@,
        GuildMemberRole::Member => "member"@,
    }
}

fn push_bool(v: &mut Vec<char>, b: bool)
    ensures
        final(v)@ == old(v)@ + bool_text(b),
{
    if b {
        push_str(v, "true");
    } else {
        push_str(v, "false");
    }
}

fn push_debug_opt_u8(v: &mut Vec<char>, o: Option<u8>)
    ensures
        final(v)@ == old(v)@ + debug_opt_u8(o),
{
    match o {
        Some(n) => {
            push_str(v, "Some(");
            push_decimal(v, n as u64);
            push_str(v, ")");
            assert(v@ =~= old(v)@ + debug_opt_u8(o));
        },
        None => push_str(v, "None"),
    }
}

/// The line that the friend shell shows for a friend.
pub open spec fn friend_line(e: FriendEntry) -> Seq<char> {
    "name="@ + e.name@ + " | server="@ + debug_opt_u8(e.server) + " | presence="@ + presence_name(
        e.presence,
    ) + " | selected="@ + bool_text(e.selected)
}

pub fn format_friend_entry(entry: &FriendEntry) -> (r: String)
    ensures
        r@ == friend_line(*entry),
{
    let mut v: Vec<char> = Vec::new();
    push_str(&mut v, "name=");
    push_str(&mut v, entry.name.as_str());
    push_str(&mut v, " | server=");
    push_debug_opt_u8(&mut v, entry.server);
    push_str(&mut v, " | presence=");
    push_str(&mut v, entry.presence.as_str());
    push_str(&mut v, " | selected=");
    push_bool(&mut v, entry.selected);
    assert(v@ =~= friend_line(*entry));
    string_of(&v)
}

/// The line that the guild shell shows for a member.
pub open spec fn member_line(e: GuildMemberEntry) -> Seq<char> {
    "name="@ + e.name@ + " | number="@ + decimal(e.number as nat) + " | server="@ + debug_opt_u8(
        e.server,
    ) + " | role="@ + role_name(e.role) + " | selected="@ + bool_text(e.selected)
        + " | is_self="@ + bool_text(e.is_self)
}

pub fn format_member_entry(entry: &GuildMemberEntry) -> (r: String)
    ensures
        r@ == member_line(*entry),
{
    let mut v: Vec<char> = Vec::new();
    push_str(&mut v, "name=");
    push_str(&mut v, entry.name.as_str());
    push_str(&mut v, " | number=");
    push_decimal(&mut v, entry.number as u64);
    push_str(&mut v, " | server=");
    push_debug_opt_u8(&mut v, entry.server);
    push_str(&mut v, " | role=");
    push_str(&mut v, entry.role.as_str());
    push_str(&mut v, " | selected=");
    push_bool(&mut v, entry.selected);
    push_str(&mut v, " | is_self=");
    push_bool(&mut v, entry.is_self);
    assert(v@ =~= member_line(*entry));
    string_of(&v)
}

/// What the mailbox is doing.
#[derive(Debug, Clone, Copy, PartialEq, Eq, Structural)]
pub enum MailMode {
    Inbox,
    Reading,
    Compose,
    Error,
}

pub fn mail_mode_label(mode: MailMode) -> (r: &'static str)
    ensures
        r@ == (match mode {
            MailMode::Inbox => "inbox"@,
            MailMode::Compose => "compose"@,
            MailMode::Reading => "reading"@,
            MailMode::Error => "error"@,
        }),
{
    match mode {
        MailMode::Inbox => "inbox",
        MailMode::Compose => "compose",
        MailMode::Reading => "reading",
        MailMode::Error => "error",
    }
}

/// The friend screen that the mailbox's mode shows when nothing overrides
/// it: the roster while in the inbox, the inbox while reading.
pub fn friend_screen_state_for_mail(mode: MailMode) -> (r: FriendScreenState)
    ensures
        r == (match mode {
            MailMode::Inbox => FriendScreenState::Roster,
            MailMode::Reading => FriendScreenState::Inbox,
            MailMode::Compose => FriendScreenState::Compose,
            MailMode::Error => FriendScreenState::Error,
        }),
{
    match mode {
        MailMode::Inbox => FriendScreenState::Roster,
        MailMode::Reading => FriendScreenState::Inbox,
        MailMode::Compose => FriendScreenState::Compose,
        MailMode::Error => FriendScreenState::Error,
    }
}

} // verus!
