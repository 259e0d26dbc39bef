//! The chat composer: the draft being typed, the last message sent and the
//! last status line, and how key presses edit them.

use vstd::prelude::*;
use vstd::string::*;

use crate::text::{chars_of, push_str, string_of, string_push};

verus! {

/// The most characters a draft may hold.
pub const CHAT_DRAFT_CHAR_LIMIT: usize = 90;

/// `String::pop`: removes and returns the last character, if any.
#[verifier::external_body]
pub(crate) fn string_pop(s: &mut String) -> (r: Option<char>)
    ensures
        old(s)@.len() == 0 ==> r is None && final(s)@ == old(s)@,
        old(s)@.len() > 0 ==> r == Some(old(s)@.last()) && final(s)@ == old(s)@.drop_last(),
{
    s.pop()
}

/// The status shown when Enter is pressed on an empty draft.
pub open spec fn draft_empty_status() -> Seq<char> {
    "Draft is empty."@
}

/// The status shown when Escape clears the draft.
pub open spec fn draft_cleared_status() -> Seq<char> {
    "Draft cleared."@
}

/// The status shown when a message could not be handed on.
pub open spec fn send_failed_status() -> Seq<char> {
    "Chat send unavailable."@
}

/// The status shown after a message went out under `sender`.
pub open spec fn sent_status(sender: Seq<char>) -> Seq<char> {
    "Sent as "@ + sender + "."@
}

/// The chat composer: a draft of at most [`CHAT_DRAFT_CHAR_LIMIT`]
/// characters, the last message sent and the last status.
#[derive(Debug, Clone, PartialEq, Eq)]
pub struct ChatComposerState {
    draft: String,
    last_sent: Option<String>,
    last_status: Option<String>,
}

/// The composer seen as values.
pub struct ComposerView {
    pub draft: Seq<char>,
    pub last_sent: Option<Seq<char>>,
    pub last_status: Option<Seq<char>>,
}

pub open spec fn opt_view(o: Option<String>) -> Option<Seq<char>> {
    match o {
        Some(s) => Some(s@),
        None => None,
    }
}

impl View for ChatComposerState {
    type V = ComposerView;

    closed spec fn view(&self) -> ComposerView {
        ComposerView {
            draft: self.draft@,
            last_sent: opt_view(self.last_sent),
            last_status: opt_view(self.last_status),
        }
    }
}

/// Typing never takes a draft past the limit, and never loses what was
/// already there.
pub proof fn lemma_typed_within_limit(draft: Seq<char>, text: Seq<char>)
    requires
        draft.len() <= CHAT_DRAFT_CHAR_LIMIT,
    ensures
        typed(draft, text).len() <= CHAT_DRAFT_CHAR_LIMIT,
        typed(draft, text).take(draft.len() as int) == draft,
{
    assert(typed(draft, text).take(draft.len() as int) =~= draft);
}

/// Typing one character and erasing it gives the draft back, when there
/// was room for the character.
pub proof fn lemma_erase_undoes_typing(draft: Seq<char>, c: char)
    requires
        draft.len() < CHAT_DRAFT_CHAR_LIMIT,
    ensures
        typed(draft, seq![c]).len() > 0,
        typed(draft, seq![c]).drop_last() == draft,
{
    assert(typed(draft, seq![c]) =~= draft.push(c));
    assert(draft.push(c).drop_last() =~= draft);
}

/// The draft after `text` was typed: as many of its characters as still fit.
pub open spec fn typed(draft: Seq<char>, text: Seq<char>) -> Seq<char> {
    let room = CHAT_DRAFT_CHAR_LIMIT - draft.len();
    if room <= 0 {
        draft
    } else if text.len() <= room {
        draft + text
    } else {
        draft + text.take(room)
    }
}

impl ChatComposerState {
    /// Well-formed: the draft holds at most the limit. Every composer made
    /// by [`ChatComposerState::new`] is, and every method keeps it so.
    pub open spec fn wf(&self) -> bool {
        self@.draft.len() <= CHAT_DRAFT_CHAR_LIMIT
    }

    /// An empty composer.
    pub fn new() -> (r: Self)
        ensures
            r.wf(),
            r@.draft.len() == 0,
            (r@.last_sent is None),
            (r@.last_status is None),
    {
        ChatComposerState { draft: String::new(), last_sent: None, last_status: None }
    }

    pub fn draft(&self) -> (r: &str)
        ensures
            r@ == self@.draft,
    {
        self.draft.as_str()
    }

    pub fn last_sent(&self) -> (r: Option<&str>)
        ensures
            r matches Some(s) ==> self@.last_sent == Some(s@),
            r is None ==> self@.last_sent is None,
    {
        match &self.last_sent {
            Some(s) => Some(s.as_str()),
            None => None,
        }
    }

    pub fn last_status(&self) -> (r: Option<&str>)
        ensures
            r matches Some(s) ==> self@.last_status == Some(s@),
            r is None ==> self@.last_status is None,
    {
        match &self.last_status {
            Some(s) => Some(s.as_str()),
            None => None,
        }
    }

    /// The number of characters in the draft.
    pub fn draft_char_count(&self) -> (r: usize)
        ensures
            r == self@.draft.len(),
    {
        self.draft.as_str().unicode_len()
    }

    /// How many more characters the draft can take.
    pub fn draft_limit_remaining(&self) -> (r: usize)
        ensures
            r == (if self@.draft.len() >= CHAT_DRAFT_CHAR_LIMIT {
                0
            } else {
                CHAT_DRAFT_CHAR_LIMIT - self@.draft.len()
            }),
    {
        let count = self.draft_char_count();
        if count >= CHAT_DRAFT_CHAR_LIMIT {
            0
        } else {
            CHAT_DRAFT_CHAR_LIMIT - count
        }
    }

    /// Types `text`: appends as many of its characters as still fit.
    pub fn push_text(&mut self, text: &str)
        ensures
            final(self)@.draft == typed(old(self)@.draft, text@),
            old(self).wf() ==> final(self).wf(),
            final(self)@.last_sent == old(self)@.last_sent,
            final(self)@.last_status == old(self)@.last_status,
    {
        let remaining = self.draft_limit_remaining();
        if remaining == 0 {
            return;
        }
        let chars = chars_of(text);
        let take = if chars.len() < remaining {
            chars.len()
        } else {
            remaining
        };
        let mut draft = self.draft.clone();
        assert(draft@ == self.draft@);
        let ghost start = draft@;
        let mut i: usize = 0;
        while i < take
            invariant
                take <= chars@.len(),
                take <= remaining,
                remaining == CHAT_DRAFT_CHAR_LIMIT - start.len(),
                start.len() < CHAT_DRAFT_CHAR_LIMIT,
                chars@ == text@,
                i <= take,
                draft@ == start + chars@.take(i as int),
            decreases take - i,
        {
            string_push(&mut draft, chars[i]);
            assert(chars@.take(i + 1) =~= chars@.take(i as int).push(chars@[i as int]));
            i = i + 1;
        }
        proof {
            if chars@.len() <= remaining {
                assert(chars@.take(take as int) =~= chars@);
            }
        }
        self.draft = draft;
    }

    /// Removes the last character of the draft, if any.
    pub fn backspace(&mut self)
        ensures
            final(self)@.draft == (if old(self)@.draft.len() == 0 {
                old(self)@.draft
            } else {
                old(self)@.draft.drop_last()
            }),
            final(self)@.last_sent == old(self)@.last_sent,
            final(self)@.last_status == old(self)@.last_status,
    {
        let mut draft = self.draft.clone();
        assert(draft@ == self.draft@);
        string_pop(&mut draft);
        self.draft = draft;
    }

    /// Empties the draft.
    pub fn clear_draft(&mut self)
        ensures
            final(self)@.draft.len() == 0,
            final(self)@.last_sent == old(self)@.last_sent,
            final(self)@.last_status == old(self)@.last_status,
    {
        self.draft = String::new();
    }

    /// Shows `status` as the last status.
    pub fn record_status(&mut self, status: String)
        ensures
            final(self)@.draft == old(self)@.draft,
            final(self)@.last_sent == old(self)@.last_sent,
            final(self)@.last_status == Some(status@),
    {
        self.last_status = Some(status);
    }

    /// Records that `message` went out under `sender` and empties the draft.
    pub fn mark_sent(&mut self, sender: &str, message: String)
        ensures
            final(self)@.draft.len() == 0,
            final(self)@.last_sent == Some(message@),
            final(self)@.last_status == Some(sent_status(sender@)),
    {
        let mut status: Vec<char> = Vec::new();
        push_str(&mut status, "Sent as ");
        push_str(&mut status, sender);
        push_str(&mut status, ".");
        assert(status@ =~= sent_status(sender@));
        self.last_sent = Some(message);
        self.last_status = Some(string_of(&status));
        self.draft = String::new();
    }

    /// Records that the last message could not be sent; the draft stays.
    pub fn mark_send_failed(&mut self)
        ensures
            final(self)@.draft == old(self)@.draft,
            final(self)@.last_sent == old(self)@.last_sent,
            final(self)@.last_status == Some(send_failed_status()),
    {
        self.last_status = Some("Chat send unavailable.".to_string());
    }
}

/// The key of a keyboard event, as far as the composer tells keys apart.
#[derive(Debug, Clone, Copy, PartialEq, Eq, Structural)]
pub enum ChatKey {
    Enter,
    Backspace,
    Escape,
    /// Any other key; what it types comes in [`ChatKeyInput::text`].
    Other,
}

/// One keyboard event: whether the key went down, which key it was, and the
/// text it produces, if any.
#[derive(Debug, Clone)]
pub struct ChatKeyInput {
    pub pressed: bool,
    pub key: ChatKey,
    pub text: Option<String>,
}

/// A character that may be typed into the draft: not an ASCII control
/// character and not in one of the Unicode private use areas.
pub open spec fn printable(c: char) -> bool {
    let v = c as u32;
    &&& !(0xE000 <= v && v <= 0xF8FF)
    &&& !(0xF0000 <= v && v <= 0xFFFFD)
    &&& !(0x100000 <= v && v <= 0x10FFFD)
    &&& !(v < 0x20 || v == 0x7F)
}

/// Whether every character of `s` is printable.
pub open spec fn all_printable(s: Seq<char>) -> bool {
    forall|i: int| 0 <= i < s.len() ==> #[trigger] printable(s[i])
}

/// Whether `c` may be typed into the draft.
pub fn is_printable_char(c: char) -> (r: bool)
    ensures
        r == printable(c),
{
    let v = c as u32;
    let private_use = (0xE000 <= v && v <= 0xF8FF) || (0xF0000 <= v && v <= 0xFFFFD) || (
    0x100000 <= v && v <= 0x10FFFD);
    !private_use && !(v < 0x20 || v == 0x7F)
}

/// Whether every character of `text` may be typed into the draft.
fn all_printable_text(text: &str) -> (r: bool)
    ensures
        r == all_printable(text@),
{
    let chars = chars_of(text);
    let mut i: usize = 0;
    while i < chars.len()
        invariant
            chars@ == text@,
            i <= chars@.len(),
            forall|j: int| 0 <= j < i ==> #[trigger] printable(chars@[j]),
        decreases chars.len() - i,
    {
        if !is_printable_char(chars[i]) {
            return false;
        }
        i = i + 1;
    }
    true
}

/// The text that a key event would type into the draft, if any: the text
/// of a pressed key other than Enter, Backspace and Escape, when all of it
/// is printable.
pub open spec fn typed_text(input: ChatKeyInput) -> Option<Seq<char>> {
    match input.text {
        Some(t) => if input.pressed && input.key == ChatKey::Other && all_printable(t@) {
            Some(t@)
        } else {
            None
        },
        None => None,
    }
}

/// Applies one keyboard event to the composer. Enter on a non-empty draft
/// hands back the draft to be sent (the draft stays until it is marked as
/// sent); every other event edits the composer and hands back nothing.
pub fn handle_chat_keyboard_input(composer: &mut ChatComposerState, input: &ChatKeyInput) -> (r:
    Option<String>)
    ensures
        !input.pressed ==> r is None && *final(composer) == *old(composer),
        input.pressed && input.key == ChatKey::Enter ==> {
            &&& *final(composer) == *old(composer) || old(composer)@.draft.len() == 0
            &&& old(composer)@.draft.len() == 0 ==> {
                &&& r is None
                &&& final(composer)@.draft == old(composer)@.draft
                &&& final(composer)@.last_sent == old(composer)@.last_sent
                &&& final(composer)@.last_status == Some(draft_empty_status())
            }
            &&& old(composer)@.draft.len() > 0 ==> (r matches Some(m) && m@ == old(composer)@.draft)
        },
        input.pressed && input.key == ChatKey::Backspace ==> {
            &&& r is None
            &&& final(composer)@.draft == (if old(composer)@.draft.len() == 0 {
                old(composer)@.draft
            } else {
                old(composer)@.draft.drop_last()
            })
            &&& final(composer)@.last_sent == old(composer)@.last_sent
            &&& final(composer)@.last_status == old(composer)@.last_status
        },
        input.pressed && input.key == ChatKey::Escape ==> {
            &&& r is None
            &&& final(composer)@.draft.len() == 0
            &&& final(composer)@.last_sent == old(composer)@.last_sent
            &&& final(composer)@.last_status == Some(draft_cleared_status())
        },
        input.pressed && input.key == ChatKey::Other ==> {
            &&& r is None
            &&& typed_text(*input) matches Some(t) ==> {
                &&& final(composer)@.draft == typed(old(composer)@.draft, t)
                &&& final(composer)@.last_sent == old(composer)@.last_sent
                &&& final(composer)@.last_status == old(composer)@.last_status
            }
            &&& typed_text(*input) is None ==> *final(composer) == *old(composer)
        },
        old(composer).wf() ==> final(composer).wf(),
{
    if !input.pressed {
        return None;
    }
    match input.key {
        ChatKey::Enter => {
            if composer.draft_char_count() == 0 {
                composer.record_status("Draft is empty.".to_string());
                None
            } else {
                Some(composer.draft().to_string())
            }
        },
        ChatKey::Backspace => {
            composer.backspace();
            None
        },
        ChatKey::Escape => {
            composer.clear_draft();
            composer.record_status("Draft cleared.".to_string());
            None
        },
        ChatKey::Other => {
            match &input.text {
                Some(text) => {
                    if all_printable_text(text.as_str()) {
                        composer.push_text(text.as_str());
                    }
                },
                None => {},
            }
            None
        },
    }
}

impl Default for ChatComposerState {
    fn default() -> (r: Self)
        ensures
            r@.draft.len() == 0,
            (r@.last_sent is None),
            (r@.last_status is None),
    {
        ChatComposerState::new()
    }
}

} // verus!
