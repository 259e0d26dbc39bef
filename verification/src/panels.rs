//! The block text layout of the login-flow, chat, shop, trade, party and
//! quest shells: every paragraph and list ends with a line break, and a
//! line break separates it from what came before. The login-flow shell's
//! plain bodies and the chat shell's draft label are written with it.

use vstd::prelude::*;

use crate::chat::ChatComposerState;
use crate::session::{phase_name, SessionPhase};
use crate::shells::{append_str, bullet_lines, separated, texts};
use crate::text::string_push;

verus! {

/// A paragraph: its heading on one line, its text on the next.
pub open spec fn with_block_paragraph(out: Seq<char>, heading: Seq<char>, text: Seq<char>) -> Seq<
    char,
> {
    separated(out) + heading + "\n"@ + text + "\n"@
}

/// A list: its heading, then one dashed line per value; with no values, one
/// dashed line holding the empty message, or nothing when there is none.
pub open spec fn with_block_lines(
    out: Seq<char>,
    heading: Seq<char>,
    values: Seq<Seq<char>>,
    empty_message: Option<Seq<char>>,
) -> Seq<char> {
    separated(out) + heading + "\n"@ + if values.len() == 0 {
        match empty_message {
            Some(m) => "- "@ + m + "\n"@,
            None => Seq::empty(),
        }
    } else {
        bullet_lines(values)
    }
}

pub fn push_paragraph(output: &mut String, heading: &str, text: &str)
    ensures
        final(output)@ == with_block_paragraph(old(output)@, heading@, text@),
{
    if output.as_str().unicode_len() > 0 {
        string_push(output, '\n');
    }
    append_str(output, heading);
    string_push(output, '\n');
    append_str(output, text);
    string_push(output, '\n');
    proof {
        reveal_strlit("\n");
    }
    assert(output@ =~= with_block_paragraph(old(output)@, heading@, text@));
}

pub fn push_lines(output: &mut String, heading: &str, values: &Vec<String>, empty_message: Option<&str>)
    ensures
        final(output)@ == with_block_lines(
            old(output)@,
            heading@,
            texts(values@),
            match empty_message {
                Some(m) => Some(m@),
                None => None,
            },
        ),
{
    if output.as_str().unicode_len() > 0 {
        string_push(output, '\n');
    }
    append_str(output, heading);
    string_push(output, '\n');
    let ghost head = output@;
    proof {
        reveal_strlit("\n");
        reveal_strlit("- ");
    }
    assert(head =~= separated(old(output)@) + heading@ + "\n"@);
    if values.len() == 0 {
        match empty_message {
            Some(message) => {
                append_str(output, "- ");
                append_str(output, message);
                string_push(output, '\n');
                assert(output@ =~= head + ("- "@ + message@ + "\n"@));
            },
            None => {
                assert(output@ =~= head + Seq::<char>::empty());
            },
        }
        return;
    }
    let mut i: usize = 0;
    while i < values.len()
        invariant
            i <= values@.len(),
            "\n"@ == seq!['\n'],
            "- "@ == seq!['-', ' '],
            output@ == head + bullet_lines(texts(values@).take(i as int)),
        decreases values.len() - i,
    {
        append_str(output, "- ");
        append_str(output, values[i].as_str());
        string_push(output, '\n');
        proof {
            let t = texts(values@).take(i + 1);
            assert(t.drop_last() =~= texts(values@).take(i as int));
            assert(t.last() == values@[i as int]@);
            assert(output@ =~= head + bullet_lines(t));
        }
        i = i + 1;
    }
    assert(texts(values@).take(values@.len() as int) =~= texts(values@));
}

/// A body of two paragraphs: the status line, then the session phase.
pub open spec fn status_body(status: Seq<char>, phase: SessionPhase) -> Seq<char> {
    with_block_paragraph(
        with_block_paragraph(Seq::empty(), "Status"@, status),
        "Session"@,
        phase_name(phase),
    )
}

/// The body of the boot screen.
pub fn boot_body(phase: SessionPhase) -> (r: String)
    ensures
        r@ == status_body("Preparing the graphical client."@, phase),
{
    let mut body = String::new();
    push_paragraph(&mut body, "Status", "Preparing the graphical client.");
    push_paragraph(&mut body, "Session", phase.as_str());
    body
}

/// The body of the loading screen.
pub fn loading_body(phase: SessionPhase) -> (r: String)
    ensures
        r@ == status_body("Loading the next bootstrap step."@, phase),
{
    let mut body = String::new();
    push_paragraph(&mut body, "Status", "Loading the next bootstrap step.");
    push_paragraph(&mut body, "Session", phase.as_str());
    body
}

/// The body of the error screen.
pub fn error_body(phase: SessionPhase) -> (r: String)
    ensures
        r@ == status_body("A safe error surface is active."@, phase),
{
    let mut body = String::new();
    push_paragraph(&mut body, "Status", "A safe error surface is active.");
    push_paragraph(&mut body, "Session", phase.as_str());
    body
}

/// How the chat shell shows the draft: the draft, or `<empty>`.
pub fn chat_draft_label(composer: &ChatComposerState) -> (r: String)
    ensures
        r@ == (if composer@.draft.len() == 0 {
            "<empty>"@
        } else {
            composer@.draft
        }),
{
    if composer.draft_char_count() == 0 {
        "<empty>".to_string()
    } else {
        composer.draft().to_string()
    }
}

} // verus!
