//! The labelled text layout of the siege shell: `label: value` lines, and
//! lists of indented items cut off after a limit.

use vstd::prelude::*;

use crate::shells::{append_str, texts};
use crate::text::string_push;

verus! {

/// A `label: value` line.
pub open spec fn with_labeled_paragraph(out: Seq<char>, label: Seq<char>, value: Seq<char>) -> Seq<
    char,
> {
    out + label + ": "@ + value + "\n"@
}

/// Each item on an indented, dashed line.
pub open spec fn indented_lines(items: Seq<Seq<char>>) -> Seq<char>
    decreases items.len(),
{
    if items.len() == 0 {
        Seq::empty()
    } else {
        indented_lines(items.drop_last()) + "  - "@ + items.last() + "\n"@
    }
}

/// A `label:` line, then the items on indented lines; when there are more
/// items than the limit, the first `limit` of them and a `...` line.
pub open spec fn with_labeled_lines(
    out: Seq<char>,
    label: Seq<char>,
    items: Seq<Seq<char>>,
    limit: Option<usize>,
) -> Seq<char> {
    let head = out + label + ":\n"@;
    match limit {
        Some(l) => if items.len() > l {
            head + indented_lines(items.take(l as int)) + "  ...\n"@
        } else {
            head + indented_lines(items)
        },
        None => head + indented_lines(items),
    }
}

pub fn push_paragraph(body: &mut String, label: &str, value: &str)
    ensures
        final(body)@ == with_labeled_paragraph(old(body)@, label@, value@),
{
    append_str(body, label);
    append_str(body, ": ");
    append_str(body, value);
    string_push(body, '\n');
    proof {
        reveal_strlit("\n");
    }
    assert(body@ =~= with_labeled_paragraph(old(body)@, label@, value@));
}

pub fn push_lines(body: &mut String, label: &str, items: &Vec<String>, limit: Option<usize>)
    ensures
        final(body)@ == with_labeled_lines(old(body)@, label@, texts(items@), limit),
{
    append_str(body, label);
    append_str(body, ":\n");
    let ghost head = body@;
    proof {
        reveal_strlit("\n");
        reveal_strlit("  - ");
        reveal_strlit("  ...\n");
    }
    let n = match limit {
        Some(l) => if items.len() > l {
            l
        } else {
            items.len()
        },
        None => items.len(),
    };
    let mut i: usize = 0;
    while i < n
        invariant
            n <= items@.len(),
            i <= n,
            "\n"@ == seq!['\n'],
            "  - "@ == seq![' ', ' ', '-', ' '],
            body@ == head + indented_lines(texts(items@).take(i as int)),
        decreases n - i,
    {
        append_str(body, "  - ");
        append_str(body, items[i].as_str());
        string_push(body, '\n');
        proof {
            let t = texts(items@).take(i + 1);
            assert(t.drop_last() =~= texts(items@).take(i as int));
            assert(t.last() == items@[i as int]@);
            assert(body@ =~= head + indented_lines(t));
        }
        i = i + 1;
    }
    if n < items.len() {
        append_str(body, "  ...\n");
    } else {
        assert(texts(items@).take(n as int) =~= texts(items@));
    }
}

} // verus!
