//! Plain-text layout helpers for the presentation layer: a labelled field
//! line with the value column aligned.

use vstd::prelude::*;
use vstd::string::{StrSliceExecFns, StringExecFns};

verus! {

/// A run of spaces.
pub open spec fn spec_spaces(n: nat) -> Seq<char> {
    Seq::new(n, |i: int| ' ')
}

/// A labelled field line: the label and a colon, padded with spaces to
/// sixteen characters when shorter, then the value.
pub open spec fn spec_field(label: Seq<char>, value: Seq<char>) -> Seq<char> {
    let head = label.push(':');
    if head.len() < 16 {
        head + spec_spaces((16 - head.len()) as nat) + value
    } else {
        head + value
    }
}

/// Formats a labelled field line, padding the label to align values.
pub fn field(label: &str, value: &str) -> (r: String)
    ensures
        r@ == spec_field(label@, value@),
{
    let mut out = label.to_owned();
    out.append(":");
    proof {
        reveal_strlit(":");
        assert(out@ =~= label@.push(':'));
    }
    let ghost head = label@.push(':');
    let ghost mut pad: nat = 0;
    while out.unicode_len() < 16
        invariant
            out@ =~= head + spec_spaces(pad),
            out@.len() == head.len() + pad,
            pad > 0 ==> head.len() + pad <= 16,
        decreases 16 - out@.len(),
    {
        out.append(" ");
        proof {
            reveal_strlit(" ");
            pad = pad + 1;
            assert(out@ =~= head + spec_spaces(pad));
        }
    }
    proof {
        if head.len() < 16 {
            assert(head.len() + pad == 16);
            assert(out@ =~= head + spec_spaces((16 - head.len()) as nat));
        } else {
            assert(pad == 0);
            assert(out@ =~= head);
        }
    }
    out.append(value);
    proof {
        assert(out@ =~= spec_field(label@, value@));
    }
    out
}

// ── Indenting content ────────────────────────────────────────────────────

/// The position of the first line break, or the length when there is none.
pub open spec fn spec_first_nl(s: Seq<char>) -> int
    decreases s.len(),
{
    if s.len() == 0 {
        0
    } else if s[0] == '\n' {
        0
    } else {
        1 + spec_first_nl(s.skip(1))
    }
}

proof fn lemma_first_nl(s: Seq<char>)
    ensures
        0 <= spec_first_nl(s) <= s.len(),
        spec_first_nl(s) < s.len() ==> s[spec_first_nl(s)] == '\n',
    decreases s.len(),
{
    if s.len() != 0 && s[0] != '\n' {
        lemma_first_nl(s.skip(1));
        if spec_first_nl(s) < s.len() {
            assert(s.skip(1)[spec_first_nl(s) - 1] == s[spec_first_nl(s)]);
        }
    }
}

proof fn lemma_first_nl_is(s: Seq<char>, k: int)
    requires
        0 <= k <= s.len(),
        forall|j: int| 0 <= j < k ==> s[j] != '\n',
        k < s.len() ==> s[k] == '\n',
    ensures
        spec_first_nl(s) == k,
    decreases s.len(),
{
    if s.len() == 0 {
    } else if s[0] == '\n' {
        assert(k == 0);
    } else {
        assert(k >= 1);
        assert forall|j: int| 0 <= j < k - 1 implies s.skip(1)[j] != '\n' by {
            assert(s.skip(1)[j] == s[j + 1]);
        }
        if k - 1 < s.skip(1).len() {
            assert(s.skip(1)[k - 1] == s[k]);
        }
        lemma_first_nl_is(s.skip(1), k - 1);
    }
}

/// A line with one trailing carriage return removed, as line splitting
/// reads it.
pub open spec fn spec_strip_cr(line: Seq<char>) -> Seq<char> {
    if line.len() > 0 && line.last() == '\r' {
        line.drop_last()
    } else {
        line
    }
}

/// Multi-line content with two spaces in front of every line: lines are
/// split on line breaks, each loses one trailing carriage return, a
/// trailing final break produces no extra line, and the indented lines
/// are joined with single breaks.
pub open spec fn spec_indent(s: Seq<char>) -> Seq<char>
    decreases s.len(),
    via spec_indent_dec
{
    if s.len() == 0 {
        Seq::empty()
    } else {
        let i = spec_first_nl(s);
        let head = seq![' ', ' '] + spec_strip_cr(s.take(i));
        if i >= s.len() - 1 {
            head
        } else {
            head + seq!['\n'] + spec_indent(s.skip(i + 1))
        }
    }
}

#[via_fn]
proof fn spec_indent_dec(s: Seq<char>) {
    lemma_first_nl(s);
}

/// Finds the first line break, or the end of the string.
fn find_nl(s: &str) -> (r: usize)
    ensures
        r as int == spec_first_nl(s@),
        r <= s@.len(),
{
    let n = s.unicode_len();
    let mut i: usize = 0;
    while i < n
        invariant
            0 <= i <= n,
            n == s@.len(),
            forall|j: int| 0 <= j < i ==> s@[j] != '\n',
        decreases n - i,
    {
        if s.get_char(i) == '\n' {
            proof {
                lemma_first_nl_is(s@, i as int);
            }
            return i;
        }
        i = i + 1;
    }
    proof {
        lemma_first_nl_is(s@, n as int);
    }
    n
}

/// Indents multi-line content for show views: two spaces in front of
/// every line, with line breaks and trailing carriage returns read as
/// line splitting reads them.
pub fn indent_content(content: &str) -> (r: String)
    ensures
        r@ == spec_indent(content@),
    decreases content@.len(),
{
    let n = content.unicode_len();
    if n == 0 {
        return String::new();
    }
    let i = find_nl(content);
    proof {
        lemma_first_nl(content@);
    }
    let line_end = if i > 0 && content.get_char(i - 1) == '\r' {
        i - 1
    } else {
        i
    };
    let mut out = String::from_str("  ");
    proof {
        reveal_strlit("  ");
        assert(out@ =~= seq![' ', ' ']);
    }
    out.append(content.substring_char(0, line_end));
    proof {
        assert(content@.take(i as int) =~= content@.subrange(0, i as int));
        if i > 0 && content@[i as int - 1] == '\r' {
            assert(content@.take(i as int).last() == content@[i as int - 1]);
            assert(content@.subrange(0, line_end as int) =~= content@.take(i as int).drop_last());
        }
        assert(out@ =~= seq![' ', ' '] + spec_strip_cr(content@.take(i as int)));
    }
    if i >= n - 1 {
        return out;
    }
    out.append("\n");
    proof {
        reveal_strlit("\n");
    }
    let rest = indent_content(content.substring_char(i + 1, n));
    out.append(rest.as_str());
    proof {
        assert(content@.subrange(i as int + 1, n as int) =~= content@.skip(i as int + 1));
        assert(out@ =~= spec_indent(content@));
    }
    out
}

} // verus!
