//! Line counting on a file's bytes.
//!
//! A line is a newline-terminated segment; non-empty trailing content without
//! a final newline counts as one more line. An empty file has zero lines.

use vstd::prelude::*;

verus! {

/// The newline byte.
pub open spec fn nl() -> u8 {
    10
}

/// Number of newline bytes in `s`.
pub open spec fn newline_count(s: Seq<u8>) -> nat
    decreases s.len(),
{
    if s.len() == 0 {
        0
    } else {
        newline_count(s.drop_last()) + if s.last() == nl() {
            1nat
        } else {
            0nat
        }
    }
}

/// Whether `s` ends with content that no newline terminates.
pub open spec fn has_unterminated_tail(s: Seq<u8>) -> bool {
    s.len() > 0 && s.last() != nl()
}

/// The line count of a file holding the bytes `s`: one line per newline,
/// plus one for a non-empty unterminated tail.
pub open spec fn line_count(s: Seq<u8>) -> nat {
    newline_count(s) + if has_unterminated_tail(s) {
        1nat
    } else {
        0nat
    }
}

/// There are no more newlines in a sequence than bytes.
pub proof fn lemma_newline_count_le_len(s: Seq<u8>)
    ensures
        newline_count(s) <= s.len(),
    decreases s.len(),
{
    if s.len() > 0 {
        lemma_newline_count_le_len(s.drop_last());
    }
}

/// Counts the lines in `bytes`.
pub fn count_lines(bytes: &Vec<u8>) -> (n: usize)
    ensures
        n == line_count(bytes@),
{
    let len = bytes.len();
    let mut newlines: usize = 0;
    let mut i: usize = 0;
    while i < len
        invariant
            i <= len,
            len == bytes@.len(),
            newlines == newline_count(bytes@.take(i as int)),
            newlines <= i,
        decreases len - i,
    {
        proof {
            assert(bytes@.take(i + 1).drop_last() =~= bytes@.take(i as int));
            assert(bytes@.take(i + 1).last() == bytes@[i as int]);
        }
        if bytes[i] == 10 {
            newlines = newlines + 1;
        }
        i = i + 1;
    }
    proof {
        assert(bytes@.take(len as int) =~= bytes@);
    }
    if len > 0 && bytes[len - 1] != 10 {
        proof {
            assert(bytes@.last() != nl());
            lemma_newline_count_le_len(bytes@.drop_last());
            assert(newline_count(bytes@) == newline_count(bytes@.drop_last()));
        }
        newlines + 1
    } else {
        newlines
    }
}

/// Appending one newline to a file's contents leaves the line count unchanged
/// when the contents end in an unterminated line (the newline merely closes
/// it), and raises the count by exactly one otherwise.
pub proof fn lemma_trailing_newline(c: Seq<u8>)
    ensures
        line_count(c.push(nl())) == if has_unterminated_tail(c) {
            line_count(c)
        } else {
            line_count(c) + 1
        },
{
    assert(c.push(nl()).drop_last() =~= c);
    assert(c.push(nl()).last() == nl());
}

/// Newlines are counted piecewise over a concatenation.
pub proof fn lemma_newline_count_concat(a: Seq<u8>, b: Seq<u8>)
    ensures
        newline_count(a + b) == newline_count(a) + newline_count(b),
    decreases b.len(),
{
    if b.len() == 0 {
        assert(a + b =~= a);
    } else {
        lemma_newline_count_concat(a, b.drop_last());
        assert((a + b).drop_last() =~= a + b.drop_last());
        assert((a + b).last() == b.last());
    }
}

/// Whether `l` holds no newline byte.
pub open spec fn newline_free(l: Seq<u8>) -> bool {
    forall|i: int| 0 <= i < l.len() ==> l[i] != nl()
}

/// A newline-free sequence holds zero newlines.
pub proof fn lemma_newline_free_count(l: Seq<u8>)
    requires
        newline_free(l),
    ensures
        newline_count(l) == 0,
    decreases l.len(),
{
    if l.len() > 0 {
        assert(newline_free(l.drop_last()));
        lemma_newline_free_count(l.drop_last());
    }
}

/// The bytes of a file whose content is the given lines, each followed by a
/// newline.
pub open spec fn terminated_lines(lines: Seq<Seq<u8>>) -> Seq<u8>
    decreases lines.len(),
{
    if lines.len() == 0 {
        Seq::empty()
    } else {
        terminated_lines(lines.drop_last()) + lines.last() + seq![nl()]
    }
}

/// A file made of newline-terminated, newline-free lines has exactly as many
/// lines as were written.
pub proof fn lemma_terminated_lines_count(lines: Seq<Seq<u8>>)
    requires
        forall|i: int| 0 <= i < lines.len() ==> newline_free(#[trigger] lines[i]),
    ensures
        line_count(terminated_lines(lines)) == lines.len(),
    decreases lines.len(),
{
    if lines.len() > 0 {
        let prefix = terminated_lines(lines.drop_last());
        lemma_terminated_lines_count(lines.drop_last());
        lemma_newline_count_concat(prefix, lines.last());
        lemma_newline_count_concat(prefix + lines.last(), seq![nl()]);
        lemma_newline_free_count(lines.last());
        assert(seq![nl()].drop_last() =~= Seq::<u8>::empty());
        assert(seq![nl()].last() == nl());
        assert(newline_count(seq![nl()].drop_last()) == 0);
        assert(newline_count(seq![nl()]) == 1);
        assert(terminated_lines(lines).last() == nl());
        if lines.len() == 1 {
            assert(line_count(prefix) == 0);
        } else {
            assert(prefix.last() == nl());
            assert(!has_unterminated_tail(prefix));
        }
    }
}

} // verus!
