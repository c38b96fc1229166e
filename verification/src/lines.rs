use vstd::prelude::*;

use crate::text::{chars_of, string_of_prefix};

verus! {

/// A line as a reader hands it out: the newline that ended it is gone, and so
/// is a carriage return just before that newline.
pub open spec fn strip_cr(line: Seq<char>) -> Seq<char> {
    if line.len() > 0 && line.last() == '\r' {
        line.drop_last()
    } else {
        line
    }
}

/// Reading one more character: a newline closes the line under way, any
/// other character extends it. The state is the closed lines and the line
/// under way.
pub open spec fn line_step(st: (Seq<Seq<char>>, Seq<char>), c: char) -> (Seq<Seq<char>>, Seq<char>) {
    if c == '\n' {
        (st.0.push(strip_cr(st.1)), Seq::empty())
    } else {
        (st.0, st.1.push(c))
    }
}

/// The state after reading all of `s`, starting from `st`.
pub open spec fn scan_from(st: (Seq<Seq<char>>, Seq<char>), s: Seq<char>) -> (Seq<Seq<char>>, Seq<char>)
    decreases s.len(),
{
    if s.len() == 0 {
        st
    } else {
        line_step(scan_from(st, s.drop_last()), s.last())
    }
}

/// The lines of a text, as `BufRead::lines` yields them: each newline ends a
/// line (dropping the newline and a carriage return before it), and text after
/// the last newline, if any, is a last line of its own, kept as it stands.
pub open spec fn spec_lines(s: Seq<char>) -> Seq<Seq<char>> {
    let st = scan_from((Seq::empty(), Seq::empty()), s);
    if st.1.len() > 0 {
        st.0.push(st.1)
    } else {
        st.0
    }
}

/// Reading `a` then `b` is reading `a + b`.
proof fn lemma_scan_concat(st: (Seq<Seq<char>>, Seq<char>), a: Seq<char>, b: Seq<char>)
    ensures
        scan_from(st, a + b) == scan_from(scan_from(st, a), b),
    decreases b.len(),
{
    if b.len() == 0 {
        assert(a + b =~= a);
    } else {
        assert((a + b).drop_last() =~= a + b.drop_last());
        assert((a + b).last() == b.last());
        lemma_scan_concat(st, a, b.drop_last());
    }
}

/// Text without a newline only extends the line under way.
proof fn lemma_scan_no_newline(st: (Seq<Seq<char>>, Seq<char>), s: Seq<char>)
    requires
        !s.contains('\n'),
    ensures
        scan_from(st, s) == (st.0, st.1 + s),
    decreases s.len(),
{
    if s.len() == 0 {
        assert(st.1 + s =~= st.1);
    } else {
        assert(!s.drop_last().contains('\n')) by {
            if s.drop_last().contains('\n') {
                let k = choose|k: int| 0 <= k < s.drop_last().len() && s.drop_last()[k] == '\n';
                assert(s[k] == '\n');
            }
        }
        assert(s.last() != '\n') by {
            assert(s[s.len() - 1] == s.last());
        }
        lemma_scan_no_newline(st, s.drop_last());
        assert((st.1 + s.drop_last()).push(s.last()) =~= st.1 + s);
    }
}

/// Lines closed before the reading started stay in front of those it closes.
proof fn lemma_scan_prefix(done: Seq<Seq<char>>, s: Seq<char>)
    ensures
        scan_from((done, Seq::empty()), s) == (
            done + scan_from((Seq::empty(), Seq::empty()), s).0,
            scan_from((Seq::empty(), Seq::empty()), s).1,
        ),
    decreases s.len(),
{
    if s.len() == 0 {
        assert(done + Seq::<Seq<char>>::empty() =~= done);
    } else {
        lemma_scan_prefix(done, s.drop_last());
        let inner = scan_from((Seq::empty(), Seq::empty()), s.drop_last());
        if s.last() == '\n' {
            assert((done + inner.0).push(strip_cr(inner.1)) =~= done + inner.0.push(strip_cr(inner.1)));
        }
    }
}

/// A line written out with its newline, followed by any text, is read back
/// first, without a trailing carriage return, and the text after it is read
/// as if on its own.
pub proof fn lemma_lines_line_then(line: Seq<char>, rest: Seq<char>)
    requires
        !line.contains('\n'),
    ensures
        spec_lines(line.push('\n') + rest) == seq![strip_cr(line)] + spec_lines(rest),
{
    let e: (Seq<Seq<char>>, Seq<char>) = (Seq::empty(), Seq::empty());
    lemma_scan_concat(e, line.push('\n'), rest);
    lemma_scan_no_newline(e, line);
    assert(line.push('\n').drop_last() =~= line);
    assert(Seq::<char>::empty() + line =~= line);
    assert(scan_from(e, line.push('\n')) == (seq![strip_cr(line)], Seq::<char>::empty()));
    lemma_scan_prefix(seq![strip_cr(line)], rest);
    let r = scan_from(e, rest);
    if r.1.len() > 0 {
        assert((seq![strip_cr(line)] + r.0).push(r.1) =~= seq![strip_cr(line)] + r.0.push(r.1));
    }
}

/// The lines of `text`, in the way a buffered reader splits a file into lines.
pub fn read_lines(text: &str) -> (lines: Vec<String>)
    ensures
        lines@.map_values(|l: String| l@) == spec_lines(text@),
{
    let chars = chars_of(text);
    let mut lines: Vec<String> = Vec::new();
    let mut cur: Vec<char> = Vec::new();
    let mut i: usize = 0;
    while i < chars.len()
        invariant
            i <= chars@.len(),
            chars@ == text@,
            (lines@.map_values(|l: String| l@), cur@) == scan_from(
                (Seq::empty(), Seq::empty()),
                chars@.take(i as int),
            ),
        decreases chars@.len() - i,
    {
        let c = chars[i];
        assert(chars@.take(i + 1).drop_last() =~= chars@.take(i as int));
        let ghost before = lines@.map_values(|l: String| l@);
        if c == '\n' {
            let n = if cur.len() > 0 && cur[cur.len() - 1] == '\r' {
                cur.len() - 1
            } else {
                cur.len()
            };
            let line = string_of_prefix(&cur, n);
            assert(line@ == strip_cr(cur@));
            lines.push(line);
            cur = Vec::new();
            assert(lines@.map_values(|l: String| l@) =~= before.push(line@));
        } else {
            cur.push(c);
        }
        i = i + 1;
    }
    assert(chars@.take(i as int) =~= text@);
    let ghost before = lines@.map_values(|l: String| l@);
    if cur.len() > 0 {
        let n = cur.len();
        let last = string_of_prefix(&cur, n);
        assert(cur@.take(n as int) =~= cur@);
        lines.push(last);
        assert(lines@.map_values(|l: String| l@) =~= before.push(cur@));
    }
    lines
}

} // verus!
