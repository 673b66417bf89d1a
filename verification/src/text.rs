//! Splitting raw file contents into lines.
//!
//! A buffer is populated one line per input text line.  Lines are split
//! on line-terminator boundaries: a line feed ends a line, and a single
//! carriage return directly before it is not part of the content.  A
//! trailing terminator opens no extra empty line.

use crate::line::push_char;
use vstd::prelude::*;
use vstd::string::StrSliceExecFns;

verus! {

/// The index of the first line feed in `s`, or `s.len()` if there is none.
pub open spec fn find_newline(s: Seq<char>) -> nat
    decreases s.len(),
{
    if s.len() == 0 {
        0
    } else if s.first() == '\n' {
        0
    } else {
        1 + find_newline(s.drop_first())
    }
}

/// A line's content: the text before its terminator, one carriage return
/// directly before the line feed not included.
pub open spec fn strip_cr(l: Seq<char>) -> Seq<char> {
    if l.len() > 0 && l.last() == '\r' {
        l.drop_last()
    } else {
        l
    }
}

/// The lines of a text, in order.  Empty text has no lines; a final line
/// terminator opens no extra empty line.
pub open spec fn split_lines(s: Seq<char>) -> Seq<Seq<char>>
    decreases s.len(),
{
    if s.len() == 0 {
        Seq::<Seq<char>>::empty()
    } else {
        let i = find_newline(s) as int;
        if i >= s.len() {
            seq![s]
        } else {
            seq![strip_cr(s.take(i))] + split_lines(s.skip(i + 1))
        }
    }
}

/// `find_newline` returns the position of the first line feed.
proof fn lemma_find_newline_at(s: Seq<char>, k: int)
    requires
        0 <= k <= s.len(),
        forall|j: int| 0 <= j < k ==> s[j] != '\n',
        k < s.len() ==> s[k] == '\n',
    ensures
        find_newline(s) == k,
    decreases k,
{
    if k == 0 {
    } else {
        assert(s[0] != '\n');
        lemma_find_newline_at(s.drop_first(), k - 1);
    }
}

/// Builds a string from a sequence of characters.
fn string_of_chars(cs: &Vec<char>) -> (r: String)
    ensures
        r@ == cs@,
{
    let mut s = String::new();
    let mut i: usize = 0;
    while i < cs.len()
        invariant
            0 <= i <= cs@.len(),
            s@ == cs@.take(i as int),
        decreases cs@.len() - i,
    {
        push_char(&mut s, cs[i]);
        proof {
            assert(cs@.take(i as int).push(cs@[i as int]) =~= cs@.take(i + 1));
        }
        i += 1;
    }
    proof {
        assert(cs@.take(cs@.len() as int) =~= cs@);
    }
    s
}

/// Splits a text into its lines, as `split_lines` describes them.
pub fn lines_of(text: &str) -> (r: Vec<String>)
    ensures
        r@.map_values(|l: String| l@) == split_lines(text@),
{
    let n = text.unicode_len();
    let mut out: Vec<String> = Vec::new();
    let mut cur: Vec<char> = Vec::new();
    let mut i: usize = 0;
    proof {
        assert(cur@ + text@.skip(0) =~= text@);
        assert(out@.map_values(|l: String| l@) + split_lines(text@) =~= split_lines(text@));
    }
    while i < n
        invariant
            0 <= i <= n,
            n == text@.len(),
            forall|j: int| 0 <= j < cur@.len() ==> cur@[j] != '\n',
            out@.map_values(|l: String| l@) + split_lines(cur@ + text@.skip(i as int))
                == split_lines(text@),
        decreases n - i,
    {
        let c = text.get_char(i);
        let ghost cur0 = cur@;
        let ghost pending = cur@ + text@.skip(i as int);
        proof {
            assert(text@.skip(i as int).first() == c);
        }
        if c == '\n' {
            let mut line = cur;
            if line.len() > 0 {
                let last = line[line.len() - 1];
                if last == '\r' {
                    line.pop();
                }
            }
            let s = string_of_chars(&line);
            let ghost prev_out = out@;
            out.push(s);
            cur = Vec::new();
            proof {
                let k = cur0.len() as int;
                assert(pending[k] == '\n');
                lemma_find_newline_at(pending, k);
                assert(pending.take(k) =~= cur0);
                assert(line@ == strip_cr(cur0));
                assert(pending.skip(k + 1) =~= text@.skip(i + 1));
                assert(split_lines(pending) == seq![strip_cr(cur0)] + split_lines(
                    text@.skip(i + 1),
                ));
                assert(out@.map_values(|l: String| l@) =~= prev_out.map_values(|l: String| l@)
                    + seq![line@]);
                assert(cur@ + text@.skip(i + 1) =~= text@.skip(i + 1));
                assert(out@.map_values(|l: String| l@) + split_lines(text@.skip(i + 1))
                    =~= prev_out.map_values(|l: String| l@) + split_lines(pending));
            }
        } else {
            cur.push(c);
            proof {
                assert(cur@ + text@.skip(i + 1) =~= pending);
            }
        }
        i += 1;
    }
    proof {
        assert(cur@ + text@.skip(n as int) =~= cur@);
    }
    if cur.len() > 0 {
        proof {
            lemma_find_newline_at(cur@, cur@.len() as int);
            assert(split_lines(cur@) == seq![cur@]);
        }
        let ghost prev_out = out@;
        let s = string_of_chars(&cur);
        out.push(s);
        proof {
            assert(out@.map_values(|l: String| l@) =~= prev_out.map_values(|l: String| l@)
                + seq![cur@]);
            assert(out@.map_values(|l: String| l@) =~= split_lines(text@));
        }
    } else {
        proof {
            assert(split_lines(cur@) =~= Seq::<Seq<char>>::empty());
            assert(out@.map_values(|l: String| l@) + Seq::<Seq<char>>::empty() =~= out@.map_values(
                |l: String| l@,
            ));
        }
    }
    out
}

} // verus!
