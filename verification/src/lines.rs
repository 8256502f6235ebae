//! Splitting the raw text into lines, one path per line. A line ends at a
//! newline or at a carriage return followed by a newline; the final line
//! ending is optional. This mirrors how the edited buffer is read back, so
//! that an untouched buffer always splits into the very lines it was built
//! from.
use vstd::prelude::*;
use vstd::string::*;

verus! {

/// The index of the first newline in `s`, or `s.len()` when there is none.
pub open spec fn first_newline(s: Seq<char>) -> nat
    decreases s.len(),
{
    if s.len() == 0 {
        0
    } else if s[0] == '\n' {
        0
    } else {
        1 + first_newline(s.subrange(1, s.len() as int))
    }
}

/// A carriage return that ends a piece belongs to a `\r\n` line ending and
/// is not part of the line.
pub open spec fn strip_cr(l: Seq<char>) -> Seq<char> {
    if l.len() > 0 && l[l.len() - 1] == '\r' {
        l.subrange(0, l.len() - 1)
    } else {
        l
    }
}

/// The lines of `s`: the pieces between newlines, each with a trailing
/// carriage return stripped; a piece after the last newline is kept whole,
/// and a final newline opens no further (empty) line.
pub open spec fn spec_lines(s: Seq<char>) -> Seq<Seq<char>>
    decreases s.len(),
{
    if s.len() == 0 {
        Seq::<Seq<char>>::empty()
    } else {
        let i = first_newline(s);
        if i >= s.len() {
            seq![s]
        } else {
            seq![strip_cr(s.subrange(0, i as int))] + spec_lines(
                s.subrange(i as int + 1, s.len() as int),
            )
        }
    }
}

/// `first_newline` points at the first newline: where no newline stands
/// before `k` and `k` is a newline (or the end), the first newline is `k`.
proof fn lemma_first_newline_at(s: Seq<char>, k: int)
    requires
        0 <= k <= s.len(),
        forall|j: int| 0 <= j < k ==> s[j] != '\n',
        k < s.len() ==> s[k] == '\n',
        k == s.len() ==> (forall|j: int| 0 <= j < s.len() ==> s[j] != '\n'),
    ensures
        first_newline(s) == k,
    decreases k,
{
    if k == 0 {
        if s.len() > 0 {
            assert(s[0] == '\n');
        }
    } else {
        let t = s.subrange(1, s.len() as int);
        assert(s[0] != '\n');
        assert(forall|j: int| 0 <= j < k - 1 ==> t[j] == s[j + 1] && t[j] != '\n');
        lemma_first_newline_at(t, k - 1);
    }
}

/// Unfolds the lines of a text whose first newline stands at `k`.
proof fn lemma_lines_split(s: Seq<char>, k: int)
    requires
        0 <= k < s.len(),
        s[k] == '\n',
        forall|j: int| 0 <= j < k ==> s[j] != '\n',
    ensures
        spec_lines(s) == seq![strip_cr(s.subrange(0, k))] + spec_lines(
            s.subrange(k + 1, s.len() as int),
        ),
{
    lemma_first_newline_at(s, k);
}

/// A text without newlines is one line, kept whole.
proof fn lemma_lines_whole(s: Seq<char>)
    requires
        s.len() > 0,
        forall|j: int| 0 <= j < s.len() ==> s[j] != '\n',
    ensures
        spec_lines(s) == seq![s],
{
    lemma_first_newline_at(s, s.len() as int);
}

/// The views of a line list, element by element.
pub open spec fn line_views(v: Seq<String>) -> Seq<Seq<char>> {
    Seq::new(v.len(), |i: int| v[i]@)
}

/// Splits a text into its lines.
pub fn split_lines(s: &str) -> (r: Vec<String>)
    ensures
        line_views(r@) == spec_lines(s@),
{
    let n = s.unicode_len();
    let mut r: Vec<String> = Vec::new();
    let mut start: usize = 0;
    let mut i: usize = 0;
    proof {
        assert(line_views(r@) =~= Seq::<Seq<char>>::empty());
        assert(s@.subrange(0, n as int) =~= s@);
    }
    while i < n
        invariant
            n == s@.len(),
            start <= i <= n,
            forall|j: int| start <= j < i ==> s@[j] != '\n',
            spec_lines(s@) == line_views(r@) + spec_lines(s@.subrange(start as int, n as int)),
        decreases n - i,
    {
        let c = s.get_char(i);
        if c == '\n' {
            let ghost rest = s@.subrange(start as int, n as int);
            let ghost k = i - start;
            proof {
                assert(forall|j: int| 0 <= j < k ==> rest[j] == s@[start + j] && rest[j] != '\n');
                assert(rest[k as int] == '\n');
                lemma_lines_split(rest, k as int);
                assert(rest.subrange(0, k as int) =~= s@.subrange(start as int, i as int));
                assert(rest.subrange(k as int + 1, rest.len() as int) =~= s@.subrange(
                    i as int + 1,
                    n as int,
                ));
            }
            let line = if i > start && s.get_char(i - 1) == '\r' {
                s.substring_char(start, i - 1)
            } else {
                s.substring_char(start, i)
            };
            proof {
                assert(line@ =~= strip_cr(s@.subrange(start as int, i as int)));
            }
            let owned = line.to_owned();
            r.push(owned);
            proof {
                assert(line_views(r@) =~= line_views(r@.drop_last()).push(
                    strip_cr(s@.subrange(start as int, i as int)),
                ));
                assert(line_views(r@) + spec_lines(s@.subrange(i as int + 1, n as int))
                    =~= (line_views(r@.drop_last()) + (seq![
                    strip_cr(s@.subrange(start as int, i as int)),
                ] + spec_lines(s@.subrange(i as int + 1, n as int)))));
            }
            start = i + 1;
        }
        i += 1;
    }
    if start < n {
        let ghost rest = s@.subrange(start as int, n as int);
        proof {
            assert(forall|j: int|
                0 <= j < rest.len() ==> rest[j] == s@[start + j] && rest[j] != '\n');
            lemma_lines_whole(rest);
        }
        let line = s.substring_char(start, n);
        let owned = line.to_owned();
        r.push(owned);
        proof {
            assert(line_views(r@) =~= line_views(r@.drop_last()).push(rest));
            assert(line_views(r@) =~= line_views(r@.drop_last()) + seq![rest]);
        }
    } else {
        proof {
            assert(s@.subrange(start as int, n as int) =~= Seq::<char>::empty());
            assert(line_views(r@) + spec_lines(Seq::<char>::empty()) =~= line_views(r@));
        }
    }
    r
}

} // verus!
