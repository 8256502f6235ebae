//! The confirmation gate: deciding whether one line of interactive response
//! approves the pending changes. Reading the response from the terminal is
//! the surrounding program's job; the decision itself is pure.
use vstd::prelude::*;
use vstd::string::*;

verus! {

/// The whitespace that is trimmed from a response before it is judged.
pub open spec fn is_space(c: char) -> bool {
    c == ' ' || c == '\t' || c == '\n' || c == '\r'
}

/// A response approves exactly when its first non-whitespace character is a
/// `y`, upper or lower case. Any other word, an empty line, or a line of
/// blanks rejects, so that nothing destructive happens by accident.
pub open spec fn spec_approves(s: Seq<char>) -> bool
    decreases s.len(),
{
    if s.len() == 0 {
        false
    } else if is_space(s[0]) {
        spec_approves(s.subrange(1, s.len() as int))
    } else {
        s[0] == 'y' || s[0] == 'Y'
    }
}

/// Decides whether one line of interactive response approves the changes.
pub fn response_approves(response: &str) -> (approved: bool)
    ensures
        approved == spec_approves(response@),
{
    let n = response.unicode_len();
    proof {
        assert(response@.subrange(0, n as int) =~= response@);
    }
    let mut i: usize = 0;
    while i < n
        invariant
            n == response@.len(),
            i <= n,
            spec_approves(response@) == spec_approves(response@.subrange(i as int, n as int)),
        decreases n - i,
    {
        let c = response.get_char(i);
        if c == ' ' || c == '\t' || c == '\n' || c == '\r' {
            proof {
                let rest = response@.subrange(i as int, n as int);
                assert(rest.subrange(1, rest.len() as int) =~= response@.subrange(
                    i + 1,
                    n as int,
                ));
            }
            i += 1;
        } else {
            return c == 'y' || c == 'Y';
        }
    }
    proof {
        assert(response@.subrange(n as int, n as int) =~= Seq::<char>::empty());
    }
    false
}

} // verus!
