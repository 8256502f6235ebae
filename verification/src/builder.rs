//! The change set builder: pairing the original path list with the edited
//! line list, position by position, into an ordered change sequence. The two
//! lists must have the same length — line-for-line pairing is the only
//! correlation mechanism, so a length mismatch means the editing step
//! corrupted the correlation and no safe partial interpretation exists.
use crate::model::{classified_change, parse_lines, Change};
use vstd::prelude::*;

verus! {

/// Why a change sequence could not be built.
#[derive(Clone, Copy, Debug, PartialEq, Eq, Structural)]
pub enum BuildError {
    /// The edited line count differs from the original line count.
    StructuralMismatch,
}

/// Builds the change sequence from the original lines and the edited lines.
/// It succeeds exactly when the two lists have the same length, and then
/// yields one change per line pair, index-aligned with the input: the path is
/// the original line, the operation its classification against the edited
/// line. On a length mismatch nothing is built.
pub fn build_changes(given: &Vec<String>, edited: &Vec<String>) -> (r: Result<
    Vec<Change>,
    BuildError,
>)
    ensures
        r is Ok <==> given@.len() == edited@.len(),
        r matches Err(e) ==> e == BuildError::StructuralMismatch,
        r matches Ok(cs) ==> {
            &&& cs@.len() == given@.len()
            &&& forall|i: int|
                0 <= i < cs@.len() ==> #[trigger] cs@[i]@ == classified_change(
                    given@[i]@,
                    edited@[i]@,
                )
        },
{
    if given.len() != edited.len() {
        return Err(BuildError::StructuralMismatch);
    }
    let mut cs: Vec<Change> = Vec::new();
    let mut i: usize = 0;
    while i < given.len()
        invariant
            given@.len() == edited@.len(),
            i <= given@.len(),
            cs@.len() == i,
            forall|j: int|
                0 <= j < i ==> #[trigger] cs@[j]@ == classified_change(given@[j]@, edited@[j]@),
        decreases given@.len() - i,
    {
        let c = parse_lines((given[i].clone(), edited[i].clone()));
        cs.push(c);
        i += 1;
    }
    Ok(cs)
}

} // verus!
