//! The change model: the three operation kinds, the change record that ties
//! an operation to the original path it acts on, and the pure classification
//! of an (original line, edited line) pair into an operation.
use vstd::prelude::*;
use vstd::string::*;

verus! {

/// The effect one edited line asks for: leave the entry alone, delete it, or
/// move it to a new path.
#[derive(Debug)]
pub enum Operation {
    NoOp,
    Remove,
    Rename { new_path: String },
}

/// One inferred file-system operation tied to the original path it acts on.
#[derive(Debug)]
pub struct Change {
    pub path: String,
    pub operation: Operation,
}

/// Mathematical image of an `Operation`: paths as character sequences.
pub enum OperationView {
    NoOp,
    Remove,
    Rename { new_path: Seq<char> },
}

/// Mathematical image of a `Change`.
pub struct ChangeView {
    pub path: Seq<char>,
    pub operation: OperationView,
}

impl View for Operation {
    type V = OperationView;

    open spec fn view(&self) -> OperationView {
        match self {
            Operation::NoOp => OperationView::NoOp,
            Operation::Remove => OperationView::Remove,
            Operation::Rename { new_path } => OperationView::Rename { new_path: new_path@ },
        }
    }
}

impl View for Change {
    type V = ChangeView;

    open spec fn view(&self) -> ChangeView {
        ChangeView { path: self.path@, operation: self.operation@ }
    }
}

/// How an edited line is read against the original line it replaces: an
/// unchanged line asks for nothing, a line edited to emptiness asks for
/// deletion, and any other line asks for a rename to it. The first rule is
/// tested first, so a line that was empty and stays empty is a no-op, never
/// a deletion.
pub open spec fn classify(given: Seq<char>, edited: Seq<char>) -> OperationView {
    if edited == given {
        OperationView::NoOp
    } else if edited.len() == 0 {
        OperationView::Remove
    } else {
        OperationView::Rename { new_path: edited }
    }
}

/// Classification is total and case-exact: an unchanged line is always a
/// no-op, a non-empty line edited to emptiness is always a removal, and an
/// edit to any other non-empty line is always a rename to that line.
pub proof fn lemma_classify(a: Seq<char>, b: Seq<char>)
    ensures
        classify(a, a) == OperationView::NoOp,
        a.len() > 0 ==> classify(a, Seq::<char>::empty()) == OperationView::Remove,
        b != a && b.len() > 0 ==> classify(a, b) == (OperationView::Rename { new_path: b }),
{
    if a.len() > 0 {
        assert(Seq::<char>::empty() != a);
    }
}

/// The change inferred from one (original line, edited line) pair: the path
/// is always the original line, the operation is its classification.
pub open spec fn classified_change(given: Seq<char>, edited: Seq<char>) -> ChangeView {
    ChangeView { path: given, operation: classify(given, edited) }
}

/// Classifies one (original line, edited line) pair into a change.
pub fn parse_lines(lines: (String, String)) -> (c: Change)
    ensures
        c@ == classified_change(lines.0@, lines.1@),
{
    let (given, new) = lines;
    if new == given {
        Change { operation: Operation::NoOp, path: given }
    } else if new.as_str().is_empty() {
        Change { operation: Operation::Remove, path: given }
    } else {
        Change { operation: Operation::Rename { new_path: new }, path: given }
    }
}

/// How one change is shown to the operator: nothing for a no-op, the doomed
/// path for a removal, and `original → new` for a rename, with the arrow
/// making the direction unambiguous.
pub open spec fn spec_render_change(c: ChangeView) -> Seq<char> {
    match c.operation {
        OperationView::NoOp => Seq::<char>::empty(),
        OperationView::Remove => c.path,
        OperationView::Rename { new_path } => c.path + " → "@ + new_path,
    }
}

impl Change {
    /// Renders this change for the summary shown before anything is applied.
    pub fn render(&self) -> (s: String)
        ensures
            s@ == spec_render_change(self@),
    {
        match &self.operation {
            Operation::NoOp => String::new(),
            Operation::Remove => self.path.clone(),
            Operation::Rename { new_path } => {
                let mut s = self.path.clone();
                s.append(" → ");
                s.append(new_path.as_str());
                s
            },
        }
    }
}

} // verus!
