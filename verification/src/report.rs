//! The change reporter: the summary shown to the operator before anything is
//! applied. Removals and renamings are rendered in their original relative
//! order, removals first, no-ops are silent, and a sequence without an
//! actionable change renders as the literal no-changes line. This rendering
//! is the sole audit trail the operator sees before destructive action.
use crate::model::{spec_render_change, Change, ChangeView, Operation, OperationView};
use vstd::prelude::*;
use vstd::string::*;

verus! {

/// The views of a change sequence, element by element.
pub open spec fn changes_view(cs: Seq<Change>) -> Seq<ChangeView> {
    Seq::new(cs.len(), |i: int| cs[i]@)
}

/// The changes that delete, in their original relative order.
pub open spec fn removals_of(cs: Seq<ChangeView>) -> Seq<ChangeView> {
    cs.filter(|c: ChangeView| c.operation is Remove)
}

/// The changes that rename, in their original relative order.
pub open spec fn renamings_of(cs: Seq<ChangeView>) -> Seq<ChangeView> {
    cs.filter(|c: ChangeView| c.operation is Rename)
}

/// Whether at least one change asks for an actual file-system effect.
pub open spec fn has_actionable(cs: Seq<ChangeView>) -> bool {
    exists|i: int| 0 <= i < cs.len() && !(cs[i].operation is NoOp)
}

/// One indented line per change of a rendered group.
pub open spec fn spec_group_lines(cs: Seq<ChangeView>) -> Seq<char>
    decreases cs.len(),
{
    if cs.len() == 0 {
        Seq::<char>::empty()
    } else {
        spec_group_lines(cs.drop_last()) + ("\t"@ + spec_render_change(cs.last()) + "\n"@)
    }
}

/// A rendered group: nothing when the group is empty, otherwise its header,
/// one indented line per change, and a blank separator line.
pub open spec fn spec_group_render(header: Seq<char>, cs: Seq<ChangeView>) -> Seq<char> {
    if cs.len() == 0 {
        Seq::<char>::empty()
    } else {
        header + "\n"@ + spec_group_lines(cs) + "\n"@
    }
}

/// The whole summary: the literal no-changes line when no change is
/// actionable, otherwise the removals group followed by the renamings group.
pub open spec fn spec_summary(cs: Seq<ChangeView>) -> Seq<char> {
    if has_actionable(cs) {
        spec_group_render("DELETE the following files:\n"@, removals_of(cs)) + spec_group_render(
            "RENAME the following files:\n"@,
            renamings_of(cs),
        )
    } else {
        "No changes\n"@
    }
}

/// Filtering by a kind keeps an element exactly when it is of that kind.
proof fn lemma_filter_push(s: Seq<ChangeView>, pred: spec_fn(ChangeView) -> bool, x: ChangeView)
    ensures
        s.push(x).filter(pred) == if pred(x) {
            s.filter(pred).push(x)
        } else {
            s.filter(pred)
        },
{
    reveal_with_fuel(Seq::filter, 2);
    assert(s.push(x).drop_last() =~= s);
    assert(s.push(x).last() == x);
}

/// Appending one change to a group appends exactly its rendered line.
proof fn lemma_group_lines_push(cs: Seq<ChangeView>, c: ChangeView)
    ensures
        spec_group_lines(cs.push(c)) == spec_group_lines(cs) + ("\t"@ + spec_render_change(c)
            + "\n"@),
{
    assert(cs.push(c).drop_last() =~= cs);
    assert(cs.push(c).last() == c);
}

/// A change sequence has an actionable change exactly when one of the two
/// rendered groups is non-empty: no actionable change is ever silently
/// dropped from the summary, and a no-op never appears in it.
pub proof fn lemma_actionable_iff_groups(cs: Seq<ChangeView>)
    ensures
        has_actionable(cs) <==> (removals_of(cs).len() > 0 || renamings_of(cs).len() > 0),
{
    broadcast use vstd::seq_lib::group_filter_ensures;

    let rem = |c: ChangeView| c.operation is Remove;
    let ren = |c: ChangeView| c.operation is Rename;
    if has_actionable(cs) {
        let i = choose|i: int| 0 <= i < cs.len() && !(cs[i].operation is NoOp);
        if cs[i].operation is Remove {
            assert(cs.filter(rem).contains(cs[i]));
        } else {
            assert(cs.filter(ren).contains(cs[i]));
        }
    }
    if removals_of(cs).len() > 0 {
        let e = cs.filter(rem)[0];
        assert(cs.filter(rem).contains(e));
        cs.lemma_filter_contains_rev(rem, e);
        let j = choose|j: int| 0 <= j < cs.len() && cs[j] == e;
        assert(rem(e));
        assert(!(cs[j].operation is NoOp));
    }
    if renamings_of(cs).len() > 0 {
        let e = cs.filter(ren)[0];
        assert(cs.filter(ren).contains(e));
        cs.lemma_filter_contains_rev(ren, e);
        let j = choose|j: int| 0 <= j < cs.len() && cs[j] == e;
        assert(ren(e));
        assert(!(cs[j].operation is NoOp));
    }
}

/// Each group holds changes of its own kind only, and every change of that
/// kind is in its group: the summary never silently omits an actionable
/// change, and a no-op never appears in it.
pub proof fn lemma_groups_partition(cs: Seq<ChangeView>)
    ensures
        forall|j: int|
            0 <= j < removals_of(cs).len() ==> (#[trigger] removals_of(cs)[j]).operation is Remove,
        forall|j: int|
            0 <= j < renamings_of(cs).len() ==> (#[trigger] renamings_of(
                cs,
            )[j]).operation is Rename,
        forall|i: int|
            0 <= i < cs.len() && (#[trigger] cs[i]).operation is Remove ==> removals_of(
                cs,
            ).contains(cs[i]),
        forall|i: int|
            0 <= i < cs.len() && (#[trigger] cs[i]).operation is Rename ==> renamings_of(
                cs,
            ).contains(cs[i]),
{
    broadcast use vstd::seq_lib::group_filter_ensures;

}

/// Copies one change, field by field.
fn clone_change(c: &Change) -> (r: Change)
    ensures
        r@ == c@,
{
    let operation = match &c.operation {
        Operation::NoOp => Operation::NoOp,
        Operation::Remove => Operation::Remove,
        Operation::Rename { new_path } => Operation::Rename { new_path: new_path.clone() },
    };
    Change { path: c.path.clone(), operation }
}

/// The changes that delete, in their original relative order.
pub fn filter_removals(changes: &Vec<Change>) -> (r: Vec<Change>)
    ensures
        changes_view(r@) == removals_of(changes_view(changes@)),
{
    let views = Ghost(changes_view(changes@));
    let mut r: Vec<Change> = Vec::new();
    let mut i: usize = 0;
    while i < changes.len()
        invariant
            i <= changes@.len(),
            views@ == changes_view(changes@),
            changes_view(r@) == removals_of(views@.take(i as int)),
        decreases changes@.len() - i,
    {
        proof {
            assert(views@.take(i + 1) =~= views@.take(i as int).push(views@[i as int]));
            lemma_filter_push(
                views@.take(i as int),
                |c: ChangeView| c.operation is Remove,
                views@[i as int],
            );
        }
        let keep = match &changes[i].operation {
            Operation::Remove => true,
            _ => false,
        };
        if keep {
            let c = clone_change(&changes[i]);
            r.push(c);
            proof {
                assert(changes_view(r@) =~= removals_of(views@.take(i + 1)));
            }
        } else {
            proof {
                assert(changes_view(r@) =~= removals_of(views@.take(i + 1)));
            }
        }
        i += 1;
    }
    proof {
        assert(views@.take(changes@.len() as int) =~= views@);
    }
    r
}

/// The changes that rename, in their original relative order.
pub fn filter_renamings(changes: &Vec<Change>) -> (r: Vec<Change>)
    ensures
        changes_view(r@) == renamings_of(changes_view(changes@)),
{
    let views = Ghost(changes_view(changes@));
    let mut r: Vec<Change> = Vec::new();
    let mut i: usize = 0;
    while i < changes.len()
        invariant
            i <= changes@.len(),
            views@ == changes_view(changes@),
            changes_view(r@) == renamings_of(views@.take(i as int)),
        decreases changes@.len() - i,
    {
        proof {
            assert(views@.take(i + 1) =~= views@.take(i as int).push(views@[i as int]));
            lemma_filter_push(
                views@.take(i as int),
                |c: ChangeView| c.operation is Rename,
                views@[i as int],
            );
        }
        let keep = match &changes[i].operation {
            Operation::Rename { .. } => true,
            _ => false,
        };
        if keep {
            let c = clone_change(&changes[i]);
            r.push(c);
            proof {
                assert(changes_view(r@) =~= renamings_of(views@.take(i + 1)));
            }
        } else {
            proof {
                assert(changes_view(r@) =~= renamings_of(views@.take(i + 1)));
            }
        }
        i += 1;
    }
    proof {
        assert(views@.take(changes@.len() as int) =~= views@);
    }
    r
}

/// Renders one group of changes onto the end of `output`: nothing when the
/// group is empty, otherwise the header line, one indented line per change,
/// and a blank separator line.
pub fn describe_modifying_changes(header: &str, changes: &Vec<Change>, output: String) -> (out:
    String)
    ensures
        out@ == output@ + spec_group_render(header@, changes_view(changes@)),
{
    let views = Ghost(changes_view(changes@));
    if changes.len() == 0 {
        proof {
            assert(output@ + spec_group_render(header@, views@) =~= output@);
        }
        return output;
    }
    let ghost base = output@;
    let mut out = output;
    out.append(header);
    out.append("\n");
    let mut i: usize = 0;
    proof {
        assert(views@.take(0) =~= Seq::<ChangeView>::empty());
        assert(out@ =~= base + header@ + "\n"@ + spec_group_lines(views@.take(0)));
    }
    while i < changes.len()
        invariant
            i <= changes@.len(),
            views@ == changes_view(changes@),
            out@ == base + header@ + "\n"@ + spec_group_lines(views@.take(i as int)),
        decreases changes@.len() - i,
    {
        out.append("\t");
        let line = changes[i].render();
        out.append(line.as_str());
        out.append("\n");
        proof {
            assert(views@.take(i + 1) =~= views@.take(i as int).push(views@[i as int]));
            lemma_group_lines_push(views@.take(i as int), views@[i as int]);
            assert(out@ =~= base + header@ + "\n"@ + spec_group_lines(views@.take(i + 1)));
        }
        i += 1;
    }
    out.append("\n");
    proof {
        assert(views@.take(changes@.len() as int) =~= views@);
        assert(out@ =~= base + spec_group_render(header@, views@));
    }
    out
}

/// Renders the whole summary onto the end of `output` and reports whether at
/// least one actionable change exists. A sequence of no-ops alone renders as
/// the literal no-changes line; otherwise the removals group comes first,
/// then the renamings group, each change exactly once in its group, in its
/// original relative order.
pub fn describe_changes(changes: &Vec<Change>, output: String) -> (r: (String, bool))
    ensures
        r.1 == has_actionable(changes_view(changes@)),
        r.0@ == output@ + spec_summary(changes_view(changes@)),
{
    let ghost views = changes_view(changes@);
    let removals = filter_removals(changes);
    let renamings = filter_renamings(changes);
    proof {
        lemma_actionable_iff_groups(views);
        assert(changes_view(removals@).len() == removals@.len());
        assert(changes_view(renamings@).len() == renamings@.len());
    }
    if removals.len() == 0 && renamings.len() == 0 {
        let mut out = output;
        out.append("No changes\n");
        (out, false)
    } else {
        let out = describe_modifying_changes("DELETE the following files:\n", &removals, output);
        let out = describe_modifying_changes("RENAME the following files:\n", &renamings, out);
        proof {
            assert(out@ =~= output@ + spec_summary(views));
        }
        (out, true)
    }
}

/// A summary never hides an actionable change and never invents one: the
/// no-changes line appears exactly when every change is a no-op, and then
/// the summary is exactly that line; otherwise each removal and each
/// renaming appears exactly once, removals first, in original order.
pub proof fn lemma_summary_shape(cs: Seq<ChangeView>)
    ensures
        has_actionable(cs) <==> !(forall|i: int| 0 <= i < cs.len() ==> cs[i].operation is NoOp),
        !has_actionable(cs) ==> spec_summary(cs) == "No changes\n"@,
        has_actionable(cs) ==> spec_summary(cs) == spec_group_render(
            "DELETE the following files:\n"@,
            removals_of(cs),
        ) + spec_group_render("RENAME the following files:\n"@, renamings_of(cs)),
{
}

} // verus!
