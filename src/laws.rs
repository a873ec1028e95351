//! The protocol against a model of the shared-memory namespace: the set of
//! names that it holds at one moment.
use vstd::prelude::*;

use crate::acquire::{next, start, AcquisitionView, Outcome, Stage, StepView};
use crate::builder::RequestView;
use crate::handle::{release_plan, ReleaseAction};
use crate::segment::ConfView;

verus! {

/// Where a run of an acquisition stands after it took the outcomes `outs`,
/// in order, beginning at `a`.
pub open spec fn run(a: AcquisitionView, outs: Seq<Outcome>) -> StepView
    decreases outs.len(),
{
    if outs.len() == 0 {
        StepView::Pending(a)
    } else {
        match next(a, outs[0]) {
            StepView::Pending(b) => run(b, outs.drop_first()),
            done => done,
        }
    }
}

/// Whether `o` is what the system answers to an open, without creation, of
/// `name` while its namespace holds `names`: a descriptor exactly where the
/// name is there.
pub open spec fn open_reply(names: Set<Seq<char>>, name: Seq<char>, o: Outcome) -> bool {
    o matches Outcome::Descriptor(fd) && (fd >= 0 <==> names.contains(name))
}

/// The namespace after a handle with descriptor `c` was released.
pub open spec fn after_release(names: Set<Seq<char>>, c: ConfView) -> Set<Seq<char>> {
    if release_plan(c).contains(ReleaseAction::Unlink) {
        names.remove(c.name)
    } else {
        names
    }
}

/// Whether an acquisition waiting at `stage` can still end as the owner:
/// exactly where it created the segment.
pub open spec fn owner_on_completion(stage: Stage) -> bool {
    match stage {
        Stage::Open => false,
        Stage::Create => true,
        Stage::Resize { .. } => true,
        Stage::Mapping { is_owner, .. } => is_owner,
    }
}

/// A run that completes gives a descriptor of the segment and the size asked
/// for; past its first call, it owns the segment exactly where it was on the
/// way to creating it.
proof fn lemma_run_completes(a: AcquisitionView, outs: Seq<Outcome>)
    ensures
        run(a, outs) matches StepView::Ready(c) ==> {
            &&& c.name == a.name
            &&& c.size == a.size
            &&& a.stage != Stage::Open ==> c.is_owner == owner_on_completion(a.stage)
        },
    decreases outs.len(),
{
    if outs.len() > 0 {
        if let StepView::Pending(b) = next(a, outs[0]) {
            lemma_run_completes(b, outs.drop_first());
        }
    }
}

/// Acquiring a name that the namespace does not hold: where the acquisition
/// completes, it created the segment, owns it, and maps exactly the size that
/// was asked for.
pub proof fn lemma_fresh_name_is_owned(
    names: Set<Seq<char>>,
    req: RequestView,
    outs: Seq<Outcome>,
)
    requires
        !names.contains(req.name),
        outs.len() > 0,
        open_reply(names, req.name, outs[0]),
    ensures
        run(start(req), outs) matches StepView::Ready(c) ==> {
            &&& c.is_owner
            &&& c.name == req.name
            &&& c.size == req.size
        },
{
    lemma_run_completes(start(req), outs);
    if let StepView::Pending(b) = next(start(req), outs[0]) {
        lemma_run_completes(b, outs.drop_first());
    }
}

/// Acquiring a name that the namespace already holds, in this process or
/// another: where the acquisition completes, it does not own the segment.
pub proof fn lemma_existing_name_is_borrowed(
    names: Set<Seq<char>>,
    req: RequestView,
    outs: Seq<Outcome>,
)
    requires
        names.contains(req.name),
        outs.len() > 0,
        open_reply(names, req.name, outs[0]),
    ensures
        run(start(req), outs) matches StepView::Ready(c) ==> {
            &&& !c.is_owner
            &&& c.name == req.name
            &&& c.size == req.size
        },
{
    if let StepView::Pending(b) = next(start(req), outs[0]) {
        lemma_run_completes(b, outs.drop_first());
    }
}

/// Releasing an owning handle removes its name from the namespace, so that
/// the next acquisition of that name, where it completes, owns a fresh
/// segment.
pub proof fn lemma_owner_release_frees_name(
    names: Set<Seq<char>>,
    c: ConfView,
    size: i64,
    outs: Seq<Outcome>,
)
    requires
        c.is_owner,
        outs.len() > 0,
        open_reply(after_release(names, c), c.name, outs[0]),
    ensures
        !after_release(names, c).contains(c.name),
        run(start(RequestView { name: c.name, size }), outs) matches StepView::Ready(d) ==> d.is_owner,
{
    assert(release_plan(c)[2] == ReleaseAction::Unlink);
    lemma_fresh_name_is_owned(after_release(names, c), RequestView { name: c.name, size }, outs);
}

/// Releasing a borrowing handle leaves the namespace as it was and does not
/// touch the segment's contents, so that the next acquisition of that name,
/// where it completes, opens the same segment without owning it.
pub proof fn lemma_borrower_release_keeps_segment(
    names: Set<Seq<char>>,
    c: ConfView,
    size: i64,
    outs: Seq<Outcome>,
)
    requires
        !c.is_owner,
        names.contains(c.name),
        outs.len() > 0,
        open_reply(after_release(names, c), c.name, outs[0]),
    ensures
        after_release(names, c) == names,
        !release_plan(c).contains(ReleaseAction::DropValue),
        run(start(RequestView { name: c.name, size }), outs) matches StepView::Ready(d) ==> !d.is_owner,
{
    let plan = release_plan(c);
    assert(!plan.contains(ReleaseAction::Unlink)) by {
        assert(plan[0] != ReleaseAction::Unlink && plan[1] != ReleaseAction::Unlink);
    }
    assert(!plan.contains(ReleaseAction::DropValue)) by {
        assert(plan[0] != ReleaseAction::DropValue && plan[1] != ReleaseAction::DropValue);
    }
    lemma_existing_name_is_borrowed(names, RequestView { name: c.name, size }, outs);
}

/// Making a handle owning is idempotent, changes nothing but its ownership,
/// and is undone by nothing that the release makes of it: an owning handle's
/// release always removes the name.
pub proof fn lemma_own_idempotent(c: ConfView)
    ensures
        c.owned().owned() == c.owned(),
        c.owned().is_owner,
        c.owned().name == c.name,
        c.owned().fd == c.fd,
        c.owned().addr == c.addr,
        c.owned().size == c.size,
        release_plan(c.owned()).contains(ReleaseAction::Unlink),
{
    assert(release_plan(c.owned())[2] == ReleaseAction::Unlink);
}

} // verus!
