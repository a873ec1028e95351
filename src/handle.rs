use vstd::prelude::*;

use crate::segment::{valid_address, ConfView, ShmemConf};

verus! {

/// One step of releasing a handle.
#[derive(Debug, Clone, Copy, PartialEq, Eq, Structural)]
pub enum ReleaseAction {
    /// Run the destructor of the value held in the segment.
    DropValue,
    /// Remove the mapping of `size` bytes at `addr` from this process.
    Unmap { addr: usize, size: i64 },
    /// Remove the segment's name from the namespace.
    Unlink,
    /// Close the descriptor `fd`.
    Close { fd: i32 },
}

/// The steps, in order, by which a handle with descriptor `c` is released.
///
/// The mapping is always removed and the descriptor always closed: both belong
/// to this process alone. Only an owner destroys the value and removes the
/// name, before the descriptor is closed.
pub open spec fn release_plan(c: ConfView) -> Seq<ReleaseAction> {
    if c.is_owner {
        seq![
            ReleaseAction::DropValue,
            ReleaseAction::Unmap { addr: c.addr, size: c.size },
            ReleaseAction::Unlink,
            ReleaseAction::Close { fd: c.fd },
        ]
    } else {
        seq![ReleaseAction::Unmap { addr: c.addr, size: c.size }, ReleaseAction::Close { fd: c.fd }]
    }
}

/// A handle on a mapped segment that holds a value, and its place in the
/// release protocol.
///
/// A handle is borrowing unless its acquisition created the segment, and
/// becomes owning only through [`ShmemBox::own`]. Its end is either
/// [`ShmemBox::release`], which gives the steps to carry out, or
/// [`ShmemBox::leak`], after which nothing is released at all. A step of a
/// release that fails leaves the segment half released: the caller is to treat
/// it as fatal and stop, not go on.
pub struct ShmemBox {
    conf: ShmemConf,
}

impl View for ShmemBox {
    type V = ConfView;

    closed spec fn view(&self) -> ConfView {
        self.conf@
    }
}

impl ShmemConf {
    /// Makes a handle on this segment, owning where this descriptor created it.
    pub fn boxed(self) -> (r: ShmemBox)
        ensures
            r@ == self@,
    {
        ShmemBox { conf: self }
    }
}

impl ShmemBox {
    /// The descriptor of the segment.
    pub fn conf(&self) -> (r: &ShmemConf)
        ensures
            r@ == self@,
    {
        &self.conf
    }

    /// Whether the handle is owning.
    pub fn is_owner(&self) -> (r: bool)
        ensures
            r == self@.is_owner,
    {
        self.conf.is_owner()
    }

    /// Makes the handle owning, whatever it was; nothing else changes.
    pub fn own(shmem_box: Self) -> (r: Self)
        ensures
            r@ == shmem_box@.owned(),
    {
        ShmemBox { conf: shmem_box.conf.into_owned() }
    }

    /// Ends the handle without releasing anything, and gives the address of
    /// the value it held.
    pub fn leak(shmem_box: Self) -> (r: usize)
        ensures
            r == shmem_box@.addr,
            valid_address(r),
    {
        shmem_box.conf.addr()
    }

    /// Ends the handle, and gives the steps that release it.
    pub fn release(self) -> (r: Vec<ReleaseAction>)
        ensures
            r@ == release_plan(self@),
    {
        let addr = self.conf.addr();
        let size = self.conf.size();
        let fd = self.conf.fd();
        let mut plan: Vec<ReleaseAction> = Vec::new();
        if self.conf.is_owner() {
            plan.push(ReleaseAction::DropValue);
        }
        plan.push(ReleaseAction::Unmap { addr, size });
        if self.conf.is_owner() {
            plan.push(ReleaseAction::Unlink);
        }
        plan.push(ReleaseAction::Close { fd });
        proof {
            assert(plan@ =~= release_plan(self@));
        }
        plan
    }
}

} // verus!
