use vstd::prelude::*;

use crate::builder::{BuilderWithSize, RequestView};
use crate::error::ShmemError;
use crate::segment::{valid_address, ConfView, ShmemConf};

verus! {

/// The call an acquisition waits on.
#[derive(Debug, Clone, Copy, PartialEq, Eq, Structural)]
pub enum Stage {
    /// The open of an existing segment of that name.
    Open,
    /// The creation of the segment, after the open found none.
    Create,
    /// The resize of the segment just created, open as `fd`.
    Resize { fd: i32 },
    /// The mapping of the segment open as `fd`; `is_owner` says whether it was
    /// created on the way.
    Mapping { fd: i32, is_owner: bool },
}

/// A call into the operating system that an acquisition asks for.
#[derive(Debug, Clone, Copy, PartialEq, Eq, Structural)]
pub enum Action {
    /// Open the named segment for reading and writing, without creating it.
    OpenExisting,
    /// Open the named segment for reading and writing, creating it.
    CreateNew,
    /// Set the length of the segment open as `fd` to `size` bytes.
    Resize { fd: i32, size: i64 },
    /// Map `size` bytes of the segment open as `fd`, shared and writable.
    MapShared { fd: i32, size: i64 },
}

/// What a call returned.
#[derive(Debug, Clone, Copy, PartialEq, Eq, Structural)]
pub enum Outcome {
    /// The result of an open or a create: a descriptor, or a negative number
    /// where the call failed.
    Descriptor(i32),
    /// The result of a resize: negative where the call failed.
    Status(i32),
    /// The address that a mapping returned.
    Address(usize),
}

/// Where an acquisition stands: the segment it is for and the call it waits on.
pub struct AcquisitionView {
    pub name: Seq<char>,
    pub size: i64,
    pub stage: Stage,
}

/// What one step of an acquisition leads to.
pub enum StepView {
    Pending(AcquisitionView),
    Ready(ConfView),
    Failed(ShmemError),
}

/// The acquisition that a request starts with: it first tries to open an
/// existing segment.
pub open spec fn start(req: RequestView) -> AcquisitionView {
    AcquisitionView { name: req.name, size: req.size, stage: Stage::Open }
}

/// The call that an acquisition at `a` asks for.
pub open spec fn action_of(a: AcquisitionView) -> Action {
    match a.stage {
        Stage::Open => Action::OpenExisting,
        Stage::Create => Action::CreateNew,
        Stage::Resize { fd } => Action::Resize { fd, size: a.size },
        Stage::Mapping { fd, .. } => Action::MapShared { fd, size: a.size },
    }
}

/// Whether `o` is what the call awaited at `stage` returns.
pub open spec fn answers(stage: Stage, o: Outcome) -> bool {
    match stage {
        Stage::Open | Stage::Create => o is Descriptor,
        Stage::Resize { .. } => o is Status,
        Stage::Mapping { .. } => o is Address,
    }
}

/// One step of the open-or-create protocol.
///
/// An existing segment is opened and mapped, and this process does not own
/// it. A missing one is created, resized and mapped, and this process owns it.
/// Each failure ends the acquisition at once: there are no retries.
pub open spec fn next(a: AcquisitionView, o: Outcome) -> StepView {
    match (a.stage, o) {
        (Stage::Open, Outcome::Descriptor(fd)) =>
            if fd >= 0 {
                StepView::Pending(AcquisitionView { stage: Stage::Mapping { fd, is_owner: false }, ..a })
            } else {
                StepView::Pending(AcquisitionView { stage: Stage::Create, ..a })
            },
        (Stage::Create, Outcome::Descriptor(fd)) =>
            if fd >= 0 {
                StepView::Pending(AcquisitionView { stage: Stage::Resize { fd }, ..a })
            } else {
                StepView::Failed(ShmemError::CreateFailedErr)
            },
        (Stage::Resize { fd }, Outcome::Status(status)) =>
            if status >= 0 {
                StepView::Pending(AcquisitionView { stage: Stage::Mapping { fd, is_owner: true }, ..a })
            } else {
                StepView::Failed(ShmemError::AllocationFailedErr)
            },
        (Stage::Mapping { fd, is_owner }, Outcome::Address(addr)) =>
            if valid_address(addr) {
                StepView::Ready(ConfView { name: a.name, is_owner, fd, addr, size: a.size })
            } else {
                StepView::Failed(ShmemError::NullPointerErr)
            },
        _ => StepView::Pending(a),
    }
}

/// An acquisition of a named segment in progress.
///
/// It says which call to make next ([`Acquisition::action`]) and takes what
/// that call returned ([`Acquisition::step`]). A request for a size of zero is
/// handled as any other: the resize sets a length of zero, and a mapping of
/// zero bytes, which the system refuses, ends in
/// [`ShmemError::NullPointerErr`].
pub struct Acquisition {
    id: String,
    size: i64,
    stage: Stage,
}

/// The result of one step of an acquisition.
pub enum Step {
    /// The acquisition waits on another call.
    Pending(Acquisition),
    /// The segment is open and mapped.
    Ready(ShmemConf),
    /// The acquisition failed.
    Failed(ShmemError),
}

impl View for Acquisition {
    type V = AcquisitionView;

    closed spec fn view(&self) -> AcquisitionView {
        AcquisitionView { name: self.id@, size: self.size, stage: self.stage }
    }
}

impl View for Step {
    type V = StepView;

    open spec fn view(&self) -> StepView {
        match self {
            Step::Pending(a) => StepView::Pending(a@),
            Step::Ready(c) => StepView::Ready(c@),
            Step::Failed(e) => StepView::Failed(*e),
        }
    }
}

impl Acquisition {
    #[verifier::type_invariant]
    spec fn inv(self) -> bool {
        match self.stage {
            Stage::Resize { fd } => fd >= 0,
            Stage::Mapping { fd, .. } => fd >= 0,
            _ => true,
        }
    }

    /// Starts opening the segment that `request` names.
    pub fn new(request: BuilderWithSize) -> (r: Self)
        ensures
            r@ == start(request@),
    {
        let (id, size) = request.into_parts();
        Acquisition { id, size, stage: Stage::Open }
    }

    /// The name of the segment being opened.
    pub fn id(&self) -> (r: &str)
        ensures
            r@ == self@.name,
    {
        self.id.as_str()
    }

    /// The call awaited.
    pub fn stage(&self) -> (r: Stage)
        ensures
            r == self@.stage,
    {
        self.stage
    }

    /// The call to make next.
    pub fn action(&self) -> (r: Action)
        ensures
            r == action_of(self@),
    {
        match self.stage {
            Stage::Open => Action::OpenExisting,
            Stage::Create => Action::CreateNew,
            Stage::Resize { fd } => Action::Resize { fd, size: self.size },
            Stage::Mapping { fd, .. } => Action::MapShared { fd, size: self.size },
        }
    }

    /// Whether `o` is of the kind that the awaited call returns.
    pub fn answers(&self, o: &Outcome) -> (r: bool)
        ensures
            r == answers(self@.stage, *o),
    {
        match (self.stage, o) {
            (Stage::Open, Outcome::Descriptor(_)) => true,
            (Stage::Create, Outcome::Descriptor(_)) => true,
            (Stage::Resize { .. }, Outcome::Status(_)) => true,
            (Stage::Mapping { .. }, Outcome::Address(_)) => true,
            _ => false,
        }
    }

    /// Takes what the awaited call returned and moves on.
    pub fn step(self, o: Outcome) -> (r: Step)
        requires
            answers(self@.stage, o),
        ensures
            r@ == next(self@, o),
    {
        proof {
            use_type_invariant(&self);
        }
        let Acquisition { id, size, stage } = self;
        match (stage, o) {
            (Stage::Open, Outcome::Descriptor(fd)) => {
                let stage = if fd >= 0 {
                    Stage::Mapping { fd, is_owner: false }
                } else {
                    Stage::Create
                };
                Step::Pending(Acquisition { id, size, stage })
            },
            (Stage::Create, Outcome::Descriptor(fd)) => {
                if fd >= 0 {
                    Step::Pending(Acquisition { id, size, stage: Stage::Resize { fd } })
                } else {
                    Step::Failed(ShmemError::CreateFailedErr)
                }
            },
            (Stage::Resize { fd }, Outcome::Status(status)) => {
                if status >= 0 {
                    Step::Pending(Acquisition { id, size, stage: Stage::Mapping { fd, is_owner: true } })
                } else {
                    Step::Failed(ShmemError::AllocationFailedErr)
                }
            },
            (Stage::Mapping { fd, is_owner }, Outcome::Address(addr)) => {
                if addr != 0 && addr != usize::MAX {
                    Step::Ready(ShmemConf::new(id, is_owner, fd, addr, size))
                } else {
                    Step::Failed(ShmemError::NullPointerErr)
                }
            },
            _ => Step::Pending(Acquisition { id, size, stage }),
        }
    }
}

} // verus!
