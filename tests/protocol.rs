use shmem_bind::{
    Acquisition, Action, Builder, Outcome, ReleaseAction, ShmemBox, ShmemConf, ShmemError, Stage,
    Step,
};

const FD: i32 = 7;
const ADDR: usize = 0x7f00_0000_1000;

fn pending(step: Step) -> Acquisition {
    match step {
        Step::Pending(a) => a,
        Step::Ready(_) => panic!("acquisition completed early"),
        Step::Failed(e) => panic!("acquisition failed: {}", e.as_str()),
    }
}

fn ready(step: Step) -> ShmemConf {
    match step {
        Step::Ready(c) => c,
        Step::Pending(_) => panic!("acquisition still pending"),
        Step::Failed(e) => panic!("acquisition failed: {}", e.as_str()),
    }
}

fn failed(step: Step) -> ShmemError {
    match step {
        Step::Failed(e) => e,
        _ => panic!("acquisition did not fail"),
    }
}

/// Runs an acquisition of a segment that does not exist yet.
fn create(name: &str, size: i64, fd: i32, addr: usize) -> ShmemConf {
    let a = Acquisition::new(Builder::new(name).with_size(size));
    let a = pending(a.step(Outcome::Descriptor(-1)));
    let a = pending(a.step(Outcome::Descriptor(fd)));
    let a = pending(a.step(Outcome::Status(0)));
    ready(a.step(Outcome::Address(addr)))
}

/// Runs an acquisition of a segment that exists.
fn reopen(name: &str, size: i64, fd: i32, addr: usize) -> ShmemConf {
    let a = Acquisition::new(Builder::new(name).with_size(size));
    let a = pending(a.step(Outcome::Descriptor(fd)));
    ready(a.step(Outcome::Address(addr)))
}

#[test]
fn builder_keeps_name_and_size() {
    let b = Builder::new("segment-a");
    assert_eq!(b.id(), "segment-a");
    let b = b.with_size(24);
    assert_eq!(b.id(), "segment-a");
    assert_eq!(b.size(), 24);
}

#[test]
fn acquisition_asks_for_calls_in_order() {
    let a = Acquisition::new(Builder::new("order").with_size(16));
    assert_eq!(a.id(), "order");
    assert_eq!(a.stage(), Stage::Open);
    assert_eq!(a.action(), Action::OpenExisting);
    let a = pending(a.step(Outcome::Descriptor(-1)));
    assert_eq!(a.action(), Action::CreateNew);
    let a = pending(a.step(Outcome::Descriptor(FD)));
    assert_eq!(a.action(), Action::Resize { fd: FD, size: 16 });
    let a = pending(a.step(Outcome::Status(0)));
    assert_eq!(a.stage(), Stage::Mapping { fd: FD, is_owner: true });
    assert_eq!(a.action(), Action::MapShared { fd: FD, size: 16 });
}

#[test]
fn existing_segment_is_mapped_without_creation() {
    let a = Acquisition::new(Builder::new("existing").with_size(16));
    let a = pending(a.step(Outcome::Descriptor(FD)));
    assert_eq!(a.stage(), Stage::Mapping { fd: FD, is_owner: false });
    assert_eq!(a.action(), Action::MapShared { fd: FD, size: 16 });
}

#[test]
fn answers_only_the_awaited_call() {
    let a = Acquisition::new(Builder::new("kinds").with_size(8));
    assert!(a.answers(&Outcome::Descriptor(-1)));
    assert!(!a.answers(&Outcome::Status(0)));
    assert!(!a.answers(&Outcome::Address(ADDR)));
    let a = pending(a.step(Outcome::Descriptor(FD)));
    assert!(a.answers(&Outcome::Address(ADDR)));
    assert!(!a.answers(&Outcome::Descriptor(FD)));
}

#[test]
fn fresh_name_is_owned_with_requested_size() {
    let c = create("fresh", 4, FD, ADDR);
    assert!(c.is_owner());
    assert_eq!(c.id(), "fresh");
    assert_eq!(c.size(), 4);
    assert_eq!(c.fd(), FD);
    assert_eq!(c.addr(), ADDR);
}

#[test]
fn existing_name_is_borrowed() {
    let c = reopen("again", 4, FD + 1, ADDR + 4096);
    assert!(!c.is_owner());
    assert_eq!(c.id(), "again");
    assert_eq!(c.size(), 4);
    assert_eq!(c.fd(), FD + 1);
    assert_eq!(c.addr(), ADDR + 4096);
}

#[test]
fn create_failure_is_reported() {
    let a = Acquisition::new(Builder::new("denied").with_size(4));
    let a = pending(a.step(Outcome::Descriptor(-1)));
    assert_eq!(failed(a.step(Outcome::Descriptor(-1))), ShmemError::CreateFailedErr);
}

#[test]
fn resize_failure_is_reported() {
    let a = Acquisition::new(Builder::new("too-big").with_size(-1));
    let a = pending(a.step(Outcome::Descriptor(-1)));
    let a = pending(a.step(Outcome::Descriptor(FD)));
    assert_eq!(failed(a.step(Outcome::Status(-1))), ShmemError::AllocationFailedErr);
}

#[test]
fn null_mapping_is_reported() {
    let a = Acquisition::new(Builder::new("unmapped").with_size(4));
    let a = pending(a.step(Outcome::Descriptor(FD)));
    assert_eq!(failed(a.step(Outcome::Address(0))), ShmemError::NullPointerErr);
}

#[test]
fn failed_mapping_marker_is_reported() {
    let a = Acquisition::new(Builder::new("unmapped-too").with_size(4));
    let a = pending(a.step(Outcome::Descriptor(FD)));
    assert_eq!(failed(a.step(Outcome::Address(usize::MAX))), ShmemError::NullPointerErr);
}

#[test]
fn zero_size_goes_through_without_special_case() {
    let a = Acquisition::new(Builder::new("empty").with_size(0));
    let a = pending(a.step(Outcome::Descriptor(-1)));
    let a = pending(a.step(Outcome::Descriptor(FD)));
    assert_eq!(a.action(), Action::Resize { fd: FD, size: 0 });
    let a = pending(a.step(Outcome::Status(0)));
    assert_eq!(a.action(), Action::MapShared { fd: FD, size: 0 });
    // the system refuses a mapping of zero bytes
    assert_eq!(failed(a.step(Outcome::Address(usize::MAX))), ShmemError::NullPointerErr);
}

#[test]
fn error_names() {
    assert_eq!(ShmemError::CreateFailedErr.as_str(), "CreateFailedErr");
    assert_eq!(ShmemError::AllocationFailedErr.as_str(), "AllocationFailedErr");
    assert_eq!(ShmemError::NullPointerErr.as_str(), "NullPointerErr");
}

#[test]
fn handle_ownership_follows_creation() {
    let owner = create("made-here", 4, FD, ADDR).boxed();
    assert!(owner.is_owner());
    let borrower = reopen("made-here", 4, FD + 1, ADDR + 4096).boxed();
    assert!(!borrower.is_owner());
    assert_eq!(borrower.conf().addr(), ADDR + 4096);
}

#[test]
fn owner_release_unlinks() {
    let h = create("owned", 4, FD, ADDR).boxed();
    assert_eq!(
        h.release(),
        vec![
            ReleaseAction::DropValue,
            ReleaseAction::Unmap { addr: ADDR, size: 4 },
            ReleaseAction::Unlink,
            ReleaseAction::Close { fd: FD },
        ]
    );
}

#[test]
fn borrower_release_only_unmaps_and_closes() {
    let h = reopen("borrowed", 4, FD, ADDR).boxed();
    assert_eq!(
        h.release(),
        vec![ReleaseAction::Unmap { addr: ADDR, size: 4 }, ReleaseAction::Close { fd: FD }]
    );
}

#[test]
fn leak_gives_the_address() {
    let h = create("kept", 4, FD, ADDR).boxed();
    assert_eq!(ShmemBox::leak(h), ADDR);
}

#[test]
fn own_is_idempotent() {
    let h = reopen("claimed", 4, FD, ADDR).boxed();
    assert!(!h.is_owner());
    let h = ShmemBox::own(h);
    assert!(h.is_owner());
    let h = ShmemBox::own(h);
    assert!(h.is_owner());
    assert_eq!(h.conf().id(), "claimed");
    assert_eq!(h.conf().fd(), FD);
    assert_eq!(h.conf().addr(), ADDR);
    assert_eq!(h.conf().size(), 4);
    assert_eq!(h.release().len(), 4);
}

#[test]
fn message_passing_handoff() {
    // the first process creates "msg" for a 4-byte integer and keeps it alive
    let first = create("msg", 4, FD, ADDR).boxed();
    assert!(first.is_owner());
    let first_addr = ShmemBox::leak(first);
    // a second process opens the same segment, without owning it, and leaks too
    let second = reopen("msg", 4, FD + 3, ADDR + 8192).boxed();
    assert!(!second.is_owner());
    assert_eq!(ShmemBox::leak(second), ADDR + 8192);
    // the first process still holds its own address
    assert_eq!(first_addr, ADDR);
}
