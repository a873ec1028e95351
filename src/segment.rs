use vstd::prelude::*;

verus! {

/// Whether `addr` is an address that a mapping may start at: neither null nor
/// the all-ones value by which a failed mapping is reported.
pub open spec fn valid_address(addr: usize) -> bool {
    addr != 0 && addr != usize::MAX
}

/// What a segment descriptor records.
pub struct ConfView {
    /// The segment's name in the shared-memory namespace.
    pub name: Seq<char>,
    /// Whether this descriptor is responsible for removing the segment's name.
    pub is_owner: bool,
    /// The descriptor of the open segment.
    pub fd: i32,
    /// Where the segment is mapped in this process.
    pub addr: usize,
    /// The size of the mapping in bytes.
    pub size: i64,
}

impl ConfView {
    /// A descriptor of an open, mapped segment.
    pub open spec fn wf(self) -> bool {
        self.fd >= 0 && valid_address(self.addr)
    }

    /// The same descriptor, made responsible for removing the segment's name.
    pub open spec fn owned(self) -> ConfView {
        ConfView { is_owner: true, ..self }
    }
}

/// One mapping of a named shared-memory segment into this process.
///
/// Only a completed [`crate::Acquisition`] makes one, so its descriptor is open
/// and its address valid.
pub struct ShmemConf {
    id: String,
    is_owner: bool,
    fd: i32,
    addr: usize,
    size: i64,
}

impl View for ShmemConf {
    type V = ConfView;

    closed spec fn view(&self) -> ConfView {
        ConfView {
            name: self.id@,
            is_owner: self.is_owner,
            fd: self.fd,
            addr: self.addr,
            size: self.size,
        }
    }
}

impl ShmemConf {
    #[verifier::type_invariant]
    spec fn inv(self) -> bool {
        self@.wf()
    }

    pub(crate) fn new(id: String, is_owner: bool, fd: i32, addr: usize, size: i64) -> (r: Self)
        requires
            fd >= 0,
            valid_address(addr),
        ensures
            r@ == (ConfView { name: id@, is_owner, fd, addr, size }),
    {
        ShmemConf { id, is_owner, fd, addr, size }
    }

    /// The segment's name.
    pub fn id(&self) -> (r: &str)
        ensures
            r@ == self@.name,
    {
        self.id.as_str()
    }

    /// Whether this descriptor created the segment.
    pub fn is_owner(&self) -> (r: bool)
        ensures
            r == self@.is_owner,
    {
        self.is_owner
    }

    /// The descriptor of the open segment.
    pub fn fd(&self) -> (r: i32)
        ensures
            r == self@.fd,
            r >= 0,
    {
        proof {
            use_type_invariant(self);
        }
        self.fd
    }

    /// The address at which the segment is mapped.
    pub fn addr(&self) -> (r: usize)
        ensures
            r == self@.addr,
            valid_address(r),
    {
        proof {
            use_type_invariant(self);
        }
        self.addr
    }

    /// The size of the mapping in bytes.
    pub fn size(&self) -> (r: i64)
        ensures
            r == self@.size,
    {
        self.size
    }

    /// The same descriptor, made responsible for removing the segment's name.
    pub(crate) fn into_owned(self) -> (r: Self)
        ensures
            r@ == self@.owned(),
    {
        proof {
            use_type_invariant(&self);
        }
        ShmemConf { is_owner: true, ..self }
    }
}

} // verus!
