use vstd::prelude::*;

verus! {

/// What a request for a segment holds: the segment's name and its size in bytes.
pub struct RequestView {
    pub name: Seq<char>,
    pub size: i64,
}

/// The first half of a request: the name of the segment.
pub struct Builder {
    id: String,
}

/// A complete request for a segment: its name and the size it is made with.
pub struct BuilderWithSize {
    id: String,
    size: i64,
}

impl View for Builder {
    type V = Seq<char>;

    closed spec fn view(&self) -> Seq<char> {
        self.id@
    }
}

impl View for BuilderWithSize {
    type V = RequestView;

    closed spec fn view(&self) -> RequestView {
        RequestView { name: self.id@, size: self.size }
    }
}

impl Builder {
    /// Starts a request for the segment named `id`.
    pub fn new(id: &str) -> (r: Self)
        ensures
            r@ == id@,
    {
        Builder { id: id.to_owned() }
    }

    /// Completes the request with the segment's size in bytes.
    pub fn with_size(self, size: i64) -> (r: BuilderWithSize)
        ensures
            r@ == (RequestView { name: self@, size }),
    {
        BuilderWithSize { id: self.id, size }
    }

    /// The name of the segment asked for.
    pub fn id(&self) -> (r: &str)
        ensures
            r@ == self@,
    {
        self.id.as_str()
    }
}

impl BuilderWithSize {
    /// The name of the segment asked for.
    pub fn id(&self) -> (r: &str)
        ensures
            r@ == self@.name,
    {
        self.id.as_str()
    }

    /// The size in bytes asked for.
    pub fn size(&self) -> (r: i64)
        ensures
            r == self@.size,
    {
        self.size
    }

    /// Takes the request apart into its name and its size.
    pub(crate) fn into_parts(self) -> (r: (String, i64))
        ensures
            r.0@ == self@.name,
            r.1 == self@.size,
    {
        (self.id, self.size)
    }
}

} // verus!
