//! What a fixed-width note field offers its users, stated over the bytes it holds.
use vstd::prelude::*;

verus! {

/// The one way construction can fail: the bytes supplied do not add up to the width.
#[derive(Clone, Copy, Debug, PartialEq, Eq, Structural)]
pub enum NoteBytesError {
    LengthMismatch,
}

/// The contents of a buffer of `width` bytes built from `s`, or `None` where `s`
/// has another length.
pub open spec fn contents_from(width: nat, s: Seq<u8>) -> Option<Seq<u8>> {
    if s.len() == width {
        Some(s)
    } else {
        None
    }
}

/// The contents of a buffer of `width` bytes built from `first` followed by `second`,
/// or `None` where their lengths do not add up to `width`.
pub open spec fn contents_from_parts(width: nat, first: Seq<u8>, second: Seq<u8>) -> Option<
    Seq<u8>,
> {
    if first.len() + second.len() == width {
        Some(first + second)
    } else {
        None
    }
}

/// Read access to a fixed number of bytes, construction from a slice of exactly
/// that many, and independent copies.
pub trait NoteByteReader: Sized + Copy {
    /// The number of bytes every value holds.
    spec fn width() -> nat;

    /// The bytes a value holds, in order.
    spec fn bytes(&self) -> Seq<u8>;

    /// Builds a value holding `s`; fails where `s` is not exactly `width()` bytes long.
    fn construct_from(s: &[u8]) -> (r: Result<Self, NoteBytesError>)
        ensures
            match r {
                Ok(v) => contents_from(Self::width(), s@) == Some(v.bytes()),
                Err(e) => contents_from(Self::width(), s@) is None && e == NoteBytesError::LengthMismatch,
            },
    ;

    /// A read-only view of all the bytes.
    fn as_readable(&self) -> (r: &[u8])
        ensures
            r@ == self.bytes(),
            r@.len() == Self::width(),
    ;

    /// A copy that owns its own bytes, equal to these.
    fn duplicate(&self) -> (r: Self)
        ensures
            r.bytes() == self.bytes(),
    ;
}

/// In-place write access to the bytes, which never changes how many there are.
pub trait NoteByteWriter: NoteByteReader {
    /// A mutable view of all the bytes: it starts out as the current contents, and
    /// what it holds when the borrow ends is the new contents.
    fn as_writable(&mut self) -> (r: &mut [u8])
        ensures
            r@ == old(self).bytes(),
            final(self).bytes() == final(r)@,
            final(r)@.len() == Self::width(),
    ;
}

/// Construction by placing one byte sequence right after another.
pub trait NoteByteConcat: NoteByteReader {
    /// Builds a value holding `first` followed by `second`; fails where their
    /// lengths do not add up to exactly `width()`.
    fn construct_from_parts(first: &[u8], second: &[u8]) -> (r: Result<Self, NoteBytesError>)
        ensures
            match r {
                Ok(v) => contents_from_parts(Self::width(), first@, second@) == Some(v.bytes()),
                Err(e) => contents_from_parts(Self::width(), first@, second@) is None
                    && e == NoteBytesError::LengthMismatch,
            },
    ;
}

/// Every capability at once, for values that may move between threads.
pub trait NoteBytes: NoteByteReader + NoteByteWriter + NoteByteConcat + Send {

}

} // verus!
