//! A buffer that owns exactly `N` bytes.
use vstd::prelude::*;

use crate::capability::{NoteByteConcat, NoteByteReader, NoteByteWriter, NoteBytes, NoteBytesError};

verus! {

/// Exactly `N` bytes of one note field, owned by value.
#[derive(Clone, Copy, Debug)]
pub struct NoteBytesData<const N: usize>(pub [u8; N]);

impl<const N: usize> View for NoteBytesData<N> {
    type V = Seq<u8>;

    open spec fn view(&self) -> Seq<u8> {
        self.0@
    }
}

impl<const N: usize> NoteByteReader for NoteBytesData<N> {
    open spec fn width() -> nat {
        N as nat
    }

    open spec fn bytes(&self) -> Seq<u8> {
        self@
    }

    fn construct_from(s: &[u8]) -> (r: Result<Self, NoteBytesError>)
        ensures
            r is Ok <==> s@.len() == N,
            r matches Ok(v) ==> v@ == s@,
            r matches Err(e) ==> e == NoteBytesError::LengthMismatch,
    {
        if s.len() != N {
            return Err(NoteBytesError::LengthMismatch);
        }
        let mut out = [0u8; N];
        let mut i: usize = 0;
        while i < N
            invariant
                i <= N,
                s@.len() == N,
                forall|j: int| 0 <= j < i ==> out@[j] == s@[j],
            decreases N - i,
        {
            out[i] = s[i];
            i += 1;
        }
        assert(out@ =~= s@);
        Ok(NoteBytesData(out))
    }

    fn as_readable(&self) -> (r: &[u8])
        ensures
            r@ == self@,
    {
        self.0.as_slice()
    }

    fn duplicate(&self) -> (r: Self)
        ensures
            r@ == self@,
    {
        *self
    }
}

impl<const N: usize> NoteByteWriter for NoteBytesData<N> {
    fn as_writable(&mut self) -> (r: &mut [u8])
        ensures
            r@ == old(self)@,
            final(self)@ == final(r)@,
    {
        &mut self.0
    }
}

impl<const N: usize> NoteByteConcat for NoteBytesData<N> {
    fn construct_from_parts(first: &[u8], second: &[u8]) -> (r: Result<Self, NoteBytesError>)
        ensures
            r is Ok <==> first@.len() + second@.len() == N,
            r matches Ok(v) ==> v@ == first@ + second@,
            r matches Err(e) ==> e == NoteBytesError::LengthMismatch,
    {
        if first.len() > N || second.len() != N - first.len() {
            return Err(NoteBytesError::LengthMismatch);
        }
        let split = first.len();
        let mut out = [0u8; N];
        let mut i: usize = 0;
        while i < split
            invariant
                i <= split,
                split == first@.len(),
                split + second@.len() == N,
                forall|j: int| 0 <= j < i ==> out@[j] == first@[j],
            decreases split - i,
        {
            out[i] = first[i];
            i += 1;
        }
        while i < N
            invariant
                split <= i <= N,
                split == first@.len(),
                split + second@.len() == N,
                forall|j: int| 0 <= j < split ==> out@[j] == first@[j],
                forall|j: int| split <= j < i ==> out@[j] == second@[j - split],
            decreases N - i,
        {
            out[i] = second[i - split];
            i += 1;
        }
        assert(out@ =~= first@ + second@);
        Ok(NoteBytesData(out))
    }
}

impl<const N: usize> NoteBytes for NoteBytesData<N> {

}

} // verus!
