//! Properties of construction, stated over what the constructors' contracts promise.
use vstd::prelude::*;

use crate::capability::{contents_from, contents_from_parts};

verus! {

/// A buffer built from bytes of exactly its width reads back as those very bytes.
pub proof fn lemma_construct_from_reads_back(width: nat, s: Seq<u8>)
    requires
        s.len() == width,
    ensures
        contents_from(width, s) == Some(s),
{
}

/// A buffer built from two parts whose lengths add up to its width reads back as
/// their concatenation, just as one built from the concatenated bytes does.
pub proof fn lemma_parts_read_back_concatenated(width: nat, first: Seq<u8>, second: Seq<u8>)
    requires
        first.len() + second.len() == width,
    ensures
        contents_from_parts(width, first, second) == Some(first + second),
        contents_from_parts(width, first, second) == contents_from(width, first + second),
{
}

/// Bytes of any length other than the width are refused.
pub proof fn lemma_construct_from_rejects_other_lengths(width: nat, s: Seq<u8>)
    requires
        s.len() != width,
    ensures
        contents_from(width, s) is None,
{
}

/// Two parts whose lengths do not add up to the width are refused.
pub proof fn lemma_parts_reject_other_lengths(width: nat, first: Seq<u8>, second: Seq<u8>)
    requires
        first.len() + second.len() != width,
    ensures
        contents_from_parts(width, first, second) is None,
{
}

/// A first part longer than the width is refused, whatever the second part is.
pub proof fn lemma_parts_reject_long_first(width: nat, first: Seq<u8>, second: Seq<u8>)
    requires
        first.len() > width,
    ensures
        contents_from_parts(width, first, second) is None,
{
}

} // verus!
