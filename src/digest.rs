//! The digest handle: one `tdigests::TDigest`, owned, with its centroid
//! count bounded by compression and carried through merges.
//!
//! Centroid means and weights are floating-point values that only the
//! `tdigests` crate reads; what this module states is the shape of the
//! centroid sequence, its length.
use vstd::prelude::*;

use tdigests::TDigest;

use crate::error::{DigestError, Violation};

verus! {

#[verifier::external_type_specification]
#[verifier::external_body]
pub struct ExTDigest(tdigests::TDigest);

/// The number of centroids that a t-digest holds.
pub uninterp spec fn centroid_count(d: tdigests::TDigest) -> nat;

/// The t-digest that `TDigest::compress` leaves when asked for at most
/// `max_centroids` centroids.
pub uninterp spec fn compressed_tdigest(d: tdigests::TDigest, max_centroids: usize) -> tdigests::TDigest;

/// The t-digest that `TDigest::merge` builds from two t-digests.
pub uninterp spec fn merged_tdigest(a: tdigests::TDigest, b: tdigests::TDigest) -> tdigests::TDigest;

/// The size below which compression never goes, whatever is asked for.
pub const MIN_CENTROIDS: usize = 3;

/// The centroid count that a merged digest is compressed to.
pub const DEFAULT_MAX_CENTROIDS: usize = 1000;

/// What merging two digests gives: the merge of their t-digests, compressed
/// to the default size.
pub open spec fn merge_spec(a: tdigests::TDigest, b: tdigests::TDigest) -> tdigests::TDigest {
    compressed_tdigest(merged_tdigest(a, b), DEFAULT_MAX_CENTROIDS)
}

/// The centroid count that compressing to `max_centroids` aims at.
pub open spec fn compress_target(max_centroids: usize) -> nat {
    if max_centroids < MIN_CENTROIDS {
        MIN_CENTROIDS as nat
    } else {
        max_centroids as nat
    }
}

/// Relies on `TDigest::centroids`, for the length of the centroid slice.
/// No t-digest is empty: `from_centroids` asserts that some centroid is left,
/// `merge` goes through it, and `compress` keeps at least three.
#[verifier::external_body]
fn count_centroids(d: &TDigest) -> (r: usize)
    ensures
        r == centroid_count(*d),
        r >= 1,
{
    d.centroids().len()
}

/// Relies on `TDigest::compress`: with the target raised to at least three,
/// a digest within the target is left as it is; a larger one is rebuilt from
/// its smallest and largest centroid and at most `target - 2` merged groups
/// between them. The result depends on the digest and the target alone.
#[verifier::external_body]
fn compress_tdigest(d: &mut TDigest, max_centroids: usize)
    ensures
        *final(d) == compressed_tdigest(*old(d), max_centroids),
        centroid_count(*old(d)) <= compress_target(max_centroids) ==> *final(d) == *old(d),
        centroid_count(*old(d)) > compress_target(max_centroids) ==> MIN_CENTROIDS
            <= centroid_count(*final(d)) <= compress_target(max_centroids),
{
    d.compress(max_centroids);
}

/// Relies on `TDigest::merge`: a digest rebuilt by `from_centroids` from the
/// centroids of both sides, of which it keeps those with a positive weight
/// and a mean that is a number, sorted by mean with a stable sort. The result
/// depends on the two digests alone.
#[verifier::external_body]
fn merge_tdigests(a: &TDigest, b: &TDigest) -> (r: TDigest)
    ensures
        r == merged_tdigest(*a, *b),
        centroid_count(r) <= centroid_count(*a) + centroid_count(*b),
{
    a.merge(b)
}

/// Checks the values that a digest is to be built from: there must be some.
pub fn validate_values<V>(values: &Vec<V>) -> (r: Result<(), DigestError>)
    ensures
        values@.len() > 0 <==> r is Ok,
        values@.len() == 0 ==> r == Err::<(), DigestError>(
            DigestError::InvalidArgument(Violation::EmptyValues),
        ),
{
    if values.len() == 0 {
        Err(DigestError::InvalidArgument(Violation::EmptyValues))
    } else {
        Ok(())
    }
}

/// An approximate summary of a value distribution, as an ordered sequence of
/// weighted centroids.
pub struct Digest {
    digest: TDigest,
}

impl Digest {
    /// The t-digest that this digest holds.
    pub closed spec fn tdigest_spec(&self) -> TDigest {
        self.digest
    }

    /// The number of centroids of this digest.
    pub open spec fn n_centroids_spec(&self) -> nat {
        centroid_count(self.tdigest_spec())
    }

    /// Wraps a t-digest built from values or from imported centroids.
    pub fn from_tdigest(digest: TDigest) -> (r: Digest)
        ensures
            r.tdigest_spec() == digest,
    {
        Digest { digest }
    }

    /// The t-digest that this digest holds, for the estimates drawn from it.
    pub fn tdigest(&self) -> (r: &TDigest)
        ensures
            *r == self.tdigest_spec(),
    {
        &self.digest
    }

    /// The number of centroids; never zero.
    pub fn get_n_centroids(&self) -> (r: usize)
        ensures
            r == self.n_centroids_spec(),
            r >= 1,
    {
        count_centroids(&self.digest)
    }

    /// Compresses this digest in place to at most `max_centroids` centroids,
    /// or to three where `max_centroids` is smaller.
    ///
    /// A digest already within that size is left as it is. Compression never
    /// adds centroids, and never leaves fewer than three of a digest it
    /// changes.
    pub fn compress(&mut self, max_centroids: usize)
        ensures
            final(self).tdigest_spec() == compressed_tdigest(old(self).tdigest_spec(), max_centroids),
            final(self).n_centroids_spec() <= old(self).n_centroids_spec(),
            old(self).n_centroids_spec() <= compress_target(max_centroids) ==> *final(self)
                == *old(self),
            old(self).n_centroids_spec() > compress_target(max_centroids) ==> MIN_CENTROIDS
                <= final(self).n_centroids_spec() <= compress_target(max_centroids),
    {
        compress_tdigest(&mut self.digest, max_centroids);
    }

    /// A new digest that summarises the values of this digest and of `other`:
    /// the merge of both, compressed to at most `DEFAULT_MAX_CENTROIDS`
    /// centroids.
    pub fn merge(&self, other: &Digest) -> (r: Digest)
        ensures
            r.tdigest_spec() == merge_spec(self.tdigest_spec(), other.tdigest_spec()),
            r.n_centroids_spec() <= self.n_centroids_spec() + other.n_centroids_spec(),
            r.n_centroids_spec() <= DEFAULT_MAX_CENTROIDS,
    {
        let mut merged = merge_tdigests(&self.digest, &other.digest);
        compress_tdigest(&mut merged, DEFAULT_MAX_CENTROIDS);
        Digest { digest: merged }
    }

    /// Replaces this digest by what `merge` with `other` returns.
    pub fn merge_inplace(&mut self, other: &Digest)
        ensures
            final(self).tdigest_spec() == merge_spec(old(self).tdigest_spec(), other.tdigest_spec()),
            final(self).n_centroids_spec() <= old(self).n_centroids_spec()
                + other.n_centroids_spec(),
            final(self).n_centroids_spec() <= DEFAULT_MAX_CENTROIDS,
    {
        let merged = self.merge(other);
        *self = merged;
    }
}

} // verus!
