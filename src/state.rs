//! The portable state of a digest: an ordered list of centroid records.
//!
//! A record carries a mean and a weight. Either may be absent in state that
//! comes from elsewhere; importing such state fails on the first absent field.
use vstd::prelude::*;

use crate::error::{DigestError, Field, Violation};

verus! {

/// One centroid of exported state: its mean `m` and its weight `c`.
#[derive(Clone, Copy, Debug)]
pub struct CentroidRecord<V> {
    pub m: Option<V>,
    pub c: Option<V>,
}

/// Exported state: the centroid records in sequence order, under `centroids`.
#[derive(Clone, Debug)]
pub struct DigestState<V> {
    pub centroids: Option<Vec<CentroidRecord<V>>>,
}

/// The record that holds a centroid given as a `(mean, weight)` pair.
pub open spec fn record_of<V>(p: (V, V)) -> CentroidRecord<V> {
    CentroidRecord { m: Some(p.0), c: Some(p.1) }
}

/// The records of a centroid sequence, in the same order.
pub open spec fn records_of<V>(pairs: Seq<(V, V)>) -> Seq<CentroidRecord<V>> {
    pairs.map_values(|p: (V, V)| record_of(p))
}

/// The `(mean, weight)` pairs that a record list holds, or the field that is
/// absent in its first incomplete record.
pub open spec fn pairs_of<V>(recs: Seq<CentroidRecord<V>>) -> Result<Seq<(V, V)>, Field>
    decreases recs.len(),
{
    if recs.len() == 0 {
        Ok(Seq::empty())
    } else {
        match pairs_of(recs.drop_last()) {
            Err(f) => Err(f),
            Ok(init) => {
                let r = recs.last();
                if r.m is None {
                    Err(Field::Mean)
                } else if r.c is None {
                    Err(Field::Weight)
                } else {
                    Ok(init.push((r.m->0, r.c->0)))
                }
            },
        }
    }
}

/// What importing a record list gives: its pairs, the first absent field, or
/// an invalid argument when the list is empty.
pub open spec fn import_records<V>(recs: Seq<CentroidRecord<V>>) -> Result<Seq<(V, V)>, DigestError> {
    match pairs_of(recs) {
        Err(f) => Err(DigestError::MissingField(f)),
        Ok(pairs) => if pairs.len() == 0 {
            Err(DigestError::InvalidArgument(Violation::EmptyCentroids))
        } else {
            Ok(pairs)
        },
    }
}

/// What importing a state gives.
pub open spec fn import_spec<V>(state: DigestState<V>) -> Result<Seq<(V, V)>, DigestError> {
    match state.centroids {
        None => Err(DigestError::MissingField(Field::Centroids)),
        Some(recs) => import_records(recs@),
    }
}

/// Exports a centroid sequence, given as `(mean, weight)` pairs in sequence
/// order, to structured state.
pub fn export_state<V: Copy>(pairs: &Vec<(V, V)>) -> (r: DigestState<V>)
    ensures
        r.centroids is Some,
        r.centroids->0@ == records_of(pairs@),
{
    let mut recs: Vec<CentroidRecord<V>> = Vec::new();
    let mut i: usize = 0;
    while i < pairs.len()
        invariant
            i <= pairs@.len(),
            recs@ == records_of(pairs@.subrange(0, i as int)),
        decreases pairs@.len() - i,
    {
        let p = pairs[i];
        recs.push(CentroidRecord { m: Some(p.0), c: Some(p.1) });
        proof {
            assert(pairs@.subrange(0, i + 1) == pairs@.subrange(0, i as int).push(p));
        }
        i = i + 1;
        assert(recs@ == records_of(pairs@.subrange(0, i as int)));
    }
    assert(pairs@.subrange(0, i as int) == pairs@);
    DigestState { centroids: Some(recs) }
}

/// Imports structured state as the `(mean, weight)` pairs of a centroid
/// sequence, in record order.
///
/// Fails with a missing field when `centroids` is absent or when a record
/// lacks its mean or weight (the first such record, the mean before the
/// weight), and with an invalid argument when there are no records.
pub fn import_state<V: Copy>(state: &DigestState<V>) -> (r: Result<Vec<(V, V)>, DigestError>)
    ensures
        r matches Ok(pairs) ==> import_spec(*state) == Ok::<Seq<(V, V)>, DigestError>(pairs@),
        r matches Err(e) ==> import_spec(*state) == Err::<Seq<(V, V)>, DigestError>(e),
{
    match &state.centroids {
        None => Err(DigestError::MissingField(Field::Centroids)),
        Some(recs) => {
            let mut pairs: Vec<(V, V)> = Vec::new();
            let mut i: usize = 0;
            while i < recs.len()
                invariant
                    i <= recs@.len(),
                    state.centroids == Some(*recs),
                    pairs_of(recs@.subrange(0, i as int)) == Ok::<Seq<(V, V)>, Field>(pairs@),
                decreases recs@.len() - i,
            {
                let rec = recs[i];
                proof {
                    assert(recs@.subrange(0, i + 1).drop_last() == recs@.subrange(0, i as int));
                    assert(recs@.subrange(0, i + 1).last() == rec);
                }
                match (rec.m, rec.c) {
                    (None, _) => {
                        proof {
                            assert(pairs_of(recs@.subrange(0, i + 1)) == Err::<Seq<(V, V)>, Field>(Field::Mean));
                            lemma_missing_propagates(recs@, i as int);
                        }
                        return Err(DigestError::MissingField(Field::Mean));
                    },
                    (_, None) => {
                        proof {
                            assert(pairs_of(recs@.subrange(0, i + 1)) == Err::<Seq<(V, V)>, Field>(Field::Weight));
                            lemma_missing_propagates(recs@, i as int);
                        }
                        return Err(DigestError::MissingField(Field::Weight));
                    },
                    (Some(m), Some(c)) => {
                        pairs.push((m, c));
                    },
                }
                i = i + 1;
            }
            assert(recs@.subrange(0, i as int) == recs@);
            if pairs.len() == 0 {
                Err(DigestError::InvalidArgument(Violation::EmptyCentroids))
            } else {
                Ok(pairs)
            }
        },
    }
}

/// Once a prefix fails to decode, every longer prefix fails with the same field.
proof fn lemma_missing_propagates<V>(recs: Seq<CentroidRecord<V>>, i: int)
    requires
        0 <= i < recs.len(),
        pairs_of(recs.subrange(0, i + 1)) is Err,
    ensures
        pairs_of(recs) == pairs_of(recs.subrange(0, i + 1)),
    decreases recs.len() - i,
{
    if i + 1 == recs.len() {
        assert(recs.subrange(0, i + 1) == recs);
    } else {
        let j = i + 1;
        assert(recs.subrange(0, j + 1).drop_last() == recs.subrange(0, j));
        lemma_missing_propagates(recs, j);
    }
}

/// Importing exported state gives back the exported centroid sequence, record
/// for record, whenever that sequence is not empty.
pub proof fn lemma_state_round_trip<V>(pairs: Seq<(V, V)>)
    requires
        pairs.len() > 0,
    ensures
        import_records(records_of(pairs)) == Ok::<Seq<(V, V)>, DigestError>(pairs),
{
    lemma_pairs_of_records(pairs);
}

/// The records of a sequence decode to that sequence.
proof fn lemma_pairs_of_records<V>(pairs: Seq<(V, V)>)
    ensures
        pairs_of(records_of(pairs)) == Ok::<Seq<(V, V)>, Field>(pairs),
    decreases pairs.len(),
{
    if pairs.len() > 0 {
        let init = pairs.drop_last();
        lemma_pairs_of_records(init);
        let p = pairs.last();
        assert(records_of(pairs).drop_last() == records_of(init));
        assert(records_of(pairs).last() == record_of(p));
        assert((p.0, p.1) == p);
        assert(init.push((p.0, p.1)) == pairs);
    } else {
        assert(pairs == Seq::<(V, V)>::empty());
    }
}

} // verus!
