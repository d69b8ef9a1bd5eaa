//! The metadata extractor: selects the chronologically latest sample by an
//! explicit max-by-timestamp scan — never by position in the result set —
//! and projects its timestamp and both readings.

use vstd::prelude::*;

use crate::model::GraphError;
use crate::model::Sample;

verus! {

/// A projection of the single sample with the greatest timestamp: when it
/// was taken and both readings at that instant.
#[derive(Clone, Copy, Debug, PartialEq, Eq, Structural)]
pub struct PointMetadata {
    pub last_timestamp: i64,
    pub internal_temperature: i64,
    pub external_temperature: i64,
}

impl PointMetadata {
    /// When the latest sample was taken, in seconds since the Unix epoch.
    pub fn last_timestamp(&self) -> (r: i64)
        ensures
            r == self.last_timestamp,
    {
        self.last_timestamp
    }

    /// The internal reading of the latest sample, in centi-units.
    pub fn internal_temperature(&self) -> (r: i64)
        ensures
            r == self.internal_temperature,
    {
        self.internal_temperature
    }

    /// The external reading of the latest sample, in centi-units.
    pub fn external_temperature(&self) -> (r: i64)
        ensures
            r == self.external_temperature,
    {
        self.external_temperature
    }
}

/// The timestamps of a sample sequence, in the same order.
pub open spec fn timestamps(samples: Seq<Sample>) -> Seq<int> {
    samples.map_values(|s: Sample| s.timestamp as int)
}

/// The greatest timestamp across the sequence.
pub open spec fn max_timestamp(samples: Seq<Sample>) -> int
    recommends
        samples.len() > 0,
    decreases samples.len(),
{
    if samples.len() <= 1 {
        samples[0].timestamp as int
    } else {
        vstd::math::max(max_timestamp(samples.drop_last()), samples.last().timestamp as int)
    }
}

/// `m` projects the first sample that carries the greatest timestamp:
/// every earlier sample is strictly older.
pub open spec fn is_latest_projection(samples: Seq<Sample>, m: PointMetadata) -> bool {
    exists|i: int|
        {
            &&& 0 <= i < samples.len()
            &&& (#[trigger] samples[i]).timestamp == max_timestamp(samples)
            &&& m.last_timestamp == samples[i].timestamp
            &&& m.internal_temperature == samples[i].internal_reading
            &&& m.external_temperature == samples[i].external_reading
            &&& forall|j: int| 0 <= j < i ==> (#[trigger] samples[j]).timestamp < max_timestamp(samples)
        }
}

/// Returns the sample with the greatest timestamp as metadata, found by an
/// explicit comparison scan, or `EmptyDatasetError` on an empty sequence —
/// never an unchecked index.
pub fn latest_metadata(samples: &Vec<Sample>) -> (r: Result<PointMetadata, GraphError>)
    ensures
        (r is Err) <==> samples@.len() == 0,
        r matches Err(e) ==> e == GraphError::EmptyDatasetError,
        r matches Ok(m) ==> {
            &&& m.last_timestamp == max_timestamp(samples@)
            &&& is_latest_projection(samples@, m)
        },
{
    if samples.len() == 0 {
        return Err(GraphError::EmptyDatasetError);
    }
    let mut best: usize = 0;
    let mut i: usize = 1;
    while i < samples.len()
        invariant
            0 <= best < i <= samples@.len(),
            samples@[best as int].timestamp == max_timestamp(samples@.subrange(0, i as int)),
            forall|j: int|
                0 <= j < best ==> (#[trigger] samples@[j]).timestamp
                    < samples@[best as int].timestamp,
            forall|j: int|
                best < j < i ==> (#[trigger] samples@[j]).timestamp
                    <= samples@[best as int].timestamp,
        decreases samples@.len() - i,
    {
        proof {
            assert(samples@.subrange(0, i + 1 as int).drop_last() =~= samples@.subrange(
                0,
                i as int,
            ));
            assert(samples@.subrange(0, i + 1 as int).last() == samples@[i as int]);
        }
        if samples[i].timestamp > samples[best].timestamp {
            best = i;
        }
        i = i + 1;
    }
    proof {
        assert(samples@.subrange(0, samples@.len() as int) =~= samples@);
    }
    let s = samples[best];
    let m = PointMetadata {
        last_timestamp: s.timestamp,
        internal_temperature: s.internal_reading,
        external_temperature: s.external_reading,
    };
    proof {
        assert((#[trigger] samples@[best as int]).timestamp == max_timestamp(samples@));
    }
    Ok(m)
}

/// The greatest timestamp is attained by some sample and bounds them all.
proof fn lemma_max_timestamp_attained(samples: Seq<Sample>)
    requires
        samples.len() > 0,
    ensures
        exists|i: int|
            0 <= i < samples.len() && (#[trigger] samples[i]).timestamp == max_timestamp(samples),
        forall|i: int|
            0 <= i < samples.len() ==> (#[trigger] samples[i]).timestamp <= max_timestamp(samples),
    decreases samples.len(),
{
    if samples.len() == 1 {
        assert(samples[0].timestamp == max_timestamp(samples));
    } else {
        lemma_max_timestamp_attained(samples.drop_last());
        assert(forall|i: int|
            0 <= i < samples.len() - 1 ==> samples.drop_last()[i] == #[trigger] samples[i]);
        let w = choose|i: int|
            0 <= i < samples.drop_last().len() && (#[trigger] samples.drop_last()[i]).timestamp
                == max_timestamp(samples.drop_last());
        if max_timestamp(samples) == max_timestamp(samples.drop_last()) {
            assert(samples[w].timestamp == max_timestamp(samples));
        } else {
            assert(samples[samples.len() - 1].timestamp == max_timestamp(samples));
        }
    }
}

/// Shuffling the input does not change the result: two sequences holding
/// the same timestamps as a multiset have the same greatest timestamp, so
/// the extracted metadata reports the same instant whatever order the
/// store delivered the rows in.
pub proof fn lemma_latest_timestamp_permutation(s1: Seq<Sample>, s2: Seq<Sample>)
    requires
        s1.len() > 0,
        timestamps(s1).to_multiset() == timestamps(s2).to_multiset(),
    ensures
        max_timestamp(s1) == max_timestamp(s2),
{
    broadcast use vstd::seq_lib::group_to_multiset_ensures;

    assert(timestamps(s1).len() == s1.len());
    assert(timestamps(s2).len() == s2.len());
    assert(timestamps(s1).to_multiset().len() == timestamps(s1).len());
    assert(timestamps(s2).to_multiset().len() == timestamps(s2).len());
    assert(s2.len() > 0);
    lemma_max_timestamp_attained(s1);
    lemma_max_timestamp_attained(s2);
    let i1 = choose|i: int|
        0 <= i < s1.len() && (#[trigger] s1[i]).timestamp == max_timestamp(s1);
    assert(timestamps(s1)[i1] == max_timestamp(s1));
    assert(timestamps(s1).contains(max_timestamp(s1)));
    assert(timestamps(s1).to_multiset().count(max_timestamp(s1)) > 0);
    assert(timestamps(s2).to_multiset().count(max_timestamp(s1)) > 0);
    assert(timestamps(s2).contains(max_timestamp(s1)));
    let j1 = choose|j: int|
        0 <= j < timestamps(s2).len() && timestamps(s2)[j] == max_timestamp(s1);
    assert(s2[j1].timestamp == max_timestamp(s1));
    assert(max_timestamp(s1) <= max_timestamp(s2));
    let i2 = choose|i: int|
        0 <= i < s2.len() && (#[trigger] s2[i]).timestamp == max_timestamp(s2);
    assert(timestamps(s2)[i2] == max_timestamp(s2));
    assert(timestamps(s2).contains(max_timestamp(s2)));
    assert(timestamps(s2).to_multiset().count(max_timestamp(s2)) > 0);
    assert(timestamps(s1).to_multiset().count(max_timestamp(s2)) > 0);
    assert(timestamps(s1).contains(max_timestamp(s2)));
    let j2 = choose|j: int|
        0 <= j < timestamps(s1).len() && timestamps(s1)[j] == max_timestamp(s2);
    assert(s1[j2].timestamp == max_timestamp(s2));
    assert(max_timestamp(s2) <= max_timestamp(s1));
}

} // verus!
