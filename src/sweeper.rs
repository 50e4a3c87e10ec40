//! The retention sweep: which entries of the output directory are old
//! enough to delete.
use vstd::prelude::*;

verus! {

/// Seconds an artifact may stay on disk.
pub const RETENTION_SECS: u64 = 600;
/// Seconds between two sweeps, and before a retry when the directory is missing.
pub const SWEEP_INTERVAL_SECS: u64 = 60;

/// An entry whose age is known and exceeds the retention window.
pub open spec fn is_stale(age: Option<u64>) -> bool {
    age matches Some(a) && a > RETENTION_SECS
}

/// Indices, in order, of the stale entries.
pub open spec fn stale_indices(ages: Seq<Option<u64>>) -> Seq<usize>
    decreases ages.len(),
{
    if ages.len() == 0 {
        Seq::empty()
    } else if is_stale(ages.last()) {
        stale_indices(ages.drop_last()).push((ages.len() - 1) as usize)
    } else {
        stale_indices(ages.drop_last())
    }
}

/// For one pass over a directory whose entries have the given ages in
/// seconds (`None` where the age could not be read), the entries to delete.
pub fn sweep_plan(ages: &Vec<Option<u64>>) -> (r: Vec<usize>)
    ensures
        r@ == stale_indices(ages@),
{
    let mut r: Vec<usize> = Vec::new();
    let mut i: usize = 0;
    while i < ages.len()
        invariant
            i <= ages@.len(),
            r@ == stale_indices(ages@.take(i as int)),
        decreases ages@.len() - i,
    {
        assert(ages@.take(i + 1).drop_last() =~= ages@.take(i as int));
        let stale = match ages[i] {
            Some(a) => a > RETENTION_SECS,
            None => false,
        };
        if stale {
            r.push(i);
        }
        i += 1;
    }
    assert(ages@.take(ages@.len() as int) =~= ages@);
    r
}

} // verus!
