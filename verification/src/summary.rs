//! Summarising helpers over collection data.
use vstd::prelude::*;

verus! {

/// The smallest and largest of the given years, or `None` exactly when
/// no year was given.
pub fn year_bounds(years: &Vec<i32>) -> (r: Option<(i32, i32)>)
    ensures
        r is Some <==> years@.len() > 0,
        r matches Some(b) ==> {
            &&& years@.contains(b.0)
            &&& years@.contains(b.1)
            &&& forall|i: int| 0 <= i < years@.len() ==> b.0 <= #[trigger] years@[i] <= b.1
        },
{
    if years.len() == 0 {
        return None;
    }
    let mut oldest: i32 = years[0];
    let mut newest: i32 = years[0];
    let mut i: usize = 1;
    while i < years.len()
        invariant
            1 <= i <= years@.len(),
            years@.contains(oldest),
            years@.contains(newest),
            forall|k: int| 0 <= k < i ==> oldest <= #[trigger] years@[k] <= newest,
        decreases years@.len() - i,
    {
        let y = years[i];
        if y < oldest {
            oldest = y;
        }
        if y > newest {
            newest = y;
        }
        i = i + 1;
    }
    Some((oldest, newest))
}

} // verus!
