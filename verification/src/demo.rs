//! The synthetic training data of the demo pipeline.

use vstd::prelude::*;

verus! {

/// 128 single-feature rows; the feature of row `x` is `x % 3`.
pub fn train_features() -> (r: Vec<Vec<i64>>)
    ensures
        r@.len() == 128,
        forall|i: int| 0 <= i < 128 ==> #[trigger] r@[i]@.len() == 1 && r@[i]@[0] as int == i % 3,
{
    let mut r: Vec<Vec<i64>> = Vec::new();
    let mut x: i64 = 0;
    while x < 128
        invariant
            0 <= x <= 128,
            r@.len() == x,
            forall|i: int| 0 <= i < x ==> #[trigger] r@[i]@.len() == 1 && r@[i]@[0] as int == i % 3,
        decreases 128 - x,
    {
        let mut row: Vec<i64> = Vec::new();
        row.push(x % 3);
        r.push(row);
        x = x + 1;
    }
    r
}

/// 128 labels; the label of row `x` is `x % 3`.
pub fn train_labels() -> (r: Vec<i64>)
    ensures
        r@.len() == 128,
        forall|i: int| 0 <= i < 128 ==> #[trigger] r@[i] as int == i % 3,
{
    let mut r: Vec<i64> = Vec::new();
    let mut x: i64 = 0;
    while x < 128
        invariant
            0 <= x <= 128,
            r@.len() == x,
            forall|i: int| 0 <= i < x ==> #[trigger] r@[i] as int == i % 3,
        decreases 128 - x,
    {
        r.push(x % 3);
        x = x + 1;
    }
    r
}

} // verus!
