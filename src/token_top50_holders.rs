//! Holder list as the portfolio service reports it: values already in USD.
use vstd::prelude::*;

verus! {

/// One holder: address and the value of its balance, in units.
pub struct HolderInfo {
    pub holder_address: String,
    pub usd_amount: i128,
}

/// The largest holders, in descending value.
pub struct TokenTopHolders {
    pub holders: Vec<HolderInfo>,
}

impl TokenTopHolders {
    /// Builds the list from `(address, value)` entries, in order.
    pub fn from_entries(data: Vec<(String, i128)>) -> (r: Self)
        ensures
            r.holders@.len() == data@.len(),
            forall|i: int|
                0 <= i < data@.len() ==> (#[trigger] r.holders@[i]).holder_address == data@[i].0
                    && r.holders@[i].usd_amount == data@[i].1,
    {
        let mut holders: Vec<HolderInfo> = Vec::new();
        let mut i: usize = 0;
        while i < data.len()
            invariant
                i <= data@.len(),
                holders@.len() == i,
                forall|j: int|
                    0 <= j < i ==> (#[trigger] holders@[j]).holder_address == data@[j].0
                        && holders@[j].usd_amount == data@[j].1,
            decreases data@.len() - i,
        {
            let (addr, amount) = (data[i].0.clone(), data[i].1);
            holders.push(HolderInfo { holder_address: addr, usd_amount: amount });
            i = i + 1;
        }
        TokenTopHolders { holders }
    }
}

} // verus!
