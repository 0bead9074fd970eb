//! Holder list as the token-launch service reports it: raw balances as text.
use vstd::prelude::*;

verus! {

/// One holder: address and raw on-chain balance (decimal text, before the
/// decimal shift).
pub struct HolderInfo {
    pub address: String,
    pub balance: String,
    pub username: Option<String>,
    pub profile: Option<String>,
}

/// The largest holders, in descending balance, and the total count of holders
/// (decimal text; it may exceed the length of `list`).
pub struct TokenTopHolders {
    pub list: Vec<HolderInfo>,
    pub total_holders: String,
}

pub open spec fn entry_matches(
    h: HolderInfo,
    e: (String, String, Option<String>, Option<String>),
) -> bool {
    &&& h.address == e.0
    &&& h.balance == e.1
    &&& h.username == e.2
    &&& h.profile == e.3
}

impl TokenTopHolders {
    /// Builds the list from `(address, balance, username, profile)` entries, in
    /// order, with an empty total count.
    pub fn from_entries(list: Vec<(String, String, Option<String>, Option<String>)>) -> (r: Self)
        ensures
            r.list@.len() == list@.len(),
            forall|i: int| 0 <= i < list@.len() ==> entry_matches(#[trigger] r.list@[i], list@[i]),
            r.total_holders@.len() == 0,
    {
        let mut holders: Vec<HolderInfo> = Vec::new();
        let mut rest = list;
        let ghost all = rest@;
        // take the entries from the back, then restore the order
        let mut back: Vec<HolderInfo> = Vec::new();
        while rest.len() > 0
            invariant
                rest@ == all.subrange(0, rest@.len() as int),
                rest@.len() + back@.len() == all.len(),
                forall|j: int|
                    0 <= j < back@.len() ==> entry_matches(
                        #[trigger] back@[j],
                        all[all.len() - 1 - j],
                    ),
            decreases rest@.len(),
        {
            let (address, balance, username, profile) = rest.pop().unwrap();
            back.push(HolderInfo { address, balance, username, profile });
        }
        while back.len() > 0
            invariant
                holders@.len() + back@.len() == all.len(),
                forall|j: int|
                    0 <= j < back@.len() ==> entry_matches(
                        #[trigger] back@[j],
                        all[all.len() - 1 - j],
                    ),
                forall|j: int| 0 <= j < holders@.len() ==> entry_matches(#[trigger] holders@[j], all[j]),
            decreases back@.len(),
        {
            let h = back.pop().unwrap();
            holders.push(h);
        }
        TokenTopHolders { list: holders, total_holders: String::new() }
    }
}

} // verus!
