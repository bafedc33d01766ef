use vstd::prelude::*;

verus! {

/// Whether `caller` may move a token that `owner` holds, given the
/// contract-wide allow-list.
pub open spec fn may_transfer(caller: Seq<char>, owner: Seq<char>, allowed: Set<Seq<char>>) -> bool {
    caller == owner || allowed.contains(caller)
}

/// Whether `caller` may mint: only the contract's owner may.
pub open spec fn may_mint(caller: Seq<char>, contract_owner: Seq<char>) -> bool {
    caller == contract_owner
}

/// Accounts that may transfer tokens they do not own. Fixed once built.
///
/// The list is a handful of names, fixed at construction, and is held in the
/// contract's own value; it is never grown, so no storage-backed set is used.
pub struct AllowList {
    members: Vec<String>,
}

impl AllowList {
    /// The accounts on the list.
    pub closed spec fn view(&self) -> Set<Seq<char>> {
        Set::new(|a: Seq<char>| exists|i: int| 0 <= i < self.members@.len() && (#[trigger] self.members@[i])@ == a)
    }

    pub fn new(members: Vec<String>) -> (r: Self)
        ensures
            r@ == Set::new(|a: Seq<char>| exists|i: int| 0 <= i < members@.len() && (#[trigger] members@[i])@ == a),
    {
        AllowList { members }
    }

    /// The three operator accounts that a contract gets by default.
    pub fn operators() -> (r: Self)
        ensures
            r@ == operator_accounts(),
    {
        let mut members: Vec<String> = Vec::new();
        members.push(String::from_str("lebronjamesnear.testnet"));
        members.push(String::from_str("lhlrahman.testnet"));
        members.push(String::from_str("hackcanada.testnet"));
        let r = AllowList { members };
        proof {
            assert forall|a: Seq<char>| r@.contains(a) == operator_accounts().contains(a) by {
                if operator_accounts().contains(a) {
                    if a == "lebronjamesnear.testnet"@ {
                        assert(r.members@[0]@ == a);
                    } else if a == "lhlrahman.testnet"@ {
                        assert(r.members@[1]@ == a);
                    } else {
                        assert(r.members@[2]@ == a);
                    }
                }
            }
            assert(r@ =~= operator_accounts());
        }
        r
    }

    pub fn contains(&self, account: &String) -> (r: bool)
        ensures
            r == self@.contains(account@),
    {
        let mut i: usize = 0;
        while i < self.members.len()
            invariant
                i <= self.members@.len(),
                forall|j: int| 0 <= j < i ==> (#[trigger] self.members@[j])@ != account@,
            decreases self.members@.len() - i,
        {
            if self.members[i] == *account {
                return true;
            }
            i = i + 1;
        }
        false
    }
}

/// The default operator accounts.
pub open spec fn operator_accounts() -> Set<Seq<char>> {
    set!["lebronjamesnear.testnet"@, "lhlrahman.testnet"@, "hackcanada.testnet"@]
}

/// Decides a transfer: the token's owner and the allow-listed accounts may move it.
pub fn transfer_authorized(caller: &String, owner: &String, allowed: &AllowList) -> (r: bool)
    ensures
        r == may_transfer(caller@, owner@, allowed@),
{
    *caller == *owner || allowed.contains(caller)
}

/// Decides a mint: only the contract's owner may mint.
pub fn mint_authorized(caller: &String, contract_owner: &String) -> (r: bool)
    ensures
        r == may_mint(caller@, contract_owner@),
{
    *caller == *contract_owner
}

} // verus!
