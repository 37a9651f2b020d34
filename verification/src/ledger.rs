use vstd::prelude::*;

use crate::address::Address;
use crate::errors::LedgerError;

verus! {

/// One entry of the ownership ledger: a minted token id and its owner.
#[derive(Clone, Copy, Debug, PartialEq, Eq, Structural)]
pub struct MintRecord {
    /// The minted token id.
    pub token_id: u128,
    /// The address the token was minted to.
    pub owner: Address,
}

/// Whether some record in `s` has minted `token_id`.
pub open spec fn spec_has_owner(s: Seq<MintRecord>, token_id: u128) -> bool {
    exists|i: int| 0 <= i < s.len() && s[i].token_id == token_id
}

/// How many records in `s` are owned by `owner`.
pub open spec fn spec_balance_of(s: Seq<MintRecord>, owner: Address) -> nat
    decreases s.len(),
{
    if s.len() == 0 {
        0
    } else {
        spec_balance_of(s.drop_last(), owner) + if s.last().owner == owner {
            1nat
        } else {
            0nat
        }
    }
}

/// The ownership ledger: which address owns each minted token id.  At most
/// one record exists per token id, so each token is owned by at most one
/// address.
pub struct OwnershipLedger {
    records: Vec<MintRecord>,
}

impl View for OwnershipLedger {
    type V = Seq<MintRecord>;

    closed spec fn view(&self) -> Seq<MintRecord> {
        self.records@
    }
}

/// Appending one record raises the owner's balance by one and leaves every
/// other balance unchanged.
pub proof fn lemma_balance_push(s: Seq<MintRecord>, rec: MintRecord, owner: Address)
    ensures
        spec_balance_of(s.push(rec), owner) == spec_balance_of(s, owner) + if rec.owner
            == owner {
            1nat
        } else {
            0nat
        },
{
    assert(s.push(rec).drop_last() =~= s);
}

/// Extending a prefix of `s` by the record at `i` accounts for exactly that
/// record's owner.
proof fn lemma_balance_take_step(s: Seq<MintRecord>, owner: Address, i: int)
    requires
        0 <= i < s.len(),
    ensures
        spec_balance_of(s.take(i + 1), owner) == spec_balance_of(s.take(i), owner) + if s[i].owner
            == owner {
            1nat
        } else {
            0nat
        },
{
    assert(s.take(i + 1).drop_last() =~= s.take(i));
    assert(s.take(i + 1).last() == s[i]);
}

impl OwnershipLedger {
    /// At most one record per token id.
    pub open spec fn wf(&self) -> bool {
        forall|i: int, j: int|
            0 <= i < j < self@.len() ==> self@[i].token_id != self@[j].token_id
    }

    /// A fresh ledger with no minted tokens.
    pub fn new() -> (l: OwnershipLedger)
        ensures
            l@ =~= Seq::<MintRecord>::empty(),
            l.wf(),
    {
        OwnershipLedger { records: Vec::new() }
    }

    /// How many minted tokens `owner` currently holds.
    pub fn balance_of(&self, owner: Address) -> (r: u128)
        ensures
            r == spec_balance_of(self@, owner),
    {
        let n = self.records.len();
        let mut count: u128 = 0;
        let mut i: usize = 0;
        while i < n
            invariant
                n == self@.len(),
                0 <= i <= n,
                count == spec_balance_of(self@.take(i as int), owner),
                count <= i,
            decreases n - i,
        {
            proof {
                lemma_balance_take_step(self@, owner, i as int);
            }
            if self.records[i].owner == owner {
                count = count + 1;
            }
            i = i + 1;
        }
        proof {
            assert(self@.take(n as int) =~= self@);
        }
        count
    }

    /// Whether `token_id` has already been minted.
    pub fn has_owner(&self, token_id: u128) -> (r: bool)
        ensures
            r == spec_has_owner(self@, token_id),
    {
        let n = self.records.len();
        let mut i: usize = 0;
        while i < n
            invariant
                n == self@.len(),
                0 <= i <= n,
                forall|j: int| 0 <= j < i ==> self@[j].token_id != token_id,
            decreases n - i,
        {
            if self.records[i].token_id == token_id {
                return true;
            }
            i = i + 1;
        }
        false
    }

    /// The owner of `token_id`, or `Unminted` when no such token exists.
    pub fn owner_of(&self, token_id: u128) -> (r: Result<Address, LedgerError>)
        ensures
            r is Ok <==> spec_has_owner(self@, token_id),
            r matches Ok(a) ==> exists|i: int|
                0 <= i < self@.len() && self@[i].token_id == token_id && self@[i].owner == a,
            r matches Err(e) ==> e == LedgerError::Unminted,
    {
        let n = self.records.len();
        let mut i: usize = 0;
        while i < n
            invariant
                n == self@.len(),
                0 <= i <= n,
                forall|j: int| 0 <= j < i ==> self@[j].token_id != token_id,
            decreases n - i,
        {
            if self.records[i].token_id == token_id {
                return Ok(self.records[i].owner);
            }
            i = i + 1;
        }
        Err(LedgerError::Unminted)
    }

    /// Records `token_id` as owned by `to`.  Refused with `AlreadyMinted`,
    /// and nothing written, when the token id already has an owner;
    /// otherwise exactly one record is appended.
    pub fn mint(&mut self, to: Address, token_id: u128) -> (r: Result<(), LedgerError>)
        requires
            old(self).wf(),
        ensures
            final(self).wf(),
            spec_has_owner(old(self)@, token_id) ==> r == Err::<(), LedgerError>(
                LedgerError::AlreadyMinted,
            ) && final(self)@ =~= old(self)@,
            !spec_has_owner(old(self)@, token_id) ==> r == Ok::<(), LedgerError>(())
                && final(self)@ =~= old(self)@.push(MintRecord { token_id, owner: to }),
    {
        if self.has_owner(token_id) {
            return Err(LedgerError::AlreadyMinted);
        }
        self.records.push(MintRecord { token_id, owner: to });
        proof {
            assert forall|i: int, j: int| 0 <= i < j < self@.len() implies self@[i].token_id
                != self@[j].token_id by {
                if j == self@.len() - 1 {
                    assert(self@[i] == old(self)@[i]);
                }
            }
        }
        Ok(())
    }
}

} // verus!
