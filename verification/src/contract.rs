use vstd::prelude::*;

use vstd::string::StringExecFns;

use crate::address::Address;
use crate::counter::{spec_is_milestone, spec_next_milestone};
use crate::errors::ContractError;
use crate::ledger::{spec_balance_of, spec_has_owner, MintRecord, OwnershipLedger};

verus! {

/// How many tracked views unlock the researcher eligibility flag once
/// `initialize` has run.
pub const REQUIRED_VIEWS: u128 = 50;

/// The eligibility and minting state machine.
///
/// It owns a global interaction counter, a shared token-view count with its
/// one-shot eligibility flag, the required-views threshold, the token supply
/// (which doubles as the next token id source), and the ownership ledger the
/// two mint paths write to.
///
/// The view count and the eligibility flag are single shared cells: the
/// address argument of the view-tracking and eligibility queries is accepted
/// for interface symmetry but does not select a per-address slot.  The
/// eligibility flag is a boolean standing for the stored values zero (clear)
/// and one (set).
pub struct TopSignalsBrowserContract {
    /// Ownership ledger for the minted researcher tokens.
    pub erc721: OwnershipLedger,
    /// How many tokens have been minted; the next mint uses id
    /// `researcher_supply + 1`.
    pub researcher_supply: u128,
    /// Shared count of tracked token views.
    pub user_token_views: u128,
    /// One-shot gate for the researcher mint path; cleared by a successful
    /// researcher mint.
    pub researcher_eligibility: bool,
    /// Views needed before the eligibility flag is set; zero until
    /// `initialize` runs.
    pub required_views_for_researcher: u128,
    /// Global interaction counter driving the milestone queries.
    pub global_counter: u128,
}

impl TopSignalsBrowserContract {
    /// The ledger holds at most one record per token id.
    pub open spec fn wf(&self) -> bool {
        self.erc721.wf()
    }

    /// A fresh contract: every cell zero, the flag clear, the ledger empty.
    pub fn new() -> (c: TopSignalsBrowserContract)
        ensures
            c.wf(),
            c.erc721@ =~= Seq::<MintRecord>::empty(),
            c.researcher_supply == 0,
            c.user_token_views == 0,
            !c.researcher_eligibility,
            c.required_views_for_researcher == 0,
            c.global_counter == 0,
    {
        TopSignalsBrowserContract {
            erc721: OwnershipLedger::new(),
            researcher_supply: 0,
            user_token_views: 0,
            researcher_eligibility: false,
            required_views_for_researcher: 0,
            global_counter: 0,
        }
    }

    /// One-time setup: fixes the required-views threshold.  Nothing else is
    /// touched.
    pub fn initialize(&mut self) -> (r: Result<(), ContractError>)
        ensures
            r == Ok::<(), ContractError>(()),
            final(self).required_views_for_researcher == REQUIRED_VIEWS,
            final(self).erc721 == old(self).erc721,
            final(self).researcher_supply == old(self).researcher_supply,
            final(self).user_token_views == old(self).user_token_views,
            final(self).researcher_eligibility == old(self).researcher_eligibility,
            final(self).global_counter == old(self).global_counter,
    {
        self.required_views_for_researcher = REQUIRED_VIEWS;
        Ok(())
    }

    /// Tracks one token view: the shared view count and the global counter
    /// each rise by one, and the eligibility flag is set once the new view
    /// count reaches the threshold (and is never cleared here).  When either
    /// increment would overflow, nothing at all is written.
    pub fn track_token_view(&mut self, _user: Address) -> (r: Result<(), ContractError>)
        ensures
            old(self).user_token_views < u128::MAX && old(self).global_counter < u128::MAX ==> {
                &&& r == Ok::<(), ContractError>(())
                &&& final(self).user_token_views == old(self).user_token_views + 1
                &&& final(self).global_counter == old(self).global_counter + 1
                &&& final(self).researcher_eligibility == (old(self).researcher_eligibility
                    || old(self).user_token_views + 1 >= old(self).required_views_for_researcher)
            },
            old(self).user_token_views == u128::MAX || old(self).global_counter == u128::MAX ==> {
                &&& r == Err::<(), ContractError>(ContractError::ArithmeticOverflow)
                &&& final(self).user_token_views == old(self).user_token_views
                &&& final(self).global_counter == old(self).global_counter
                &&& final(self).researcher_eligibility == old(self).researcher_eligibility
            },
            final(self).erc721 == old(self).erc721,
            final(self).researcher_supply == old(self).researcher_supply,
            final(self).required_views_for_researcher == old(self).required_views_for_researcher,
    {
        let current_views = self.user_token_views;
        let current_counter = self.global_counter;
        if current_views == u128::MAX || current_counter == u128::MAX {
            return Err(ContractError::ArithmeticOverflow);
        }
        let new_views = current_views + 1;
        self.user_token_views = new_views;
        self.global_counter = current_counter + 1;
        let required_views = self.required_views_for_researcher;
        if new_views >= required_views {
            self.researcher_eligibility = true;
        }
        Ok(())
    }

    /// The shared view count; the address argument selects no slot.
    pub fn get_user_views(&self, _user: Address) -> (r: Result<u128, ContractError>)
        ensures
            r == Ok::<u128, ContractError>(self.user_token_views),
    {
        Ok(self.user_token_views)
    }

    /// Whether the shared eligibility flag is set; the address argument
    /// selects no slot.
    pub fn is_researcher_eligible(&self, _user: Address) -> (r: Result<bool, ContractError>)
        ensures
            r == Ok::<bool, ContractError>(self.researcher_eligibility),
    {
        Ok(self.researcher_eligibility)
    }

    /// The required-views threshold.
    pub fn get_required_views(&self) -> (r: Result<u128, ContractError>)
        ensures
            r == Ok::<u128, ContractError>(self.required_views_for_researcher),
    {
        Ok(self.required_views_for_researcher)
    }

    /// The global counter.
    pub fn get_counter(&self) -> (r: Result<u128, ContractError>)
        ensures
            r == Ok::<u128, ContractError>(self.global_counter),
    {
        Ok(self.global_counter)
    }

    /// Raises the global counter by one; refused, with nothing written, when
    /// the counter is already at `u128::MAX`.
    pub fn increment_counter(&mut self) -> (r: Result<(), ContractError>)
        ensures
            old(self).global_counter < u128::MAX ==> r == Ok::<(), ContractError>(())
                && final(self).global_counter == old(self).global_counter + 1,
            old(self).global_counter == u128::MAX ==> r == Err::<(), ContractError>(
                ContractError::ArithmeticOverflow,
            ) && final(self).global_counter == old(self).global_counter,
            final(self).erc721 == old(self).erc721,
            final(self).researcher_supply == old(self).researcher_supply,
            final(self).user_token_views == old(self).user_token_views,
            final(self).researcher_eligibility == old(self).researcher_eligibility,
            final(self).required_views_for_researcher == old(self).required_views_for_researcher,
    {
        let current = self.global_counter;
        if current == u128::MAX {
            return Err(ContractError::ArithmeticOverflow);
        }
        self.global_counter = current + 1;
        Ok(())
    }

    /// Raises the global counter by `amount`; refused, with nothing written,
    /// when the sum would not fit.
    pub fn increment_counter_by(&mut self, amount: u128) -> (r: Result<(), ContractError>)
        ensures
            old(self).global_counter + amount <= u128::MAX ==> r == Ok::<(), ContractError>(())
                && final(self).global_counter == old(self).global_counter + amount,
            old(self).global_counter + amount > u128::MAX ==> r == Err::<(), ContractError>(
                ContractError::ArithmeticOverflow,
            ) && final(self).global_counter == old(self).global_counter,
            final(self).erc721 == old(self).erc721,
            final(self).researcher_supply == old(self).researcher_supply,
            final(self).user_token_views == old(self).user_token_views,
            final(self).researcher_eligibility == old(self).researcher_eligibility,
            final(self).required_views_for_researcher == old(self).required_views_for_researcher,
    {
        let current = self.global_counter;
        if amount > u128::MAX - current {
            return Err(ContractError::ArithmeticOverflow);
        }
        self.global_counter = current + amount;
        Ok(())
    }

    /// Overwrites the global counter with a caller-chosen value.
    pub fn set_counter(&mut self, value: u128) -> (r: Result<(), ContractError>)
        ensures
            r == Ok::<(), ContractError>(()),
            final(self).global_counter == value,
            final(self).erc721 == old(self).erc721,
            final(self).researcher_supply == old(self).researcher_supply,
            final(self).user_token_views == old(self).user_token_views,
            final(self).researcher_eligibility == old(self).researcher_eligibility,
            final(self).required_views_for_researcher == old(self).required_views_for_researcher,
    {
        self.global_counter = value;
        Ok(())
    }

    /// Resets the global counter to zero.
    pub fn reset_counter(&mut self) -> (r: Result<(), ContractError>)
        ensures
            r == Ok::<(), ContractError>(()),
            final(self).global_counter == 0,
            final(self).erc721 == old(self).erc721,
            final(self).researcher_supply == old(self).researcher_supply,
            final(self).user_token_views == old(self).user_token_views,
            final(self).researcher_eligibility == old(self).researcher_eligibility,
            final(self).required_views_for_researcher == old(self).required_views_for_researcher,
    {
        self.global_counter = 0;
        Ok(())
    }

    /// Whether the global counter sits on a milestone: a positive multiple
    /// of ten.  False at zero, true at 10, 20, and so on, false in between.
    pub fn is_counter_multiple_of_ten(&self) -> (r: Result<bool, ContractError>)
        ensures
            r == Ok::<bool, ContractError>(spec_is_milestone(self.global_counter as int)),
    {
        let counter = self.global_counter;
        Ok(counter % 10 == 0 && counter > 0)
    }

    /// The next multiple of ten at or above the global counter; the counter
    /// itself when it already is one, zero included.  Refused only when that
    /// multiple would not fit in the integer domain.
    pub fn get_next_counter_milestone(&self) -> (r: Result<u128, ContractError>)
        ensures
            spec_next_milestone(self.global_counter as int) <= u128::MAX ==> r == Ok::<
                u128,
                ContractError,
            >(spec_next_milestone(self.global_counter as int) as u128),
            spec_next_milestone(self.global_counter as int) > u128::MAX ==> r == Err::<
                u128,
                ContractError,
            >(ContractError::ArithmeticOverflow),
    {
        let counter = self.global_counter;
        let remainder = counter % 10;
        if remainder == 0 {
            Ok(counter)
        } else {
            let step = 10 - remainder;
            if counter > u128::MAX - step {
                return Err(ContractError::ArithmeticOverflow);
            }
            Ok(counter + step)
        }
    }

    /// Mints the next token to `caller` through the researcher path.
    ///
    /// Refused with `NotEligible` while the eligibility flag is clear, and
    /// with `AlreadyHolds` when the caller's ledger balance is positive.  On
    /// success the supply rises by one, the token with id `supply + 1` is
    /// recorded as owned by the caller, and the eligibility flag is cleared,
    /// so the flag buys exactly one mint.  A failure writes nothing.
    pub fn mint_researcher_nft(&mut self, caller: Address) -> (r: Result<(), ContractError>)
        requires
            old(self).wf(),
        ensures
            final(self).wf(),
            final(self).user_token_views == old(self).user_token_views,
            final(self).required_views_for_researcher
                == old(self).required_views_for_researcher,
            final(self).global_counter == old(self).global_counter,
            !old(self).researcher_eligibility ==> r == Err::<(), ContractError>(
                ContractError::NotEligible,
            ) && Self::mint_wrote_nothing(old(self), final(self)),
            old(self).researcher_eligibility && spec_balance_of(old(self).erc721@, caller) > 0
                ==> r == Err::<(), ContractError>(ContractError::AlreadyHolds)
                && Self::mint_wrote_nothing(old(self), final(self)),
            old(self).researcher_eligibility && spec_balance_of(old(self).erc721@, caller) == 0
                && old(self).researcher_supply == u128::MAX ==> r == Err::<(), ContractError>(
                ContractError::ArithmeticOverflow,
            ) && Self::mint_wrote_nothing(old(self), final(self)),
            old(self).researcher_eligibility && spec_balance_of(old(self).erc721@, caller) == 0
                && old(self).researcher_supply < u128::MAX && spec_has_owner(
                old(self).erc721@,
                (old(self).researcher_supply + 1) as u128,
            ) ==> r == Err::<(), ContractError>(
                ContractError::Ledger(crate::errors::LedgerError::AlreadyMinted),
            ) && Self::mint_wrote_nothing(old(self), final(self)),
            old(self).researcher_eligibility && spec_balance_of(old(self).erc721@, caller) == 0
                && old(self).researcher_supply < u128::MAX && !spec_has_owner(
                old(self).erc721@,
                (old(self).researcher_supply + 1) as u128,
            ) ==> {
                &&& r == Ok::<(), ContractError>(())
                &&& final(self).researcher_supply == old(self).researcher_supply + 1
                &&& final(self).erc721@ =~= old(self).erc721@.push(
                    MintRecord {
                        token_id: (old(self).researcher_supply + 1) as u128,
                        owner: caller,
                    },
                )
                &&& !final(self).researcher_eligibility
            },
    {
        if !self.researcher_eligibility {
            return Err(ContractError::NotEligible);
        }
        let user_balance = self.erc721.balance_of(caller);
        if user_balance > 0 {
            return Err(ContractError::AlreadyHolds);
        }
        let supply = self.researcher_supply;
        if supply == u128::MAX {
            return Err(ContractError::ArithmeticOverflow);
        }
        let token_id = supply + 1;
        match self.erc721.mint(caller, token_id) {
            Err(e) => return Err(ContractError::Ledger(e)),
            Ok(()) => {},
        }
        self.researcher_supply = token_id;
        self.researcher_eligibility = false;
        Ok(())
    }

    /// Mints the next token to `caller` through the milestone path.
    ///
    /// Refused with `NotAtMilestone` while the global counter is not a
    /// positive multiple of ten, and with `AlreadyHolds` when the caller's
    /// ledger balance is positive.  On success the supply rises by one and
    /// the token with id `supply + 1` is recorded as owned by the caller;
    /// the eligibility flag is left alone.  A failure writes nothing.
    pub fn mint_nft_at_milestone(&mut self, caller: Address) -> (r: Result<(), ContractError>)
        requires
            old(self).wf(),
        ensures
            final(self).wf(),
            final(self).user_token_views == old(self).user_token_views,
            final(self).required_views_for_researcher
                == old(self).required_views_for_researcher,
            final(self).global_counter == old(self).global_counter,
            final(self).researcher_eligibility == old(self).researcher_eligibility,
            !spec_is_milestone(old(self).global_counter as int) ==> r == Err::<(), ContractError>(
                ContractError::NotAtMilestone,
            ) && Self::mint_wrote_nothing(old(self), final(self)),
            spec_is_milestone(old(self).global_counter as int) && spec_balance_of(
                old(self).erc721@,
                caller,
            ) > 0 ==> r == Err::<(), ContractError>(ContractError::AlreadyHolds)
                && Self::mint_wrote_nothing(old(self), final(self)),
            spec_is_milestone(old(self).global_counter as int) && spec_balance_of(
                old(self).erc721@,
                caller,
            ) == 0 && old(self).researcher_supply == u128::MAX ==> r == Err::<(), ContractError>(
                ContractError::ArithmeticOverflow,
            ) && Self::mint_wrote_nothing(old(self), final(self)),
            spec_is_milestone(old(self).global_counter as int) && spec_balance_of(
                old(self).erc721@,
                caller,
            ) == 0 && old(self).researcher_supply < u128::MAX && spec_has_owner(
                old(self).erc721@,
                (old(self).researcher_supply + 1) as u128,
            ) ==> r == Err::<(), ContractError>(
                ContractError::Ledger(crate::errors::LedgerError::AlreadyMinted),
            ) && Self::mint_wrote_nothing(old(self), final(self)),
            spec_is_milestone(old(self).global_counter as int) && spec_balance_of(
                old(self).erc721@,
                caller,
            ) == 0 && old(self).researcher_supply < u128::MAX && !spec_has_owner(
                old(self).erc721@,
                (old(self).researcher_supply + 1) as u128,
            ) ==> {
                &&& r == Ok::<(), ContractError>(())
                &&& final(self).researcher_supply == old(self).researcher_supply + 1
                &&& final(self).erc721@ =~= old(self).erc721@.push(
                    MintRecord {
                        token_id: (old(self).researcher_supply + 1) as u128,
                        owner: caller,
                    },
                )
            },
    {
        let is_milestone = match self.is_counter_multiple_of_ten() {
            Ok(b) => b,
            Err(e) => return Err(e),
        };
        if !is_milestone {
            return Err(ContractError::NotAtMilestone);
        }
        let user_balance = self.erc721.balance_of(caller);
        if user_balance > 0 {
            return Err(ContractError::AlreadyHolds);
        }
        let supply = self.researcher_supply;
        if supply == u128::MAX {
            return Err(ContractError::ArithmeticOverflow);
        }
        let token_id = supply + 1;
        match self.erc721.mint(caller, token_id) {
            Err(e) => return Err(ContractError::Ledger(e)),
            Ok(()) => {},
        }
        self.researcher_supply = token_id;
        Ok(())
    }

    /// The collection's descriptive name.
    pub fn name(&self) -> (r: Result<String, ContractError>)
        ensures
            r matches Ok(s) && s@ == "Top Signals Browser Researcher"@,
    {
        Ok(String::from_str("Top Signals Browser Researcher"))
    }

    /// The collection's ticker symbol.
    pub fn symbol(&self) -> (r: Result<String, ContractError>)
        ensures
            r matches Ok(s) && s@ == "TSBR"@,
    {
        Ok(String::from_str("TSBR"))
    }

    /// The metadata payload for `token_id`: a fixed JSON template with the
    /// token id embedded in decimal.
    pub fn token_uri(&self, token_id: u128) -> (r: Result<String, ContractError>)
        ensures
            r matches Ok(s) && s@ =~= crate::metadata::spec_token_uri(token_id as int),
    {
        Ok(crate::metadata::token_metadata(token_id))
    }

    /// A failed mint leaves the ledger contents, the supply and the
    /// eligibility flag exactly as they were.
    pub open spec fn mint_wrote_nothing(
        pre: &TopSignalsBrowserContract,
        post: &TopSignalsBrowserContract,
    ) -> bool {
        &&& post.erc721@ =~= pre.erc721@
        &&& post.researcher_supply == pre.researcher_supply
        &&& post.researcher_eligibility == pre.researcher_eligibility
    }
}

/// Resetting the counter and then incrementing it by any amount `n` always
/// succeeds and leaves the counter at exactly `n`: starting from zero, the
/// increment can never overflow.  The premises restate what `reset_counter`
/// ensures of the first call and what `increment_counter_by` ensures of the
/// second.
pub proof fn lemma_reset_then_increment_by(
    after_reset: TopSignalsBrowserContract,
    after_inc: TopSignalsBrowserContract,
    r: Result<(), ContractError>,
    n: u128,
)
    requires
        after_reset.global_counter == 0,
        after_reset.global_counter + n <= u128::MAX ==> r == Ok::<(), ContractError>(())
            && after_inc.global_counter == after_reset.global_counter + n,
        after_reset.global_counter + n > u128::MAX ==> r == Err::<(), ContractError>(
            ContractError::ArithmeticOverflow,
        ) && after_inc.global_counter == after_reset.global_counter,
    ensures
        r == Ok::<(), ContractError>(()),
        after_inc.global_counter == n,
{
}

/// The (view count, eligibility flag) pair after `k` successful
/// `track_token_view` calls from a fresh state with threshold `required`.
/// One step of this function is exactly the update that the contract of
/// `track_token_view` states for a successful call.
pub open spec fn tracked_state(k: nat, required: u128) -> (nat, bool)
    decreases k,
{
    if k == 0 {
        (0, false)
    } else {
        let prev = tracked_state((k - 1) as nat, required);
        (prev.0 + 1, prev.1 || prev.0 + 1 >= required)
    }
}

/// One successful `track_token_view` call advances the (view count,
/// eligibility flag) pair by exactly one `tracked_state` step: the premises
/// restate the update that the function's contract states for a successful
/// call.
pub proof fn lemma_track_view_step(
    pre: TopSignalsBrowserContract,
    post: TopSignalsBrowserContract,
    k: nat,
)
    requires
        pre.user_token_views == tracked_state(k, pre.required_views_for_researcher).0,
        pre.researcher_eligibility == tracked_state(k, pre.required_views_for_researcher).1,
        pre.user_token_views < u128::MAX,
        post.user_token_views == pre.user_token_views + 1,
        post.researcher_eligibility == (pre.researcher_eligibility || pre.user_token_views + 1
            >= pre.required_views_for_researcher),
        post.required_views_for_researcher == pre.required_views_for_researcher,
    ensures
        post.user_token_views == tracked_state(k + 1, post.required_views_for_researcher).0,
        post.researcher_eligibility == tracked_state(k + 1, post.required_views_for_researcher).1,
{
}

/// With a positive threshold, after exactly `k` tracked views from a fresh
/// state the shared view count is `k` and the eligibility flag is set if and
/// only if `k` has reached the threshold — so the flag is still clear one
/// view short of the threshold and set the moment the threshold is hit,
/// whatever addresses the calls passed.
pub proof fn lemma_eligibility_after_tracked_views(k: nat, required: u128)
    requires
        required > 0,
    ensures
        tracked_state(k, required).0 == k,
        tracked_state(k, required).1 <==> k >= required,
    decreases k,
{
    if k > 0 {
        lemma_eligibility_after_tracked_views((k - 1) as nat, required);
    }
}

/// A successful researcher mint leaves its caller with a positive ledger
/// balance, so an immediate second mint by the same caller is refused with
/// `AlreadyHolds` — even if the eligibility flag were somehow set again —
/// and each address can be minted to at most once.  The premise restates the
/// ledger effect that a successful mint ensures.
pub proof fn lemma_researcher_mint_is_one_shot(
    pre: TopSignalsBrowserContract,
    post: TopSignalsBrowserContract,
    caller: Address,
)
    requires
        post.erc721@ == pre.erc721@.push(
            MintRecord { token_id: (pre.researcher_supply + 1) as u128, owner: caller },
        ),
    ensures
        spec_balance_of(post.erc721@, caller) > 0,
{
    crate::ledger::lemma_balance_push(
        pre.erc721@,
        MintRecord { token_id: (pre.researcher_supply + 1) as u128, owner: caller },
        caller,
    );
}

/// Both mint paths draw token ids from the same supply counter: two
/// successful mints in a row — through either path — mint the ids
/// `supply + 1` and `supply + 2`, distinct and sequential, and leave the
/// supply exactly two higher.  Each successful mint's id equals its new
/// supply value; the premises restate the supply effect that each mint
/// ensures.
pub proof fn lemma_two_mints_sequential(
    pre: TopSignalsBrowserContract,
    mid: TopSignalsBrowserContract,
    post: TopSignalsBrowserContract,
)
    requires
        pre.researcher_supply < u128::MAX,
        mid.researcher_supply == pre.researcher_supply + 1,
        mid.researcher_supply < u128::MAX,
        post.researcher_supply == mid.researcher_supply + 1,
    ensures
        post.researcher_supply == pre.researcher_supply + 2,
        mid.researcher_supply != post.researcher_supply,
        post.researcher_supply == mid.researcher_supply + 1,
{
}

} // verus!
