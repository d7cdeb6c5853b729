//! The whitelist policy: a set of approved identities, kept by an admin, and the
//! transfer hook that lets a transfer pass when the owner of its source or of its
//! destination is in the set.
//!
//! The hook trusts no claim about who owns an account. It decodes both token
//! accounts with the token program's own library; the owner that this library reads
//! out of a record is a function of the record's bytes, named `token_account_owner`
//! here.

use vstd::prelude::*;
use anchor_lang::AccountDeserialize;
use anchor_spl::token_interface::TokenAccount;
use crate::account::AccountRecord;
use crate::error::HookError;
use crate::identity::{contains_identity, Identity};

verus! {

/// The whitelist holds at most this many identities.
pub const MAX_APPROVED_USERS: usize = 1000;

/// The whitelist record. There is one per deployment of the policy.
#[derive(Clone, Debug, PartialEq, Eq)]
pub struct Whitelist {
    /// The only identity that may change the whitelist.
    pub admin: Identity,
    /// The approved identities, in the order of their approval.
    pub approved_users: Vec<Identity>,
    /// The bump of the address that the record lives at.
    pub bump: u8,
}

/// A whitelist as a mathematical value.
pub struct WhitelistView {
    pub admin: Identity,
    pub approved_users: Seq<Identity>,
    pub bump: u8,
}

impl View for Whitelist {
    type V = WhitelistView;

    open spec fn view(&self) -> WhitelistView {
        WhitelistView {
            admin: self.admin,
            approved_users: self.approved_users@,
            bump: self.bump,
        }
    }
}

/// The test that every identity but `user` passes.
pub open spec fn other_than(user: Identity) -> spec_fn(Identity) -> bool {
    |id: Identity| id != user
}

impl WhitelistView {
    /// The invariant of a whitelist: no identity is listed twice, and the list is
    /// within its bound.
    pub open spec fn wf(self) -> bool {
        &&& self.approved_users.no_duplicates()
        &&& self.approved_users.len() <= MAX_APPROVED_USERS
    }

    /// The whitelist that `initialize_whitelist` creates.
    pub open spec fn fresh(admin: Identity, bump: u8) -> WhitelistView {
        WhitelistView { admin, approved_users: Seq::empty(), bump }
    }

    /// What becomes of the whitelist when `caller` asks to add `user`.
    pub open spec fn add(self, caller: Identity, user: Identity) -> Result<WhitelistView, HookError> {
        if caller != self.admin {
            Err(HookError::Unauthorized)
        } else if self.approved_users.contains(user) {
            Err(HookError::AlreadyApproved)
        } else if self.approved_users.len() >= MAX_APPROVED_USERS {
            Err(HookError::CapacityExceeded)
        } else {
            Ok(WhitelistView { approved_users: self.approved_users.push(user), ..self })
        }
    }

    /// What becomes of the whitelist when `caller` asks to remove `user`: every
    /// entry that is `user` goes, the others stay in their order.
    pub open spec fn remove(self, caller: Identity, user: Identity) -> Result<
        WhitelistView,
        HookError,
    > {
        if caller != self.admin {
            Err(HookError::Unauthorized)
        } else {
            Ok(
                WhitelistView {
                    approved_users: self.approved_users.filter(other_than(user)),
                    ..self
                },
            )
        }
    }

    /// The policy: a transfer passes exactly when the owner of its source or the
    /// owner of its destination is listed.
    pub open spec fn authorize(self, source_owner: Identity, destination_owner: Identity) -> Result<
        (),
        HookError,
    > {
        if self.approved_users.contains(source_owner) || self.approved_users.contains(
            destination_owner,
        ) {
            Ok(())
        } else {
            Err(HookError::NotWhitelisted)
        }
    }

    /// An addition keeps the invariant and lists the user beside all that were
    /// listed; from then on every transfer from or to an account of the user passes.
    pub proof fn lemma_add_approves(self, caller: Identity, user: Identity)
        requires
            self.add(caller, user) is Ok,
        ensures
            self.wf() ==> self.add(caller, user)->Ok_0.wf(),
            self.add(caller, user)->Ok_0.approved_users.contains(user),
            forall|other: Identity|
                self.approved_users.contains(other) ==> #[trigger] self.add(
                    caller,
                    user,
                )->Ok_0.approved_users.contains(other),
            forall|other: Identity| #[trigger]
                self.add(caller, user)->Ok_0.authorize(user, other) is Ok,
            forall|other: Identity| #[trigger]
                self.add(caller, user)->Ok_0.authorize(other, user) is Ok,
    {
        let before = self.approved_users;
        let after = before.push(user);
        assert(after[before.len() as int] == user);
        assert forall|other: Identity| before.contains(other) implies after.contains(other) by {
            let i = choose|i: int| 0 <= i < before.len() && before[i] == other;
            assert(after[i] == other);
        }
        if self.wf() {
            assert(after.no_duplicates());
        }
    }

    /// Adding an identity a second time is refused with `AlreadyApproved`.
    pub proof fn lemma_second_addition_refused(self, caller: Identity, user: Identity)
        requires
            self.add(caller, user) is Ok,
        ensures
            self.add(caller, user)->Ok_0.add(caller, user) == Err::<WhitelistView, HookError>(
                HookError::AlreadyApproved,
            ),
    {
        let after = self.approved_users.push(user);
        assert(after[self.approved_users.len() as int] == user);
    }

    /// A removal keeps the invariant, takes the user off the list and leaves every
    /// other identity as it was, listed or not. Removing an identity that is not
    /// listed changes nothing.
    pub proof fn lemma_remove_revokes(self, caller: Identity, user: Identity)
        requires
            self.remove(caller, user) is Ok,
        ensures
            self.wf() ==> self.remove(caller, user)->Ok_0.wf(),
            !self.remove(caller, user)->Ok_0.approved_users.contains(user),
            forall|other: Identity|
                other != user ==> (#[trigger] self.remove(
                    caller,
                    user,
                )->Ok_0.approved_users.contains(other) <==> self.approved_users.contains(other)),
            !self.approved_users.contains(user) ==> self.remove(caller, user)->Ok_0 == self,
    {
        let before = self.approved_users;
        let keep = other_than(user);
        lemma_filter_keeps(before, keep);
        if !before.contains(user) {
            lemma_filter_all(before, keep);
        }
        if before.no_duplicates() {
            lemma_filter_no_duplicates(before, keep);
        }
    }
}

/// A filtered sequence holds exactly the elements of the sequence that pass the
/// test.
proof fn lemma_filter_keeps<A>(s: Seq<A>, pred: spec_fn(A) -> bool)
    ensures
        forall|x: A| #[trigger] s.filter(pred).contains(x) <==> s.contains(x) && pred(x),
{
    assert forall|x: A| #[trigger] s.filter(pred).contains(x) <==> s.contains(x) && pred(x) by {
        if s.filter(pred).contains(x) {
            let i = choose|i: int| 0 <= i < s.filter(pred).len() && s.filter(pred)[i] == x;
            s.lemma_filter_pred(pred, i);
            s.lemma_filter_contains_rev(pred, x);
        }
        if s.contains(x) && pred(x) {
            let i = choose|i: int| 0 <= i < s.len() && s[i] == x;
            s.lemma_filter_contains(pred, i);
        }
    }
}

/// Filtering a sequence whose elements all pass the test changes nothing.
proof fn lemma_filter_all<A>(s: Seq<A>, pred: spec_fn(A) -> bool)
    requires
        forall|i: int| 0 <= i < s.len() ==> pred(#[trigger] s[i]),
    ensures
        s.filter(pred) == s,
    decreases s.len(),
{
    reveal(Seq::filter);
    if s.len() > 0 {
        lemma_filter_all(s.drop_last(), pred);
    }
}

/// Filtering a sequence without duplicates leaves none.
proof fn lemma_filter_no_duplicates<A>(s: Seq<A>, pred: spec_fn(A) -> bool)
    requires
        s.no_duplicates(),
    ensures
        s.filter(pred).no_duplicates(),
    decreases s.len(),
{
    reveal(Seq::filter);
    if s.len() > 0 {
        let rest = s.drop_last();
        let kept = rest.filter(pred);
        lemma_filter_no_duplicates(rest, pred);
        lemma_filter_keeps(rest, pred);
        if pred(s.last()) {
            // The last element occurs nowhere in the rest, so nowhere in what was
            // kept of the rest.
            assert forall|k: int| 0 <= k < kept.len() implies kept[k] != s.last() by {
                if kept[k] == s.last() {
                    assert(kept.contains(kept[k]));
                    let m = choose|m: int| 0 <= m < rest.len() && rest[m] == kept[k];
                    assert(s[m] == s[s.len() - 1]);
                }
            }
            assert(kept.push(s.last()).no_duplicates());
        }
    }
}

impl Whitelist {
    /// Whether `user` is on the whitelist.
    pub fn approves(&self, user: &Identity) -> (listed: bool)
        ensures
            listed == self@.approved_users.contains(*user),
    {
        contains_identity(&self.approved_users, user)
    }
}

/// What `initialize_whitelist` works on: the record to fill, the identity that signs
/// for it and becomes its admin, and the bump of the record's address.
#[derive(Clone, Debug, PartialEq, Eq)]
pub struct InitializeWhitelist {
    pub whitelist: Whitelist,
    pub admin: Identity,
    pub bump: u8,
}

/// What an addition or a removal works on: the whitelist and the identity that
/// signs.
#[derive(Clone, Debug, PartialEq, Eq)]
pub struct ModifyWhitelist {
    pub whitelist: Whitelist,
    pub admin: Identity,
}

/// What the transfer hook is handed for one transfer: the source and destination
/// token accounts, the asset, the account that authorised the transfer, the
/// whitelist, and the extra account that the hook interface asks for.
#[derive(Clone, Debug, PartialEq, Eq)]
pub struct TransferHook {
    pub source_token: AccountRecord,
    pub mint: Identity,
    pub destination_token: AccountRecord,
    pub owner: Identity,
    pub whitelist: Whitelist,
    pub extra_account: Identity,
}

/// The accounts named when an asset is set up to call the hook: who pays, where the
/// list of extra accounts lives, the asset, and the whitelist.
#[derive(Clone, Copy, Debug, PartialEq, Eq)]
pub struct InitializeExtraAccountMetaList {
    pub payer: Identity,
    pub extra_account_meta_list: Identity,
    pub mint: Identity,
    pub whitelist: Identity,
}

/// The error type of the account framework, `anchor_lang::error::Error`. Nothing is
/// known of a value of it.
#[verifier::external_type_specification]
#[verifier::external_body]
pub struct ExAccountError(anchor_lang::error::Error);

/// The owner that the token program's library reads out of a token account record:
/// the `owner` field of what `TokenAccount::try_deserialize` returns for these
/// bytes, and `None` where it returns an error.
pub uninterp spec fn token_account_owner(data: Seq<u8>) -> Option<Identity>;

/// Decodes a token account record with `TokenAccount::try_deserialize` of
/// `anchor_spl::token_interface` and takes the owner out of it. The contract claims
/// only that the outcome is the one that `token_account_owner` names for these
/// bytes, an error standing for `None`.
#[verifier::external_body]
fn read_token_owner(data: &[u8]) -> (r: Result<Identity, anchor_lang::error::Error>)
    ensures
        match r {
            Ok(owner) => token_account_owner(data@) == Some(owner),
            Err(_) => token_account_owner(data@) is None,
        },
{
    let mut buf: &[u8] = data;
    let account = TokenAccount::try_deserialize(&mut buf)?;
    Ok(Identity { bytes: account.owner.to_bytes() })
}

impl TransferHook {
    /// The hook's verdict on a transfer: both records must decode, and then the
    /// policy decides on the two owners read out of them.
    pub open spec fn verdict(self) -> Result<(), HookError> {
        match token_account_owner(self.source_token.data@) {
            None => Err(HookError::InvalidAccountData),
            Some(source_owner) => match token_account_owner(self.destination_token.data@) {
                None => Err(HookError::InvalidAccountData),
                Some(destination_owner) => self.whitelist@.authorize(
                    source_owner,
                    destination_owner,
                ),
            },
        }
    }
}

/// Creates the whitelist with the signer as admin and nobody listed.
pub fn initialize_whitelist(ctx: &mut InitializeWhitelist) -> (r: Result<(), HookError>)
    ensures
        r is Ok,
        final(ctx).admin == old(ctx).admin,
        final(ctx).bump == old(ctx).bump,
        final(ctx).whitelist@ == WhitelistView::fresh(old(ctx).admin, old(ctx).bump),
        final(ctx).whitelist@.wf(),
{
    ctx.whitelist = Whitelist { admin: ctx.admin, approved_users: Vec::new(), bump: ctx.bump };
    Ok(())
}

/// Puts `user` on the whitelist.
///
/// Fails, and changes nothing, with `Unauthorized` when the signer is not the admin,
/// with `AlreadyApproved` when the user is listed, and with `CapacityExceeded` when
/// the list is full.
pub fn add_to_whitelist(ctx: &mut ModifyWhitelist, user: Identity) -> (r: Result<(), HookError>)
    ensures
        final(ctx).admin == old(ctx).admin,
        match old(ctx).whitelist@.add(old(ctx).admin, user) {
            Ok(after) => r is Ok && final(ctx).whitelist@ == after,
            Err(e) => r == Err::<(), HookError>(e) && *final(ctx) == *old(ctx),
        },
        old(ctx).whitelist@.wf() ==> final(ctx).whitelist@.wf(),
{
    if ctx.admin != ctx.whitelist.admin {
        return Err(HookError::Unauthorized);
    }
    if ctx.whitelist.approves(&user) {
        return Err(HookError::AlreadyApproved);
    }
    if ctx.whitelist.approved_users.len() >= MAX_APPROVED_USERS {
        return Err(HookError::CapacityExceeded);
    }
    proof {
        ctx.whitelist@.lemma_add_approves(ctx.admin, user);
    }
    ctx.whitelist.approved_users.push(user);
    Ok(())
}

/// Takes `user` off the whitelist. Removing an identity that is not listed succeeds
/// and changes nothing.
///
/// Fails with `Unauthorized`, and changes nothing, when the signer is not the admin.
pub fn remove_from_whitelist(ctx: &mut ModifyWhitelist, user: Identity) -> (r: Result<(), HookError>)
    ensures
        final(ctx).admin == old(ctx).admin,
        match old(ctx).whitelist@.remove(old(ctx).admin, user) {
            Ok(after) => r is Ok && final(ctx).whitelist@ == after,
            Err(e) => r == Err::<(), HookError>(e) && *final(ctx) == *old(ctx),
        },
        old(ctx).whitelist@.wf() ==> final(ctx).whitelist@.wf(),
        r is Ok ==> !final(ctx).whitelist@.approved_users.contains(user),
{
    if ctx.admin != ctx.whitelist.admin {
        return Err(HookError::Unauthorized);
    }
    let ghost before = ctx.whitelist.approved_users@;
    let ghost keep = other_than(user);
    let mut kept: Vec<Identity> = Vec::new();
    let mut i: usize = 0;
    proof {
        reveal(Seq::filter);
        assert(before.take(0) =~= Seq::<Identity>::empty());
    }
    while i < ctx.whitelist.approved_users.len()
        invariant
            i <= before.len(),
            ctx.whitelist.approved_users@ == before,
            keep == other_than(user),
            kept@ == before.take(i as int).filter(keep),
        decreases before.len() - i,
    {
        let entry: Identity = ctx.whitelist.approved_users[i];
        proof {
            assert(before.take(i as int + 1) =~= before.take(i as int).push(before[i as int]));
            before.take(i as int).lemma_filter_push(entry, keep);
        }
        if entry != user {
            kept.push(entry);
        }
        i += 1;
    }
    proof {
        assert(before.take(i as int) =~= before);
        ctx.whitelist@.lemma_remove_revokes(ctx.admin, user);
    }
    ctx.whitelist.approved_users = kept;
    Ok(())
}

/// The policy's decision on a transfer between accounts of the two given owners.
/// The amount is taken for the record and plays no part.
///
/// Fails with `NotWhitelisted` exactly when neither owner is listed.
#[allow(unused_variables)]
pub fn authorize_transfer(
    whitelist: &Whitelist,
    source_owner: &Identity,
    destination_owner: &Identity,
    amount: u64,
) -> (r: Result<(), HookError>)
    ensures
        r == whitelist@.authorize(*source_owner, *destination_owner),
{
    let source_listed: bool = whitelist.approves(source_owner);
    let destination_listed: bool = whitelist.approves(destination_owner);
    if source_listed || destination_listed {
        Ok(())
    } else {
        Err(HookError::NotWhitelisted)
    }
}

/// The hook itself: decides whether a transfer of `amount` between the two token
/// accounts may go through. It changes nothing.
///
/// Fails with `InvalidAccountData` when the source record, or else the destination
/// record, does not decode, and with `NotWhitelisted` when neither owner is listed.
pub fn transfer_hook(ctx: &TransferHook, amount: u64) -> (r: Result<(), HookError>)
    ensures
        r == ctx.verdict(),
{
    let source_owner: Identity = match read_token_owner(ctx.source_token.data.as_slice()) {
        Ok(owner) => owner,
        Err(_) => {
            return Err(HookError::InvalidAccountData);
        },
    };
    let destination_owner: Identity = match read_token_owner(
        ctx.destination_token.data.as_slice(),
    ) {
        Ok(owner) => owner,
        Err(_) => {
            return Err(HookError::InvalidAccountData);
        },
    };
    authorize_transfer(&ctx.whitelist, &source_owner, &destination_owner, amount)
}

/// Sets an asset up to call the hook. The hook needs no extra account beyond the
/// whitelist, so there is nothing to record.
#[allow(unused_variables)]
pub fn initialize_extra_account_meta_list(ctx: &InitializeExtraAccountMetaList) -> (r: Result<
    (),
    HookError,
>)
    ensures
        r is Ok,
{
    Ok(())
}

} // verus!
