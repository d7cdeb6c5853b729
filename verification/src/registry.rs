//! The authorization registry: the admin, the fee rate, and the allow-list of
//! transfer-hook programs that pooled assets may carry.

use vstd::prelude::*;
use crate::error::SwapError;
use crate::identity::{contains_identity, Identity};
use crate::quote::BASIS_POINTS;

verus! {

/// The allow-list holds at most this many programs.
pub const MAX_WHITELISTED_HOOKS: usize = 50;

/// The registry record. There is one per deployment.
#[derive(Clone, Debug, PartialEq, Eq)]
pub struct Config {
    /// The only identity that may change the registry.
    pub admin: Identity,
    /// The swap fee in basis points.
    pub fee_rate: u64,
    /// The approved transfer-hook programs, in the order of their approval.
    pub whitelisted_hooks: Vec<Identity>,
    /// The bump of the address that the record lives at.
    pub bump: u8,
}

/// A registry as a mathematical value.
pub struct ConfigView {
    pub admin: Identity,
    pub fee_rate: u64,
    pub whitelisted_hooks: Seq<Identity>,
    pub bump: u8,
}

impl View for Config {
    type V = ConfigView;

    open spec fn view(&self) -> ConfigView {
        ConfigView {
            admin: self.admin,
            fee_rate: self.fee_rate,
            whitelisted_hooks: self.whitelisted_hooks@,
            bump: self.bump,
        }
    }
}

impl ConfigView {
    /// The invariant of a registry: the fee is below the whole, no program is listed
    /// twice, and the list is within its bound.
    pub open spec fn wf(self) -> bool {
        &&& self.fee_rate < BASIS_POINTS
        &&& self.whitelisted_hooks.no_duplicates()
        &&& self.whitelisted_hooks.len() <= MAX_WHITELISTED_HOOKS
    }

    /// The registry that `initialize_config` creates.
    pub open spec fn fresh(admin: Identity, fee_rate: u64, bump: u8) -> ConfigView {
        ConfigView { admin, fee_rate, whitelisted_hooks: Seq::empty(), bump }
    }

    /// What becomes of the registry when `caller` asks to approve `hook`.
    pub open spec fn approve(self, caller: Identity, hook: Identity) -> Result<
        ConfigView,
        SwapError,
    > {
        if caller != self.admin {
            Err(SwapError::Unauthorized)
        } else if self.whitelisted_hooks.contains(hook) {
            Err(SwapError::AlreadyApproved)
        } else if self.whitelisted_hooks.len() >= MAX_WHITELISTED_HOOKS {
            Err(SwapError::CapacityExceeded)
        } else {
            Ok(ConfigView { whitelisted_hooks: self.whitelisted_hooks.push(hook), ..self })
        }
    }

    /// An approval keeps the invariant, appends the program and touches nothing else.
    pub proof fn lemma_approve_keeps_wf(self, caller: Identity, hook: Identity)
        requires
            self.wf(),
            self.approve(caller, hook) is Ok,
        ensures
            self.approve(caller, hook)->Ok_0.wf(),
            self.approve(caller, hook)->Ok_0.whitelisted_hooks.contains(hook),
            forall|other: Identity|
                self.whitelisted_hooks.contains(other) ==> #[trigger] self.approve(
                    caller,
                    hook,
                )->Ok_0.whitelisted_hooks.contains(other),
    {
        let before = self.whitelisted_hooks;
        let after = before.push(hook);
        assert(after[before.len() as int] == hook);
        assert forall|other: Identity| before.contains(other) implies after.contains(other) by {
            let i = choose|i: int| 0 <= i < before.len() && before[i] == other;
            assert(after[i] == other);
        }
        assert(after.no_duplicates());
    }

    /// Approving a program a second time is refused with `AlreadyApproved`.
    pub proof fn lemma_second_approval_refused(self, caller: Identity, hook: Identity)
        requires
            self.approve(caller, hook) is Ok,
        ensures
            self.approve(caller, hook)->Ok_0.approve(caller, hook) == Err::<ConfigView, SwapError>(
                SwapError::AlreadyApproved,
            ),
    {
        let after = self.whitelisted_hooks.push(hook);
        assert(after[self.whitelisted_hooks.len() as int] == hook);
    }

    /// A full allow-list takes no further program: the admin's request for one that
    /// is not listed is refused with `CapacityExceeded`.
    pub proof fn lemma_full_list_refuses(self, hook: Identity)
        requires
            self.whitelisted_hooks.len() == MAX_WHITELISTED_HOOKS,
            !self.whitelisted_hooks.contains(hook),
        ensures
            self.approve(self.admin, hook) == Err::<ConfigView, SwapError>(
                SwapError::CapacityExceeded,
            ),
    {
    }
}

impl Config {
    /// Whether `hook` is on the allow-list.
    pub fn approves(&self, hook: &Identity) -> (listed: bool)
        ensures
            listed == self@.whitelisted_hooks.contains(*hook),
    {
        contains_identity(&self.whitelisted_hooks, hook)
    }
}

/// What `initialize_config` works on: the record to fill, the identity that signs
/// for it and becomes its admin, and the bump of the record's address.
#[derive(Clone, Debug, PartialEq, Eq)]
pub struct InitializeConfig {
    pub config: Config,
    pub admin: Identity,
    pub bump: u8,
}

/// What `add_hook_to_whitelist` works on: the registry and the identity that signs.
#[derive(Clone, Debug, PartialEq, Eq)]
pub struct ModifyWhitelist {
    pub config: Config,
    pub admin: Identity,
}

/// Creates the registry with the signer as admin, the given fee and an empty
/// allow-list.
///
/// Fails with `InvalidConfig`, and changes nothing, when the fee is not below the
/// whole.
pub fn initialize_config(ctx: &mut InitializeConfig, fee_rate: u64) -> (r: Result<(), SwapError>)
    ensures
        final(ctx).admin == old(ctx).admin,
        final(ctx).bump == old(ctx).bump,
        match r {
            Ok(_) => {
                &&& fee_rate < BASIS_POINTS
                &&& final(ctx).config@ == ConfigView::fresh(old(ctx).admin, fee_rate, old(ctx).bump)
                &&& final(ctx).config@.wf()
            },
            Err(e) => e == SwapError::InvalidConfig && fee_rate >= BASIS_POINTS && *final(ctx)
                == *old(ctx),
        },
{
    if fee_rate >= BASIS_POINTS {
        return Err(SwapError::InvalidConfig);
    }
    ctx.config =
    Config { admin: ctx.admin, fee_rate, whitelisted_hooks: Vec::new(), bump: ctx.bump };
    Ok(())
}

/// Puts `hook_program` on the allow-list.
///
/// Fails, and changes nothing, with `Unauthorized` when the signer is not the admin,
/// with `AlreadyApproved` when the program is listed, and with `CapacityExceeded`
/// when the list is full.
pub fn add_hook_to_whitelist(ctx: &mut ModifyWhitelist, hook_program: Identity) -> (r: Result<
    (),
    SwapError,
>)
    ensures
        final(ctx).admin == old(ctx).admin,
        match old(ctx).config@.approve(old(ctx).admin, hook_program) {
            Ok(after) => r is Ok && final(ctx).config@ == after,
            Err(e) => r == Err::<(), SwapError>(e) && *final(ctx) == *old(ctx),
        },
        old(ctx).config@.wf() ==> final(ctx).config@.wf(),
{
    if ctx.admin != ctx.config.admin {
        return Err(SwapError::Unauthorized);
    }
    if ctx.config.approves(&hook_program) {
        return Err(SwapError::AlreadyApproved);
    }
    if ctx.config.whitelisted_hooks.len() >= MAX_WHITELISTED_HOOKS {
        return Err(SwapError::CapacityExceeded);
    }
    proof {
        if ctx.config@.wf() {
            ctx.config@.lemma_approve_keeps_wf(ctx.admin, hook_program);
        }
    }
    ctx.config.whitelisted_hooks.push(hook_program);
    Ok(())
}

} // verus!
