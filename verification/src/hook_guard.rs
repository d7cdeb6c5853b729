//! The guard that every asset passes before a swap: an asset that carries a transfer
//! hook may be traded only if the registry has approved the hook's program.
//!
//! An asset record is decoded by the token program's own library. What that library
//! finds in a record is a function of the record's bytes; it is given a name here,
//! `mint_hook_extension`, and the verdict on an asset is stated over that name.

use vstd::prelude::*;
use spl_token_2022::extension::transfer_hook::TransferHook;
use spl_token_2022::extension::{BaseStateWithExtensions, StateWithExtensions};
use spl_token_2022::solana_program::program_error::ProgramError;
use spl_token_2022::solana_program::program_pack::Pack;
use spl_token_2022::solana_program::pubkey::Pubkey;
use spl_token_2022::state::Mint;
use crate::account::AccountRecord;
use crate::error::SwapError;
use crate::identity::Identity;
use crate::registry::Config;

verus! {

/// What an asset record that decodes says about a transfer hook.
#[derive(Clone, Copy, Debug, PartialEq, Eq)]
pub enum HookExtension {
    /// The record holds no transfer-hook extension that can be read.
    Absent,
    /// The record holds the extension. Its program field is empty (`None`) or names
    /// the program that authorises every transfer of the asset.
    Present(Option<Identity>),
}

/// The error type of the token program's library, `solana_program`'s `ProgramError`.
/// Nothing is known of a value of it.
#[verifier::external_type_specification]
#[verifier::external_body]
pub struct ExProgramError(ProgramError);

/// What the token program's library finds in an asset record: `None` where
/// `StateWithExtensions::<Mint>::unpack` rejects the bytes; otherwise `Absent` where
/// `get_extension::<TransferHook>` returns an error, and else `Present` with the
/// extension's `program_id` as an `Option<Pubkey>`.
pub uninterp spec fn mint_hook_extension(data: Seq<u8>) -> Option<HookExtension>;

/// Decodes an asset record with `StateWithExtensions::<Mint>::unpack`, asks it for
/// its `TransferHook` extension with `get_extension`, and converts the extension's
/// `program_id` with `Option::<Pubkey>::from`. The contract claims only that the
/// outcome is the one that `mint_hook_extension` names for these bytes, the error of
/// `unpack` standing for `None`.
#[verifier::external_body]
fn read_hook_extension(data: &[u8]) -> (r: Result<HookExtension, ProgramError>)
    ensures
        match r {
            Ok(found) => mint_hook_extension(data@) == Some(found),
            Err(_) => mint_hook_extension(data@) is None,
        },
{
    let state = StateWithExtensions::<Mint>::unpack(data)?;
    Ok(
        match state.get_extension::<TransferHook>() {
            Ok(ext) => HookExtension::Present(
                Option::<Pubkey>::from(ext.program_id).map(|p| Identity { bytes: p.to_bytes() }),
            ),
            Err(_) => HookExtension::Absent,
        },
    )
}

/// The size of an asset record without extensions: the constant `Mint::LEN` of the
/// token program's library, which is 82.
#[verifier::external_body]
fn base_mint_len() -> (n: usize)
    ensures
        n == 82,
{
    Mint::LEN
}

/// The verdict on what was found in an asset record: an asset without a hook
/// program passes, one with a hook program passes exactly when `hooks` lists it.
pub open spec fn hook_verdict(hooks: Seq<Identity>, found: HookExtension) -> Result<(), SwapError> {
    match found {
        HookExtension::Absent => Ok(()),
        HookExtension::Present(None) => Ok(()),
        HookExtension::Present(Some(program)) => if hooks.contains(program) {
            Ok(())
        } else {
            Err(SwapError::UnauthorizedHook)
        },
    }
}

/// The verdict on an asset record: a record no longer than the base size carries no
/// extension and passes; a longer one must decode, and is then judged by
/// `hook_verdict`.
pub open spec fn mint_verdict(hooks: Seq<Identity>, data: Seq<u8>) -> Result<(), SwapError> {
    if data.len() <= 82 {
        Ok(())
    } else {
        match mint_hook_extension(data) {
            None => Err(SwapError::InvalidMint),
            Some(found) => hook_verdict(hooks, found),
        }
    }
}

/// Judges what was found in an asset record against the registry's allow-list.
///
/// Fails with `UnauthorizedHook` exactly when the record names a hook program that
/// the registry does not list.
pub fn check_hook_extension(config: &Config, found: &HookExtension) -> (r: Result<(), SwapError>)
    ensures
        r == hook_verdict(config@.whitelisted_hooks, *found),
{
    match found {
        HookExtension::Absent => Ok(()),
        HookExtension::Present(None) => Ok(()),
        HookExtension::Present(Some(program)) => {
            if config.approves(program) {
                Ok(())
            } else {
                Err(SwapError::UnauthorizedHook)
            }
        },
    }
}

/// Judges an asset by its record.
///
/// A record that is longer than the base size and does not decode fails with
/// `InvalidMint`; one that names a hook program which the registry does not list
/// fails with `UnauthorizedHook`; every other record passes.
pub fn validate_token_hooks(config: &Config, mint: &AccountRecord) -> (r: Result<(), SwapError>)
    ensures
        r == mint_verdict(config@.whitelisted_hooks, mint.data@),
{
    if mint.data.len() > base_mint_len() {
        match read_hook_extension(mint.data.as_slice()) {
            Ok(found) => check_hook_extension(config, &found),
            Err(_) => Err(SwapError::InvalidMint),
        }
    } else {
        Ok(())
    }
}

} // verus!
