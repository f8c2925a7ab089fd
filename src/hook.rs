//! The decisions of a token-transfer hook that consults a list before a
//! transfer goes through. The hook calls `assert_allowed` in another program;
//! that call's result is handed to `check_whitelist`.
use vstd::prelude::*;

use crate::error::BouncerError;
use crate::merkle::bytes_eq;

verus! {

/// Failures of the transfer hook.
#[derive(Debug, Clone, Copy, PartialEq, Eq, Structural)]
pub enum ErrorCode {
    TransferNotAllowed,
    Custom,
}

/// Which list program and which list the hook consults.
#[derive(Debug, Clone, Copy)]
pub struct Config {
    pub bouncer_program_id: [u8; 32],
    pub bouncer_list: [u8; 32],
    pub bump: u8,
}

/// Records the list program and list to consult, and the config's nonce.
pub fn initialize_config(config: &mut Config, bouncer_program_id: [u8; 32], bouncer_list: [u8; 32], bump: u8)
    ensures
        *final(config) == (Config { bouncer_program_id, bouncer_list, bump }),
{
    config.bouncer_program_id = bouncer_program_id;
    config.bouncer_list = bouncer_list;
    config.bump = bump;
}

/// Replaces whichever of the two addresses is given.
pub fn update_config(config: &mut Config, bouncer_program_id: Option<[u8; 32]>, bouncer_list: Option<[u8; 32]>)
    ensures
        final(config).bouncer_program_id == (match bouncer_program_id {
            Some(p) => p,
            None => old(config).bouncer_program_id,
        }),
        final(config).bouncer_list == (match bouncer_list {
            Some(l) => l,
            None => old(config).bouncer_list,
        }),
        final(config).bump == old(config).bump,
{
    if let Some(p) = bouncer_program_id {
        config.bouncer_program_id = p;
    }
    if let Some(l) = bouncer_list {
        config.bouncer_list = l;
    }
}

/// Whether a transfer may go on: the program and list consulted must be the
/// configured ones, the program must be executable, and the list's
/// assertion on the recipient must have passed.
pub open spec fn whitelist_passes(
    config: Config,
    bouncer_program: Seq<u8>,
    bouncer_program_executable: bool,
    bouncer_list: Seq<u8>,
    assertion: Result<(), BouncerError>,
) -> bool {
    &&& bouncer_program == config.bouncer_program_id@
    &&& bouncer_list == config.bouncer_list@
    &&& bouncer_program_executable
    &&& assertion is Ok
}

/// Checks the records a transfer presents against the config, then turns
/// the list's decision into the hook's; every failure is
/// `TransferNotAllowed`.
pub fn check_whitelist(
    config: &Config,
    bouncer_program: &[u8; 32],
    bouncer_program_executable: bool,
    bouncer_list: &[u8; 32],
    assertion: Result<(), BouncerError>,
) -> (r: Result<(), ErrorCode>)
    ensures
        r == (if whitelist_passes(*config, bouncer_program@, bouncer_program_executable, bouncer_list@, assertion) {
            Ok::<(), ErrorCode>(())
        } else {
            Err::<(), ErrorCode>(ErrorCode::TransferNotAllowed)
        }),
{
    if !bytes_eq(bouncer_program, &config.bouncer_program_id) {
        return Err(ErrorCode::TransferNotAllowed);
    }
    if !bytes_eq(bouncer_list, &config.bouncer_list) {
        return Err(ErrorCode::TransferNotAllowed);
    }
    if !bouncer_program_executable {
        return Err(ErrorCode::TransferNotAllowed);
    }
    match assertion {
        Ok(()) => Ok(()),
        Err(_) => Err(ErrorCode::TransferNotAllowed),
    }
}

/// The balances after closing the config: what it holds above
/// `rent_exempt` moves to the payer. Returns the config's and the payer's
/// new balances, or `Custom` where the payer's balance would overflow.
pub fn close_config(config_lamports: u64, rent_exempt: u64, payer_lamports: u64) -> (r: Result<(u64, u64), ErrorCode>)
    ensures
        config_lamports <= rent_exempt ==> r == Ok::<(u64, u64), ErrorCode>((config_lamports, payer_lamports)),
        config_lamports > rent_exempt && payer_lamports + (config_lamports - rent_exempt) <= u64::MAX ==> r
            == Ok::<(u64, u64), ErrorCode>(
            (rent_exempt, (payer_lamports + (config_lamports - rent_exempt)) as u64),
        ),
        config_lamports > rent_exempt && payer_lamports + (config_lamports - rent_exempt) > u64::MAX ==> r
            == Err::<(u64, u64), ErrorCode>(ErrorCode::Custom),
{
    let excess = match config_lamports.checked_sub(rent_exempt) {
        Some(x) => x,
        None => 0,
    };
    if excess > 0 {
        match payer_lamports.checked_add(excess) {
            Some(p) => Ok((rent_exempt, p)),
            None => Err(ErrorCode::Custom),
        }
    } else {
        Ok((config_lamports, payer_lamports))
    }
}

} // verus!
