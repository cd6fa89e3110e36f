//! Decisions of the account commands of the command-line client: which
//! account to act on, where a transfer goes, and when it expires. The remote
//! calls around them are made by the caller.

use vstd::prelude::*;

verus! {

/// A 16-byte account address.
#[derive(Clone, Copy, Debug, PartialEq, Eq, Structural)]
pub struct AccountAddress {
    pub value: u128,
}

/// A 32-byte authentication key: a 16-byte prefix and the account address.
#[derive(Clone, Copy, Debug, PartialEq, Eq, Structural)]
pub struct AuthenticationKey {
    pub prefix: u128,
    pub address: AccountAddress,
}

/// Failures of the account commands.
#[derive(Clone, Copy, Debug, PartialEq, Eq, Structural)]
pub enum CommandError {
    /// No address was given and the wallet has no default account.
    DefaultAccountMissing,
    /// Neither a receipt identifier nor a receiver was given.
    ReceiverMissing,
    /// The receiver does not exist on chain and no public key was given for it.
    ReceiverPublicKeyRequired(AccountAddress),
    /// The expiration time does not fit in a timestamp.
    ExpirationOverflow,
}

/// The account `show` reports on: the one asked for, else the default.
pub open spec fn shown_address(requested: Option<AccountAddress>, default_account: Option<AccountAddress>)
    -> Result<AccountAddress, CommandError>
{
    match requested {
        Some(a) => Ok(a),
        None => match default_account {
            Some(d) => Ok(d),
            None => Err(CommandError::DefaultAccountMissing),
        },
    }
}

/// Where a transfer goes and the key it is sent with.
pub open spec fn transfer_receiver(
    receipt: Option<(AccountAddress, Option<AuthenticationKey>)>,
    receiver: Option<AccountAddress>,
    receiver_on_chain: bool,
    receiver_auth_key: Option<AuthenticationKey>,
) -> Result<(AccountAddress, Option<AuthenticationKey>), CommandError> {
    match receipt {
        Some(id) => Ok(id),
        None => match receiver {
            None => Err(CommandError::ReceiverMissing),
            Some(r) => if receiver_on_chain {
                Ok((r, None))
            } else {
                match receiver_auth_key {
                    Some(k) => Ok((r, Some(k))),
                    None => Err(CommandError::ReceiverPublicKeyRequired(r)),
                }
            },
        },
    }
}

/// Shows an account and its on-chain state.
pub struct ShowCommand;

impl ShowCommand {
    /// The address to show: `requested` if given, else that of the default
    /// account, which must exist.
    pub fn account_address(requested: Option<AccountAddress>, default_account: Option<AccountAddress>)
        -> (r: Result<AccountAddress, CommandError>)
        ensures
            r == shown_address(requested, default_account),
    {
        match requested {
            Some(a) => Ok(a),
            None => match default_account {
                Some(d) => Ok(d),
                None => Err(CommandError::DefaultAccountMissing),
            },
        }
    }
}

/// Transfers tokens from a wallet account to a receiver.
pub struct TransferCommand;

impl TransferCommand {
    /// The receiver and its authentication key: taken from the receipt
    /// identifier when one is given; otherwise the receiver must be given,
    /// and, when it does not exist on chain yet, the key derived from its
    /// public key must be given too.
    pub fn receiver(
        receipt: Option<(AccountAddress, Option<AuthenticationKey>)>,
        receiver: Option<AccountAddress>,
        receiver_on_chain: bool,
        receiver_auth_key: Option<AuthenticationKey>,
    ) -> (r: Result<(AccountAddress, Option<AuthenticationKey>), CommandError>)
        ensures
            r == transfer_receiver(receipt, receiver, receiver_on_chain, receiver_auth_key),
    {
        match receipt {
            Some(id) => Ok(id),
            None => match receiver {
                None => Err(CommandError::ReceiverMissing),
                Some(r) => {
                    if receiver_on_chain {
                        Ok((r, None))
                    } else {
                        match receiver_auth_key {
                            Some(k) => Ok((r, Some(k))),
                            None => Err(CommandError::ReceiverPublicKeyRequired(r)),
                        }
                    }
                },
            },
        }
    }

    /// The time a transfer expires at: `expiration_time` seconds after `now_seconds`.
    pub fn expiration_timestamp(now_seconds: u64, expiration_time: u64) -> (r: Result<u64, CommandError>)
        ensures
            now_seconds + expiration_time <= u64::MAX ==> r == Ok::<u64, CommandError>(
                (now_seconds + expiration_time) as u64,
            ),
            now_seconds + expiration_time > u64::MAX ==> r == Err::<u64, CommandError>(CommandError::ExpirationOverflow),
    {
        match now_seconds.checked_add(expiration_time) {
            Some(t) => Ok(t),
            None => Err(CommandError::ExpirationOverflow),
        }
    }
}

} // verus!
