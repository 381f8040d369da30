//! The payment handler: authorizes one transfer per invocation and maps the
//! ledger primitive's answer back to the invocation's result.

use vstd::prelude::*;
use crate::price::{price_of, resolve_price};

verus! {

/// One account reference handed in by the host runtime: the account's raw
/// key and whether its controlling key signed the current invocation.
#[derive(Clone, Copy, Debug, PartialEq, Eq)]
pub struct AccountRef {
    pub key: [u8; 32],
    pub is_signer: bool,
}

/// The transfer one successful invocation pays for: debit `source`,
/// credit `destination`, move `amount` smallest units.
#[derive(Clone, Copy, Debug, PartialEq, Eq)]
pub struct TransferIntent {
    pub source: [u8; 32],
    pub destination: [u8; 32],
    pub amount: u64,
}

/// Why an invocation aborted. Every error is terminal: nothing is retried.
#[derive(Clone, Copy, Debug, PartialEq, Eq)]
pub enum PaymentError {
    /// Fewer than 3 accounts were supplied.
    MissingAccount,
    /// The payer did not sign the invocation.
    MissingRequiredSignature,
    /// The ledger primitive refused the transfer; its raw code is kept.
    TransferFailed(u64),
}

/// Authorizes one invocation and derives the transfer it pays for.
///
/// Accounts are read positionally: payer, treasury, then a transfer
/// capability that only has to be present. The payer must have signed.
/// The amount is the price resolved from the instruction data. The
/// treasury is not held against any allow-list: the second account,
/// whichever it is, receives the funds.
pub fn process_instruction(accounts: &[AccountRef], instruction_data: &[u8]) -> (result: Result<
    TransferIntent,
    PaymentError,
>)
    ensures
        accounts@.len() < 3 ==> (result matches Err(e) && e == PaymentError::MissingAccount),
        accounts@.len() >= 3 && !accounts@[0].is_signer ==> (result matches Err(e) && e
            == PaymentError::MissingRequiredSignature),
        accounts@.len() >= 3 && accounts@[0].is_signer ==> (result matches Ok(intent) && {
            &&& intent.source == accounts@[0].key
            &&& intent.destination == accounts@[1].key
            &&& intent.amount == price_of(instruction_data@)
        }),
{
    if accounts.len() < 3 {
        return Err(PaymentError::MissingAccount);
    }
    let payer = &accounts[0];
    let treasury = &accounts[1];
    if !payer.is_signer {
        return Err(PaymentError::MissingRequiredSignature);
    }
    let price = resolve_price(instruction_data);
    Ok(TransferIntent { source: payer.key, destination: treasury.key, amount: price })
}

/// Maps the ledger primitive's answer to the invocation's result: success
/// passes through, and a refusal propagates verbatim as `TransferFailed`
/// around the primitive's raw code.
pub fn complete_transfer(outcome: Result<(), u64>) -> (result: Result<(), PaymentError>)
    ensures
        outcome is Ok ==> result is Ok,
        outcome matches Err(code) ==> (result matches Err(e) && e == PaymentError::TransferFailed(
            code,
        )),
{
    match outcome {
        Ok(()) => Ok(()),
        Err(code) => Err(PaymentError::TransferFailed(code)),
    }
}

} // verus!
