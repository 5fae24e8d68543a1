//! The payment verifier.
//!
//! A job registration does not move funds; it proves that a token transfer
//! is co-scheduled in the same atomic transaction.  The caller names an
//! instruction index, and the verifier checks that the sibling instruction
//! at that index is a transfer by the expected token program that moves the
//! claimed amount from the client's token account to the agent's token
//! account under the client's authority.  Because the host commits either
//! every instruction of the transaction or none, a successful check followed
//! by the registry's own write is an atomic exchange of "payment happens"
//! and "job is recorded as paid".

use vstd::prelude::*;
use vstd::bytes::spec_u64_from_le_bytes;
use vstd::bytes::u64_from_le_bytes;
use vstd::slice::slice_subrange;

use crate::Key;
use crate::errors::ErrorCode;

verus! {

/// The opcode that the token program gives its transfer instruction.
pub const TRANSFER_OPCODE: u8 = 3;

/// What the registry reads of a sibling instruction: the program it targets,
/// its raw payload, and the keys of the accounts it declares.
pub struct TransferInstruction {
    /// The program the instruction targets.
    pub program_id: Key,
    /// The instruction's raw payload.
    pub data: Vec<u8>,
    /// The keys of the accounts the instruction declares, in order.
    pub accounts: Vec<Key>,
}

/// The abstract value of a sibling instruction.
pub struct TransferInstructionView {
    pub program_id: Key,
    pub data: Seq<u8>,
    pub accounts: Seq<Key>,
}

impl View for TransferInstruction {
    type V = TransferInstructionView;

    open spec fn view(&self) -> TransferInstructionView {
        TransferInstructionView {
            program_id: self.program_id,
            data: self.data@,
            accounts: self.accounts@,
        }
    }
}

/// What the registry reads of a token account: its own address, the asset
/// mint it holds, and the wallet that owns it.
#[derive(PartialEq, Eq, Structural, Clone, Copy, Debug)]
pub struct TokenAccountInfo {
    /// The token account's own address.
    pub address: Key,
    /// The asset the account holds.
    pub mint: Key,
    /// The wallet the account belongs to.
    pub owner: Key,
}

/// The caller-side preconditions of the payment verifier: the two token
/// accounts must hold one and the same asset and belong to the claimed
/// client and agent.
pub open spec fn spec_check_token_accounts(
    client_wallet: Key,
    agent_wallet: Key,
    client_token: TokenAccountInfo,
    agent_token: TokenAccountInfo,
) -> Result<(), ErrorCode> {
    if client_token.mint != agent_token.mint {
        Err(ErrorCode::TokenMintMismatch)
    } else if client_token.owner != client_wallet {
        Err(ErrorCode::InvalidClientTokenAccount)
    } else if agent_token.owner != agent_wallet {
        Err(ErrorCode::InvalidAgentTokenAccount)
    } else {
        Ok(())
    }
}

/// Check the token accounts of a claimed payment, exactly as
/// `spec_check_token_accounts` rules.
pub fn check_token_accounts(
    client_wallet: Key,
    agent_wallet: Key,
    client_token: TokenAccountInfo,
    agent_token: TokenAccountInfo,
) -> (r: Result<(), ErrorCode>)
    ensures
        r == spec_check_token_accounts(client_wallet, agent_wallet, client_token, agent_token),
{
    if client_token.mint != agent_token.mint {
        Err(ErrorCode::TokenMintMismatch)
    } else if client_token.owner != client_wallet {
        Err(ErrorCode::InvalidClientTokenAccount)
    } else if agent_token.owner != agent_wallet {
        Err(ErrorCode::InvalidAgentTokenAccount)
    } else {
        Ok(())
    }
}

/// The transfer amount a well-formed transfer instruction claims: the
/// little-endian 64-bit integer in payload bytes 1 through 8.
pub open spec fn spec_transfer_amount(data: Seq<u8>) -> u64
    recommends
        data.len() >= 9,
{
    spec_u64_from_le_bytes(data.subrange(1, 9))
}

/// The verifier's verdict on a sibling instruction, checked in this order:
/// the instruction must target the expected program, carry a payload of at
/// least 9 bytes opening with the transfer opcode, and declare at least
/// three accounts; the three accounts must be the client's token account,
/// the agent's token account, and the client, in that order.  If all checks
/// pass, the verdict is the claimed amount from the payload.
pub open spec fn spec_verify_transfer(
    ix: TransferInstructionView,
    expected_program: Key,
    client_token: Key,
    agent_token: Key,
    client_wallet: Key,
) -> Result<u64, ErrorCode> {
    if ix.program_id != expected_program {
        Err(ErrorCode::InvalidTransferInstruction)
    } else if !(ix.data.len() >= 9 && ix.data[0] == TRANSFER_OPCODE) {
        Err(ErrorCode::InvalidTransferInstruction)
    } else if ix.accounts.len() < 3 {
        Err(ErrorCode::InvalidTransferInstruction)
    } else if ix.accounts[0] != client_token {
        Err(ErrorCode::TransferSourceMismatch)
    } else if ix.accounts[1] != agent_token {
        Err(ErrorCode::TransferDestinationMismatch)
    } else if ix.accounts[2] != client_wallet {
        Err(ErrorCode::TransferAuthorityMismatch)
    } else {
        Ok(spec_transfer_amount(ix.data))
    }
}

/// Check a sibling instruction against the claimed transfer and return the
/// transferred amount, exactly as `spec_verify_transfer` rules.
pub fn verify_transfer(
    ix: &TransferInstruction,
    expected_program: Key,
    client_token: Key,
    agent_token: Key,
    client_wallet: Key,
) -> (r: Result<u64, ErrorCode>)
    ensures
        r == spec_verify_transfer(ix@, expected_program, client_token, agent_token, client_wallet),
{
    if ix.program_id != expected_program {
        return Err(ErrorCode::InvalidTransferInstruction);
    }
    if !(ix.data.len() >= 9 && ix.data[0] == TRANSFER_OPCODE) {
        return Err(ErrorCode::InvalidTransferInstruction);
    }
    if ix.accounts.len() < 3 {
        return Err(ErrorCode::InvalidTransferInstruction);
    }
    if ix.accounts[0] != client_token {
        return Err(ErrorCode::TransferSourceMismatch);
    }
    if ix.accounts[1] != agent_token {
        return Err(ErrorCode::TransferDestinationMismatch);
    }
    if ix.accounts[2] != client_wallet {
        return Err(ErrorCode::TransferAuthorityMismatch);
    }
    let amount_bytes: &[u8] = slice_subrange(ix.data.as_slice(), 1, 9);
    Ok(u64_from_le_bytes(amount_bytes))
}

} // verus!
