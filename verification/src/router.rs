use crate::clock::current_epoch;
use crate::controller::{
    check_initialize, check_set_fee, initialize_outcome, initialize_transfer_fee_config,
    set_fee_outcome, set_transfer_fee,
};
use crate::error::FeeError;
use crate::harvest::{harvest_outcome, process_harvest_withheld_tokens_to_mint};
use crate::identity::Identity;
use crate::state::{program_id, spec_program_id, AccountRecord};
use vstd::prelude::*;

verus! {

/// The decoded commands of the transfer-fee extension.
#[derive(Clone, Copy, Debug, PartialEq, Eq)]
pub enum TransferFeeInstruction {
    /// Give the mint in the first account its fee record.
    InitializeTransferFeeConfig {
        transfer_fee_config_authority: Option<Identity>,
        withdraw_withheld_authority: Option<Identity>,
        transfer_fee_basis_points: u16,
        maximum_fee: u64,
    },
    /// Transfer with a stated fee; carried out by the transfer routine.
    TransferCheckedWithFee { amount: u64, decimals: u8, fee: u64 },
    /// Declared, without defined behaviour.
    WithdrawWithheldTokensFromMint,
    /// Declared, without defined behaviour.
    WithdrawWithheldTokensFromAccounts,
    /// Sweep the holder accounts after the first account into the mint there.
    HarvestWithheldTokensToMint,
    /// Change the fee of the mint in the first account, by the authority in
    /// the second.
    SetTransferFee { transfer_fee_basis_points: u16, maximum_fee: u64 },
}

/// What remains to be done once a command has been routed.
#[derive(Clone, Copy, Debug, PartialEq, Eq, Structural)]
pub enum Routed {
    /// The command was carried out on the accounts.
    Completed,
    /// The caller is to run the transfer routine with these parameters.
    TransferDelegated { amount: u64, decimals: u8, fee: u64 },
}

/// The result of routing `instruction`, addressed to `program`, when the
/// clock reads `clock`, and the accounts it leaves.
pub open spec fn route_outcome(
    program: Identity,
    accounts: Seq<AccountRecord>,
    instruction: TransferFeeInstruction,
    clock: Option<u64>,
) -> (Result<Routed, FeeError>, Seq<AccountRecord>) {
    if program != spec_program_id() {
        (Err(FeeError::IncorrectProgramId), accounts)
    } else {
        match instruction {
            TransferFeeInstruction::InitializeTransferFeeConfig {
                transfer_fee_config_authority,
                withdraw_withheld_authority,
                transfer_fee_basis_points,
                maximum_fee,
            } => match initialize_outcome(
                accounts,
                transfer_fee_config_authority,
                withdraw_withheld_authority,
                transfer_fee_basis_points,
                maximum_fee,
                clock,
            ) {
                Ok(after) => (Ok(Routed::Completed), after),
                Err(e) => (Err(e), accounts),
            },
            TransferFeeInstruction::TransferCheckedWithFee { amount, decimals, fee } => (
                Ok(Routed::TransferDelegated { amount, decimals, fee }),
                accounts,
            ),
            TransferFeeInstruction::WithdrawWithheldTokensFromMint => (
                Err(FeeError::NotImplemented),
                accounts,
            ),
            TransferFeeInstruction::WithdrawWithheldTokensFromAccounts => (
                Err(FeeError::NotImplemented),
                accounts,
            ),
            TransferFeeInstruction::HarvestWithheldTokensToMint => (
                match harvest_outcome(accounts).0 {
                    Ok(_) => Ok(Routed::Completed),
                    Err(e) => Err(e),
                },
                harvest_outcome(accounts).1,
            ),
            TransferFeeInstruction::SetTransferFee {
                transfer_fee_basis_points,
                maximum_fee,
            } => match set_fee_outcome(accounts, transfer_fee_basis_points, maximum_fee, clock) {
                Ok(after) => (Ok(Routed::Completed), after),
                Err(e) => (Err(e), accounts),
            },
        }
    }
}

/// Whether routing `instruction` consults the clock.
pub open spec fn reads_clock(instruction: TransferFeeInstruction) -> bool {
    instruction is InitializeTransferFeeConfig || instruction is SetTransferFee
}

fn completed(done: Result<(), FeeError>) -> (r: Result<Routed, FeeError>)
    ensures
        r == match done {
            Ok(_) => Ok::<Routed, FeeError>(Routed::Completed),
            Err(e) => Err::<Routed, FeeError>(e),
        },
{
    match done {
        Ok(_) => Ok(Routed::Completed),
        Err(e) => Err(e),
    }
}

/// Routes `instruction` with the clock reading given: refuses one addressed
/// to another program, carries out a configuration, a fee change or a
/// harvest on `accounts`, hands a transfer back to the caller, and fails a
/// withdrawal with `NotImplemented`.
pub fn route_instruction(
    program: &Identity,
    accounts: &mut Vec<AccountRecord>,
    instruction: TransferFeeInstruction,
    clock: Option<u64>,
) -> (r: Result<Routed, FeeError>)
    ensures
        (r, final(accounts)@) == route_outcome(*program, old(accounts)@, instruction, clock),
{
    if !program.same_as(&program_id()) {
        return Err(FeeError::IncorrectProgramId);
    }
    match instruction {
        TransferFeeInstruction::InitializeTransferFeeConfig {
            transfer_fee_config_authority,
            withdraw_withheld_authority,
            transfer_fee_basis_points,
            maximum_fee,
        } => completed(
            initialize_transfer_fee_config(
                accounts,
                transfer_fee_config_authority,
                withdraw_withheld_authority,
                transfer_fee_basis_points,
                maximum_fee,
                clock,
            ),
        ),
        TransferFeeInstruction::TransferCheckedWithFee { amount, decimals, fee } => Ok(
            Routed::TransferDelegated { amount, decimals, fee },
        ),
        TransferFeeInstruction::WithdrawWithheldTokensFromMint => Err(FeeError::NotImplemented),
        TransferFeeInstruction::WithdrawWithheldTokensFromAccounts => Err(
            FeeError::NotImplemented,
        ),
        TransferFeeInstruction::HarvestWithheldTokensToMint => completed(
            process_harvest_withheld_tokens_to_mint(accounts),
        ),
        TransferFeeInstruction::SetTransferFee { transfer_fee_basis_points, maximum_fee } => {
            completed(set_transfer_fee(accounts, transfer_fee_basis_points, maximum_fee, clock))
        },
    }
}

/// Routes `instruction`, reading the clock where the command needs it and
/// nothing else stands against the command. Whatever the clock held, the call
/// went as `route_instruction` goes for that reading; a command that does not
/// consult the clock goes as it does for any reading.
pub fn process_instruction(
    program: &Identity,
    accounts: &mut Vec<AccountRecord>,
    instruction: TransferFeeInstruction,
) -> (r: Result<Routed, FeeError>)
    ensures
        exists|clock: Option<u64>|
            (r, final(accounts)@) == #[trigger] route_outcome(
                *program,
                old(accounts)@,
                instruction,
                clock,
            ),
        !reads_clock(instruction) ==> (r, final(accounts)@) == route_outcome(
            *program,
            old(accounts)@,
            instruction,
            None,
        ),
{
    let wanted = match instruction {
        TransferFeeInstruction::InitializeTransferFeeConfig {
            transfer_fee_basis_points,
            ..
        } => check_initialize(accounts, transfer_fee_basis_points).is_none(),
        TransferFeeInstruction::SetTransferFee { transfer_fee_basis_points, .. } => check_set_fee(
            accounts,
            transfer_fee_basis_points,
        ).is_none(),
        _ => false,
    };
    let clock = if wanted && program.same_as(&program_id()) {
        current_epoch()
    } else {
        None
    };
    route_instruction(program, accounts, instruction, clock)
}

} // verus!
