use transfer_fee::clock::current_epoch;
use transfer_fee::error::FeeError;
use transfer_fee::identity::Identity;
use transfer_fee::router::{process_instruction, route_instruction, Routed, TransferFeeInstruction};
use transfer_fee::state::{
    program_id, AccountData, AccountFeeAmount, AccountRecord, HolderRecord, MintRecord,
};

fn id(n: u8) -> Identity {
    Identity::new([n; 32])
}

fn blank_mint(key: u8) -> AccountRecord {
    AccountRecord {
        key: id(key),
        owner: program_id(),
        signed_for: false,
        data: AccountData::Mint(MintRecord { in_use: false, fee_config: None }),
    }
}

fn holder(key: u8, of_mint: u8, withheld_amount: u64) -> AccountRecord {
    AccountRecord {
        key: id(key),
        owner: program_id(),
        signed_for: false,
        data: AccountData::Holder(HolderRecord {
            mint: id(of_mint),
            fee_amount: Some(AccountFeeAmount { withheld_amount }),
        }),
    }
}

fn init(bp: u16) -> TransferFeeInstruction {
    TransferFeeInstruction::InitializeTransferFeeConfig {
        transfer_fee_config_authority: Some(id(7)),
        withdraw_withheld_authority: None,
        transfer_fee_basis_points: bp,
        maximum_fee: 50,
    }
}

#[test]
fn the_clock_is_absent_outside_the_runtime() {
    assert_eq!(current_epoch(), None);
}

#[test]
fn router_refuses_another_program() {
    let mut accounts = vec![blank_mint(1)];
    let r = route_instruction(&id(1), &mut accounts, init(5), Some(3));
    assert_eq!(r, Err(FeeError::IncorrectProgramId));
    assert_eq!(accounts, vec![blank_mint(1)]);
    let r = process_instruction(
        &id(1),
        &mut accounts,
        TransferFeeInstruction::WithdrawWithheldTokensFromMint,
    );
    assert_eq!(r, Err(FeeError::IncorrectProgramId));
}

#[test]
fn router_fails_withdrawals_as_not_implemented() {
    let mut accounts = vec![blank_mint(1)];
    for i in [
        TransferFeeInstruction::WithdrawWithheldTokensFromMint,
        TransferFeeInstruction::WithdrawWithheldTokensFromAccounts,
    ] {
        assert_eq!(
            route_instruction(&program_id(), &mut accounts, i, Some(1)),
            Err(FeeError::NotImplemented)
        );
        assert_eq!(
            process_instruction(&program_id(), &mut accounts, i),
            Err(FeeError::NotImplemented)
        );
        assert_eq!(accounts, vec![blank_mint(1)]);
    }
}

#[test]
fn router_hands_a_transfer_back() {
    let mut accounts = vec![blank_mint(1)];
    let i = TransferFeeInstruction::TransferCheckedWithFee { amount: 1_000, decimals: 6, fee: 10 };
    let want = Ok(Routed::TransferDelegated { amount: 1_000, decimals: 6, fee: 10 });
    assert_eq!(route_instruction(&program_id(), &mut accounts, i, None), want);
    assert_eq!(process_instruction(&program_id(), &mut accounts, i), want);
    assert_eq!(accounts, vec![blank_mint(1)]);
}

#[test]
fn router_runs_a_whole_life_cycle() {
    let program = program_id();
    let mut accounts = vec![blank_mint(1)];
    assert_eq!(route_instruction(&program, &mut accounts, init(5), Some(3)), Ok(Routed::Completed));
    assert_eq!(
        route_instruction(&program, &mut accounts, init(5), Some(3)),
        Err(FeeError::ExtensionAlreadyInitialized)
    );

    let authority =
        AccountRecord { key: id(7), owner: id(0), signed_for: true, data: AccountData::Other };
    let mut call = vec![accounts[0], authority];
    let set =
        TransferFeeInstruction::SetTransferFee { transfer_fee_basis_points: 9, maximum_fee: 90 };
    assert_eq!(route_instruction(&program, &mut call, set, Some(4)), Ok(Routed::Completed));
    let too_much = TransferFeeInstruction::SetTransferFee {
        transfer_fee_basis_points: 10_001,
        maximum_fee: 90,
    };
    assert_eq!(
        route_instruction(&program, &mut call, too_much, Some(4)),
        Err(FeeError::FeeExceedsMaximum)
    );

    let mut batch = vec![call[0], holder(2, 1, 4), holder(3, 2, 5), holder(4, 1, 6)];
    let harvest = TransferFeeInstruction::HarvestWithheldTokensToMint;
    assert_eq!(process_instruction(&program, &mut batch, harvest), Ok(Routed::Completed));
    match batch[0].data {
        AccountData::Mint(m) => {
            let c = m.fee_config.unwrap();
            assert_eq!(c.withheld_amount, 10);
            assert_eq!(c.schedule.older.basis_points, 5);
            assert_eq!(c.schedule.newer.basis_points, 9);
            assert_eq!(c.schedule.newer.epoch, 5);
        }
        _ => panic!("not a mint"),
    }
    assert_eq!(batch[2], holder(3, 2, 5));
    assert_eq!(batch[3], holder(4, 1, 0));
}

#[test]
fn router_passes_a_harvest_overflow_on() {
    let mut accounts = vec![blank_mint(1)];
    route_instruction(&program_id(), &mut accounts, init(5), Some(3)).unwrap();
    let mut batch = vec![accounts[0], holder(2, 1, u64::MAX), holder(3, 1, 1)];
    let harvest = TransferFeeInstruction::HarvestWithheldTokensToMint;
    assert_eq!(
        route_instruction(&program_id(), &mut batch, harvest, None),
        Err(FeeError::Overflow)
    );
    assert_eq!(batch[1], holder(2, 1, 0));
    assert_eq!(batch[2], holder(3, 1, 1));
}

#[test]
fn router_needs_the_clock_for_a_configuration() {
    let mut accounts = vec![blank_mint(1)];
    assert_eq!(
        process_instruction(&program_id(), &mut accounts, init(5)),
        Err(FeeError::ClockUnavailable)
    );
    assert_eq!(
        process_instruction(&program_id(), &mut accounts, init(10_001)),
        Err(FeeError::FeeExceedsMaximum)
    );
    assert_eq!(accounts, vec![blank_mint(1)]);
}
