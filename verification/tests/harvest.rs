use transfer_fee::error::FeeError;
use transfer_fee::harvest::{
    check_harvestable, drained_record, harvest_from_account, harvested_already,
    process_harvest_withheld_tokens_to_mint, HarvestStep,
};
use transfer_fee::identity::Identity;
use transfer_fee::schedule::{FeeRate, FeeSchedule};
use transfer_fee::state::{
    program_id, AccountData, AccountFeeAmount, AccountRecord, HolderRecord, MintFeeConfig,
    MintRecord, PROGRAM_ID_BYTES,
};

fn id(n: u8) -> Identity {
    Identity::new([n; 32])
}

fn config(withheld_amount: u64) -> MintFeeConfig {
    MintFeeConfig {
        config_authority: Some(id(7)),
        withdraw_authority: Some(id(8)),
        withheld_amount,
        schedule: FeeSchedule::uniform(FeeRate { epoch: 1, basis_points: 10, maximum_fee: 100 }),
    }
}

fn mint(key: u8, withheld_amount: u64) -> AccountRecord {
    AccountRecord {
        key: id(key),
        owner: program_id(),
        signed_for: false,
        data: AccountData::Mint(MintRecord {
            in_use: true,
            fee_config: Some(config(withheld_amount)),
        }),
    }
}

fn holder(key: u8, of_mint: u8, withheld_amount: u64) -> AccountRecord {
    AccountRecord {
        key: id(key),
        owner: program_id(),
        signed_for: false,
        data: AccountData::Holder(HolderRecord {
            mint: id(of_mint),
            fee_amount: Some(AccountFeeAmount { withheld_amount }),
        }),
    }
}

fn mint_withheld(account: &AccountRecord) -> u64 {
    match account.data {
        AccountData::Mint(m) => m.fee_config.unwrap().withheld_amount,
        _ => panic!("not a mint"),
    }
}

#[test]
fn program_id_is_the_token_program() {
    assert_eq!(program_id(), Identity::new(PROGRAM_ID_BYTES));
    assert_eq!(PROGRAM_ID_BYTES[0], 6);
    assert_eq!(PROGRAM_ID_BYTES[31], 252);
}

#[test]
fn identities_compare_by_all_bytes() {
    let mut bytes = [3u8; 32];
    assert!(id(3).same_as(&Identity::new(bytes)));
    bytes[31] = 4;
    assert!(!id(3).same_as(&Identity::new(bytes)));
    bytes[31] = 3;
    bytes[0] = 4;
    assert!(!id(3).same_as(&Identity::new(bytes)));
}

#[test]
fn harvest_moves_every_amount_to_the_mint() {
    let mut accounts = vec![mint(1, 5), holder(2, 1, 10), holder(3, 1, 0), holder(4, 1, 32)];
    assert_eq!(process_harvest_withheld_tokens_to_mint(&mut accounts), Ok(()));
    assert_eq!(mint_withheld(&accounts[0]), 47);
    assert_eq!(accounts[0], mint(1, 47));
    assert_eq!(accounts[1], holder(2, 1, 0));
    assert_eq!(accounts[2], holder(3, 1, 0));
    assert_eq!(accounts[3], holder(4, 1, 0));
}

#[test]
fn harvest_of_no_accounts_succeeds() {
    let mut accounts = vec![mint(1, 5)];
    assert_eq!(process_harvest_withheld_tokens_to_mint(&mut accounts), Ok(()));
    assert_eq!(accounts, vec![mint(1, 5)]);
}

#[test]
fn harvest_skips_a_mismatched_account_and_takes_the_rest() {
    let mut accounts = vec![mint(1, 0), holder(2, 1, 10), holder(3, 9, 20), holder(4, 1, 30)];
    assert_eq!(process_harvest_withheld_tokens_to_mint(&mut accounts), Ok(()));
    assert_eq!(mint_withheld(&accounts[0]), 40);
    assert_eq!(accounts[1], holder(2, 1, 0));
    assert_eq!(accounts[2], holder(3, 9, 20));
    assert_eq!(accounts[3], holder(4, 1, 0));
}

#[test]
fn harvest_skips_what_is_not_a_harvestable_holder() {
    let foreign = AccountRecord { owner: id(5), ..holder(2, 1, 10) };
    let bare = AccountRecord {
        data: AccountData::Holder(HolderRecord { mint: id(1), fee_amount: None }),
        ..holder(3, 1, 0)
    };
    let other = AccountRecord { data: AccountData::Other, ..holder(4, 1, 0) };
    let second_mint = mint(5, 77);
    let mut accounts = vec![mint(1, 1), foreign, bare, other, second_mint, holder(6, 1, 8)];
    let before = accounts.clone();
    assert_eq!(process_harvest_withheld_tokens_to_mint(&mut accounts), Ok(()));
    assert_eq!(mint_withheld(&accounts[0]), 9);
    assert_eq!(accounts[1..5], before[1..5]);
    assert_eq!(accounts[5], holder(6, 1, 0));
}

#[test]
fn harvest_stops_at_an_overflow_and_keeps_what_it_had() {
    let mut accounts = vec![
        mint(1, u64::MAX - 15),
        holder(2, 1, 10),
        holder(3, 9, 1_000),
        holder(4, 1, 6),
        holder(5, 1, 1),
    ];
    assert_eq!(process_harvest_withheld_tokens_to_mint(&mut accounts), Err(FeeError::Overflow));
    assert_eq!(mint_withheld(&accounts[0]), u64::MAX - 5);
    assert_eq!(accounts[1], holder(2, 1, 0));
    assert_eq!(accounts[2], holder(3, 9, 1_000));
    assert_eq!(accounts[3], holder(4, 1, 6));
    assert_eq!(accounts[4], holder(5, 1, 1));
}

#[test]
fn harvest_fills_the_mint_to_the_brim() {
    let mut accounts = vec![mint(1, u64::MAX - 15), holder(2, 1, 10), holder(3, 1, 5)];
    assert_eq!(process_harvest_withheld_tokens_to_mint(&mut accounts), Ok(()));
    assert_eq!(mint_withheld(&accounts[0]), u64::MAX);
    let mut more = vec![accounts[0], holder(4, 1, 0), holder(5, 1, 1)];
    assert_eq!(process_harvest_withheld_tokens_to_mint(&mut more), Err(FeeError::Overflow));
    assert_eq!(mint_withheld(&more[0]), u64::MAX);
    assert_eq!(more[1], holder(4, 1, 0));
    assert_eq!(more[2], holder(5, 1, 1));
}

#[test]
fn harvest_needs_a_configured_mint_first() {
    let mut none: Vec<AccountRecord> = Vec::new();
    assert_eq!(
        process_harvest_withheld_tokens_to_mint(&mut none),
        Err(FeeError::NotEnoughAccountKeys)
    );
    let mut holders = vec![holder(2, 1, 10), holder(3, 1, 10)];
    assert_eq!(
        process_harvest_withheld_tokens_to_mint(&mut holders),
        Err(FeeError::InvalidAccountData)
    );
    assert_eq!(holders, vec![holder(2, 1, 10), holder(3, 1, 10)]);
    let bare = AccountRecord {
        data: AccountData::Mint(MintRecord { in_use: true, fee_config: None }),
        ..mint(1, 0)
    };
    let mut accounts = vec![bare, holder(2, 1, 10)];
    assert_eq!(
        process_harvest_withheld_tokens_to_mint(&mut accounts),
        Err(FeeError::ExtensionNotFound)
    );
    assert_eq!(accounts[1], holder(2, 1, 10));
}

#[test]
fn one_step_harvests_skips_or_is_fatal() {
    let mut c = config(100);
    let mut a = holder(2, 1, 11);
    assert_eq!(harvest_from_account(&id(1), &mut c, &mut a), HarvestStep::Harvested);
    assert_eq!(c, config(111));
    assert_eq!(a, holder(2, 1, 0));

    let mut b = holder(3, 4, 11);
    assert_eq!(
        harvest_from_account(&id(1), &mut c, &mut b),
        HarvestStep::Skipped(FeeError::MintMismatch)
    );
    assert_eq!(c, config(111));
    assert_eq!(b, holder(3, 4, 11));

    let mut foreign = AccountRecord { owner: id(5), ..holder(2, 1, 10) };
    assert_eq!(
        harvest_from_account(&id(1), &mut c, &mut foreign),
        HarvestStep::Skipped(FeeError::InvalidState)
    );
    assert_eq!(foreign.owner, id(5));

    let mut full = config(u64::MAX);
    let mut d = holder(2, 1, 1);
    assert_eq!(
        harvest_from_account(&id(1), &mut full, &mut d),
        HarvestStep::Fatal(FeeError::Overflow)
    );
    assert_eq!(full, config(u64::MAX));
    assert_eq!(d, holder(2, 1, 1));
}

#[test]
fn mismatch_is_reported_before_ownership() {
    let both = AccountRecord { owner: id(5), ..holder(2, 4, 10) };
    assert_eq!(check_harvestable(&id(1), &both), Some(FeeError::MintMismatch));
    assert_eq!(check_harvestable(&id(4), &both), Some(FeeError::InvalidState));
    assert_eq!(check_harvestable(&id(1), &holder(2, 1, 10)), None);
    assert_eq!(check_harvestable(&id(1), &mint(1, 0)), Some(FeeError::InvalidState));
}

#[test]
fn a_holder_listed_twice_gives_once() {
    let mut accounts = vec![mint(1, 10), holder(2, 1, 5), holder(2, 1, 5)];
    assert_eq!(process_harvest_withheld_tokens_to_mint(&mut accounts), Ok(()));
    assert_eq!(mint_withheld(&accounts[0]), 15);
    assert_eq!(accounts[1], holder(2, 1, 0));
    assert_eq!(accounts[2], holder(2, 1, 0));
}

#[test]
fn a_holder_listed_again_among_others_gives_once() {
    let mut accounts = vec![
        mint(1, 0),
        holder(2, 1, 5),
        holder(3, 1, 7),
        holder(2, 1, 5),
        holder(4, 9, 3),
        holder(3, 1, 7),
        holder(4, 9, 3),
    ];
    assert_eq!(process_harvest_withheld_tokens_to_mint(&mut accounts), Ok(()));
    assert_eq!(mint_withheld(&accounts[0]), 12);
    assert_eq!(accounts[1], holder(2, 1, 0));
    assert_eq!(accounts[2], holder(3, 1, 0));
    assert_eq!(accounts[3], holder(2, 1, 0));
    assert_eq!(accounts[4], holder(4, 9, 3));
    assert_eq!(accounts[5], holder(3, 1, 0));
    assert_eq!(accounts[6], holder(4, 9, 3));
}

#[test]
fn a_holder_listed_twice_cannot_overflow_a_full_mint() {
    let mut accounts = vec![mint(1, u64::MAX - 5), holder(2, 1, 5), holder(2, 1, 5)];
    assert_eq!(process_harvest_withheld_tokens_to_mint(&mut accounts), Ok(()));
    assert_eq!(mint_withheld(&accounts[0]), u64::MAX);
    assert_eq!(accounts[1], holder(2, 1, 0));
    assert_eq!(accounts[2], holder(2, 1, 0));
}

#[test]
fn listing_is_found_by_key_and_position() {
    let accounts = vec![mint(1, 0), holder(2, 1, 5), holder(3, 9, 1), holder(2, 1, 5), holder(3, 9, 1)];
    assert!(!harvested_already(&accounts, 0, 0));
    assert!(!harvested_already(&accounts, 1, 1));
    assert!(!harvested_already(&accounts, 2, 2));
    assert!(harvested_already(&accounts, 3, 3));
    assert!(!harvested_already(&accounts, 4, 4));
    assert!(!harvested_already(&accounts, 5, 5));
    assert!(harvested_already(&accounts, 3, 2));
    assert!(!harvested_already(&accounts, 3, 1));
    assert!(!harvested_already(&accounts, 3, 6));
    assert_eq!(drained_record(&holder(2, 1, 5)), holder(2, 1, 0));
    assert_eq!(drained_record(&mint(1, 4)), mint(1, 4));
}

#[test]
fn an_overflow_shows_a_harvested_holder_drained_wherever_it_is_listed() {
    let mut accounts = vec![
        mint(1, u64::MAX - 5),
        holder(2, 1, 5),
        holder(3, 1, 10),
        holder(2, 1, 5),
        holder(3, 1, 10),
        holder(4, 1, 1),
    ];
    assert_eq!(process_harvest_withheld_tokens_to_mint(&mut accounts), Err(FeeError::Overflow));
    assert_eq!(mint_withheld(&accounts[0]), u64::MAX);
    assert_eq!(accounts[1], holder(2, 1, 0));
    assert_eq!(accounts[2], holder(3, 1, 10));
    assert_eq!(accounts[3], holder(2, 1, 0));
    assert_eq!(accounts[4], holder(3, 1, 10));
    assert_eq!(accounts[5], holder(4, 1, 1));
}
