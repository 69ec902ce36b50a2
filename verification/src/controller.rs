use crate::clock::current_epoch;
use crate::error::FeeError;
use crate::identity::Identity;
use crate::schedule::{
    following_epoch, lemma_pending_update_is_replaced, FeeRate, FeeSchedule, MAX_FEE_BASIS_POINTS,
};
use crate::state::{left_as, AccountData, AccountRecord, MintFeeConfig, MintRecord};
use vstd::prelude::*;

verus! {

/// The fee record of a mint configured at `epoch`: nothing withheld, and both
/// schedule slots holding the same rate.
pub open spec fn fresh_config(
    config_authority: Option<Identity>,
    withdraw_authority: Option<Identity>,
    basis_points: u16,
    maximum_fee: u64,
    epoch: u64,
) -> MintFeeConfig {
    MintFeeConfig {
        config_authority,
        withdraw_authority,
        withheld_amount: 0,
        schedule: FeeSchedule::spec_uniform(FeeRate { epoch, basis_points, maximum_fee }),
    }
}

/// Why a fee configuration cannot be given to the mint in `accounts[0]`, if
/// anything stands against it.
pub open spec fn initialize_refusal(accounts: Seq<AccountRecord>, basis_points: u16) -> Option<
    FeeError,
> {
    if accounts.len() == 0 {
        Some(FeeError::NotEnoughAccountKeys)
    } else {
        match accounts[0].data {
            AccountData::Mint(mint) => if mint.in_use {
                Some(FeeError::AlreadyInUse)
            } else if mint.fee_config is Some {
                Some(FeeError::ExtensionAlreadyInitialized)
            } else if basis_points > MAX_FEE_BASIS_POINTS {
                Some(FeeError::FeeExceedsMaximum)
            } else {
                None
            },
            _ => Some(FeeError::InvalidAccountData),
        }
    }
}

/// What configuring the mint in `accounts[0]` comes to when the clock reads
/// `clock`: the accounts with the fresh record in the mint, or the error.
pub open spec fn initialize_outcome(
    accounts: Seq<AccountRecord>,
    config_authority: Option<Identity>,
    withdraw_authority: Option<Identity>,
    basis_points: u16,
    maximum_fee: u64,
    clock: Option<u64>,
) -> Result<Seq<AccountRecord>, FeeError> {
    match initialize_refusal(accounts, basis_points) {
        Some(e) => Err(e),
        None => match clock {
            None => Err(FeeError::ClockUnavailable),
            Some(epoch) => Ok(
                accounts.update(
                    0,
                    accounts[0].with_mint(
                        MintRecord {
                            in_use: false,
                            fee_config: Some(
                                fresh_config(
                                    config_authority,
                                    withdraw_authority,
                                    basis_points,
                                    maximum_fee,
                                    epoch,
                                ),
                            ),
                        },
                    ),
                ),
            ),
        },
    }
}

/// Why the fee of the mint in `accounts[0]` cannot be changed by the
/// authority in `accounts[1]`, if anything stands against it.
pub open spec fn set_fee_refusal(accounts: Seq<AccountRecord>, basis_points: u16) -> Option<
    FeeError,
> {
    if accounts.len() < 2 {
        Some(FeeError::NotEnoughAccountKeys)
    } else {
        match accounts[0].data {
            AccountData::Mint(mint) => match mint.fee_config {
                None => Some(FeeError::ExtensionNotFound),
                Some(config) => match config.config_authority {
                    None => Some(FeeError::NoAuthorityExists),
                    Some(authority) => if accounts[1].key != authority {
                        Some(FeeError::OwnerMismatch)
                    } else if !accounts[1].signed_for {
                        Some(FeeError::MissingRequiredSignature)
                    } else if basis_points > MAX_FEE_BASIS_POINTS {
                        Some(FeeError::FeeExceedsMaximum)
                    } else {
                        None
                    },
                },
            },
            _ => Some(FeeError::InvalidAccountData),
        }
    }
}

/// What a fee change on the mint in `accounts[0]`, presented by the authority
/// in `accounts[1]`, comes to when the clock reads `clock`: the accounts with
/// the mint's schedule updated at that epoch, or the error.
pub open spec fn set_fee_outcome(
    accounts: Seq<AccountRecord>,
    basis_points: u16,
    maximum_fee: u64,
    clock: Option<u64>,
) -> Result<Seq<AccountRecord>, FeeError> {
    match set_fee_refusal(accounts, basis_points) {
        Some(e) => Err(e),
        None => match clock {
            None => Err(FeeError::ClockUnavailable),
            Some(epoch) => Ok(
                accounts.update(
                    0,
                    accounts[0].with_schedule(
                        accounts[0].schedule().spec_updated(epoch, basis_points, maximum_fee),
                    ),
                ),
            ),
        },
    }
}

/// Tells why the mint in `accounts[0]` cannot be given a fee configuration
/// with this rate, or `None` where nothing stands against it.
pub fn check_initialize(accounts: &Vec<AccountRecord>, basis_points: u16) -> (r: Option<FeeError>)
    ensures
        r == initialize_refusal(accounts@, basis_points),
{
    if accounts.len() == 0 {
        return Some(FeeError::NotEnoughAccountKeys);
    }
    match accounts[0].data {
        AccountData::Mint(mint) => {
            if mint.in_use {
                Some(FeeError::AlreadyInUse)
            } else if mint.fee_config.is_some() {
                Some(FeeError::ExtensionAlreadyInitialized)
            } else if basis_points > MAX_FEE_BASIS_POINTS {
                Some(FeeError::FeeExceedsMaximum)
            } else {
                None
            }
        },
        _ => Some(FeeError::InvalidAccountData),
    }
}

/// Tells why the authority in `accounts[1]` cannot change the fee of the
/// mint in `accounts[0]` to this rate, or `None` where nothing stands against
/// it.
pub fn check_set_fee(accounts: &Vec<AccountRecord>, basis_points: u16) -> (r: Option<FeeError>)
    ensures
        r == set_fee_refusal(accounts@, basis_points),
{
    if accounts.len() < 2 {
        return Some(FeeError::NotEnoughAccountKeys);
    }
    let mint = match accounts[0].data {
        AccountData::Mint(mint) => mint,
        _ => {
            return Some(FeeError::InvalidAccountData);
        },
    };
    let config = match mint.fee_config {
        Some(config) => config,
        None => {
            return Some(FeeError::ExtensionNotFound);
        },
    };
    let authority = match config.config_authority {
        Some(authority) => authority,
        None => {
            return Some(FeeError::NoAuthorityExists);
        },
    };
    if !accounts[1].key.same_as(&authority) {
        Some(FeeError::OwnerMismatch)
    } else if !accounts[1].signed_for {
        Some(FeeError::MissingRequiredSignature)
    } else if basis_points > MAX_FEE_BASIS_POINTS {
        Some(FeeError::FeeExceedsMaximum)
    } else {
        None
    }
}

/// Gives the mint in `accounts[0]` its fee record, with both schedule slots
/// set to the requested rate at the epoch that `clock` holds. Every refusal
/// leaves the accounts as they were.
pub fn initialize_transfer_fee_config(
    accounts: &mut Vec<AccountRecord>,
    config_authority: Option<Identity>,
    withdraw_authority: Option<Identity>,
    basis_points: u16,
    maximum_fee: u64,
    clock: Option<u64>,
) -> (r: Result<(), FeeError>)
    ensures
        left_as(
            initialize_outcome(
                old(accounts)@,
                config_authority,
                withdraw_authority,
                basis_points,
                maximum_fee,
                clock,
            ),
            old(accounts)@,
            r,
            final(accounts)@,
        ),
{
    if let Some(refusal) = check_initialize(accounts, basis_points) {
        return Err(refusal);
    }
    let epoch = match clock {
        Some(epoch) => epoch,
        None => {
            return Err(FeeError::ClockUnavailable);
        },
    };
    let mint_account = accounts[0];
    let config = MintFeeConfig {
        config_authority,
        withdraw_authority,
        withheld_amount: 0,
        schedule: FeeSchedule::uniform(FeeRate { epoch, basis_points, maximum_fee }),
    };
    let record = AccountRecord {
        key: mint_account.key,
        owner: mint_account.owner,
        signed_for: mint_account.signed_for,
        data: AccountData::Mint(MintRecord { in_use: false, fee_config: Some(config) }),
    };
    accounts.set(0, record);
    Ok(())
}

/// Changes the fee of the mint in `accounts[0]` on behalf of the authority in
/// `accounts[1]`: the new rate takes the schedule's newer slot, effective at
/// the epoch after the one that `clock` holds. Every refusal leaves the
/// accounts as they were.
pub fn set_transfer_fee(
    accounts: &mut Vec<AccountRecord>,
    basis_points: u16,
    maximum_fee: u64,
    clock: Option<u64>,
) -> (r: Result<(), FeeError>)
    ensures
        left_as(
            set_fee_outcome(old(accounts)@, basis_points, maximum_fee, clock),
            old(accounts)@,
            r,
            final(accounts)@,
        ),
{
    if let Some(refusal) = check_set_fee(accounts, basis_points) {
        return Err(refusal);
    }
    let epoch = match clock {
        Some(epoch) => epoch,
        None => {
            return Err(FeeError::ClockUnavailable);
        },
    };
    let mint_account = accounts[0];
    if let AccountData::Mint(mint) = mint_account.data {
        if let Some(config) = mint.fee_config {
            let changed = MintFeeConfig {
                config_authority: config.config_authority,
                withdraw_authority: config.withdraw_authority,
                withheld_amount: config.withheld_amount,
                schedule: config.schedule.updated(epoch, basis_points, maximum_fee),
            };
            let record = AccountRecord {
                key: mint_account.key,
                owner: mint_account.owner,
                signed_for: mint_account.signed_for,
                data: AccountData::Mint(
                    MintRecord { in_use: mint.in_use, fee_config: Some(changed) },
                ),
            };
            accounts.set(0, record);
        }
    }
    Ok(())
}

/// Gives the mint in `accounts[0]` its fee record at the epoch that the
/// clock holds. The clock is read only once nothing else stands against the
/// configuration. Whatever it held, the call went as
/// `initialize_transfer_fee_config` goes for that reading.
pub fn process_initialize_transfer_fee_config(
    accounts: &mut Vec<AccountRecord>,
    config_authority: Option<Identity>,
    withdraw_authority: Option<Identity>,
    basis_points: u16,
    maximum_fee: u64,
) -> (r: Result<(), FeeError>)
    ensures
        exists|clock: Option<u64>|
            left_as(
                #[trigger] initialize_outcome(
                    old(accounts)@,
                    config_authority,
                    withdraw_authority,
                    basis_points,
                    maximum_fee,
                    clock,
                ),
                old(accounts)@,
                r,
                final(accounts)@,
            ),
        initialize_refusal(old(accounts)@, basis_points) matches Some(e) ==> r == Err::<
            (),
            FeeError,
        >(e),
{
    if let Some(refusal) = check_initialize(accounts, basis_points) {
        proof {
            assert(left_as(
                initialize_outcome(
                    accounts@,
                    config_authority,
                    withdraw_authority,
                    basis_points,
                    maximum_fee,
                    None,
                ),
                accounts@,
                Err(refusal),
                accounts@,
            ));
        }
        return Err(refusal);
    }
    let clock = current_epoch();
    initialize_transfer_fee_config(
        accounts,
        config_authority,
        withdraw_authority,
        basis_points,
        maximum_fee,
        clock,
    )
}

/// Changes the fee of the mint in `accounts[0]` from the epoch after the one
/// that the clock holds. The clock is read only once nothing else stands
/// against the change. Whatever it held, the call went as `set_transfer_fee`
/// goes for that reading.
pub fn process_set_transfer_fee(
    accounts: &mut Vec<AccountRecord>,
    basis_points: u16,
    maximum_fee: u64,
) -> (r: Result<(), FeeError>)
    ensures
        exists|clock: Option<u64>|
            left_as(
                #[trigger] set_fee_outcome(old(accounts)@, basis_points, maximum_fee, clock),
                old(accounts)@,
                r,
                final(accounts)@,
            ),
        set_fee_refusal(old(accounts)@, basis_points) matches Some(e) ==> r == Err::<(), FeeError>(
            e,
        ),
{
    if let Some(refusal) = check_set_fee(accounts, basis_points) {
        proof {
            assert(left_as(
                set_fee_outcome(accounts@, basis_points, maximum_fee, None),
                accounts@,
                Err(refusal),
                accounts@,
            ));
        }
        return Err(refusal);
    }
    let clock = current_epoch();
    set_transfer_fee(accounts, basis_points, maximum_fee, clock)
}

/// Only rates up to the ceiling are ever written: a configuration or a fee
/// change that succeeds was asked for a rate of at most
/// `MAX_FEE_BASIS_POINTS`, and both leave that rate in the newer slot; a
/// higher rate is refused whatever else holds.
pub proof fn lemma_accepted_rate_is_bounded(
    accounts: Seq<AccountRecord>,
    config_authority: Option<Identity>,
    withdraw_authority: Option<Identity>,
    basis_points: u16,
    maximum_fee: u64,
    clock: Option<u64>,
)
    ensures
        initialize_outcome(
            accounts,
            config_authority,
            withdraw_authority,
            basis_points,
            maximum_fee,
            clock,
        ) matches Ok(after) ==> 0 <= basis_points <= MAX_FEE_BASIS_POINTS
            && after[0].schedule().newer.basis_points == basis_points
            && after[0].schedule().older.basis_points == basis_points,
        set_fee_outcome(accounts, basis_points, maximum_fee, clock) matches Ok(after) ==> 0
            <= basis_points <= MAX_FEE_BASIS_POINTS && after[0].schedule().newer.basis_points
            == basis_points,
        basis_points > MAX_FEE_BASIS_POINTS ==> initialize_outcome(
            accounts,
            config_authority,
            withdraw_authority,
            basis_points,
            maximum_fee,
            clock,
        ) is Err && set_fee_outcome(accounts, basis_points, maximum_fee, clock) is Err,
{
}

/// A configuration that succeeds at `epoch` leaves a schedule settled by
/// `epoch`, whose rate in force is the configured one at every epoch.
pub proof fn lemma_initialize_settles_schedule(
    accounts: Seq<AccountRecord>,
    config_authority: Option<Identity>,
    withdraw_authority: Option<Identity>,
    basis_points: u16,
    maximum_fee: u64,
    epoch: u64,
)
    ensures
        initialize_outcome(
            accounts,
            config_authority,
            withdraw_authority,
            basis_points,
            maximum_fee,
            Some(epoch),
        ) matches Ok(after) ==> after[0].fee_config() == Some(
            fresh_config(config_authority, withdraw_authority, basis_points, maximum_fee, epoch),
        ) && after[0].schedule().settled_by(epoch) && forall|at: u64|
            after[0].schedule().spec_active(at) == (FeeRate { epoch, basis_points, maximum_fee }),
{
}

/// A fee change keeps a well-formed schedule well formed when it comes no
/// earlier than the epoch by which the schedule was settled.
pub proof fn lemma_set_fee_keeps_schedule_settled(
    accounts: Seq<AccountRecord>,
    earlier: u64,
    basis_points: u16,
    maximum_fee: u64,
    epoch: u64,
)
    requires
        accounts.len() > 0,
        accounts[0].fee_config() is Some,
        accounts[0].schedule().settled_by(earlier),
        earlier <= epoch,
    ensures
        set_fee_outcome(accounts, basis_points, maximum_fee, Some(epoch)) matches Ok(after)
            ==> after[0].schedule().settled_by(epoch) && after[0].schedule()
            == accounts[0].schedule().spec_updated(epoch, basis_points, maximum_fee),
{
}

/// Two fee changes of which the second comes before the first one's rate
/// has started, at an epoch not before the first: where the first succeeds,
/// the second, on the accounts that the first left, comes to what it would
/// have come to alone. The pending rate is dropped whole.
pub proof fn lemma_second_set_fee_replaces_first(
    accounts: Seq<AccountRecord>,
    first_basis_points: u16,
    first_maximum_fee: u64,
    first_epoch: u64,
    second_basis_points: u16,
    second_maximum_fee: u64,
    second_epoch: u64,
)
    requires
        set_fee_outcome(accounts, first_basis_points, first_maximum_fee, Some(first_epoch)) is Ok,
        first_epoch <= second_epoch,
        second_epoch < following_epoch(first_epoch),
    ensures
        set_fee_outcome(
            set_fee_outcome(
                accounts,
                first_basis_points,
                first_maximum_fee,
                Some(first_epoch),
            )->Ok_0,
            second_basis_points,
            second_maximum_fee,
            Some(second_epoch),
        ) == set_fee_outcome(
            accounts,
            second_basis_points,
            second_maximum_fee,
            Some(second_epoch),
        ),
{
    let between = set_fee_outcome(
        accounts,
        first_basis_points,
        first_maximum_fee,
        Some(first_epoch),
    )->Ok_0;
    let schedule = accounts[0].schedule();
    lemma_pending_update_is_replaced(
        schedule,
        first_epoch,
        first_basis_points,
        first_maximum_fee,
        second_epoch,
        second_basis_points,
        second_maximum_fee,
    );
    assert(between[1] == accounts[1]);
    if second_basis_points <= MAX_FEE_BASIS_POINTS {
        let twice = set_fee_outcome(
            between,
            second_basis_points,
            second_maximum_fee,
            Some(second_epoch),
        )->Ok_0;
        let once = set_fee_outcome(
            accounts,
            second_basis_points,
            second_maximum_fee,
            Some(second_epoch),
        )->Ok_0;
        assert(twice =~= once);
    }
}

/// A mint configured without a config authority is frozen: on any accounts
/// that hold that mint first and an authority second, every fee change fails
/// with `NoAuthorityExists`, whoever presents it and whatever it asks for.
/// The failure leaves the mint as it was, so this holds of every later call.
pub proof fn lemma_frozen_schedule_stays_frozen(
    accounts: Seq<AccountRecord>,
    withdraw_authority: Option<Identity>,
    basis_points: u16,
    maximum_fee: u64,
    clock: Option<u64>,
    later: Seq<AccountRecord>,
    later_basis_points: u16,
    later_maximum_fee: u64,
    later_clock: Option<u64>,
)
    requires
        initialize_outcome(
            accounts,
            None,
            withdraw_authority,
            basis_points,
            maximum_fee,
            clock,
        ) matches Ok(after) && later[0] == after[0],
        later.len() >= 2,
    ensures
        set_fee_outcome(later, later_basis_points, later_maximum_fee, later_clock) == Err::<
            Seq<AccountRecord>,
            FeeError,
        >(FeeError::NoAuthorityExists),
{
}

/// A mint takes a fee configuration once: on accounts whose mint already
/// carries one, configuring fails, whatever is asked for, and by the
/// contract of a failure nothing changes. In particular a second
/// configuration after a first that succeeded fails with
/// `ExtensionAlreadyInitialized`.
pub proof fn lemma_initialize_only_once(
    accounts: Seq<AccountRecord>,
    config_authority: Option<Identity>,
    withdraw_authority: Option<Identity>,
    basis_points: u16,
    maximum_fee: u64,
    clock: Option<u64>,
)
    requires
        accounts.len() > 0,
        accounts[0].fee_config() is Some,
    ensures
        initialize_outcome(
            accounts,
            config_authority,
            withdraw_authority,
            basis_points,
            maximum_fee,
            clock,
        ) is Err,
        !(accounts[0].data matches AccountData::Mint(mint) && mint.in_use) ==> initialize_outcome(
            accounts,
            config_authority,
            withdraw_authority,
            basis_points,
            maximum_fee,
            clock,
        ) == Err::<Seq<AccountRecord>, FeeError>(FeeError::ExtensionAlreadyInitialized),
{
}

/// Configuring twice in a row: where the first call succeeds, the second,
/// on the accounts that the first left, fails with
/// `ExtensionAlreadyInitialized`.
pub proof fn lemma_second_initialize_fails(
    accounts: Seq<AccountRecord>,
    config_authority: Option<Identity>,
    withdraw_authority: Option<Identity>,
    basis_points: u16,
    maximum_fee: u64,
    clock: Option<u64>,
    second_config_authority: Option<Identity>,
    second_withdraw_authority: Option<Identity>,
    second_basis_points: u16,
    second_maximum_fee: u64,
    second_clock: Option<u64>,
)
    requires
        initialize_outcome(
            accounts,
            config_authority,
            withdraw_authority,
            basis_points,
            maximum_fee,
            clock,
        ) is Ok,
    ensures
        initialize_outcome(
            initialize_outcome(
                accounts,
                config_authority,
                withdraw_authority,
                basis_points,
                maximum_fee,
                clock,
            )->Ok_0,
            second_config_authority,
            second_withdraw_authority,
            second_basis_points,
            second_maximum_fee,
            second_clock,
        ) == Err::<Seq<AccountRecord>, FeeError>(FeeError::ExtensionAlreadyInitialized),
{
}

} // verus!
