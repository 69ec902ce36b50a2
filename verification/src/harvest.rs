use crate::error::FeeError;
use crate::identity::Identity;
use crate::state::{
    program_id, spec_program_id, AccountData, AccountFeeAmount, AccountRecord, HolderRecord,
    MintFeeConfig, MintRecord,
};
use vstd::prelude::*;

verus! {

/// How the harvest of one account ended.
#[derive(Clone, Copy, Debug, PartialEq, Eq, Structural)]
pub enum HarvestStep {
    /// The account's withheld amount moved to the mint.
    Harvested,
    /// The account was left out, untouched; the batch goes on.
    Skipped(FeeError),
    /// Nothing was changed, and the batch must end with this error.
    Fatal(FeeError),
}

/// Why nothing can be harvested from `account` for the mint at `mint_key`, if
/// anything stands against it.
pub open spec fn harvest_refusal(mint_key: Identity, account: AccountRecord) -> Option<FeeError> {
    match account.data {
        AccountData::Holder(holder) => if holder.mint != mint_key {
            Some(FeeError::MintMismatch)
        } else if account.owner != spec_program_id() {
            Some(FeeError::InvalidState)
        } else if holder.fee_amount is None {
            Some(FeeError::InvalidState)
        } else {
            None
        },
        _ => Some(FeeError::InvalidState),
    }
}

/// The account is a holder of the mint at `mint_key`, owned by the token
/// program, with a fee record.
pub open spec fn harvestable(mint_key: Identity, account: AccountRecord) -> bool {
    harvest_refusal(mint_key, account) is None
}

/// The amount withheld on a holder account; zero where it has no fee record.
pub open spec fn withheld_of(account: AccountRecord) -> nat {
    match account.data {
        AccountData::Holder(holder) => match holder.fee_amount {
            Some(amount) => amount.withheld_amount as nat,
            None => 0,
        },
        _ => 0,
    }
}

/// The holder account with nothing withheld; any other account as it is.
pub open spec fn drained(account: AccountRecord) -> AccountRecord {
    match account.data {
        AccountData::Holder(holder) => match holder.fee_amount {
            Some(_) => account.with_holder(
                HolderRecord {
                    fee_amount: Some(AccountFeeAmount { withheld_amount: 0 }),
                    ..holder
                },
            ),
            None => account,
        },
        _ => account,
    }
}

/// What a harvest that reaches `account` leaves of it: drained where it can
/// be harvested, untouched where it is skipped.
pub open spec fn swept(mint_key: Identity, account: AccountRecord) -> AccountRecord {
    if harvestable(mint_key, account) {
        drained(account)
    } else {
        account
    }
}

/// Records with one key stand for one account. The account at position `i`
/// is harvested within the first `limit` positions of the batch where one of
/// the positions 1 to `limit - 1` holds a harvestable record with its key.
pub open spec fn harvested_within(accounts: Seq<AccountRecord>, i: int, limit: int) -> bool {
    exists|j: int|
        1 <= j < limit && (#[trigger] accounts[j]).key == accounts[i].key && harvestable(
            accounts[0].key,
            accounts[j],
        )
}

/// The account at position `i` has been harvested at an earlier position of
/// the batch.
pub open spec fn harvested_earlier(accounts: Seq<AccountRecord>, i: int) -> bool {
    harvested_within(accounts, i, i)
}

/// What the harvest takes at position `i`: the amount withheld on a
/// harvestable account when the batch reaches it for the first time, and
/// nothing from an account that is skipped or was harvested earlier.
pub open spec fn due_at(accounts: Seq<AccountRecord>, i: int) -> nat {
    if harvestable(accounts[0].key, accounts[i]) && !harvested_earlier(accounts, i) {
        withheld_of(accounts[i])
    } else {
        0
    }
}

/// The sum of what the harvest takes at the positions 1 to `n - 1`, for the
/// mint in `accounts[0]`: each harvestable account counts once, however often
/// it is listed.
pub open spec fn harvested_through(accounts: Seq<AccountRecord>, n: int) -> nat
    decreases n,
{
    if n <= 1 {
        0
    } else {
        harvested_through(accounts, n - 1) + due_at(accounts, n - 1)
    }
}

/// How far a harvest over `accounts[1]`, .., `accounts[n - 1]` gets when the
/// mint starts with `withheld`: the first position whose amount would carry
/// the mint's total past `u64::MAX`, or `n` where there is none.
pub open spec fn harvest_stop(accounts: Seq<AccountRecord>, withheld: nat, n: int) -> int
    decreases n,
{
    if n <= 1 {
        1
    } else if harvest_stop(accounts, withheld, n - 1) < n - 1 {
        harvest_stop(accounts, withheld, n - 1)
    } else if withheld + harvested_through(accounts, n) > u64::MAX {
        n - 1
    } else {
        n
    }
}

/// The accounts after a harvest that processed positions 1 to `stop - 1`:
/// the mint holds what it had and what those accounts gave, and each of them
/// is swept. A record from `stop` on is untouched, unless it lists an account
/// that was harvested before `stop`: records with one key show one account,
/// so that record is drained too.
pub open spec fn harvested_to(accounts: Seq<AccountRecord>, withheld: nat, stop: int) -> Seq<
    AccountRecord,
> {
    Seq::new(
        accounts.len(),
        |i: int|
            if i == 0 {
                accounts[0].with_mint_withheld(
                    (withheld + harvested_through(accounts, stop)) as u64,
                )
            } else if i < stop || harvested_within(accounts, i, stop) {
                swept(accounts[0].key, accounts[i])
            } else {
                accounts[i]
            },
    )
}

/// Why no harvest can start on `accounts`, if anything stands against it.
pub open spec fn harvest_batch_refusal(accounts: Seq<AccountRecord>) -> Option<FeeError> {
    if accounts.len() == 0 {
        Some(FeeError::NotEnoughAccountKeys)
    } else {
        match accounts[0].data {
            AccountData::Mint(mint) => if mint.fee_config is None {
                Some(FeeError::ExtensionNotFound)
            } else {
                None
            },
            _ => Some(FeeError::InvalidAccountData),
        }
    }
}

/// The result of harvesting `accounts[1..]` into the mint in `accounts[0]`,
/// and the accounts it leaves. A batch that cannot start changes nothing. One
/// that starts runs to the first overflow: it succeeds where there is none,
/// and otherwise fails with `Overflow`, keeping what it had harvested before.
pub open spec fn harvest_outcome(accounts: Seq<AccountRecord>) -> (
    Result<(), FeeError>,
    Seq<AccountRecord>,
) {
    match harvest_batch_refusal(accounts) {
        Some(e) => (Err(e), accounts),
        None => {
            let withheld = accounts[0].fee_config()->0.withheld_amount as nat;
            let stop = harvest_stop(accounts, withheld, accounts.len() as int);
            (
                if stop == accounts.len() {
                    Ok(())
                } else {
                    Err(FeeError::Overflow)
                },
                harvested_to(accounts, withheld, stop),
            )
        },
    }
}

/// What one step of the harvest comes to: the account is skipped where it
/// cannot be harvested, the step is fatal where its amount does not fit on a
/// mint that holds `mint_withheld`, and the amount is harvested otherwise.
pub open spec fn harvest_step(
    mint_key: Identity,
    mint_withheld: u64,
    account: AccountRecord,
) -> HarvestStep {
    match harvest_refusal(mint_key, account) {
        Some(e) => HarvestStep::Skipped(e),
        None => if mint_withheld + withheld_of(account) > u64::MAX {
            HarvestStep::Fatal(FeeError::Overflow)
        } else {
            HarvestStep::Harvested
        },
    }
}

/// Tells why `account` would be skipped by a harvest for the mint at
/// `mint_key`, or `None` where it can be harvested.
pub fn check_harvestable(mint_key: &Identity, account: &AccountRecord) -> (r: Option<FeeError>)
    ensures
        r == harvest_refusal(*mint_key, *account),
{
    match account.data {
        AccountData::Holder(holder) => {
            if !holder.mint.same_as(mint_key) {
                Some(FeeError::MintMismatch)
            } else if !account.owner.same_as(&program_id()) {
                Some(FeeError::InvalidState)
            } else if holder.fee_amount.is_none() {
                Some(FeeError::InvalidState)
            } else {
                None
            }
        },
        _ => Some(FeeError::InvalidState),
    }
}

/// Moves what is withheld on `account` into `mint_config`, and zeroes it on
/// the account. Where the step is not `Harvested`, both records are left as
/// they were.
pub fn harvest_from_account(
    mint_key: &Identity,
    mint_config: &mut MintFeeConfig,
    account: &mut AccountRecord,
) -> (r: HarvestStep)
    ensures
        r == harvest_step(*mint_key, old(mint_config).withheld_amount, *old(account)),
        r is Harvested ==> *final(mint_config) == (MintFeeConfig {
            withheld_amount: (old(mint_config).withheld_amount + withheld_of(*old(account))) as u64,
            ..*old(mint_config)
        }) && *final(account) == drained(*old(account)),
        !(r is Harvested) ==> *final(mint_config) == *old(mint_config) && *final(account) == *old(
            account,
        ),
{
    if let Some(reason) = check_harvestable(mint_key, account) {
        return HarvestStep::Skipped(reason);
    }
    let holder = match account.data {
        AccountData::Holder(holder) => holder,
        _ => {
            return HarvestStep::Skipped(FeeError::InvalidState);
        },
    };
    let amount = match holder.fee_amount {
        Some(amount) => amount,
        None => {
            return HarvestStep::Skipped(FeeError::InvalidState);
        },
    };
    let total = match mint_config.withheld_amount.checked_add(amount.withheld_amount) {
        Some(total) => total,
        None => {
            return HarvestStep::Fatal(FeeError::Overflow);
        },
    };
    mint_config.withheld_amount = total;
    account.data = AccountData::Holder(
        HolderRecord {
            mint: holder.mint,
            fee_amount: Some(AccountFeeAmount { withheld_amount: 0 }),
        },
    );
    HarvestStep::Harvested
}

/// The record with nothing withheld.
pub fn drained_record(account: &AccountRecord) -> (r: AccountRecord)
    ensures
        r == drained(*account),
{
    match account.data {
        AccountData::Holder(holder) => match holder.fee_amount {
            Some(_) => AccountRecord {
                key: account.key,
                owner: account.owner,
                signed_for: account.signed_for,
                data: AccountData::Holder(
                    HolderRecord {
                        mint: holder.mint,
                        fee_amount: Some(AccountFeeAmount { withheld_amount: 0 }),
                    },
                ),
            },
            None => *account,
        },
        _ => *account,
    }
}

/// Whether the account at position `i` of the batch is harvested within
/// its first `limit` positions; `false` where the batch has no position `i`
/// or fewer than `limit` positions.
pub fn harvested_already(accounts: &Vec<AccountRecord>, i: usize, limit: usize) -> (r: bool)
    ensures
        r == (i < accounts.len() && limit <= accounts.len() && harvested_within(
            accounts@,
            i as int,
            limit as int,
        )),
{
    if i >= accounts.len() || limit > accounts.len() {
        return false;
    }
    let mut j: usize = 1;
    while j < limit
        invariant
            1 <= j,
            j <= limit || limit == 0,
            i < accounts.len(),
            limit <= accounts.len(),
            forall|k: int|
                1 <= k < j ==> !((#[trigger] accounts@[k]).key == accounts@[i as int].key
                    && harvestable(accounts@[0].key, accounts@[k])),
        decreases limit - j,
    {
        if accounts[j].key.same_as(&accounts[i].key) && check_harvestable(
            &accounts[0].key,
            &accounts[j],
        ).is_none() {
            return true;
        }
        j += 1;
    }
    false
}

/// Sweeping the positions before `limit` does not change which accounts
/// count as harvested within them.
pub proof fn lemma_swept_keeps_harvested(
    before: Seq<AccountRecord>,
    current: Seq<AccountRecord>,
    i: int,
    limit: int,
)
    requires
        0 <= i < before.len() == current.len(),
        limit <= before.len(),
        current[0].key == before[0].key,
        current[i].key == before[i].key,
        forall|j: int| 1 <= j < limit ==> current[j] == swept(before[0].key, #[trigger] before[j]),
    ensures
        harvested_within(current, i, limit) == harvested_within(before, i, limit),
{
    if harvested_within(before, i, limit) {
        let j = choose|j: int|
            1 <= j < limit && (#[trigger] before[j]).key == before[i].key && harvestable(
                before[0].key,
                before[j],
            );
        assert(current[j] == swept(before[0].key, before[j]));
        assert(current[j].key == current[i].key && harvestable(current[0].key, current[j]));
    }
    if harvested_within(current, i, limit) {
        let j = choose|j: int|
            1 <= j < limit && (#[trigger] current[j]).key == current[i].key && harvestable(
                current[0].key,
                current[j],
            );
        assert(current[j] == swept(before[0].key, before[j]));
        assert(before[j].key == before[i].key && harvestable(before[0].key, before[j]));
    }
}

/// Once a harvest has stopped short of `n`, it stops at the same place for
/// every longer prefix.
pub proof fn lemma_harvest_stop_stays(accounts: Seq<AccountRecord>, withheld: nat, n: int, m: int)
    requires
        1 <= n <= m,
        harvest_stop(accounts, withheld, n) < n,
    ensures
        harvest_stop(accounts, withheld, m) == harvest_stop(accounts, withheld, n),
    decreases m - n,
{
    if n < m {
        lemma_harvest_stop_stays(accounts, withheld, n, m - 1);
    }
}

/// Harvests `accounts[1..]` into the mint in `accounts[0]`, in order. An
/// account that cannot be harvested is skipped untouched; one listed again
/// after it was harvested gives nothing more and is left drained; the first
/// account whose amount would overflow the mint's total ends the batch with
/// `Overflow`, with the accounts before it harvested and the rest untouched,
/// but for the later listings of an account harvested before, which show it
/// drained.
pub fn process_harvest_withheld_tokens_to_mint(accounts: &mut Vec<AccountRecord>) -> (r: Result<
    (),
    FeeError,
>)
    ensures
        r == harvest_outcome(old(accounts)@).0,
        final(accounts)@ == harvest_outcome(old(accounts)@).1,
{
    if accounts.len() == 0 {
        return Err(FeeError::NotEnoughAccountKeys);
    }
    let mint_account = accounts[0];
    let mint = match mint_account.data {
        AccountData::Mint(mint) => mint,
        _ => {
            return Err(FeeError::InvalidAccountData);
        },
    };
    let mut config = match mint.fee_config {
        Some(config) => config,
        None => {
            return Err(FeeError::ExtensionNotFound);
        },
    };
    let ghost before = accounts@;
    let ghost withheld = config.withheld_amount as nat;
    let ghost first = config;
    let mut overflowed = false;
    let mut i: usize = 1;
    while i < accounts.len() && !overflowed
        invariant
            1 <= i <= accounts.len(),
            accounts.len() == before.len(),
            before.len() > 0,
            before[0] == mint_account,
            mint_account.data == AccountData::Mint(mint),
            mint.fee_config == Some(first),
            withheld == first.withheld_amount,
            accounts@[0] == before[0],
            !overflowed ==> harvest_stop(before, withheld, i as int) == i,
            overflowed ==> harvest_stop(before, withheld, i as int) == i - 1 && i >= 2,
            forall|j: int|
                1 <= j < harvest_stop(before, withheld, i as int) ==> accounts@[j] == swept(
                    before[0].key,
                    #[trigger] before[j],
                ),
            forall|j: int|
                harvest_stop(before, withheld, i as int) <= j < before.len() ==> accounts@[j]
                    == #[trigger] before[j],
            withheld + harvested_through(before, harvest_stop(before, withheld, i as int))
                <= u64::MAX,
            config == (MintFeeConfig {
                withheld_amount: (withheld + harvested_through(
                    before,
                    harvest_stop(before, withheld, i as int),
                )) as u64,
                ..first
            }),
        decreases accounts.len() - i,
    {
        let repeated = harvested_already(accounts, i, i);
        proof {
            lemma_swept_keeps_harvested(before, accounts@, i as int, i as int);
        }
        let mut account = if repeated {
            drained_record(&accounts[i])
        } else {
            accounts[i]
        };
        match harvest_from_account(&mint_account.key, &mut config, &mut account) {
            HarvestStep::Fatal(_) => {
                overflowed = true;
            },
            HarvestStep::Skipped(_) => {},
            HarvestStep::Harvested => {
                accounts.set(i, account);
            },
        }
        i += 1;
    }
    if overflowed {
        let stop: usize = i - 1;
        proof {
            lemma_harvest_stop_stays(before, withheld, i as int, before.len() as int);
            lemma_harvest_stop(before, withheld, before.len() as int);
        }
        while i < accounts.len()
            invariant
                2 <= stop + 1 <= i <= accounts.len(),
                accounts.len() == before.len(),
                accounts@[0] == before[0],
                before[0] == mint_account,
                stop == harvest_stop(before, withheld, before.len() as int),
                forall|j: int|
                    1 <= j < stop ==> accounts@[j] == swept(before[0].key, #[trigger] before[j]),
                accounts@[stop as int] == before[stop as int],
                forall|j: int|
                    stop < j < i ==> accounts@[j] == (if harvested_within(before, j, stop as int) {
                        swept(before[0].key, #[trigger] before[j])
                    } else {
                        before[j]
                    }),
                forall|j: int| i <= j < before.len() ==> accounts@[j] == #[trigger] before[j],
            decreases accounts.len() - i,
        {
            let listed = harvested_already(accounts, i, stop);
            proof {
                lemma_swept_keeps_harvested(before, accounts@, i as int, stop as int);
            }
            if listed && check_harvestable(&mint_account.key, &accounts[i]).is_none() {
                let emptied = drained_record(&accounts[i]);
                accounts.set(i, emptied);
            }
            i += 1;
        }
    }
    accounts.set(
        0,
        AccountRecord {
            key: mint_account.key,
            owner: mint_account.owner,
            signed_for: mint_account.signed_for,
            data: AccountData::Mint(MintRecord { in_use: mint.in_use, fee_config: Some(config) }),
        },
    );
    proof {
        let stop = harvest_stop(before, withheld, before.len() as int);
        assert(accounts@ =~= harvested_to(before, withheld, stop));
    }
    if overflowed {
        Err(FeeError::Overflow)
    } else {
        Ok(())
    }
}

/// Where a harvest stops: within the batch, with a total that still fits; at
/// an account that can be harvested and whose amount no longer fits, if it
/// stops short; and short exactly when the whole batch's total does not fit.
pub proof fn lemma_harvest_stop(accounts: Seq<AccountRecord>, withheld: nat, n: int)
    requires
        1 <= n,
        withheld <= u64::MAX,
    ensures
        1 <= harvest_stop(accounts, withheld, n) <= n,
        withheld + harvested_through(accounts, harvest_stop(accounts, withheld, n)) <= u64::MAX,
        harvest_stop(accounts, withheld, n) < n ==> {
            let stop = harvest_stop(accounts, withheld, n);
            &&& harvestable(accounts[0].key, accounts[stop])
            &&& !harvested_earlier(accounts, stop)
            &&& withheld + harvested_through(accounts, stop) + withheld_of(accounts[stop])
                > u64::MAX
        },
        harvest_stop(accounts, withheld, n) == n <==> withheld + harvested_through(accounts, n)
            <= u64::MAX,
    decreases n,
{
    if n > 1 {
        lemma_harvest_stop(accounts, withheld, n - 1);
    }
}

/// A batch that starts and meets no overflow conserves what was withheld:
/// the mint gains exactly the sum of the amounts on the accounts that can be
/// harvested, each counted once however often it is listed; each of those is
/// left with nothing withheld, and every other account is left as it was.
/// Such a batch succeeds exactly when that sum fits on the mint.
pub proof fn lemma_harvest_conserves(accounts: Seq<AccountRecord>)
    requires
        harvest_batch_refusal(accounts) is None,
    ensures
        harvest_outcome(accounts).0 is Ok <==> accounts[0].fee_config()->0.withheld_amount
            + harvested_through(accounts, accounts.len() as int) <= u64::MAX,
        harvest_outcome(accounts).0 is Ok ==> {
            let after = harvest_outcome(accounts).1;
            &&& after.len() == accounts.len()
            &&& after[0].fee_config()->0.withheld_amount
                - accounts[0].fee_config()->0.withheld_amount == harvested_through(
                accounts,
                accounts.len() as int,
            )
            &&& after[0] == accounts[0].with_mint_withheld(
                after[0].fee_config()->0.withheld_amount,
            )
            &&& forall|i: int|
                1 <= i < accounts.len() && harvestable(accounts[0].key, #[trigger] accounts[i])
                    ==> withheld_of(after[i]) == 0 && after[i] == drained(accounts[i])
            &&& forall|i: int|
                1 <= i < accounts.len() && !harvestable(accounts[0].key, #[trigger] accounts[i])
                    ==> after[i] == accounts[i]
        },
{
    let withheld = accounts[0].fee_config()->0.withheld_amount as nat;
    lemma_harvest_stop(accounts, withheld, accounts.len() as int);
}

/// A batch that starts and fails has failed with `Overflow`, at an account
/// that could be harvested and whose amount would have carried the mint past
/// `u64::MAX`. That account is left as it was, and so is each record after
/// it, unless it lists an account harvested before the overflow; the mint
/// keeps what the accounts before it gave, and those stay swept: what was
/// harvested before the overflow is kept, by design.
pub proof fn lemma_harvest_overflow_keeps_earlier(accounts: Seq<AccountRecord>)
    requires
        harvest_batch_refusal(accounts) is None,
        harvest_outcome(accounts).0 is Err,
    ensures
        harvest_outcome(accounts).0 == Err::<(), FeeError>(FeeError::Overflow),
        ({
            let withheld = accounts[0].fee_config()->0.withheld_amount as nat;
            let stop = harvest_stop(accounts, withheld, accounts.len() as int);
            let after = harvest_outcome(accounts).1;
            &&& 1 <= stop < accounts.len() == after.len()
            &&& harvestable(accounts[0].key, accounts[stop])
            &&& !harvested_earlier(accounts, stop)
            &&& withheld + harvested_through(accounts, stop) + withheld_of(accounts[stop])
                > u64::MAX
            &&& after[0] == accounts[0].with_mint_withheld(
                (withheld + harvested_through(accounts, stop)) as u64,
            )
            &&& withheld + harvested_through(accounts, stop) <= u64::MAX
            &&& forall|i: int| 1 <= i < stop ==> after[i] == swept(accounts[0].key, accounts[i])
            &&& after[stop] == accounts[stop]
            &&& forall|i: int|
                stop < i < accounts.len() ==> after[i] == (if harvested_within(
                    accounts,
                    i,
                    stop,
                ) {
                    swept(accounts[0].key, accounts[i])
                } else {
                    accounts[i]
                })
        }),
{
    let withheld = accounts[0].fee_config()->0.withheld_amount as nat;
    lemma_harvest_stop(accounts, withheld, accounts.len() as int);
}

/// An account listed again after it was harvested gives nothing more: the
/// total through its later position is the total before it.
pub proof fn lemma_listed_again_gives_nothing(accounts: Seq<AccountRecord>, i: int)
    requires
        1 <= i < accounts.len(),
        harvested_earlier(accounts, i),
    ensures
        due_at(accounts, i) == 0,
        harvested_through(accounts, i + 1) == harvested_through(accounts, i),
{
}

} // verus!
