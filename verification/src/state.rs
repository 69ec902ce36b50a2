use crate::identity::Identity;
use crate::schedule::FeeSchedule;
use vstd::prelude::*;

verus! {

/// Address bytes of the token program that owns every account it may change.
pub const PROGRAM_ID_BYTES: [u8; 32] = [
    6, 221, 246, 225, 238, 117, 143, 222, 24, 66, 93, 188, 228, 108, 205, 218, 182, 26, 252, 77,
    131, 185, 13, 39, 254, 189, 249, 40, 216, 161, 139, 252,
];

/// Address of the token program.
pub open spec fn spec_program_id() -> Identity {
    Identity { bytes: PROGRAM_ID_BYTES }
}

/// Address of the token program.
pub fn program_id() -> (r: Identity)
    ensures
        r == spec_program_id(),
{
    Identity { bytes: PROGRAM_ID_BYTES }
}

/// The fee record that a mint carries.
#[derive(Clone, Copy, Debug, PartialEq, Eq)]
pub struct MintFeeConfig {
    /// May change the schedule; `None` freezes the schedule for good.
    pub config_authority: Option<Identity>,
    /// May withdraw the aggregated withheld amount.
    pub withdraw_authority: Option<Identity>,
    /// Fees swept from holder accounts and not yet withdrawn.
    pub withheld_amount: u64,
    pub schedule: FeeSchedule,
}

/// The fee record that a holder account carries.
#[derive(Clone, Copy, Debug, PartialEq, Eq)]
pub struct AccountFeeAmount {
    /// Fees withheld on this account and not yet harvested.
    pub withheld_amount: u64,
}

/// What this library reads of a mint.
#[derive(Clone, Copy, Debug, PartialEq, Eq)]
pub struct MintRecord {
    /// Set once the mint itself has been initialised.
    pub in_use: bool,
    pub fee_config: Option<MintFeeConfig>,
}

/// What this library reads of a holder account.
#[derive(Clone, Copy, Debug, PartialEq, Eq)]
pub struct HolderRecord {
    /// The mint whose tokens the account holds.
    pub mint: Identity,
    pub fee_amount: Option<AccountFeeAmount>,
}

/// The decoded content of an account's buffer.
#[derive(Clone, Copy, Debug, PartialEq, Eq)]
pub enum AccountData {
    Mint(MintRecord),
    Holder(HolderRecord),
    /// Anything that decodes as neither.
    Other,
}

/// One account handed to an operation, in the position the operation expects.
#[derive(Clone, Copy, Debug, PartialEq, Eq)]
pub struct AccountRecord {
    pub key: Identity,
    /// The program that owns the account.
    pub owner: Identity,
    /// Whether the account's signature, or that of enough of its multisignature
    /// witnesses, was verified for this call.
    pub signed_for: bool,
    pub data: AccountData,
}

impl AccountRecord {
    /// This account with `mint` as its content.
    pub open spec fn with_mint(self, mint: MintRecord) -> AccountRecord {
        AccountRecord { data: AccountData::Mint(mint), ..self }
    }

    /// The fee record of the mint that this account holds, if it holds one.
    pub open spec fn fee_config(self) -> Option<MintFeeConfig> {
        match self.data {
            AccountData::Mint(mint) => mint.fee_config,
            _ => None,
        }
    }

    /// The fee schedule of the mint that this account holds. Meaningful where
    /// `fee_config` is `Some`.
    pub open spec fn schedule(self) -> FeeSchedule {
        self.fee_config()->0.schedule
    }

    /// This account with the schedule of its mint's fee record replaced; the
    /// account itself where it holds no such record.
    pub open spec fn with_schedule(self, schedule: FeeSchedule) -> AccountRecord {
        match self.data {
            AccountData::Mint(mint) => match mint.fee_config {
                Some(config) => self.with_mint(
                    MintRecord { fee_config: Some(MintFeeConfig { schedule, ..config }), ..mint },
                ),
                None => self,
            },
            _ => self,
        }
    }

    /// This account with the withheld amount of its mint's fee record
    /// replaced; the account itself where it holds no such record.
    pub open spec fn with_mint_withheld(self, withheld_amount: u64) -> AccountRecord {
        match self.data {
            AccountData::Mint(mint) => match mint.fee_config {
                Some(config) => self.with_mint(
                    MintRecord {
                        fee_config: Some(MintFeeConfig { withheld_amount, ..config }),
                        ..mint
                    },
                ),
                None => self,
            },
            _ => self,
        }
    }

    /// This account with `holder` as its content.
    pub open spec fn with_holder(self, holder: HolderRecord) -> AccountRecord {
        AccountRecord { data: AccountData::Holder(holder), ..self }
    }
}

/// How a call that either succeeds with new accounts or fails without a
/// change relates its result and the accounts it leaves to `outcome`.
pub open spec fn left_as(
    outcome: Result<Seq<AccountRecord>, crate::error::FeeError>,
    before: Seq<AccountRecord>,
    result: Result<(), crate::error::FeeError>,
    after: Seq<AccountRecord>,
) -> bool {
    match outcome {
        Ok(accounts) => result is Ok && after == accounts,
        Err(e) => result == Err::<(), crate::error::FeeError>(e) && after == before,
    }
}

} // verus!
