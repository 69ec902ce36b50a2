use vstd::prelude::*;

verus! {

/// Highest fee rate that may be written, in basis points (100%).
pub const MAX_FEE_BASIS_POINTS: u16 = 10_000;

/// One version of the fee: a rate and a cap, with the first epoch at which it
/// is authoritative.
#[derive(Clone, Copy, Debug, PartialEq, Eq, Structural)]
pub struct FeeRate {
    pub epoch: u64,
    pub basis_points: u16,
    pub maximum_fee: u64,
}

/// The current fee version and the one that replaces it at a later epoch.
#[derive(Clone, Copy, Debug, PartialEq, Eq, Structural)]
pub struct FeeSchedule {
    pub older: FeeRate,
    pub newer: FeeRate,
}

/// The epoch after `epoch`, held at `u64::MAX`.
pub open spec fn following_epoch(epoch: u64) -> u64 {
    if epoch == u64::MAX {
        epoch
    } else {
        (epoch + 1) as u64
    }
}

impl FeeSchedule {
    /// Both rates respect the ceiling and the slots are in epoch order.
    pub open spec fn wf(self) -> bool {
        &&& self.older.epoch <= self.newer.epoch
        &&& self.older.basis_points <= MAX_FEE_BASIS_POINTS
        &&& self.newer.basis_points <= MAX_FEE_BASIS_POINTS
    }

    /// The schedule is one that updates made no later than `epoch` can have
    /// left: the older slot is already effective at `epoch`, and the newer one
    /// is effective at the following epoch at the latest.
    pub open spec fn settled_by(self, epoch: u64) -> bool {
        &&& self.wf()
        &&& self.older.epoch <= epoch
        &&& self.newer.epoch <= following_epoch(epoch)
    }

    /// The schedule whose two slots both hold `rate`.
    pub open spec fn spec_uniform(rate: FeeRate) -> FeeSchedule {
        FeeSchedule { older: rate, newer: rate }
    }

    /// The rate in force at `epoch`: the newer slot once its epoch is reached,
    /// the older slot before.
    pub open spec fn spec_active(self, epoch: u64) -> FeeRate {
        if self.newer.epoch <= epoch {
            self.newer
        } else {
            self.older
        }
    }

    /// The schedule after a fee change requested at `epoch`. A newer slot that
    /// is already in force moves to the older slot; one still pending is
    /// dropped. The new rate takes the newer slot, effective at the following
    /// epoch.
    pub open spec fn spec_updated(self, epoch: u64, basis_points: u16, maximum_fee: u64) -> FeeSchedule {
        FeeSchedule {
            older: if self.newer.epoch <= epoch {
                self.newer
            } else {
                self.older
            },
            newer: FeeRate { epoch: following_epoch(epoch), basis_points, maximum_fee },
        }
    }

    pub fn uniform(rate: FeeRate) -> (r: FeeSchedule)
        ensures
            r == Self::spec_uniform(rate),
    {
        FeeSchedule { older: rate, newer: rate }
    }

    pub fn active(&self, epoch: u64) -> (r: FeeRate)
        ensures
            r == self.spec_active(epoch),
    {
        if self.newer.epoch <= epoch {
            self.newer
        } else {
            self.older
        }
    }

    pub fn updated(&self, epoch: u64, basis_points: u16, maximum_fee: u64) -> (r: FeeSchedule)
        ensures
            r == self.spec_updated(epoch, basis_points, maximum_fee),
    {
        let next_epoch: u64 = epoch.saturating_add(1);
        let older = if self.newer.epoch <= epoch {
            self.newer
        } else {
            self.older
        };
        FeeSchedule { older, newer: FeeRate { epoch: next_epoch, basis_points, maximum_fee } }
    }
}

/// A schedule initialised at `epoch` with a rate under the ceiling is settled
/// by that epoch.
pub proof fn lemma_uniform_is_settled(rate: FeeRate)
    requires
        rate.basis_points <= MAX_FEE_BASIS_POINTS,
    ensures
        FeeSchedule::spec_uniform(rate).settled_by(rate.epoch),
        forall|epoch: u64| FeeSchedule::spec_uniform(rate).spec_active(epoch) == rate,
{
}

/// Fee changes made at non-decreasing epochs keep the slots in epoch order:
/// a schedule settled by `earlier`, changed at any `epoch` from `earlier` on
/// with a rate under the ceiling, is settled by `epoch`, so its older slot's
/// epoch does not exceed its newer slot's.
pub proof fn lemma_update_keeps_epoch_order(
    schedule: FeeSchedule,
    earlier: u64,
    epoch: u64,
    basis_points: u16,
    maximum_fee: u64,
)
    requires
        schedule.settled_by(earlier),
        earlier <= epoch,
        basis_points <= MAX_FEE_BASIS_POINTS,
    ensures
        schedule.spec_updated(epoch, basis_points, maximum_fee).settled_by(epoch),
        schedule.spec_updated(epoch, basis_points, maximum_fee).older.epoch
            <= schedule.spec_updated(epoch, basis_points, maximum_fee).newer.epoch,
{
}

/// The schedule after the fee changes in `changes`, applied in order; each
/// is the epoch of the request, the rate and the cap.
pub open spec fn after_changes(schedule: FeeSchedule, changes: Seq<(u64, u16, u64)>) -> FeeSchedule
    decreases changes.len(),
{
    if changes.len() == 0 {
        schedule
    } else {
        after_changes(schedule, changes.drop_last()).spec_updated(
            changes.last().0,
            changes.last().1,
            changes.last().2,
        )
    }
}

/// The requests in `changes` come at epochs that never go back, the first of
/// them no earlier than `start`.
pub open spec fn epochs_never_go_back(start: u64, changes: Seq<(u64, u16, u64)>) -> bool {
    forall|i: int|
        0 <= i < changes.len() ==> (if i == 0 {
            start
        } else {
            changes[i - 1].0
        }) <= (#[trigger] changes[i]).0
}

/// The epoch of the last request in `changes`, or `start` where there is
/// none.
pub open spec fn last_epoch(start: u64, changes: Seq<(u64, u16, u64)>) -> u64 {
    if changes.len() == 0 {
        start
    } else {
        changes.last().0
    }
}

/// Any run of fee changes at epochs that never go back, each with a rate
/// under the ceiling, on a schedule settled by `start`, leaves a schedule
/// settled by the last epoch: its older slot's epoch does not exceed its
/// newer slot's.
pub proof fn lemma_changes_keep_epoch_order(
    schedule: FeeSchedule,
    start: u64,
    changes: Seq<(u64, u16, u64)>,
)
    requires
        schedule.settled_by(start),
        epochs_never_go_back(start, changes),
        forall|i: int| 0 <= i < changes.len() ==> (#[trigger] changes[i]).1 <= MAX_FEE_BASIS_POINTS,
    ensures
        after_changes(schedule, changes).settled_by(last_epoch(start, changes)),
        after_changes(schedule, changes).older.epoch <= after_changes(
            schedule,
            changes,
        ).newer.epoch,
    decreases changes.len(),
{
    if changes.len() > 0 {
        let earlier = changes.drop_last();
        assert forall|i: int| 0 <= i < earlier.len() implies (if i == 0 {
            start
        } else {
            earlier[i - 1].0
        }) <= (#[trigger] earlier[i]).0 by {
            assert(earlier[i] == changes[i]);
        }
        assert forall|i: int| 0 <= i < earlier.len() implies (#[trigger] earlier[i]).1
            <= MAX_FEE_BASIS_POINTS by {
            assert(earlier[i] == changes[i]);
        }
        lemma_changes_keep_epoch_order(schedule, start, earlier);
        let n = changes.len() - 1;
        assert(changes[n].1 <= MAX_FEE_BASIS_POINTS);
        assert(last_epoch(start, earlier) <= changes[n].0);
        lemma_update_keeps_epoch_order(
            after_changes(schedule, earlier),
            last_epoch(start, earlier),
            changes.last().0,
            changes.last().1,
            changes.last().2,
        );
    }
}

/// A fee change made at `epoch` never alters the rate in force at `epoch`
/// itself: the new rate starts at the following epoch. (At `u64::MAX` there is
/// no following epoch, and the change is immediate.)
pub proof fn lemma_update_is_not_immediate(
    schedule: FeeSchedule,
    epoch: u64,
    basis_points: u16,
    maximum_fee: u64,
)
    requires
        epoch < u64::MAX,
    ensures
        schedule.spec_updated(epoch, basis_points, maximum_fee).spec_active(epoch)
            == schedule.spec_active(epoch),
{
}

/// A fee change made at `epoch` leaves the rate in force at a `past` epoch as
/// it was. Two slots cannot remember more than one earlier rate, so the claim
/// is made where the schedule still knows the answer: `past` is not before the
/// activation of a newer slot that the change moves down (unless both slots
/// agree), and the change is not the immediate one at `u64::MAX`.
pub proof fn lemma_update_keeps_past_rates(
    schedule: FeeSchedule,
    epoch: u64,
    past: u64,
    basis_points: u16,
    maximum_fee: u64,
)
    requires
        past <= epoch,
        past < u64::MAX || schedule.newer == (FeeRate { epoch: u64::MAX, basis_points, maximum_fee }),
        schedule.newer.epoch <= past || epoch < schedule.newer.epoch || schedule.older
            == schedule.newer,
    ensures
        schedule.spec_updated(epoch, basis_points, maximum_fee).spec_active(past)
            == schedule.spec_active(past),
{
}

/// Two fee changes of which the second comes before the first one's rate has
/// started, at an epoch not before the first, leave what the second alone
/// would have left: the pending rate is dropped whole.
pub proof fn lemma_pending_update_is_replaced(
    schedule: FeeSchedule,
    first_epoch: u64,
    first_basis_points: u16,
    first_maximum_fee: u64,
    second_epoch: u64,
    second_basis_points: u16,
    second_maximum_fee: u64,
)
    requires
        first_epoch <= second_epoch,
        second_epoch < schedule.spec_updated(
            first_epoch,
            first_basis_points,
            first_maximum_fee,
        ).newer.epoch,
    ensures
        schedule.spec_updated(first_epoch, first_basis_points, first_maximum_fee).spec_updated(
            second_epoch,
            second_basis_points,
            second_maximum_fee,
        ) == schedule.spec_updated(second_epoch, second_basis_points, second_maximum_fee),
{
}

} // verus!
