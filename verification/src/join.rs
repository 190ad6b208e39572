use vstd::prelude::*;

verus! {

/// The place that one lookup reports to.
#[derive(Debug, Clone, PartialEq, Eq)]
pub enum Slot<T> {
    /// The lookup has not ended yet.
    Pending,
    /// The lookup has failed.
    Failed,
    /// The lookup has brought this.
    Found(T),
}

/// The slots of a batch of lookups that run side by side. Each lookup has
/// the slot at its own position, so what the join holds in the end does
/// not depend on which lookup ended first.
#[derive(Debug, Clone, PartialEq, Eq)]
pub struct Join<T> {
    slots: Vec<Slot<T>>,
}

/// What a slot holds once a lookup has reported `outcome` to it.
pub open spec fn filled<T>(outcome: Option<T>) -> Slot<T> {
    match outcome {
        Some(found) => Slot::Found(found),
        None => Slot::Failed,
    }
}

/// What a slot counts for when the batch is joined: what was found, or
/// nothing if the lookup failed or never reported.
pub open spec fn outcome_of<T>(slot: Slot<T>) -> Option<T> {
    match slot {
        Slot::Found(found) => Some(found),
        _ => None,
    }
}

/// Whether a report to `position` is taken: the position is one of the
/// batch, and nothing was reported to it before.
pub open spec fn accepts<T>(slots: Seq<Slot<T>>, position: int) -> bool {
    0 <= position < slots.len() && slots[position] is Pending
}

/// The slots after `outcome` was reported to `position`. A report that is
/// not taken changes nothing.
pub open spec fn recorded<T>(slots: Seq<Slot<T>>, position: int, outcome: Option<T>) -> Seq<
    Slot<T>,
> {
    if accepts(slots, position) {
        slots.update(position, filled(outcome))
    } else {
        slots
    }
}

/// How many of the slots are still pending.
pub open spec fn pending_count<T>(slots: Seq<Slot<T>>) -> nat
    decreases slots.len(),
{
    if slots.len() == 0 {
        0
    } else {
        pending_count(slots.drop_last()) + if slots.last() is Pending {
            1nat
        } else {
            0nat
        }
    }
}

/// The slots of a batch of `width` lookups before any of them reports.
pub open spec fn all_pending<T>(width: nat) -> Seq<Slot<T>> {
    Seq::new(width, |i: int| Slot::Pending)
}

/// The slots after a run of reports, each a position and what the lookup
/// there brought, taken in the order in which they came in.
pub open spec fn after_reports<T>(slots: Seq<Slot<T>>, reports: Seq<(int, Option<T>)>) -> Seq<
    Slot<T>,
>
    decreases reports.len(),
{
    if reports.len() == 0 {
        slots
    } else {
        recorded(after_reports(slots, reports.drop_last()), reports.last().0, reports.last().1)
    }
}

/// The join is stable by position. Where no lookup reports twice, the
/// slots after a run of reports depend on what was reported to each
/// position and not on the order of the reports: each position of the
/// batch that was reported to holds its own report, and every other
/// position is still pending.
pub proof fn lemma_join_is_stable_by_position<T>(width: nat, reports: Seq<(int, Option<T>)>)
    requires
        forall|i: int, j: int|
            0 <= i < j < reports.len() ==> (#[trigger] reports[i]).0 != (#[trigger] reports[j]).0,
    ensures
        after_reports(all_pending::<T>(width), reports).len() == width,
        forall|k: int|
            0 <= k < reports.len() && 0 <= (#[trigger] reports[k]).0 < width ==> after_reports(
                all_pending::<T>(width),
                reports,
            )[reports[k].0] == filled(reports[k].1),
        forall|position: int|
            0 <= position < width && (forall|k: int|
                0 <= k < reports.len() ==> (#[trigger] reports[k]).0 != position)
                ==> #[trigger] after_reports(all_pending::<T>(width), reports)[position] is Pending,
    decreases reports.len(),
{
    if reports.len() > 0 {
        let earlier = reports.drop_last();
        let last: int = reports.len() - 1;
        assert forall|k: int| 0 <= k < earlier.len() implies #[trigger] earlier[k] == reports[k] by {}
        lemma_join_is_stable_by_position::<T>(width, earlier);
        let before = after_reports(all_pending::<T>(width), earlier);
        let position: int = reports[last].0;
        if 0 <= position < width {
            assert forall|k: int| 0 <= k < earlier.len() implies (#[trigger] earlier[k]).0
                != position by {
                assert(earlier[k] == reports[k]);
            }
            assert(before[position] is Pending);
        }
        assert forall|k: int|
            0 <= k < reports.len() && 0 <= (#[trigger] reports[k]).0 < width implies after_reports(
            all_pending::<T>(width),
            reports,
        )[reports[k].0] == filled(reports[k].1) by {
            if k < last {
                assert(earlier[k] == reports[k]);
                assert(reports[k].0 != position);
            }
        }
        assert forall|p: int|
            0 <= p < width && (forall|k: int|
                0 <= k < reports.len() ==> (#[trigger] reports[k]).0 != p) implies #[trigger] after_reports(
            all_pending::<T>(width),
            reports,
        )[p] is Pending by {
            assert(reports[last].0 != p);
            assert forall|k: int| 0 <= k < earlier.len() implies (#[trigger] earlier[k]).0 != p by {
                assert(earlier[k] == reports[k]);
            }
        }
    }
}

/// Reports to different positions can come in either order.
pub proof fn lemma_reports_commute<T>(
    slots: Seq<Slot<T>>,
    first: int,
    first_outcome: Option<T>,
    second: int,
    second_outcome: Option<T>,
)
    requires
        first != second,
    ensures
        recorded(recorded(slots, first, first_outcome), second, second_outcome) == recorded(
            recorded(slots, second, second_outcome),
            first,
            first_outcome,
        ),
{
}

/// A position takes one report only: a later one changes nothing.
pub proof fn lemma_second_report_is_ignored<T>(
    slots: Seq<Slot<T>>,
    position: int,
    outcome: Option<T>,
    later: Option<T>,
)
    ensures
        recorded(recorded(slots, position, outcome), position, later) == recorded(
            slots,
            position,
            outcome,
        ),
{
}

/// A report leaves every other position as it was.
pub proof fn lemma_report_is_local<T>(
    slots: Seq<Slot<T>>,
    position: int,
    outcome: Option<T>,
    other: int,
)
    requires
        0 <= other < slots.len(),
        other != position,
    ensures
        recorded(slots, position, outcome).len() == slots.len(),
        recorded(slots, position, outcome)[other] == slots[other],
{
}

/// No slot is pending if and only if the count of pending slots is zero.
pub proof fn lemma_none_pending<T>(slots: Seq<Slot<T>>)
    ensures
        pending_count(slots) == 0 <==> forall|i: int|
            0 <= i < slots.len() ==> !(#[trigger] slots[i] is Pending),
        pending_count(slots) <= slots.len(),
    decreases slots.len(),
{
    if slots.len() > 0 {
        lemma_none_pending(slots.drop_last());
        if pending_count(slots) == 0 {
            assert forall|i: int| 0 <= i < slots.len() implies !(#[trigger] slots[i] is Pending) by {
                if i < slots.len() - 1 {
                    assert(slots.drop_last()[i] == slots[i]);
                }
            }
        } else if !(slots.last() is Pending) {
            let i: int = choose|i: int|
                0 <= i < slots.drop_last().len() && #[trigger] slots.drop_last()[i] is Pending;
            assert(slots[i] is Pending);
        }
    }
}

impl<T> View for Join<T> {
    type V = Seq<Slot<T>>;

    closed spec fn view(&self) -> Seq<Slot<T>> {
        self.slots@
    }
}

impl<T> Join<T> {
    /// A join for `width` lookups, none of which has reported yet.
    pub fn new(width: usize) -> (join: Join<T>)
        ensures
            join@ == all_pending::<T>(width as nat),
    {
        let mut slots: Vec<Slot<T>> = Vec::new();
        while slots.len() < width
            invariant
                slots@.len() <= width,
                forall|i: int| 0 <= i < slots@.len() ==> #[trigger] slots@[i] is Pending,
            decreases width - slots.len(),
        {
            slots.push(Slot::Pending);
        }
        assert(slots@ =~= all_pending::<T>(width as nat));
        Join { slots }
    }

    /// For how many lookups the join was made.
    pub fn width(&self) -> (width: usize)
        ensures
            width == self@.len(),
    {
        self.slots.len()
    }

    /// Takes the report of the lookup at `position`: what it found, or
    /// `None` if it failed. The first report to a position of the batch is
    /// written to its slot and answered with `true`. Any other report is
    /// ignored and answered with `false`.
    pub fn record(&mut self, position: usize, outcome: Option<T>) -> (taken: bool)
        ensures
            taken == accepts(old(self)@, position as int),
            final(self)@ == recorded(old(self)@, position as int, outcome),
    {
        if position >= self.slots.len() {
            return false;
        }
        let free = match &self.slots[position] {
            Slot::Pending => true,
            _ => false,
        };
        if !free {
            return false;
        }
        let slot = match outcome {
            Some(found) => Slot::Found(found),
            None => Slot::Failed,
        };
        self.slots.set(position, slot);
        true
    }

    /// How many lookups have not reported yet.
    pub fn pending(&self) -> (count: usize)
        ensures
            count == pending_count(self@),
    {
        let mut count: usize = 0;
        let mut i: usize = 0;
        while i < self.slots.len()
            invariant
                i <= self.slots.len(),
                count == pending_count(self.slots@.take(i as int)),
                count <= i,
            decreases self.slots.len() - i,
        {
            proof {
                assert(self.slots@.take(i + 1).drop_last() == self.slots@.take(i as int));
            }
            match &self.slots[i] {
                Slot::Pending => {
                    count += 1;
                },
                _ => {},
            }
            i += 1;
        }
        proof {
            assert(self.slots@.take(self.slots.len() as int) == self.slots@);
        }
        count
    }

    /// Whether every lookup has reported, so that nothing is waited for.
    pub fn is_complete(&self) -> (complete: bool)
        ensures
            complete <==> forall|i: int| 0 <= i < self@.len() ==> !(#[trigger] self@[i] is Pending),
    {
        proof {
            lemma_none_pending(self@);
        }
        self.pending() == 0
    }

    /// The outcomes by position: what each lookup found, and `None` for a
    /// lookup that failed or has not reported.
    pub fn finish(self) -> (outcomes: Vec<Option<T>>)
        ensures
            outcomes@ == self@.map_values(|slot: Slot<T>| outcome_of(slot)),
    {
        let ghost all = self.slots@;
        let ghost wanted = all.map_values(|slot: Slot<T>| outcome_of(slot));
        let mut outcomes: Vec<Option<T>> = Vec::new();
        for slot in it: self.slots
            invariant
                it.seq() == all,
                wanted == all.map_values(|slot: Slot<T>| outcome_of(slot)),
                outcomes@ == wanted.take(it.index()),
        {
            let outcome = match slot {
                Slot::Found(found) => Some(found),
                _ => None,
            };
            outcomes.push(outcome);
            assert(outcomes@ == wanted.take(it.index() + 1));
        }
        proof {
            assert(wanted.take(all.len() as int) == wanted);
        }
        outcomes
    }
}

/// Whether the lookup at `position` brought nothing: it failed, or the
/// outcomes hold none for it.
pub open spec fn has_failed<T>(outcomes: Seq<Option<T>>, position: int) -> bool {
    !(0 <= position < outcomes.len() && outcomes[position] is Some)
}

/// The keys whose lookup failed, in the order of the keys. The outcome at
/// a position belongs to the key at that position.
pub open spec fn failed_keys<T>(keys: Seq<i64>, outcomes: Seq<Option<T>>) -> Seq<i64>
    decreases keys.len(),
{
    if keys.len() == 0 {
        Seq::empty()
    } else {
        let earlier = failed_keys(keys.drop_last(), outcomes);
        if has_failed(outcomes, keys.len() - 1) {
            earlier.push(keys.last())
        } else {
            earlier
        }
    }
}

/// The keys whose lookup failed, in the order of the keys: what to record
/// as failed lookups once a batch is joined.
pub fn failed_lookups<T>(keys: &Vec<i64>, outcomes: &Vec<Option<T>>) -> (failed: Vec<i64>)
    ensures
        failed@ == failed_keys(keys@, outcomes@),
{
    let mut failed: Vec<i64> = Vec::new();
    let mut i: usize = 0;
    while i < keys.len()
        invariant
            i <= keys.len(),
            failed@ == failed_keys(keys@.take(i as int), outcomes@),
        decreases keys.len() - i,
    {
        proof {
            assert(keys@.take(i + 1).drop_last() == keys@.take(i as int));
        }
        let found = i < outcomes.len() && outcomes[i].is_some();
        if !found {
            failed.push(keys[i]);
        }
        i += 1;
    }
    proof {
        assert(keys@.take(keys.len() as int) == keys@);
    }
    failed
}

/// Where every key has an outcome and only the lookup at `failing` failed,
/// its key is the only one recorded.
pub proof fn lemma_single_failure<T>(keys: Seq<i64>, outcomes: Seq<Option<T>>, failing: int)
    requires
        outcomes.len() == keys.len(),
        0 <= failing < keys.len(),
        forall|i: int| 0 <= i < outcomes.len() ==> (outcomes[i] is None <==> i == failing),
    ensures
        failed_keys(keys, outcomes) == seq![keys[failing]],
{
    lemma_failed_keys_up_to(keys, outcomes, failing, keys.len());
    assert(keys.take(keys.len() as int) == keys);
}

/// With a single failure at `failing`, the keys before it record nothing,
/// and any longer run of keys records it alone.
proof fn lemma_failed_keys_up_to<T>(
    keys: Seq<i64>,
    outcomes: Seq<Option<T>>,
    failing: int,
    n: nat,
)
    requires
        outcomes.len() == keys.len(),
        0 <= failing < keys.len(),
        forall|i: int| 0 <= i < outcomes.len() ==> (outcomes[i] is None <==> i == failing),
        n <= keys.len(),
    ensures
        failed_keys(keys.take(n as int), outcomes) == (if n <= failing {
            Seq::<i64>::empty()
        } else {
            seq![keys[failing]]
        }),
    decreases n,
{
    if n > 0 {
        lemma_failed_keys_up_to(keys, outcomes, failing, (n - 1) as nat);
        assert(keys.take(n as int).drop_last() == keys.take(n - 1));
        assert(has_failed(outcomes, n - 1) <==> n - 1 == failing);
        if n - 1 == failing {
            assert(Seq::<i64>::empty().push(keys[failing]) == seq![keys[failing]]);
        }
    }
}

} // verus!
