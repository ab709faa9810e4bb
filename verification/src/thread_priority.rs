//! Thread priority descriptors and the handles under which a foreign caller
//! holds them.
use vstd::prelude::*;
use crate::handle::HandleTable;

verus! {

/// The least value of a platform-independent thread priority.
pub const PRIORITY_VALUE_MIN: u8 = 0;

/// The greatest value of a platform-independent thread priority.
pub const PRIORITY_VALUE_MAX: u8 = 99;

/// `ThreadPriorityValue::MIN` of the thread-priority crate, reached through
/// the link engine, which hands the crate's items on. The crate's source sets
/// it to 0.
#[verifier::external_body]
fn priority_value_min() -> (min: u8)
    ensures
        min == PRIORITY_VALUE_MIN,
{
    autd3_link_soem::ThreadPriorityValue::MIN
}

/// `ThreadPriorityValue::MAX` of the thread-priority crate, which its source
/// sets to 99 on every target but VxWorks, where this library is not built.
#[verifier::external_body]
fn priority_value_max() -> (max: u8)
    ensures
        max == PRIORITY_VALUE_MAX,
{
    autd3_link_soem::ThreadPriorityValue::MAX
}

/// `ThreadPriorityValue::try_from` of the thread-priority crate: it accepts a
/// number exactly when it lies between `MIN` and `MAX`, both included, and the
/// value it then makes holds that number.
#[verifier::external_body]
fn checked_priority_value(value: u8) -> (checked: Option<u8>)
    ensures
        checked == if PRIORITY_VALUE_MIN <= value <= PRIORITY_VALUE_MAX {
            Some(value)
        } else {
            None::<u8>
        },
{
    autd3_link_soem::ThreadPriorityValue::try_from(value).ok().map(Into::into)
}

/// A platform-independent priority value, always within the valid range.
#[derive(Clone, Copy, Debug, PartialEq, Eq, Structural)]
pub struct PriorityValue {
    value: u8,
}

impl View for PriorityValue {
    type V = u8;

    closed spec fn view(&self) -> u8 {
        self.value
    }
}

impl PriorityValue {
    #[verifier::type_invariant]
    spec fn in_range(self) -> bool {
        PRIORITY_VALUE_MIN <= self.value <= PRIORITY_VALUE_MAX
    }

    /// The number nearest to `value` within the valid range.
    pub open spec fn saturate(value: u8) -> u8 {
        if value < PRIORITY_VALUE_MIN {
            PRIORITY_VALUE_MIN
        } else if value > PRIORITY_VALUE_MAX {
            PRIORITY_VALUE_MAX
        } else {
            value
        }
    }

    /// The priority value that `value` saturates to.
    pub closed spec fn of(value: u8) -> PriorityValue {
        PriorityValue { value: Self::saturate(value) }
    }

    /// The value made of a number holds that number, saturated.
    pub proof fn lemma_of_holds_saturated(value: u8)
        ensures
            Self::of(value)@ == Self::saturate(value),
    {
    }

    /// Two priority values that hold the same number are the same value.
    pub proof fn lemma_equal_by_number(a: PriorityValue, b: PriorityValue)
        requires
            a@ == b@,
        ensures
            a == b,
    {
    }

    /// Makes a priority value of `value`, saturating at the ends of the valid
    /// range.
    pub fn saturating(value: u8) -> (p: PriorityValue)
        ensures
            p == PriorityValue::of(value),
    {
        let min = priority_value_min();
        let max = priority_value_max();
        let clamped = if value < min {
            min
        } else if value > max {
            max
        } else {
            value
        };
        match checked_priority_value(clamped) {
            Some(value) => PriorityValue { value },
            None => PriorityValue { value: max },
        }
    }

    /// Returns the number that this value holds.
    pub fn get(&self) -> (value: u8)
        ensures
            value == self@,
            PRIORITY_VALUE_MIN <= value <= PRIORITY_VALUE_MAX,
    {
        proof {
            use_type_invariant(self);
        }
        self.value
    }
}

/// What a thread's priority is to be.
#[derive(Clone, Copy, Debug, PartialEq, Eq, Structural)]
pub enum ThreadPriorityDescriptor {
    /// The least priority that the platform offers.
    Min,
    /// A platform-independent priority.
    Crossplatform(PriorityValue),
    /// The greatest priority that the platform offers.
    Max,
}

/// The descriptors that are alive, each under the handle that was returned
/// for it.
pub type ThreadPriorityTable = HandleTable<ThreadPriorityDescriptor>;

/// Handle of a thread priority descriptor.
#[derive(Clone, Copy, Debug, PartialEq, Eq, Structural)]
pub struct ThreadPriorityPtr(pub usize);

impl ThreadPriorityPtr {
    /// Stores `v` in `table` and returns the handle that refers to it from
    /// now on, until the descriptor is consumed.
    pub fn from(v: ThreadPriorityDescriptor, table: &mut ThreadPriorityTable) -> (ptr:
        ThreadPriorityPtr)
        ensures
            ptr.0 == old(table).issued() + 1,
            final(table).issued() == old(table).issued() + 1,
            final(table)@ == old(table)@.insert(ptr.0 as int, v),
    {
        ThreadPriorityPtr(table.insert(v))
    }
}

/// Makes a descriptor of the least priority and returns its handle.
pub fn AUTDLinkSOEMThreadPriorityMin(table: &mut ThreadPriorityTable) -> (ptr: ThreadPriorityPtr)
    ensures
        ptr.0 == old(table).issued() + 1,
        final(table).issued() == old(table).issued() + 1,
        final(table)@ == old(table)@.insert(ptr.0 as int, ThreadPriorityDescriptor::Min),
{
    ThreadPriorityPtr::from(ThreadPriorityDescriptor::Min, table)
}

/// Makes a descriptor of the platform-independent priority `value` and
/// returns its handle. A value beyond the valid range is not refused: the
/// descriptor holds the nearest valid value.
pub fn AUTDLinkSOEMThreadPriorityCrossplatform(table: &mut ThreadPriorityTable, value: u8) -> (ptr:
    ThreadPriorityPtr)
    ensures
        ptr.0 == old(table).issued() + 1,
        final(table).issued() == old(table).issued() + 1,
        final(table)@ == old(table)@.insert(
            ptr.0 as int,
            ThreadPriorityDescriptor::Crossplatform(PriorityValue::of(value)),
        ),
{
    ThreadPriorityPtr::from(
        ThreadPriorityDescriptor::Crossplatform(PriorityValue::saturating(value)),
        table,
    )
}

/// Makes a descriptor of the greatest priority and returns its handle.
pub fn AUTDLinkSOEMThreadPriorityMax(table: &mut ThreadPriorityTable) -> (ptr: ThreadPriorityPtr)
    ensures
        ptr.0 == old(table).issued() + 1,
        final(table).issued() == old(table).issued() + 1,
        final(table)@ == old(table)@.insert(ptr.0 as int, ThreadPriorityDescriptor::Max),
{
    ThreadPriorityPtr::from(ThreadPriorityDescriptor::Max, table)
}

/// A number above the valid range gives the descriptor that the greatest
/// valid number gives.
pub proof fn lemma_crossplatform_saturates(value: u8)
    requires
        value > PRIORITY_VALUE_MAX,
    ensures
        ThreadPriorityDescriptor::Crossplatform(PriorityValue::of(value))
            == ThreadPriorityDescriptor::Crossplatform(PriorityValue::of(PRIORITY_VALUE_MAX)),
{
}

} // verus!
