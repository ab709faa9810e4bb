//! How the link waits between two communication cycles.
use vstd::prelude::*;

verus! {

/// Which kind of sleeper a selector asks for.
#[derive(Clone, Copy, Debug, PartialEq, Eq, Structural)]
pub enum SleeperTag {
    /// Blocking sleep of the operating system.
    Std,
    /// Blocking sleep for most of the wait, then spinning.
    Spin,
    /// Spinning for the whole wait.
    SpinWait,
}

/// What a spinning sleeper does in each round of its loop.
#[derive(Clone, Copy, Debug, PartialEq, Eq, Structural)]
pub enum SpinStrategyTag {
    /// Yield the thread to the scheduler.
    YieldThread,
    /// Hint the processor that the thread spins.
    SpinLoopHint,
}

/// A selector of a sleeper as the foreign caller fills it in. `value` and
/// `spin_strategy` are read for `Spin` alone.
#[derive(Clone, Copy, Debug, PartialEq, Eq, Structural)]
pub struct SleeperWrap {
    pub tag: SleeperTag,
    pub value: u32,
    pub spin_strategy: SpinStrategyTag,
}

/// The sleeper that the link is built with.
#[derive(Clone, Copy, Debug, PartialEq, Eq, Structural)]
pub enum Sleeper {
    /// Blocking sleep of the operating system.
    Std,
    /// Blocking sleep up to the accuracy that the operating system is
    /// trusted with, in nanoseconds, and spinning from there.
    Spin { native_accuracy_ns: u32, spin_strategy: SpinStrategyTag },
    /// Spinning for the whole wait.
    SpinWait,
}

impl SleeperWrap {
    /// The sleeper that this selector stands for. The tag decides; only a
    /// `Spin` sleeper takes anything from the other two fields.
    pub open spec fn selected(self) -> Sleeper {
        match self.tag {
            SleeperTag::Std => Sleeper::Std,
            SleeperTag::Spin => Sleeper::Spin {
                native_accuracy_ns: self.value,
                spin_strategy: self.spin_strategy,
            },
            SleeperTag::SpinWait => Sleeper::SpinWait,
        }
    }

    /// Returns the sleeper that this selector stands for.
    pub fn select(self) -> (sleeper: Sleeper)
        ensures
            sleeper == self.selected(),
    {
        match self.tag {
            SleeperTag::Std => Sleeper::Std,
            SleeperTag::Spin => Sleeper::Spin {
                native_accuracy_ns: self.value,
                spin_strategy: self.spin_strategy,
            },
            SleeperTag::SpinWait => Sleeper::SpinWait,
        }
    }
}

/// The sleeper for a link whose caller may have given no selector: the
/// blocking sleeper then, else the one that the selector stands for.
pub open spec fn sleeper_for(selector: Option<SleeperWrap>) -> Sleeper {
    match selector {
        None => Sleeper::Std,
        Some(wrap) => wrap.selected(),
    }
}

/// Returns the sleeper for a link whose caller may have given no selector.
pub fn select_sleeper(selector: Option<SleeperWrap>) -> (sleeper: Sleeper)
    ensures
        sleeper == sleeper_for(selector),
{
    match selector {
        None => Sleeper::Std,
        Some(wrap) => wrap.select(),
    }
}

} // verus!
