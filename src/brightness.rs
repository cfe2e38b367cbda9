//! The brightness model: requested changes and the arithmetic that applies
//! them to a current value.
use vstd::prelude::*;

verus! {

/// The highest brightness, in percent.
pub const MAX_PERCENT: u16 = 100;

/// `x` brought into the percentage range `[0, 100]`.
pub open spec fn clamp_percent(x: int) -> int {
    if x < 0 {
        0
    } else if x > MAX_PERCENT as int {
        MAX_PERCENT as int
    } else {
        x
    }
}

/// A requested change of brightness.
#[derive(Clone, Copy, Debug, PartialEq, Eq, Structural)]
pub enum BrightnessChange {
    /// Raise (or, when negative, lower) the brightness by this many points.
    Relative(i16),
    /// Set the brightness to exactly this many percent.
    Absolute(u16),
}

impl BrightnessChange {
    /// The value that the change makes of `current`: the exact sum or the
    /// requested value, brought into `[0, 100]`.
    pub open spec fn new_value(self, current: u16) -> int {
        match self {
            BrightnessChange::Relative(offset) => clamp_percent(current as int + offset as int),
            BrightnessChange::Absolute(value) => clamp_percent(value as int),
        }
    }

    /// Applies the change to the current value. The sum of a relative change
    /// is taken in a wider signed type, so it never wraps: below zero it
    /// saturates to 0, above 100 to 100. The result is always clamped, also
    /// when the current value read from a display is out of range.
    pub fn apply(self, value: u16) -> (r: u16)
        ensures
            r as int == self.new_value(value),
            r <= MAX_PERCENT,
    {
        let raw: i32 = match self {
            BrightnessChange::Relative(offset) => value as i32 + offset as i32,
            BrightnessChange::Absolute(target) => target as i32,
        };
        if raw < 0 {
            0
        } else if raw > MAX_PERCENT as i32 {
            MAX_PERCENT
        } else {
            raw as u16
        }
    }
}

/// What a run is asked to do with each display.
#[derive(Clone, Copy, Debug, PartialEq, Eq, Structural)]
pub enum Action {
    /// Change the brightness.
    Change(BrightnessChange),
    /// Report the current brightness.
    Get,
}

impl Action {
    /// The request that changes nothing: a relative change by zero. An
    /// absolute request is never a no-op here, even when it will turn out
    /// to equal a display's current value; that is found per display.
    pub open spec fn is_noop_spec(self) -> bool {
        self == Action::Change(BrightnessChange::Relative(0))
    }

    /// Whether the request is the query-only shape (a relative change by
    /// zero), on which no display needs to be touched.
    pub fn is_noop(self) -> (r: bool)
        ensures
            r == self.is_noop_spec(),
    {
        match self {
            Action::Change(BrightnessChange::Relative(offset)) => offset == 0,
            _ => false,
        }
    }
}

/// A relative change from a current value within `[0, 100]` stays within
/// `[0, 100]`, and a change by zero leaves the value as it was.
pub proof fn lemma_relative_stays_in_range(offset: i16, current: u16)
    requires
        current <= MAX_PERCENT,
    ensures
        0 <= BrightnessChange::Relative(offset).new_value(current) <= MAX_PERCENT as int,
        offset == 0 ==> BrightnessChange::Relative(offset).new_value(current) == current as int,
{
}

/// A relative change saturates: to 0 where the exact sum falls below zero,
/// to 100 where it exceeds 100, whatever the current value.
pub proof fn lemma_relative_saturates(offset: i16, current: u16)
    ensures
        current as int + (offset as int) < 0 ==> BrightnessChange::Relative(offset).new_value(
            current,
        ) == 0,
        current as int + (offset as int) > MAX_PERCENT as int ==> BrightnessChange::Relative(
            offset,
        ).new_value(current) == MAX_PERCENT as int,
{
}

/// An absolute change to a value within `[0, 100]` yields that value,
/// whatever the current value.
pub proof fn lemma_absolute_ignores_current(value: u16, current: u16)
    requires
        value <= MAX_PERCENT,
    ensures
        BrightnessChange::Absolute(value).new_value(current) == value as int,
{
}

/// Applying the same absolute change twice gives what applying it once
/// gives; for a value within `[0, 100]` that is the value itself.
pub proof fn lemma_absolute_idempotent(value: u16, current: u16)
    ensures
        BrightnessChange::Absolute(value).new_value(
            BrightnessChange::Absolute(value).new_value(current) as u16,
        ) == BrightnessChange::Absolute(value).new_value(current),
        value <= MAX_PERCENT ==> BrightnessChange::Absolute(value).new_value(
            BrightnessChange::Absolute(value).new_value(current) as u16,
        ) == value as int,
{
}

/// Only the relative change by zero is a no-op; every absolute request,
/// and every other relative one, is not.
pub proof fn lemma_only_zero_offset_is_noop(change: BrightnessChange)
    ensures
        Action::Change(change).is_noop_spec() <==> change == BrightnessChange::Relative(0),
        change is Absolute ==> !Action::Change(change).is_noop_spec(),
        !Action::Get.is_noop_spec(),
{
}

} // verus!
