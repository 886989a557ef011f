use vstd::prelude::*;

verus! {

/// A named task preset: a work duration and a break duration, both in
/// minutes. Presets are supplied by an external store at startup and are
/// immutable afterwards.
#[derive(Clone, Debug)]
pub struct Pom {
    pub id: i32,
    pub name: String,
    pub duration_minutes: i32,
    pub break_duration_minutes: i32,
}

impl Pom {
    /// Both durations are non-negative and small enough that converting
    /// them to seconds stays within `i32`.
    pub open spec fn wf(&self) -> bool {
        &&& 0 <= self.duration_minutes
        &&& self.duration_minutes * 60 <= i32::MAX
        &&& 0 <= self.break_duration_minutes
        &&& self.break_duration_minutes * 60 <= i32::MAX
    }

    /// The preset's work duration in seconds.
    pub open spec fn work_seconds(&self) -> int {
        self.duration_minutes * 60
    }

    /// The preset's break duration in seconds.
    pub open spec fn break_seconds(&self) -> int {
        self.break_duration_minutes * 60
    }
}

} // verus!
