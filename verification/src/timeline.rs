//! A time-ordered record of values, as consumers keep per property.

use vstd::prelude::*;

verus! {

/// Declares std::time::Instant to the verifier; its values stay opaque.
#[verifier::external_type_specification]
#[verifier::external_body]
pub struct ExInstant(std::time::Instant);

/// Relies on std::time::Instant::now: an opaque moment on the monotonic
/// clock; nothing is assumed about its value.
#[verifier::external_body]
fn instant_now() -> (r: std::time::Instant) {
    std::time::Instant::now()
}

/// Readings of one value over time, newest last.
pub struct Timeline<T> {
    pub readings: Vec<(std::time::Instant, T)>,
}

impl<T> Default for Timeline<T> {
    fn default() -> (r: Self)
        ensures
            r.readings@ == Seq::<(std::time::Instant, T)>::empty(),
    {
        Timeline { readings: Vec::new() }
    }
}

impl<T> Timeline<T> {
    /// The most recent reading, if any.
    pub fn last(&self) -> (r: Option<&T>)
        ensures
            match r {
                Some(v) => self.readings@.len() > 0 && *v == self.readings@.last().1,
                None => self.readings@.len() == 0,
            },
    {
        match self.readings.last() {
            Some(entry) => Some(&entry.1),
            None => None,
        }
    }

    /// Appends a reading stamped with the current moment.
    pub fn update(&mut self, payload: T)
        ensures
            final(self).readings@.len() == old(self).readings@.len() + 1,
            final(self).readings@.last().1 == payload,
            final(self).readings@.take(old(self).readings@.len() as int) == old(self).readings@,
    {
        let now = instant_now();
        self.update_with_timestamp(now, payload);
        proof {
            assert(self.readings@.take(old(self).readings@.len() as int) =~= old(self).readings@);
        }
    }

    /// Appends a reading with a caller-supplied timestamp.
    pub fn update_with_timestamp(&mut self, timestamp: std::time::Instant, payload: T)
        ensures
            final(self).readings@ == old(self).readings@.push((timestamp, payload)),
    {
        self.readings.push((timestamp, payload));
    }
}

/// What a consumer tracks of one `tanuki.on_off` capability.
pub struct TanukiOnOffState {
    pub on: Timeline<bool>,
}

impl Default for TanukiOnOffState {
    fn default() -> (r: Self)
        ensures
            r.on.readings@ == Seq::<(std::time::Instant, bool)>::empty(),
    {
        TanukiOnOffState { on: Timeline::default() }
    }
}

} // verus!
