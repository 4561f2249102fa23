use vstd::prelude::*;
use crate::input::{InputEvent, Key};

verus! {

/// The status line derived from a counter value: "Minimum" at the lower
/// bound, "Maximum" at the upper bound, empty anywhere in between.
pub open spec fn status_of(value: u8) -> Seq<char> {
    if value == 0 {
        "Minimum"@
    } else if value == 255 {
        "Maximum"@
    } else {
        Seq::<char>::empty()
    }
}

/// One step up, saturating at 255.
pub open spec fn inc_value(v: u8) -> u8 {
    if v < 255 {
        (v + 1) as u8
    } else {
        v
    }
}

/// One step down, saturating at 0.
pub open spec fn dec_value(v: u8) -> u8 {
    if v > 0 {
        (v - 1) as u8
    } else {
        v
    }
}

/// The counter after a decoded key: arrows move it, everything else —
/// including the quit key — leaves it where it is.
pub open spec fn value_after_key(v: u8, k: Key) -> u8 {
    match k {
        Key::Increment => inc_value(v),
        Key::Decrement => dec_value(v),
        Key::Quit => v,
        Key::Other => v,
    }
}

/// The counter after an input event: only key presses move it.
pub open spec fn value_after_event(v: u8, e: InputEvent) -> u8 {
    match e {
        InputEvent::KeyPress(k) => value_after_key(v, k),
        InputEvent::Other => v,
    }
}

/// The exit flag after an input event: set by a quit key press, never
/// cleared.
pub open spec fn exit_after_event(x: bool, e: InputEvent) -> bool {
    x || e == InputEvent::KeyPress(Key::Quit)
}

/// The counter after `n` increments, each saturating at 255.
pub open spec fn inc_value_n(v: u8, n: nat) -> u8
    decreases n,
{
    if n == 0 {
        v
    } else {
        inc_value(inc_value_n(v, (n - 1) as nat))
    }
}

/// Over the whole domain, the derived status is "Minimum" exactly at 0,
/// "Maximum" exactly at 255, and empty exactly in between.
pub proof fn lemma_status_characterization(v: u8)
    ensures
        status_of(v) == "Minimum"@ <==> v == 0,
        status_of(v) == "Maximum"@ <==> v == 255,
        status_of(v) == Seq::<char>::empty() <==> 0 < v < 255,
{
    reveal_strlit("Minimum");
    reveal_strlit("Maximum");
    assert("Minimum"@ != "Maximum"@) by {
        assert("Minimum"@[1] == 'i');
        assert("Maximum"@[1] == 'a');
    }
    assert("Minimum"@.len() == 7);
    assert("Maximum"@.len() == 7);
}

/// Starting from 0, `n` increments reach exactly `n` while `n` stays
/// within the bound; past the bound the counter is pinned at 255, however
/// many more increments arrive.
pub proof fn lemma_increment_sequence(n: nat)
    ensures
        n <= 255 ==> inc_value_n(0, n) == n,
        n > 255 ==> inc_value_n(0, n) == 255,
    decreases n,
{
    if n > 0 {
        lemma_increment_sequence((n - 1) as nat);
    }
}

/// A quit request is idempotent: one quit key press sets the exit flag,
/// and a second one finds it set and leaves it set.
pub proof fn lemma_quit_idempotent(x: bool)
    ensures
        exit_after_event(x, InputEvent::KeyPress(Key::Quit)),
        exit_after_event(
            exit_after_event(x, InputEvent::KeyPress(Key::Quit)),
            InputEvent::KeyPress(Key::Quit),
        ),
{
}

/// The exit flag is monotonic: once a quit has been requested, no later
/// event clears it, so the loop stops at the next iteration boundary.
pub proof fn lemma_exit_monotonic(x: bool, e: InputEvent)
    ensures
        x ==> exit_after_event(x, e),
{
}

/// The state of the application: a bounded counter, the status line last
/// derived from it, and the flag that ends the input loop.
pub struct CounterState {
    /// The counter, kept in [0, 255] by saturation.
    pub value: u8,
    /// The cached status line; consistent with `value` again after each
    /// `recompute_status`.
    pub status: String,
    /// True once a quit has been requested; the input loop stops at the
    /// next iteration boundary.
    pub should_exit: bool,
}

impl CounterState {
    /// The cached status line agrees with the value it is derived from.
    /// Holds at the start of every render: each loop iteration ends by
    /// recomputing the status.
    pub open spec fn status_consistent(self) -> bool {
        self.status@ == status_of(self.value)
    }

    /// The state a run starts from: counter at zero, status not yet
    /// derived, no quit requested.
    pub fn new() -> (s: CounterState)
        ensures
            s.value == 0,
            s.status@ == Seq::<char>::empty(),
            !s.should_exit,
    {
        CounterState { value: 0, status: String::new(), should_exit: false }
    }

    /// Move the counter up by one; at 255 do nothing. Never fails.
    pub fn increment(&mut self)
        ensures
            final(self).value == inc_value(old(self).value),
            final(self).status@ == old(self).status@,
            final(self).should_exit == old(self).should_exit,
    {
        if self.value < 255 {
            self.value = self.value + 1;
        }
    }

    /// Move the counter down by one; at 0 do nothing. Never fails.
    pub fn decrement(&mut self)
        ensures
            final(self).value == dec_value(old(self).value),
            final(self).status@ == old(self).status@,
            final(self).should_exit == old(self).should_exit,
    {
        if self.value > 0 {
            self.value = self.value - 1;
        }
    }

    /// Derive the status line from the current counter and cache it.
    pub fn recompute_status(&mut self)
        ensures
            final(self).value == old(self).value,
            final(self).should_exit == old(self).should_exit,
            final(self).status@ == status_of(old(self).value),
            final(self).status_consistent(),
    {
        if self.value == 0 {
            self.status = String::from_str("Minimum");
        } else if self.value == 255 {
            self.status = String::from_str("Maximum");
        } else {
            self.status = String::new();
        }
    }

    /// Ask the input loop to stop after the current iteration. Idempotent.
    pub fn request_exit(&mut self)
        ensures
            final(self).should_exit,
            final(self).value == old(self).value,
            final(self).status@ == old(self).status@,
    {
        self.should_exit = true;
    }

    /// Dispatch one decoded key: quit requests an exit, the arrow actions
    /// move the counter, anything else is a no-op. The cached status is
    /// untouched here; `step` recomputes it afterwards.
    pub fn handle_key(&mut self, key: Key)
        ensures
            final(self).value == value_after_key(old(self).value, key),
            final(self).should_exit == (old(self).should_exit || key == Key::Quit),
            final(self).status@ == old(self).status@,
    {
        match key {
            Key::Quit => self.request_exit(),
            Key::Increment => self.increment(),
            Key::Decrement => self.decrement(),
            Key::Other => {},
        }
    }

    /// One iteration of the input loop's state work: dispatch the event if
    /// it is a key press, then recompute the status unconditionally, so
    /// that the next render sees a status consistent with the counter.
    pub fn step(&mut self, event: InputEvent)
        ensures
            final(self).value == value_after_event(old(self).value, event),
            final(self).should_exit == exit_after_event(old(self).should_exit, event),
            final(self).status@ == status_of(final(self).value),
            final(self).status_consistent(),
    {
        match event {
            InputEvent::KeyPress(k) => self.handle_key(k),
            InputEvent::Other => {},
        }
        self.recompute_status();
    }

    /// Whether the input loop should run another iteration: it stops once
    /// a quit has been requested.
    pub fn should_continue(&self) -> (r: bool)
        ensures
            r == !self.should_exit,
    {
        !self.should_exit
    }
}

} // verus!
