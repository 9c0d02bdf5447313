//! The screen scheduler: an ordered, never-empty list of screens, a
//! current index, and a timer. Once per tick the caller asks whether
//! the rotation interval has elapsed and, if so, advances the index
//! cyclically. Time reaches the scheduler only as an argument, a
//! monotone reading in whole seconds.

use vstd::prelude::*;
use vstd::string::*;
use vstd::arithmetic::div_mod::{
    lemma_add_mod_noop, lemma_mod_self_0, lemma_mod_twice, lemma_small_mod,
};
use crate::screen_factory::{is_known_screen, kind_of_name, ScreenError, ScreenFactory};
use crate::screens::{screen_lines_spec, screen_title_spec, ScreenKind, Snapshot};

verus! {

/// One cyclic step of the rotation: the index after an eligible tick.
pub open spec fn advance_index(i: int, n: int) -> int {
    (i + 1) % n
}

/// The index after `k` eligible ticks.
pub open spec fn advance_times(i: int, n: int, k: nat) -> int
    decreases k,
{
    if k == 0 {
        i
    } else {
        advance_times(advance_index(i, n), n, (k - 1) as nat)
    }
}

proof fn lemma_advance_times_mod(i: int, n: int, k: nat)
    requires
        0 <= i < n,
    ensures
        advance_times(i, n, k) == (i + k) % n,
    decreases k,
{
    if k == 0 {
        lemma_small_mod(i as nat, n as nat);
    } else {
        let j = advance_index(i, n);
        assert(0 <= j < n) by {
            lemma_add_mod_noop(i, 1, n);
            lemma_small_mod(i as nat, n as nat);
            if i + 1 < n {
                lemma_small_mod((i + 1) as nat, n as nat);
            } else {
                lemma_mod_self_0(n);
            }
        }
        lemma_advance_times_mod(j, n, (k - 1) as nat);
        assert(((i + 1) % n + (k - 1)) % n == (i + k) % n) by {
            lemma_add_mod_noop((i + 1) % n, k - 1, n);
            lemma_mod_twice(i + 1, n);
            lemma_add_mod_noop(i + 1, k - 1, n);
        }
    }
}

/// The rotation law: with `n` screens, `n` consecutive eligible ticks
/// bring the index back to where it started; and with a single screen
/// any number of eligible ticks leaves the index where it is.
pub proof fn lemma_rotation_cycle(i: int, n: int, k: nat)
    requires
        0 <= i < n,
    ensures
        advance_times(i, n, n as nat) == i,
        n == 1 ==> advance_times(i, n, k) == i,
{
    lemma_advance_times_mod(i, n, n as nat);
    assert((i + n) % n == i) by {
        lemma_add_mod_noop(i, n, n);
        lemma_mod_self_0(n);
        lemma_small_mod(i as nat, n as nat);
    }
    if n == 1 {
        lemma_advance_times_mod(i, n, k);
        assert((i + k) % 1 == 0) by {
            lemma_small_mod(0, 1);
            lemma_add_mod_noop(i, k as int, 1);
            lemma_small_mod(i as nat, 1);
        }
    }
}

/// Cycles through an ordered, never-empty list of screens on a timer.
pub struct ScreenManager {
    screens: Vec<ScreenKind>,
    current_index: usize,
    last_switch_time: u64,
    screen_duration_secs: u64,
}

impl ScreenManager {
    /// The ordered screens under rotation.
    pub closed spec fn screens(self) -> Seq<ScreenKind> {
        self.screens@
    }

    /// The index of the active screen.
    pub closed spec fn index(self) -> usize {
        self.current_index
    }

    /// The clock reading at the last rotation (or at construction).
    pub closed spec fn last_switch(self) -> u64 {
        self.last_switch_time
    }

    /// The rotation interval in seconds.
    pub closed spec fn duration(self) -> u64 {
        self.screen_duration_secs
    }

    /// The schedule is never empty, the index always names a screen,
    /// and the interval is positive.
    pub open spec fn wf(self) -> bool {
        &&& self.screens().len() >= 1
        &&& (self.index() as int) < self.screens().len()
        &&& self.duration() >= 1
    }

    /// Builds the schedule from the enabled identifiers, starting at
    /// index 0 with the timer at `now`. It never fails: an empty or
    /// partly unknown list falls back to exactly one overview screen.
    pub fn new(enabled_screen_names: Vec<&str>, screen_duration_secs: u64, now: u64) -> (r: Result<
        Self,
        ScreenError,
    >)
        requires
            screen_duration_secs >= 1,
        ensures
            r is Ok,
            r matches Ok(m) ==> m.wf() && m.index() == 0 && m.last_switch() == now && m.duration()
                == screen_duration_secs,
            r matches Ok(m) ==> if enabled_screen_names@.len() > 0 && (forall|i: int|
                0 <= i < enabled_screen_names@.len() ==> is_known_screen(
                    enabled_screen_names@[i]@,
                )) {
                m.screens().len() == enabled_screen_names@.len() && (forall|i: int|
                    0 <= i < m.screens().len() ==> Some(m.screens()[i]) == kind_of_name(
                        enabled_screen_names@[i]@,
                    ))
            } else {
                m.screens() =~= seq![ScreenKind::Overview]
            },
    {
        let screens: Vec<ScreenKind> = match ScreenFactory::create_screens(&enabled_screen_names) {
            Ok(v) => {
                if v.len() == 0 {
                    let mut fallback: Vec<ScreenKind> = Vec::new();
                    fallback.push(ScreenKind::Overview);
                    fallback
                } else {
                    v
                }
            },
            Err(_) => {
                let mut fallback: Vec<ScreenKind> = Vec::new();
                fallback.push(ScreenKind::Overview);
                fallback
            },
        };
        Ok(
            Self {
                screens,
                current_index: 0,
                last_switch_time: now,
                screen_duration_secs,
            },
        )
    }

    /// A rotation is due exactly when more than one screen is enabled
    /// and at least the rotation interval has elapsed since the last
    /// switch.
    pub open spec fn rotation_due(self, now: u64) -> bool {
        self.screens().len() > 1 && now >= self.last_switch() && now - self.last_switch()
            >= self.duration()
    }

    /// Is a rotation due at clock reading `now`?
    pub fn should_switch_screen(&self, now: u64) -> (r: bool)
        ensures
            r == self.rotation_due(now),
    {
        self.screens.len() > 1 && now >= self.last_switch_time && now - self.last_switch_time
            >= self.screen_duration_secs
    }

    /// Advances the rotation one step, cyclically, and restarts the
    /// timer at `now`; with a single screen nothing changes.
    pub fn next_screen(&mut self, now: u64)
        requires
            old(self).wf(),
        ensures
            final(self).wf(),
            final(self).screens() == old(self).screens(),
            final(self).duration() == old(self).duration(),
            old(self).screens().len() > 1 ==> final(self).index() == advance_index(
                old(self).index() as int,
                old(self).screens().len() as int,
            ) && final(self).last_switch() == now,
            old(self).screens().len() <= 1 ==> *final(self) == *old(self),
    {
        if self.screens.len() > 1 {
            self.current_index = (self.current_index + 1) % self.screens.len();
            self.last_switch_time = now;
        }
    }

    /// How many screens are under rotation.
    pub fn screen_count(&self) -> (r: usize)
        ensures
            r == self.screens().len(),
    {
        self.screens.len()
    }

    /// The active screen.
    pub fn current_screen(&self) -> (r: Option<ScreenKind>)
        requires
            self.wf(),
        ensures
            r == Some(self.screens()[self.index() as int]),
    {
        Some(self.screens[self.current_index])
    }

    /// Runs the active screen's producers against a snapshot. A failed
    /// title is replaced by the screen's identifier and a failed
    /// content by one `Error: ` line, so neither failure propagates.
    pub fn render_current_screen(&self, snapshot: &Snapshot) -> (r: (String, Vec<String>))
        requires
            self.wf(),
        ensures
            r.0@ == screen_title_spec(self.screens()[self.index() as int], *snapshot),
            r.1.deep_view() == screen_lines_spec(self.screens()[self.index() as int], *snapshot),
    {
        let kind = self.screens[self.current_index];
        let title = match kind.title(snapshot) {
            Ok(t) => t,
            Err(_) => String::from_str(kind.name()),
        };
        let content = match kind.render(snapshot) {
            Ok(lines) => lines,
            Err(e) => {
                let mut line = String::from_str("Error: ");
                line.append(e.message.as_str());
                let mut lines: Vec<String> = Vec::new();
                lines.push(line);
                lines
            },
        };
        (title, content)
    }
}

} // verus!
