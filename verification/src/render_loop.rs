//! One iteration of the render loop: apply a due rotation, run the
//! active screen's producers on a fresh snapshot, and plan the frame.
//! The caller owns the clock, the snapshot collectors, the hardware
//! session that draws the planned frame, and the sleep between
//! iterations; a failure to transmit a frame is the caller's to treat
//! as fatal.

use vstd::prelude::*;
use vstd::string::*;
use crate::display::{line_fits, line_y, DisplayManager, TITLE_BASELINE_Y};
use crate::screen_manager::{advance_index, ScreenManager};
use crate::screens::{screen_lines_spec, screen_title_spec, Snapshot};

verus! {

/// Runs one tick: rotates when the interval has elapsed, renders the
/// then-active screen against `snapshot`, and replans the frame from
/// exactly that screen's title and lines.
pub fn run_tick(
    screen_manager: &mut ScreenManager,
    display: &mut DisplayManager,
    snapshot: &Snapshot,
    now: u64,
)
    requires
        old(screen_manager).wf(),
    ensures
        final(screen_manager).wf(),
        final(screen_manager).screens() == old(screen_manager).screens(),
        final(screen_manager).duration() == old(screen_manager).duration(),
        old(screen_manager).rotation_due(now) ==> final(screen_manager).index() == advance_index(
            old(screen_manager).index() as int,
            old(screen_manager).screens().len() as int,
        ) && final(screen_manager).last_switch() == now,
        !old(screen_manager).rotation_due(now) ==> *final(screen_manager) == *old(screen_manager),
        final(display).mux() == old(display).mux(),
        final(display).frame().title@ == screen_title_spec(
            final(screen_manager).screens()[final(screen_manager).index() as int],
            *snapshot,
        ),
        final(display).frame().title_y == TITLE_BASELINE_Y,
        final(display).frame().lines@.len() <= screen_lines_spec(
            final(screen_manager).screens()[final(screen_manager).index() as int],
            *snapshot,
        ).len(),
        forall|i: int|
            0 <= i < final(display).frame().lines@.len() ==> final(display).frame().lines@[i].text@
                == screen_lines_spec(
                final(screen_manager).screens()[final(screen_manager).index() as int],
                *snapshot,
            )[i],
        forall|i: int|
            0 <= i < final(display).frame().lines@.len() ==> final(display).frame().lines@[i].y
                == line_y(i),
        forall|i: int|
            0 <= i < screen_lines_spec(
                final(screen_manager).screens()[final(screen_manager).index() as int],
                *snapshot,
            ).len() ==> ((i < final(display).frame().lines@.len()) <==> line_fits(i)),
{
    if screen_manager.should_switch_screen(now) {
        screen_manager.next_screen(now);
    }
    let (title, content) = screen_manager.render_current_screen(snapshot);
    proof {
        assert forall|i: int|
            0 <= i < content@.len() implies content@[i]@ == content.deep_view()[i] by {
        }
        assert(content.deep_view().len() == content@.len());
    }
    display.render_content(title.as_str(), &content);
}

} // verus!
