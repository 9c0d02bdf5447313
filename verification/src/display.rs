//! The display driver's planning half: a fixed 128 by 64 geometry, the
//! routing decision for a display behind the channel multiplexer, and
//! the frame planner. A frame is rebuilt from nothing on every render,
//! so no stale content survives from one frame to the next; a content
//! line whose vertical position would leave the panel is omitted whole.
//! The hardware session that draws and transmits a planned frame lives
//! outside the library.

use vstd::prelude::*;
use vstd::string::*;
use crate::tca9548a::{BusWrite, MuxError, Tca9548a};

verus! {

/// Panel width in pixels.
pub const DISPLAY_WIDTH: i32 = 128;

/// Panel height in pixels.
pub const DISPLAY_HEIGHT: i32 = 64;

/// Baseline of the bold title row.
pub const TITLE_BASELINE_Y: i32 = 12;

/// Baseline of the first content line.
pub const CONTENT_START_Y: i32 = 25;

/// Vertical pitch between content lines.
pub const LINE_PITCH: i32 = 12;

/// Baseline of content line `i`.
pub open spec fn line_y(i: int) -> int {
    CONTENT_START_Y + LINE_PITCH * i
}

/// Does content line `i` lie inside the panel?
pub open spec fn line_fits(i: int) -> bool {
    line_y(i) < DISPLAY_HEIGHT
}

/// One planned line of text: what to draw and the baseline to draw it
/// at.
pub struct TextLine {
    pub text: String,
    pub y: i32,
}

/// A planned frame: the bold title at its fixed baseline and the
/// content lines that fit the panel.
pub struct FramePlan {
    pub title: String,
    pub title_y: i32,
    pub lines: Vec<TextLine>,
}

/// Owns the frame plan, and the multiplexer when the display sits
/// behind one.
pub struct DisplayManager {
    frame: FramePlan,
    mux: Option<Tca9548a>,
}

impl DisplayManager {
    /// The current frame plan.
    pub closed spec fn frame(self) -> FramePlan {
        self.frame
    }

    /// The multiplexer bound to the display's bus, when one is used.
    pub closed spec fn mux(self) -> Option<Tca9548a> {
        self.mux
    }

    /// Prepares a display session. With the multiplexer enabled this
    /// selects the requested channel — recording exactly the one
    /// select transaction for the bus owner to issue — and fails with
    /// `InvalidChannel` for a channel over 7; without it no bus routing
    /// is touched. The frame starts empty.
    pub fn new(use_multiplexer: bool, mux_channel: u8, mux_address: u8) -> (r: Result<
        Self,
        MuxError,
    >)
        ensures
            use_multiplexer && mux_channel <= 7 ==> (r matches Ok(m) && m.mux() matches Some(t)
                && t.addr() == mux_address && t.selected() == Some(mux_channel) && t.writes()
                =~= seq![(BusWrite { address: mux_address, byte: 1u8 << mux_channel })]),
            use_multiplexer && mux_channel > 7 ==> r == Result::<Self, MuxError>::Err(
                MuxError::InvalidChannel(mux_channel),
            ),
            !use_multiplexer ==> (r matches Ok(m) && m.mux() is None),
            r matches Ok(m) ==> m.frame().title@ == Seq::<char>::empty() && m.frame().lines@.len()
                == 0 && m.frame().title_y == TITLE_BASELINE_Y,
    {
        let frame = FramePlan { title: String::new(), title_y: TITLE_BASELINE_Y, lines: Vec::new() };
        if use_multiplexer {
            let mut mux = Tca9548a::with_address(mux_address);
            match mux.select_channel(mux_channel) {
                Ok(_) => Ok(DisplayManager { frame, mux: Some(mux) }),
                Err(e) => Err(e),
            }
        } else {
            Ok(DisplayManager { frame, mux: None })
        }
    }

    /// The bus routing step of the one-shot clear-and-exit path: the
    /// select transaction to issue before clearing a display behind the
    /// multiplexer, `None` for a directly attached display, and
    /// `InvalidChannel` for a channel over 7.
    pub fn clear_display(use_multiplexer: bool, mux_channel: u8, mux_address: u8) -> (r: Result<
        Option<BusWrite>,
        MuxError,
    >)
        ensures
            use_multiplexer && mux_channel <= 7 ==> r == Result::<Option<BusWrite>, MuxError>::Ok(
                Some((BusWrite { address: mux_address, byte: 1u8 << mux_channel })),
            ),
            use_multiplexer && mux_channel > 7 ==> r == Result::<Option<BusWrite>, MuxError>::Err(
                MuxError::InvalidChannel(mux_channel),
            ),
            !use_multiplexer ==> r == Result::<Option<BusWrite>, MuxError>::Ok(
                None::<BusWrite>,
            ),
    {
        if use_multiplexer {
            let mut mux = Tca9548a::with_address(mux_address);
            match mux.select_channel(mux_channel) {
                Ok(_) => {
                    let writes = mux.take_issued_writes();
                    Ok(Some(writes[0]))
                },
                Err(e) => Err(e),
            }
        } else {
            Ok(None)
        }
    }

    /// Plans a frame: the title at its fixed baseline, then the content
    /// lines at a fixed pitch, keeping exactly those whose baseline
    /// lies inside the panel. Every kept line is whole, and the plan
    /// depends on nothing but the arguments: the previous frame is
    /// gone.
    pub fn render_content(&mut self, title: &str, content: &Vec<String>)
        ensures
            final(self).frame().title@ == title@,
            final(self).frame().title_y == TITLE_BASELINE_Y,
            final(self).frame().lines@.len() <= content@.len(),
            forall|i: int|
                0 <= i < final(self).frame().lines@.len() ==> final(self).frame().lines@[i].text@
                    == content@[i]@,
            forall|i: int|
                0 <= i < final(self).frame().lines@.len() ==> final(self).frame().lines@[i].y
                    == line_y(i),
            forall|i: int|
                0 <= i < content@.len() ==> ((i < final(self).frame().lines@.len()) <==> line_fits(
                    i,
                )),
            final(self).mux() == old(self).mux(),
    {
        // Exactly four content baselines lie under the panel height:
        // 25 + 12 * i < 64 holds for i up to 3 and fails from 4 on.
        let kept: usize = if content.len() < 4 {
            content.len()
        } else {
            4
        };
        let mut lines: Vec<TextLine> = Vec::new();
        let mut i: usize = 0;
        while i < kept
            invariant
                0 <= i <= kept,
                kept == (if content@.len() < 4 {
                    content@.len() as int
                } else {
                    4
                }),
                lines@.len() == i,
                forall|j: int| 0 <= j < i ==> lines@[j].text@ == content@[j]@,
                forall|j: int| 0 <= j < i ==> lines@[j].y == line_y(j),
            decreases kept - i,
        {
            let y: i32 = CONTENT_START_Y + LINE_PITCH * (i as i32);
            let text = content[i].as_str().to_owned();
            lines.push(TextLine { text, y });
            i += 1;
        }
        self.frame = FramePlan { title: title.to_owned(), title_y: TITLE_BASELINE_Y, lines };
    }

    /// The planned frame, for the session that draws it.
    pub fn current_frame(&self) -> (r: &FramePlan)
        ensures
            *r == self.frame(),
    {
        &self.frame
    }

    /// Hands over the control transactions the multiplexer has recorded
    /// and not yet seen issued, oldest first; the bus owner performs
    /// them in order.
    pub fn take_pending_bus_writes(&mut self) -> (r: Vec<BusWrite>)
        ensures
            old(self).mux() matches Some(t) ==> r@ == t.writes(),
            old(self).mux() is None ==> r@ == Seq::<BusWrite>::empty(),
            final(self).mux() matches Some(t2) ==> old(self).mux() matches Some(t) && t2.addr()
                == t.addr() && t2.selected() == t.selected() && t2.writes()
                == Seq::<BusWrite>::empty(),
            final(self).mux() is None <==> old(self).mux() is None,
            final(self).frame() == old(self).frame(),
    {
        let mut taken: Option<Tca9548a> = None;
        core::mem::swap(&mut taken, &mut self.mux);
        match taken {
            Some(mut m) => {
                let writes = m.take_issued_writes();
                self.mux = Some(m);
                writes
            },
            None => Vec::new(),
        }
    }
}

} // verus!
