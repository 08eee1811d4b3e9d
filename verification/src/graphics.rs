//! Graphics on the brain: a drawing target that keeps a full frame of pixels
//! for the screen, and the touch handling of a UI platform on the brain's
//! display, turning touchscreen reports into pointer events.

use crate::color::{rgb_word, Rgb};
use crate::display::{DrawCommand, RenderCommand, RenderMode, Display, TouchEvent, TouchState};
use crate::screen::Screen;
use vstd::prelude::*;

verus! {

/// A pointer event for a UI toolkit, at a position in pixels.
#[derive(Debug, Clone, Copy, PartialEq, Eq, Structural)]
pub enum PointerEvent {
    /// The primary button was pressed.
    Pressed { x: i16, y: i16 },
    /// The primary button was released.
    Released { x: i16, y: i16 },
    /// The pointer moved.
    Moved { x: i16, y: i16 },
}

/// The pointer event a touch report gives, and whether the screen counts as
/// pressed afterwards, when it counted as `pressed` before.
pub open spec fn pointer_step(pressed: bool, e: TouchEvent) -> (PointerEvent, bool) {
    let x = e.point.x;
    let y = e.point.y;
    match e.state {
        TouchState::Released => (PointerEvent::Released { x, y }, false),
        TouchState::Pressed => if pressed {
            (PointerEvent::Moved { x, y }, true)
        } else {
            (PointerEvent::Pressed { x, y }, true)
        },
        TouchState::Held => (PointerEvent::Moved { x, y }, pressed),
    }
}

/// The screen's width in pixels.
pub const SCREEN_WIDTH: usize = 480usize;

/// The screen's height in pixels.
pub const SCREEN_HEIGHT: usize = 240usize;

/// The number of pixels in a frame.
pub const FRAME_LEN: usize = 115200usize;

/// The frame index of pixel (`x`, `y`): rows of the screen's width, top
/// first.
pub open spec fn pixel_index(x: i32, y: i32) -> int {
    y * (SCREEN_WIDTH as int) + x
}

/// Whether pixel (`x`, `y`) lands in the frame.
pub open spec fn pixel_in_frame(p: (i32, i32, Rgb)) -> bool {
    0 <= p.0 && 0 <= p.1 && pixel_index(p.0, p.1) < FRAME_LEN
}

/// The frame after painting `pixels` onto `frame`, in order: a later pixel at
/// the same place wins.
pub open spec fn painted(frame: Seq<u32>, pixels: Seq<(i32, i32, Rgb)>) -> Seq<u32>
    decreases pixels.len(),
{
    if pixels.len() == 0 {
        frame
    } else {
        let p = pixels.last();
        painted(frame, pixels.drop_last()).update(pixel_index(p.0, p.1), rgb_word(p.2))
    }
}

/// A drawing target on the brain's screen. It keeps a whole frame of pixels;
/// each batch of pixels is painted into the frame, which is then copied to
/// the screen and rendered.
pub struct BrainDisplay {
    screen: Screen,
    triple_buffer: Vec<u32>,
}

impl BrainDisplay {
    /// The frame the target keeps.
    pub closed spec fn frame_spec(&self) -> Seq<u32> {
        self.triple_buffer@
    }

    /// The screen's render mode.
    pub closed spec fn render_mode_spec(&self) -> RenderMode {
        self.screen.render_mode_spec()
    }

    /// Whether the target's screen is sound and its frame whole.
    pub closed spec fn wf(&self) -> bool {
        &&& self.screen.wf()
        &&& self.triple_buffer@.len() == FRAME_LEN
    }

    /// Creates a target on `screen`, switched to double buffering, with a
    /// black frame; gives the request that switches the screen.
    pub fn new(screen: Screen) -> (r: (BrainDisplay, RenderCommand))
        requires
            screen.wf(),
        ensures
            r.0.wf(),
            r.0.render_mode_spec() == RenderMode::DoubleBuffered,
            r.0.frame_spec() == Seq::new(FRAME_LEN as nat, |i: int| 0u32),
            r.1 == (RenderCommand::Render { vsync_wait: false, run_scheduler: true }),
    {
        let mut screen = screen;
        let c = screen.set_render_mode(RenderMode::DoubleBuffered);
        let buf: Vec<u32> = vec![0u32; FRAME_LEN];
        let r = BrainDisplay { screen, triple_buffer: buf };
        assert(r.frame_spec() =~= Seq::new(FRAME_LEN as nat, |i: int| 0u32));
        (r, c)
    }

    /// Paints `pixels` into the frame, in order; gives the request that
    /// copies the whole frame to the screen, and the request that renders it.
    ///
    /// Pixels that land outside the frame are refused by `requires`.
    pub fn draw_pixels(&mut self, pixels: &[(i32, i32, Rgb)]) -> (r: (DrawCommand, Option<RenderCommand>))
        requires
            old(self).wf(),
            forall|i: int| 0 <= i < pixels@.len() ==> pixel_in_frame(#[trigger] pixels@[i]),
        ensures
            final(self).wf(),
            final(self).render_mode_spec() == old(self).render_mode_spec(),
            final(self).frame_spec() == painted(old(self).frame_spec(), pixels@),
            r.0 matches DrawCommand::CopyRect { x0, y0, x1, y1, pixels: copied, stride } && x0 == 0 && y0
                == 32 && x1 == 480 && y1 == 240 && stride == 480 && copied@ == painted(
                old(self).frame_spec(),
                pixels@,
            ),
            r.1 == if old(self).render_mode_spec() == RenderMode::DoubleBuffered {
                Some((RenderCommand::Render { vsync_wait: false, run_scheduler: false }))
            } else {
                None::<RenderCommand>
            },
    {
        let mut i: usize = 0;
        while i < pixels.len()
            invariant
                i <= pixels@.len(),
                self.screen == old(self).screen,
                self.triple_buffer@.len() == FRAME_LEN,
                forall|j: int| 0 <= j < pixels@.len() ==> pixel_in_frame(#[trigger] pixels@[j]),
                self.triple_buffer@ == painted(old(self).frame_spec(), pixels@.take(i as int)),
            decreases pixels@.len() - i,
        {
            let (x, y, c) = pixels[i];
            assert(pixel_in_frame(pixels@[i as int]));
            let idx: usize = (y as usize) * SCREEN_WIDTH + (x as usize);
            proof {
                assert(pixels@.take(i + 1).drop_last() =~= pixels@.take(i as int));
                assert(pixels@.take(i + 1).last() == pixels@[i as int]);
            }
            self.triple_buffer.set(idx, c.into_raw());
            i = i + 1;
        }
        assert(pixels@.take(pixels@.len() as int) =~= pixels@);
        let copied = self.triple_buffer.clone();
        assert(copied@ =~= self.triple_buffer@);
        let copy = DrawCommand::CopyRect { x0: 0, y0: 32, x1: 480, y1: 240, pixels: copied, stride: 480 };
        let render = self.screen.render();
        (copy, render)
    }
}

/// A UI platform on the brain's display.
#[derive(Debug)]
pub struct V5Platform {
    start: u64,
    display: Display,
    display_pressed: bool,
}

impl V5Platform {
    /// The time, in microseconds, the platform was created at.
    pub closed spec fn start_spec(&self) -> u64 {
        self.start
    }

    /// Whether the screen counts as pressed.
    pub closed spec fn pressed_spec(&self) -> bool {
        self.display_pressed
    }

    /// Creates a platform on `display`, created at time `start` (in
    /// microseconds), with the screen not pressed.
    pub fn new(display: Display, start: u64) -> (r: V5Platform)
        ensures
            r.start_spec() == start,
            !r.pressed_spec(),
    {
        V5Platform { start, display, display_pressed: false }
    }

    /// The time, in microseconds, the platform was created at.
    pub fn start(&self) -> (r: u64)
        ensures
            r == self.start_spec(),
    {
        self.start
    }

    /// Turns a touchscreen report into a pointer event: a press is a pointer
    /// press the first time and a move while the screen stays pressed, a
    /// held touch is a move, and a release is a release.
    pub fn touch_event(&mut self, event: TouchEvent) -> (r: PointerEvent)
        ensures
            (r, final(self).pressed_spec()) == pointer_step(old(self).pressed_spec(), event),
            final(self).start_spec() == old(self).start_spec(),
    {
        let x = event.point.x;
        let y = event.point.y;
        match event.state {
            TouchState::Released => {
                self.display_pressed = false;
                PointerEvent::Released { x, y }
            },
            TouchState::Pressed => {
                let was = self.display_pressed;
                self.display_pressed = true;
                if was {
                    PointerEvent::Moved { x, y }
                } else {
                    PointerEvent::Pressed { x, y }
                }
            },
            TouchState::Held => PointerEvent::Moved { x, y },
        }
    }
}

/// A press is reported as a pointer press only once: a second press report
/// in a row is a move.
pub proof fn lemma_press_reported_once(pressed: bool, e1: TouchEvent, e2: TouchEvent)
    requires
        e1.state == TouchState::Pressed,
        e2.state == TouchState::Pressed,
    ensures
        pointer_step(pointer_step(pressed, e1).1, e2).0 is Moved,
{
}

} // verus!
