//! The V5 Brain's screen, as addressed by the older screen interface: shapes,
//! sized text, the scrolling text console, and the drawing requests handed
//! to VEXos.

use crate::color::{rgb_word, Rgb};
use crate::display::{
    half_toward_zero, touch_code, DrawCommand, RenderCommand, RenderMode, TouchState,
    TouchStatusRaw, HEADER_HEIGHT, LINE_HEIGHT, MAX_VISIBLE_LINES,
};
use crate::geometry::{fits_i16, Point2};
use vstd::prelude::*;
use vstd::string::StringSliceAdditionalSpecFns;

verus! {

/// One line shown on the screen console.
#[derive(Debug, Clone)]
pub struct ScreenLine {
    /// Whether the screen scrolls up one line first.
    pub scroll: bool,
    /// The console line to show the text on.
    pub line: i32,
    /// The text.
    pub text: Vec<char>,
}

/// One character taken into the console whose pending text is `st.0` on
/// line `st.1`: a newline shows the pending text and starts an empty one,
/// moving down a line unless the console is at line 11, where the screen
/// scrolls first; any other character is added to the pending text.
pub open spec fn screen_step(st: (Seq<char>, nat), c: char) -> (Option<(bool, nat, Seq<char>)>, (
    Seq<char>,
    nat,
)) {
    if c == '\n' {
        if st.1 > MAX_VISIBLE_LINES - 2 {
            (Some((true, st.1, st.0)), (Seq::empty(), st.1))
        } else {
            (Some((false, st.1, st.0)), (Seq::empty(), st.1 + 1))
        }
    } else {
        (None, (st.0.push(c), st.1))
    }
}

/// The lines shown, and the console left, when `chars` are written to the
/// console `st`.
pub open spec fn screen_run(st: (Seq<char>, nat), chars: Seq<char>) -> (
    Seq<(bool, nat, Seq<char>)>,
    (Seq<char>, nat),
)
    decreases chars.len(),
{
    if chars.len() == 0 {
        (Seq::empty(), st)
    } else {
        let (shown, st2) = screen_run(st, chars.drop_last());
        let (e, st3) = screen_step(st2, chars.last());
        (
            match e {
                Some(l) => shown.push(l),
                None => shown,
            },
            st3,
        )
    }
}

/// The characters of `chars` other than newlines, in order.
pub open spec fn without_newlines(chars: Seq<char>) -> Seq<char>
    decreases chars.len(),
{
    if chars.len() == 0 {
        Seq::empty()
    } else if chars.last() == '\n' {
        without_newlines(chars.drop_last())
    } else {
        without_newlines(chars.drop_last()).push(chars.last())
    }
}

/// The text of shown lines, one after the other.
pub open spec fn shown_text(shown: Seq<(bool, nat, Seq<char>)>) -> Seq<char>
    decreases shown.len(),
{
    if shown.len() == 0 {
        Seq::empty()
    } else {
        shown_text(shown.drop_last()) + shown.last().2
    }
}

/// The screen console loses no character: the lines shown, followed by the
/// text left pending, hold the text pending before followed by every
/// character written that is not a newline. It never moves below line 11.
pub proof fn lemma_screen_keeps_text(st: (Seq<char>, nat), chars: Seq<char>)
    ensures
        shown_text(screen_run(st, chars).0) + screen_run(st, chars).1.0 == st.0 + without_newlines(
            chars,
        ),
        st.1 < MAX_VISIBLE_LINES ==> screen_run(st, chars).1.1 < MAX_VISIBLE_LINES,
    decreases chars.len(),
{
    if chars.len() == 0 {
        assert(Seq::<char>::empty() + st.0 =~= st.0);
        assert(st.0 + Seq::<char>::empty() =~= st.0);
    } else {
        let pre = chars.drop_last();
        let c = chars.last();
        lemma_screen_keeps_text(st, pre);
        let (shown, st2) = screen_run(st, pre);
        if c == '\n' {
            let l = if st2.1 > MAX_VISIBLE_LINES - 2 {
                (true, st2.1, st2.0)
            } else {
                (false, st2.1, st2.0)
            };
            assert(shown.push(l).drop_last() =~= shown);
            assert(shown_text(shown.push(l)) + Seq::<char>::empty() =~= shown_text(shown) + st2.0);
        } else {
            assert(shown_text(shown) + st2.0.push(c) =~= (shown_text(shown) + st2.0).push(c));
            assert(st.0 + without_newlines(pre).push(c) =~= (st.0 + without_newlines(pre)).push(c));
        }
    }
}

/// Errors that can occur when drawing to the screen.
#[derive(Debug, Clone, Copy, PartialEq, Eq, Structural)]
pub enum ScreenError {
    /// The buffer's length is not the region's area.
    BufferSize {
        /// The buffer's length.
        buffer_size: usize,
        /// The region's area.
        expected_size: usize,
    },
}

/// The screen of a V5 Brain.
#[derive(Debug, PartialEq, Eq)]
pub struct Screen {
    writer_buffer: Vec<char>,
    render_mode: RenderMode,
    current_line: usize,
}

impl Screen {
    /// The console never goes below line 11, and no NUL is pending.
    pub closed spec fn wf(&self) -> bool {
        &&& self.current_line < MAX_VISIBLE_LINES
        &&& !self.writer_buffer@.contains('\0')
    }

    /// The text waiting on the current console line.
    pub closed spec fn pending_spec(&self) -> Seq<char> {
        self.writer_buffer@
    }

    /// The console line text is shown on.
    pub closed spec fn current_line_spec(&self) -> nat {
        self.current_line as nat
    }

    /// The screen's render mode.
    pub closed spec fn render_mode_spec(&self) -> RenderMode {
        self.render_mode
    }

    /// Creates a handle to the screen: immediate rendering, console at line
    /// 0, nothing pending.
    ///
    /// Two handles to the screen must not be made; prefer taking it from the
    /// peripherals.
    pub fn new() -> (r: Screen)
        ensures
            r.wf(),
            r.pending_spec() == Seq::<char>::empty(),
            r.current_line_spec() == 0,
            r.render_mode_spec() == RenderMode::Immediate,
    {
        Screen { writer_buffer: Vec::new(), render_mode: RenderMode::Immediate, current_line: 0 }
    }

    /// Shows the pending text on the current line and empties it; gives the
    /// line to show.
    fn flush_writer(&mut self, scroll: bool) -> (r: ScreenLine)
        requires
            old(self).wf(),
        ensures
            final(self).wf(),
            r.scroll == scroll,
            r.line == old(self).current_line_spec(),
            r.text@ == old(self).pending_spec(),
            final(self).pending_spec() == Seq::<char>::empty(),
            final(self).current_line_spec() == old(self).current_line_spec(),
            final(self).render_mode_spec() == old(self).render_mode_spec(),
    {
        let mut text: Vec<char> = Vec::new();
        std::mem::swap(&mut text, &mut self.writer_buffer);
        ScreenLine { scroll, line: self.current_line as i32, text }
    }

    /// Writes `text` to the console; gives the lines to show, in order: one
    /// for each newline, then the pending text on the current line. Text
    /// holding a NUL character is refused by `requires`.
    pub fn write_str(&mut self, text: &str) -> (r: Vec<ScreenLine>)
        requires
            old(self).wf(),
            !text@.contains('\0'),
        ensures
            final(self).wf(),
            ({
                let (shown, st) = screen_run(
                    (old(self).pending_spec(), old(self).current_line_spec()),
                    text@,
                );
                &&& final(self).pending_spec() == st.0
                &&& final(self).current_line_spec() == st.1
                &&& r@.len() == shown.len() + 1
                &&& forall|k: int|
                    0 <= k < shown.len() ==> {
                        &&& (#[trigger] r@[k]).scroll == shown[k].0
                        &&& r@[k].line == shown[k].1
                        &&& r@[k].text@ == shown[k].2
                    }
                &&& !r@[shown.len() as int].scroll
                &&& r@[shown.len() as int].line == st.1
                &&& r@[shown.len() as int].text@ == st.0
            }),
            final(self).render_mode_spec() == old(self).render_mode_spec(),
    {
        broadcast use vstd::string::axiom_spec_iter;

        let ghost st0 = (self.writer_buffer@, self.current_line as nat);
        let mut out: Vec<ScreenLine> = Vec::new();
        for c in it: text.chars()
            invariant
                it.seq() == text@,
                !text@.contains('\0'),
                self.current_line < MAX_VISIBLE_LINES,
                !self.writer_buffer@.contains('\0'),
                self.render_mode_spec() == old(self).render_mode_spec(),
                ({
                    let (shown, st) = screen_run(st0, text@.take(it.index() as int));
                    &&& self.writer_buffer@ == st.0
                    &&& self.current_line as nat == st.1
                    &&& out@.len() == shown.len()
                    &&& forall|k: int|
                        0 <= k < shown.len() ==> {
                            &&& (#[trigger] out@[k]).scroll == shown[k].0
                            &&& out@[k].line == shown[k].1
                            &&& out@[k].text@ == shown[k].2
                        }
                }),
        {
            let ghost i = it.index() as int;
            proof {
                assert(c == text@[i]);
                assert(text@.take(i + 1).drop_last() =~= text@.take(i));
                assert(text@.take(i + 1).last() == c);
            }
            if c == '\n' {
                if self.current_line > MAX_VISIBLE_LINES - 2 {
                    let l = self.flush_writer(true);
                    out.push(l);
                } else {
                    let l = self.flush_writer(false);
                    out.push(l);
                    self.current_line = self.current_line + 1;
                }
            } else {
                let ghost before = self.writer_buffer@;
                self.writer_buffer.push(c);
                proof {
                    assert(c != '\0');
                    assert forall|j: int| 0 <= j < self.writer_buffer@.len() implies self.writer_buffer@[j]
                        != '\0' by {
                        if j < self.writer_buffer@.len() - 1 {
                            assert(self.writer_buffer@[j] == before[j]);
                        }
                    }
                }
            }
        }
        proof {
            assert(text@.take(text@.len() as int) =~= text@);
        }
        let mut last: Vec<char> = Vec::new();
        let mut j: usize = 0;
        while j < self.writer_buffer.len()
            invariant
                j <= self.writer_buffer@.len(),
                last@ == self.writer_buffer@.take(j as int),
            decreases self.writer_buffer@.len() - j,
        {
            last.push(self.writer_buffer[j]);
            j = j + 1;
            assert(last@ =~= self.writer_buffer@.take(j as int));
        }
        assert(last@ =~= self.writer_buffer@);
        out.push(ScreenLine { scroll: false, line: self.current_line as i32, text: last });
        out
    }

    /// Sets the render mode; gives the request that applies it.
    pub fn set_render_mode(&mut self, mode: RenderMode) -> (r: RenderCommand)
        requires
            old(self).wf(),
        ensures
            final(self).wf(),
            final(self).render_mode_spec() == mode,
            final(self).pending_spec() == old(self).pending_spec(),
            final(self).current_line_spec() == old(self).current_line_spec(),
            r == match mode {
                RenderMode::Immediate => RenderCommand::DisableDoubleBuffer,
                RenderMode::DoubleBuffered => (RenderCommand::Render {
                    vsync_wait: false,
                    run_scheduler: true,
                }),
            },
    {
        self.render_mode = mode;
        match mode {
            RenderMode::Immediate => RenderCommand::DisableDoubleBuffer,
            RenderMode::DoubleBuffered => RenderCommand::Render { vsync_wait: false, run_scheduler: true },
        }
    }

    /// The screen's render mode.
    pub fn render_mode(&self) -> (r: RenderMode)
        ensures
            r == self.render_mode_spec(),
    {
        self.render_mode
    }

    /// Renders the back buffer when double buffered; gives the request, or
    /// `None` in immediate mode.
    pub fn render(&mut self) -> (r: Option<RenderCommand>)
        ensures
            *final(self) == *old(self),
            r == if old(self).render_mode_spec() == RenderMode::DoubleBuffered {
                Some((RenderCommand::Render { vsync_wait: false, run_scheduler: false }))
            } else {
                None::<RenderCommand>
            },
    {
        match self.render_mode {
            RenderMode::DoubleBuffered => Some(RenderCommand::Render { vsync_wait: false, run_scheduler: false }),
            RenderMode::Immediate => None,
        }
    }

    /// Scrolls a region of the screen by `offset` pixels; gives the request.
    pub fn scroll_region(&mut self, region: Rect, offset: i16) -> (r: DrawCommand)
        requires
            fits_i16(region.start.y + HEADER_HEIGHT),
            fits_i16(region.end.y + HEADER_HEIGHT),
        ensures
            *final(self) == *old(self),
            r == (DrawCommand::ScrollRect {
                x0: region.start.x as i32,
                y0: (region.start.y + HEADER_HEIGHT) as i32,
                x1: region.end.x as i32,
                y1: (region.end.y + HEADER_HEIGHT) as i32,
                offset: offset as i32,
            }),
    {
        DrawCommand::ScrollRect {
            x0: region.start.x as i32,
            y0: (region.start.y + HEADER_HEIGHT) as i32,
            x1: region.end.x as i32,
            y1: (region.end.y + HEADER_HEIGHT) as i32,
            offset: offset as i32,
        }
    }

    /// Fills `shape` with `color`; gives the request.
    pub fn fill<S: Fill>(&mut self, shape: &S, color: Rgb) -> (r: DrawCommand)
        requires
            shape.fill_req(),
        ensures
            *final(self) == *old(self),
            r == shape.fill_spec(color),
    {
        shape.fill(self, color)
    }

    /// Outlines `shape` with `color`; gives the request.
    pub fn stroke<S: Stroke>(&mut self, shape: &S, color: Rgb) -> (r: DrawCommand)
        requires
            shape.stroke_req(),
        ensures
            *final(self) == *old(self),
            r == shape.stroke_spec(color),
    {
        shape.stroke(self, color)
    }

    /// Clears the whole screen to `color`; gives the request.
    pub fn erase(&mut self, color: Rgb) -> (r: ScreenCommand)
        ensures
            *final(self) == *old(self),
            r == (ScreenCommand::Erase { color: rgb_word(color) }),
    {
        ScreenCommand::Erase { color: color.into_raw() }
    }

    /// Draws a buffer of colors into `region` with the given source stride;
    /// gives the request, or [`ScreenError::BufferSize`] when the buffer's
    /// length is not the region's area.
    ///
    /// The region spans from its start to its end corner, both moved down
    /// below the header. Regions whose width or height do not fit an `i16`,
    /// whose corners moved below the header do not fit an `i16`, or whose
    /// area overflows 32 bits, are refused by `requires`.
    pub fn draw_buffer(&mut self, region: Rect, buf: &[Rgb], src_stride: i32) -> (r: Result<
        DrawCommand,
        ScreenError,
    >)
        requires
            fits_i16(region.end.x - region.start.x),
            fits_i16(region.end.y - region.start.y),
            fits_i16(region.start.y + HEADER_HEIGHT),
            fits_i16(region.end.y + HEADER_HEIGHT),
            screen_area(region) <= u32::MAX,
        ensures
            *final(self) == *old(self),
            match r {
                Ok(c) => buf@.len() == screen_area(region) && (c matches DrawCommand::CopyRect {
                    x0,
                    y0,
                    x1,
                    y1,
                    pixels,
                    stride,
                } && x0 == region.start.x && y0 == region.start.y + HEADER_HEIGHT && x1
                    == region.end.x && y1 == region.end.y + HEADER_HEIGHT && stride == src_stride
                    && pixels@ == buf@.map_values(|p: Rgb| rgb_word(p))),
                Err(e) => buf@.len() != screen_area(region) && e == (ScreenError::BufferSize {
                    buffer_size: buf@.len() as usize,
                    expected_size: screen_area(region) as usize,
                }),
            },
    {
        let mut pixels: Vec<u32> = Vec::new();
        let mut i: usize = 0;
        while i < buf.len()
            invariant
                i <= buf@.len(),
                pixels@ == buf@.take(i as int).map_values(|p: Rgb| rgb_word(p)),
            decreases buf@.len() - i,
        {
            pixels.push(buf[i].into_raw());
            i = i + 1;
            assert(pixels@ =~= buf@.take(i as int).map_values(|p: Rgb| rgb_word(p)));
        }
        assert(buf@.take(buf@.len() as int) =~= buf@);
        let w: u32 = (region.end.x - region.start.x) as u32;
        let h: u32 = (region.end.y - region.start.y) as u32;
        let expected_size = (w * h) as usize;
        if pixels.len() != expected_size {
            return Err(ScreenError::BufferSize { buffer_size: pixels.len(), expected_size });
        }
        Ok(
            DrawCommand::CopyRect {
                x0: region.start.x as i32,
                y0: (region.start.y + HEADER_HEIGHT) as i32,
                x1: region.end.x as i32,
                y1: (region.end.y + HEADER_HEIGHT) as i32,
                pixels,
                stride: src_stride,
            },
        )
    }

    /// The state of the touchscreen, read from the status VEXos reports.
    pub fn touch_status(&self, raw: TouchStatusRaw) -> (r: TouchEvent)
        requires
            raw.last_event < 3,
        ensures
            touch_code(r.state) == raw.last_event,
            r.x == raw.last_x,
            r.y == raw.last_y,
            r.press_count == raw.press_count,
            r.release_count == raw.release_count,
    {
        TouchEvent {
            state: TouchState::from_raw(raw.last_event),
            x: raw.last_x,
            y: raw.last_y,
            press_count: raw.press_count,
            release_count: raw.release_count,
        }
    }
}

/// The number of pixels a region spans, as the screen computes it: the width
/// and height are each taken as 32-bit unsigned numbers.
pub open spec fn screen_area(region: Rect) -> int {
    ((region.end.x - region.start.x) as i16 as u32) * ((region.end.y - region.start.y) as i16 as u32)
}

/// A request to the screen that is not a shape.
#[derive(Debug, Clone, PartialEq, Eq)]
pub enum ScreenCommand {
    /// Clear the screen to a color.
    Erase {
        /// The color, as a `0x00RRGGBB` word.
        color: u32,
    },
    /// Print text at a size.
    Text {
        /// The x coordinate.
        x: i32,
        /// The y coordinate, on screen.
        y: i32,
        /// The color, as a `0x00RRGGBB` word.
        color: u32,
        /// The text size.
        size: TextSize,
        /// The text's bytes.
        text: Vec<u8>,
    },
}

/// A touch on the screen.
#[derive(Debug, Clone, Copy, PartialEq, Eq, Structural)]
pub struct TouchEvent {
    /// What happened.
    pub state: TouchState,
    /// The x coordinate.
    pub x: i16,
    /// The y coordinate.
    pub y: i16,
    /// How many presses happened.
    pub press_count: i32,
    /// How many releases happened.
    pub release_count: i32,
}

/// The size of text drawn on the screen.
#[derive(Debug, Clone, Copy, PartialEq, Eq, Structural)]
pub enum TextSize {
    /// Small text.
    Small,
    /// Medium text.
    Medium,
    /// Large text.
    Large,
}

/// A piece of sized text at a position.
#[derive(Debug, Clone, PartialEq, Eq)]
pub struct Text {
    /// The top left corner of the text.
    pub position: Point2<i16>,
    /// The text's bytes, without a NUL.
    pub text: Vec<u8>,
    /// The text's size.
    pub size: TextSize,
}

impl Text {
    /// Creates text. Text holding a NUL character is refused by `requires`.
    pub fn new(text: &str, size: TextSize, position: Point2<i16>) -> (r: Text)
        requires
            !text.spec_bytes().contains(0u8),
        ensures
            r.text@ == text.spec_bytes(),
            r.size == size,
            r.position == position,
    {
        let bytes = text.as_bytes();
        let mut out: Vec<u8> = Vec::new();
        let mut i: usize = 0;
        while i < bytes.len()
            invariant
                i <= bytes@.len(),
                out@ == bytes@.take(i as int),
            decreases bytes@.len() - i,
        {
            out.push(bytes[i]);
            i = i + 1;
            assert(out@ =~= bytes@.take(i as int));
        }
        assert(bytes@.take(i as int) =~= bytes@);
        Text { position, text: out, size }
    }

    /// Draws the text in `color`; gives the request. A position that leaves
    /// the `i16` range once shifted past the header is refused by `requires`.
    pub fn fill(&self, screen: &mut Screen, color: Rgb) -> (r: ScreenCommand)
        requires
            fits_i16(self.position.y + HEADER_HEIGHT),
        ensures
            *final(screen) == *old(screen),
            r matches ScreenCommand::Text { x, y, color: c, size, text } && x == self.position.x
                && y == self.position.y + HEADER_HEIGHT && c == rgb_word(color) && size == self.size
                && text@ == self.text@,
    {
        ScreenCommand::Text {
            x: self.position.x as i32,
            y: (self.position.y + HEADER_HEIGHT) as i32,
            color: color.into_raw(),
            size: self.size,
            text: self.text.clone(),
        }
    }
}

/// A shape that can be drawn filled.
pub trait Fill {
    /// Whether the shape's coordinates stay within range once shifted past the
    /// header.
    spec fn fill_req(&self) -> bool;

    /// The request that fills the shape with `color`.
    spec fn fill_spec(&self, color: Rgb) -> DrawCommand;

    /// Fills the shape with `color`; gives the request.
    fn fill(&self, screen: &mut Screen, color: Rgb) -> (r: DrawCommand)
        requires
            self.fill_req(),
        ensures
            *final(screen) == *old(screen),
            r == self.fill_spec(color),
    ;
}

/// A shape that can be drawn outlined.
pub trait Stroke {
    /// Whether the shape's coordinates stay within range once shifted past the
    /// header.
    spec fn stroke_req(&self) -> bool;

    /// The request that outlines the shape with `color`.
    spec fn stroke_spec(&self, color: Rgb) -> DrawCommand;

    /// Outlines the shape with `color`; gives the request.
    fn stroke(&self, screen: &mut Screen, color: Rgb) -> (r: DrawCommand)
        requires
            self.stroke_req(),
        ensures
            *final(screen) == *old(screen),
            r == self.stroke_spec(color),
    ;
}

/// A circle.
#[derive(Debug, Clone, Copy, PartialEq, Eq, Structural)]
pub struct Circle {
    /// The center.
    pub center: Point2<i16>,
    /// The radius, in pixels.
    pub radius: u16,
}

impl Circle {
    /// Creates a circle from its center and radius.
    pub fn new(center: Point2<i16>, radius: u16) -> (r: Circle)
        ensures
            r == (Circle { center, radius }),
    {
        Circle { center, radius }
    }
}

impl Fill for Circle {
    open spec fn fill_req(&self) -> bool {
        fits_i16(self.center.y + HEADER_HEIGHT)
    }

    open spec fn fill_spec(&self, color: Rgb) -> DrawCommand {
        DrawCommand::CircleFill {
            x: self.center.x as i32,
            y: (self.center.y + HEADER_HEIGHT) as i32,
            radius: self.radius as i32,
            color: rgb_word(color),
        }
    }

    fn fill(&self, screen: &mut Screen, color: Rgb) -> (r: DrawCommand) {
        DrawCommand::CircleFill {
            x: self.center.x as i32,
            y: (self.center.y + HEADER_HEIGHT) as i32,
            radius: self.radius as i32,
            color: color.into_raw(),
        }
    }
}

impl Stroke for Circle {
    open spec fn stroke_req(&self) -> bool {
        fits_i16(self.center.y + HEADER_HEIGHT)
    }

    open spec fn stroke_spec(&self, color: Rgb) -> DrawCommand {
        DrawCommand::CircleDraw {
            x: self.center.x as i32,
            y: (self.center.y + HEADER_HEIGHT) as i32,
            radius: self.radius as i32,
            color: rgb_word(color),
        }
    }

    fn stroke(&self, screen: &mut Screen, color: Rgb) -> (r: DrawCommand) {
        DrawCommand::CircleDraw {
            x: self.center.x as i32,
            y: (self.center.y + HEADER_HEIGHT) as i32,
            radius: self.radius as i32,
            color: color.into_raw(),
        }
    }
}

/// A line segment.
#[derive(Debug, Clone, Copy, PartialEq, Eq, Structural)]
pub struct Line {
    /// The start point.
    pub start: Point2<i16>,
    /// The end point.
    pub end: Point2<i16>,
}

impl Line {
    /// Creates a line from its end points.
    pub fn new(start: Point2<i16>, end: Point2<i16>) -> (r: Line)
        ensures
            r == (Line { start, end }),
    {
        Line { start, end }
    }
}

impl Fill for Line {
    open spec fn fill_req(&self) -> bool {
        fits_i16(self.start.y + HEADER_HEIGHT) && fits_i16(self.end.y + HEADER_HEIGHT)
    }

    open spec fn fill_spec(&self, color: Rgb) -> DrawCommand {
        DrawCommand::LineDraw {
            x0: self.start.x as i32,
            y0: (self.start.y + HEADER_HEIGHT) as i32,
            x1: self.end.x as i32,
            y1: (self.end.y + HEADER_HEIGHT) as i32,
            color: rgb_word(color),
        }
    }

    fn fill(&self, screen: &mut Screen, color: Rgb) -> (r: DrawCommand) {
        DrawCommand::LineDraw {
            x0: self.start.x as i32,
            y0: (self.start.y + HEADER_HEIGHT) as i32,
            x1: self.end.x as i32,
            y1: (self.end.y + HEADER_HEIGHT) as i32,
            color: color.into_raw(),
        }
    }
}

impl Fill for Point2<i16> {
    open spec fn fill_req(&self) -> bool {
        fits_i16(self.y + HEADER_HEIGHT)
    }

    open spec fn fill_spec(&self, color: Rgb) -> DrawCommand {
        DrawCommand::PixelSet {
            x: self.x as i32,
            y: (self.y + HEADER_HEIGHT) as i32,
            color: rgb_word(color),
        }
    }

    fn fill(&self, screen: &mut Screen, color: Rgb) -> (r: DrawCommand) {
        DrawCommand::PixelSet {
            x: self.x as i32,
            y: (self.y + HEADER_HEIGHT) as i32,
            color: color.into_raw(),
        }
    }
}

/// A rectangle between two corners. Both corners are drawn, so a rectangle
/// covers `(1 + end.x - start.x) * (1 + end.y - start.y)` pixels.
#[derive(Debug, Clone, Copy, PartialEq, Eq, Structural)]
pub struct Rect {
    /// The top left corner.
    pub start: Point2<i16>,
    /// The bottom right corner.
    pub end: Point2<i16>,
}

impl Rect {
    /// Creates a rectangle from two corners.
    pub fn new(start: Point2<i16>, end: Point2<i16>) -> (r: Rect)
        ensures
            r == (Rect { start, end }),
    {
        Rect { start, end }
    }

    /// Creates a rectangle from its top left corner and its size, so that it
    /// covers `width` by `height` pixels: its far corner is the last pixel
    /// covered. Each size is taken as an `i16`. Sizes whose far corner does
    /// not fit an `i16` are refused by `requires`.
    pub fn from_dimensions(origin: Point2<i16>, width: u16, height: u16) -> (r: Rect)
        requires
            fits_i16(origin.x + (width as i16) - 1),
            fits_i16(origin.y + (height as i16) - 1),
        ensures
            r.start == origin,
            r.end.x == origin.x + (width as i16) - 1,
            r.end.y == origin.y + (height as i16) - 1,
    {
        Rect {
            start: origin,
            end: Point2 {
                x: (origin.x as i32 + (width as i16) as i32 - 1) as i16,
                y: (origin.y as i32 + (height as i16) as i32 - 1) as i16,
            },
        }
    }

    /// Creates a rectangle centered on `center` with the given size: its top
    /// left corner is half the size (rounded toward zero) up and left of the
    /// center. Sizes whose corners do not fit an `i16` are refused by
    /// `requires`.
    pub fn from_dimensions_centered(center: Point2<i16>, width: u16, height: u16) -> (r: Rect)
        requires
            fits_i16(center.x - half_toward_zero(width as i16)),
            fits_i16(center.y - half_toward_zero(height as i16)),
            fits_i16(center.x - half_toward_zero(width as i16) + (width as i16) - 1),
            fits_i16(center.y - half_toward_zero(height as i16) + (height as i16) - 1),
        ensures
            r.start.x == center.x - half_toward_zero(width as i16),
            r.start.y == center.y - half_toward_zero(height as i16),
            r.end.x == r.start.x + (width as i16) - 1,
            r.end.y == r.start.y + (height as i16) - 1,
    {
        let hw = crate::display::halve(width as i16);
        let hh = crate::display::halve(height as i16);
        Rect::from_dimensions(Point2 { x: center.x - hw, y: center.y - hh }, width, height)
    }
}

impl Fill for Rect {
    open spec fn fill_req(&self) -> bool {
        fits_i16(self.start.y + HEADER_HEIGHT) && fits_i16(self.end.y + HEADER_HEIGHT)
    }

    open spec fn fill_spec(&self, color: Rgb) -> DrawCommand {
        DrawCommand::RectFill {
            x0: self.start.x as i32,
            y0: (self.start.y + HEADER_HEIGHT) as i32,
            x1: self.end.x as i32,
            y1: (self.end.y + HEADER_HEIGHT) as i32,
            color: rgb_word(color),
        }
    }

    fn fill(&self, screen: &mut Screen, color: Rgb) -> (r: DrawCommand) {
        DrawCommand::RectFill {
            x0: self.start.x as i32,
            y0: (self.start.y + HEADER_HEIGHT) as i32,
            x1: self.end.x as i32,
            y1: (self.end.y + HEADER_HEIGHT) as i32,
            color: color.into_raw(),
        }
    }
}

impl Stroke for Rect {
    open spec fn stroke_req(&self) -> bool {
        fits_i16(self.start.y + HEADER_HEIGHT) && fits_i16(self.end.y + HEADER_HEIGHT)
    }

    open spec fn stroke_spec(&self, color: Rgb) -> DrawCommand {
        DrawCommand::RectDraw {
            x0: self.start.x as i32,
            y0: (self.start.y + HEADER_HEIGHT) as i32,
            x1: self.end.x as i32,
            y1: (self.end.y + HEADER_HEIGHT) as i32,
            color: rgb_word(color),
        }
    }

    fn stroke(&self, screen: &mut Screen, color: Rgb) -> (r: DrawCommand) {
        DrawCommand::RectDraw {
            x0: self.start.x as i32,
            y0: (self.start.y + HEADER_HEIGHT) as i32,
            x1: self.end.x as i32,
            y1: (self.end.y + HEADER_HEIGHT) as i32,
            color: color.into_raw(),
        }
    }
}

/// Every shape is drawn at its own coordinates with each `y` moved down by
/// the header's height and `x` unchanged: a line from its start to its end,
/// a rectangle between its two corners (filled or outlined), a circle about
/// its center with its radius, a pixel at its point; each in the color
/// given.
pub proof fn lemma_shapes_drawn_below_header(line: Line, rect: Rect, circle: Circle, p: Point2<i16>, c: Rgb)
    ensures
        line.fill_spec(c) matches DrawCommand::LineDraw { x0, y0, x1, y1, color } && x0 == line.start.x
            && y0 == line.start.y + HEADER_HEIGHT && x1 == line.end.x && y1 == line.end.y
            + HEADER_HEIGHT && color == rgb_word(c),
        rect.fill_spec(c) matches DrawCommand::RectFill { x0, y0, x1, y1, color } && x0 == rect.start.x
            && y0 == rect.start.y + HEADER_HEIGHT && x1 == rect.end.x && y1 == rect.end.y
            + HEADER_HEIGHT && color == rgb_word(c),
        rect.stroke_spec(c) matches DrawCommand::RectDraw { x0, y0, x1, y1, color } && x0
            == rect.start.x && y0 == rect.start.y + HEADER_HEIGHT && x1 == rect.end.x && y1
            == rect.end.y + HEADER_HEIGHT && color == rgb_word(c),
        circle.fill_spec(c) matches DrawCommand::CircleFill { x, y, radius, color } && x
            == circle.center.x && y == circle.center.y + HEADER_HEIGHT && radius == circle.radius
            && color == rgb_word(c),
        circle.stroke_spec(c) matches DrawCommand::CircleDraw { x, y, radius, color } && x
            == circle.center.x && y == circle.center.y + HEADER_HEIGHT && radius == circle.radius
            && color == rgb_word(c),
        p.fill_spec(c) matches DrawCommand::PixelSet { x, y, color } && x == p.x && y == p.y
            + HEADER_HEIGHT && color == rgb_word(c),
{
}

} // verus!
