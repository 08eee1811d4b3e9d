//! The V5 Brain's display: shapes, text, the scrolling text console, and the
//! drawing requests handed to VEXos.
//!
//! Drawing functions here give back a [`DrawCommand`] that describes exactly
//! what VEXos is asked to draw; coordinates in commands are screen
//! coordinates, which are shifted down past the program header.

use crate::color::{rgb_word, Rgb};
use crate::geometry::{fits_i16, Point2};
use vstd::prelude::*;
use vstd::string::StringSliceAdditionalSpecFns;

verus! {

/// The most lines of console text visible at once.
pub const MAX_VISIBLE_LINES: usize = 12usize;

/// The height of one console line, in pixels.
pub const LINE_HEIGHT: i16 = 20i16;

/// The number of characters in one console line.
pub const LINE_LENGTH: usize = 20usize;

/// The height of the program header, in pixels.
pub const HEADER_HEIGHT: i16 = 32i16;

/// The display's width, in pixels.
pub const HORIZONTAL_RESOLUTION: i16 = 480i16;

/// The display's height below the header, in pixels.
pub const VERTICAL_RESOLUTION: i16 = 240i16;

/// The byte of a newline.
pub const NEWLINE: u8 = 10u8;

/// The byte a character is shown as on the console: ASCII characters other
/// than NUL stand for themselves, every other character is `?`.
pub open spec fn console_byte(c: char) -> u8 {
    if 1 <= (c as u32) <= 127 {
        (c as u32) as u8
    } else {
        63u8
    }
}

/// One console byte taken into a line holding `content`: a full line, or a
/// newline, first hands the line over (with a NUL terminator) and starts an
/// empty one; any byte but a newline is then added.
pub open spec fn line_step(content: Seq<u8>, b: u8) -> (Option<Seq<u8>>, Seq<u8>) {
    let flush = content.len() == LINE_LENGTH || b == NEWLINE;
    let emitted = if flush {
        Some(content.push(0u8))
    } else {
        None
    };
    let kept = if flush {
        Seq::<u8>::empty()
    } else {
        content
    };
    (emitted, if b != NEWLINE {
        kept.push(b)
    } else {
        kept
    })
}

/// The lines handed over, and the line left, when `bytes` are taken into a
/// line holding `content`.
pub open spec fn line_run(content: Seq<u8>, bytes: Seq<u8>) -> (Seq<Seq<u8>>, Seq<u8>)
    decreases bytes.len(),
{
    if bytes.len() == 0 {
        (Seq::empty(), content)
    } else {
        let (lines, c) = line_run(content, bytes.drop_last());
        let (e, c2) = line_step(c, bytes.last());
        (
            match e {
                Some(l) => lines.push(l),
                None => lines,
            },
            c2,
        )
    }
}

/// The bytes that are not newlines, in order.
pub open spec fn strip_newlines(bytes: Seq<u8>) -> Seq<u8>
    decreases bytes.len(),
{
    if bytes.len() == 0 {
        bytes
    } else if bytes.last() == NEWLINE {
        strip_newlines(bytes.drop_last())
    } else {
        strip_newlines(bytes.drop_last()).push(bytes.last())
    }
}

/// The text of handed-over lines, their terminators dropped, one after the
/// other.
pub open spec fn joined_lines(lines: Seq<Seq<u8>>) -> Seq<u8>
    decreases lines.len(),
{
    if lines.len() == 0 {
        Seq::empty()
    } else {
        joined_lines(lines.drop_last()) + lines.last().drop_last()
    }
}

/// The console loses no character: the lines handed over, followed by the
/// line left, hold the pending text followed by every byte written that is
/// not a newline.
pub proof fn lemma_console_keeps_text(content: Seq<u8>, bytes: Seq<u8>)
    ensures
        joined_lines(line_run(content, bytes).0) + line_run(content, bytes).1 == content
            + strip_newlines(bytes),
    decreases bytes.len(),
{
    if bytes.len() == 0 {
        assert(content + Seq::<u8>::empty() =~= content);
        assert(Seq::<u8>::empty() + content =~= content);
    } else {
        let pre = bytes.drop_last();
        let x = bytes.last();
        lemma_console_keeps_text(content, pre);
        let (lines, c) = line_run(content, pre);
        let flush = c.len() == LINE_LENGTH || x == NEWLINE;
        if flush {
            let l = c.push(0u8);
            assert(lines.push(l).drop_last() =~= lines);
            assert(l.drop_last() =~= c);
            if x != NEWLINE {
                assert(joined_lines(lines) + c + seq![x] =~= content + strip_newlines(pre).push(x));
            } else {
                assert(joined_lines(lines) + c + Seq::<u8>::empty() =~= content + strip_newlines(pre));
            }
        } else {
            assert(joined_lines(lines) + c == content + strip_newlines(pre));
            assert(joined_lines(lines) + c.push(x) =~= (joined_lines(lines) + c).push(x));
            assert(content + strip_newlines(pre).push(x) =~= (content + strip_newlines(pre)).push(x));
        }
    }
}

/// Whether `l` holds no NUL and no newline.
pub open spec fn clean_text(l: Seq<u8>) -> bool {
    forall|k: int| 0 <= k < l.len() ==> #[trigger] l[k] != 0u8 && l[k] != NEWLINE
}

/// Whether `l` is a line as the console hands it over: at most twenty
/// characters holding no NUL and no newline, then a NUL terminator.
pub open spec fn handed_line(l: Seq<u8>) -> bool {
    &&& 1 <= l.len() <= LINE_LENGTH + 1
    &&& l.last() == 0u8
    &&& clean_text(l.drop_last())
}

proof fn lemma_console_bytes_clean(content: Seq<u8>, bytes: Seq<u8>)
    requires
        clean_text(content),
        content.len() <= LINE_LENGTH,
        forall|k: int| 0 <= k < bytes.len() ==> #[trigger] bytes[k] != 0u8,
    ensures
        forall|i: int| 0 <= i < line_run(content, bytes).0.len() ==> handed_line(
            #[trigger] line_run(content, bytes).0[i],
        ),
        clean_text(line_run(content, bytes).1),
        line_run(content, bytes).1.len() <= LINE_LENGTH,
    decreases bytes.len(),
{
    if bytes.len() > 0 {
        let pre = bytes.drop_last();
        let x = bytes.last();
        assert forall|k: int| 0 <= k < pre.len() implies #[trigger] pre[k] != 0u8 by {
            assert(pre[k] == bytes[k]);
        }
        assert(x == bytes[bytes.len() - 1]);
        lemma_console_bytes_clean(content, pre);
        let (lines, c) = line_run(content, pre);
        let flush = c.len() == LINE_LENGTH || x == NEWLINE;
        if flush {
            let l = c.push(0u8);
            assert(l.drop_last() =~= c);
            assert forall|i: int| 0 <= i < lines.push(l).len() implies handed_line(
                #[trigger] lines.push(l)[i],
            ) by {
                if i < lines.len() {
                    assert(lines.push(l)[i] == lines[i]);
                }
            }
            if x != NEWLINE {
                let e = Seq::<u8>::empty().push(x);
                assert forall|k: int| 0 <= k < e.len() implies #[trigger] e[k] != 0u8 && e[k]
                    != NEWLINE by {}
            } else {
                assert(clean_text(Seq::<u8>::empty()));
            }
        } else {
            let n = c.push(x);
            assert forall|k: int| 0 <= k < n.len() implies #[trigger] n[k] != 0u8 && n[k] != NEWLINE by {
                if k < c.len() {
                    assert(n[k] == c[k]);
                }
            }
        }
    }
}

/// The console bytes of `chars`.
pub open spec fn console_bytes(chars: Seq<char>) -> Seq<u8> {
    chars.map_values(|c: char| console_byte(c))
}

/// Every console line handed over is at most twenty characters that hold no
/// NUL and no newline, followed by its NUL terminator; and the text left
/// pending is such a run of characters too. This holds of the console
/// bytes of any text written to a console whose pending text is such a run.
pub proof fn lemma_console_lines_clean(content: Seq<u8>, chars: Seq<char>)
    requires
        clean_text(content),
        content.len() <= LINE_LENGTH,
    ensures
        forall|i: int|
            0 <= i < line_run(content, console_bytes(chars)).0.len() ==> handed_line(
                #[trigger] line_run(content, console_bytes(chars)).0[i],
            ),
        clean_text(line_run(content, console_bytes(chars)).1),
        line_run(content, console_bytes(chars)).1.len() <= LINE_LENGTH,
{
    let bytes = console_bytes(chars);
    assert forall|k: int| 0 <= k < bytes.len() implies #[trigger] bytes[k] != 0u8 by {
        assert(bytes[k] == console_byte(chars[k]));
    }
    lemma_console_bytes_clean(content, bytes);
}

/// The console's whole law for text `chars` written to a line holding
/// `content` (at most twenty characters, none a NUL or a newline): each line
/// handed over is at most twenty such characters and a NUL terminator; the
/// lines without their terminators, then the line left pending, hold
/// `content` followed by the console bytes of `chars` with newlines dropped;
/// and the line left pending is again at most twenty such characters. A line
/// is handed over for each character that is a newline or that arrives on a
/// full line, as [`line_step`] says.
pub proof fn lemma_console_buffering(content: Seq<u8>, chars: Seq<char>)
    requires
        clean_text(content),
        content.len() <= LINE_LENGTH,
    ensures
        forall|i: int|
            0 <= i < line_run(content, console_bytes(chars)).0.len() ==> handed_line(
                #[trigger] line_run(content, console_bytes(chars)).0[i],
            ),
        joined_lines(line_run(content, console_bytes(chars)).0) + line_run(
            content,
            console_bytes(chars),
        ).1 == content + strip_newlines(console_bytes(chars)),
        clean_text(line_run(content, console_bytes(chars)).1),
        line_run(content, console_bytes(chars)).1.len() <= LINE_LENGTH,
{
    lemma_console_lines_clean(content, chars);
    lemma_console_keeps_text(content, console_bytes(chars));
}

/// A console line never holds more than twenty characters.
pub proof fn lemma_console_line_length(content: Seq<u8>, bytes: Seq<u8>)
    requires
        content.len() <= LINE_LENGTH,
    ensures
        line_run(content, bytes).1.len() <= LINE_LENGTH,
    decreases bytes.len(),
{
    if bytes.len() > 0 {
        lemma_console_line_length(content, bytes.drop_last());
    }
}

/// A fixed-width console line being filled.
#[derive(Clone, Copy, Debug, PartialEq, Eq)]
struct LineBuffer {
    idx: usize,
    buf: [u8; 21],
}

impl LineBuffer {
    /// The text held, with every byte after it zero.
    spec fn wf(&self) -> bool {
        &&& self.idx <= LINE_LENGTH
        &&& forall|j: int| self.idx <= j < 21 ==> #[trigger] self.buf@[j] == 0u8
    }

    /// The text the line holds.
    spec fn content(&self) -> Seq<u8> {
        self.buf@.take(self.idx as int)
    }

    /// An empty line.
    fn empty() -> (r: LineBuffer)
        ensures
            r.wf(),
            r.content() == Seq::<u8>::empty(),
    {
        let r = LineBuffer { idx: 0, buf: [0u8; 21] };
        assert(r.content() =~= Seq::<u8>::empty());
        r
    }

    /// Takes the console bytes of `s` into the line, handing over each line
    /// that a newline ends or that is full, NUL-terminated.
    fn buffered(&mut self, s: &str) -> (r: Vec<Vec<u8>>)
        requires
            old(self).wf(),
        ensures
            final(self).wf(),
            r@.map_values(|l: Vec<u8>| l@) == line_run(
                old(self).content(),
                s@.map_values(|c: char| console_byte(c)),
            ).0,
            final(self).content() == line_run(
                old(self).content(),
                s@.map_values(|c: char| console_byte(c)),
            ).1,
    {
        broadcast use vstd::string::axiom_spec_iter;

        let ghost start = self.content();
        let ghost bytes = s@.map_values(|c: char| console_byte(c));
        let mut out: Vec<Vec<u8>> = Vec::new();
        for c in it: s.chars()
            invariant
                it.seq() == s@,
                bytes == s@.map_values(|c: char| console_byte(c)),
                self.wf(),
                out@.map_values(|l: Vec<u8>| l@) == line_run(start, bytes.take(it.index() as int)).0,
                self.content() == line_run(start, bytes.take(it.index() as int)).1,
        {
            let ghost i = it.index() as int;
            let v = c as u32;
            let b: u8 = if 1 <= v && v <= 127 {
                v as u8
            } else {
                63u8
            };
            proof {
                assert(c == s@[i]);
                assert(b == bytes[i]);
                assert(bytes.take(i + 1).drop_last() =~= bytes.take(i));
                assert(bytes.take(i + 1).last() == b);
            }
            let ghost before = self.content();
            if self.idx == LINE_LENGTH || b == NEWLINE {
                let mut line: Vec<u8> = Vec::new();
                let mut j: usize = 0;
                while j <= self.idx
                    invariant
                        self.wf(),
                        j <= self.idx + 1,
                        line@ == self.buf@.take(j as int),
                    decreases self.idx + 1 - j,
                {
                    line.push(self.buf[j]);
                    j = j + 1;
                    assert(line@ =~= self.buf@.take(j as int));
                }
                assert(line@ =~= before.push(0u8)) by {
                    assert(self.buf@[self.idx as int] == 0u8);
                }
                out.push(line);
                *self = LineBuffer::empty();
            }
            if b != NEWLINE {
                let k = self.idx;
                self.buf[k] = b;
                self.idx = k + 1;
                assert(self.content() =~= self.buf@.take(k as int).push(b));
            }
            proof {
                assert(out@.map_values(|l: Vec<u8>| l@) =~= line_run(start, bytes.take(i + 1)).0);
                assert(self.content() =~= line_run(start, bytes.take(i + 1)).1);
            }
        }
        proof {
            assert(bytes.take(s@.len() as int) =~= bytes);
        }
        out
    }
}

/// The console line after `k` more lines were shown from line `cl`: it moves
/// down one line at a time until line 11, then stays there while the display
/// scrolls.
pub open spec fn console_line_after(cl: nat, k: nat) -> nat
    decreases k,
{
    if k == 0 {
        cl
    } else {
        let prev = console_line_after(cl, (k - 1) as nat);
        if prev > MAX_VISIBLE_LINES - 2 {
            prev
        } else {
            prev + 1
        }
    }
}

/// A request to show one line of console text.
#[derive(Debug, Clone)]
pub struct ConsoleLine {
    /// Whether the display scrolls up one line first.
    pub scroll: bool,
    /// The console line to show the text on.
    pub line: i32,
    /// The text, NUL-terminated.
    pub text: Vec<u8>,
}

/// How the display is updated.
#[derive(Clone, Copy, Debug, PartialEq, Eq, Structural)]
pub enum RenderMode {
    /// Drawing shows at once.
    Immediate,
    /// Drawing shows when rendered.
    DoubleBuffered,
}

/// A request to VEXos about rendering.
#[derive(Clone, Copy, Debug, PartialEq, Eq, Structural)]
pub enum RenderCommand {
    /// Turn double buffering off.
    DisableDoubleBuffer,
    /// Render the back buffer.
    Render {
        /// Whether to wait for vertical sync.
        vsync_wait: bool,
        /// Whether to run the scheduler.
        run_scheduler: bool,
    },
}

/// The display of a V5 Brain.
#[derive(Debug, PartialEq, Eq)]
pub struct Display {
    writer_buffer: LineBuffer,
    render_mode: RenderMode,
    current_line: usize,
}

impl Display {
    /// The console line is well formed and never below line 11.
    #[verifier::type_invariant]
    spec fn inv(self) -> bool {
        self.writer_buffer.wf() && self.current_line < MAX_VISIBLE_LINES
    }

    /// The text waiting on the current console line.
    pub closed spec fn pending_spec(&self) -> Seq<u8> {
        self.writer_buffer.content()
    }

    /// The console line text is shown on.
    pub closed spec fn current_line_spec(&self) -> nat {
        self.current_line as nat
    }

    /// The display's render mode.
    pub closed spec fn render_mode_spec(&self) -> RenderMode {
        self.render_mode
    }

    /// Creates a handle to the display: immediate rendering, console at line
    /// 0, nothing pending.
    ///
    /// Two handles to the display must not be made; prefer taking it from the
    /// peripherals.
    pub fn new() -> (r: Display)
        ensures
            r.pending_spec() == Seq::<u8>::empty(),
            r.current_line_spec() == 0,
            r.render_mode_spec() == RenderMode::Immediate,
    {
        Display { writer_buffer: LineBuffer::empty(), render_mode: RenderMode::Immediate, current_line: 0 }
    }

    /// Writes `text` to the console; gives the lines to show, in order.
    ///
    /// Characters other than ASCII (and NUL) show as `?`. A line is shown
    /// when a newline ends it or when it holds twenty characters; each shown
    /// line goes one line further down, until line 11, from where the display
    /// scrolls up instead.
    pub fn write_str(&mut self, text: &str) -> (r: Vec<ConsoleLine>)
        ensures
            ({
                let (lines, rest) = line_run(
                    old(self).pending_spec(),
                    text@.map_values(|c: char| console_byte(c)),
                );
                &&& final(self).pending_spec() == rest
                &&& r@.len() == lines.len()
                &&& final(self).current_line_spec() == console_line_after(
                    old(self).current_line_spec(),
                    lines.len(),
                )
                &&& forall|k: int|
                    0 <= k < lines.len() ==> {
                        &&& (#[trigger] r@[k]).text@ == lines[k]
                        &&& r@[k].scroll == (console_line_after(
                            old(self).current_line_spec(),
                            k as nat,
                        ) > MAX_VISIBLE_LINES - 2)
                        &&& r@[k].line == console_line_after(
                            old(self).current_line_spec(),
                            (k + 1) as nat,
                        )
                    }
            }),
            final(self).render_mode_spec() == old(self).render_mode_spec(),
    {
        proof {
            use_type_invariant(&*self);
        }
        let mut writer_buffer = self.writer_buffer;
        let lines = writer_buffer.buffered(text);
        let ghost line_seqs = lines@.map_values(|l: Vec<u8>| l@);
        let ghost cl0 = self.current_line as nat;
        let mut current_line = self.current_line;
        let mut out: Vec<ConsoleLine> = Vec::new();
        let mut k: usize = 0;
        while k < lines.len()
            invariant
                k <= lines@.len(),
                line_seqs == lines@.map_values(|l: Vec<u8>| l@),
                current_line < MAX_VISIBLE_LINES,
                current_line as nat == console_line_after(cl0, k as nat),
                out@.len() == k,
                forall|m: int|
                    0 <= m < k ==> {
                        &&& (#[trigger] out@[m]).text@ == line_seqs[m]
                        &&& out@[m].scroll == (console_line_after(cl0, m as nat) > MAX_VISIBLE_LINES
                            - 2)
                        &&& out@[m].line == console_line_after(cl0, (m + 1) as nat)
                    },
            decreases lines@.len() - k,
        {
            let scroll = current_line > MAX_VISIBLE_LINES - 2;
            if !scroll {
                current_line = current_line + 1;
            }
            let mut text_bytes: Vec<u8> = Vec::new();
            let mut j: usize = 0;
            while j < lines[k].len()
                invariant
                    k < lines@.len(),
                    j <= lines@[k as int]@.len(),
                    text_bytes@ == lines@[k as int]@.take(j as int),
                decreases lines@[k as int]@.len() - j,
            {
                text_bytes.push(lines[k][j]);
                j = j + 1;
                assert(text_bytes@ =~= lines@[k as int]@.take(j as int));
            }
            assert(text_bytes@ =~= line_seqs[k as int]);
            out.push(ConsoleLine { scroll, line: current_line as i32, text: text_bytes });
            k = k + 1;
        }
        self.writer_buffer = writer_buffer;
        self.current_line = current_line;
        out
    }

    /// Sets the render mode; gives the request that applies it.
    pub fn set_render_mode(&mut self, mode: RenderMode) -> (r: RenderCommand)
        ensures
            final(self).render_mode_spec() == mode,
            final(self).pending_spec() == old(self).pending_spec(),
            final(self).current_line_spec() == old(self).current_line_spec(),
            r == match mode {
                RenderMode::Immediate => RenderCommand::DisableDoubleBuffer,
                RenderMode::DoubleBuffered => (RenderCommand::Render {
                    vsync_wait: false,
                    run_scheduler: true,
                }),
            },
    {
        proof {
            use_type_invariant(&*self);
        }
        self.render_mode = mode;
        match mode {
            RenderMode::Immediate => RenderCommand::DisableDoubleBuffer,
            RenderMode::DoubleBuffered => RenderCommand::Render { vsync_wait: false, run_scheduler: true },
        }
    }

    /// The display's render mode.
    pub fn render_mode(&self) -> (r: RenderMode)
        ensures
            r == self.render_mode_spec(),
    {
        self.render_mode
    }

    /// Renders the back buffer when double buffered; gives the request, or
    /// `None` in immediate mode.
    pub fn render(&mut self) -> (r: Option<RenderCommand>)
        ensures
            *final(self) == *old(self),
            r == if old(self).render_mode_spec() == RenderMode::DoubleBuffered {
                Some((RenderCommand::Render { vsync_wait: false, run_scheduler: false }))
            } else {
                None::<RenderCommand>
            },
    {
        match self.render_mode {
            RenderMode::DoubleBuffered => Some(RenderCommand::Render { vsync_wait: false, run_scheduler: false }),
            RenderMode::Immediate => None,
        }
    }

    /// Scrolls the display below line `start` by `offset` pixels; gives the
    /// request.
    pub fn scroll(&mut self, start: i16, offset: i16) -> (r: DrawCommand)
        ensures
            *final(self) == *old(self),
            r == (DrawCommand::Scroll { start: start as i32, offset: offset as i32 }),
    {
        DrawCommand::Scroll { start: start as i32, offset: offset as i32 }
    }

    /// Scrolls a region of the display by `offset` pixels; gives the request.
    pub fn scroll_region(&mut self, region: Rect, offset: i16) -> (r: DrawCommand)
        requires
            fits_i16(region.start.y + HEADER_HEIGHT),
            fits_i16(region.end.y + HEADER_HEIGHT),
        ensures
            *final(self) == *old(self),
            r == (DrawCommand::ScrollRect {
                x0: region.start.x as i32,
                y0: (region.start.y + HEADER_HEIGHT) as i32,
                x1: region.end.x as i32,
                y1: (region.end.y + HEADER_HEIGHT) as i32,
                offset: offset as i32,
            }),
    {
        DrawCommand::ScrollRect {
            x0: region.start.x as i32,
            y0: (region.start.y + HEADER_HEIGHT) as i32,
            x1: region.end.x as i32,
            y1: (region.end.y + HEADER_HEIGHT) as i32,
            offset: offset as i32,
        }
    }

    /// Fills `shape` with `color`; gives the request.
    pub fn fill<S: Fill>(&mut self, shape: &S, color: Rgb) -> (r: DrawCommand)
        requires
            shape.fill_req(),
        ensures
            *final(self) == *old(self),
            r == shape.fill_spec(color),
    {
        shape.fill(self, color)
    }

    /// Outlines `shape` with `color`; gives the request.
    pub fn stroke<S: Stroke>(&mut self, shape: &S, color: Rgb) -> (r: DrawCommand)
        requires
            shape.stroke_req(),
        ensures
            *final(self) == *old(self),
            r == shape.stroke_spec(color),
    {
        shape.stroke(self, color)
    }

    /// Draws `text` in `color`, over `bg_color` when given, given its width and
    /// height as VEXos measures them in its font; gives the request.
    pub fn draw_text(&mut self, t: &Text, color: Rgb, bg_color: Option<Rgb>, width: u16, height: u16) -> (r:
        DrawCommand)
        requires
            fits_i16(
                aligned_start(
                    t.position_spec().x,
                    width,
                    t.align_spec().0 == HAlign::Center,
                    t.align_spec().0 == HAlign::Right,
                ),
            ),
            fits_i16(
                aligned_start(
                    t.position_spec().y,
                    height,
                    t.align_spec().1 == VAlign::Center,
                    t.align_spec().1 == VAlign::Bottom,
                ) + HEADER_HEIGHT,
            ),
            fits_i16(
                aligned_start(
                    t.position_spec().y,
                    height,
                    t.align_spec().1 == VAlign::Center,
                    t.align_spec().1 == VAlign::Bottom,
                ),
            ),
        ensures
            *final(self) == *old(self),
            r matches DrawCommand::Text { x, y, fg, bg, font, text } && x == aligned_start(
                t.position_spec().x,
                width,
                t.align_spec().0 == HAlign::Center,
                t.align_spec().0 == HAlign::Right,
            ) && y == aligned_start(
                t.position_spec().y,
                height,
                t.align_spec().1 == VAlign::Center,
                t.align_spec().1 == VAlign::Bottom,
            ) + HEADER_HEIGHT && fg == rgb_word(color) && bg == match bg_color {
                Some(c) => Some(rgb_word(c)),
                None => None::<u32>,
            } && font == t.font_spec() && text@ == t.text_spec(),
    {
        t.draw(self, color, bg_color, width, height)
    }

    /// Clears the whole display to `color`; gives the request, a rectangle
    /// fill from the top left corner to the corner one pixel past the
    /// display's width and height, which covers the whole display (VEXos
    /// draws nothing beyond it).
    pub fn erase(&mut self, color: Rgb) -> (r: DrawCommand)
        ensures
            *final(self) == *old(self),
            r == (DrawCommand::RectFill {
                x0: 0,
                y0: HEADER_HEIGHT as i32,
                x1: HORIZONTAL_RESOLUTION as i32,
                y1: (VERTICAL_RESOLUTION + HEADER_HEIGHT) as i32,
                color: rgb_word(color),
            }),
    {
        let rect = Rect::new(
            Point2 { x: 0, y: 0 },
            Point2 { x: HORIZONTAL_RESOLUTION, y: VERTICAL_RESOLUTION },
        );
        rect.fill(self, color)
    }

    /// Draws a buffer of pixels into `region`; gives the request. A buffer
    /// whose length is not the region's area is refused by `requires`.
    pub fn draw_buffer(&mut self, region: Rect, buf: &[Argb]) -> (r: DrawCommand)
        requires
            fits_i16(region.end.y - region.start.y),
            fits_i16(region.end.x - region.start.x),
            fits_i16(region.start.y + HEADER_HEIGHT),
            fits_i16(region.end.y + HEADER_HEIGHT),
            region_area(region) <= u32::MAX,
            buf@.len() == region_area(region),
        ensures
            *final(self) == *old(self),
            r matches DrawCommand::CopyRect { x0, y0, x1, y1, pixels, stride } && x0
                == region.start.x && y0 == region.start.y + HEADER_HEIGHT && x1 == region.end.x
                && y1 == region.end.y + HEADER_HEIGHT && stride == region.end.x - region.start.x
                && pixels@ == buf@.map_values(|p: Argb| argb_word(p)),
    {
        let mut pixels: Vec<u32> = Vec::new();
        let mut i: usize = 0;
        while i < buf.len()
            invariant
                i <= buf@.len(),
                pixels@ == buf@.take(i as int).map_values(|p: Argb| argb_word(p)),
            decreases buf@.len() - i,
        {
            pixels.push(buf[i].into_raw());
            i = i + 1;
            assert(pixels@ =~= buf@.take(i as int).map_values(|p: Argb| argb_word(p)));
        }
        assert(buf@.take(buf@.len() as int) =~= buf@);
        DrawCommand::CopyRect {
            x0: region.start.x as i32,
            y0: (region.start.y + HEADER_HEIGHT) as i32,
            x1: region.end.x as i32,
            y1: (region.end.y + HEADER_HEIGHT) as i32,
            pixels,
            stride: (region.end.x - region.start.x) as i32,
        }
    }

    /// The state of the touchscreen, read from the status VEXos reports.
    pub fn touch_status(&self, raw: TouchStatusRaw) -> (r: TouchEvent)
        requires
            raw.last_event < 3,
        ensures
            touch_code(r.state) == raw.last_event,
            r.point == (Point2 { x: raw.last_x, y: raw.last_y }),
            r.press_count == raw.press_count,
            r.release_count == raw.release_count,
    {
        TouchEvent {
            state: TouchState::from_raw(raw.last_event),
            point: Point2 { x: raw.last_x, y: raw.last_y },
            press_count: raw.press_count,
            release_count: raw.release_count,
        }
    }
}

/// The number of pixels a region spans, as the display computes it: the
/// height and width are each taken as 32-bit unsigned numbers.
pub open spec fn region_area(region: Rect) -> int {
    ((region.end.y - region.start.y) as i16 as u32) * ((region.end.x - region.start.x) as i16 as u32)
}

/// A pixel with alpha, red, green and blue bytes, in that memory order.
#[derive(Clone, Copy, Debug, PartialEq, Eq, Default, Structural)]
pub struct Argb {
    /// Alpha.
    pub a: u8,
    /// Red.
    pub r: u8,
    /// Green.
    pub g: u8,
    /// Blue.
    pub b: u8,
}

/// The little-endian word of a pixel's four bytes.
pub open spec fn argb_word(p: Argb) -> u32 {
    (p.a + p.r * 0x100 + p.g * 0x1_0000 + p.b * 0x100_0000) as u32
}

impl Argb {
    /// The pixel's bytes read as one little-endian word.
    pub fn into_raw(self) -> (r: u32)
        ensures
            r == argb_word(self),
    {
        let a: u32 = self.a as u32;
        let r: u32 = self.r as u32;
        let g: u32 = self.g as u32;
        let b: u32 = self.b as u32;
        assert(a | (r << 8u32) | (g << 16u32) | (b << 24u32) == a + r * 0x100 + g * 0x1_0000 + b
            * 0x100_0000) by (bit_vector)
            requires
                a < 0x100,
                r < 0x100,
                g < 0x100,
                b < 0x100,
        ;
        a | (r << 8u32) | (g << 16u32) | (b << 24u32)
    }
}

/// A drawing request to VEXos, in screen coordinates.
#[derive(Debug, Clone)]
pub enum DrawCommand {
    /// Fill a circle.
    CircleFill { x: i32, y: i32, radius: i32, color: u32 },
    /// Outline a circle.
    CircleDraw { x: i32, y: i32, radius: i32, color: u32 },
    /// Draw a line.
    LineDraw { x0: i32, y0: i32, x1: i32, y1: i32, color: u32 },
    /// Set one pixel.
    PixelSet { x: i32, y: i32, color: u32 },
    /// Outline a rectangle.
    RectDraw { x0: i32, y0: i32, x1: i32, y1: i32, color: u32 },
    /// Fill a rectangle.
    RectFill { x0: i32, y0: i32, x1: i32, y1: i32, color: u32 },
    /// Scroll the whole display below line `start`.
    Scroll { start: i32, offset: i32 },
    /// Scroll a rectangle.
    ScrollRect { x0: i32, y0: i32, x1: i32, y1: i32, offset: i32 },
    /// Copy pixels into a rectangle.
    CopyRect { x0: i32, y0: i32, x1: i32, y1: i32, pixels: Vec<u32>, stride: i32 },
    /// Print text with a font, over a background color when `bg` is given.
    Text { x: i32, y: i32, fg: u32, bg: Option<u32>, font: Font, text: Vec<u8> },
}

/// A shape that can be drawn filled.
pub trait Fill {
    /// Whether the shape's coordinates stay within range once shifted past the
    /// header.
    spec fn fill_req(&self) -> bool;

    /// The request that fills the shape with `color`.
    spec fn fill_spec(&self, color: Rgb) -> DrawCommand;

    /// Fills the shape with `color`; gives the request.
    fn fill(&self, display: &mut Display, color: Rgb) -> (r: DrawCommand)
        requires
            self.fill_req(),
        ensures
            *final(display) == *old(display),
            r == self.fill_spec(color),
    ;
}

/// A shape that can be drawn outlined.
pub trait Stroke {
    /// Whether the shape's coordinates stay within range once shifted past the
    /// header.
    spec fn stroke_req(&self) -> bool;

    /// The request that outlines the shape with `color`.
    spec fn stroke_spec(&self, color: Rgb) -> DrawCommand;

    /// Outlines the shape with `color`; gives the request.
    fn stroke(&self, display: &mut Display, color: Rgb) -> (r: DrawCommand)
        requires
            self.stroke_req(),
        ensures
            *final(display) == *old(display),
            r == self.stroke_spec(color),
    ;
}

/// A circle.
#[derive(Debug, Clone, Copy, PartialEq, Eq, Structural)]
pub struct Circle {
    /// The center.
    pub center: Point2<i16>,
    /// The radius, in pixels.
    pub radius: u16,
}

impl Circle {
    /// Creates a circle from its center and radius.
    pub fn new(center: Point2<i16>, radius: u16) -> (r: Circle)
        ensures
            r == (Circle { center, radius }),
    {
        Circle { center, radius }
    }
}

impl Fill for Circle {
    open spec fn fill_req(&self) -> bool {
        fits_i16(self.center.y + HEADER_HEIGHT)
    }

    open spec fn fill_spec(&self, color: Rgb) -> DrawCommand {
        DrawCommand::CircleFill {
            x: self.center.x as i32,
            y: (self.center.y + HEADER_HEIGHT) as i32,
            radius: self.radius as i32,
            color: rgb_word(color),
        }
    }

    fn fill(&self, display: &mut Display, color: Rgb) -> (r: DrawCommand) {
        DrawCommand::CircleFill {
            x: self.center.x as i32,
            y: (self.center.y + HEADER_HEIGHT) as i32,
            radius: self.radius as i32,
            color: color.into_raw(),
        }
    }
}

impl Stroke for Circle {
    open spec fn stroke_req(&self) -> bool {
        fits_i16(self.center.y + HEADER_HEIGHT)
    }

    open spec fn stroke_spec(&self, color: Rgb) -> DrawCommand {
        DrawCommand::CircleDraw {
            x: self.center.x as i32,
            y: (self.center.y + HEADER_HEIGHT) as i32,
            radius: self.radius as i32,
            color: rgb_word(color),
        }
    }

    fn stroke(&self, display: &mut Display, color: Rgb) -> (r: DrawCommand) {
        DrawCommand::CircleDraw {
            x: self.center.x as i32,
            y: (self.center.y + HEADER_HEIGHT) as i32,
            radius: self.radius as i32,
            color: color.into_raw(),
        }
    }
}

/// A line segment.
#[derive(Debug, Clone, Copy, PartialEq, Eq, Structural)]
pub struct Line {
    /// The start point.
    pub start: Point2<i16>,
    /// The end point.
    pub end: Point2<i16>,
}

impl Line {
    /// Creates a line from its end points.
    pub fn new(start: Point2<i16>, end: Point2<i16>) -> (r: Line)
        ensures
            r == (Line { start, end }),
    {
        Line { start, end }
    }
}

impl Fill for Line {
    open spec fn fill_req(&self) -> bool {
        fits_i16(self.start.y + HEADER_HEIGHT) && fits_i16(self.end.y + HEADER_HEIGHT)
    }

    open spec fn fill_spec(&self, color: Rgb) -> DrawCommand {
        DrawCommand::LineDraw {
            x0: self.start.x as i32,
            y0: (self.start.y + HEADER_HEIGHT) as i32,
            x1: self.end.x as i32,
            y1: (self.end.y + HEADER_HEIGHT) as i32,
            color: rgb_word(color),
        }
    }

    fn fill(&self, display: &mut Display, color: Rgb) -> (r: DrawCommand) {
        DrawCommand::LineDraw {
            x0: self.start.x as i32,
            y0: (self.start.y + HEADER_HEIGHT) as i32,
            x1: self.end.x as i32,
            y1: (self.end.y + HEADER_HEIGHT) as i32,
            color: color.into_raw(),
        }
    }
}

impl Fill for Point2<i16> {
    open spec fn fill_req(&self) -> bool {
        fits_i16(self.y + HEADER_HEIGHT)
    }

    open spec fn fill_spec(&self, color: Rgb) -> DrawCommand {
        DrawCommand::PixelSet {
            x: self.x as i32,
            y: (self.y + HEADER_HEIGHT) as i32,
            color: rgb_word(color),
        }
    }

    fn fill(&self, display: &mut Display, color: Rgb) -> (r: DrawCommand) {
        DrawCommand::PixelSet {
            x: self.x as i32,
            y: (self.y + HEADER_HEIGHT) as i32,
            color: color.into_raw(),
        }
    }
}

/// A rectangle between two corners. Both corners are drawn, so a rectangle
/// covers `(1 + end.x - start.x) * (1 + end.y - start.y)` pixels.
#[derive(Debug, Clone, Copy, PartialEq, Eq, Structural)]
pub struct Rect {
    /// The top left corner.
    pub start: Point2<i16>,
    /// The bottom right corner.
    pub end: Point2<i16>,
}

impl Rect {
    /// Creates a rectangle from two corners.
    pub fn new(start: Point2<i16>, end: Point2<i16>) -> (r: Rect)
        ensures
            r == (Rect { start, end }),
    {
        Rect { start, end }
    }

    /// Creates a rectangle from its top left corner and its size, so that it
    /// covers `width` by `height` pixels: its far corner is the last pixel
    /// covered. Each size is taken as an `i16`. Sizes whose far corner does
    /// not fit an `i16` are refused by `requires`.
    pub fn from_dimensions(origin: Point2<i16>, width: u16, height: u16) -> (r: Rect)
        requires
            fits_i16(origin.x + (width as i16) - 1),
            fits_i16(origin.y + (height as i16) - 1),
        ensures
            r.start == origin,
            r.end.x == origin.x + (width as i16) - 1,
            r.end.y == origin.y + (height as i16) - 1,
    {
        Rect {
            start: origin,
            end: Point2 {
                x: (origin.x as i32 + (width as i16) as i32 - 1) as i16,
                y: (origin.y as i32 + (height as i16) as i32 - 1) as i16,
            },
        }
    }

    /// Creates a rectangle centered on `center` with the given size: its top
    /// left corner is half the size (rounded toward zero) up and left of the
    /// center. Sizes whose corners do not fit an `i16` are refused by
    /// `requires`.
    pub fn from_dimensions_centered(center: Point2<i16>, width: u16, height: u16) -> (r: Rect)
        requires
            fits_i16(center.x - half_toward_zero(width as i16)),
            fits_i16(center.y - half_toward_zero(height as i16)),
            fits_i16(center.x - half_toward_zero(width as i16) + (width as i16) - 1),
            fits_i16(center.y - half_toward_zero(height as i16) + (height as i16) - 1),
        ensures
            r.start.x == center.x - half_toward_zero(width as i16),
            r.start.y == center.y - half_toward_zero(height as i16),
            r.end.x == r.start.x + (width as i16) - 1,
            r.end.y == r.start.y + (height as i16) - 1,
    {
        let hw = halve(width as i16);
        let hh = halve(height as i16);
        Rect::from_dimensions(Point2 { x: center.x - hw, y: center.y - hh }, width, height)
    }
}

/// Half of `v`, rounded toward zero, as Rust's integer division does.
pub open spec fn half_toward_zero(v: i16) -> int {
    if v >= 0 {
        v / 2
    } else {
        -((-v) / 2)
    }
}

/// Half of `v`, rounded toward zero.
pub(crate) fn halve(v: i16) -> (r: i16)
    ensures
        r == half_toward_zero(v),
{
    if v >= 0 {
        v / 2
    } else {
        let m: i32 = -(v as i32);
        -((m / 2) as i16)
    }
}

impl Fill for Rect {
    open spec fn fill_req(&self) -> bool {
        fits_i16(self.start.y + HEADER_HEIGHT) && fits_i16(self.end.y + HEADER_HEIGHT)
    }

    open spec fn fill_spec(&self, color: Rgb) -> DrawCommand {
        DrawCommand::RectFill {
            x0: self.start.x as i32,
            y0: (self.start.y + HEADER_HEIGHT) as i32,
            x1: self.end.x as i32,
            y1: (self.end.y + HEADER_HEIGHT) as i32,
            color: rgb_word(color),
        }
    }

    fn fill(&self, display: &mut Display, color: Rgb) -> (r: DrawCommand) {
        DrawCommand::RectFill {
            x0: self.start.x as i32,
            y0: (self.start.y + HEADER_HEIGHT) as i32,
            x1: self.end.x as i32,
            y1: (self.end.y + HEADER_HEIGHT) as i32,
            color: color.into_raw(),
        }
    }
}

impl Stroke for Rect {
    open spec fn stroke_req(&self) -> bool {
        fits_i16(self.start.y + HEADER_HEIGHT) && fits_i16(self.end.y + HEADER_HEIGHT)
    }

    open spec fn stroke_spec(&self, color: Rgb) -> DrawCommand {
        DrawCommand::RectDraw {
            x0: self.start.x as i32,
            y0: (self.start.y + HEADER_HEIGHT) as i32,
            x1: self.end.x as i32,
            y1: (self.end.y + HEADER_HEIGHT) as i32,
            color: rgb_word(color),
        }
    }

    fn stroke(&self, display: &mut Display, color: Rgb) -> (r: DrawCommand) {
        DrawCommand::RectDraw {
            x0: self.start.x as i32,
            y0: (self.start.y + HEADER_HEIGHT) as i32,
            x1: self.end.x as i32,
            y1: (self.end.y + HEADER_HEIGHT) as i32,
            color: color.into_raw(),
        }
    }
}

/// Every shape is drawn at its own coordinates with each `y` moved down by
/// the header's height and `x` unchanged: a line from its start to its end,
/// a rectangle between its two corners (filled or outlined), a circle about
/// its center with its radius, a pixel at its point; each in the color
/// given.
pub proof fn lemma_shapes_drawn_below_header(line: Line, rect: Rect, circle: Circle, p: Point2<i16>, c: Rgb)
    ensures
        line.fill_spec(c) matches DrawCommand::LineDraw { x0, y0, x1, y1, color } && x0 == line.start.x
            && y0 == line.start.y + HEADER_HEIGHT && x1 == line.end.x && y1 == line.end.y
            + HEADER_HEIGHT && color == rgb_word(c),
        rect.fill_spec(c) matches DrawCommand::RectFill { x0, y0, x1, y1, color } && x0 == rect.start.x
            && y0 == rect.start.y + HEADER_HEIGHT && x1 == rect.end.x && y1 == rect.end.y
            + HEADER_HEIGHT && color == rgb_word(c),
        rect.stroke_spec(c) matches DrawCommand::RectDraw { x0, y0, x1, y1, color } && x0
            == rect.start.x && y0 == rect.start.y + HEADER_HEIGHT && x1 == rect.end.x && y1
            == rect.end.y + HEADER_HEIGHT && color == rgb_word(c),
        circle.fill_spec(c) matches DrawCommand::CircleFill { x, y, radius, color } && x
            == circle.center.x && y == circle.center.y + HEADER_HEIGHT && radius == circle.radius
            && color == rgb_word(c),
        circle.stroke_spec(c) matches DrawCommand::CircleDraw { x, y, radius, color } && x
            == circle.center.x && y == circle.center.y + HEADER_HEIGHT && radius == circle.radius
            && color == rgb_word(c),
        p.fill_spec(c) matches DrawCommand::PixelSet { x, y, color } && x == p.x && y == p.y
            + HEADER_HEIGHT && color == rgb_word(c),
{
}

/// A font size as a fraction of the display's nominal text size.
#[derive(Debug, Clone, Copy, PartialEq, Eq, Structural)]
pub struct FontSize {
    /// Numerator.
    pub numerator: u32,
    /// Denominator.
    pub denominator: u32,
}

impl FontSize {
    /// Creates a font size from a fraction.
    pub fn new(numerator: u32, denominator: u32) -> (r: FontSize)
        ensures
            r == (FontSize { numerator, denominator }),
    {
        FontSize { numerator, denominator }
    }

    /// One fifth.
    pub fn extra_small() -> (r: FontSize)
        ensures
            r == (FontSize { numerator: 1, denominator: 5 }),
    {
        FontSize::new(1, 5)
    }

    /// One quarter.
    pub fn small() -> (r: FontSize)
        ensures
            r == (FontSize { numerator: 1, denominator: 4 }),
    {
        FontSize::new(1, 4)
    }

    /// One third, the default.
    pub fn medium() -> (r: FontSize)
        ensures
            r == (FontSize { numerator: 1, denominator: 3 }),
    {
        FontSize::new(1, 3)
    }

    /// One half.
    pub fn large() -> (r: FontSize)
        ensures
            r == (FontSize { numerator: 1, denominator: 2 }),
    {
        FontSize::new(1, 2)
    }

    /// Two thirds.
    pub fn extra_large() -> (r: FontSize)
        ensures
            r == (FontSize { numerator: 2, denominator: 3 }),
    {
        FontSize::new(2, 3)
    }

    /// The full size.
    pub fn full() -> (r: FontSize)
        ensures
            r == (FontSize { numerator: 1, denominator: 1 }),
    {
        FontSize::new(1, 1)
    }
}

impl Default for FontSize {
    /// One third.
    fn default() -> (r: FontSize)
        ensures
            r == (FontSize { numerator: 1, denominator: 3 }),
    {
        FontSize::medium()
    }
}

impl From<u32> for FontSize {
    fn from(value: u32) -> (r: FontSize)
        ensures
            r == (FontSize { numerator: value, denominator: 1 }),
    {
        FontSize::new(value, 1)
    }
}

impl vstd::std_specs::convert::FromSpecImpl<u32> for FontSize {
    open spec fn obeys_from_spec() -> bool {
        true
    }

    open spec fn from_spec(value: u32) -> FontSize {
        FontSize { numerator: value, denominator: 1 }
    }
}

/// The greatest common divisor of two positive numbers.
pub open spec fn gcd_spec(a: int, b: int) -> int
    decreases a + b,
{
    if a <= 0 || b <= 0 {
        0
    } else if a == b {
        a
    } else if a > b {
        gcd_spec(a - b, b)
    } else {
        gcd_spec(a, b - a)
    }
}

/// Whether `d` divides `n`.
pub open spec fn divides(d: int, n: int) -> bool {
    exists|k: int| #[trigger] (d * k) == n
}

proof fn lemma_gcd_divides(a: int, b: int)
    requires
        a > 0,
        b > 0,
    ensures
        gcd_spec(a, b) > 0,
        divides(gcd_spec(a, b), a),
        divides(gcd_spec(a, b), b),
        forall|d: int| d > 0 && divides(d, a) && divides(d, b) ==> divides(d, #[trigger] gcd_spec(a, b)),
    decreases a + b,
{
    if a == b {
        assert(a * 1 == a);
    } else if a > b {
        lemma_gcd_divides(a - b, b);
        let g = gcd_spec(a - b, b);
        let ka = choose|k: int| #[trigger] (g * k) == a - b;
        let kb = choose|k: int| #[trigger] (g * k) == b;
        assert(g * (ka + kb) == a) by (nonlinear_arith)
            requires
                g * ka == a - b,
                g * kb == b,
        ;
        assert forall|d: int| d > 0 && divides(d, a) && divides(d, b) implies divides(d, gcd_spec(a, b)) by {
            let x = choose|k: int| #[trigger] (d * k) == a;
            let y = choose|k: int| #[trigger] (d * k) == b;
            assert(d * (x - y) == a - b) by (nonlinear_arith)
                requires
                    d * x == a,
                    d * y == b,
            ;
        }
    } else {
        lemma_gcd_divides(a, b - a);
        let g = gcd_spec(a, b - a);
        let ka = choose|k: int| #[trigger] (g * k) == a;
        let kb = choose|k: int| #[trigger] (g * k) == b - a;
        assert(g * (ka + kb) == b) by (nonlinear_arith)
            requires
                g * ka == a,
                g * kb == b - a,
        ;
        assert forall|d: int| d > 0 && divides(d, a) && divides(d, b) implies divides(d, gcd_spec(a, b)) by {
            let x = choose|k: int| #[trigger] (d * k) == a;
            let y = choose|k: int| #[trigger] (d * k) == b;
            assert(d * (y - x) == b - a) by (nonlinear_arith)
                requires
                    d * x == a,
                    d * y == b,
            ;
        }
    }
}

proof fn lemma_gcd_bounds(a: int, b: int)
    requires
        a > 0,
        b > 0,
    ensures
        0 < gcd_spec(a, b) <= a,
        gcd_spec(a, b) <= b,
    decreases a + b,
{
    if a > b {
        lemma_gcd_bounds(a - b, b);
    } else if a < b {
        lemma_gcd_bounds(a, b - a);
    }
}

/// The greatest common divisor of two positive numbers, by repeated
/// subtraction. Zero or negative arguments, on which the subtraction never
/// ends, are refused by `requires`.
pub fn gcd(a: i32, b: i32) -> (r: i32)
    requires
        a > 0,
        b > 0,
    ensures
        r == gcd_spec(a as int, b as int),
        divides(r as int, a as int),
        divides(r as int, b as int),
        forall|d: int| d > 0 && divides(d, a as int) && divides(d, b as int) ==> divides(d, r as int),
{
    proof {
        lemma_gcd_divides(a as int, b as int);
    }
    let mut x = a;
    let mut y = b;
    while x != y
        invariant
            x > 0,
            y > 0,
            gcd_spec(x as int, y as int) == gcd_spec(a as int, b as int),
        decreases x + y,
    {
        if x > y {
            x = x - y;
        } else {
            y = y - x;
        }
    }
    x
}

/// The fraction `integral + scaled / precision` with its fractional part in
/// lowest terms, as `(numerator, denominator)`: `scaled` and `precision` are
/// divided by their greatest common divisor, and the integral part is added
/// back over the reduced denominator.
pub open spec fn fraction_parts(integral: int, scaled: int, precision: int) -> (int, int) {
    let g = gcd_spec(scaled, precision);
    (scaled / g + integral * (precision / g), precision / g)
}

/// Computes [`fraction_parts`]: this is how a floating-point font size
/// becomes a fraction, once its integral part and its fractional part, scaled
/// by `precision` and rounded, are known. The fraction keeps the value
/// `integral + scaled / precision`.
///
/// A zero scaled part, on which the divisor search never ends, and results
/// that overflow are refused by `requires`.
pub fn fraction_from_parts(integral: i32, scaled: i32, precision: i32) -> (r: (i32, i32))
    requires
        scaled > 0,
        precision > 0,
        i32::MIN <= integral * fraction_parts(integral as int, scaled as int, precision as int).1
            <= i32::MAX,
        i32::MIN <= fraction_parts(integral as int, scaled as int, precision as int).0 <= i32::MAX,
    ensures
        (r.0 as int, r.1 as int) == fraction_parts(integral as int, scaled as int, precision as int),
        r.1 > 0,
        r.0 * precision == (integral * precision + scaled) * r.1,
{
    let g = gcd(scaled, precision);
    proof {
        lemma_gcd_bounds(scaled as int, precision as int);
        let ks = choose|k: int| #[trigger] (g * k) == scaled;
        let kp = choose|k: int| #[trigger] (g * k) == precision;
        assert(scaled / g == ks && precision / g == kp && kp > 0) by (nonlinear_arith)
            requires
                g > 0,
                g * ks == scaled,
                g * kp == precision,
                precision > 0,
        ;
        assert((ks + integral * kp) * precision == (integral * precision + scaled) * kp) by (
        nonlinear_arith)
            requires
                g * ks == scaled,
                g * kp == precision,
        ;
    }
    let denominator = precision / g;
    let numerator = scaled / g + integral * denominator;
    (numerator, denominator)
}

/// A font family the display can show.
#[derive(Debug, Clone, Copy, PartialEq, Eq, Default, Structural)]
pub enum FontFamily {
    /// Fixed-width characters.
    #[default]
    Monospace,
    /// Proportionally spaced characters.
    Proportional,
}

impl FontFamily {
    /// The name VEXos knows this family by.
    pub fn name(self) -> (r: &'static str)
        ensures
            r@ == match self {
                FontFamily::Monospace => "monospace"@,
                FontFamily::Proportional => "proportional"@,
            },
    {
        match self {
            FontFamily::Monospace => "monospace",
            FontFamily::Proportional => "proportional",
        }
    }
}

/// A font: a size and a family.
#[derive(Debug, Clone, Copy, PartialEq, Eq, Structural)]
pub struct Font {
    /// The size.
    pub size: FontSize,
    /// The family.
    pub family: FontFamily,
}

impl Font {
    /// Creates a font.
    pub fn new(size: FontSize, family: FontFamily) -> (r: Font)
        ensures
            r == (Font { size, family }),
    {
        Font { size, family }
    }
}

impl Default for Font {
    /// The medium monospace font.
    fn default() -> (r: Font)
        ensures
            r == (Font { size: (FontSize { numerator: 1, denominator: 3 }), family: FontFamily::Monospace }),
    {
        Font { size: FontSize::medium(), family: FontFamily::Monospace }
    }
}

/// Horizontal alignment of text about its position.
#[derive(Debug, Clone, Copy, PartialEq, Eq, Default, Structural)]
pub enum HAlign {
    /// The position is the text's left edge.
    #[default]
    Left,
    /// The position is the text's center.
    Center,
    /// The position is the text's right edge.
    Right,
}

/// Vertical alignment of text about its position.
#[derive(Debug, Clone, Copy, PartialEq, Eq, Default, Structural)]
pub enum VAlign {
    /// The position is the text's top edge.
    #[default]
    Top,
    /// The position is the text's center.
    Center,
    /// The position is the text's bottom edge.
    Bottom,
}

/// The left (or top) coordinate of text of extent `size` aligned about `pos`.
pub open spec fn aligned_start(pos: i16, size: u16, centered: bool, far: bool) -> int {
    if far {
        pos - (size as i16)
    } else if centered {
        pos - ((size / 2) as i16)
    } else {
        pos as int
    }
}

/// A piece of text to draw.
#[derive(Debug, Clone, PartialEq, Eq)]
pub struct Text {
    position: Point2<i16>,
    text: Vec<u8>,
    font: Font,
    horizontal_align: HAlign,
    vertical_align: VAlign,
}

impl Text {
    /// The text's position.
    pub closed spec fn position_spec(&self) -> Point2<i16> {
        self.position
    }

    /// The text's bytes.
    pub closed spec fn text_spec(&self) -> Seq<u8> {
        self.text@
    }

    /// The text's font.
    pub closed spec fn font_spec(&self) -> Font {
        self.font
    }

    /// The text's alignment.
    pub closed spec fn align_spec(&self) -> (HAlign, VAlign) {
        (self.horizontal_align, self.vertical_align)
    }

    /// The text's bytes, which VEXos measures to size it.
    pub fn bytes(&self) -> (r: &[u8])
        ensures
            r@ == self.text_spec(),
    {
        self.text.as_slice()
    }

    /// The text's font.
    pub fn font(&self) -> (r: Font)
        ensures
            r == self.font_spec(),
    {
        self.font
    }

    /// Creates text aligned at its top left corner. Text holding a NUL
    /// character is refused by `requires`.
    pub fn new(text: &str, font: Font, position: Point2<i16>) -> (r: Text)
        requires
            !text.spec_bytes().contains(0u8),
        ensures
            r.text_spec() == text.spec_bytes(),
            r.font_spec() == font,
            r.position_spec() == position,
            r.align_spec() == (HAlign::Left, VAlign::Top),
    {
        Text::new_aligned(text, font, position, HAlign::Left, VAlign::Top)
    }

    /// Creates text aligned at its top left corner from an owned string. Text
    /// holding a NUL character is refused by `requires`.
    pub fn from_str(text: String, font: Font, position: Point2<i16>) -> (r: Text)
        requires
            !vstd::utf8::encode_utf8(text@).contains(0u8),
        ensures
            r.text_spec() == vstd::utf8::encode_utf8(text@),
            r.font_spec() == font,
            r.position_spec() == position,
            r.align_spec() == (HAlign::Left, VAlign::Top),
    {
        Text::new_aligned(text.as_str(), font, position, HAlign::Left, VAlign::Top)
    }

    /// Creates text with the given alignment from an owned string. Text
    /// holding a NUL character is refused by `requires`.
    pub fn from_str_aligned(
        text: String,
        font: Font,
        position: Point2<i16>,
        horizontal_align: HAlign,
        vertical_align: VAlign,
    ) -> (r: Text)
        requires
            !vstd::utf8::encode_utf8(text@).contains(0u8),
        ensures
            r.text_spec() == vstd::utf8::encode_utf8(text@),
            r.font_spec() == font,
            r.position_spec() == position,
            r.align_spec() == (horizontal_align, vertical_align),
    {
        Text::new_aligned(text.as_str(), font, position, horizontal_align, vertical_align)
    }

    /// Creates text with the given alignment. Text holding a NUL character is
    /// refused by `requires`.
    pub fn new_aligned(
        text: &str,
        font: Font,
        position: Point2<i16>,
        horizontal_align: HAlign,
        vertical_align: VAlign,
    ) -> (r: Text)
        requires
            !text.spec_bytes().contains(0u8),
        ensures
            r.text_spec() == text.spec_bytes(),
            r.font_spec() == font,
            r.position_spec() == position,
            r.align_spec() == (horizontal_align, vertical_align),
    {
        let bytes = text.as_bytes();
        let mut out: Vec<u8> = Vec::new();
        let mut i: usize = 0;
        while i < bytes.len()
            invariant
                i <= bytes@.len(),
                out@ == bytes@.take(i as int),
            decreases bytes@.len() - i,
        {
            out.push(bytes[i]);
            i = i + 1;
            assert(out@ =~= bytes@.take(i as int));
        }
        assert(bytes@.take(i as int) =~= bytes@);
        Text { position, text: out, font, horizontal_align, vertical_align }
    }

    /// Sets the text's alignment.
    pub fn align(&mut self, horizontal_align: HAlign, vertical_align: VAlign)
        ensures
            final(self).align_spec() == (horizontal_align, vertical_align),
            final(self).text_spec() == old(self).text_spec(),
            final(self).font_spec() == old(self).font_spec(),
            final(self).position_spec() == old(self).position_spec(),
    {
        self.horizontal_align = horizontal_align;
        self.vertical_align = vertical_align;
    }

    /// Draws the text in `color`, over `bg_color` when given, given its width
    /// and height as VEXos measures them in its font; gives the request.
    ///
    /// Centered text is moved left (or up) by half its extent, right- (or
    /// bottom-) aligned text by all of it. Coordinates that leave the `i16`
    /// range are refused by `requires`.
    pub fn draw(&self, display: &mut Display, color: Rgb, bg_color: Option<Rgb>, width: u16, height: u16) -> (r:
        DrawCommand)
        requires
            fits_i16(
                aligned_start(
                    self.position_spec().x,
                    width,
                    self.align_spec().0 == HAlign::Center,
                    self.align_spec().0 == HAlign::Right,
                ),
            ),
            fits_i16(
                aligned_start(
                    self.position_spec().y,
                    height,
                    self.align_spec().1 == VAlign::Center,
                    self.align_spec().1 == VAlign::Bottom,
                ) + HEADER_HEIGHT,
            ),
            fits_i16(
                aligned_start(
                    self.position_spec().y,
                    height,
                    self.align_spec().1 == VAlign::Center,
                    self.align_spec().1 == VAlign::Bottom,
                ),
            ),
        ensures
            *final(display) == *old(display),
            r matches DrawCommand::Text { x, y, fg, bg, font, text } && x == aligned_start(
                self.position_spec().x,
                width,
                self.align_spec().0 == HAlign::Center,
                self.align_spec().0 == HAlign::Right,
            ) && y == aligned_start(
                self.position_spec().y,
                height,
                self.align_spec().1 == VAlign::Center,
                self.align_spec().1 == VAlign::Bottom,
            ) + HEADER_HEIGHT && fg == rgb_word(color) && bg == match bg_color {
                Some(c) => Some(rgb_word(c)),
                None => None::<u32>,
            } && font == self.font_spec() && text@ == self.text_spec(),
    {
        let x: i16 = match self.horizontal_align {
            HAlign::Left => self.position.x,
            HAlign::Center => self.position.x - ((width / 2) as i16),
            HAlign::Right => self.position.x - (width as i16),
        };
        let y: i16 = match self.vertical_align {
            VAlign::Top => self.position.y,
            VAlign::Center => self.position.y - ((height / 2) as i16),
            VAlign::Bottom => self.position.y - (height as i16),
        };
        let bg = match bg_color {
            Some(c) => Some(c.into_raw()),
            None => None,
        };
        DrawCommand::Text {
            x: x as i32,
            y: (y + HEADER_HEIGHT) as i32,
            fg: color.into_raw(),
            bg,
            font: self.font,
            text: self.text.clone(),
        }
    }
}

/// The state of a touch on the screen.
#[derive(Debug, Clone, Copy, PartialEq, Eq, Structural)]
pub enum TouchState {
    /// The screen was released.
    Released,
    /// The screen was pressed.
    Pressed,
    /// The screen is held.
    Held,
}

/// The raw VEXos code of a touch state: 0 released, 1 pressed, 2 held.
pub open spec fn touch_code(t: TouchState) -> u8 {
    match t {
        TouchState::Released => 0,
        TouchState::Pressed => 1,
        TouchState::Held => 2,
    }
}

impl TouchState {
    /// Decodes a raw touch event; codes above 2 are refused by `requires`.
    pub fn from_raw(raw: u8) -> (r: TouchState)
        requires
            raw < 3,
        ensures
            touch_code(r) == raw,
    {
        if raw == 0 {
            TouchState::Released
        } else if raw == 1 {
            TouchState::Pressed
        } else {
            TouchState::Held
        }
    }
}

/// The touchscreen status as VEXos reports it.
#[derive(Debug, Clone, Copy, PartialEq, Eq, Structural)]
pub struct TouchStatusRaw {
    /// The raw code of the last touch event.
    pub last_event: u8,
    /// The x coordinate of the last touch.
    pub last_x: i16,
    /// The y coordinate of the last touch.
    pub last_y: i16,
    /// How many presses happened.
    pub press_count: i32,
    /// How many releases happened.
    pub release_count: i32,
}

/// A touch on the screen.
#[derive(Debug, Clone, Copy, PartialEq, Eq, Structural)]
pub struct TouchEvent {
    /// What happened.
    pub state: TouchState,
    /// Where it happened.
    pub point: Point2<i16>,
    /// How many presses happened.
    pub press_count: i32,
    /// How many releases happened.
    pub release_count: i32,
}

} // verus!
