use vexide_devices::color::Rgb;
use vexide_devices::display::{
    fraction_from_parts, gcd, Circle, Display, DrawCommand, Font, FontFamily, FontSize, HAlign, Rect, RenderCommand,
    RenderMode, Text, TouchState, TouchStatusRaw, VAlign,
};
use vexide_devices::geometry::Point2;

#[test]
fn console_shows_lines_on_newline_and_keeps_the_rest() {
    let mut d = Display::new();
    let lines = d.write_str("hello\nwor");
    assert_eq!(lines.len(), 1);
    assert_eq!(lines[0].text, b"hello\0".to_vec());
    assert_eq!(lines[0].line, 1);
    assert!(!lines[0].scroll);
    let lines = d.write_str("ld\n");
    assert_eq!(lines.len(), 1);
    assert_eq!(lines[0].text, b"world\0".to_vec());
    assert_eq!(lines[0].line, 2);
}

#[test]
fn console_wraps_at_twenty_characters() {
    let mut d = Display::new();
    let lines = d.write_str("abcdefghijklmnopqrstuvwxyz");
    assert_eq!(lines.len(), 1);
    assert_eq!(lines[0].text, b"abcdefghijklmnopqrst\0".to_vec());
    let lines = d.write_str("\n");
    assert_eq!(lines[0].text, b"uvwxyz\0".to_vec());
}

#[test]
fn console_replaces_non_ascii_and_scrolls_at_the_bottom() {
    let mut d = Display::new();
    let lines = d.write_str("é\n");
    assert_eq!(lines[0].text, b"?\0".to_vec());
    let lines = d.write_str("\n\n\n\n\n\n\n\n\n\n\n\n");
    assert_eq!(lines.len(), 12);
    assert_eq!(lines[9].line, 11);
    assert!(!lines[9].scroll);
    assert!(lines[10].scroll);
    assert_eq!(lines[11].line, 11);
}

#[test]
fn render_modes() {
    let mut d = Display::new();
    assert_eq!(d.render(), None);
    assert_eq!(
        d.set_render_mode(RenderMode::DoubleBuffered),
        RenderCommand::Render { vsync_wait: false, run_scheduler: true }
    );
    assert_eq!(d.render_mode(), RenderMode::DoubleBuffered);
    assert_eq!(d.render(), Some(RenderCommand::Render { vsync_wait: false, run_scheduler: false }));
    assert_eq!(d.set_render_mode(RenderMode::Immediate), RenderCommand::DisableDoubleBuffer);
}

#[test]
fn shapes_are_drawn_below_the_header() {
    let mut d = Display::new();
    let c = Circle::new(Point2 { x: 10, y: 20 }, 5);
    match d.fill(&c, Rgb::new(1, 2, 3)) {
        DrawCommand::CircleFill { x, y, radius, color } => {
            assert_eq!((x, y, radius, color), (10, 52, 5, 0x010203));
        }
        other => panic!("unexpected {other:?}"),
    }
    let r = Rect::from_dimensions_centered(Point2 { x: 100, y: 100 }, 21, 10);
    assert_eq!(r.start, Point2 { x: 90, y: 95 });
    // Both corners are drawn: 21 by 10 pixels.
    assert_eq!(r.end, Point2 { x: 110, y: 104 });
    let r = Rect::from_dimensions(Point2 { x: 5, y: 6 }, 3, 4);
    assert_eq!((1 + r.end.x - r.start.x, 1 + r.end.y - r.start.y), (3, 4));
    match d.erase(Rgb::new(0, 0, 0)) {
        DrawCommand::RectFill { x0, y0, x1, y1, .. } => assert_eq!((x0, y0, x1, y1), (0, 32, 480, 272)),
        other => panic!("unexpected {other:?}"),
    }
}

#[test]
fn text_is_aligned_before_drawing() {
    let mut d = Display::new();
    let font = Font::new(FontSize::medium(), FontFamily::Monospace);
    let t = Text::new_aligned("hi", font, Point2 { x: 100, y: 50 }, HAlign::Center, VAlign::Bottom);
    match d.draw_text(&t, Rgb::new(255, 255, 255), None, 30, 12) {
        DrawCommand::Text { x, y, bg, text, .. } => {
            assert_eq!((x, y), (85, 70));
            assert_eq!(bg, None);
            assert_eq!(text, b"hi".to_vec());
        }
        other => panic!("unexpected {other:?}"),
    }
    let t = Text::from_str(String::from("ok"), font, Point2 { x: 1, y: 2 });
    match t.draw(&mut d, Rgb::new(0, 0, 0), Some(Rgb::new(0, 0, 1)), 10, 10) {
        DrawCommand::Text { x, y, bg, .. } => assert_eq!((x, y, bg), (1, 34, Some(1))),
        other => panic!("unexpected {other:?}"),
    }
}

#[test]
fn gcd_and_font_sizes() {
    assert_eq!(gcd(12, 18), 6);
    assert_eq!(gcd(7, 5), 1);
    assert_eq!(FontSize::default(), FontSize::medium());
    assert_eq!(FontSize::extra_large(), FontSize::new(2, 3));
    assert_eq!(FontFamily::Proportional.name(), "proportional");
}

#[test]
fn touch_status_is_decoded() {
    let d = Display::new();
    let e = d.touch_status(TouchStatusRaw { last_event: 2, last_x: 3, last_y: 4, press_count: 5, release_count: 6 });
    assert_eq!(e.state, TouchState::Held);
    assert_eq!(e.point, Point2 { x: 3, y: 4 });
    assert_eq!((e.press_count, e.release_count), (5, 6));
}

#[test]
fn font_size_fractions_from_parts() {
    // 1.5 at a precision of 10000.
    assert_eq!(fraction_from_parts(1, 5000, 10_000), (3, 2));
    // 0.25.
    assert_eq!(fraction_from_parts(0, 2500, 10_000), (1, 4));
    // 2.3333: the scaled part shares no divisor with the precision.
    assert_eq!(fraction_from_parts(2, 3333, 10_000), (23_333, 10_000));
}

#[test]
fn text_keeps_its_bytes_and_font() {
    let font = Font::new(FontSize::new(1, 2), FontFamily::Proportional);
    let t = Text::new("hi there", font, Point2 { x: 3, y: 4 });
    assert_eq!(t.bytes(), b"hi there");
    assert_eq!(t.font(), font);
}

#[test]
fn console_lines_hold_no_nul_or_newline_but_their_terminator() {
    let mut d = Display::new();
    let lines = d.write_str("a\0b\u{e9}\nxyz0123456789abcdefghij");
    // NUL and non-ASCII characters are shown as '?'.
    assert_eq!(lines[0].text, b"a?b?\0".to_vec());
    for l in &lines {
        let (last, body) = l.text.split_last().unwrap();
        assert_eq!(*last, 0);
        assert!(body.len() <= 20);
        assert!(body.iter().all(|&b| b != 0 && b != b'\n'));
    }
}
