use vexide_devices::color::Rgb;
use vexide_devices::display::{Display, DrawCommand, RenderCommand, RenderMode, TouchEvent, TouchState};
use vexide_devices::geometry::Point2;
use vexide_devices::graphics::{BrainDisplay, PointerEvent, V5Platform};
use vexide_devices::screen::{Rect, Screen, ScreenCommand, ScreenError};

#[test]
fn screen_console_shows_each_line_then_the_pending_text() {
    let mut s = Screen::new();
    let lines = s.write_str("ab\ncd");
    assert_eq!(lines.len(), 2);
    assert_eq!(lines[0].text, vec!['a', 'b']);
    assert_eq!((lines[0].line, lines[0].scroll), (0, false));
    assert_eq!(lines[1].text, vec!['c', 'd']);
    assert_eq!(lines[1].line, 1);
}

#[test]
fn screen_draw_buffer_checks_its_size() {
    let mut s = Screen::new();
    let region = Rect::new(Point2 { x: 0, y: 0 }, Point2 { x: 2, y: 2 });
    let px = [Rgb::new(1, 0, 0); 4];
    match s.draw_buffer(region, &px, 2) {
        Ok(DrawCommand::CopyRect { y0, y1, pixels, stride, .. }) => {
            assert_eq!((y0, y1, stride), (32, 34, 2));
            assert_eq!(pixels, vec![0x010000; 4]);
        }
        other => panic!("unexpected {other:?}"),
    }
    match s.draw_buffer(region, &px[..3], 2) {
        Err(e) => assert_eq!(e, ScreenError::BufferSize { buffer_size: 3, expected_size: 4 }),
        Ok(c) => panic!("unexpected {c:?}"),
    }
    assert_eq!(s.erase(Rgb::new(0, 0, 1)), ScreenCommand::Erase { color: 1 });
}

#[test]
fn brain_display_paints_and_copies_the_frame() {
    let (mut b, c) = BrainDisplay::new(Screen::new());
    assert_eq!(c, RenderCommand::Render { vsync_wait: false, run_scheduler: true });
    let (copy, render) = b.draw_pixels(&[(1, 0, Rgb::new(0, 0, 9)), (0, 1, Rgb::new(0, 1, 0)), (1, 0, Rgb::new(0, 0, 7))]);
    match copy {
        DrawCommand::CopyRect { x0, y0, x1, y1, pixels, stride } => {
            assert_eq!((x0, y0, x1, y1, stride), (0, 32, 480, 240, 480));
            assert_eq!(pixels.len(), 480 * 240);
            assert_eq!(pixels[1], 7);
            assert_eq!(pixels[480], 0x100);
            assert_eq!(pixels[0], 0);
        }
        other => panic!("unexpected {other:?}"),
    }
    assert_eq!(render, Some(RenderCommand::Render { vsync_wait: false, run_scheduler: false }));
}

fn touch(state: TouchState, x: i16, y: i16) -> TouchEvent {
    TouchEvent { state, point: Point2 { x, y }, press_count: 0, release_count: 0 }
}

#[test]
fn pointer_press_is_reported_once() {
    let mut p = V5Platform::new(Display::new(), 0);
    assert_eq!(p.touch_event(touch(TouchState::Pressed, 1, 2)), PointerEvent::Pressed { x: 1, y: 2 });
    assert_eq!(p.touch_event(touch(TouchState::Pressed, 3, 4)), PointerEvent::Moved { x: 3, y: 4 });
    assert_eq!(p.touch_event(touch(TouchState::Held, 5, 6)), PointerEvent::Moved { x: 5, y: 6 });
    assert_eq!(p.touch_event(touch(TouchState::Released, 5, 6)), PointerEvent::Released { x: 5, y: 6 });
    assert_eq!(p.touch_event(touch(TouchState::Pressed, 0, 0)), PointerEvent::Pressed { x: 0, y: 0 });
}

#[test]
fn render_mode_of_screen() {
    let mut s = Screen::new();
    assert_eq!(s.render(), None);
    s.set_render_mode(RenderMode::DoubleBuffered);
    assert_eq!(s.render_mode(), RenderMode::DoubleBuffered);
}

#[test]
fn point_arithmetic() {
    let a = Point2 { x: 3i16, y: -4 };
    let b = Point2 { x: 1i16, y: 2 };
    assert_eq!(a + b, Point2 { x: 4, y: -2 });
    assert_eq!(a - b, Point2 { x: 2, y: -6 });
    assert_eq!(a * 2, Point2 { x: 6, y: -8 });
    assert_eq!(-a, Point2 { x: -3, y: 4 });
    assert_eq!(Point2::from((1i16, 2i16)), Point2 { x: 1, y: 2 });
    assert_eq!(Point2::from([5i16, 6]), Point2 { x: 5, y: 6 });
}

#[test]
fn screen_console_keeps_every_character_and_stays_on_screen() {
    let mut s = Screen::new();
    let mut shown: Vec<char> = Vec::new();
    let mut last_line = 0;
    for _ in 0..15 {
        let lines = s.write_str("xy\n");
        for l in &lines {
            shown.extend(l.text.iter());
            last_line = l.line;
            assert!(l.line < 12);
        }
    }
    let lines = s.write_str("z");
    let pending: Vec<char> = lines.last().unwrap().text.clone();
    let expected: Vec<char> = "xy".repeat(15).chars().collect();
    // Each write also reports the pending line, empty here, last.
    assert_eq!(shown, expected);
    assert_eq!(pending, vec!['z']);
    assert_eq!(last_line, 11);
}
