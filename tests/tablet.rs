use sigpad::canvas::{Canvas, Rgba};
use sigpad::stroke::{Point, Segment, StrokeTracker};
use sigpad::tablet::{Tablet, HEIGHT, WIDTH};

const BLACK: Rgba = Rgba { r: 0, g: 0, b: 0, a: 255 };

/// Strokes `seg` onto the raster with tiny-skia: anti-aliased, round caps and joins.
fn stroke(seg: Segment, width: u32, height: u32, mut pixels: Vec<u8>) -> Vec<u8> {
    {
        let mut pixmap = tiny_skia::PixmapMut::from_bytes(&mut pixels, width, height).unwrap();
        let mut paint = tiny_skia::Paint::default();
        paint.set_color_rgba8(seg.color.r, seg.color.g, seg.color.b, seg.color.a);
        paint.anti_alias = true;
        let mut pb = tiny_skia::PathBuilder::new();
        pb.move_to(seg.from.x as f32, seg.from.y as f32);
        pb.line_to(seg.to.x as f32, seg.to.y as f32);
        let path = pb.finish().unwrap();
        let style = tiny_skia::Stroke {
            width: seg.width as f32,
            line_cap: tiny_skia::LineCap::Round,
            line_join: tiny_skia::LineJoin::Round,
            ..Default::default()
        };
        pixmap.stroke_path(&path, &paint, &style, tiny_skia::Transform::identity(), None);
    }
    pixels
}

fn decode_png(bytes: &[u8]) -> (u32, u32, Vec<u8>) {
    let decoder = png::Decoder::new(bytes);
    let mut reader = decoder.read_info().unwrap();
    let mut buf = vec![0; reader.output_buffer_size()];
    let info = reader.next_frame(&mut buf).unwrap();
    buf.truncate(info.buffer_size());
    (info.width, info.height, buf)
}

#[test]
fn fresh_tablet_is_blank_and_disarmed() {
    let t = Tablet::default();
    assert_eq!(t.width(), 500);
    assert_eq!(t.height(), 100);
    assert_eq!((WIDTH, HEIGHT), (500, 100));
    assert!(!t.is_armed());
    assert!(!t.state);
    assert_eq!(t.total_points(), 0);
    assert_eq!(t.pixels().len(), 500 * 100 * 4);
    assert!(t.pixels().iter().all(|b| *b == 255));
}

#[test]
fn clear_after_strokes_leaves_no_points() {
    let mut t = Tablet::default();
    t.draw_start(5, 5);
    t.draw(100, 50, BLACK, 3, stroke);
    t.draw(200, 80, BLACK, 3, stroke);
    t.draw_end();
    t.draw_start(300, 10);
    t.draw(310, 90, BLACK, 2, stroke);
    assert!(t.total_points() > 0);
    t.clear();
    assert_eq!(t.total_points(), 0);
    let (w, h, data) = decode_png(&t.to_png().unwrap());
    assert_eq!((w, h), (500, 100));
    assert!(data.iter().all(|b| *b == 255));
}

#[test]
fn first_sample_of_a_stroke_draws_nothing() {
    let mut t = Tablet::default();
    t.draw_end();
    let mut called = false;
    t.draw(40, 40, BLACK, 5, |s, w, h, v| {
        called = true;
        stroke(s, w, h, v)
    });
    assert!(!called);
    assert_eq!(t.total_points(), 0);
    // The sample now starts the stroke: the next one is joined to it.
    t.draw(60, 40, BLACK, 5, stroke);
    assert!(t.total_points() > 0);
}

#[test]
fn sample_after_start_joins_the_start_point() {
    let mut t = Tablet::default();
    t.draw_start(7, 8);
    let mut seen = None;
    t.draw(9, 10, BLACK, 4, |s, _w, _h, v| {
        seen = Some(s);
        v
    });
    assert_eq!(
        seen,
        Some(Segment { from: Point { x: 7, y: 8 }, to: Point { x: 9, y: 10 }, color: BLACK, width: 4 })
    );
}

#[test]
fn vertical_segment_point_count_bounds() {
    let mut t = Tablet::default();
    let before = t.total_points();
    t.draw_start(10, 10);
    t.draw(10, 20, BLACK, 1, stroke);
    let added = t.total_points() - before;
    assert!(added >= 11, "added {}", added);
    // width 1, length 10: at most (width + 2) * (length + width + 2) pixels
    assert!(added <= 3 * 13, "added {}", added);
}

#[test]
fn render_result_of_wrong_length_is_ignored() {
    let mut t = Tablet::default();
    t.draw_start(1, 1);
    t.draw(50, 50, BLACK, 2, |_s, _w, _h, _v| vec![0u8; 12]);
    assert_eq!(t.total_points(), 0);
    assert!(t.pixels().iter().all(|b| *b == 255));
}

#[test]
fn snapshot_twice_is_identical() {
    let mut t = Tablet::default();
    t.draw_start(10, 10);
    t.draw(90, 60, BLACK, 2, stroke);
    let a = t.to_png().unwrap();
    let b = t.to_png().unwrap();
    assert_eq!(a, b);
    assert_eq!(&a[..8], &[137, 80, 78, 71, 13, 10, 26, 10]);
}

#[test]
fn snapshot_decodes_to_the_raster() {
    let mut t = Tablet::default();
    t.draw_start(20, 20);
    t.draw(20, 60, BLACK, 3, stroke);
    let (w, h, data) = decode_png(&t.to_png().unwrap());
    assert_eq!((w, h), (500, 100));
    let inked = data.chunks(4).filter(|p| *p != [255, 255, 255, 255]).count();
    assert_eq!(inked, t.total_points());
}

#[test]
fn readers_agree_and_clear_is_whole() {
    let lock = std::sync::RwLock::new(Tablet::default());
    {
        let mut t = lock.write().unwrap();
        t.draw_start(0, 0);
        t.draw(499, 99, BLACK, 3, stroke);
    }
    let before;
    {
        let r1 = lock.read().unwrap();
        let r2 = lock.read().unwrap();
        let r3 = lock.read().unwrap();
        before = r1.total_points();
        assert!(before > 0);
        assert_eq!(r2.total_points(), before);
        assert_eq!(r3.total_points(), before);
    }
    lock.write().unwrap().clear();
    let r = lock.read().unwrap();
    assert_eq!(r.total_points(), 0);
    assert!(r.pixels().iter().all(|b| *b == 255));
}

#[test]
fn clear_primes_the_origin_by_default() {
    let mut t = Tablet::default();
    t.clear();
    let mut seen = None;
    t.draw(30, 40, BLACK, 1, |s, _w, _h, v| {
        seen = Some(s);
        v
    });
    assert_eq!(seen.map(|s| s.from), Some(Point { x: 0, y: 0 }));
}

#[test]
fn clear_without_priming_leaves_no_stroke() {
    let mut t = Tablet::default();
    t.set_primes_origin_on_clear(false);
    t.draw_start(3, 3);
    t.clear();
    let mut called = false;
    t.draw(30, 40, BLACK, 1, |_s, _w, _h, v| {
        called = true;
        v
    });
    assert!(!called);
}

#[test]
fn armed_flag_round_trip() {
    let mut t = Tablet::default();
    t.set_armed(true);
    assert!(t.is_armed());
    t.reset();
    assert!(!t.is_armed());
}

#[test]
fn reset_restores_a_fresh_tablet() {
    let mut t = Tablet::default();
    t.set_armed(true);
    t.draw_start(10, 10);
    t.draw(60, 60, BLACK, 4, stroke);
    t.reset();
    assert!(!t.is_armed());
    assert_eq!(t.total_points(), 0);
    let mut called = false;
    t.draw(1, 1, BLACK, 1, |_s, _w, _h, v| {
        called = true;
        v
    });
    assert!(!called);
}

#[test]
fn canvas_sizes() {
    assert!(Canvas::new(0, 10).is_none());
    assert!(Canvas::new(10, 0).is_none());
    assert!(Canvas::new(0x2000_0000, 1).is_none());
    let c = Canvas::new(3, 2).unwrap();
    assert_eq!((c.width(), c.height()), (3, 2));
    assert_eq!(c.pixels().len(), 24);
    assert_eq!(c.count_non_blank(), 0);
}

#[test]
fn set_pixel_in_and_out_of_bounds() {
    let mut c = Canvas::new(4, 3).unwrap();
    let red = Rgba { r: 255, g: 0, b: 0, a: 255 };
    c.set_pixel(2, 1, red);
    assert_eq!(c.pixel(2, 1), red);
    assert_eq!(&c.pixels()[(1 * 4 + 2) * 4..(1 * 4 + 2) * 4 + 4], &[255, 0, 0, 255]);
    assert_eq!(c.count_non_blank(), 1);
    c.set_pixel(-1, 0, red);
    c.set_pixel(4, 0, red);
    c.set_pixel(0, 3, red);
    assert_eq!(c.count_non_blank(), 1);
    c.set_pixel(0, 0, Rgba { r: 255, g: 255, b: 255, a: 254 });
    assert_eq!(c.count_non_blank(), 2);
    c.fill_blank();
    assert_eq!(c.count_non_blank(), 0);
}

#[test]
fn canvas_png_is_a_png_of_its_size() {
    let mut c = Canvas::new(7, 5).unwrap();
    c.set_pixel(1, 1, BLACK);
    let bytes = c.encode_png().unwrap();
    let (w, h, data) = decode_png(&bytes);
    assert_eq!((w, h), (7, 5));
    assert_eq!(&data[(1 * 7 + 1) * 4..(1 * 7 + 1) * 4 + 4], &[0, 0, 0, 255]);
}

#[test]
fn replace_pixels_checks_length() {
    let mut c = Canvas::new(2, 2).unwrap();
    assert!(!c.replace_pixels(vec![0u8; 15]));
    assert_eq!(c.count_non_blank(), 0);
    assert!(c.replace_pixels(vec![0u8; 16]));
    assert_eq!(c.count_non_blank(), 4);
}

#[test]
fn stroke_tracker_transitions() {
    let mut s = StrokeTracker::idle();
    assert_eq!(s.sample(Point { x: 1, y: 2 }, BLACK, 1), None);
    let seg = s.sample(Point { x: 3, y: 4 }, BLACK, 2);
    assert_eq!(
        seg,
        Some(Segment { from: Point { x: 1, y: 2 }, to: Point { x: 3, y: 4 }, color: BLACK, width: 2 })
    );
    s.end();
    assert_eq!(s.last, None);
    s.start(Point { x: 9, y: 9 });
    assert_eq!(s.last, Some(Point { x: 9, y: 9 }));
}
