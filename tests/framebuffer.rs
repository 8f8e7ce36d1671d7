use super_pixeled::{Color, Framebuffer, Point};

#[test]
fn test_new() {
    let fb = Framebuffer::new(64, 32);
    assert_eq!(fb.width(), 64);
    assert_eq!(fb.height(), 32);
    assert_eq!(fb.pixel_count(), 2048);
}

#[test]
fn test_set_get() {
    let mut fb = Framebuffer::new(64, 32);
    let point = Point::new(10, 5);
    let color = Color::new(255, 0, 0);

    fb.set(point, color);
    assert_eq!(fb.get(point), Some(color));
}

#[test]
fn test_out_of_bounds() {
    let mut fb = Framebuffer::new(64, 32);
    let out = Point::new(100, 100);

    fb.set(out, Color::new(255, 0, 0)); // Should not panic
    assert_eq!(fb.get(out), None);
}

#[test]
fn test_fill() {
    let mut fb = Framebuffer::new(8, 8);
    fb.fill(Color::new(0, 0, 255));

    for y in 0..8 {
        for x in 0..8 {
            assert_eq!(fb.get(Point::new(x, y)), Some(Color::new(0, 0, 255)));
        }
    }
}

#[test]
fn set_then_get_every_cell_and_edges() {
    let mut fb = Framebuffer::new(4, 3);
    let before: Vec<Color> = fb.data().to_vec();
    for (x, y) in [(-1, 0), (0, -1), (4, 0), (0, 3), (i32::MAX, i32::MAX), (i32::MIN, 0)] {
        fb.set(Point::new(x, y), Color::new(9, 9, 9));
        assert_eq!(fb.get(Point::new(x, y)), None);
    }
    assert_eq!(fb.data(), &before[..]);
    for y in 0..3 {
        for x in 0..4 {
            let c = Color::new(x as u8, y as u8, 7);
            fb.set(Point::new(x, y), c);
            assert_eq!(fb.get(Point::new(x, y)), Some(c));
        }
    }
    assert_eq!(fb.data()[2 * 4 + 1], Color::new(1, 2, 7));
}

#[test]
fn new_frame_is_black_and_clear_blackens() {
    let mut fb = Framebuffer::new(5, 2);
    assert!(fb.data().iter().all(|c| *c == Color::black()));
    fb.fill(Color::white());
    fb.clear();
    assert!(fb.data().iter().all(|c| *c == Color::black()));
}

#[test]
fn empty_frame() {
    let fb = Framebuffer::new(0, 7);
    assert_eq!(fb.pixel_count(), 0);
    assert_eq!(fb.get(Point::new(0, 0)), None);
}

#[test]
fn lines_and_rectangles_clip_to_the_grid() {
    let red = Color::new(255, 0, 0);
    let mut fb = Framebuffer::new(6, 4);
    fb.draw_hline(1, 4, -3, red);
    for x in 0..6 {
        let want = if x <= 4 { Some(red) } else { Some(Color::black()) };
        assert_eq!(fb.get(Point::new(x, 1)), want);
    }
    assert_eq!(fb.get(Point::new(0, 0)), Some(Color::black()));

    let mut fb = Framebuffer::new(6, 4);
    fb.draw_vline(2, 10, 2, red);
    for y in 0..4 {
        let want = if y >= 2 { Some(red) } else { Some(Color::black()) };
        assert_eq!(fb.get(Point::new(2, y)), want);
    }

    let mut fb = Framebuffer::new(6, 4);
    fb.fill_rect(-1, 1, 3, 2, red);
    let painted: Vec<(i32, i32)> = (0..4)
        .flat_map(|y| (0..6).map(move |x| (x, y)))
        .filter(|&(x, y)| fb.get(Point::new(x, y)) == Some(red))
        .collect();
    assert_eq!(painted, vec![(0, 1), (1, 1), (0, 2), (1, 2)]);

    let mut fb = Framebuffer::new(6, 4);
    fb.fill_rect(1, 1, 0, 3, red);
    assert!(fb.data().iter().all(|c| *c == Color::black()));
}
