use motion_wallpaper::geometry::{fit_aspect, virtual_bounds, Aspect};
use motion_wallpaper::{compute_aspect_rect, RectDebug};

fn rect(x: i32, y: i32, w: i32, h: i32) -> RectDebug {
    RectDebug { x, y, w, h }
}

#[test]
fn landscape_container_at_sixteen_nine_is_unchanged() {
    let c = rect(0, 0, 1920, 1080);
    assert_eq!(fit_aspect(c, 16, 9), c);
    assert_eq!(compute_aspect_rect(0, 0, 1920, 1080, "16:9"), c);
}

#[test]
fn portrait_ratio_in_landscape_container_is_centred() {
    let r = compute_aspect_rect(0, 0, 1920, 1080, "9:16");
    assert_eq!(r, rect(656, 0, 608, 1080));
    assert_eq!(fit_aspect(rect(0, 0, 1920, 1080), 9, 16), rect(656, 0, 608, 1080));
}

#[test]
fn narrow_container_keeps_width_and_centres_vertically() {
    let r = fit_aspect(rect(10, 20, 1080, 1920), 16, 9);
    // 1080 * 9 / 16 = 607.5, rounded to 608; (1920 - 608) / 2 = 656.
    assert_eq!(r, rect(10, 676, 1080, 608));
}

#[test]
fn offset_container_keeps_its_origin() {
    let r = fit_aspect(rect(-1920, -100, 1920, 1080), 9, 16);
    assert_eq!(r, rect(-1264, -100, 608, 1080));
}

#[test]
fn fill_returns_the_container() {
    let c = rect(-5, 7, 1000, 300);
    assert_eq!(compute_aspect_rect(-5, 7, 1000, 300, "fill"), c);
    assert_eq!(compute_aspect_rect(-5, 7, 1000, 300, "FiLL"), c);
    assert_eq!(Aspect::parse("Fill"), Aspect::Fill);
}

#[test]
fn unknown_aspect_text_means_landscape() {
    assert_eq!(Aspect::parse("4:3"), Aspect::Landscape);
    assert_eq!(Aspect::parse(""), Aspect::Landscape);
    assert_eq!(Aspect::parse("9:16"), Aspect::Portrait);
    assert_eq!(Aspect::parse("fills"), Aspect::Landscape);
}

#[test]
fn zero_height_is_treated_as_fill() {
    let c = rect(3, 4, 1920, 0);
    assert_eq!(fit_aspect(c, 16, 9), c);
    assert_eq!(compute_aspect_rect(3, 4, 1920, 0, "9:16"), c);
}

#[test]
fn zero_ratio_is_treated_as_fill() {
    let c = rect(0, 0, 800, 600);
    assert_eq!(fit_aspect(c, 0, 9), c);
    assert_eq!(fit_aspect(c, 16, 0), c);
}

#[test]
fn zero_width_container() {
    assert_eq!(fit_aspect(rect(0, 0, 0, 100), 16, 9), rect(0, 50, 0, 0));
}

#[test]
fn fitting_twice_gives_the_same_rectangle() {
    for (c, rw, rh) in [
        (rect(0, 0, 1920, 1080), 9, 16),
        (rect(0, 0, 1920, 1080), 16, 9),
        (rect(100, 50, 2560, 1440), 9, 16),
        (rect(0, 0, 1080, 1920), 16, 9),
        (rect(-3840, 0, 3840, 1600), 16, 9),
    ] {
        let once = fit_aspect(c, rw, rh);
        assert_eq!(fit_aspect(once, rw, rh), once);
    }
}

#[test]
fn rounding_can_break_idempotence_on_tiny_containers() {
    let once = fit_aspect(rect(0, 0, 100, 13), 9, 16);
    assert_eq!(once, rect(47, 0, 7, 13));
    assert_eq!(fit_aspect(once, 9, 16), rect(47, 1, 7, 12));
}

#[test]
fn largest_sizes_do_not_overflow() {
    let c = rect(0, 0, i32::MAX, i32::MAX);
    assert_eq!(fit_aspect(c, u32::MAX, 1), rect(0, 1 << 30, i32::MAX, 0));
    assert_eq!(fit_aspect(c, 1, u32::MAX), rect(1 << 30, 0, 0, i32::MAX));
}

#[test]
fn virtual_bounds_of_one_monitor_is_that_monitor() {
    let m = rect(0, 0, 1920, 1080);
    assert_eq!(virtual_bounds(&vec![m]), Some(m));
}

#[test]
fn virtual_bounds_of_two_monitors_covers_both() {
    let a = rect(0, 0, 1920, 1080);
    let b = rect(1920, 0, 1280, 1024);
    let u = virtual_bounds(&vec![a, b]).unwrap();
    assert_eq!(u, rect(0, 0, 3200, 1080));
    for m in [a, b] {
        assert!(u.x <= m.x && u.y <= m.y);
        assert!(m.x + m.w <= u.x + u.w && m.y + m.h <= u.y + u.h);
    }
}

#[test]
fn virtual_bounds_with_negative_origin() {
    let a = rect(0, 0, 1920, 1080);
    let b = rect(-1280, -200, 1280, 1024);
    assert_eq!(virtual_bounds(&vec![a, b]), Some(rect(-1280, -200, 3200, 1280)));
}

#[test]
fn virtual_bounds_of_nothing_is_none() {
    assert_eq!(virtual_bounds(&vec![]), None);
}

#[test]
fn virtual_bounds_too_wide_is_none() {
    let a = rect(i32::MIN, 0, 10, 10);
    let b = rect(i32::MAX - 10, 0, 10, 10);
    assert_eq!(virtual_bounds(&vec![a, b]), None);
}

#[test]
fn default_rect_is_empty_at_origin() {
    assert_eq!(RectDebug::default(), rect(0, 0, 0, 0));
}
