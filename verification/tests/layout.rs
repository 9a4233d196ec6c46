use audit_viewer::layout::{screen_areas, Area};

fn area(x: u16, y: u16, width: u16, height: u16) -> Area {
    Area { x, y, width, height }
}

fn inside(size: Area) -> Area {
    if size.width < 2 || size.height < 2 {
        area(0, 0, 0, 0)
    } else {
        area(size.x + 1, size.y + 1, size.width - 2, size.height - 2)
    }
}

fn check(size: Area) {
    let whole = inside(size);
    let r = screen_areas(size);
    let heights = match whole.height {
        0 => [0, 0, 0, 0],
        1 => [0, 0, 1, 0],
        2 => [0, 0, 1, 1],
        3 => [1, 0, 1, 1],
        4 => [1, 1, 1, 1],
        rows => [1, 2, rows - 4, 1],
    };
    let mut y = whole.y;
    for (part, height) in [r.header, r.tabs, r.body, r.footer].into_iter().zip(heights) {
        assert_eq!(part, Area { y, height, ..whole }, "{:?}", size);
        y += height;
    }
    let left = (2 * u32::from(r.body.width) + 5) / 10;
    assert_eq!(u32::from(r.modules.width), left, "{:?}", size);
    assert_eq!(r.modules, Area { width: left as u16, ..r.body }, "{:?}", size);
    assert_eq!(
        r.content,
        Area { x: r.body.x + left as u16, width: r.body.width - left as u16, ..r.body },
        "{:?}",
        size
    );
}

#[test]
fn a_usual_terminal_is_divided() {
    let r = screen_areas(area(0, 0, 80, 24));
    assert_eq!(r.header, area(1, 1, 78, 1));
    assert_eq!(r.tabs, area(1, 2, 78, 2));
    assert_eq!(r.body, area(1, 4, 78, 18));
    assert_eq!(r.modules, area(1, 4, 16, 18));
    assert_eq!(r.content, area(17, 4, 62, 18));
    assert_eq!(r.footer, area(1, 22, 78, 1));
}

#[test]
fn small_terminals_are_divided() {
    for height in 0..10 {
        for width in 0..40 {
            check(area(0, 0, width, height));
        }
    }
}

#[test]
fn low_terminals_are_divided_alike_everywhere() {
    for y in 0..400 {
        for height in 0..8 {
            check(area(y, y * 150, 30, height));
        }
    }
}

#[test]
fn every_width_is_divided() {
    for width in 0..600 {
        check(area(0, 0, width, 12));
    }
}

#[test]
fn other_terminals_are_divided() {
    for (width, height) in [(100, 30), (101, 31), (171, 51), (255, 100), (1000, 60), (3, 500)] {
        check(area(0, 0, width, height));
        check(area(7, 13, width, height));
    }
    check(area(0, 0, u16::MAX, 40));
    check(area(0, 0, 40, u16::MAX));
    check(area(60000, 60000, 5000, 5000));
}

#[test]
fn no_part_reaches_beyond_the_last_coordinate() {
    let r = screen_areas(area(65000, 0, 2000, 24));
    assert_eq!(r.header, area(65001, 1, 1998, 1));
    assert_eq!(r.modules, area(65001, 4, 107, 18));
    assert_eq!(r.content, area(65108, 4, 427, 18));
}

#[test]
fn rows_end_at_the_last_coordinate() {
    let r = screen_areas(area(0, 65533, 30, 6));
    assert_eq!(r.header, area(1, 65534, 28, 0));
    assert_eq!(r.tabs, area(1, 65534, 28, 0));
    assert_eq!(r.body, area(1, 65534, 28, 1));
    assert_eq!(r.footer, area(1, 65535, 28, 0));
}
