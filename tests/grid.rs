use threegui::grid::{grid_lines, GridLine};

fn line(x0: i64, z0: i64, x1: i64, z1: i64) -> GridLine {
    GridLine { x0, z0, x1, z1 }
}

#[test]
fn no_divisions_no_lines() {
    assert!(grid_lines(0).is_empty());
}

#[test]
fn one_division_grid() {
    assert_eq!(
        grid_lines(1),
        vec![
            line(-1, -1, 1, -1),
            line(-1, -1, -1, 1),
            line(-1, 0, 1, 0),
            line(0, -1, 0, 1),
            line(-1, 1, 1, 1),
            line(1, -1, 1, 1),
        ]
    );
}

#[test]
fn ten_division_grid() {
    let lines = grid_lines(10);
    assert_eq!(lines.len(), 42);
    assert_eq!(lines[0], line(-10, -10, 10, -10));
    assert_eq!(lines[1], line(-10, -10, -10, 10));
    assert_eq!(lines[20], line(-10, 0, 10, 0));
    assert_eq!(lines[21], line(0, -10, 0, 10));
    assert_eq!(lines[41], line(10, -10, 10, 10));
    for (i, l) in lines.iter().enumerate() {
        if i % 2 == 0 {
            assert_eq!((l.x0, l.x1), (-10, 10));
            assert_eq!(l.z0, l.z1);
        } else {
            assert_eq!((l.z0, l.z1), (-10, 10));
            assert_eq!(l.x0, l.x1);
        }
    }
}

#[test]
fn many_divisions() {
    let k = 1u32 << 20;
    let lines = grid_lines(k);
    assert_eq!(lines.len(), 2 * (2 * k as usize + 1));
    assert_eq!(lines[lines.len() - 1], line(k as i64, -(k as i64), k as i64, k as i64));
}
