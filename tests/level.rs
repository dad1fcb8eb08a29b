use bambu::level::{measurement_points, LevelMap, Point};

fn sample_grid() -> LevelMap {
    LevelMap::new(vec![Point::new(25000, 25000, 272, 45), Point::new(66200, 25000, 42, 37)])
}

#[test]
fn grid_construction() {
    let l = sample_grid();
    assert_eq!(l.xs, vec![25000, 66200]);
    assert_eq!(l.ys, vec![25000]);
    assert_eq!(l.value(25000, 25000).map(|p| p.c), Some(272));
    assert!(l.value(1000, 1000).is_none());
    assert_eq!(l.points.len(), 2);
}

#[test]
fn render_exactness() {
    let text = sample_grid().render();
    let lines: Vec<&str> = text.lines().collect();
    assert_eq!(lines.len(), 2);
    assert_eq!(lines[0], format!("{}{}", " ".repeat(8), "25.0   66.2   "));
    assert_eq!(lines[1], format!("{}{}", " 25.0: ", " 0.272  0.042 "));
    assert_eq!(text, "        25.0   66.2   \n 25.0:  0.272  0.042 \n");
}

#[test]
fn axes_keep_first_seen_order_and_points_are_not_merged() {
    let l = LevelMap::new(vec![
        Point::new(5000, 9000, 1, 0),
        Point::new(1000, 9000, 2, 0),
        Point::new(5000, 2000, 3, 0),
        Point::new(5000, 9000, 4, 0),
    ]);
    assert_eq!(l.xs, vec![5000, 1000]);
    assert_eq!(l.ys, vec![9000, 2000]);
    assert_eq!(l.points.len(), 4);
    assert_eq!(l.value(5000, 9000).map(|p| p.c), Some(1));
}

#[test]
fn render_marks_missing_cells_and_negative_values() {
    let l = LevelMap::new(vec![Point::new(1000, 2000, -5, 0), Point::new(-40, 3050, 1234567, 0)]);
    let text = l.render();
    assert_eq!(
        text,
        "        1.0    -0.0   \n  2.0: -0.005 ????? \n  3.1: ????? 1234.567 \n"
    );
}

#[test]
fn empty_grid_renders_heading_only() {
    let l = LevelMap::new(vec![]);
    assert_eq!(l.render(), "        \n");
}

#[test]
fn measurement_points_keep_only_measurements() {
    let lines = vec![
        "\"[BMC] X25.0 Y25.0,z_c=   0.272 ,z_d=0.045\"".to_string(),
        "[AMS][TASK]ams num:1".to_string(),
        "[BMC] X1.2.3 Y2.0,z_c= 0.5,z_d=0.1".to_string(),
        "[BMC] X66.2 Y25.0,z_c= 0.042,z_d=0.037".to_string(),
    ];
    let points = measurement_points(&lines);
    assert_eq!(points, vec![Point::new(25000, 25000, 272, 45), Point::new(66200, 25000, 42, 37)]);
}
