use mission_center::graph_data::{GraphData, GRAPH_DATA_POINT_COUNT};

#[test]
fn starts_with_sixty_fill_values() {
    let g = GraphData::new(0.0f32);
    assert_eq!(GRAPH_DATA_POINT_COUNT, 60);
    assert_eq!(g.data_points().len(), 60);
    assert!(g.data_points().iter().all(|v| *v == 0.0));
}

#[test]
fn adding_shifts_the_window() {
    let mut g = GraphData::new(0.0f32);
    g.add_data_point(1.5);
    g.add_data_point(2.5);
    let d = g.data_points();
    assert_eq!(d.len(), 60);
    assert_eq!(d[58], 1.5);
    assert_eq!(d[59], 2.5);
    assert_eq!(d[0], 0.0);
}

#[test]
fn window_keeps_the_latest_values() {
    let mut g = GraphData::new(0u32);
    for v in 1..=75u32 {
        g.add_data_point(v);
    }
    let expected: Vec<u32> = (16..=75).collect();
    assert_eq!(g.data_points(), expected.as_slice());
}
