use magic_mania::animation::{sprite_animation, Frame};

fn cell(index: i32, column: i32, rows: i32, cols: i32) -> Frame {
    Frame { index, column, rows, cols }
}

#[test]
fn sprite_animation_gives_one_frame_per_cell_in_order() {
    let frames = sprite_animation(23, 4, (14, 18), 0);
    assert_eq!(
        frames,
        vec![cell(14, 0, 23, 4), cell(15, 0, 23, 4), cell(16, 0, 23, 4), cell(17, 0, 23, 4)]
    );
}

#[test]
fn sprite_animation_keeps_strip_and_grid() {
    let frames = sprite_animation(8, 6, (0, 3), 5);
    assert_eq!(frames.len(), 3);
    for (i, f) in frames.iter().enumerate() {
        assert_eq!(f.index, i as i32);
        assert_eq!(f.column, 5);
        assert_eq!(f.rows, 8);
        assert_eq!(f.cols, 6);
    }
}

#[test]
fn sprite_animation_empty_range_gives_no_frame() {
    assert!(sprite_animation(23, 4, (14, 14), 0).is_empty());
    assert!(sprite_animation(23, 4, (18, 14), 0).is_empty());
}

#[test]
fn sprite_animation_negative_bounds() {
    let frames = sprite_animation(2, 2, (-2, 1), 1);
    assert_eq!(frames, vec![cell(-2, 1, 2, 2), cell(-1, 1, 2, 2), cell(0, 1, 2, 2)]);
}

#[test]
fn sprite_animation_at_the_top_of_the_range() {
    let frames = sprite_animation(1, 1, (i32::MAX - 2, i32::MAX), 0);
    assert_eq!(frames, vec![cell(i32::MAX - 2, 0, 1, 1), cell(i32::MAX - 1, 0, 1, 1)]);
}
