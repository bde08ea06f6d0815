use pixl::component::DrawComponent;
use pixl::convert::{pixel_coordinate, plot};
use pixl::line::draw_line;
use pixl::{CircleNode, Color, LineNode, PixelNode, RectangleNode, Texture};

/// The pixels of `texture` that hold `color`, row by row.
fn pixels_with(texture: &Texture, color: Color) -> Vec<(usize, usize)> {
    let mut found = Vec::new();
    for y in 0..texture.get_height() {
        for x in 0..texture.get_width() {
            if texture.get_pixel(x, y) == Some(color) {
                found.push((x, y));
            }
        }
    }
    found
}

/// Checks that exactly `expected` hold `color` and every other pixel is black.
fn assert_drawn(texture: &Texture, color: Color, expected: &[(usize, usize)]) {
    let mut expected: Vec<(usize, usize)> = expected.to_vec();
    expected.sort_by_key(|&(x, y)| (y, x));
    assert_eq!(pixels_with(texture, color), expected);
    let total = texture.get_width() * texture.get_height();
    assert_eq!(pixels_with(texture, Color::black()).len(), total - expected.len());
}

#[test]
fn pixel_draws_one_pixel() {
    let mut texture = Texture::new(4, 4);
    PixelNode::new(2, 1, Color::red()).draw(&mut texture);
    assert_drawn(&texture, Color::red(), &[(2, 1)]);
}

#[test]
fn pixel_off_the_texture_draws_nothing() {
    let mut texture = Texture::new(4, 4);
    PixelNode::new(4, 1, Color::red()).draw(&mut texture);
    PixelNode::new(1, 4, Color::red()).draw(&mut texture);
    PixelNode::new(usize::MAX, usize::MAX, Color::red()).draw(&mut texture);
    assert_drawn(&texture, Color::red(), &[]);
}

#[test]
fn rectangle_fills_its_pixels_and_no_others() {
    let mut texture = Texture::new(10, 10);
    RectangleNode::new(2, 3, 4, 2, Color::red()).draw(&mut texture);
    assert_drawn(
        &texture,
        Color::red(),
        &[(2, 3), (3, 3), (4, 3), (5, 3), (2, 4), (3, 4), (4, 4), (5, 4)],
    );
}

#[test]
fn rectangle_without_area_draws_nothing() {
    let mut texture = Texture::new(5, 5);
    RectangleNode::new(1, 1, 0, 3, Color::red()).draw(&mut texture);
    RectangleNode::new(1, 1, 3, 0, Color::red()).draw(&mut texture);
    assert_drawn(&texture, Color::red(), &[]);
}

#[test]
fn rectangle_is_cut_at_the_right_edge() {
    let mut texture = Texture::new(6, 4);
    RectangleNode::new(5, 1, 5, 2, Color::blue()).draw(&mut texture);
    assert_drawn(&texture, Color::blue(), &[(5, 1), (5, 2)]);
}

#[test]
fn rectangle_is_cut_at_the_bottom_edge() {
    let mut texture = Texture::new(4, 4);
    RectangleNode::new(1, 3, 2, 9, Color::blue()).draw(&mut texture);
    assert_drawn(&texture, Color::blue(), &[(1, 3), (2, 3)]);
}

#[test]
fn rectangle_beyond_the_texture_draws_nothing() {
    let mut texture = Texture::new(4, 4);
    RectangleNode::new(4, 0, 3, 3, Color::blue()).draw(&mut texture);
    RectangleNode::new(0, 4, 3, 3, Color::blue()).draw(&mut texture);
    RectangleNode::new(usize::MAX, usize::MAX, 5, 5, Color::blue()).draw(&mut texture);
    assert_drawn(&texture, Color::blue(), &[]);
}

#[test]
fn rectangle_larger_than_any_texture_fills_it() {
    let mut texture = Texture::new(3, 2);
    RectangleNode::new(0, 0, usize::MAX, usize::MAX, Color::green()).draw(&mut texture);
    assert_drawn(&texture, Color::green(), &[(0, 0), (1, 0), (2, 0), (0, 1), (1, 1), (2, 1)]);
}

#[test]
fn rectangle_whose_far_corner_overflows_is_cut() {
    let mut texture = Texture::new(4, 3);
    RectangleNode::new(2, 1, usize::MAX, usize::MAX, Color::green()).draw(&mut texture);
    assert_drawn(&texture, Color::green(), &[(2, 1), (3, 1), (2, 2), (3, 2)]);
}

#[test]
fn rectangle_leaves_other_pixels_as_they_were() {
    let mut texture = Texture::new(5, 5);
    texture.set_pixel(0, 0, Color::white()).unwrap();
    texture.set_pixel(2, 2, Color::white()).unwrap();
    RectangleNode::new(1, 1, 2, 2, Color::red()).draw(&mut texture);
    assert_eq!(pixels_with(&texture, Color::red()), vec![(1, 1), (2, 1), (1, 2), (2, 2)]);
    assert_eq!(pixels_with(&texture, Color::white()), vec![(0, 0)]);
    assert_eq!(pixels_with(&texture, Color::black()).len(), 20);
}

#[test]
fn horizontal_line() {
    let mut texture = Texture::new(10, 10);
    LineNode::new(0, 0, 4, 0, Color::red()).draw(&mut texture);
    assert_drawn(&texture, Color::red(), &[(0, 0), (1, 0), (2, 0), (3, 0), (4, 0)]);
}

#[test]
fn diagonal_line() {
    let mut texture = Texture::new(10, 10);
    LineNode::new(0, 0, 3, 3, Color::red()).draw(&mut texture);
    assert_drawn(&texture, Color::red(), &[(0, 0), (1, 1), (2, 2), (3, 3)]);
}

#[test]
fn vertical_line_drawn_upwards() {
    let mut texture = Texture::new(10, 10);
    LineNode::new(2, 6, 2, 1, Color::red()).draw(&mut texture);
    assert_drawn(&texture, Color::red(), &[(2, 1), (2, 2), (2, 3), (2, 4), (2, 5), (2, 6)]);
}

#[test]
fn line_of_one_point() {
    let mut texture = Texture::new(10, 10);
    LineNode::new(3, 3, 3, 3, Color::red()).draw(&mut texture);
    assert_drawn(&texture, Color::red(), &[(3, 3)]);
}

#[test]
fn shallow_line_has_one_pixel_in_each_column() {
    let mut texture = Texture::new(10, 10);
    LineNode::new(0, 0, 5, 2, Color::red()).draw(&mut texture);
    assert_drawn(&texture, Color::red(), &[(0, 0), (1, 0), (2, 1), (3, 1), (4, 2), (5, 2)]);
}

#[test]
fn steep_line_has_one_pixel_in_each_row() {
    let mut texture = Texture::new(10, 10);
    LineNode::new(1, 0, 3, 7, Color::red()).draw(&mut texture);
    assert_drawn(
        &texture,
        Color::red(),
        &[(1, 0), (1, 1), (2, 2), (2, 3), (2, 4), (2, 5), (3, 6), (3, 7)],
    );
}

#[test]
fn line_drawn_up_and_to_the_left() {
    let mut texture = Texture::new(10, 10);
    LineNode::new(6, 5, 1, 2, Color::red()).draw(&mut texture);
    assert_drawn(&texture, Color::red(), &[(6, 5), (5, 4), (4, 4), (3, 3), (2, 3), (1, 2)]);
}

#[test]
fn line_drawn_down_and_to_the_left() {
    let mut texture = Texture::new(10, 10);
    LineNode::new(8, 1, 1, 4, Color::red()).draw(&mut texture);
    assert_drawn(
        &texture,
        Color::red(),
        &[(8, 1), (7, 1), (6, 2), (5, 2), (4, 3), (3, 3), (2, 4), (1, 4)],
    );
}

#[test]
fn a_tie_goes_to_the_pixel_further_along() {
    let mut forwards = Texture::new(4, 4);
    LineNode::new(0, 0, 2, 1, Color::red()).draw(&mut forwards);
    assert_drawn(&forwards, Color::red(), &[(0, 0), (1, 1), (2, 1)]);
    let mut backwards = Texture::new(4, 4);
    LineNode::new(2, 1, 0, 0, Color::red()).draw(&mut backwards);
    assert_drawn(&backwards, Color::red(), &[(2, 1), (1, 0), (0, 0)]);
}

#[test]
fn line_is_cut_at_the_edges() {
    let mut texture = Texture::new(4, 3);
    LineNode::new(2, 1, 7, 6, Color::red()).draw(&mut texture);
    assert_drawn(&texture, Color::red(), &[(2, 1), (3, 2)]);
}

#[test]
fn line_that_misses_the_texture_draws_nothing() {
    let mut texture = Texture::new(4, 3);
    LineNode::new(5, 0, 9, 2, Color::red()).draw(&mut texture);
    assert_drawn(&texture, Color::red(), &[]);
}

#[test]
fn line_that_crosses_the_texture() {
    let mut texture = Texture::new(3, 3);
    LineNode::new(6, 0, 0, 2, Color::red()).draw(&mut texture);
    assert_drawn(&texture, Color::red(), &[(2, 1), (1, 2), (0, 2)]);
}

#[test]
fn draw_line_is_what_the_node_draws() {
    let mut by_node = Texture::new(9, 9);
    LineNode::new(1, 7, 8, 2, Color::blue()).draw(&mut by_node);
    let mut direct = Texture::new(9, 9);
    draw_line(&mut direct, 1, 7, 8, 2, Color::blue());
    assert_eq!(by_node.to_u32_buffer(), direct.to_u32_buffer());
    assert_eq!(pixels_with(&direct, Color::blue()).len(), 8);
}

#[test]
fn line_pixels_touch_each_other() {
    let mut texture = Texture::new(20, 20);
    LineNode::new(1, 2, 18, 9, Color::red()).draw(&mut texture);
    let pixels = pixels_with(&texture, Color::red());
    assert_eq!(pixels.len(), 18);
    for column in 1..=18 {
        assert_eq!(pixels.iter().filter(|&&(x, _)| x == column).count(), 1);
    }
    for column in 1..18 {
        let here = pixels.iter().find(|&&(x, _)| x == column).unwrap().1;
        let next = pixels.iter().find(|&&(x, _)| x == column + 1).unwrap().1;
        assert!(next == here || next == here + 1);
    }
}

#[test]
fn circle_fills_the_pixels_within_its_radius() {
    let mut texture = Texture::new(12, 12);
    CircleNode::new(5, 5, 2, Color::red()).draw(&mut texture);
    assert_eq!(texture.get_pixel(5, 5), Some(Color::red()));
    assert_eq!(texture.get_pixel(5, 8), Some(Color::black()));
    assert_drawn(
        &texture,
        Color::red(),
        &[
            (5, 3),
            (4, 4),
            (5, 4),
            (6, 4),
            (3, 5),
            (4, 5),
            (5, 5),
            (6, 5),
            (7, 5),
            (4, 6),
            (5, 6),
            (6, 6),
            (5, 7),
        ],
    );
    for (x, y) in pixels_with(&texture, Color::red()) {
        let dx = x as i64 - 5;
        let dy = y as i64 - 5;
        assert!(dx * dx + dy * dy <= 4);
    }
}

#[test]
fn circle_of_radius_zero_is_its_centre() {
    let mut texture = Texture::new(5, 5);
    CircleNode::new(2, 3, 0, Color::red()).draw(&mut texture);
    assert_drawn(&texture, Color::red(), &[(2, 3)]);
}

#[test]
fn circle_of_radius_one_is_a_plus() {
    let mut texture = Texture::new(5, 5);
    CircleNode::new(2, 2, 1, Color::red()).draw(&mut texture);
    assert_drawn(&texture, Color::red(), &[(2, 1), (1, 2), (2, 2), (3, 2), (2, 3)]);
}

#[test]
fn circle_is_cut_at_the_corner() {
    let mut texture = Texture::new(6, 6);
    CircleNode::new(1, 0, 3, Color::red()).draw(&mut texture);
    assert_drawn(
        &texture,
        Color::red(),
        &[
            (0, 0),
            (1, 0),
            (2, 0),
            (3, 0),
            (4, 0),
            (0, 1),
            (1, 1),
            (2, 1),
            (3, 1),
            (0, 2),
            (1, 2),
            (2, 2),
            (3, 2),
            (1, 3),
        ],
    );
}

#[test]
fn circle_with_its_centre_off_the_texture() {
    let mut texture = Texture::new(4, 4);
    CircleNode::new(5, 1, 2, Color::red()).draw(&mut texture);
    assert_drawn(&texture, Color::red(), &[(3, 1)]);
}

#[test]
fn circle_far_from_the_texture_draws_nothing() {
    let mut texture = Texture::new(4, 4);
    CircleNode::new(20, 20, 3, Color::red()).draw(&mut texture);
    CircleNode::new(usize::MAX, usize::MAX, 100, Color::red()).draw(&mut texture);
    assert_drawn(&texture, Color::red(), &[]);
}

#[test]
fn circle_with_the_largest_radius_covers_the_texture() {
    let mut texture = Texture::new(3, 3);
    CircleNode::new(0, 0, usize::MAX, Color::red()).draw(&mut texture);
    assert_eq!(pixels_with(&texture, Color::red()).len(), 9);
}

#[test]
fn circle_with_the_largest_centre_and_radius() {
    let mut texture = Texture::new(3, 3);
    CircleNode::new(usize::MAX, 0, usize::MAX, Color::red()).draw(&mut texture);
    // Column 0 lies a full radius from the centre, so only its top pixel is
    // in reach; one column on, the circle is already taller than the texture.
    assert_drawn(
        &texture,
        Color::red(),
        &[(0, 0), (1, 0), (2, 0), (1, 1), (2, 1), (1, 2), (2, 2)],
    );
    let mut other = Texture::new(3, 3);
    CircleNode::new(usize::MAX, usize::MAX, usize::MAX, Color::red()).draw(&mut other);
    assert_drawn(&other, Color::red(), &[]);
}

#[test]
fn circle_on_an_empty_texture() {
    let mut texture = Texture::new(0, 0);
    CircleNode::new(1, 1, 5, Color::red()).draw(&mut texture);
    assert_eq!(texture.to_u32_buffer().len(), 0);
}

#[test]
fn add_draws_the_node() {
    let mut added = Texture::new(8, 8);
    let circle = CircleNode::new(4, 3, 2, Color::blue());
    added.add(&circle);
    let mut drawn = Texture::new(8, 8);
    circle.draw(&mut drawn);
    assert_eq!(added.to_u32_buffer(), drawn.to_u32_buffer());
    assert_eq!(added.get_pixel(4, 3), Some(Color::blue()));
    added.add(&RectangleNode::new(0, 0, 2, 1, Color::red()));
    added.add(&LineNode::new(0, 7, 7, 7, Color::green()));
    added.add(&PixelNode::new(7, 0, Color::white()));
    assert_eq!(pixels_with(&added, Color::red()), vec![(0, 0), (1, 0)]);
    assert_eq!(pixels_with(&added, Color::green()).len(), 8);
    assert_eq!(pixels_with(&added, Color::white()), vec![(7, 0)]);
}

#[test]
fn later_nodes_are_drawn_on_top() {
    let mut texture = Texture::new(4, 4);
    texture.add(&RectangleNode::new(0, 0, 4, 4, Color::white()));
    texture.add(&RectangleNode::new(1, 1, 2, 2, Color::red()));
    texture.add(&PixelNode::new(1, 1, Color::blue()));
    assert_eq!(pixels_with(&texture, Color::blue()), vec![(1, 1)]);
    assert_eq!(pixels_with(&texture, Color::red()), vec![(2, 1), (1, 2), (2, 2)]);
    assert_eq!(pixels_with(&texture, Color::white()).len(), 12);
}

#[test]
fn pixel_coordinate_keeps_what_fits() {
    assert_eq!(pixel_coordinate(0), Some(0));
    assert_eq!(pixel_coordinate(5), Some(5));
    assert_eq!(pixel_coordinate(usize::MAX as i128), Some(usize::MAX));
}

#[test]
fn pixel_coordinate_refuses_what_does_not_fit() {
    assert_eq!(pixel_coordinate(-1), None);
    assert_eq!(pixel_coordinate(i128::MIN), None);
    assert_eq!(pixel_coordinate(usize::MAX as i128 + 1), None);
    assert_eq!(pixel_coordinate(i128::MAX), None);
}

#[test]
fn plot_writes_pixels_of_the_texture_only() {
    let mut texture = Texture::new(3, 3);
    plot(&mut texture, 1, 2, Color::red());
    plot(&mut texture, -1, 2, Color::red());
    plot(&mut texture, 1, -2, Color::red());
    plot(&mut texture, 3, 0, Color::red());
    plot(&mut texture, 0, 3, Color::red());
    plot(&mut texture, i128::MAX, 0, Color::red());
    plot(&mut texture, 0, i128::MIN, Color::red());
    assert_drawn(&texture, Color::red(), &[(1, 2)]);
}
