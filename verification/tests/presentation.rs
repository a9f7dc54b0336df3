use ratatui::buffer::Buffer;
use rustic_yellow::frame::shape::{
    try_draw, Background, Circle, CustomShape, Drawable, Line, Point, Rect as ShapeRect, Shape,
    ShapeError,
};
use rustic_yellow::sixel::{
    check_frame, diff, render_area, render_sixel, render_sixel_checked, same_bytes, CachedSixel,
    Rect, SixelError,
};
use rustic_yellow::sound2::Music;
use termwiz::color::ColorAttribute;
use termwiz::surface::Surface;

const STROKE: ColorAttribute = ColorAttribute::PaletteIndex(1);
const FILL: ColorAttribute = ColorAttribute::PaletteIndex(2);

fn rect(x: u16, y: u16, width: u16, height: u16) -> Rect {
    Rect { x, y, width, height }
}

fn buffer(x: u16, y: u16, width: u16, height: u16) -> Buffer {
    Buffer::empty(ratatui::layout::Rect::new(x, y, width, height))
}

/// The background colour of each cell of the surface, row by row.
fn backgrounds(surface: &mut Surface) -> Vec<Vec<ColorAttribute>> {
    surface
        .screen_cells()
        .iter()
        .map(|row| row.iter().map(|cell| cell.attrs().background()).collect())
        .collect()
}

/// The cells of the surface as a picture: `S` for the stroke colour, `F`
/// for the fill colour, `.` for everything else.
fn picture(surface: &mut Surface) -> Vec<String> {
    backgrounds(surface)
        .iter()
        .map(|row| {
            row.iter()
                .map(|c| if *c == STROKE { 'S' } else if *c == FILL { 'F' } else { '.' })
                .collect()
        })
        .collect()
}

#[test]
fn the_cache_tells_news_from_repetition() {
    let mut cache = CachedSixel::new(160, 144);
    assert_eq!(cache.width(), 160);
    assert_eq!(cache.height(), 144);
    assert_eq!(cache.get_sixel(), "");
    assert_eq!(cache.accept(b"abc".to_vec()), Some("abc".to_string()));
    assert_eq!(cache.get_sixel(), "abc");
    assert_eq!(cache.accept(b"abc".to_vec()), None);
    assert_eq!(cache.get_sixel(), "abc");
    assert_eq!(cache.accept(b"abd".to_vec()), Some("abd".to_string()));
    assert_eq!(cache.accept(b"ab".to_vec()), Some("ab".to_string()));
    assert_eq!(cache.get_sixel(), "ab");
}

#[test]
fn an_empty_cache_takes_anything_for_news() {
    let mut cache = CachedSixel::new(1, 1);
    assert_eq!(cache.accept(Vec::new()), Some(String::new()));
    assert_eq!(cache.accept(Vec::new()), Some(String::new()));
}

#[test]
fn bytes_that_are_no_text_are_replaced() {
    let mut cache = CachedSixel::new(1, 1);
    assert_eq!(cache.accept(vec![0x41, 0xFF, 0x42]), Some("A\u{FFFD}B".to_string()));
    assert_eq!(cache.get_sixel(), "A\u{FFFD}B");
}

#[test]
fn a_frame_is_encoded_as_sixel() {
    let mut cache = CachedSixel::new(160, 144);
    let white = vec![255u8; 160 * 144 * 3];
    let first = cache.tick(&white).unwrap().unwrap();
    assert!(first.starts_with("\u{1b}P"));
    assert!(first.ends_with("\u{1b}\\"));
    assert!(first.len() < white.len());
    assert_eq!(cache.get_sixel(), first);
    // the same frame again is no news
    assert_eq!(cache.tick(&white), Ok(None));
    assert_eq!(cache.get_sixel(), first);
    let mut dotted = white.clone();
    for c in 0..3 {
        dotted[(72 * 160 + 80) * 3 + c] = 0;
    }
    let second = cache.tick(&dotted).unwrap().unwrap();
    assert_ne!(second, first);
    assert_eq!(cache.get_sixel(), second);
    assert_eq!(cache.tick(&white), Ok(Some(first)));
}

#[test]
fn equal_frames_have_equal_encodings() {
    let mut frame = vec![170u8; 8 * 6 * 3];
    frame[0] = 0;
    frame[1] = 0;
    frame[2] = 0;
    let mut a = CachedSixel::new(8, 6);
    let mut b = CachedSixel::new(8, 6);
    let first = a.tick(&frame).unwrap();
    assert!(first.is_some());
    assert_eq!(b.tick(&frame).unwrap(), first);
}

/// A frame whose bytes take the four gray levels in a fixed scramble.
fn scrambled_frame(width: usize, height: usize, seed: u32) -> Vec<u8> {
    let levels = [0u8, 85, 170, 255];
    let mut state = seed;
    (0..width * height * 3)
        .map(|_| {
            state = state.wrapping_mul(1664525).wrapping_add(1013904223);
            levels[(state >> 24) as usize % 4]
        })
        .collect()
}

#[test]
fn frames_of_every_shape_are_encoded() {
    for &(width, height) in
        &[(1usize, 1usize), (2, 1), (1, 2), (7, 13), (1, 256), (256, 1), (64, 6), (250, 200)]
    {
        for seed in 0..3 {
            let mut cache = CachedSixel::new(width, height);
            let frame = scrambled_frame(width, height, seed);
            let text = cache.tick(&frame).unwrap().unwrap();
            assert!(text.starts_with("\u{1b}P"), "{}x{}", width, height);
        }
    }
}

#[test]
fn frames_of_one_or_two_shades_are_encoded() {
    for &levels in &[[0u8, 0], [255, 255], [0, 255], [255, 0], [85, 170]] {
        let mut frame = vec![levels[0]; 160 * 144 * 3];
        for pixel in 0..40 {
            for c in 0..3 {
                frame[pixel * 3 + c] = levels[1];
            }
        }
        let mut cache = CachedSixel::new(160, 144);
        assert!(cache.tick(&frame).unwrap().is_some());
    }
}

#[test]
fn the_largest_frame_is_encoded() {
    let mut cache = CachedSixel::new(256, 256);
    let mut frame = vec![255u8; 256 * 256 * 3];
    for (i, byte) in frame.iter_mut().enumerate() {
        if (i / 3) % 7 == 0 {
            *byte = 0;
        }
    }
    assert!(cache.tick(&frame).unwrap().is_some());
}

/// A frame whose bytes are a fixed scramble of all values.
fn coloured_frame(width: usize, height: usize, seed: u32) -> Vec<u8> {
    let mut state = seed;
    (0..width * height * 3)
        .map(|_| {
            state = state.wrapping_mul(1664525).wrapping_add(1013904223);
            (state >> 24) as u8
        })
        .collect()
}

#[test]
fn frames_of_many_colours_are_encoded() {
    for &(width, height) in &[(1usize, 1usize), (3, 5), (160, 144), (1, 256), (256, 2), (200, 256)]
    {
        let mut cache = CachedSixel::new(width, height);
        let frame = coloured_frame(width, height, 7);
        let text = cache.tick(&frame).unwrap().unwrap();
        assert!(text.starts_with("\u{1b}P"), "{}x{}", width, height);
        assert_eq!(cache.get_sixel(), text);
        assert_eq!(cache.tick(&frame), Ok(None));
    }
}

#[test]
fn the_longest_frames_are_encoded() {
    for &(width, height) in &[(256usize, 1usize), (1, 256), (256, 7), (256, 256)] {
        let mut cache = CachedSixel::new(width, height);
        let frame = coloured_frame(width, height, 3);
        assert!(cache.tick(&frame).unwrap().is_some(), "{}x{}", width, height);
    }
}

#[test]
fn frames_of_few_colours_are_encoded() {
    for colours in [1usize, 2, 3, 255, 256, 257] {
        let mut frame = Vec::new();
        for pixel in 0..160 * 144 {
            let c = pixel % colours;
            frame.extend_from_slice(&[(c % 32 * 8) as u8, (c / 32 * 8) as u8, 255]);
        }
        let mut cache = CachedSixel::new(160, 144);
        assert!(cache.tick(&frame).unwrap().is_some(), "{} colours", colours);
    }
    for pair in [[[0u8; 3], [255u8; 3]], [[255u8; 3], [0u8; 3]], [[248u8; 3], [0u8; 3]]] {
        let mut frame = Vec::new();
        for pixel in 0..160 * 144 {
            frame.extend_from_slice(&pair[(pixel / 7) % 2]);
        }
        let mut cache = CachedSixel::new(160, 144);
        assert!(cache.tick(&frame).unwrap().is_some());
    }
}

#[test]
fn what_is_no_frame_is_not_encoded() {
    let mut cache = CachedSixel::new(4, 2);
    assert!(check_frame(&[85u8; 24], 4, 2));
    assert_eq!(cache.tick(&[85u8; 23]), Err(SixelError::NotAFrame));
    assert_eq!(cache.tick(&[85u8; 25]), Err(SixelError::NotAFrame));
    assert_eq!(cache.tick(&[]), Err(SixelError::NotAFrame));
    assert_eq!(cache.get_sixel(), "");
    assert!(cache.tick(&[86u8; 24]).unwrap().is_some());
    let mut none = CachedSixel::new(0, 2);
    assert_eq!(none.tick(&[]), Err(SixelError::NotAFrame));
    assert!(!check_frame(&[0u8; 3], 1, -1));
    assert!(!check_frame(&[0u8; 3], -1, -1));
    assert!(!check_frame(&[], 0, 0));
    // a side longer than the longest that is encoded
    assert!(check_frame(&[0u8; 3 * 256], 256, 1));
    assert!(!check_frame(&[0u8; 3 * 257], 257, 1));
    assert!(!check_frame(&[0u8; 3 * 257], 1, 257));
    let mut long = CachedSixel::new(257, 1);
    assert_eq!(long.tick(&[0u8; 3 * 257]), Err(SixelError::NotAFrame));
    assert!(!check_frame(&[], 715827883, 1));
    assert!(!check_frame(&[], 65536, 65536));
    assert!(!check_frame(&[], i32::MAX, i32::MAX));
}

#[test]
fn the_text_of_the_cache_is_the_text_of_its_data() {
    let mut cache = CachedSixel::new(2, 2);
    let frame = coloured_frame(2, 2, 1);
    let first = cache.tick(&frame).unwrap().unwrap();
    assert_eq!(cache.tick(&frame), Ok(None));
    assert_eq!(cache.get_sixel(), first);
    assert_eq!(cache.tick(&[0u8; 5]), Err(SixelError::NotAFrame));
    assert_eq!(cache.get_sixel(), first);
    assert_eq!(cache.accept(vec![0x41, 0x80]), Some("A\u{FFFD}".to_string()));
    assert_eq!(cache.accept(vec![0x41, 0x80]), None);
    assert_eq!(cache.get_sixel(), "A\u{FFFD}");
}

#[test]
fn vectors_are_compared_byte_by_byte() {
    assert!(same_bytes(&vec![1, 2, 3], &vec![1, 2, 3]));
    assert!(!same_bytes(&vec![1, 2, 3], &vec![1, 2, 4]));
    assert!(!same_bytes(&vec![1, 2, 3], &vec![1, 2]));
    assert!(same_bytes(&Vec::new(), &Vec::new()));
}

#[test]
fn differing_tiles_are_found() {
    // two rows of four pixels, tiles of two pixels: four tiles of six bytes
    let old = vec![0u8; 24];
    let mut new = old.clone();
    new[6] = b'x';
    new[23] = b'y';
    let changes = diff(&old, &new, 4, 2, 2).unwrap();
    assert_eq!(changes.len(), 2);
    assert_eq!((changes[0].x, changes[0].y), (1, 0));
    assert_eq!(changes[0].text, "x\0\0\0\0\0");
    assert_eq!((changes[1].x, changes[1].y), (1, 1));
    assert_eq!(changes[1].text, "\0\0\0\0\0y");
}

#[test]
fn equal_frames_have_no_differing_tiles() {
    let data = vec![7u8; 30];
    assert_eq!(diff(&data, &data, 5, 2, 1).unwrap().len(), 0);
    assert_eq!(diff(&Vec::new(), &Vec::new(), 1, 1, 1).unwrap().len(), 0);
}

#[test]
fn a_last_tile_may_be_short() {
    let old = vec![0u8; 8];
    let mut new = old.clone();
    new[7] = b'z';
    let changes = diff(&old, &new, 2, 1, 2).unwrap();
    assert_eq!(changes.len(), 1);
    assert_eq!((changes[0].x, changes[0].y), (0, 1));
    assert_eq!(changes[0].text, "\0z");
}

#[test]
fn an_image_that_fits_is_drawn_at_the_corner_of_the_area() {
    assert_eq!(render_area(rect(0, 0, 4, 3), rect(5, 6, 10, 8), false), Some(rect(5, 6, 4, 3)));
    assert_eq!(render_area(rect(9, 9, 10, 8), rect(5, 6, 10, 8), false), Some(rect(5, 6, 10, 8)));
}

#[test]
fn an_image_that_does_not_fit_is_not_drawn_without_overdraw() {
    assert_eq!(render_area(rect(0, 0, 11, 3), rect(5, 6, 10, 8), false), None);
    assert_eq!(render_area(rect(0, 0, 4, 9), rect(5, 6, 10, 8), false), None);
}

#[test]
fn overdraw_cuts_the_image_to_the_area() {
    assert_eq!(render_area(rect(0, 0, 40, 30), rect(0, 0, 39, 29), true), Some(rect(0, 0, 39, 29)));
    assert_eq!(render_area(rect(0, 0, 4, 30), rect(2, 3, 39, 29), true), Some(rect(2, 3, 4, 29)));
}

#[test]
fn a_large_rectangle_is_clipped_as_the_terminal_library_clips_it() {
    let theirs = ratatui::layout::Rect::new(5, 6, 300, 400);
    let ours = render_area(rect(0, 0, 300, 400), rect(5, 6, 500, 500), true).unwrap();
    assert_eq!((ours.x, ours.y, ours.width, ours.height), (5, 6, theirs.width, theirs.height));
    assert!(ours.width < 300 && ours.height < 400);
}

#[test]
fn the_place_of_an_image_lies_in_the_area() {
    let areas = [rect(5, 6, 500, 500), rect(65000, 65000, 400, 300), rect(0, 0, 65535, 65535)];
    let images = [rect(0, 0, 300, 400), rect(9, 9, 65535, 2), rect(0, 0, 256, 256), rect(1, 1, 0, 0)];
    for area in areas {
        for image in images {
            for overdraw in [false, true] {
                if let Some(r) = render_area(image, area, overdraw) {
                    assert_eq!((r.x, r.y), (area.x, area.y));
                    assert!(r.width <= area.width && r.height <= area.height);
                    assert!(r.width <= image.width && r.height <= image.height);
                    assert!(r.right() <= area.right() && r.bottom() <= area.bottom());
                }
            }
        }
    }
}

#[test]
fn rectangles_end_where_sixteen_bits_end() {
    assert_eq!(rect(10, 20, 5, 6).right(), 15);
    assert_eq!(rect(10, 20, 5, 6).bottom(), 26);
    assert_eq!(rect(65530, 65530, 10, 10).right(), 65535);
    assert_eq!(rect(65530, 65530, 10, 10).bottom(), 65535);
}

#[test]
fn the_image_takes_the_first_cell_and_marks_the_others() {
    let mut buf = buffer(0, 0, 10, 5);
    render_sixel(rect(0, 0, 4, 3), "SIXEL", rect(1, 1, 8, 4), &mut buf, true);
    for y in 0..5u16 {
        for x in 0..10u16 {
            let cell = buf.get(x, y);
            let inside = (1..5).contains(&x) && (1..4).contains(&y);
            let first = x == 1 && y == 1;
            assert_eq!(cell.symbol(), if first { "SIXEL" } else { " " }, "at {},{}", x, y);
            assert_eq!(cell.skip, inside && !first, "at {},{}", x, y);
        }
    }
}

#[test]
fn an_image_that_is_not_drawn_leaves_the_buffer() {
    let mut buf = buffer(0, 0, 10, 5);
    let before = buf.clone();
    render_sixel(rect(0, 0, 11, 3), "SIXEL", rect(0, 0, 10, 5), &mut buf, false);
    assert_eq!(buf, before);
    assert!(render_sixel_checked(rect(0, 0, 11, 3), "SIXEL", rect(0, 0, 10, 5), &mut buf, false));
    assert_eq!(buf, before);
}

#[test]
fn drawing_is_refused_where_the_buffer_has_no_room() {
    let mut buf = buffer(2, 2, 10, 5);
    let before = buf.clone();
    // the area starts outside the buffer
    assert!(!render_sixel_checked(rect(0, 0, 4, 3), "S", rect(0, 0, 8, 4), &mut buf, true));
    // the area reaches beyond the buffer
    assert!(!render_sixel_checked(rect(0, 0, 20, 3), "S", rect(2, 2, 20, 4), &mut buf, true));
    // nothing to draw into
    assert!(!render_sixel_checked(rect(0, 0, 0, 3), "S", rect(2, 2, 8, 4), &mut buf, true));
    assert_eq!(buf, before);
    assert!(render_sixel_checked(rect(0, 0, 10, 5), "S", rect(2, 2, 10, 5), &mut buf, true));
    assert_eq!(buf.get(2, 2).symbol(), "S");
    assert!(buf.get(11, 6).skip);
}

#[test]
fn a_point_is_one_cell_in_the_stroke_colour() {
    let mut surface = Surface::new(5, 3);
    assert_eq!(Point(2, 1).draw(&mut surface, STROKE, FILL), Ok(()));
    assert_eq!(picture(&mut surface), vec![".....", "..S..", "....."]);
}

#[test]
fn the_background_leaves_the_last_column_and_row() {
    let mut surface = Surface::new(4, 3);
    assert_eq!(Background.draw(&mut surface, STROKE, FILL), Ok(()));
    assert_eq!(picture(&mut surface), vec!["SSS.", "SSS.", "...."]);
}

#[test]
fn a_rectangle_has_an_edge_and_an_inside() {
    let mut surface = Surface::new(7, 6);
    assert_eq!(ShapeRect(1, 1, 5, 4).draw(&mut surface, STROKE, FILL), Ok(()));
    assert_eq!(
        picture(&mut surface),
        vec![".......", ".SSSSS.", ".SFFFS.", ".SFFFS.", ".SSSSS.", "......."]
    );
}

#[test]
fn an_empty_rectangle_draws_nothing() {
    let mut surface = Surface::new(4, 3);
    assert_eq!(ShapeRect(1, 1, 0, 2).draw(&mut surface, STROKE, FILL), Ok(()));
    assert_eq!(ShapeRect(1, 1, 2, 0).draw(&mut surface, STROKE, FILL), Ok(()));
    assert_eq!(picture(&mut surface), vec!["....", "....", "...."]);
}

#[test]
fn upright_and_level_lines_take_their_length_from_the_end_point() {
    let mut surface = Surface::new(6, 6);
    assert_eq!(Line(1, 1, 1, 3).draw(&mut surface, STROKE, FILL), Ok(()));
    assert_eq!(
        picture(&mut surface),
        vec!["......", ".S....", ".S....", ".S....", "......", "......"]
    );
    let mut surface = Surface::new(6, 3);
    assert_eq!(Line(1, 1, 4, 1).draw(&mut surface, STROKE, FILL), Ok(()));
    assert_eq!(picture(&mut surface), vec!["......", ".SSSS.", "......"]);
}

#[test]
fn slanted_lines_go_down_one_cell_a_row() {
    let mut surface = Surface::new(8, 5);
    assert_eq!(Line(0, 0, 6, 3).draw(&mut surface, STROKE, FILL), Ok(()));
    assert_eq!(
        picture(&mut surface),
        vec!["S.......", "..S.....", "....S...", "......S.", "........"]
    );
    let mut surface = Surface::new(8, 5);
    assert_eq!(Line(6, 0, 0, 3).draw(&mut surface, STROKE, FILL), Ok(()));
    assert_eq!(
        picture(&mut surface),
        vec!["......S.", "....S...", "..S.....", "S.......", "........"]
    );
}

#[test]
fn a_slanted_line_upwards_draws_nothing() {
    let mut surface = Surface::new(8, 5);
    assert_eq!(Line(0, 3, 6, 0).draw(&mut surface, STROKE, FILL), Ok(()));
    assert_eq!(picture(&mut surface), vec!["........"; 5]);
}

#[test]
fn a_circle_is_a_diamond_with_an_edge() {
    let mut surface = Surface::new(7, 7);
    assert_eq!(Circle(3, 3, 2).draw(&mut surface, STROKE, FILL), Ok(()));
    assert_eq!(
        picture(&mut surface),
        vec![".......", "...S...", "..SFS..", ".SFFFS.", "..SFS..", "...S...", "......."]
    );
}

#[test]
fn a_circle_is_cut_at_the_edges_of_the_surface() {
    let mut surface = Surface::new(3, 3);
    assert_eq!(Circle(0, 0, 2).draw(&mut surface, STROKE, FILL), Ok(()));
    assert_eq!(picture(&mut surface), vec!["FFS", "FS.", "S.."]);
}

#[test]
fn a_custom_shape_needs_three_points() {
    let mut surface = Surface::new(4, 4);
    let shape = CustomShape(vec![Point(0, 0), Point(3, 3)], true);
    assert_eq!(shape.draw(&mut surface, STROKE, FILL), Err(ShapeError::NotEnoughVertices));
    assert_eq!(picture(&mut surface), vec!["....", "....", "....", "...."]);
}

#[test]
fn a_custom_shape_joins_its_points() {
    let mut surface = Surface::new(6, 6);
    let shape = CustomShape(vec![Point(0, 0), Point(2, 2), Point(4, 4)], false);
    assert_eq!(shape.draw(&mut surface, STROKE, FILL), Ok(()));
    assert_eq!(
        picture(&mut surface),
        vec!["S.....", ".S....", "..S...", "...S..", "....S.", "......"]
    );
    let mut surface = Surface::new(6, 6);
    let closed = CustomShape(vec![Point(0, 1), Point(0, 2), Point(1, 3)], true);
    assert_eq!(closed.draw(&mut surface, STROKE, FILL), Ok(()));
    // two upright lines from (0,1) and (0,2), each as long as its end row
    // says, one slanted line, and the closing line from the first point
    assert_eq!(
        picture(&mut surface),
        vec!["......", "S.....", "S.....", "SS....", "......", "......"]
    );
}

#[test]
fn shapes_are_not_drawn_where_they_cannot_be() {
    let mut empty = Surface::new(0, 0);
    assert_eq!(try_draw(&Point(0, 0), &mut empty, STROKE, FILL), None);
    let mut narrow = Surface::new(0, 3);
    assert_eq!(try_draw(&Background, &mut narrow, STROKE, FILL), None);
    let mut surface = Surface::new(4, 3);
    assert_eq!(try_draw(&Line(1, 65535, 1, 2), &mut surface, STROKE, FILL), None);
    assert_eq!(try_draw(&Line(65535, 1, 2, 1), &mut surface, STROKE, FILL), None);
    assert_eq!(try_draw(&ShapeRect(65535, 0, 2, 1), &mut surface, STROKE, FILL), None);
    let far = CustomShape(vec![Point(0, 0), Point(1, 1), Point(1, 65535), Point(1, 3)], false);
    assert_eq!(try_draw(&far, &mut surface, STROKE, FILL), None);
    assert_eq!(picture(&mut surface), vec!["....", "....", "...."]);
    assert_eq!(try_draw(&Point(1, 1), &mut surface, STROKE, FILL), Some(Ok(())));
    assert_eq!(try_draw(&Line(1, 65535, 1, 1), &mut surface, STROKE, FILL), Some(Ok(())));
    let short = CustomShape(vec![Point(0, 0)], false);
    assert_eq!(
        try_draw(&short, &mut surface, STROKE, FILL),
        Some(Err(ShapeError::NotEnoughVertices))
    );
    assert_eq!(picture(&mut surface)[1], ".S..");
}

#[test]
fn shapes_that_print_nothing_need_no_row() {
    let mut rowless = Surface::new(5, 0);
    assert_eq!(try_draw(&Circle(2, 2, 1), &mut rowless, STROKE, FILL), Some(Ok(())));
    assert_eq!(Circle(2, 2, 1).draw(&mut rowless, STROKE, FILL), Ok(()));
    assert_eq!(try_draw(&ShapeRect(1, 1, 0, 3), &mut rowless, STROKE, FILL), Some(Ok(())));
    assert_eq!(try_draw(&ShapeRect(1, 1, 3, 0), &mut rowless, STROKE, FILL), Some(Ok(())));
    assert_eq!(try_draw(&Line(1, 1, 1, 0), &mut rowless, STROKE, FILL), Some(Ok(())));
    assert_eq!(try_draw(&Line(1, 1, 0, 1), &mut rowless, STROKE, FILL), Some(Ok(())));
    assert_eq!(try_draw(&Line(1, 3, 4, 1), &mut rowless, STROKE, FILL), Some(Ok(())));
    let short = CustomShape(vec![Point(0, 0), Point(3, 3)], true);
    assert_eq!(
        try_draw(&short, &mut rowless, STROKE, FILL),
        Some(Err(ShapeError::NotEnoughVertices))
    );
    assert_eq!(short.draw(&mut rowless, STROKE, FILL), Err(ShapeError::NotEnoughVertices));
    // shapes that print need one
    assert_eq!(try_draw(&Point(0, 0), &mut rowless, STROKE, FILL), None);
    assert_eq!(try_draw(&ShapeRect(1, 1, 1, 1), &mut rowless, STROKE, FILL), None);
    assert_eq!(try_draw(&Line(1, 1, 1, 2), &mut rowless, STROKE, FILL), None);
    assert_eq!(try_draw(&Line(1, 1, 4, 3), &mut rowless, STROKE, FILL), None);
    assert_eq!(try_draw(&Background, &mut rowless, STROKE, FILL), None);
    let long = CustomShape(vec![Point(0, 0), Point(0, 1), Point(1, 1)], false);
    assert_eq!(try_draw(&long, &mut rowless, STROKE, FILL), None);
    let columnless = &mut Surface::new(0, 3);
    assert_eq!(try_draw(&Circle(2, 2, 1), columnless, STROKE, FILL), Some(Ok(())));
}

#[test]
fn any_shape_is_drawn_as_the_shape_it_is() {
    let shapes = vec![
        Shape::Background,
        Shape::Rect(ShapeRect(1, 1, 3, 3)),
        Shape::Circle(Circle(5, 2, 1)),
        Shape::Line(Line(0, 4, 3, 4)),
        Shape::Point(Point(6, 4)),
    ];
    let mut surface = Surface::new(8, 6);
    for shape in &shapes {
        assert_eq!(try_draw(shape, &mut surface, STROKE, FILL), Some(Ok(())));
    }
    assert_eq!(
        picture(&mut surface),
        vec!["SSSSSSS.", "SSSSSSS.", "SSFSSFS.", "SSSSSSS.", "SSSSSSS.", "........"]
    );
    let mut surface = Surface::new(4, 4);
    let custom = Shape::Custom(CustomShape(vec![Point(0, 0), Point(1, 1)], false));
    assert_eq!(
        custom.draw(&mut surface, STROKE, FILL),
        Err(ShapeError::NotEnoughVertices)
    );
    let custom = Shape::Custom(CustomShape(vec![Point(0, 0), Point(1, 1), Point(2, 2)], false));
    assert_eq!(custom.draw(&mut surface, STROKE, FILL), Ok(()));
    assert_eq!(picture(&mut surface), vec!["S...", ".S..", "..S.", "...."]);
}

#[test]
fn every_piece_of_music_has_its_recording() {
    assert_eq!(Music::PalletTown.file_name(), "music/03 - Pallet Town.flac");
    assert_eq!(Music::Pokecenter.file_name(), "music/17 - Pok\u{e9}mon Center.flac");
    assert_eq!(Music::FinalBattle.file_name(), "music/51 Final Battle! (Rival).flac");
    assert_eq!(Music::JigglypuffSong.file_name(), "music/22 - Jigglypuff's Song.flac");
    assert_eq!(Music::GBPrinter.file_name(), Music::YellowUnusedSong.file_name());
    assert_eq!(Music::GBPrinter.file_name(), "music/05 - Giovanni [Hidden Track].flac");
}
