use cp437_atlas::cp437::{cp437_chars, get_cp437_char, printable_ascii};
use cp437_atlas::dump::{dump_line_text, dump_lines, hex_word};
use cp437_atlas::layout::{
    atlas_dimensions, cell_geometry, cell_origin, place_glyph, plan_atlas, select_output,
    AtlasError, OutputMode, Placement, RenderedGlyph, VerticalAlign,
};
use cp437_atlas::packer::{pack_raster, padded_width, Raster};
use cp437_atlas::solver::{
    height_descend_step, max_glyph_width, proportional_step, width_match_step, GlyphBox,
    ScaleStep, SizeStep, DESCEND_FIRST_SIZE,
};

fn text(v: &[char]) -> String {
    v.iter().collect()
}

fn glyph_box(min_x: i32, max_x: i32, min_y: i32, max_y: i32) -> GlyphBox {
    GlyphBox { min_x, max_x, min_y, max_y }
}

fn rendered(width: u32, height: u32, min_y: i32) -> RenderedGlyph {
    RenderedGlyph { width, height, metrics: glyph_box(0, width as i32, min_y, min_y + height as i32) }
}

fn solid_raster(width: u32, height: u32, bpp: usize, value: u8) -> Raster {
    let pitch = width as usize * bpp;
    Raster { pixels: vec![value; pitch * height as usize], width, height, pitch, bytes_per_pixel: bpp }
}

fn set_pixel(r: &mut Raster, x: usize, y: usize, v: [u8; 3]) {
    let o = y * r.pitch + x * r.bytes_per_pixel;
    r.pixels[o] = v[0];
    r.pixels[o + 1] = v[1];
    r.pixels[o + 2] = v[2];
}

#[test]
fn code_page_characters() {
    assert_eq!(get_cp437_char(0), ' ');
    assert_eq!(get_cp437_char(1), '\u{263A}');
    assert_eq!(get_cp437_char(3), '\u{2665}');
    assert_eq!(get_cp437_char(65), 'A');
    assert_eq!(get_cp437_char(126), '~');
    assert_eq!(get_cp437_char(127), '\u{2302}');
    assert_eq!(get_cp437_char(128), '\u{00C7}');
    assert_eq!(get_cp437_char(219), '\u{2588}');
    assert_eq!(get_cp437_char(254), '\u{25A0}');
    assert_eq!(get_cp437_char(255), ' ');
    let all = cp437_chars();
    assert_eq!(all.len(), 256);
    for i in 0..=255u8 {
        assert_eq!(all[i as usize], get_cp437_char(i));
    }
}

#[test]
fn padded_width_values() {
    assert_eq!(padded_width(0), 0);
    assert_eq!(padded_width(1), 32);
    assert_eq!(padded_width(31), 32);
    assert_eq!(padded_width(32), 32);
    assert_eq!(padded_width(33), 64);
    assert_eq!(padded_width(160), 160);
    assert_eq!(padded_width(161), 192);
    for w in 0..300u32 {
        let p = padded_width(w);
        assert_eq!(p % 32, 0);
        assert!(p >= w);
        assert_eq!(p == w, w % 32 == 0);
    }
}

#[test]
fn blank_square_atlas_packs_to_zero_words() {
    let r = solid_raster(32, 32, 3, 255);
    let p = pack_raster(&r);
    assert_eq!(p.padded_width, 32);
    assert_eq!(p.words.len(), 32);
    assert!(p.words.iter().all(|w| *w == 0));
    let lines = dump_lines(&p.words);
    assert_eq!(lines.len(), 4);
    let expected = format!("//!  0x00000000 {}", " 0x00000000 ".repeat(7));
    for line in &lines {
        assert_eq!(text(line), expected);
    }
}

#[test]
fn ink_bits_land_in_order() {
    let mut r = solid_raster(40, 2, 4, 255);
    set_pixel(&mut r, 0, 0, [0, 0, 0]);
    set_pixel(&mut r, 3, 0, [10, 20, 30]);
    set_pixel(&mut r, 31, 0, [0, 0, 0]);
    set_pixel(&mut r, 32, 1, [0, 0, 0]);
    set_pixel(&mut r, 39, 1, [0, 0, 0]);
    let p = pack_raster(&r);
    assert_eq!(p.padded_width, 64);
    assert_eq!(p.words, vec![0x8000_0009, 0, 0, 0x0000_0081]);
    for y in 0..2u32 {
        for x in 0..64u32 {
            let ink = x < 40 && r.pixels[y as usize * r.pitch + x as usize * 4] < 128;
            assert_eq!(p.bit_at(x, y), ink);
            let flat = (y * p.padded_width + x) as usize;
            assert_eq!((p.words[flat / 32] >> (x % 32)) & 1 == 1, ink);
        }
    }
}

#[test]
fn ink_threshold_is_mean_below_128() {
    let mut r = solid_raster(4, 1, 3, 255);
    set_pixel(&mut r, 0, 0, [127, 128, 128]);
    set_pixel(&mut r, 1, 0, [128, 128, 128]);
    set_pixel(&mut r, 2, 0, [255, 128, 0]);
    set_pixel(&mut r, 3, 0, [255, 127, 0]);
    let p = pack_raster(&r);
    assert_eq!(p.words, vec![0b1101]);
}

#[test]
fn pixels_past_the_buffer_are_background() {
    let r = Raster { pixels: vec![0; 5], width: 3, height: 1, pitch: 9, bytes_per_pixel: 3 };
    let p = pack_raster(&r);
    assert_eq!(p.words, vec![0b001]);
}

#[test]
fn packing_twice_gives_the_same_words() {
    let mut r = solid_raster(50, 3, 3, 200);
    set_pixel(&mut r, 7, 2, [1, 2, 3]);
    set_pixel(&mut r, 49, 0, [1, 2, 3]);
    assert_eq!(pack_raster(&r).words, pack_raster(&r).words);
}

#[test]
fn hex_words_are_upper_case() {
    assert_eq!(text(&hex_word(0)), "0x00000000");
    assert_eq!(text(&hex_word(0xDEAD_BEEF)), "0xDEADBEEF");
    assert_eq!(text(&hex_word(0x0123_4567)), "0x01234567");
    assert_eq!(text(&hex_word(u32::MAX)), "0xFFFFFFFF");
}

#[test]
fn dump_lines_hold_eight_words() {
    let words: Vec<u32> = (1..=10).collect();
    let lines = dump_lines(&words);
    assert_eq!(lines.len(), 2);
    assert_eq!(
        text(&lines[1]),
        "//!  0x00000009  0x0000000A "
    );
    assert_eq!(text(&dump_line_text(&words, 0)), text(&lines[0]));
    assert!(text(&lines[0]).starts_with("//!  0x00000001  0x00000002 "));
    assert!(dump_lines(&Vec::new()).is_empty());
}

#[test]
fn widest_glyph_skips_missing_ones() {
    let glyphs = vec![
        Some(glyph_box(0, 7, 0, 10)),
        None,
        Some(glyph_box(-2, 9, 0, 10)),
        Some(glyph_box(-5, -1, 0, 10)),
    ];
    assert_eq!(max_glyph_width(&glyphs), 9);
    assert_eq!(max_glyph_width(&vec![None, None]), 0);
    assert_eq!(max_glyph_width(&vec![Some(glyph_box(-5, -1, 0, 3))]), 0);
}

#[test]
fn width_search_steps() {
    assert_eq!(width_match_step(10, 1, 0), SizeStep::Try(2));
    assert_eq!(width_match_step(10, 17, 10), SizeStep::Accept { size: 17, measured: 10 });
    assert_eq!(width_match_step(10, 20, 12), SizeStep::Accept { size: 20, measured: 12 });
    assert_eq!(width_match_step(500, 127, 80), SizeStep::Accept { size: 127, measured: 80 });
    assert_eq!(width_match_step(500, 126, 80), SizeStep::Try(127));
}

#[test]
fn width_search_on_monospace_font() {
    // Every glyph of this font is 6/10 of the point size wide.
    let measure = |size: u32| -> Vec<Option<GlyphBox>> {
        (0..256).map(|_| Some(glyph_box(0, (size * 6 / 10) as i32, -2, 8))).collect()
    };
    let mut size = 1;
    let mut trace = Vec::new();
    let (accepted, width) = loop {
        let w = max_glyph_width(&measure(size));
        trace.push(w);
        match width_match_step(10, size, w) {
            SizeStep::Try(next) => size = next,
            SizeStep::Accept { size, measured } => break (size, measured),
        }
    };
    assert_eq!(accepted, 17);
    assert_eq!(width, 10);
    assert!(trace.windows(2).all(|p| p[0] <= p[1]));
    assert!(trace[..trace.len() - 1].iter().all(|w| *w < 10));
    let height = 14;
    assert_eq!(cell_geometry(width, height), Ok((10, 14)));
    assert_eq!(atlas_dimensions(width, height), (160, 224));
}

#[test]
fn width_search_gives_up_at_last_size() {
    let mut size = 1;
    let result = loop {
        match width_match_step(1000, size, size / 2) {
            SizeStep::Try(next) => size = next,
            SizeStep::Accept { size, measured } => break (size, measured),
        }
    };
    assert_eq!(result, (127, 63));
}

#[test]
fn descending_search_steps_back_up() {
    let height_at = |size: u32| if size >= 12 { size + 5 } else { size + 4 };
    assert_eq!(height_at(12), 17);
    assert_eq!(height_at(11), 15);
    let mut size = DESCEND_FIRST_SIZE;
    let result = loop {
        match height_descend_step(16, size, height_at(size)) {
            SizeStep::Try(next) => size = next,
            SizeStep::Accept { size, measured } => break (size, measured),
        }
    };
    assert_eq!(result, (12, 15));
}

#[test]
fn descending_search_accepts_last_size_when_nothing_fits() {
    let mut size = DESCEND_FIRST_SIZE;
    let mut trials = 0;
    let result = loop {
        trials += 1;
        match height_descend_step(2, size, 100) {
            SizeStep::Try(next) => size = next,
            SizeStep::Accept { size, .. } => break size,
        }
    };
    assert_eq!(result, 5);
    assert_eq!(trials, 44);
    assert_eq!(height_descend_step(100, 48, 30), SizeStep::Accept { size: 49, measured: 30 });
}

#[test]
fn cells_follow_the_grid() {
    assert_eq!(atlas_dimensions(8, 16), (128, 256));
    assert_eq!(cell_origin(0, 8, 16), (0, 0));
    assert_eq!(cell_origin(15, 8, 16), (120, 0));
    assert_eq!(cell_origin(16, 8, 16), (0, 16));
    assert_eq!(cell_origin(65, 8, 16), (8, 64));
    assert_eq!(cell_origin(255, 8, 16), (120, 240));
}

#[test]
fn glyph_is_centred_horizontally() {
    let p = place_glyph(17, 10, 20, Some(rendered(6, 20, -3)), -4, VerticalAlign::Baseline);
    assert_eq!(
        p,
        Some(Placement { x: 12, y: 20, src_y: 0, width: 6, height: 20, clipped: false })
    );
}

#[test]
fn glyph_without_descender_sits_on_the_bottom() {
    let g = rendered(4, 12, 3);
    let p = place_glyph(1, 10, 20, Some(g), -2, VerticalAlign::Baseline);
    assert_eq!(p, Some(Placement { x: 13, y: 8, src_y: 0, width: 4, height: 12, clipped: false }));
    let top = place_glyph(1, 10, 20, Some(rendered(4, 12, 5)), -2, VerticalAlign::Baseline);
    assert_eq!(top, Some(Placement { x: 13, y: 0, src_y: 0, width: 4, height: 12, clipped: false }));
    let top = place_glyph(1, 10, 20, Some(g), -2, VerticalAlign::Top);
    assert_eq!(top.unwrap().y, 0);
    let centred = place_glyph(1, 10, 20, Some(g), -2, VerticalAlign::Centered);
    assert_eq!(centred.unwrap().y, 4);
}

#[test]
fn oversized_glyph_is_clipped_to_its_cell() {
    let p = place_glyph(0, 10, 20, Some(rendered(14, 25, 0)), -3, VerticalAlign::Baseline);
    assert_eq!(p, Some(Placement { x: 0, y: 0, src_y: 5, width: 10, height: 20, clipped: true }));
    let p = place_glyph(0, 10, 20, Some(rendered(14, 25, 9)), -3, VerticalAlign::Top);
    assert_eq!(p, Some(Placement { x: 0, y: 0, src_y: 0, width: 10, height: 20, clipped: true }));
}

#[test]
fn missing_or_empty_glyphs_get_no_placement() {
    assert_eq!(place_glyph(5, 10, 20, None, 0, VerticalAlign::Baseline), None);
    assert_eq!(place_glyph(5, 10, 20, Some(rendered(0, 20, 0)), 0, VerticalAlign::Top), None);
    let flat = RenderedGlyph { width: 4, height: 20, metrics: glyph_box(1, 1, 0, 10) };
    assert_eq!(place_glyph(5, 10, 20, Some(flat), 0, VerticalAlign::Top), None);
}

#[test]
fn missing_glyph_leaves_a_full_atlas_with_a_blank_cell() {
    let mut glyphs: Vec<Option<RenderedGlyph>> = (0..256).map(|_| Some(rendered(8, 16, -4))).collect();
    glyphs[66] = None;
    let plan = plan_atlas(8, 16, &glyphs, -4, VerticalAlign::Baseline);
    assert_eq!(plan.len(), 256);
    assert_eq!(plan[66], None);
    let (cx, cy) = cell_origin(66, 8, 16);
    for (i, p) in plan.iter().enumerate() {
        if i == 66 {
            continue;
        }
        let p = p.unwrap();
        let (x, y) = cell_origin(i as u8, 8, 16);
        assert_eq!((p.x, p.y), (x, y));
        let misses = p.x + p.width <= cx || cx + 8 <= p.x || p.y + p.height <= cy || cy + 16 <= p.y;
        assert!(misses);
    }
}

#[test]
fn geometry_and_output_errors() {
    assert_eq!(cell_geometry(10, 0), Err(AtlasError::ZeroHeight));
    assert_eq!(cell_geometry(u32::MAX / 8, 10), Err(AtlasError::TooLarge));
    assert_eq!(select_output(false, false), Err(AtlasError::NoOutput));
    assert_eq!(select_output(true, false), Ok(OutputMode::Image));
    assert_eq!(select_output(true, true), Ok(OutputMode::TextDump));
    assert_eq!(select_output(false, true), Ok(OutputMode::TextDump));
}

#[test]
fn proportional_search_stops_on_exact_height() {
    assert_eq!(proportional_step(16, 16, 1), ScaleStep::Accept);
    assert_eq!(proportional_step(16, 17, 1), ScaleStep::Rescale);
    assert_eq!(proportional_step(16, 15, 14), ScaleStep::Rescale);
    assert_eq!(proportional_step(16, 15, 15), ScaleStep::GiveUp);
    assert_eq!(proportional_step(16, 16, 15), ScaleStep::Accept);
}

#[test]
fn printable_ascii_runs_from_space_to_tilde() {
    let chars = printable_ascii();
    assert_eq!(chars.len(), 95);
    assert_eq!(chars[0], ' ');
    assert_eq!(chars[33], 'A');
    assert_eq!(chars[94], '~');
    let text: String = chars.iter().collect();
    assert!(text.contains("0123456789"));
}
