use super_snack_bros::engine::render::{
    bitmap_font_has_glyph, render_bitmap_glyph_row, render_bitmap_text_layout,
    render_get_bitmap_glyph_offset_and_width, render_get_sprite_params, render_sprite_frame_size,
    render_sprite_source_origin, BitmapFont, BitmapFontColor, BitmapGlyph, Sprite, SPRITE_COUNT,
};

#[test]
fn sprite_params() {
    let p = render_get_sprite_params(Sprite::CrabOrange);
    assert_eq!((p.path, p.h_frames, p.v_frames), ("res/crab_orange.png", 8, 3));
    let p = render_get_sprite_params(Sprite::Tileset);
    assert_eq!((p.path, p.h_frames, p.v_frames), ("res/tileset.png", 13, 3));
    let p = render_get_sprite_params(Sprite::HealthFrame);
    assert_eq!((p.path, p.h_frames, p.v_frames), ("res/health_frame.png", 2, 1));
    let p = render_get_sprite_params(Sprite::Parallax);
    assert_eq!((p.path, p.h_frames, p.v_frames), ("res/parallax.png", 1, 1));
    let p = render_get_sprite_params(Sprite::CrabGreen);
    assert_eq!(p.path, "res/crab_green.png");
}

#[test]
fn sprite_indices_cover_every_sprite() {
    for i in 0..SPRITE_COUNT {
        assert_eq!(Sprite::from_index(i).index(), i);
    }
    assert_eq!(Sprite::Parallax.index(), 2);
}

#[test]
fn frame_size_divides_the_sheet() {
    let p = render_get_sprite_params(Sprite::CrabOrange);
    assert_eq!(render_sprite_frame_size(256, 96, &p), (32, 32));
    let p = render_get_sprite_params(Sprite::Tileset);
    assert_eq!(render_sprite_frame_size(208, 48, &p), (16, 16));
    // integer division drops a remainder
    assert_eq!(render_sprite_frame_size(210, 50, &p), (16, 16));
}

#[test]
fn source_origin() {
    assert_eq!(render_sprite_source_origin(3, 2, 32, 32), (96, 64));
    assert_eq!(render_sprite_source_origin(0, 0, 32, 32), (0, 0));
}

#[test]
fn glyph_table() {
    assert_eq!(render_get_bitmap_glyph_offset_and_width(BitmapFont::Numbers28, '0'), (0, 12));
    assert_eq!(render_get_bitmap_glyph_offset_and_width(BitmapFont::Numbers28, '4'), (45, 14));
    assert_eq!(render_get_bitmap_glyph_offset_and_width(BitmapFont::Numbers28, '9'), (108, 10));
    assert_eq!(render_get_bitmap_glyph_offset_and_width(BitmapFont::Numbers16, '1'), (7, 5));
    assert_eq!(render_get_bitmap_glyph_offset_and_width(BitmapFont::Numbers16, '.'), (68, 3));
    assert_eq!(render_get_bitmap_glyph_offset_and_width(BitmapFont::Numbers16, '%'), (71, 8));
}

#[test]
fn glyph_presence() {
    assert!(bitmap_font_has_glyph(BitmapFont::Numbers28, '7'));
    assert!(!bitmap_font_has_glyph(BitmapFont::Numbers28, '.'));
    assert!(!bitmap_font_has_glyph(BitmapFont::Numbers28, '%'));
    assert!(bitmap_font_has_glyph(BitmapFont::Numbers16, '%'));
    assert!(!bitmap_font_has_glyph(BitmapFont::Numbers16, 'a'));
}

#[test]
fn text_layout_places_glyphs_left_to_right() {
    let (glyphs, width) = render_bitmap_text_layout("42", BitmapFont::Numbers28);
    assert_eq!(
        glyphs,
        vec![
            BitmapGlyph { source_x: 45, width: 14, dest_x: 0 },
            BitmapGlyph { source_x: 21, width: 12, dest_x: 14 },
        ]
    );
    assert_eq!(width, 26);

    let (glyphs, width) = render_bitmap_text_layout(".5%", BitmapFont::Numbers16);
    assert_eq!(glyphs.len(), 3);
    assert_eq!(glyphs[1], BitmapGlyph { source_x: 34, width: 6, dest_x: 3 });
    assert_eq!(glyphs[2].dest_x, 9);
    assert_eq!(width, 17);
}

#[test]
fn empty_text_has_no_width() {
    let (glyphs, width) = render_bitmap_text_layout("", BitmapFont::Numbers16);
    assert!(glyphs.is_empty());
    assert_eq!(width, 0);
}

#[test]
fn glyph_rows() {
    assert_eq!(render_bitmap_glyph_row(84, BitmapFontColor::White), (28, 0));
    assert_eq!(render_bitmap_glyph_row(84, BitmapFontColor::Yellow), (28, 28));
    assert_eq!(render_bitmap_glyph_row(84, BitmapFontColor::Red), (28, 56));
    assert_eq!(render_bitmap_glyph_row(50, BitmapFontColor::Red), (16, 32));
}

fn width(text: &str, font: BitmapFont) -> u128 {
    render_bitmap_text_layout(text, font).1
}

#[test]
fn text_width_is_additive() {
    for (a, b) in [("12", "345"), ("", "9"), ("80", ""), ("7", "7")] {
        let joined = a.to_owned() + b;
        assert_eq!(
            width(&joined, BitmapFont::Numbers28),
            width(a, BitmapFont::Numbers28) + width(b, BitmapFont::Numbers28)
        );
    }
    let joined = "33".to_owned() + ".3%";
    assert_eq!(width(&joined, BitmapFont::Numbers16), width("33", BitmapFont::Numbers16) + width(".3%", BitmapFont::Numbers16));
    assert_eq!(width("", BitmapFont::Numbers28), 0);
}
