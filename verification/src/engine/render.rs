//! What the renderer computes before it draws: sprite sheets, their frame
//! grid, and the layout of bitmap-font text.
use vstd::prelude::*;

verus! {

/// Number of variants of [`Sprite`].
pub const SPRITE_COUNT: usize = 5;

/// Number of variants of [`BitmapFontColor`]: the rows of a bitmap font image.
pub const BITMAP_FONT_COLOR_COUNT: u32 = 3;

#[derive(Debug, Copy, Clone, PartialEq, Eq, Structural)]
pub enum Sprite {
    CrabOrange,
    CrabGreen,
    Parallax,
    Tileset,
    HealthFrame,
}

#[derive(Debug, Copy, Clone, PartialEq, Eq, Structural)]
pub enum BitmapFont {
    Numbers28,
    Numbers16,
}

#[derive(Debug, Copy, Clone, PartialEq, Eq, Structural)]
pub enum BitmapFontColor {
    White,
    Yellow,
    Red,
}

/// Where a sprite sheet is and how its frames are laid out.
pub struct SpriteParams {
    pub path: &'static str,
    pub h_frames: u32,
    pub v_frames: u32,
}

/// One glyph of a bitmap-font text: where it is in the font image, how wide it
/// is, and how far right of the text's start it is drawn.
#[derive(Debug, Copy, Clone, PartialEq, Eq, Structural)]
pub struct BitmapGlyph {
    pub source_x: u32,
    pub width: u32,
    pub dest_x: u128,
}

impl Sprite {
    pub open spec fn spec_index(self) -> usize {
        match self {
            Sprite::CrabOrange => 0,
            Sprite::CrabGreen => 1,
            Sprite::Parallax => 2,
            Sprite::Tileset => 3,
            Sprite::HealthFrame => 4,
        }
    }

    /// Position of the sprite in the renderer's table of loaded sheets.
    pub fn index(self) -> (i: usize)
        ensures
            i == self.spec_index(),
            i < SPRITE_COUNT,
    {
        match self {
            Sprite::CrabOrange => 0,
            Sprite::CrabGreen => 1,
            Sprite::Parallax => 2,
            Sprite::Tileset => 3,
            Sprite::HealthFrame => 4,
        }
    }

    /// The sprite at position `i`; every sprite is loaded in this order.
    pub fn from_index(i: usize) -> (sprite: Sprite)
        requires
            i < SPRITE_COUNT,
        ensures
            sprite.spec_index() == i,
    {
        if i == 0 {
            Sprite::CrabOrange
        } else if i == 1 {
            Sprite::CrabGreen
        } else if i == 2 {
            Sprite::Parallax
        } else if i == 3 {
            Sprite::Tileset
        } else {
            Sprite::HealthFrame
        }
    }

    pub open spec fn spec_h_frames(self) -> u32 {
        match self {
            Sprite::CrabOrange | Sprite::CrabGreen => 8,
            Sprite::Parallax => 1,
            Sprite::Tileset => 13,
            Sprite::HealthFrame => 2,
        }
    }

    pub open spec fn spec_v_frames(self) -> u32 {
        match self {
            Sprite::CrabOrange | Sprite::CrabGreen => 3,
            Sprite::Parallax => 1,
            Sprite::Tileset => 3,
            Sprite::HealthFrame => 1,
        }
    }

    pub open spec fn spec_path(self) -> Seq<char> {
        match self {
            Sprite::CrabOrange => "res/crab_orange.png"@,
            Sprite::CrabGreen => "res/crab_green.png"@,
            Sprite::Parallax => "res/parallax.png"@,
            Sprite::Tileset => "res/tileset.png"@,
            Sprite::HealthFrame => "res/health_frame.png"@,
        }
    }
}

impl BitmapFontColor {
    pub open spec fn spec_index(self) -> u32 {
        match self {
            BitmapFontColor::White => 0,
            BitmapFontColor::Yellow => 1,
            BitmapFontColor::Red => 2,
        }
    }

    /// Row of the color in a bitmap font image.
    pub fn index(self) -> (i: u32)
        ensures
            i == self.spec_index(),
            i < BITMAP_FONT_COLOR_COUNT,
    {
        match self {
            BitmapFontColor::White => 0,
            BitmapFontColor::Yellow => 1,
            BitmapFontColor::Red => 2,
        }
    }
}

/// Where the sheet of `sprite` is and how many frames it holds across and down.
pub fn render_get_sprite_params(sprite: Sprite) -> (params: SpriteParams)
    ensures
        params.path@ == sprite.spec_path(),
        params.h_frames == sprite.spec_h_frames(),
        params.v_frames == sprite.spec_v_frames(),
        params.h_frames >= 1,
        params.v_frames >= 1,
{
    match sprite {
        Sprite::CrabOrange => SpriteParams { path: "res/crab_orange.png", h_frames: 8, v_frames: 3 },
        Sprite::CrabGreen => SpriteParams { path: "res/crab_green.png", h_frames: 8, v_frames: 3 },
        Sprite::Parallax => SpriteParams { path: "res/parallax.png", h_frames: 1, v_frames: 1 },
        Sprite::Tileset => SpriteParams { path: "res/tileset.png", h_frames: 13, v_frames: 3 },
        Sprite::HealthFrame => SpriteParams {
            path: "res/health_frame.png",
            h_frames: 2,
            v_frames: 1,
        },
    }
}

/// The size of one frame of a sheet whose image is `image_width` by `image_height`.
pub fn render_sprite_frame_size(image_width: u32, image_height: u32, params: &SpriteParams) -> (size:
    (u32, u32))
    requires
        params.h_frames >= 1,
        params.v_frames >= 1,
    ensures
        size.0 == image_width / params.h_frames,
        size.1 == image_height / params.v_frames,
{
    (image_width / params.h_frames, image_height / params.v_frames)
}

/// The top-left corner, in the sheet, of frame (`h_frame`, `v_frame`).
pub fn render_sprite_source_origin(h_frame: u32, v_frame: u32, frame_width: u32, frame_height: u32) -> (origin: (u32, u32))
    requires
        h_frame * frame_width <= u32::MAX,
        v_frame * frame_height <= u32::MAX,
    ensures
        origin.0 == h_frame * frame_width,
        origin.1 == v_frame * frame_height,
{
    (h_frame * frame_width, v_frame * frame_height)
}

/// Offset and width of the glyph for `character` in `font`, if the font has one.
pub open spec fn spec_glyph(font: BitmapFont, character: char) -> Option<(u32, u32)> {
    match font {
        BitmapFont::Numbers28 => {
            if character == '0' {
                Some((0u32, 12u32))
            } else if character == '1' {
                Some((12u32, 9u32))
            } else if character == '2' {
                Some((21u32, 12u32))
            } else if character == '3' {
                Some((33u32, 12u32))
            } else if character == '4' {
                Some((45u32, 14u32))
            } else if character == '5' {
                Some((59u32, 11u32))
            } else if character == '6' {
                Some((70u32, 12u32))
            } else if character == '7' {
                Some((82u32, 12u32))
            } else if character == '8' {
                Some((94u32, 14u32))
            } else if character == '9' {
                Some((108u32, 10u32))
            } else {
                None
            }
        },
        BitmapFont::Numbers16 => {
            if character == '0' {
                Some((0u32, 7u32))
            } else if character == '1' {
                Some((7u32, 5u32))
            } else if character == '2' {
                Some((12u32, 7u32))
            } else if character == '3' {
                Some((19u32, 7u32))
            } else if character == '4' {
                Some((26u32, 8u32))
            } else if character == '5' {
                Some((34u32, 6u32))
            } else if character == '6' {
                Some((40u32, 7u32))
            } else if character == '7' {
                Some((47u32, 7u32))
            } else if character == '8' {
                Some((54u32, 8u32))
            } else if character == '9' {
                Some((62u32, 6u32))
            } else if character == '.' {
                Some((68u32, 3u32))
            } else if character == '%' {
                Some((71u32, 8u32))
            } else {
                None
            }
        },
    }
}

/// The characters of a font image, left to right.
pub open spec fn spec_font_characters(font: BitmapFont) -> Seq<char> {
    match font {
        BitmapFont::Numbers28 => seq!['0', '1', '2', '3', '4', '5', '6', '7', '8', '9'],
        BitmapFont::Numbers16 => seq!['0', '1', '2', '3', '4', '5', '6', '7', '8', '9', '.', '%'],
    }
}

/// A font image holds its glyphs side by side in character order: the first
/// starts at 0 and each starts where the one before ends. The font has a
/// glyph for exactly the characters of its image.
pub proof fn law_glyphs_laid_out_in_order(font: BitmapFont, i: int, character: char)
    ensures
        spec_glyph(font, spec_font_characters(font)[0]) is Some,
        spec_glyph(font, spec_font_characters(font)[0]).unwrap().0 == 0,
        0 <= i < spec_font_characters(font).len() ==> spec_glyph(
            font,
            spec_font_characters(font)[i],
        ) is Some,
        0 <= i < spec_font_characters(font).len() - 1 ==> ({
            let here = spec_glyph(font, spec_font_characters(font)[i]).unwrap();
            let next = spec_glyph(font, spec_font_characters(font)[i + 1]).unwrap();
            next.0 == here.0 + here.1
        }),
        spec_glyph(font, character) is Some <==> spec_font_characters(font).contains(character),
{
    let chars = spec_font_characters(font);
    if spec_glyph(font, character) is Some {
        let k: int = if character == '0' {
            0
        } else if character == '1' {
            1
        } else if character == '2' {
            2
        } else if character == '3' {
            3
        } else if character == '4' {
            4
        } else if character == '5' {
            5
        } else if character == '6' {
            6
        } else if character == '7' {
            7
        } else if character == '8' {
            8
        } else if character == '9' {
            9
        } else if character == '.' {
            10
        } else {
            11
        };
        assert(chars[k] == character);
    }
}

/// Whether `font` has a glyph for `character`.
pub fn bitmap_font_has_glyph(font: BitmapFont, character: char) -> (b: bool)
    ensures
        b == spec_glyph(font, character) is Some,
{
    match font {
        BitmapFont::Numbers28 => '0' <= character && character <= '9',
        BitmapFont::Numbers16 => ('0' <= character && character <= '9') || character == '.'
            || character == '%',
    }
}

/// Offset and width, in the font image, of the glyph for `character`.
pub fn render_get_bitmap_glyph_offset_and_width(font: BitmapFont, character: char) -> (glyph: (
    u32,
    u32,
))
    requires
        spec_glyph(font, character) is Some,
    ensures
        Some(glyph) == spec_glyph(font, character),
        glyph.1 <= 14,
{
    match font {
        BitmapFont::Numbers28 => {
            match character {
                '0' => (0, 12),
                '1' => (12, 9),
                '2' => (21, 12),
                '3' => (33, 12),
                '4' => (45, 14),
                '5' => (59, 11),
                '6' => (70, 12),
                '7' => (82, 12),
                '8' => (94, 14),
                _ => (108, 10),
            }
        },
        BitmapFont::Numbers16 => {
            match character {
                '0' => (0, 7),
                '1' => (7, 5),
                '2' => (12, 7),
                '3' => (19, 7),
                '4' => (26, 8),
                '5' => (34, 6),
                '6' => (40, 7),
                '7' => (47, 7),
                '8' => (54, 8),
                '9' => (62, 6),
                '.' => (68, 3),
                _ => (71, 8),
            }
        },
    }
}

/// Width of `text` drawn in `font`: the sum of its glyphs' widths.
pub open spec fn spec_text_width(font: BitmapFont, text: Seq<char>) -> int
    decreases text.len(),
{
    if text.len() == 0 {
        0
    } else {
        spec_text_width(font, text.drop_last()) + spec_glyph(font, text.last()).unwrap().1
    }
}

/// The height of one glyph row of a font image and where the row of `color` starts.
pub fn render_bitmap_glyph_row(image_height: u32, color: BitmapFontColor) -> (row: (u32, u32))
    ensures
        row.0 == image_height / BITMAP_FONT_COLOR_COUNT,
        row.1 == row.0 * color.spec_index(),
        row.1 <= image_height,
{
    let glyph_height = image_height / BITMAP_FONT_COLOR_COUNT;
    let color_index = color.index();
    assert(glyph_height * color_index <= image_height) by (nonlinear_arith)
        requires
            glyph_height == image_height / 3,
            color_index < 3,
    ;
    (glyph_height, glyph_height * color_index)
}

/// The width of two texts drawn one after the other is the sum of their
/// widths, and the empty text has no width.
pub proof fn law_text_width_additive(font: BitmapFont, first: Seq<char>, second: Seq<char>)
    ensures
        spec_text_width(font, first + second) == spec_text_width(font, first) + spec_text_width(
            font,
            second,
        ),
        spec_text_width(font, Seq::<char>::empty()) == 0,
    decreases second.len(),
{
    if second.len() == 0 {
        assert(first + second =~= first);
    } else {
        let joined = first + second;
        assert(joined.drop_last() =~= first + second.drop_last());
        assert(joined.last() == second.last());
        law_text_width_additive(font, first, second.drop_last());
    }
}

/// Every glyph is at most 14 pixels wide, so a text is at most 14 pixels per character.
proof fn lemma_text_width_at_most(font: BitmapFont, text: Seq<char>)
    requires
        forall|i: int| 0 <= i < text.len() ==> (#[trigger] spec_glyph(font, text[i])) is Some,
    ensures
        spec_text_width(font, text) <= 14 * text.len(),
    decreases text.len(),
{
    if text.len() > 0 {
        let rest = text.drop_last();
        assert forall|i: int| 0 <= i < rest.len() implies (#[trigger] spec_glyph(
            font,
            rest[i],
        )) is Some by {
            assert(rest[i] == text[i]);
        }
        lemma_text_width_at_most(font, rest);
        assert(spec_glyph(font, text[text.len() - 1]) is Some);
    }
}

/// Where each glyph of `text` is drawn, left to right, and the width of the whole text.
pub fn render_bitmap_text_layout(text: &str, font: BitmapFont) -> (layout: (Vec<BitmapGlyph>, u128))
    requires
        forall|i: int| 0 <= i < text@.len() ==> (#[trigger] spec_glyph(font, text@[i])) is Some,
    ensures
        layout.0.len() == text@.len(),
        layout.1 == spec_text_width(font, text@),
        forall|i: int|
            0 <= i < text@.len() ==> {
                let glyph = spec_glyph(font, text@[i]).unwrap();
                &&& (#[trigger] layout.0[i]).source_x == glyph.0
                &&& layout.0[i].width == glyph.1
                &&& layout.0[i].dest_x == spec_text_width(font, text@.take(i))
            },
{
    let mut glyphs: Vec<BitmapGlyph> = Vec::new();
    let mut text_width: u128 = 0;
    for character in iter: text.chars()
        invariant
            iter.seq() == text@,
            forall|i: int| 0 <= i < text@.len() ==> (#[trigger] spec_glyph(font, text@[i])) is Some,
            glyphs.len() == iter.index(),
            text_width == spec_text_width(font, text@.take(iter.index() as int)),
            forall|i: int|
                0 <= i < iter.index() ==> {
                    let glyph = spec_glyph(font, text@[i]).unwrap();
                    &&& (#[trigger] glyphs[i]).source_x == glyph.0
                    &&& glyphs[i].width == glyph.1
                    &&& glyphs[i].dest_x == spec_text_width(font, text@.take(i))
                },
    {
        let ghost k = iter.index() as int;
        let placed = glyphs.len();
        let (glyph_offset, glyph_width) = render_get_bitmap_glyph_offset_and_width(font, character);
        proof {
            assert(text@.take(k + 1).drop_last() =~= text@.take(k));
            assert(text@.take(k + 1).last() == text@[k]);
            assert forall|i: int| 0 <= i < text@.take(k).len() implies (#[trigger] spec_glyph(
                font,
                text@.take(k)[i],
            )) is Some by {
                assert(text@.take(k)[i] == text@[i]);
            }
            lemma_text_width_at_most(font, text@.take(k));
            assert(placed <= usize::MAX);
            assert(text_width + glyph_width <= 14 * (usize::MAX + 1));
        }
        glyphs.push(BitmapGlyph { source_x: glyph_offset, width: glyph_width, dest_x: text_width });
        text_width += glyph_width as u128;
    }
    proof {
        assert(text@.take(text@.len() as int) =~= text@);
    }
    (glyphs, text_width)
}

} // verus!
