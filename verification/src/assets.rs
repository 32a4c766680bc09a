//! The sprite assets the scene is built from: the texture paths and the
//! grid layout of the eye sprite sheet.
//!
//! Image decoding and GPU upload belong to the host; this module owns what
//! the logic needs of an atlas — which file it comes from and where each
//! numbered cell lies on the sheet — so the sprite index the animation
//! driver writes resolves to a rectangle by proved arithmetic.

use vstd::prelude::*;
use vstd::string::StringExecFns;

verus! {

/// A sprite sheet cut into a regular grid of equally sized tiles, numbered
/// row by row from the top left.
#[derive(Debug)]
pub struct SpriteAtlas {
    /// Path of the sheet image, relative to the asset root.
    pub texture: String,
    /// Width of one tile, in pixels.
    pub tile_width: u32,
    /// Height of one tile, in pixels.
    pub tile_height: u32,
    /// Tiles per row.
    pub columns: u32,
    /// Number of rows.
    pub rows: u32,
}

/// The texture handles the scene needs: the player's body image and the
/// atlas of its animated eyes.
#[derive(Debug)]
pub struct SpriteAssets {
    /// Path of the player body image.
    pub player_body: String,
    /// The eye sprite sheet and its grid.
    pub player_eyes: SpriteAtlas,
}

impl SpriteAtlas {
    /// A grid has at least one column and one row.
    pub open spec fn wf(self) -> bool {
        self.columns >= 1 && self.rows >= 1
    }

    /// How many tiles the grid holds.
    pub open spec fn spec_frame_count(self) -> int {
        self.columns * self.rows
    }

    /// Count the tiles of the grid.
    pub fn frame_count(&self) -> (n: u64)
        ensures
            n == self.spec_frame_count(),
    {
        proof {
            assert(self.columns * self.rows <= 0xffffffff * 0xffffffff) by (nonlinear_arith)
                requires
                    0 <= self.columns <= 0xffffffff,
                    0 <= self.rows <= 0xffffffff,
            ;
        }
        (self.columns as u64) * (self.rows as u64)
    }

    /// The pixel rectangle of tile `index`, as
    /// `(left, top, right, bottom)`: tile `index` sits in column
    /// `index % columns` of row `index / columns`. An index beyond the grid
    /// has no rectangle.
    pub fn rect(&self, index: u64) -> (r: Option<(u64, u64, u64, u64)>)
        requires
            self.wf(),
        ensures
            r is None <==> index >= self.spec_frame_count(),
            r matches Some(t) ==> {
                let col = index as int % (self.columns as int);
                let row = index as int / (self.columns as int);
                &&& t.0 == col * self.tile_width
                &&& t.1 == row * self.tile_height
                &&& t.2 == (col + 1) * self.tile_width
                &&& t.3 == (row + 1) * self.tile_height
            },
    {
        let count = self.frame_count();
        if index >= count {
            return None;
        }
        let col: u64 = index % (self.columns as u64);
        let row: u64 = index / (self.columns as u64);
        proof {
            assert(row < self.rows && col < self.columns) by (nonlinear_arith)
                requires
                    index < self.columns * self.rows,
                    self.columns >= 1,
                    self.rows >= 1,
                    col == index as int % (self.columns as int),
                    row == index as int / (self.columns as int),
            ;
            assert((col + 1) * self.tile_width <= 0xffffffff * 0x100000000 && (col + 1)
                * self.tile_width == col * self.tile_width + self.tile_width) by (nonlinear_arith)
                requires
                    0 <= col + 1 <= 0x100000000,
                    0 <= self.tile_width <= 0xffffffff,
            ;
            assert((row + 1) * self.tile_height <= 0xffffffff * 0x100000000 && (row + 1)
                * self.tile_height == row * self.tile_height + self.tile_height)
                by (nonlinear_arith)
                requires
                    0 <= row + 1 <= 0x100000000,
                    0 <= self.tile_height <= 0xffffffff,
            ;
        }
        let left: u64 = col * (self.tile_width as u64);
        let top: u64 = row * (self.tile_height as u64);
        Some((left, top, left + self.tile_width as u64, top + self.tile_height as u64))
    }
}

/// The assets as the scene loads them: the body image, and the eye sheet
/// cut into two 256-pixel tiles side by side — cell 0 eyes open, cell 1
/// blinking.
pub fn load_textures() -> (r: SpriteAssets)
    ensures
        r.player_body@ == "player/player-body.png"@,
        r.player_eyes.texture@ == "player/player-eyes.png"@,
        r.player_eyes == (SpriteAtlas {
            texture: r.player_eyes.texture,
            tile_width: 256,
            tile_height: 256,
            columns: 2,
            rows: 1,
        }),
        r.player_eyes.wf(),
{
    SpriteAssets {
        player_body: String::from_str("player/player-body.png"),
        player_eyes: SpriteAtlas {
            texture: String::from_str("player/player-eyes.png"),
            tile_width: 256,
            tile_height: 256,
            columns: 2,
            rows: 1,
        },
    }
}

} // verus!
