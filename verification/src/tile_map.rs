//! A tile map as its file describes it, before the game makes anything of it.

use vstd::prelude::*;

verus! {

/// The image that a tileset cuts its tiles from.
#[derive(Clone, Debug)]
pub struct TileImage {
    /// The file of the image, relative to the directory of the maps.
    pub source: String,
    pub width: i32,
    pub height: i32,
}

#[derive(Clone, Debug)]
pub struct Tileset {
    pub images: Vec<TileImage>,
}

/// The tiles of a layer.
#[derive(Clone, Debug)]
pub enum LayerData {
    /// Rows of tile numbers, top row first; 0 stands for no tile.
    Finite(Vec<Vec<u32>>),
    /// A layer without bounds, stored in chunks.
    Infinite,
}

#[derive(Clone, Debug)]
pub struct TileLayer {
    pub name: String,
    pub tiles: LayerData,
}

/// What a map file holds: the size of a tile in pixels, the tilesets, and
/// the layers from the bottom one to the top one.
#[derive(Clone, Debug)]
pub struct TileMap {
    pub tile_width: u32,
    pub tile_height: u32,
    pub tilesets: Vec<Tileset>,
    pub layers: Vec<TileLayer>,
}

/// The rows of a layer as sequences of tile numbers.
pub open spec fn rows_of(tiles: Vec<Vec<u32>>) -> Seq<Seq<u32>> {
    Seq::new(tiles@.len(), |y: int| tiles@[y]@)
}

impl TileLayer {
    /// The rows of the layer; a layer without bounds has none.
    pub open spec fn rows(self) -> Seq<Seq<u32>> {
        match self.tiles {
            LayerData::Finite(tiles) => rows_of(tiles),
            LayerData::Infinite => Seq::empty(),
        }
    }
}

} // verus!
