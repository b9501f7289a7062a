//! Tilemaps: a tileset keyed by tile identifier, and the expansion of
//! a tile layer's grid into positioned sprites.

use vstd::prelude::*;
use crate::helpers::data::Frac;
use crate::helpers::strings::{dec_str, str_eq, u32_string};
use crate::sprite::{Sprite, SpriteProps};
use crate::textures::texture::Texture;
use vstd::arithmetic::div_mod::{
    lemma_fundamental_div_mod,
    lemma_fundamental_div_mod_converse,
    lemma_small_mod,
};

verus! {

/// One tile of a tileset: its pixel offset inside the atlas, its
/// identifier, and its descriptive fields.
pub struct Tile {
    pub pos: (u32, u32),
    pub id: u32,
    pub tile: String,
    pub tile_type: String,
    pub width: u32,
    pub height: u32,
}

/// A tileset: one atlas texture plus the tiles it carries, keyed by
/// the decimal numeral of their identifier.
pub struct Tileset {
    pub texture: Texture,
    pub width: u32,
    pub height: u32,
    pub tile_width: u32,
    pub tile_height: u32,
    pub tiles: Vec<(String, Tile)>,
}

/// Whether some tile entry carries the given key.
pub open spec fn contains_tile(s: Seq<(String, Tile)>, key: Seq<char>) -> bool {
    exists|i: int| 0 <= i < s.len() && s[i].0@ == key
}

/// The index of the tile entry with the given key.
pub open spec fn index_of_tile(s: Seq<(String, Tile)>, key: Seq<char>) -> int {
    choose|i: int| 0 <= i < s.len() && s[i].0@ == key
}

impl Tileset {
    /// A well-formed tileset sits on a nonempty texture whose extent
    /// it mirrors, has a nonempty tile grid step, and unique keys.
    pub open spec fn wf(self) -> bool {
        &&& self.texture.wf()
        &&& self.width == self.texture.width
        &&& self.height == self.texture.height
        &&& self.tile_width > 0
        &&& self.tile_height > 0
        &&& (forall|i: int, j: int|
            0 <= i < j < self.tiles@.len() ==> self.tiles@[i].0@ != self.tiles@[j].0@)
    }

    /// Builds the tileset over a decoded atlas texture.  The tile grid
    /// step is the engine's fixed 32-pixel tile.
    pub fn new(texture: Texture, tiles: Vec<(String, Tile)>) -> (r: Tileset)
        requires
            texture.wf(),
            forall|i: int, j: int| 0 <= i < j < tiles@.len() ==> tiles@[i].0@ != tiles@[j].0@,
        ensures
            r.texture == texture,
            r.width == texture.width,
            r.height == texture.height,
            r.tile_width == 32,
            r.tile_height == 32,
            r.tiles@ == tiles@,
            r.wf(),
    {
        let (width, height) = texture.get_dimensions();
        Tileset { texture, width, height, tile_width: 32, tile_height: 32, tiles }
    }

    pub fn get_texture(&self) -> (r: &Texture)
        ensures
            *r == self.texture,
    {
        &self.texture
    }

    /// The index of the tile stored under `key`, if any.
    fn find(&self, key: &str) -> (r: Option<usize>)
        ensures
            match r {
                Some(i) => i < self.tiles@.len() && self.tiles@[i as int].0@ == key@,
                None => !contains_tile(self.tiles@, key@),
            },
    {
        let mut i: usize = 0;
        while i < self.tiles.len()
            invariant
                i <= self.tiles@.len(),
                forall|k: int| 0 <= k < i ==> self.tiles@[k].0@ != key@,
            decreases self.tiles@.len() - i,
        {
            if str_eq(self.tiles[i].0.as_str(), key) {
                return Some(i);
            }
            i = i + 1;
        }
        None
    }
}

/// One grid layer of a tilemap: its extent in pixels, its metadata,
/// and the row-major list of tile identifiers.
pub struct TileLayer {
    pub height: u32,
    pub width: u32,
    pub name: String,
    pub visible: bool,
    pub x: u32,
    pub y: u32,
    pub data: Vec<u32>,
    pub layer_type: String,
}

/// Whether a tile identifier has a tile in the tileset, under the
/// decimal numeral of the identifier.
pub open spec fn tile_known(tiles: Seq<(String, Tile)>, id: u32) -> bool {
    contains_tile(tiles, dec_str(id as nat))
}

/// The tile a known identifier maps to.
pub open spec fn tile_of(tiles: Seq<(String, Tile)>, id: u32) -> Tile {
    tiles[index_of_tile(tiles, dec_str(id as nat))].1
}

/// How many of the identifiers have a tile.
pub open spec fn known_count(data: Seq<u32>, tiles: Seq<(String, Tile)>) -> int
    decreases data.len(),
{
    if data.len() == 0 {
        0
    } else {
        known_count(data.drop_last(), tiles) + if tile_known(tiles, data.last()) {
            1int
        } else {
            0int
        }
    }
}

/// The count of known identifiers is bounded by the list's length.
pub proof fn lemma_known_count_nonneg(d: Seq<u32>, tiles: Seq<(String, Tile)>)
    ensures
        0 <= known_count(d, tiles) <= d.len(),
    decreases d.len(),
{
    if d.len() > 0 {
        lemma_known_count_nonneg(d.drop_last(), tiles);
    }
}

/// A known identifier strictly before position `k` keeps the count of
/// the prefix strictly below the whole count.
proof fn lemma_known_count_bound(d: Seq<u32>, tiles: Seq<(String, Tile)>, k: int)
    requires
        0 <= k < d.len(),
        tile_known(tiles, d[k]),
    ensures
        known_count(d.take(k), tiles) < known_count(d, tiles),
    decreases d.len(),
{
    if k == d.len() - 1 {
        assert(d.take(k) =~= d.drop_last());
    } else {
        lemma_known_count_bound(d.drop_last(), tiles, k);
        assert(d.drop_last().take(k) =~= d.take(k));
    }
}

/// What the expansion of a layer over a tileset must look like: one
/// sprite per known identifier, in grid order.  The sprite for grid
/// cell `k` (column `k % c`, row `k / c`, where `c` is the layer's
/// width in tiles) sits at the cell's pixel position, spans one tile,
/// and selects the tile's atlas frame.
pub open spec fn layer_sprites_ok(
    r: Seq<Sprite>,
    data: Seq<u32>,
    tileset: Tileset,
    cols: int,
) -> bool {
    &&& r.len() == known_count(data, tileset.tiles@)
    &&& (forall|k: int|
        0 <= k < data.len() && #[trigger] tile_known(tileset.tiles@, data[k]) ==> {
            let m = known_count(data.take(k), tileset.tiles@);
            let t = tile_of(tileset.tiles@, data[k]);
            let sp = r[m];
            &&& sp.wf()
            &&& sp.texture == tileset.texture
            &&& sp.props.dim == (tileset.tile_width, tileset.tile_height)
            &&& sp.props.pos == (
                ((tileset.tile_width * (k % cols)) as i32),
                ((tileset.tile_height * (k / cols)) as i32),
                0i32,
            )
            &&& sp.texture_transform.translate == (
                (Frac { num: t.pos.0 as i64, den: tileset.texture.width as i64 }),
                (Frac { num: t.pos.1 as i64, den: tileset.texture.height as i64 }),
            )
        })
}

/// Expands one layer into sprites: each identifier that names a tile
/// becomes a sprite at its grid cell, with the tile's atlas frame
/// selected; unknown identifiers leave a hole.
pub fn generate_vertices_from_layer(layer: &TileLayer, tileset: &Tileset) -> (r: Vec<Sprite>)
    requires
        tileset.wf(),
        layer.width >= tileset.tile_width,
        layer.width <= i32::MAX as u32,
        tileset.tile_height as int * layer.data@.len() <= i32::MAX as int,
    ensures
        layer_sprites_ok(
            r@,
            layer.data@,
            *tileset,
            layer.width as int / tileset.tile_width as int,
        ),
{
    let ghost cols = layer.width as int / tileset.tile_width as int;
    let mut vertices: Vec<Sprite> = Vec::new();
    proof {
        vstd::arithmetic::div_mod::lemma_div_non_zero(layer.width as int, tileset.tile_width as int);
        lemma_small_mod(0nat, cols as nat);
    }
    let cols_len: u32 = layer.width / tileset.tile_width - 1;
    let mut col: u32 = 0;
    let mut row: u32 = 0;
    let mut i: usize = 0;
    while i < layer.data.len()
        invariant
            tileset.wf(),
            layer.width >= tileset.tile_width,
            layer.width <= i32::MAX as u32,
            tileset.tile_height as int * layer.data@.len() <= i32::MAX as int,
            cols == layer.width as int / tileset.tile_width as int,
            cols >= 1,
            cols_len as int == cols - 1,
            i <= layer.data@.len(),
            col as int == (i as int) % cols,
            row as int == (i as int) / cols,
            vertices@.len() == known_count(layer.data@.take(i as int), tileset.tiles@),
            layer_sprites_ok(
                vertices@,
                layer.data@.take(i as int),
                *tileset,
                cols,
            ),
        decreases layer.data@.len() - i,
    {
        let tile_id = layer.data[i];
        let key = u32_string(tile_id);
        proof {
            lemma_fundamental_div_mod(i as int, cols);
            lemma_fundamental_div_mod(layer.width as int, tileset.tile_width as int);
            assert(tileset.tile_width as int * cols <= layer.width as int);
            assert(tileset.tile_width as int * (cols - 1) >= tileset.tile_width as int * (col as int))
                by (nonlinear_arith)
                requires
                    col as int <= cols - 1,
                    tileset.tile_width >= 1,
            ;
            assert(tileset.tile_width as int * (col as int) <= layer.width as int
                - tileset.tile_width as int) by (nonlinear_arith)
                requires
                    tileset.tile_width as int * (cols - 1) >= tileset.tile_width as int * (
                    col as int),
                    tileset.tile_width as int * cols <= layer.width as int,
            ;
            assert(row as int <= i as int) by (nonlinear_arith)
                requires
                    row as int == (i as int) / cols,
                    cols >= 1,
                    i >= 0,
            ;
            assert(tileset.tile_height as int * (row as int) <= tileset.tile_height as int * (
            layer.data@.len() as int)) by (nonlinear_arith)
                requires
                    row as int <= i as int,
                    (i as int) < layer.data@.len() as int,
                    tileset.tile_height >= 1,
            ;
            assert(layer.data@.len() <= i32::MAX as int) by (nonlinear_arith)
                requires
                    tileset.tile_height >= 1,
                    tileset.tile_height as int * layer.data@.len() <= i32::MAX as int,
            ;
        }
        let tx: u32 = tileset.tile_width * col;
        let ty: u32 = tileset.tile_height * row;
        let found = tileset.find(key.as_str());
        let ghost old_vertices = vertices@;
        let ghost tiles = tileset.tiles@;
        let ghost d0 = layer.data@.take(i as int);
        let ghost d1 = layer.data@.take(i + 1);
        match found {
            Some(ti) => {
                proof {
                    assert(contains_tile(tiles, dec_str(tile_id as nat))) by {
                        assert(tiles[ti as int].0@ == dec_str(tile_id as nat));
                    }
                    let j = index_of_tile(tiles, dec_str(tile_id as nat));
                    assert(tiles[j].0@ == dec_str(tile_id as nat));
                    if j != ti as int {
                        assert(tiles[j].0@ == tiles[ti as int].0@);
                        assert(false);
                    }
                }
                let tile = &tileset.tiles[ti].1;
                let mut props = SpriteProps::default();
                props.pos = (tx as i32, ty as i32, 0);
                props.dim = (tileset.tile_width, tileset.tile_height);
                let mut sprite_tile = Sprite::from_texture(&tileset.texture, props);
                sprite_tile.set_frame((tile.pos.0 as i64, tile.pos.1 as i64));
                let ghost spv = sprite_tile;
                vertices.push(sprite_tile);
                proof {
                    assert(vertices@ == old_vertices.push(spv));
                    assert(d1.drop_last() =~= d0);
                    assert(d1.last() == layer.data@[i as int]);
                    assert(tile_known(tiles, layer.data@[i as int]));
                    assert(vertices@.len() == known_count(d1, tiles));
                    assert forall|k: int|
                        0 <= k < d1.len() && #[trigger] tile_known(tiles, d1[k]) implies {
                        let m = known_count(d1.take(k), tiles);
                        let t = tile_of(tiles, d1[k]);
                        let sp = vertices@[m];
                        &&& sp.wf()
                        &&& sp.texture == tileset.texture
                        &&& sp.props.dim == (tileset.tile_width, tileset.tile_height)
                        &&& sp.props.pos == (
                            ((tileset.tile_width * (k % cols)) as i32),
                            ((tileset.tile_height * (k / cols)) as i32),
                            0i32,
                        )
                        &&& sp.texture_transform.translate == (
                            (Frac { num: t.pos.0 as i64, den: tileset.texture.width as i64 }),
                            (Frac { num: t.pos.1 as i64, den: tileset.texture.height as i64 }),
                        )
                    } by {
                        assert(d1.take(k) =~= layer.data@.take(k));
                        if k < i {
                            assert(d0[k] == d1[k]);
                            assert(d0.take(k) =~= layer.data@.take(k));
                            lemma_known_count_bound(d0, tiles, k);
                            lemma_known_count_nonneg(layer.data@.take(k), tiles);
                            let m = known_count(layer.data@.take(k), tiles);
                            assert(0 <= m < old_vertices.len());
                            assert(vertices@[m] == old_vertices[m]);
                        } else {
                            assert(k == i);
                            let m = known_count(d1.take(k), tiles);
                            assert(m == old_vertices.len());
                            assert(vertices@[m] == spv);
                        }
                    }
                }
            },
            None => {
                proof {
                    assert(d1.drop_last() =~= d0);
                    assert(d1.last() == layer.data@[i as int]);
                    assert(!tile_known(tiles, layer.data@[i as int]));
                    assert(vertices@.len() == known_count(d1, tiles));
                    assert forall|k: int|
                        0 <= k < d1.len() && #[trigger] tile_known(tiles, d1[k]) implies {
                        let m = known_count(d1.take(k), tiles);
                        let t = tile_of(tiles, d1[k]);
                        let sp = vertices@[m];
                        &&& sp.wf()
                        &&& sp.texture == tileset.texture
                        &&& sp.props.dim == (tileset.tile_width, tileset.tile_height)
                        &&& sp.props.pos == (
                            ((tileset.tile_width * (k % cols)) as i32),
                            ((tileset.tile_height * (k / cols)) as i32),
                            0i32,
                        )
                        &&& sp.texture_transform.translate == (
                            (Frac { num: t.pos.0 as i64, den: tileset.texture.width as i64 }),
                            (Frac { num: t.pos.1 as i64, den: tileset.texture.height as i64 }),
                        )
                    } by {
                        assert(d1.take(k) =~= layer.data@.take(k));
                        assert(k < i);
                        assert(d0[k] == d1[k]);
                        assert(d0.take(k) =~= layer.data@.take(k));
                        lemma_known_count_bound(d0, tiles, k);
                        lemma_known_count_nonneg(layer.data@.take(k), tiles);
                    }
                }
            },
        }
        if col == cols_len {
            proof {
                lemma_fundamental_div_mod(i as int, cols);
                assert(i as int + 1 == ((i as int) / cols + 1) * cols + 0) by (nonlinear_arith)
                    requires
                        i as int == cols * ((i as int) / cols) + (i as int) % cols,
                        (i as int) % cols == cols - 1,
                ;
                lemma_fundamental_div_mod_converse(i as int + 1, cols, (i as int) / cols + 1, 0);
            }
            col = 0;
            row = row + 1;
        } else {
            proof {
                lemma_fundamental_div_mod(i as int, cols);
                assert(i as int + 1 == ((i as int) / cols) * cols + ((i as int) % cols + 1))
                    by (nonlinear_arith)
                    requires
                        i as int == cols * ((i as int) / cols) + (i as int) % cols,
                ;
                lemma_fundamental_div_mod_converse(
                    i as int + 1,
                    cols,
                    (i as int) / cols,
                    (i as int) % cols + 1,
                );
            }
            col = col + 1;
        }
        i = i + 1;
    }
    proof {
        assert(layer.data@.take(layer.data@.len() as int) =~= layer.data@);
    }
    vertices
}

/// A tilemap: the grid layers, their tileset, and the sprites the
/// first layer expands to.
pub struct Tilemap {
    pub tile_width: u32,
    pub tile_height: u32,
    pub layers: Vec<TileLayer>,
    pub tileset: Tileset,
    pub vertices: Vec<Sprite>,
}

impl Tilemap {
    /// Assembles a tilemap from decoded parts and expands its first
    /// layer.
    pub fn from_parts(
        tile_width: u32,
        tile_height: u32,
        layers: Vec<TileLayer>,
        tileset: Tileset,
    ) -> (r: Tilemap)
        requires
            tileset.wf(),
            layers@.len() >= 1,
            layers@[0].width >= tileset.tile_width,
            layers@[0].width <= i32::MAX as u32,
            tileset.tile_height as int * layers@[0].data@.len() <= i32::MAX as int,
        ensures
            r.tile_width == tile_width,
            r.tile_height == tile_height,
            r.layers@ == layers@,
            r.tileset == tileset,
            layer_sprites_ok(
                r.vertices@,
                layers@[0].data@,
                tileset,
                layers@[0].width as int / tileset.tile_width as int,
            ),
    {
        let vertices = generate_vertices_from_layer(&layers[0], &tileset);
        Tilemap { tile_width, tile_height, layers, tileset, vertices }
    }

    pub fn get_vertices(&self) -> (r: &Vec<Sprite>)
        ensures
            r@ == self.vertices@,
    {
        &self.vertices
    }
}

} // verus!
