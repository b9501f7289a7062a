use yarge::helpers::data::Frac;
use yarge::sprite::{Sprite, SpriteProps};
use yarge::textures::texture::{Texture, TextureBuilder, TextureError};
use yarge::textures::TextureManager;
use yarge::textures::transform::TextureTransform;
use yarge::tilemaps::{generate_vertices_from_layer, Tile, TileLayer, Tileset};

#[test]
fn cached_vertices_sit_at_the_quad_corners() {
    let texture = Texture::new(3, 128, 64, "sheet.png".to_string()).unwrap();
    let mut props = SpriteProps::default();
    props.pos = (10, 20, 0);
    props.dim = (30, 40);
    let mut sprite = Sprite::from_texture(&texture, props);
    // Moving the frame must not move geometry.
    sprite.set_frame((64, 32));

    let vs = sprite.get_vertices();
    assert_eq!(4, vs.len());
    assert_eq!((10, 20, 0), vs[0].pos);
    assert_eq!((40, 20, 0), vs[1].pos);
    assert_eq!((10, 60, 0), vs[2].pos);
    assert_eq!((40, 60, 0), vs[3].pos);
}

#[test]
fn vertex_uvs_span_the_unit_region() {
    let texture = Texture::new(3, 128, 64, "sheet.png".to_string()).unwrap();
    let mut props = SpriteProps::default();
    props.dim = (32, 16);
    let sprite = Sprite::from_texture(&texture, props);

    let vs = sprite.get_vertices();
    let tx = Frac { num: 32, den: 128 };
    let ty = Frac { num: 16, den: 64 };
    let zero = Frac { num: 0, den: 1 };
    assert_eq!((zero, zero), vs[0].tex);
    assert_eq!((tx, zero), vs[1].tex);
    assert_eq!((zero, ty), vs[2].tex);
    assert_eq!((tx, ty), vs[3].tex);
}

#[test]
fn set_frame_stores_the_offsets_over_the_extent() {
    let texture = Texture::new(3, 128, 64, "sheet.png".to_string()).unwrap();
    let mut sprite = Sprite::from_texture(&texture, SpriteProps::default());

    sprite.set_frame((96, 32));

    let (tx, ty) = sprite.texture_transform.translate;
    assert_eq!(Frac { num: 96, den: 128 }, tx);
    assert_eq!(Frac { num: 32, den: 64 }, ty);
}

#[test]
fn transform_set_frame_divides_by_the_extent() {
    let mut transform = TextureTransform::new(256, 512);
    transform.set_frame(64, 128);
    assert_eq!(Frac { num: 64, den: 256 }, transform.translate.0);
    assert_eq!(Frac { num: 128, den: 512 }, transform.translate.1);
}

#[test]
fn empty_texture_extent_is_refused() {
    let refused = Texture::new(1, 0, 64, "broken.png".to_string());
    assert!(matches!(
        refused,
        Err(TextureError::InvalidDimensions { width: 0, height: 64, .. })
    ));

    let built = TextureBuilder::new("ok.png".to_string(), 2, 16, 16)
        .with_texture_slot(3)
        .build()
        .unwrap();
    assert_eq!(3, built.get_texture_offset());
    assert_eq!((16, 16), built.get_dimensions());
}

#[test]
fn texture_manager_stores_and_removes_by_name() {
    let mut manager = TextureManager::new();
    let texture = Texture::new(5, 8, 8, "a.png".to_string()).unwrap();
    let named = manager.add("hero", texture);
    assert_eq!("hero", named);
    manager.create("tiles", 6, 4, 4, "b.png").unwrap();
    assert_eq!(2, manager.collection().len());
    assert_eq!(5, manager.get("hero").get_texture_handle());

    let removed = manager.remove("hero").unwrap();
    assert_eq!(5, removed.get_texture_handle());
    assert!(matches!(
        manager.remove("hero"),
        Err(TextureError::NotFound { .. })
    ));

    manager.clear();
    assert!(manager.collection().is_empty());
}

#[test]
fn layer_expansion_places_known_tiles_on_the_grid() {
    let texture = Texture::new(11, 96, 96, "tiles.png".to_string()).unwrap();
    let tile = Tile {
        pos: (32, 64),
        id: 1,
        tile: "grass".to_string(),
        tile_type: "ground".to_string(),
        width: 32,
        height: 32,
    };
    let tileset = Tileset::new(texture, vec![("1".to_string(), tile)]);
    let layer = TileLayer {
        height: 64,
        width: 64,
        name: "ground".to_string(),
        visible: true,
        x: 0,
        y: 0,
        data: vec![1, 0, 0, 1],
        layer_type: "tilelayer".to_string(),
    };

    let sprites = generate_vertices_from_layer(&layer, &tileset);

    // Identifiers 0 have no tile: only the two 1-tiles expand, at grid
    // cells (0, 0) and (1, 1) of the two-column layer.
    assert_eq!(2, sprites.len());
    assert_eq!((0, 0, 0), sprites[0].props.pos);
    assert_eq!((32, 32, 0), sprites[1].props.pos);
    assert_eq!((32, 32), sprites[0].props.dim);
    let (tx, ty) = sprites[0].texture_transform.translate;
    assert_eq!(Frac { num: 32, den: 96 }, tx);
    assert_eq!(Frac { num: 64, den: 96 }, ty);
}
