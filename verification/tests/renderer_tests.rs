use yarge::helpers::data::Frac;
use yarge::renderer::batch_shaders::{create_fragment_source, create_vertex_source};
use yarge::renderer::{generate_batch_indices, generate_texture_slots, RenderState, Renderer3D, RendererError};
use yarge::renderer::render_target::RenderTarget;
use yarge::sprite::{Sprite, SpriteProps};
use yarge::textures::texture::Texture;

#[test]
fn it_works() {
    assert_eq!(2 + 2, 4);
}

#[test]
fn can_generate_indices() {
    let expected_len = 4;
    let test_vec = vec![0; expected_len];
    let expected_indices = vec![
        [0, 1, 2, 2, 1, 3],
        [4, 5, 6, 6, 5, 7],
        [8, 9, 10, 10, 9, 11],
        [12, 13, 14, 14, 13, 15],
    ];

    let indices = generate_batch_indices(test_vec.len());

    assert_eq!(expected_len, indices.len());
    assert_eq!(expected_indices, indices);
}

#[test]
fn can_generate_texture_slots() {
    let max = 4;
    let actual_texture_slots = generate_texture_slots(max);
    let expected_texture_slots = vec![0, 1, 2, 3];

    assert_eq!(max as usize, actual_texture_slots.len());
    assert_eq!(expected_texture_slots, actual_texture_slots);
}

#[test]
fn generate_frag_shader_by_max_textures() {
    let frag_shader = create_fragment_source(4);
    let expected_shader = r#"
#version 330 core

precision mediump float;

uniform sampler2D Textures[4];

in VS_OUTPUT {
    vec2 TexCoord;
    vec4 TexColor;
    float TexIndex;
} IN;

out vec4 Color;

void main() {
    int ttid = int(IN.TexIndex + 0.5);
    vec4 baseColor = vec4(IN.TexColor.x, IN.TexColor.y, IN.TexColor.z, IN.TexColor.w);
    vec4 texColor = baseColor;

    switch (ttid)
    {
        case  0:
            texColor = texture2D(Textures[0u], IN.TexCoord) * vec4(IN.TexColor.x, IN.TexColor.y, IN.TexColor.z, IN.TexColor.w);
            break;
        case  1:
            texColor = texture2D(Textures[1u], IN.TexCoord) * vec4(IN.TexColor.x, IN.TexColor.y, IN.TexColor.z, IN.TexColor.w);
            break;
        case  2:
            texColor = texture2D(Textures[2u], IN.TexCoord) * vec4(IN.TexColor.x, IN.TexColor.y, IN.TexColor.z, IN.TexColor.w);
            break;
        case  3:
            texColor = texture2D(Textures[3u], IN.TexCoord) * vec4(IN.TexColor.x, IN.TexColor.y, IN.TexColor.z, IN.TexColor.w);
            break;
        default:
            texColor = baseColor;
            break;
    }

    Color = texColor;
}"#;

    assert_eq!(expected_shader, frag_shader);
}

#[test]
fn create_vert_shader_source() {
    let vertex_source = create_vertex_source();
    let expected_source = r#"
#version 330 core

layout (location = 0) in vec3 Position;
layout (location = 1) in vec2 TexCoord;
layout (location = 2) in vec4 TexColor;
layout (location = 3) in float TexIndex;

// uniform mat4 TexCoordTransform;
uniform mat4 MVP;

out VS_OUTPUT {
    vec2 TexCoord;
    vec4 TexColor;
    float TexIndex;
} OUT;

void main() {
    gl_Position = MVP * vec4(Position, 1.0);

    OUT.TexColor = TexColor;
    OUT.TexIndex = TexIndex; //int(TexIndex -0.5);
    //OUT.TexCoord = vec2(TexCoordTransform * vec4(TexCoord, 1.0, 1.0));
    OUT.TexCoord = TexCoord;
}"#;

    assert_eq!(expected_source, vertex_source);
}

#[test]
fn index_generation_is_deterministic() {
    assert_eq!(generate_batch_indices(7), generate_batch_indices(7));
}

fn square_sprite(texture: &Texture, x: i32, y: i32) -> Sprite {
    let mut props = SpriteProps::default();
    props.pos = (x, y, 0);
    props.dim = (16, 16);
    Sprite::from_texture(texture, props)
}

#[test]
fn same_texture_twice_resolves_to_one_slot() {
    let texture = Texture::new(7, 64, 64, "atlas.png".to_string()).unwrap();
    let s1 = square_sprite(&texture, 0, 0);
    let s2 = square_sprite(&texture, 16, 0);

    let mut renderer = Renderer3D::new(16).unwrap();
    renderer.begin_scene(800, 600).unwrap();
    renderer.begin_batch();
    renderer.submit(&s1);
    renderer.submit(&s2);

    assert_eq!(vec![7u32], renderer.texture_slots);
    assert_eq!(renderer.vertices[0][0].tex_id, renderer.vertices[1][0].tex_id);
}

#[test]
fn two_textures_three_sprites_end_to_end() {
    let atlas = Texture::new(7, 64, 64, "atlas.png".to_string()).unwrap();
    let other = Texture::new(9, 32, 32, "other.png".to_string()).unwrap();
    let s1 = square_sprite(&atlas, 0, 0);
    let s2 = square_sprite(&atlas, 16, 0);
    let s3 = square_sprite(&other, 32, 0);

    let mut renderer = Renderer3D::new(16).unwrap();
    renderer.begin_scene(800, 600).unwrap();
    renderer.begin_batch();
    renderer.submit(&s1);
    renderer.submit(&s2);
    renderer.submit(&s3);
    renderer.end_batch();
    let report = renderer.render(800, 600).unwrap();

    assert_eq!(vec![7u32, 9u32], report.draw.slots);
    assert_eq!(3, report.draw.sprite_count);
    assert_eq!(18, report.draw.indices_used);
    assert_eq!(6, report.composition_vertices);
    assert_eq!(0, report.flushes.len());
    assert_eq!((0..16).collect::<Vec<i32>>(), report.slot_units);
    assert!(renderer.texture_slots.is_empty());
    assert!(matches!(renderer.state, RenderState::Idle));
}

#[test]
fn submitting_the_same_sprite_twice_is_a_no_op() {
    let texture = Texture::new(7, 64, 64, "atlas.png".to_string()).unwrap();
    let sprite = square_sprite(&texture, 0, 0);

    let mut renderer = Renderer3D::new(16).unwrap();
    renderer.begin_scene(800, 600).unwrap();
    renderer.begin_batch();
    renderer.submit(&sprite);
    renderer.submit(&sprite);

    assert_eq!(1, renderer.sprite_count);
    assert_eq!(1, renderer.vertices.len());
}

#[test]
fn slot_exhaustion_flushes_and_continues() {
    let atlas = Texture::new(7, 64, 64, "atlas.png".to_string()).unwrap();
    let other = Texture::new(9, 32, 32, "other.png".to_string()).unwrap();
    let s1 = square_sprite(&atlas, 0, 0);
    let s2 = square_sprite(&other, 16, 0);

    let mut renderer = Renderer3D::new(1).unwrap();
    renderer.begin_scene(800, 600).unwrap();
    renderer.begin_batch();
    renderer.submit(&s1);
    renderer.submit(&s2);
    renderer.end_batch();
    let report = renderer.render(800, 600).unwrap();

    assert_eq!(1, report.flushes.len());
    assert_eq!(vec![7u32], report.flushes[0].slots);
    assert_eq!(6, report.flushes[0].indices_used);
    assert_eq!(vec![9u32], report.draw.slots);
    assert_eq!(6, report.draw.indices_used);
}

#[test]
fn batch_offset_advances_one_quad_per_sprite() {
    let texture = Texture::new(7, 64, 64, "atlas.png".to_string()).unwrap();
    let s1 = square_sprite(&texture, 0, 0);
    let s2 = square_sprite(&texture, 16, 0);

    let mut renderer = Renderer3D::new(16).unwrap();
    renderer.begin_scene(800, 600).unwrap();
    renderer.begin_batch();
    assert_eq!(0, renderer.vbo.buffer_offset);
    renderer.submit(&s1);
    assert_eq!(4 * 64, renderer.vbo.buffer_offset);
    renderer.submit(&s2);
    assert_eq!(2 * 4 * 64, renderer.vbo.buffer_offset);
}

#[test]
fn renderer_without_texture_units_is_refused() {
    assert!(matches!(Renderer3D::new(0), Err(RendererError::NoTextureUnits)));
}

#[test]
fn empty_viewport_is_a_fatal_construction_error() {
    assert!(RenderTarget::new(0, 10).is_err());
    assert!(RenderTarget::new(10, 0).is_err());
    assert!(RenderTarget::new(10, 10).is_ok());

    let mut renderer = Renderer3D::new(4).unwrap();
    let refused = renderer.begin_scene(0, 600);
    assert!(matches!(refused, Err(RendererError::InvalidViewport { width: 0, height: 600 })));
}

#[test]
fn set_clear_color_stores_the_channels() {
    let mut renderer = Renderer3D::new(4).unwrap();
    renderer.set_clear_color(10, 20, 30, Frac::new(1, 2));
    assert_eq!((10, 20, 30, Frac { num: 1, den: 2 }), renderer.clear_color);
}
