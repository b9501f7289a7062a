use yarge::layers as scene_layers;
use yarge::renderer::layers as renderer_layers;

#[test]
fn mod_can_create_empty_layers() {
    let actual_layers = scene_layers::Layers::new();
    let expected_layers = scene_layers::Layers::new();

    assert_eq!(expected_layers.layers, actual_layers.layers);
}

#[test]
fn mod_can_add_layer_to_layers() {
    let test_layer = scene_layers::Layer::new("test_layer", scene_layers::LayerKind::Generic, 1);
    let mut actual_layers = scene_layers::Layers::new();
    let expected_layers = vec![test_layer.clone()];

    actual_layers.add(test_layer);

    assert_eq!(expected_layers, actual_layers.layers);
}

#[test]
fn mod_can_remove_layer_from_layers() {
    let test_layer = scene_layers::Layer::new("test_layer", scene_layers::LayerKind::Generic, 1);
    let test_layer_two = scene_layers::Layer::new("test_layer", scene_layers::LayerKind::Generic, 1);
    let mut actual_layers = scene_layers::Layers::new();
    let expected_layers = vec![test_layer_two.clone()];

    actual_layers.add(test_layer.clone());
    actual_layers.add(test_layer_two.clone());
    actual_layers.remove(&test_layer.id);

    assert_eq!(expected_layers, actual_layers.layers);
}

#[test]
fn mod_can_sort_layers_by_enums_then_ordinals() {
    let test_layer_one = scene_layers::Layer::new("test_one", scene_layers::LayerKind::Background, 1);
    let test_layer_two = scene_layers::Layer::new("test_one", scene_layers::LayerKind::Background, 2);
    let test_layer_three = scene_layers::Layer::new("test_two", scene_layers::LayerKind::Generic, 1);
    let test_layer_four = scene_layers::Layer::new("test_two", scene_layers::LayerKind::Generic, 2);
    let test_layer_five = scene_layers::Layer::new("test_three", scene_layers::LayerKind::UI, 1);
    let test_layer_six = scene_layers::Layer::new("test_three", scene_layers::LayerKind::UI, 2);
    let test_layer_seven = scene_layers::Layer::new("test_four", scene_layers::LayerKind::Overlay, 1);
    let test_layer_eight = scene_layers::Layer::new("test_four", scene_layers::LayerKind::Overlay, 2);

    let mut actual_layers = scene_layers::Layers::new();
    let expected_layers = vec![
        test_layer_one.clone(),
        test_layer_two.clone(),
        test_layer_three.clone(),
        test_layer_four.clone(),
        test_layer_five.clone(),
        test_layer_six.clone(),
        test_layer_seven.clone(),
        test_layer_eight.clone(),
    ];

    actual_layers.add(test_layer_four);
    actual_layers.add(test_layer_three);
    actual_layers.add(test_layer_two);
    actual_layers.add(test_layer_one);
    actual_layers.add(test_layer_five);
    actual_layers.add(test_layer_seven);
    actual_layers.add(test_layer_six);
    actual_layers.add(test_layer_eight);

    actual_layers.sort();

    assert_eq!(expected_layers, actual_layers.layers);
}

#[test]
fn mod_should_clear_layers() {
    let test_layer_one = scene_layers::Layer::new("test_one", scene_layers::LayerKind::Generic, 1);
    let test_layer_two = scene_layers::Layer::new("test_two", scene_layers::LayerKind::Generic, 2);
    let mut actual_layers = scene_layers::Layers::new();
    let expected_layers: Vec<scene_layers::Layer> = Vec::new();

    actual_layers.add(test_layer_one);
    actual_layers.add(test_layer_two);

    actual_layers.clear();

    assert_eq!(expected_layers, actual_layers.layers);
}

#[test]
fn layers_can_create_empty_layers() {
    let actual_layers = renderer_layers::Layers::new();
    let expected_layers = renderer_layers::Layers::new();

    assert_eq!(expected_layers.layers, actual_layers.layers);
}

#[test]
fn layers_can_add_layer_to_layers() {
    let test_layer = renderer_layers::Layer::new("test_layer", renderer_layers::LayerKind::Generic, 1);
    let mut actual_layers = renderer_layers::Layers::new();
    let expected_layers = vec![test_layer.clone()];

    actual_layers.add(test_layer);

    assert_eq!(expected_layers, actual_layers.layers);
}

#[test]
fn layers_can_remove_layer_from_layers() {
    let test_layer = renderer_layers::Layer::new("test_layer", renderer_layers::LayerKind::Generic, 1);
    let test_layer_two = renderer_layers::Layer::new("test_layer", renderer_layers::LayerKind::Generic, 1);
    let mut actual_layers = renderer_layers::Layers::new();
    let expected_layers = vec![test_layer_two.clone()];

    let test_layer_id = test_layer.get_id();

    actual_layers.add(test_layer);
    actual_layers.add(test_layer_two);
    actual_layers.remove(&test_layer_id);

    assert_eq!(expected_layers, actual_layers.layers);
}

#[test]
fn layers_can_sort_layers_by_enums_then_ordinals() {
    let test_layer_one = renderer_layers::Layer::new("test_one", renderer_layers::LayerKind::Background, 1);
    let test_layer_two = renderer_layers::Layer::new("test_one", renderer_layers::LayerKind::Background, 2);
    let test_layer_three = renderer_layers::Layer::new("test_two", renderer_layers::LayerKind::Generic, 1);
    let test_layer_four = renderer_layers::Layer::new("test_two", renderer_layers::LayerKind::Generic, 2);
    let test_layer_five = renderer_layers::Layer::new("test_three", renderer_layers::LayerKind::Foreground, 1);
    let test_layer_six = renderer_layers::Layer::new("test_three", renderer_layers::LayerKind::Foreground, 2);
    let test_layer_seven = renderer_layers::Layer::new("test_four", renderer_layers::LayerKind::UI, 1);
    let test_layer_eight = renderer_layers::Layer::new("test_four", renderer_layers::LayerKind::UI, 2);
    let test_layer_nine = renderer_layers::Layer::new("test_five", renderer_layers::LayerKind::Overlay, 1);
    let test_layer_ten = renderer_layers::Layer::new("test_five", renderer_layers::LayerKind::Overlay, 2);

    let mut actual_layers = renderer_layers::Layers::new();
    let expected_layers = vec![
        test_layer_one.clone(),
        test_layer_two.clone(),
        test_layer_three.clone(),
        test_layer_four.clone(),
        test_layer_five.clone(),
        test_layer_six.clone(),
        test_layer_seven.clone(),
        test_layer_eight.clone(),
        test_layer_nine.clone(),
        test_layer_ten.clone(),
    ];

    actual_layers.add(test_layer_four);
    actual_layers.add(test_layer_three);
    actual_layers.add(test_layer_two);
    actual_layers.add(test_layer_ten);
    actual_layers.add(test_layer_one);
    actual_layers.add(test_layer_five);
    actual_layers.add(test_layer_seven);
    actual_layers.add(test_layer_nine);
    actual_layers.add(test_layer_six);
    actual_layers.add(test_layer_eight);

    actual_layers.sort();

    assert_eq!(expected_layers, actual_layers.layers);
}

#[test]
fn layers_should_clear_layers() {
    let test_layer_one = renderer_layers::Layer::new("test_one", renderer_layers::LayerKind::Generic, 1);
    let test_layer_two = renderer_layers::Layer::new("test_two", renderer_layers::LayerKind::Generic, 2);
    let mut actual_layers = renderer_layers::Layers::new();
    let expected_layers: Vec<renderer_layers::Layer> = Vec::new();

    actual_layers.add(test_layer_one);
    actual_layers.add(test_layer_two);

    actual_layers.clear();

    assert_eq!(expected_layers, actual_layers.layers);
}

#[test]
fn sorts_equal_kind_and_ordinal_by_name() {
    let layer_b = renderer_layers::Layer::new("beta", renderer_layers::LayerKind::Generic, 1);
    let layer_a = renderer_layers::Layer::new("alpha", renderer_layers::LayerKind::Generic, 1);
    let mut layers = renderer_layers::Layers::new();

    layers.add(layer_b.clone());
    layers.add(layer_a.clone());

    assert_eq!(vec![layer_a, layer_b], layers.layers);
}

#[test]
fn fresh_layer_ids_have_the_fixed_length() {
    let layer = renderer_layers::Layer::new("named", renderer_layers::LayerKind::Generic, 0);
    assert_eq!(layer.id.chars().count(), 21);
}
