use raytracer::scene::{
    MaterialType, ObjectType, Scene, SceneResponse, Vec3Bits, DEFAULT_COLOR_BITS,
    DEFAULT_IOR_BITS, DEFAULT_OPACITY_BITS, DEFAULT_ROUGHNESS_BITS, FLOOR_COLOR_BITS,
    FLOOR_XZ_SCALE_BITS, FLOOR_Y_BITS, FLOOR_Y_SCALE_BITS, ONE_BITS,
    ROUGH_SPHERE_ROUGHNESS_BITS,
};
use raytracer::util::{fill_50, Reset, UpdateResponse};
use raytracer::MAX_OBJECTS;

#[test]
fn payload_bit_patterns_decode_to_the_documented_reals() {
    assert_eq!(f32::from_bits(ONE_BITS), 1.0);
    assert_eq!(f32::from_bits(DEFAULT_COLOR_BITS), 0.9);
    assert_eq!(f32::from_bits(DEFAULT_ROUGHNESS_BITS), 0.5);
    assert_eq!(f32::from_bits(DEFAULT_IOR_BITS), 1.333);
    assert_eq!(f32::from_bits(DEFAULT_OPACITY_BITS), 0.1);
    assert_eq!(f32::from_bits(ROUGH_SPHERE_ROUGHNESS_BITS), 0.6);
    assert_eq!(f32::from_bits(FLOOR_COLOR_BITS), 0.1);
    assert_eq!(f32::from_bits(FLOOR_Y_BITS), -1.001);
    assert_eq!(f32::from_bits(FLOOR_XZ_SCALE_BITS), 1000.0);
    assert_eq!(f32::from_bits(FLOOR_Y_SCALE_BITS), 0.001);
}

#[test]
fn new_object_pushes_the_documented_defaults() {
    let mut scene = Scene::new();
    assert_eq!(scene.len(), 0);
    scene.new_object();
    assert_eq!(scene.len(), 1);
    assert_eq!(scene.selected, 0);
    assert_eq!(scene.name[0], "Sphere");
    assert_eq!(scene.ty[0], ObjectType::Sphere);
    assert_eq!(scene.mat_ty[0], MaterialType::Solid);
    assert_eq!(scene.position[0], Vec3Bits::splat(0));
    assert_eq!(scene.scale[0], Vec3Bits::splat(ONE_BITS));
    assert_eq!(scene.mat_color[0], Vec3Bits::splat(DEFAULT_COLOR_BITS));
    assert_eq!(scene.mat_roughness[0], DEFAULT_ROUGHNESS_BITS);
    assert_eq!(scene.mat_emissive_strength[0], ONE_BITS);
    assert_eq!(scene.mat_transmissive_ior[0], DEFAULT_IOR_BITS);
    assert_eq!(scene.mat_transmissive_opacity[0], DEFAULT_OPACITY_BITS);
}

#[test]
fn new_object_stops_at_the_object_cap() {
    let mut scene = Scene::new();
    for _ in 0..MAX_OBJECTS + 2 {
        scene.new_object();
    }
    assert_eq!(scene.len(), MAX_OBJECTS);
    assert_eq!(scene.selected, MAX_OBJECTS - 1);
}

#[test]
fn duplicate_object_copies_the_selected_slot() {
    let mut scene = Scene::new().with_default_scene();
    scene.selected = 0;
    scene.duplicate_object();
    assert_eq!(scene.len(), 3);
    assert_eq!(scene.selected, 2);
    assert_eq!(scene.name[2], "Sphere copy");
    assert_eq!(scene.ty[2], ObjectType::Sphere);
    assert_eq!(scene.mat_roughness[2], ROUGH_SPHERE_ROUGHNESS_BITS);
}

#[test]
fn duplicate_object_on_an_empty_scene_is_a_no_op() {
    let mut scene = Scene::new();
    scene.duplicate_object();
    assert_eq!(scene.len(), 0);
    assert_eq!(scene.selected, 0);
}

#[test]
fn delete_object_removes_the_selected_slot() {
    let mut scene = Scene::new();
    scene.new_object();
    scene.new_object();
    scene.new_object();
    scene.name[0] = "a".to_string();
    scene.name[1] = "b".to_string();
    scene.name[2] = "c".to_string();
    scene.selected = 1;
    scene.delete_object();
    assert_eq!(scene.len(), 2);
    assert_eq!(scene.selected, 0);
    assert_eq!(scene.name, vec!["a".to_string(), "c".to_string()]);

    scene.selected = 0;
    scene.delete_object();
    assert_eq!(scene.len(), 1);
    assert_eq!(scene.selected, 0);
    assert_eq!(scene.name, vec!["c".to_string()]);
}

#[test]
fn rename_selected_touches_only_the_selected_name() {
    let mut scene = Scene::new();
    scene.rename_selected("nothing here".to_string());
    assert_eq!(scene.len(), 0);

    scene.new_object();
    scene.new_object();
    scene.selected = 0;
    scene.rename_selected("Marble".to_string());
    assert_eq!(scene.name, vec!["Marble".to_string(), "Sphere".to_string()]);
    assert_eq!(scene.selected, 0);
}

#[test]
fn delete_object_on_an_empty_scene_is_a_no_op() {
    let mut scene = Scene::new();
    scene.delete_object();
    assert_eq!(scene.len(), 0);
}

#[test]
fn default_scene_holds_a_rough_sphere_and_a_floor() {
    let scene = Scene::new().with_default_scene();
    assert_eq!(scene.len(), 2);
    assert_eq!(scene.selected, 1);

    assert_eq!(scene.name[0], "Sphere");
    assert_eq!(scene.ty[0], ObjectType::Sphere);
    assert_eq!(scene.mat_roughness[0], ROUGH_SPHERE_ROUGHNESS_BITS);

    assert_eq!(scene.name[1], "Floor");
    assert_eq!(scene.ty[1], ObjectType::Cuboid);
    assert_eq!(scene.position[1], Vec3Bits { x: 0, y: FLOOR_Y_BITS, z: 0 });
    assert_eq!(scene.rotation[1], Vec3Bits::splat(0));
    assert_eq!(
        scene.scale[1],
        Vec3Bits { x: FLOOR_XZ_SCALE_BITS, y: FLOOR_Y_SCALE_BITS, z: FLOOR_XZ_SCALE_BITS }
    );
    assert_eq!(scene.mat_color[1], Vec3Bits::splat(FLOOR_COLOR_BITS));
    assert_eq!(scene.mat_roughness[1], ONE_BITS);
}

#[test]
fn type_words_are_tagged_and_padded() {
    let mut scene = Scene::new().with_default_scene();
    scene.selected = 0;
    scene.mat_ty[0] = MaterialType::Emissive;

    let ty = scene.object_type_words();
    assert_eq!(ty.len(), MAX_OBJECTS);
    assert_eq!(&ty[..2], &[0, 1]);
    assert!(ty[2..].iter().all(|&w| w == 0));

    let mat = scene.material_type_words();
    assert_eq!(&mat[..2], &[1, 0]);
    assert!(mat[2..].iter().all(|&w| w == 0));
}

#[test]
fn fill_50_pads_with_zeroes() {
    let filled = fill_50(&vec![7, 8, 9]);
    assert_eq!(filled.len(), MAX_OBJECTS);
    assert_eq!(&filled[..3], &[7, 8, 9]);
    assert!(filled[3..].iter().all(|&w| w == 0));

    let empty = fill_50(&Vec::new());
    assert!(empty.iter().all(|&w| w == 0));

    let full = fill_50(&(0..50u32).collect::<Vec<u32>>());
    assert_eq!(full, (0..50u32).collect::<Vec<u32>>());
}

#[test]
fn tags_and_labels_match_the_wire_contract() {
    assert_eq!(ObjectType::Sphere.as_u32(), 0);
    assert_eq!(ObjectType::Cuboid.as_u32(), 1);
    assert_eq!(MaterialType::Solid.as_u32(), 0);
    assert_eq!(MaterialType::Emissive.as_u32(), 1);
    assert_eq!(MaterialType::Transmissive.as_u32(), 2);
    assert_eq!(ObjectType::Sphere.label(), "Sphere");
    assert_eq!(MaterialType::Emissive.label(), "Light source");
    assert_eq!(MaterialType::Transmissive.label(), "Glass");
}

#[test]
fn scene_response_starts_changed_and_resets_clean() {
    let response = SceneResponse::default();
    assert!(response.changed);
    assert!(!response.focused);

    let mut response = SceneResponse { focused: true, changed: true };
    response.reset();
    assert!(!response.changed);
    assert!(!response.focused);
    assert_eq!(SceneResponse::reset_state(), response);
}

#[test]
fn scene_response_flags_accumulate() {
    let mut scene = Scene::new();
    scene.response.reset();
    scene.set_changed(false);
    assert!(!scene.response.changed);
    scene.set_changed(true);
    scene.set_changed(false);
    assert!(scene.response.changed);
    scene.set_focused(true);
    assert!(scene.response.focused);
}
