use shader_sync::driver::{
    acquire_scene_bindings, camera_motion, draw_order, frame_writes, DistanceKey, InputState,
    Scene,
};
use shader_sync::names::sphere_uniform_name;
use shader_sync::objects::{Camera, Material, Sphere};
use shader_sync::shader_program::{Compiled, ShaderProgram};
use shader_sync::uniform::{UniformError, UniformValue, UniformWrite};
use shader_sync::vec3::Vec3;

const NO_KEYS: InputState = InputState {
    forward: false,
    backward: false,
    left: false,
    right: false,
    up: false,
    down: false,
};

#[test]
fn forward_key_moves_one_step_along_the_forward_axis_only() {
    let m = camera_motion(&InputState { forward: true, ..NO_KEYS });
    assert_eq!((m.x, m.y, m.z), (0, 0, 1));
}

#[test]
fn forward_for_one_frame_changes_the_forward_component_by_exactly_delta() {
    let delta: f32 = 0.0005;
    let mut position: (f32, f32, f32) = (0.0, 0.0, 0.0);
    let m = camera_motion(&InputState { forward: true, ..NO_KEYS });
    position.0 += m.x as f32 * delta;
    position.1 += m.y as f32 * delta;
    position.2 += m.z as f32 * delta;
    assert_eq!(position, (0.0, 0.0, delta));
}

#[test]
fn opposite_keys_cancel_and_axes_are_independent() {
    let m = camera_motion(&InputState { forward: true, backward: true, left: true, ..NO_KEYS });
    assert_eq!((m.x, m.y, m.z), (-1, 0, 0));
    let m = camera_motion(&InputState { up: true, down: false, right: true, ..NO_KEYS });
    assert_eq!((m.x, m.y, m.z), (1, 1, 0));
    let m = camera_motion(&NO_KEYS);
    assert_eq!((m.x, m.y, m.z), (0, 0, 0));
}

#[test]
fn draw_order_sorts_farthest_first() {
    let keys = vec![
        DistanceKey::Finite(5),
        DistanceKey::Finite(1),
        DistanceKey::Finite(3),
    ];
    assert_eq!(draw_order(&keys), vec![0, 2, 1]);
}

#[test]
fn draw_order_keeps_load_order_on_equal_distances() {
    let keys = vec![
        DistanceKey::Finite(2),
        DistanceKey::Finite(2),
        DistanceKey::Finite(1),
        DistanceKey::Finite(2),
    ];
    assert_eq!(draw_order(&keys), vec![0, 1, 3, 2]);
}

#[test]
fn draw_order_survives_an_ill_defined_distance() {
    // An undefined distance compares as equal to everything, so nothing is
    // reordered across it and no frame is aborted.
    let keys = vec![
        DistanceKey::Finite(1),
        DistanceKey::Undefined,
        DistanceKey::Finite(5),
    ];
    assert_eq!(draw_order(&keys), vec![0, 1, 2]);
    assert_eq!(draw_order(&vec![DistanceKey::Undefined]), vec![0]);
    assert_eq!(draw_order(&Vec::new()), Vec::<usize>::new());
}

#[test]
fn distance_keys_from_float_bits_order_like_the_distances() {
    // The bit pattern of a finite non-negative float is order-preserving,
    // so squared distances [25.0, 1.0, 9.0] give draw order [0, 2, 1].
    let key = |d: f32| DistanceKey::Finite(d.to_bits() as u64);
    let keys = vec![key(25.0), key(1.0), key(9.0)];
    assert_eq!(draw_order(&keys), vec![0, 2, 1]);
}

fn scene_program(n_spheres: usize) -> ShaderProgram<Compiled> {
    let mut program = ShaderProgram::new(1).compile(true, String::new()).unwrap();
    let mut location: i32 = 0;
    let mut declare = |program: &mut ShaderProgram<Compiled>, name: String| {
        program.create_uniform(name, location).unwrap();
        location += 1;
    };
    declare(&mut program, "width".to_string());
    declare(&mut program, "height".to_string());
    declare(&mut program, "camera.position".to_string());
    declare(&mut program, "camera.angles".to_string());
    declare(&mut program, "camera.fov".to_string());
    for i in 0..n_spheres {
        declare(&mut program, sphere_uniform_name(i, "position"));
        declare(&mut program, sphere_uniform_name(i, "radius"));
        declare(&mut program, sphere_uniform_name(i, "material.albedo"));
        declare(&mut program, sphere_uniform_name(i, "material.roughness"));
        declare(&mut program, sphere_uniform_name(i, "material.metallic"));
    }
    program
}

fn test_sphere(tag: u32) -> Sphere {
    Sphere {
        position: Vec3::new(tag, tag, tag),
        radius: tag,
        material: Material {
            albedo: Vec3::new(tag, 0, 0),
            metallic: tag,
            roughness: tag,
        },
    }
}

#[test]
fn acquiring_a_scene_of_n_spheres_yields_n_slots_under_indexed_names() {
    let program = scene_program(3);
    let b = acquire_scene_bindings(&program, 3).expect("every needed name is declared");
    assert_eq!(b.spheres.len(), 3);
    assert_eq!(b.width.name, "width");
    assert_eq!(b.height.name, "height");
    for (i, slot) in b.spheres.iter().enumerate() {
        assert_eq!(slot.position.name, format!("spheres[{}].position", i));
        assert_eq!(slot.radius.name, format!("spheres[{}].radius", i));
        assert_eq!(slot.albedo.name, format!("spheres[{}].material.albedo", i));
        assert_eq!(slot.roughness.name, format!("spheres[{}].material.roughness", i));
        assert_eq!(slot.metallic.name, format!("spheres[{}].material.metallic", i));
        assert!(slot.position.location >= 0);
    }
}

#[test]
fn acquiring_more_slots_than_the_program_declares_names_the_missing_one() {
    let program = scene_program(1);
    match acquire_scene_bindings(&program, 2) {
        Err(UniformError::Unresolved(name)) => assert_eq!(name, "spheres[1].position"),
        _ => panic!("an undeclared slot uniform must abort setup with its name"),
    }
}

#[test]
fn frame_writes_fill_each_slot_with_the_sphere_drawn_there() {
    let program = scene_program(2);
    let b = acquire_scene_bindings(&program, 2).unwrap();
    let scene = Scene {
        camera: Camera { position: Vec3::new(0, 0, 0), angles: Vec3::new(0, 0, 0), fov: 90 },
        spheres: vec![test_sphere(10), test_sphere(20)],
    };
    // This frame draws sphere 1 first: slot 0 carries sphere 1's data.
    let order = vec![1, 0];
    let writes = frame_writes(&scene, &order, &b, 111, 222);
    assert_eq!(writes.len(), 3 + 2 * 5 + 2);
    // The camera comes first; slot 0 starts after its three writes.
    assert_eq!(writes[0].location, b.camera.position.location);
    assert_eq!(writes[2].value, UniformValue::Scalar(90));
    assert_eq!(
        writes[3],
        UniformWrite {
            location: b.spheres[0].position.location,
            value: UniformValue::Vector(20, 20, 20),
        }
    );
    assert_eq!(writes[4].value, UniformValue::Scalar(20));
    assert_eq!(
        writes[8],
        UniformWrite {
            location: b.spheres[1].position.location,
            value: UniformValue::Vector(10, 10, 10),
        }
    );
    // The frame-global scalars close the plan.
    assert_eq!(writes[13], UniformWrite { location: b.width.location, value: UniformValue::Scalar(111) });
    assert_eq!(writes[14], UniformWrite { location: b.height.location, value: UniformValue::Scalar(222) });
}

#[test]
fn two_frames_write_the_same_locations_whatever_changed() {
    let program = scene_program(2);
    let b = acquire_scene_bindings(&program, 2).unwrap();
    let scene_a = Scene {
        camera: Camera { position: Vec3::new(0, 0, 0), angles: Vec3::new(0, 0, 0), fov: 90 },
        spheres: vec![test_sphere(10), test_sphere(20)],
    };
    let scene_b = Scene {
        camera: Camera { position: Vec3::new(5, 5, 5), angles: Vec3::new(1, 2, 3), fov: 45 },
        spheres: vec![test_sphere(77), test_sphere(88)],
    };
    let first = frame_writes(&scene_a, &vec![0, 1], &b, 1, 2);
    let second = frame_writes(&scene_b, &vec![1, 0], &b, 3, 4);
    let locations = |w: &[UniformWrite]| w.iter().map(|x| x.location).collect::<Vec<i32>>();
    assert_eq!(locations(&first), locations(&second));
    assert_ne!(first, second);
}
