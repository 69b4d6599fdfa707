use shader_sync::names::{decimal_string, sphere_uniform_name};
use shader_sync::objects::{Camera, Material, Sphere, Uniforms};
use shader_sync::shader_program::{Compiled, ShaderProgram};
use shader_sync::uniform::{UniformError, UniformValue, UniformWrite};
use shader_sync::vec3::Vec3;

fn linked_program(names: &[(&str, i32)]) -> ShaderProgram<Compiled> {
    let mut program = ShaderProgram::new(1).compile(true, String::new()).unwrap();
    for (name, location) in names {
        program.create_uniform(name.to_string(), *location).unwrap();
    }
    program
}

fn write_locations(writes: &[UniformWrite]) -> Vec<i32> {
    writes.iter().map(|w| w.location).collect()
}

#[test]
fn decimal_rendering_matches_expected_digits() {
    assert_eq!(decimal_string(0), "0");
    assert_eq!(decimal_string(7), "7");
    assert_eq!(decimal_string(13), "13");
    assert_eq!(decimal_string(120), "120");
    assert_eq!(decimal_string(98765), "98765");
    assert_eq!(decimal_string(usize::MAX), "18446744073709551615");
}

#[test]
fn sphere_names_carry_the_bracketed_index() {
    assert_eq!(sphere_uniform_name(0, "position"), "spheres[0].position");
    assert_eq!(sphere_uniform_name(3, "material.albedo"), "spheres[3].material.albedo");
    assert_eq!(sphere_uniform_name(12, "radius"), "spheres[12].radius");
}

#[test]
fn camera_acquire_resolves_its_three_names_in_order() {
    let program = linked_program(&[
        ("camera.position", 5),
        ("camera.angles", 6),
        ("camera.fov", 7),
    ]);
    let b = Camera::get_uniforms(&program).expect("all camera names are declared");
    assert_eq!(b.position.name, "camera.position");
    assert_eq!(b.position.location, 5);
    assert_eq!(b.angles.location, 6);
    assert_eq!(b.fov.location, 7);
}

#[test]
fn camera_acquire_fails_with_the_missing_name() {
    let program = linked_program(&[("camera.position", 5), ("camera.fov", 7)]);
    match Camera::get_uniforms(&program) {
        Err(UniformError::Unresolved(name)) => assert_eq!(name, "camera.angles"),
        _ => panic!("a missing camera uniform must abort setup with its name"),
    }
}

#[test]
fn material_acquire_resolves_its_three_names() {
    let program = linked_program(&[
        ("sphere.material.albedo", 0),
        ("sphere.material.metallic", 1),
        ("sphere.material.roughness", 2),
    ]);
    let b = Material::get_uniforms(&program).unwrap();
    assert_eq!(b.albedo.location, 0);
    assert_eq!(b.metallic.location, 1);
    assert_eq!(b.roughness.location, 2);
}

#[test]
fn sphere_acquire_resolves_position_and_radius() {
    let program = linked_program(&[("sphere.position", 3), ("sphere.radius", 4)]);
    let b = Sphere::get_uniforms(&program).unwrap();
    assert_eq!(b.position.location, 3);
    assert_eq!(b.radius.location, 4);
}

#[test]
fn camera_push_writes_its_values_at_the_acquired_locations() {
    let program = linked_program(&[
        ("camera.position", 5),
        ("camera.angles", 6),
        ("camera.fov", 7),
    ]);
    let b = Camera::get_uniforms(&program).unwrap();
    let camera = Camera {
        position: Vec3::new(1, 2, 3),
        angles: Vec3::new(4, 5, 6),
        fov: 90,
    };
    let mut out = Vec::new();
    camera.update_uniforms(&b, &mut out);
    assert_eq!(
        out,
        vec![
            UniformWrite { location: 5, value: UniformValue::Vector(1, 2, 3) },
            UniformWrite { location: 6, value: UniformValue::Vector(4, 5, 6) },
            UniformWrite { location: 7, value: UniformValue::Scalar(90) },
        ]
    );
}

#[test]
fn repeated_pushes_write_the_same_locations_whatever_the_values() {
    let program = linked_program(&[
        ("camera.position", 5),
        ("camera.angles", 6),
        ("camera.fov", 7),
    ]);
    let b = Camera::get_uniforms(&program).unwrap();
    let first = Camera { position: Vec3::new(1, 2, 3), angles: Vec3::new(0, 0, 0), fov: 60 };
    let second = Camera {
        position: Vec3::new(900, 800, 700),
        angles: Vec3::new(1, 1, 1),
        fov: 120,
    };
    let mut out_first = Vec::new();
    let mut out_second = Vec::new();
    first.update_uniforms(&b, &mut out_first);
    second.update_uniforms(&b, &mut out_second);
    assert_eq!(write_locations(&out_first), write_locations(&out_second));
    assert_ne!(out_first, out_second);
}

#[test]
fn material_and_sphere_pushes_target_their_acquired_locations() {
    let program = linked_program(&[
        ("sphere.material.albedo", 0),
        ("sphere.material.metallic", 1),
        ("sphere.material.roughness", 2),
        ("sphere.position", 3),
        ("sphere.radius", 4),
    ]);
    let material = Material { albedo: Vec3::new(9, 9, 9), metallic: 1, roughness: 2 };
    let sphere = Sphere { position: Vec3::new(7, 7, 7), radius: 30, material };

    let mb = Material::get_uniforms(&program).unwrap();
    let sb = Sphere::get_uniforms(&program).unwrap();

    let mut writes = Vec::new();
    material.update_uniforms(&mb, &mut writes);
    sphere.update_uniforms(&sb, &mut writes);
    assert_eq!(write_locations(&writes), vec![0, 1, 2, 3, 4]);
    assert_eq!(writes[0].value, UniformValue::Vector(9, 9, 9));
    assert_eq!(writes[4].value, UniformValue::Scalar(30));
}
