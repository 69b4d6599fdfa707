//! The scene description and the typed uniform binders.
//!
//! Each entity shape (camera, material, sphere) owns a fixed set of uniform
//! names. The [`Uniforms`] protocol separates the two halves of keeping such
//! a shape synchronized with the pipeline: `get_uniforms` resolves every
//! name the shape owns once, right after linking, into a fixed handle set;
//! `update_uniforms` then transfers a value of the shape through those
//! handles every frame, with no name lookups on the hot path. The protocol
//! also carries the proof obligation that a push targets exactly the
//! acquired locations, whatever value is pushed.

use vstd::prelude::*;
use vstd::string::StringExecFns;

use crate::shader_program::{Compiled, ShaderProgram};
use crate::uniform::{write_locations, UniformError, UniformHandle, UniformValue, UniformWrite};
use crate::vec3::Vec3;

verus! {

/// The scene's single, per-frame-mutable viewpoint. The scalar fields hold
/// IEEE-754 bit patterns, like every value this layer carries.
#[derive(Clone, Copy, Debug, PartialEq, Eq, Structural)]
pub struct Camera {
    pub position: Vec3,
    pub angles: Vec3,
    pub fov: u32,
}

/// The surface description of one sphere.
#[derive(Clone, Copy, Debug, PartialEq, Eq, Structural)]
pub struct Material {
    pub albedo: Vec3,
    pub metallic: u32,
    pub roughness: u32,
}

/// One scene object: a sphere with its material.
#[derive(Clone, Copy, Debug, PartialEq, Eq, Structural)]
pub struct Sphere {
    pub position: Vec3,
    pub radius: u32,
    pub material: Material,
}

/// The typed uniform binder protocol: a shape declares its uniform names in
/// a fixed, documented order, acquires one handle per name after the
/// program is linked, and pushes values through the stored handles
/// thereafter.
pub trait Uniforms: Sized {
    /// The acquired handle set for this shape.
    type Bindings;

    /// The uniform names the shape owns, in the fixed acquire order.
    spec fn uniform_names() -> Seq<Seq<char>>;

    /// The names a handle set carries, in the same order as `uniform_names`.
    spec fn binding_names(b: &Self::Bindings) -> Seq<Seq<char>>;

    /// The locations a handle set stores, in the same order as
    /// `uniform_names`.
    spec fn binding_locations(b: &Self::Bindings) -> Seq<int>;

    /// The write plan a value of this shape produces through a handle set.
    spec fn push_writes(&self, b: &Self::Bindings) -> Seq<UniformWrite>;

    /// Resolves every name the shape owns against the linked program, in
    /// the fixed order. Succeeds exactly when the program declares them
    /// all, yielding a handle set whose locations are the recorded ones;
    /// otherwise fails with the first name that is not declared.
    fn get_uniforms(program: &ShaderProgram<Compiled>) -> (r: Result<Self::Bindings, UniformError>)
        requires
            program.wf(),
        ensures
            r is Ok <==> (forall|k: int|
                0 <= k < Self::uniform_names().len() ==> program.declares(
                    #[trigger] Self::uniform_names()[k],
                )),
            r matches Ok(b) ==> Self::binding_names(&b) == Self::uniform_names()
                && Self::binding_locations(&b).len() == Self::uniform_names().len() && (forall|
                k: int,
            |
                0 <= k < Self::uniform_names().len() ==> Some(
                    #[trigger] Self::binding_locations(&b)[k],
                ) == program.location_of(Self::uniform_names()[k])),
            r matches Err(e) ==> (e matches UniformError::Unresolved(m) && !program.declares(m@)
                && Self::uniform_names().contains(m@)),
    ;

    /// Appends the value's writes to the frame's plan: one write per owned
    /// name, at the acquired location, in the fixed order.
    fn update_uniforms(&self, b: &Self::Bindings, out: &mut Vec<UniformWrite>)
        ensures
            final(out)@ == old(out)@ + self.push_writes(b),
    ;

    /// A push targets exactly the acquired locations: which locations are
    /// written is fixed at acquire time, whatever value is pushed.
    proof fn push_targets_bindings(&self, b: &Self::Bindings)
        ensures
            write_locations(self.push_writes(b)) == Self::binding_locations(b),
    ;
}

/// The camera's acquired handles: position, angles, field of view.
pub struct CameraBindings {
    pub position: UniformHandle,
    pub angles: UniformHandle,
    pub fov: UniformHandle,
}

impl Uniforms for Camera {
    type Bindings = CameraBindings;

    open spec fn uniform_names() -> Seq<Seq<char>> {
        seq!["camera.position"@, "camera.angles"@, "camera.fov"@]
    }

    open spec fn binding_names(b: &CameraBindings) -> Seq<Seq<char>> {
        seq![b.position.name@, b.angles.name@, b.fov.name@]
    }

    open spec fn binding_locations(b: &CameraBindings) -> Seq<int> {
        seq![b.position.location as int, b.angles.location as int, b.fov.location as int]
    }

    open spec fn push_writes(&self, b: &CameraBindings) -> Seq<UniformWrite> {
        seq![
            (UniformWrite {
                location: b.position.location,
                value: UniformValue::Vector(self.position.x, self.position.y, self.position.z),
            }),
            (UniformWrite {
                location: b.angles.location,
                value: UniformValue::Vector(self.angles.x, self.angles.y, self.angles.z),
            }),
            (UniformWrite { location: b.fov.location, value: UniformValue::Scalar(self.fov) }),
        ]
    }

    fn get_uniforms(program: &ShaderProgram<Compiled>) -> (r: Result<
        CameraBindings,
        UniformError,
    >) {
        let position = match program.resolve(&String::from_str("camera.position")) {
            Ok(h) => h,
            Err(e) => return Err(e),
        };
        let angles = match program.resolve(&String::from_str("camera.angles")) {
            Ok(h) => h,
            Err(e) => return Err(e),
        };
        let fov = match program.resolve(&String::from_str("camera.fov")) {
            Ok(h) => h,
            Err(e) => return Err(e),
        };
        Ok(CameraBindings { position, angles, fov })
    }

    fn update_uniforms(&self, b: &CameraBindings, out: &mut Vec<UniformWrite>) {
        out.push(
            UniformWrite {
                location: b.position.location,
                value: UniformValue::Vector(self.position.x, self.position.y, self.position.z),
            },
        );
        out.push(
            UniformWrite {
                location: b.angles.location,
                value: UniformValue::Vector(self.angles.x, self.angles.y, self.angles.z),
            },
        );
        out.push(UniformWrite { location: b.fov.location, value: UniformValue::Scalar(self.fov) });
        assert(out@ =~= old(out)@ + self.push_writes(b));
    }

    proof fn push_targets_bindings(&self, b: &CameraBindings) {
        assert(write_locations(self.push_writes(b)) =~= Self::binding_locations(b));
    }
}

/// A material's acquired handles: albedo, metallic, roughness.
pub struct MaterialBindings {
    pub albedo: UniformHandle,
    pub metallic: UniformHandle,
    pub roughness: UniformHandle,
}

impl Uniforms for Material {
    type Bindings = MaterialBindings;

    open spec fn uniform_names() -> Seq<Seq<char>> {
        seq![
            "sphere.material.albedo"@,
            "sphere.material.metallic"@,
            "sphere.material.roughness"@,
        ]
    }

    open spec fn binding_names(b: &MaterialBindings) -> Seq<Seq<char>> {
        seq![b.albedo.name@, b.metallic.name@, b.roughness.name@]
    }

    open spec fn binding_locations(b: &MaterialBindings) -> Seq<int> {
        seq![b.albedo.location as int, b.metallic.location as int, b.roughness.location as int]
    }

    open spec fn push_writes(&self, b: &MaterialBindings) -> Seq<UniformWrite> {
        seq![
            (UniformWrite {
                location: b.albedo.location,
                value: UniformValue::Vector(self.albedo.x, self.albedo.y, self.albedo.z),
            }),
            (UniformWrite {
                location: b.metallic.location,
                value: UniformValue::Scalar(self.metallic),
            }),
            (UniformWrite {
                location: b.roughness.location,
                value: UniformValue::Scalar(self.roughness),
            }),
        ]
    }

    fn get_uniforms(program: &ShaderProgram<Compiled>) -> (r: Result<
        MaterialBindings,
        UniformError,
    >) {
        let albedo = match program.resolve(&String::from_str("sphere.material.albedo")) {
            Ok(h) => h,
            Err(e) => return Err(e),
        };
        let metallic = match program.resolve(&String::from_str("sphere.material.metallic")) {
            Ok(h) => h,
            Err(e) => return Err(e),
        };
        let roughness = match program.resolve(&String::from_str("sphere.material.roughness")) {
            Ok(h) => h,
            Err(e) => return Err(e),
        };
        Ok(MaterialBindings { albedo, metallic, roughness })
    }

    fn update_uniforms(&self, b: &MaterialBindings, out: &mut Vec<UniformWrite>) {
        out.push(
            UniformWrite {
                location: b.albedo.location,
                value: UniformValue::Vector(self.albedo.x, self.albedo.y, self.albedo.z),
            },
        );
        out.push(
            UniformWrite { location: b.metallic.location, value: UniformValue::Scalar(self.metallic) },
        );
        out.push(
            UniformWrite {
                location: b.roughness.location,
                value: UniformValue::Scalar(self.roughness),
            },
        );
        assert(out@ =~= old(out)@ + self.push_writes(b));
    }

    proof fn push_targets_bindings(&self, b: &MaterialBindings) {
        assert(write_locations(self.push_writes(b)) =~= Self::binding_locations(b));
    }
}

/// A sphere's own acquired handles: position and radius. The material is
/// bound through its own binder.
pub struct SphereBindings {
    pub position: UniformHandle,
    pub radius: UniformHandle,
}

impl Uniforms for Sphere {
    type Bindings = SphereBindings;

    open spec fn uniform_names() -> Seq<Seq<char>> {
        seq!["sphere.position"@, "sphere.radius"@]
    }

    open spec fn binding_names(b: &SphereBindings) -> Seq<Seq<char>> {
        seq![b.position.name@, b.radius.name@]
    }

    open spec fn binding_locations(b: &SphereBindings) -> Seq<int> {
        seq![b.position.location as int, b.radius.location as int]
    }

    open spec fn push_writes(&self, b: &SphereBindings) -> Seq<UniformWrite> {
        seq![
            (UniformWrite {
                location: b.position.location,
                value: UniformValue::Vector(self.position.x, self.position.y, self.position.z),
            }),
            (UniformWrite { location: b.radius.location, value: UniformValue::Scalar(self.radius) }),
        ]
    }

    fn get_uniforms(program: &ShaderProgram<Compiled>) -> (r: Result<
        SphereBindings,
        UniformError,
    >) {
        let position = match program.resolve(&String::from_str("sphere.position")) {
            Ok(h) => h,
            Err(e) => return Err(e),
        };
        let radius = match program.resolve(&String::from_str("sphere.radius")) {
            Ok(h) => h,
            Err(e) => return Err(e),
        };
        Ok(SphereBindings { position, radius })
    }

    fn update_uniforms(&self, b: &SphereBindings, out: &mut Vec<UniformWrite>) {
        out.push(
            UniformWrite {
                location: b.position.location,
                value: UniformValue::Vector(self.position.x, self.position.y, self.position.z),
            },
        );
        out.push(
            UniformWrite { location: b.radius.location, value: UniformValue::Scalar(self.radius) },
        );
        assert(out@ =~= old(out)@ + self.push_writes(b));
    }

    proof fn push_targets_bindings(&self, b: &SphereBindings) {
        assert(write_locations(self.push_writes(b)) =~= Self::binding_locations(b));
    }
}

} // verus!
