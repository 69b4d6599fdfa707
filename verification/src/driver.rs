//! The per-frame decisions of the scene render driver.
//!
//! Once per frame the driver applies pending input to the camera, recomputes
//! the draw order of the spheres (farthest from the camera first, load order
//! on ties), resolves which sphere's data occupies each positional binding
//! slot, and lays out the full plan of uniform writes for the frame. The
//! surrounding loop — event polling, the floating-point distance
//! computation, the actual pipeline calls — hands events in and carries the
//! plan out; every decision over those values is made and verified here.

use vstd::prelude::*;
use vstd::seq_lib::*;
use vstd::string::StringExecFns;

use crate::names::sphere_field_chars;
use crate::names::sphere_uniform_name;
use crate::objects::{Camera, CameraBindings, Sphere, Uniforms};
use crate::shader_program::{Compiled, ShaderProgram};
use crate::uniform::{write_locations, UniformError, UniformHandle, UniformValue, UniformWrite};

verus! {

/// The scene as loaded from configuration: the camera and the spheres in
/// load order. The spheres stay in load order for the whole run; only which
/// sphere's data is pushed into which binding slot changes per frame.
pub struct Scene {
    pub camera: Camera,
    pub spheres: Vec<Sphere>,
}

/// The pending movement input of one frame: which of the six movement keys
/// are held down.
#[derive(Clone, Copy, Debug, PartialEq, Eq, Structural)]
pub struct InputState {
    pub forward: bool,
    pub backward: bool,
    pub left: bool,
    pub right: bool,
    pub up: bool,
    pub down: bool,
}

/// Whole steps of camera translation along each axis for one frame; the
/// boundary scales each by the fixed per-frame step before applying it.
#[derive(Clone, Copy, Debug, PartialEq, Eq, Structural)]
pub struct MotionSteps {
    pub x: i32,
    pub y: i32,
    pub z: i32,
}

/// The net step along one axis: one forward for the positive key, one back
/// for the negative key.
pub open spec fn axis_steps(positive: bool, negative: bool) -> int {
    (if positive {
        1int
    } else {
        0int
    }) - (if negative {
        1int
    } else {
        0int
    })
}

/// Decides the camera translation a frame's input produces: the right and
/// left keys move along x, up and down along y, forward and backward along
/// z, each by exactly one step, and opposite keys cancel. No other input
/// moves the camera.
pub fn camera_motion(input: &InputState) -> (m: MotionSteps)
    ensures
        m.x as int == axis_steps(input.right, input.left),
        m.y as int == axis_steps(input.up, input.down),
        m.z as int == axis_steps(input.forward, input.backward),
{
    let x: i32 = (if input.right {
        1i32
    } else {
        0i32
    }) - (if input.left {
        1i32
    } else {
        0i32
    });
    let y: i32 = (if input.up {
        1i32
    } else {
        0i32
    }) - (if input.down {
        1i32
    } else {
        0i32
    });
    let z: i32 = (if input.forward {
        1i32
    } else {
        0i32
    }) - (if input.backward {
        1i32
    } else {
        0i32
    });
    MotionSteps { x, y, z }
}

/// One sphere's distance from the camera, as the draw-order comparison sees
/// it: a totally ordered key for a well-defined distance, or `Undefined`
/// where the comparison is ill-defined (non-finite coordinates). An
/// undefined distance compares as equal to everything rather than aborting
/// the frame.
#[derive(Clone, Copy, Debug, PartialEq, Eq, Structural)]
pub enum DistanceKey {
    /// A well-defined distance, mapped order-preservingly onto an integer.
    Finite(u64),
    /// An ill-defined distance; ordered with nothing.
    Undefined,
}

/// Whether `a` is strictly farther than `b`: only well-defined distances
/// compare, anything else is treated as equal.
pub open spec fn farther_key(a: DistanceKey, b: DistanceKey) -> bool {
    a is Finite && b is Finite && a->Finite_0 > b->Finite_0
}

/// Whether every distance is well-defined.
pub open spec fn all_finite(keys: Seq<DistanceKey>) -> bool {
    forall|k: int| 0 <= k < keys.len() ==> (#[trigger] keys[k]) is Finite
}

fn farther(a: &DistanceKey, b: &DistanceKey) -> (r: bool)
    ensures
        r == farther_key(*a, *b),
{
    match (*a, *b) {
        (DistanceKey::Finite(x), DistanceKey::Finite(y)) => x > y,
        _ => false,
    }
}

/// Computes the frame's draw order over the spheres' distance keys, given
/// in load order: a permutation of the load indices, farthest first, stable
/// on ties. The order never inverts two load indices unless the one drawn
/// earlier is strictly farther, and when every distance is well-defined it
/// is exactly the stable descending order. An ill-defined distance never
/// aborts the ordering: it simply orders with nothing.
pub fn draw_order(keys: &Vec<DistanceKey>) -> (order: Vec<usize>)
    ensures
        order@.len() == keys@.len(),
        forall|k: int| 0 <= k < order@.len() ==> (#[trigger] order@[k]) < keys@.len(),
        forall|k1: int, k2: int|
            0 <= k1 < k2 < order@.len() ==> order@[k1] != order@[k2],
        forall|k1: int, k2: int|
            0 <= k1 < k2 < order@.len() && order@[k1] > order@[k2] ==> farther_key(
                keys@[order@[k1] as int],
                keys@[order@[k2] as int],
            ),
        all_finite(keys@) ==> (forall|k1: int, k2: int|
            0 <= k1 < k2 < order@.len() ==> (#[trigger] keys@[order@[k1] as int])->Finite_0 >= (
            #[trigger] keys@[order@[k2] as int])->Finite_0),
{
    let n = keys.len();
    let mut order: Vec<usize> = Vec::new();
    let mut i: usize = 0;
    while i < n
        invariant
            n == keys@.len(),
            i <= n,
            order@.len() == i,
            forall|k: int| 0 <= k < order@.len() ==> (#[trigger] order@[k]) < i,
            forall|k1: int, k2: int|
                0 <= k1 < k2 < order@.len() ==> order@[k1] != order@[k2],
            forall|k1: int, k2: int|
                0 <= k1 < k2 < order@.len() && order@[k1] > order@[k2] ==> farther_key(
                    keys@[order@[k1] as int],
                    keys@[order@[k2] as int],
                ),
            all_finite(keys@) ==> (forall|k1: int, k2: int|
                0 <= k1 < k2 < order@.len() ==> (#[trigger] keys@[order@[k1] as int])->Finite_0
                    >= (#[trigger] keys@[order@[k2] as int])->Finite_0),
        decreases n - i,
    {
        let mut p: usize = order.len();
        while p > 0 && farther(&keys[i], &keys[order[p - 1]])
            invariant
                n == keys@.len(),
                i < n,
                p <= order@.len(),
                order@.len() == i,
                forall|k: int| 0 <= k < order@.len() ==> (#[trigger] order@[k]) < i,
                forall|q: int|
                    p <= q < order@.len() ==> farther_key(
                        keys@[i as int],
                        keys@[order@[q] as int],
                    ),
            decreases p,
        {
            p -= 1;
        }
        let ghost o = order@;
        order.insert(p, i);
        proof {
            o.insert_ensures(p as int, i);
            let o2 = order@;
            // The inserted index is strictly farther than everything it
            // displaced, and everything ahead of it keeps its relations.
            assert forall|k1: int, k2: int|
                0 <= k1 < k2 < o2.len() && o2[k1] > o2[k2] implies farther_key(
                keys@[o2[k1] as int],
                keys@[o2[k2] as int],
            ) by {
                if k1 == p {
                    assert(o2[k2] == o[k2 - 1]);
                } else if k2 == p {
                    assert(o2[k1] == o[k1]);
                } else {
                    let j1 = if k1 < p { k1 } else { k1 - 1 };
                    let j2 = if k2 < p { k2 } else { k2 - 1 };
                    assert(o2[k1] == o[j1] && o2[k2] == o[j2]);
                }
            }
            if all_finite(keys@) {
                assert forall|k1: int, k2: int|
                    0 <= k1 < k2 < o2.len() implies keys@[o2[k1] as int]->Finite_0
                    >= keys@[o2[k2] as int]->Finite_0 by {
                    if k1 == p {
                        // Everything from the insertion point on is strictly
                        // nearer than the inserted sphere.
                        assert(farther_key(keys@[i as int], keys@[o[k2 - 1] as int]));
                    } else if k2 == p {
                        // The scan stopped at p, so the sphere just ahead is
                        // at least as far, and the prefix is descending.
                        assert(!farther_key(keys@[i as int], keys@[o[p - 1] as int]));
                        if k1 < p - 1 {
                            assert(keys@[o[k1] as int]->Finite_0 >= keys@[o[p - 1] as int]->Finite_0);
                        }
                    } else {
                        let j1 = if k1 < p { k1 } else { k1 - 1 };
                        let j2 = if k2 < p { k2 } else { k2 - 1 };
                        assert(o2[k1] == o[j1] && o2[k2] == o[j2]);
                    }
                }
            }
        }
        i += 1;
    }
    order
}

/// The handles of one positional binding slot of the sphere array: the five
/// index-qualified uniforms of slot `i`, fixed at acquire time. Spheres are
/// re-ordered by pushing a different sphere's data through a slot, never by
/// moving the slot's handles.
pub struct SphereSlotBindings {
    pub position: UniformHandle,
    pub radius: UniformHandle,
    pub albedo: UniformHandle,
    pub roughness: UniformHandle,
    pub metallic: UniformHandle,
}

/// Whether `b` holds exactly the handles of binding slot `i` as `program`
/// records them: each handle carries the index-qualified name of its field
/// and the location the program declares for that name.
pub open spec fn slot_resolved(
    b: SphereSlotBindings,
    program: ShaderProgram<Compiled>,
    i: nat,
) -> bool {
    &&& b.position.name@ == sphere_field_chars(i, "position"@)
    &&& b.radius.name@ == sphere_field_chars(i, "radius"@)
    &&& b.albedo.name@ == sphere_field_chars(i, "material.albedo"@)
    &&& b.roughness.name@ == sphere_field_chars(i, "material.roughness"@)
    &&& b.metallic.name@ == sphere_field_chars(i, "material.metallic"@)
    &&& Some(b.position.location as int) == program.location_of(b.position.name@)
    &&& Some(b.radius.location as int) == program.location_of(b.radius.name@)
    &&& Some(b.albedo.location as int) == program.location_of(b.albedo.name@)
    &&& Some(b.roughness.location as int) == program.location_of(b.roughness.name@)
    &&& Some(b.metallic.location as int) == program.location_of(b.metallic.name@)
}

/// Whether `program` declares every uniform of binding slot `i`.
pub open spec fn slot_declared(program: ShaderProgram<Compiled>, i: nat) -> bool {
    &&& program.declares(sphere_field_chars(i, "position"@))
    &&& program.declares(sphere_field_chars(i, "radius"@))
    &&& program.declares(sphere_field_chars(i, "material.albedo"@))
    &&& program.declares(sphere_field_chars(i, "material.roughness"@))
    &&& program.declares(sphere_field_chars(i, "material.metallic"@))
}

/// Whether `m` is one of the uniform names of binding slot `i`.
pub open spec fn slot_name(m: Seq<char>, i: nat) -> bool {
    ||| m == sphere_field_chars(i, "position"@)
    ||| m == sphere_field_chars(i, "radius"@)
    ||| m == sphere_field_chars(i, "material.albedo"@)
    ||| m == sphere_field_chars(i, "material.roughness"@)
    ||| m == sphere_field_chars(i, "material.metallic"@)
}

/// Resolves the five uniforms of binding slot `i`, in the fixed order
/// position, radius, albedo, roughness, metallic. Succeeds exactly when the
/// program declares all five index-qualified names; otherwise fails with
/// the first that is not declared.
pub fn acquire_sphere_slot(program: &ShaderProgram<Compiled>, i: usize) -> (r: Result<
    SphereSlotBindings,
    UniformError,
>)
    requires
        program.wf(),
    ensures
        r is Ok <==> slot_declared(*program, i as nat),
        r matches Ok(b) ==> slot_resolved(b, *program, i as nat),
        r matches Err(e) ==> (e matches UniformError::Unresolved(m) && !program.declares(m@)
            && slot_name(m@, i as nat)),
{
    let position = match program.resolve(&sphere_uniform_name(i, "position")) {
        Ok(h) => h,
        Err(e) => return Err(e),
    };
    let radius = match program.resolve(&sphere_uniform_name(i, "radius")) {
        Ok(h) => h,
        Err(e) => return Err(e),
    };
    let albedo = match program.resolve(&sphere_uniform_name(i, "material.albedo")) {
        Ok(h) => h,
        Err(e) => return Err(e),
    };
    let roughness = match program.resolve(&sphere_uniform_name(i, "material.roughness")) {
        Ok(h) => h,
        Err(e) => return Err(e),
    };
    let metallic = match program.resolve(&sphere_uniform_name(i, "material.metallic")) {
        Ok(h) => h,
        Err(e) => return Err(e),
    };
    Ok(SphereSlotBindings { position, radius, albedo, roughness, metallic })
}

/// Every handle a frame needs: the frame-global scalars, the camera's
/// handles, and one binding slot per sphere, aligned with the scene's
/// sphere sequence as loaded. Created once, right after linking; read every
/// frame.
pub struct SceneBindings {
    pub width: UniformHandle,
    pub height: UniformHandle,
    pub camera: CameraBindings,
    pub spheres: Vec<SphereSlotBindings>,
}

/// Whether `program` declares everything a scene of `n` spheres needs: the
/// frame-global scalars, the camera uniforms, and all five uniforms of each
/// of the `n` binding slots.
pub open spec fn scene_declared(program: ShaderProgram<Compiled>, n: nat) -> bool {
    &&& program.declares("width"@)
    &&& program.declares("height"@)
    &&& forall|k: int|
        0 <= k < Camera::uniform_names().len() ==> program.declares(
            #[trigger] Camera::uniform_names()[k],
        )
    &&& forall|j: nat| j < n ==> slot_declared(program, j)
}

/// Acquires every handle a scene of `n_spheres` spheres needs, one resolve
/// per name: the frame-global scalars, the camera's handles, then one
/// binding slot per sphere index in load order. Succeeds exactly when the
/// program declares every needed name, producing exactly `n_spheres`
/// binding slots, the slot at `j` resolved under the names qualified with
/// index `j`; otherwise fails with a needed name that is not declared.
pub fn acquire_scene_bindings(program: &ShaderProgram<Compiled>, n_spheres: usize) -> (r: Result<
    SceneBindings,
    UniformError,
>)
    requires
        program.wf(),
    ensures
        r is Ok <==> scene_declared(*program, n_spheres as nat),
        r matches Ok(b) ==> {
            &&& b.spheres@.len() == n_spheres
            &&& b.width.name@ == "width"@ && Some(b.width.location as int) == program.location_of(
                "width"@,
            )
            &&& b.height.name@ == "height"@ && Some(b.height.location as int)
                == program.location_of("height"@)
            &&& Camera::binding_names(&b.camera) == Camera::uniform_names()
            &&& Camera::binding_locations(&b.camera).len() == Camera::uniform_names().len()
            &&& forall|k: int|
                0 <= k < Camera::uniform_names().len() ==> Some(
                    #[trigger] Camera::binding_locations(&b.camera)[k],
                ) == program.location_of(Camera::uniform_names()[k])
            &&& forall|j: int|
                0 <= j < n_spheres ==> slot_resolved(#[trigger] b.spheres@[j], *program, j as nat)
        },
        r matches Err(e) ==> (e matches UniformError::Unresolved(m) && !program.declares(m@) && (m@
            == "width"@ || m@ == "height"@ || Camera::uniform_names().contains(m@) || (exists|
            j: nat,
        | j < n_spheres && slot_name(m@, j)))),
{
    let width = match program.resolve(&String::from_str("width")) {
        Ok(h) => h,
        Err(e) => return Err(e),
    };
    let height = match program.resolve(&String::from_str("height")) {
        Ok(h) => h,
        Err(e) => return Err(e),
    };
    let camera = match Camera::get_uniforms(program) {
        Ok(c) => c,
        Err(e) => return Err(e),
    };
    let mut spheres: Vec<SphereSlotBindings> = Vec::new();
    let mut j: usize = 0;
    while j < n_spheres
        invariant
            program.wf(),
            j <= n_spheres,
            spheres@.len() == j,
            forall|q: int| 0 <= q < j ==> slot_resolved(#[trigger] spheres@[q], *program, q as nat),
            forall|q: nat| q < j ==> slot_declared(*program, q),
        decreases n_spheres - j,
    {
        let slot = match acquire_sphere_slot(program, j) {
            Ok(s) => s,
            Err(e) => return Err(e),
        };
        spheres.push(slot);
        j += 1;
    }
    Ok(SceneBindings { width, height, camera, spheres })
}

/// The writes that place one sphere's data in one binding slot, in the
/// fixed order position, radius, albedo, roughness, metallic.
pub open spec fn slot_writes(s: Sphere, b: SphereSlotBindings) -> Seq<UniformWrite> {
    seq![
        (UniformWrite {
            location: b.position.location,
            value: UniformValue::Vector(s.position.x, s.position.y, s.position.z),
        }),
        (UniformWrite { location: b.radius.location, value: UniformValue::Scalar(s.radius) }),
        (UniformWrite {
            location: b.albedo.location,
            value: UniformValue::Vector(s.material.albedo.x, s.material.albedo.y, s.material.albedo.z),
        }),
        (UniformWrite {
            location: b.roughness.location,
            value: UniformValue::Scalar(s.material.roughness),
        }),
        (UniformWrite {
            location: b.metallic.location,
            value: UniformValue::Scalar(s.material.metallic),
        }),
    ]
}

/// The writes of all binding slots of a frame, slot by slot: slot `k`
/// carries the data of the sphere drawn `k`-th, `spheres[order[k]]`.
pub open spec fn slots_writes(
    spheres: Seq<Sphere>,
    order: Seq<usize>,
    slots: Seq<SphereSlotBindings>,
) -> Seq<UniformWrite>
    decreases order.len(),
{
    if order.len() == 0 {
        Seq::empty()
    } else {
        slots_writes(spheres, order.drop_last(), slots.drop_last()) + slot_writes(
            spheres[order.last() as int],
            slots.last(),
        )
    }
}

/// The full write plan of one frame: the camera, then every binding slot in
/// draw order, then the frame-global scalars.
pub open spec fn frame_plan(
    scene: Scene,
    order: Seq<usize>,
    b: SceneBindings,
    width_bits: u32,
    height_bits: u32,
) -> Seq<UniformWrite> {
    scene.camera.push_writes(&b.camera) + slots_writes(scene.spheres@, order, b.spheres@) + seq![
        (UniformWrite { location: b.width.location, value: UniformValue::Scalar(width_bits) }),
        (UniformWrite { location: b.height.location, value: UniformValue::Scalar(height_bits) }),
    ]
}

/// The locations one binding slot's handles store, in push order.
pub open spec fn slot_locations(b: SphereSlotBindings) -> Seq<int> {
    seq![
        b.position.location as int,
        b.radius.location as int,
        b.albedo.location as int,
        b.roughness.location as int,
        b.metallic.location as int,
    ]
}

/// The locations all binding slots store, slot by slot.
pub open spec fn slots_locations(slots: Seq<SphereSlotBindings>) -> Seq<int>
    decreases slots.len(),
{
    if slots.len() == 0 {
        Seq::empty()
    } else {
        slots_locations(slots.drop_last()) + slot_locations(slots.last())
    }
}

/// Every location a frame writes, determined by the acquired bindings
/// alone: the camera's handles, each slot's handles in slot order, then the
/// frame-global scalars.
pub open spec fn frame_targets(b: SceneBindings) -> Seq<int> {
    Camera::binding_locations(&b.camera) + slots_locations(b.spheres@) + seq![
        b.width.location as int,
        b.height.location as int,
    ]
}

/// The locations of a concatenated plan are the concatenated locations.
proof fn lemma_write_locations_add(a: Seq<UniformWrite>, b: Seq<UniformWrite>)
    ensures
        write_locations(a + b) == write_locations(a) + write_locations(b),
{
    assert(write_locations(a + b) =~= write_locations(a) + write_locations(b));
}

/// The locations the binding slots write are the slots' stored locations,
/// whatever spheres fill them and in whatever order.
proof fn lemma_slots_targets(
    spheres: Seq<Sphere>,
    order: Seq<usize>,
    slots: Seq<SphereSlotBindings>,
)
    requires
        order.len() == slots.len(),
        forall|k: int| 0 <= k < order.len() ==> (#[trigger] order[k]) < spheres.len(),
    ensures
        write_locations(slots_writes(spheres, order, slots)) == slots_locations(slots),
    decreases order.len(),
{
    if order.len() == 0 {
        assert(write_locations(slots_writes(spheres, order, slots)) =~= slots_locations(slots));
    } else {
        let front = slots_writes(spheres, order.drop_last(), slots.drop_last());
        let back = slot_writes(spheres[order.last() as int], slots.last());
        lemma_write_locations_add(front, back);
        lemma_slots_targets(spheres, order.drop_last(), slots.drop_last());
        assert(write_locations(back) =~= slot_locations(slots.last()));
    }
}

/// Pushing a frame is idempotent in its set of written locations: the plan
/// targets exactly the locations fixed at acquire time, whatever the scene
/// values, the draw order and the framebuffer size of the frame — repeated
/// pushes with different values only ever change the values at those
/// locations, never which locations are written.
pub proof fn lemma_frame_targets_fixed(
    scene: Scene,
    order: Seq<usize>,
    b: SceneBindings,
    width_bits: u32,
    height_bits: u32,
)
    requires
        order.len() == b.spheres@.len(),
        forall|k: int| 0 <= k < order.len() ==> (#[trigger] order[k]) < scene.spheres@.len(),
    ensures
        write_locations(frame_plan(scene, order, b, width_bits, height_bits)) == frame_targets(b),
{
    let globals = seq![
        (UniformWrite { location: b.width.location, value: UniformValue::Scalar(width_bits) }),
        (UniformWrite { location: b.height.location, value: UniformValue::Scalar(height_bits) }),
    ];
    let cam = scene.camera.push_writes(&b.camera);
    let slots = slots_writes(scene.spheres@, order, b.spheres@);
    lemma_write_locations_add(cam + slots, globals);
    lemma_write_locations_add(cam, slots);
    scene.camera.push_targets_bindings(&b.camera);
    lemma_slots_targets(scene.spheres@, order, b.spheres@);
    assert(write_locations(globals) =~= seq![
        b.width.location as int,
        b.height.location as int,
    ]);
    assert(write_locations(frame_plan(scene, order, b, width_bits, height_bits)) =~= frame_targets(
        b,
    ));
}

/// Appends the writes that place `sphere`'s data in slot `slot`.
pub fn push_sphere_slot(sphere: &Sphere, slot: &SphereSlotBindings, out: &mut Vec<UniformWrite>)
    ensures
        final(out)@ == old(out)@ + slot_writes(*sphere, *slot),
{
    out.push(
        UniformWrite {
            location: slot.position.location,
            value: UniformValue::Vector(sphere.position.x, sphere.position.y, sphere.position.z),
        },
    );
    out.push(
        UniformWrite { location: slot.radius.location, value: UniformValue::Scalar(sphere.radius) },
    );
    out.push(
        UniformWrite {
            location: slot.albedo.location,
            value: UniformValue::Vector(
                sphere.material.albedo.x,
                sphere.material.albedo.y,
                sphere.material.albedo.z,
            ),
        },
    );
    out.push(
        UniformWrite {
            location: slot.roughness.location,
            value: UniformValue::Scalar(sphere.material.roughness),
        },
    );
    out.push(
        UniformWrite {
            location: slot.metallic.location,
            value: UniformValue::Scalar(sphere.material.metallic),
        },
    );
    assert(out@ =~= old(out)@ + slot_writes(*sphere, *slot));
}

/// Lays out one frame's uniform writes: the camera's current values, then
/// each binding slot filled with the data of the sphere drawn in that
/// position this frame, then the current framebuffer size (as component bit
/// patterns). The plan is exactly `frame_plan`; the boundary performs it in
/// order against the pipeline.
pub fn frame_writes(
    scene: &Scene,
    order: &Vec<usize>,
    b: &SceneBindings,
    width_bits: u32,
    height_bits: u32,
) -> (w: Vec<UniformWrite>)
    requires
        order@.len() == b.spheres@.len(),
        forall|k: int| 0 <= k < order@.len() ==> (#[trigger] order@[k]) < scene.spheres@.len(),
    ensures
        w@ == frame_plan(*scene, order@, *b, width_bits, height_bits),
{
    let mut out: Vec<UniformWrite> = Vec::new();
    scene.camera.update_uniforms(&b.camera, &mut out);
    let ghost base = out@;
    let n = order.len();
    let mut k: usize = 0;
    while k < n
        invariant
            n == order@.len(),
            k <= n,
            order@.len() == b.spheres@.len(),
            forall|q: int| 0 <= q < order@.len() ==> (#[trigger] order@[q]) < scene.spheres@.len(),
            out@ == base + slots_writes(scene.spheres@, order@.take(k as int), b.spheres@.take(k as int)),
        decreases n - k,
    {
        let index = order[k];
        push_sphere_slot(&scene.spheres[index], &b.spheres[k], &mut out);
        proof {
            let o1 = order@.take(k + 1);
            let s1 = b.spheres@.take(k + 1);
            assert(o1.drop_last() =~= order@.take(k as int));
            assert(s1.drop_last() =~= b.spheres@.take(k as int));
            assert(o1.last() == order@[k as int]);
        }
        k += 1;
    }
    out.push(
        UniformWrite { location: b.width.location, value: UniformValue::Scalar(width_bits) },
    );
    out.push(
        UniformWrite { location: b.height.location, value: UniformValue::Scalar(height_bits) },
    );
    proof {
        assert(order@.take(n as int) =~= order@);
        assert(b.spheres@.take(n as int) =~= b.spheres@);
        assert(out@ =~= frame_plan(*scene, order@, *b, width_bits, height_bits));
    }
    out
}

} // verus!
