//! The shader-program lifecycle: compile stages, link, then bind.
//!
//! A program starts [`Uncompiled`], accepting one compiled stage at a time,
//! and `compile` is the only way to obtain a [`Compiled`] program — the sole
//! state that exposes `bind` and `unbind`. Binding a never-linked program is
//! therefore unrepresentable at the type level, not merely checked at run
//! time.
//!
//! The graphics driver's side of each step (allocating the program handle,
//! compiling a stage, linking, reporting uniform locations) reaches this
//! module as plain values: a stage identifier plus its compile status and
//! diagnostic log, the link status and log, a name's reported location. The
//! decisions taken over those reports — record or abort, release stages,
//! accept or refuse a location — are verified for every value the driver
//! can report.

use vstd::prelude::*;

use crate::uniform::{
    contains_name, lemma_lookup_first_match, lemma_lookup_none, lookup_location, UniformError,
    UniformHandle,
};

verus! {

/// Marker for a program that has been linked and may be bound.
pub struct Compiled;

/// Marker for a program still accepting stage attachments.
pub struct Uncompiled;

/// A graphics-pipeline program in one of two lifecycle states.
///
/// `id` is the opaque handle the driver assigned at creation. While
/// `Uncompiled`, the program records the identifiers of compiled stages for
/// the later link; once `Compiled`, the stage identifiers are released and
/// the program instead records the uniform declarations resolved against it.
pub struct ShaderProgram<State> {
    pub id: u32,
    shader_ids: Vec<u32>,
    uniforms: Vec<UniformHandle>,
    state: core::marker::PhantomData<State>,
}

/// The fatal setup failures of the program lifecycle, each carrying the
/// driver's diagnostic log.
#[derive(Debug)]
pub enum ShaderError {
    /// A shader stage failed to compile.
    CompileFailed(String),
    /// The program failed to link.
    LinkFailed(String),
}

impl<State> ShaderProgram<State> {
    /// The driver-assigned handle of this program.
    pub closed spec fn program_id(&self) -> u32 {
        self.id
    }

    /// The stage identifiers recorded so far, in attachment order.
    pub closed spec fn stages(&self) -> Seq<u32> {
        self.shader_ids@
    }

    /// The uniform declarations recorded against this program, in the order
    /// they were resolved.
    pub closed spec fn decls(&self) -> Seq<UniformHandle> {
        self.uniforms@
    }

    /// Every recorded declaration carries a non-negative location.
    pub open spec fn wf(&self) -> bool {
        forall|k: int| 0 <= k < self.decls().len() ==> (#[trigger] self.decls()[k]).wf()
    }

    /// Whether `name` is declared in this program, as recorded.
    pub open spec fn declares(&self, name: Seq<char>) -> bool {
        contains_name(self.decls(), name)
    }

    /// The recorded location of `name`, if declared.
    pub open spec fn location_of(&self, name: Seq<char>) -> Option<int> {
        lookup_location(self.decls(), name)
    }

    /// The recorded stage identifiers, for the boundary to attach and later
    /// release.
    pub fn shader_ids(&self) -> (ids: &Vec<u32>)
        ensures
            ids@ == self.stages(),
    {
        &self.shader_ids
    }
}

impl ShaderProgram<Uncompiled> {
    /// Starts the lifecycle of the program the driver created under `id`:
    /// no stages recorded, nothing declared.
    pub fn new(id: u32) -> (p: ShaderProgram<Uncompiled>)
        ensures
            p.program_id() == id,
            p.stages() == Seq::<u32>::empty(),
            p.decls() == Seq::<UniformHandle>::empty(),
            p.wf(),
    {
        ShaderProgram {
            id,
            shader_ids: Vec::new(),
            uniforms: Vec::new(),
            state: core::marker::PhantomData,
        }
    }

    /// Takes the driver's report on one compiled stage: the stage identifier
    /// together with its compile status and diagnostic log. A stage that
    /// compiled is recorded for the link and handed back; a failed compile
    /// records nothing and aborts setup with the full log.
    pub fn add_shader(&mut self, shader_id: u32, compiled: bool, log: String) -> (r: Result<
        u32,
        ShaderError,
    >)
        ensures
            final(self).program_id() == old(self).program_id(),
            final(self).decls() == old(self).decls(),
            compiled ==> final(self).stages() == old(self).stages().push(shader_id) && r
                == Ok::<u32, ShaderError>(shader_id),
            !compiled ==> final(self).stages() == old(self).stages() && (r matches Err(e) && e
                == ShaderError::CompileFailed(log)),
    {
        if compiled {
            self.shader_ids.push(shader_id);
            Ok(shader_id)
        } else {
            Err(ShaderError::CompileFailed(log))
        }
    }

    /// Consumes the unlinked program once the driver has attached every
    /// recorded stage and reported the link status and log. A successful
    /// link yields the compiled program under the same handle with its
    /// stages released — they are single-use and must not be reused — and no
    /// uniforms declared yet. A failed link aborts setup with the full log.
    pub fn compile(self, linked: bool, log: String) -> (r: Result<
        ShaderProgram<Compiled>,
        ShaderError,
    >)
        ensures
            linked <==> r is Ok,
            r matches Ok(p) ==> p.program_id() == self.program_id() && p.stages() == Seq::<u32>::empty() && p.decls()
                == Seq::<UniformHandle>::empty() && p.wf(),
            r matches Err(e) ==> e == ShaderError::LinkFailed(log),
    {
        if linked {
            Ok(
                ShaderProgram {
                    id: self.id,
                    shader_ids: Vec::new(),
                    uniforms: Vec::new(),
                    state: core::marker::PhantomData,
                },
            )
        } else {
            Err(ShaderError::LinkFailed(log))
        }
    }
}

impl ShaderProgram<Compiled> {
    /// The pipeline handle to activate: binding makes this program current.
    pub fn bind(&self) -> (pid: u32)
        ensures
            pid == self.program_id(),
    {
        self.id
    }

    /// The pipeline handle that restores "no program active".
    pub fn unbind(&self) -> (pid: u32)
        ensures
            pid == 0,
    {
        0
    }

    /// Takes the location the driver reported for `name` in this linked
    /// program. A non-negative location is recorded as a declaration and
    /// returned as a handle; a negative one means the program does not
    /// declare `name` — fatal for this name, surfaced with it, and nothing
    /// is recorded.
    pub fn create_uniform(&mut self, name: String, location: i32) -> (r: Result<
        UniformHandle,
        UniformError,
    >)
        ensures
            final(self).program_id() == old(self).program_id(),
            final(self).stages() == old(self).stages(),
            old(self).wf() && location >= 0 ==> final(self).wf(),
            location >= 0 ==> final(self).decls() == old(self).decls().push(
                (UniformHandle { name, location }),
            ) && (r matches Ok(h) && h.name@ == name@ && h.location == location),
            location < 0 ==> final(self).decls() == old(self).decls() && (r matches Err(e) && (e
                matches UniformError::Unresolved(m) && m@ == name@)),
    {
        if location < 0 {
            Err(UniformError::Unresolved(name))
        } else {
            let handle = UniformHandle { name, location };
            let out = handle.clone();
            self.uniforms.push(handle);
            proof {
                if old(self).wf() {
                    assert forall|k: int|
                        0 <= k < self.decls().len() implies (#[trigger] self.decls()[k]).wf() by {
                        if k < self.decls().len() - 1 {
                            assert(self.decls()[k] == old(self).decls()[k]);
                        }
                    }
                }
            }
            Ok(out)
        }
    }

    /// Resolves `name` among this program's recorded declarations. Exactly
    /// the declared names resolve, each to its recorded, non-negative
    /// location; an undeclared name is fatal and surfaced with the name.
    pub fn resolve(&self, name: &String) -> (r: Result<UniformHandle, UniformError>)
        requires
            self.wf(),
        ensures
            r is Ok <==> self.declares(name@),
            r matches Ok(h) ==> h.name@ == name@ && Some(h.location as int) == self.location_of(
                name@,
            ) && h.location >= 0,
            r matches Err(e) ==> e matches UniformError::Unresolved(m) && m@ == name@,
    {
        let n = self.uniforms.len();
        for i in 0..n
            invariant
                n == self.decls().len(),
                self.wf(),
                forall|k: int| 0 <= k < i ==> (#[trigger] self.decls()[k]).name@ != name@,
        {
            if self.uniforms[i].name == *name {
                proof {
                    lemma_lookup_first_match(self.decls(), name@, i as int);
                }
                return Ok(self.uniforms[i].clone());
            }
        }
        proof {
            lemma_lookup_none(self.decls(), name@);
        }
        Err(UniformError::Unresolved(name.clone()))
    }
}

} // verus!
