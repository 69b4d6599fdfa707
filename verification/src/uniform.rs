//! Resolved uniform handles and the per-frame write plan.
//!
//! A [`UniformHandle`] pairs a uniform's name with the non-negative location
//! the linked program reported for it. A [`UniformWrite`] is one entry of the
//! plan a frame produces: the location to write and the value (as component
//! bit patterns) to place there. The unverified boundary executes the plan
//! against the graphics pipeline in order.

use vstd::prelude::*;

verus! {

/// A resolved uniform: the declared name and its storage location within the
/// linked program. A handle is only ever produced with a non-negative
/// location; a negative report from the driver is surfaced as an error
/// instead (see [`UniformError`]).
#[derive(Debug)]
pub struct UniformHandle {
    pub name: String,
    pub location: i32,
}

impl Clone for UniformHandle {
    /// The copy carries the same name and location.
    fn clone(&self) -> (r: Self)
        ensures
            r.name@ == self.name@,
            r.location == self.location,
    {
        UniformHandle { name: self.name.clone(), location: self.location }
    }
}

impl UniformHandle {
    /// A valid handle carries a non-negative location.
    pub open spec fn wf(&self) -> bool {
        self.location >= 0
    }
}

/// The one failure of uniform setup: a name the program does not declare
/// (the driver reported a negative location, or the name was never recorded).
/// The offending name is carried so setup can abort loudly with it.
#[derive(Debug)]
pub enum UniformError {
    Unresolved(String),
}

impl UniformError {
    /// The name that failed to resolve.
    pub fn name(&self) -> (n: &String)
        ensures
            self matches UniformError::Unresolved(m) && n == m,
    {
        match self {
            UniformError::Unresolved(n) => n,
        }
    }
}

/// A value bound for a uniform slot, held as IEEE-754 bit patterns.
#[derive(Clone, Copy, Debug, PartialEq, Eq, Structural)]
pub enum UniformValue {
    /// One scalar component.
    Scalar(u32),
    /// Three vector components, in x, y, z order.
    Vector(u32, u32, u32),
}

/// One entry of a frame's write plan: place `value` at `location`.
#[derive(Clone, Copy, Debug, PartialEq, Eq, Structural)]
pub struct UniformWrite {
    pub location: i32,
    pub value: UniformValue,
}

/// The locations a write plan touches, in plan order.
pub open spec fn write_locations(s: Seq<UniformWrite>) -> Seq<int> {
    s.map(|_i: int, w: UniformWrite| w.location as int)
}

/// The location the first entry named `n` carries, if any.
pub open spec fn lookup_location(s: Seq<UniformHandle>, n: Seq<char>) -> Option<int>
    decreases s.len(),
{
    if s.len() == 0 {
        None
    } else if s[0].name@ == n {
        Some(s[0].location as int)
    } else {
        lookup_location(s.skip(1), n)
    }
}

/// Whether some entry of `s` is named `n`.
pub open spec fn contains_name(s: Seq<UniformHandle>, n: Seq<char>) -> bool {
    exists|k: int| 0 <= k < s.len() && s[k].name@ == n
}

/// A lookup on declarations whose prefix holds no entry named `n` lands on
/// the first match `i`.
pub proof fn lemma_lookup_first_match(s: Seq<UniformHandle>, n: Seq<char>, i: int)
    requires
        0 <= i < s.len(),
        forall|k: int| 0 <= k < i ==> s[k].name@ != n,
        s[i].name@ == n,
    ensures
        lookup_location(s, n) == Some(s[i].location as int),
    decreases i,
{
    if i > 0 {
        let t = s.skip(1);
        assert(forall|k: int| 0 <= k < i - 1 ==> t[k].name@ != n);
        lemma_lookup_first_match(t, n, i - 1);
    }
}

/// A lookup among declarations none of which is named `n` finds nothing.
pub proof fn lemma_lookup_none(s: Seq<UniformHandle>, n: Seq<char>)
    requires
        forall|k: int| 0 <= k < s.len() ==> s[k].name@ != n,
    ensures
        lookup_location(s, n) is None,
    decreases s.len(),
{
    if s.len() > 0 {
        let t = s.skip(1);
        assert(forall|k: int| 0 <= k < t.len() ==> t[k].name@ != n);
        lemma_lookup_none(t, n);
    }
}

} // verus!
