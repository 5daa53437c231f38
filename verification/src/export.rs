//! The export boundary: opaque shader handles and the registry behind
//! them.
//!
//! A loaded shader module hands the host a shader it knows nothing
//! about. The host keeps every such shader in a process-local registry
//! and works with an opaque handle alone, so a handle and the instance
//! it names can never be paired with a mismatched counterpart; a handle
//! is valid exactly when it names a slot of the registry that issued it.
//! Slots are never reused while the registry lives, and `teardown`
//! retires them all at once.

use vstd::prelude::*;

use crate::color::{Color, ColorModel};
use crate::fragment::{FragModel, Fragment};
use crate::point::Point;
use crate::shader::{spec_shade, Shader, ShaderModel, ShaderState};

verus! {

/// The models of a sequence of sample points.
pub open spec fn frags_view(fs: Seq<Fragment>) -> Seq<FragModel> {
    Seq::new(fs.len(), |i: int| fs[i]@)
}

/// State and colors after shading one shader at each sample point in
/// turn, threading seeds and caches from call to call.
pub open spec fn shade_seq(m: ShaderModel, s: ShaderState, fs: Seq<FragModel>) -> (ShaderState,
    Seq<ColorModel>)
    decreases fs.len(),
{
    if fs.len() == 0 {
        (s, Seq::empty())
    } else {
        let (s1, cs) = shade_seq(m, s, fs.drop_last());
        let (s2, c) = spec_shade(m, s1, fs.last());
        (s2, cs.push(c))
    }
}

/// An opaque handle to an installed shader: the pairing of a registry
/// slot with the instance it holds.
#[derive(Clone, Copy, Debug, PartialEq, Eq, Structural)]
pub struct ShaderExport {
    pub handle: usize,
}

/// The host-side store of installed shaders.
///
/// Installed shaders stay for the registry's whole life — the handle out
/// among callers is the reason a slot is never dropped or reused — so
/// the slot index alone identifies an instance.
pub struct ShaderRegistry {
    pub slots: Vec<Shader>,
}

impl ShaderRegistry {
    /// An empty registry.
    pub fn new() -> (r: ShaderRegistry)
        ensures
            r.slots@.len() == 0,
    {
        ShaderRegistry { slots: Vec::new() }
    }

    /// Installs a shader and returns its handle.
    pub fn install(&mut self, shader: Shader) -> (h: ShaderExport)
        requires
            shader.wf(),
        ensures
            final (self).slots@ == old(self).slots@.push(shader),
            h.handle == old(self).slots@.len(),
    {
        let h = ShaderExport { handle: self.slots.len() };
        self.slots.push(shader);
        h
    }

    /// Shades the installed shader a handle names at one sample point.
    pub fn shade(&mut self, h: &ShaderExport, frag: &Fragment) -> (c: Color)
        requires
            h.handle < old(self).slots@.len(),
            old(self).slots@[h.handle as int].wf(),
            frag.wf(),
        ensures
            final (self).slots@.len() == old(self).slots@.len(),
            forall|i: int|
                0 <= i < old(self).slots@.len() && i != h.handle ==> final (self).slots@[i] == old(
                    self,
                ).slots@[i],
            final (self).slots@[h.handle as int].wf(),
            final (self).slots@[h.handle as int].structure() == old(self).slots@[
                h.handle as int].structure(),
            ({
                let (s2, cm) = spec_shade(
                    old(self).slots@[h.handle as int].structure(),
                    old(self).slots@[h.handle as int].state(),
                    frag@,
                );
                final (self).slots@[h.handle as int].state() == s2 && c@ == cm
            }),
    {
        let shader = &mut self.slots[h.handle];
        shader.shade(frag)
    }

    /// Shades the installed shader at every sample point in order,
    /// threading its seeds and caches from one point to the next.
    pub fn shade_all(&mut self, h: &ShaderExport, frags: &Vec<Fragment>) -> (cs: Vec<Color>)
        requires
            h.handle < old(self).slots@.len(),
            old(self).slots@[h.handle as int].wf(),
            forall|i: int| 0 <= i < frags@.len() ==> (#[trigger] frags@[i]).wf(),
        ensures
            final (self).slots@.len() == old(self).slots@.len(),
            forall|i: int|
                0 <= i < old(self).slots@.len() && i != h.handle ==> final (self).slots@[i] == old(
                    self,
                ).slots@[i],
            final (self).slots@[h.handle as int].wf(),
            final (self).slots@[h.handle as int].structure() == old(self).slots@[
                h.handle as int].structure(),
            ({
                let (s2, cms) = shade_seq(
                    old(self).slots@[h.handle as int].structure(),
                    old(self).slots@[h.handle as int].state(),
                    frags_view(frags@),
                );
                &&& final (self).slots@[h.handle as int].state() == s2
                &&& cs@.len() == cms.len()
                &&& forall|i: int| 0 <= i < cms.len() ==> (#[trigger] cs@[i])@ == cms[i]
            }),
    {
        let ghost m = self.slots@[h.handle as int].structure();
        let ghost s0 = self.slots@[h.handle as int].state();
        let mut cs: Vec<Color> = Vec::new();
        let mut i: usize = 0;
        while i < frags.len()
            invariant
                i <= frags@.len(),
                h.handle < self.slots@.len(),
                self.slots@.len() == old(self).slots@.len(),
                forall|j: int|
                    0 <= j < old(self).slots@.len() && j != h.handle ==> self.slots@[j] == old(
                        self,
                    ).slots@[j],
                forall|j: int| 0 <= j < frags@.len() ==> (#[trigger] frags@[j]).wf(),
                self.slots@[h.handle as int].wf(),
                self.slots@[h.handle as int].structure() == m,
                m == old(self).slots@[h.handle as int].structure(),
                s0 == old(self).slots@[h.handle as int].state(),
                ({
                    let (s2, cms) = shade_seq(m, s0, frags_view(frags@).take(i as int));
                    &&& self.slots@[h.handle as int].state() == s2
                    &&& cs@.len() == cms.len()
                    &&& forall|j: int| 0 <= j < cms.len() ==> (#[trigger] cs@[j])@ == cms[j]
                }),
            decreases frags@.len() - i,
        {
            let c = self.shade(h, &frags[i]);
            cs.push(c);
            i = i + 1;
            proof {
                let fv = frags_view(frags@);
                assert(fv.take(i as int).drop_last() =~= fv.take(i as int - 1));
                assert(fv.take(i as int).last() == frags@[i as int - 1]@);
            }
        }
        proof {
            assert(frags_view(frags@).take(frags@.len() as int) =~= frags_view(frags@));
        }
        cs
    }

    /// Retires every installed shader at once.
    pub fn teardown(&mut self)
        ensures
            final (self).slots@.len() == 0,
    {
        self.slots.clear();
    }
}

/// The export bundle a loaded shader module hands the host: the shader
/// itself and the emitter positions the scene should show.
pub struct VisualizationExports {
    pub shader: Shader,
    pub points: Vec<Point>,
}

impl VisualizationExports {
    /// A bundle from a shader and its emitter positions.
    pub fn new(shader: Shader, points: Vec<Point>) -> (e: VisualizationExports)
        requires
            shader.wf(),
        ensures
            e.shader == shader,
            e.points@ == points@,
            e.shader.wf(),
    {
        VisualizationExports { shader, points }
    }
}

} // verus!
