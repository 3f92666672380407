use vstd::prelude::*;

use crate::error::MaterialError;

verus! {

/// Slot of the uniform that carries the base colour.
pub const UNIFORM_SLOT: u32 = 0;

/// Slot of the colour texture, when the material has one.
pub const TEXTURE_SLOT: u32 = 1;

/// Slot of the sampler that reads the colour texture.
pub const SAMPLER_SLOT: u32 = 2;

/// What a binding slot holds.
#[derive(Clone, Copy, Debug, PartialEq, Eq, Structural)]
pub enum BindingKind {
    Uniform,
    Texture,
    Sampler,
}

/// One resource attached at a fixed index of the bind group.
#[derive(Clone, Copy, Debug, PartialEq, Eq, Structural)]
pub struct BindingSlot {
    pub index: u32,
    pub kind: BindingKind,
}

/// The bind-group layout of a material: the uniform always, the texture and
/// its sampler only when the material has a colour texture.
#[derive(Clone, Copy, Debug, PartialEq, Eq, Structural)]
pub struct BindGroupLayout {
    pub uniform_slot: u32,
    pub texture_slot: Option<u32>,
    pub sampler_slot: Option<u32>,
}

/// The layout that a material with or without a colour texture owes.
pub open spec fn layout_for(has_texture: bool) -> BindGroupLayout {
    if has_texture {
        BindGroupLayout {
            uniform_slot: UNIFORM_SLOT,
            texture_slot: Some(TEXTURE_SLOT),
            sampler_slot: Some(SAMPLER_SLOT),
        }
    } else {
        BindGroupLayout { uniform_slot: UNIFORM_SLOT, texture_slot: None, sampler_slot: None }
    }
}

impl BindGroupLayout {
    /// The slots of the layout, uniform first, then texture, then sampler.
    pub open spec fn spec_entries(self) -> Seq<BindingSlot> {
        seq![BindingSlot { index: self.uniform_slot, kind: BindingKind::Uniform }] + match self.texture_slot {
            Some(i) => seq![BindingSlot { index: i, kind: BindingKind::Texture }],
            None => Seq::empty(),
        } + match self.sampler_slot {
            Some(i) => seq![BindingSlot { index: i, kind: BindingKind::Sampler }],
            None => Seq::empty(),
        }
    }

    /// Builds the layout for a material with or without a colour texture.
    pub fn for_texture(has_texture: bool) -> (r: BindGroupLayout)
        ensures
            r == layout_for(has_texture),
    {
        if has_texture {
            BindGroupLayout {
                uniform_slot: UNIFORM_SLOT,
                texture_slot: Some(TEXTURE_SLOT),
                sampler_slot: Some(SAMPLER_SLOT),
            }
        } else {
            BindGroupLayout { uniform_slot: UNIFORM_SLOT, texture_slot: None, sampler_slot: None }
        }
    }

    /// The slots of the layout as a list, uniform first.
    pub fn entries(&self) -> (r: Vec<BindingSlot>)
        ensures
            r@ == self.spec_entries(),
    {
        let mut r: Vec<BindingSlot> = Vec::new();
        r.push(BindingSlot { index: self.uniform_slot, kind: BindingKind::Uniform });
        if let Some(i) = self.texture_slot {
            r.push(BindingSlot { index: i, kind: BindingKind::Texture });
        }
        if let Some(i) = self.sampler_slot {
            r.push(BindingSlot { index: i, kind: BindingKind::Sampler });
        }
        proof {
            assert(r@ =~= self.spec_entries());
        }
        r
    }

    /// Whether the layout has a slot equal to `slot`.
    pub fn contains(&self, slot: BindingSlot) -> (r: bool)
        ensures
            r == self.spec_entries().contains(slot),
    {
        slot_in(&self.entries(), slot)
    }

    /// Whether the bindings a shader declares are exactly the slots of this
    /// layout, each declared at least once and nothing else declared.
    pub open spec fn spec_matches(self, declared: Seq<BindingSlot>) -> bool {
        &&& forall|i: int| 0 <= i < declared.len() ==> self.spec_entries().contains(#[trigger] declared[i])
        &&& forall|j: int| 0 <= j < self.spec_entries().len() ==> declared.contains(#[trigger] self.spec_entries()[j])
    }

    /// Checks the bindings a shader declares against this layout: `Ok` when
    /// they agree slot for slot, `BindingLayoutMismatch` otherwise.
    pub fn check_declared(&self, declared: &Vec<BindingSlot>) -> (r: Result<(), MaterialError>)
        ensures
            r == (if self.spec_matches(declared@) {
                Ok(())
            } else {
                Err(MaterialError::BindingLayoutMismatch)
            }),
    {
        let mut i: usize = 0;
        while i < declared.len()
            invariant
                i <= declared@.len(),
                forall|k: int| 0 <= k < i ==> self.spec_entries().contains(#[trigger] declared@[k]),
            decreases declared@.len() - i,
        {
            if !self.contains(declared[i]) {
                return Err(MaterialError::BindingLayoutMismatch);
            }
            i = i + 1;
        }
        let es = self.entries();
        let mut j: usize = 0;
        while j < es.len()
            invariant
                es@ == self.spec_entries(),
                j <= es@.len(),
                forall|i: int| 0 <= i < declared@.len() ==> self.spec_entries().contains(#[trigger] declared@[i]),
                forall|k: int| 0 <= k < j ==> declared@.contains(#[trigger] es@[k]),
            decreases es@.len() - j,
        {
            if !slot_in(declared, es[j]) {
                return Err(MaterialError::BindingLayoutMismatch);
            }
            j = j + 1;
        }
        Ok(())
    }
}

/// Whether `slot` occurs in `v`.
fn slot_in(v: &Vec<BindingSlot>, slot: BindingSlot) -> (r: bool)
    ensures
        r == v@.contains(slot),
{
    let mut i: usize = 0;
    while i < v.len()
        invariant
            i <= v@.len(),
            forall|j: int| 0 <= j < i ==> v@[j] != slot,
        decreases v@.len() - i,
    {
        if v[i] == slot {
            return true;
        }
        i = i + 1;
    }
    false
}

} // verus!
