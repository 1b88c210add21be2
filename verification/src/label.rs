use vstd::prelude::*;

verus! {

/// Relocation types for label back-patching.
#[derive(Debug, Clone, Copy, PartialEq, Eq, Structural)]
pub enum RelocKind {
    /// x86-64 RIP-relative 32-bit displacement.
    Rel32,
}

/// A forward reference to a label: where a branch was emitted, to be
/// patched once the label's address is known.
#[derive(Debug, Clone, Copy, PartialEq, Eq, Structural)]
pub struct LabelUse {
    /// Offset in the code buffer of the displacement field.
    pub offset: usize,
    /// Type of relocation needed.
    pub kind: RelocKind,
}

/// A branch target label within a translation block.
#[derive(Debug, Clone)]
pub struct Label {
    pub id: u32,
    /// Whether this label has been placed.
    pub present: bool,
    /// Whether the target address is known.
    pub has_value: bool,
    /// Resolved offset in the host code buffer.
    pub value: usize,
    /// Forward references waiting to be patched.
    pub uses: Vec<LabelUse>,
}

impl Label {
    pub fn new(id: u32) -> (l: Self)
        ensures
            l.id == id,
            !l.present,
            !l.has_value,
            l.value == 0,
            l.uses@ == Seq::<LabelUse>::empty(),
    {
        Label { id, present: false, has_value: false, value: 0, uses: Vec::new() }
    }

    /// Record a forward reference to this label.
    pub fn add_use(&mut self, offset: usize, kind: RelocKind)
        ensures
            final(self).uses@ == old(self).uses@.push(LabelUse { offset, kind }),
            final(self).id == old(self).id,
            final(self).present == old(self).present,
            final(self).has_value == old(self).has_value,
            final(self).value == old(self).value,
    {
        self.uses.push(LabelUse { offset, kind });
    }

    /// Mark this label as placed at the given code buffer offset.
    pub fn set_value(&mut self, offset: usize)
        ensures
            final(self).present,
            final(self).has_value,
            final(self).value == offset,
            final(self).id == old(self).id,
            final(self).uses@ == old(self).uses@,
    {
        self.present = true;
        self.has_value = true;
        self.value = offset;
    }

    /// Whether there are unresolved forward references.
    pub fn has_pending_uses(&self) -> (r: bool)
        ensures
            r == (self.uses@.len() > 0 && !self.has_value),
    {
        !self.uses.is_empty() && !self.has_value
    }
}

/// A label that has been given a value has no pending uses, whatever uses
/// it recorded.
pub proof fn lemma_resolved_label_not_pending(l: Label)
    requires
        l.has_value,
    ensures
        !(l.uses@.len() > 0 && !l.has_value),
{
}

} // verus!
