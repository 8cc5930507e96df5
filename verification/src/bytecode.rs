//! Bytecode, as far as a function target reads it.
use std::collections::BTreeMap;
use vstd::prelude::*;

verus! {

/// The index of an instruction in the code of a function.
pub type CodeOffset = u16;

/// The index of a local.
pub type TempIndex = usize;

/// The attribute of an instruction: the key of its location and of its comments.
#[derive(Debug, Clone, Copy, PartialEq, Eq, Structural)]
pub struct AttrId(pub usize);

impl AttrId {
    pub fn as_usize(&self) -> (r: usize)
        ensures
            r == self.0,
    {
        self.0
    }
}

/// The target of jumps.
#[derive(Debug, Clone, Copy, PartialEq, Eq, Structural)]
pub struct Label(pub usize);

impl Label {
    pub fn as_usize(&self) -> (r: usize)
        ensures
            r == self.0,
    {
        self.0
    }
}

/// An operation, by its number with whoever knows how to print it.
#[derive(Debug, Clone, Copy, PartialEq, Eq, Structural)]
pub struct OperationId(pub usize);

/// An instruction.
#[derive(Debug, Clone, Copy, PartialEq, Eq, Structural)]
pub enum Bytecode {
    /// The place that a label stands for.
    Label(AttrId, Label),
    /// Any other instruction.
    Operation(AttrId, OperationId),
}

/// `offset` as a code offset: the low bits of it.
pub open spec fn code_offset(offset: int) -> CodeOffset {
    (offset % 0x1_0000) as CodeOffset
}

/// The offset as a code offset; from 65536 on it wraps around.
pub fn to_code_offset(offset: usize) -> (r: CodeOffset)
    ensures
        r == code_offset(offset as int),
        offset < 0x1_0000 ==> r == offset,
{
    (offset % 0x1_0000) as CodeOffset
}

/// For each label in `code`, where it stands (where it does so last, if more than once).
pub open spec fn label_map(code: Seq<Bytecode>) -> Map<usize, CodeOffset>
    decreases code.len(),
{
    if code.len() == 0 {
        Map::empty()
    } else {
        let before = label_map(code.drop_last());
        match code.last() {
            Bytecode::Label(_, label) => before.insert(label.0, code_offset(code.len() - 1)),
            Bytecode::Operation(_, _) => before,
        }
    }
}

impl Bytecode {
    pub open spec fn attr_id(self) -> AttrId {
        match self {
            Bytecode::Label(attr_id, _) => attr_id,
            Bytecode::Operation(attr_id, _) => attr_id,
        }
    }

    /// The label whose place this instruction is.
    pub open spec fn label(self) -> Option<Label> {
        match self {
            Bytecode::Label(_, label) => Some(label),
            Bytecode::Operation(_, _) => None,
        }
    }

    /// Returns the attribute of this instruction.
    pub fn get_attr_id(&self) -> (r: AttrId)
        ensures
            r == self.attr_id(),
    {
        match self {
            Bytecode::Label(attr_id, _) => *attr_id,
            Bytecode::Operation(attr_id, _) => *attr_id,
        }
    }

    /// Returns the offsets of the labels in `code`, by the index of the label.
    pub fn label_offsets(code: &[Bytecode]) -> (r: BTreeMap<usize, CodeOffset>)
        ensures
            r@ == label_map(code@),
    {
        let mut offsets: BTreeMap<usize, CodeOffset> = BTreeMap::new();
        let mut i: usize = 0;
        assert(code@.take(0) =~= Seq::empty());
        while i < code.len()
            invariant
                i <= code@.len(),
                offsets@ == label_map(code@.take(i as int)),
            decreases code.len() - i,
        {
            assert(code@.take(i + 1).drop_last() =~= code@.take(i as int));
            match &code[i] {
                Bytecode::Label(_, label) => {
                    offsets.insert(label.as_usize(), to_code_offset(i));
                },
                Bytecode::Operation(_, _) => {},
            }
            i += 1;
        }
        assert(code@.take(i as int) =~= code@);
        offsets
    }
}

/// A label is mapped to the last place where it stands.
pub proof fn lemma_label_at(code: Seq<Bytecode>, i: int, label: Label)
    requires
        0 <= i < code.len(),
        code[i].label() == Some(label),
        forall|j: int| i < j < code.len() ==> (#[trigger] code[j]).label() != Some(label),
    ensures
        label_map(code).contains_key(label.0),
        label_map(code)[label.0] == code_offset(i),
    decreases code.len(),
{
    if i < code.len() - 1 {
        assert(code[code.len() - 1].label() != Some(label));
        lemma_label_at(code.drop_last(), i, label);
    }
}

/// A label that stands nowhere is not mapped.
pub proof fn lemma_label_absent(code: Seq<Bytecode>, label: Label)
    requires
        forall|j: int| 0 <= j < code.len() ==> (#[trigger] code[j]).label() != Some(label),
    ensures
        !label_map(code).contains_key(label.0),
    decreases code.len(),
{
    if code.len() > 0 {
        assert(code[code.len() - 1].label() != Some(label));
        lemma_label_absent(code.drop_last(), label);
    }
}

} // verus!
