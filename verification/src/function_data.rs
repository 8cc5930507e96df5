//! The owned data of a function target.
use crate::annotations::Annotations;
use crate::bytecode::{Bytecode, Label, TempIndex};
use crate::model::{Exp, FunctionEnv, Loc, StructId, StructKey, Symbol, SymbolKey, Type};
use std::collections::BTreeMap;
use vstd::prelude::*;

verus! {

/// The variants in which the data of one function exists.
#[derive(Debug, Clone, Copy, PartialEq, Eq, Structural)]
pub enum FunctionVariant {
    /// The variant that is made from the source.
    Baseline,
    /// A variant that a transformation works on, by its number.
    Derived(usize),
}

/// Holds the owned data belonging to a function target.
#[derive(Debug)]
pub struct FunctionData {
    /// The function variant.
    pub variant: FunctionVariant,
    /// The bytecode.
    pub code: Vec<Bytecode>,
    /// The locals, including parameters.
    pub local_types: Vec<Type>,
    /// The return types.
    pub return_types: Vec<Type>,
    /// The set of global resources acquired by this function.
    pub acquires_global_resources: Vec<StructId>,
    /// A map from byte code attribute to source code location.
    pub locations: BTreeMap<usize, Loc>,
    /// A map from byte code attribute to comments associated with this bytecode. These comments are
    /// generated by transformations and are intended for internal debugging when the bytecode is
    /// dumped.
    pub debug_comments: BTreeMap<usize, String>,
    /// A map from byte code attribute to a message to be printed out if verification fails at this
    /// bytecode.
    pub vc_infos: BTreeMap<usize, String>,
    /// Annotations associated with this function.
    pub annotations: Annotations,
    /// A mapping from symbolic names, by their keys, to temporaries.
    pub name_to_index: BTreeMap<SymbolKey, usize>,
    /// A cache of targets modified by this function.
    pub modify_targets: BTreeMap<StructKey, Vec<Exp>>,
}

/// Data under construction, with the next attribute to give to an instruction.
pub struct FunctionDataBuilder<'a> {
    pub data: &'a mut FunctionData,
    pub next_attr_index: usize,
}

/// For each name, the index at which it stands (the last one, if it stands at several).
pub open spec fn name_map(names: Seq<Symbol>) -> Map<SymbolKey, usize>
    decreases names.len(),
{
    if names.len() == 0 {
        Map::empty()
    } else {
        name_map(names.drop_last()).insert(names.last().spec_key(), (names.len() - 1) as usize)
    }
}

/// Whether `next` is one more than the greatest attribute in `code`, or one if there is none.
pub open spec fn is_next_attr(code: Seq<Bytecode>, next: usize) -> bool {
    &&& next >= 1
    &&& forall|i: int| 0 <= i < code.len() ==> (#[trigger] code[i]).attr_id().0 < next
    &&& next == 1 || exists|i: int|
        0 <= i < code.len() && (#[trigger] code[i]).attr_id().0 == next - 1
}

/// Whether `next` is one more than the greatest label in `code`, or one if there is none.
pub open spec fn is_next_label(code: Seq<Bytecode>, next: usize) -> bool {
    &&& next >= 1
    &&& forall|i: int|
        0 <= i < code.len() ==> match (#[trigger] code[i]).label() {
            Some(label) => label.0 < next,
            None => true,
        }
    &&& next == 1 || exists|i: int|
        0 <= i < code.len() && (#[trigger] code[i]).label() == Some(Label((next - 1) as usize))
}

impl FunctionData {
    /// Equal up to variant and annotations.
    pub open spec fn same_function(self, other: FunctionData) -> bool {
        &&& self.code@ == other.code@
        &&& self.local_types@ == other.local_types@
        &&& self.return_types@ == other.return_types@
        &&& self.acquires_global_resources@ == other.acquires_global_resources@
        &&& self.locations@ == other.locations@
        &&& self.debug_comments@ == other.debug_comments@
        &&& self.vc_infos@ == other.vc_infos@
        &&& self.name_to_index@ == other.name_to_index@
        &&& self.modify_targets@ == other.modify_targets@
    }

    /// Creates new function target data.
    pub fn new(
        func_env: &FunctionEnv<'_>,
        code: Vec<Bytecode>,
        local_types: Vec<Type>,
        return_types: Vec<Type>,
        locations: BTreeMap<usize, Loc>,
        acquires_global_resources: Vec<StructId>,
    ) -> (r: Self)
        ensures
            r.variant == FunctionVariant::Baseline,
            r.code == code,
            r.local_types == local_types,
            r.return_types == return_types,
            r.acquires_global_resources == acquires_global_resources,
            r.locations == locations,
            r.debug_comments@ == Map::<usize, String>::empty(),
            r.vc_infos@ == Map::<usize, String>::empty(),
            r.annotations.texts@ == Map::<(u8, u16), String>::empty(),
            r.name_to_index@ == name_map(func_env.user_names()),
            r.modify_targets@ == func_env.modify_targets@,
    {
        let mut name_to_index: BTreeMap<SymbolKey, usize> = BTreeMap::new();
        let ghost names = func_env.user_names();
        let count: usize = func_env.get_local_count();
        let mut idx: usize = 0;
        assert(names.take(0) =~= Seq::empty());
        while idx < count
            invariant
                idx <= count == func_env.locals@.len(),
                names == func_env.user_names(),
                name_to_index@ == name_map(names.take(idx as int)),
            decreases count - idx,
        {
            assert(names.take(idx + 1).drop_last() =~= names.take(idx as int));
            name_to_index.insert(func_env.get_local_name(idx).key(), idx);
            idx += 1;
        }
        assert(names.take(idx as int) =~= names);
        FunctionData {
            variant: FunctionVariant::Baseline,
            code,
            local_types,
            return_types,
            acquires_global_resources,
            locations,
            debug_comments: BTreeMap::new(),
            vc_infos: BTreeMap::new(),
            annotations: Annotations::default(),
            name_to_index,
            modify_targets: func_env.modify_targets.clone(),
        }
    }

    /// Computes the next available index for an attribute: one more than the greatest in use, or one
    /// if none is in use.
    pub fn next_free_attr_index(&self) -> (r: usize)
        requires
            forall|i: int|
                0 <= i < self.code@.len() ==> (#[trigger] self.code@[i]).attr_id().0 < usize::MAX,
        ensures
            is_next_attr(self.code@, r),
    {
        let mut max: usize = 0;
        let mut i: usize = 0;
        while i < self.code.len()
            invariant
                i <= self.code@.len(),
                max < usize::MAX,
                forall|j: int|
                    0 <= j < self.code@.len() ==> (#[trigger] self.code@[j]).attr_id().0
                        < usize::MAX,
                forall|j: int| 0 <= j < i ==> (#[trigger] self.code@[j]).attr_id().0 <= max,
                max == 0 || exists|j: int|
                    0 <= j < i && (#[trigger] self.code@[j]).attr_id().0 == max,
            decreases self.code.len() - i,
        {
            let attr: usize = self.code[i].get_attr_id().as_usize();
            if attr > max {
                max = attr;
            }
            i += 1;
        }
        max + 1
    }

    /// Computes the next available index for a label: one more than the greatest in use, or one if
    /// none is in use.
    pub fn next_free_label_index(&self) -> (r: usize)
        requires
            forall|i: int|
                0 <= i < self.code@.len() ==> (#[trigger] self.code@[i]).label() != Some(
                    Label(usize::MAX),
                ),
        ensures
            is_next_label(self.code@, r),
    {
        let mut max: usize = 0;
        let mut i: usize = 0;
        while i < self.code.len()
            invariant
                i <= self.code@.len(),
                max < usize::MAX,
                forall|j: int|
                    0 <= j < self.code@.len() ==> (#[trigger] self.code@[j]).label() != Some(
                        Label(usize::MAX),
                    ),
                forall|j: int|
                    0 <= j < i ==> match (#[trigger] self.code@[j]).label() {
                        Some(label) => label.0 <= max,
                        None => true,
                    },
                max == 0 || exists|j: int|
                    0 <= j < i && (#[trigger] self.code@[j]).label() == Some(Label(max)),
            decreases self.code.len() - i,
        {
            let ghost found = self.code@[i as int].label();
            match &self.code[i] {
                Bytecode::Label(_, label) => {
                    if label.as_usize() > max {
                        assert(found == Some(*label));
                        max = label.as_usize();
                    }
                },
                Bytecode::Operation(_, _) => {},
            }
            i += 1;
        }
        max + 1
    }

    /// Applies a variable renaming to this data. The data holds nothing that a renaming changes.
    pub fn rename_vars<F>(&mut self, _f: &F) where F: Fn(TempIndex) -> TempIndex
        ensures
            *final(self) == *old(self),
    {
    }

    /// Forks this function data, without annotations, and marks it as the given variant.
    pub fn fork(&self, new_variant: FunctionVariant) -> (r: Self)
        requires
            self.variant != new_variant,
        ensures
            r.variant == new_variant,
            r.same_function(*self),
            r.annotations.texts@ == Map::<(u8, u16), String>::empty(),
    {
        FunctionData {
            variant: new_variant,
            annotations: Annotations::default(),
            ..self.clone()
        }
    }
}

impl Clone for FunctionData {
    fn clone(&self) -> (r: Self)
        ensures
            r.variant == self.variant,
            r.same_function(*self),
            r.annotations.texts@ == self.annotations.texts@,
    {
        let r = FunctionData {
            variant: self.variant,
            code: self.code.clone(),
            local_types: self.local_types.clone(),
            return_types: self.return_types.clone(),
            acquires_global_resources: self.acquires_global_resources.clone(),
            locations: self.locations.clone(),
            debug_comments: self.debug_comments.clone(),
            vc_infos: self.vc_infos.clone(),
            annotations: self.annotations.clone(),
            name_to_index: self.name_to_index.clone(),
            modify_targets: self.modify_targets.clone(),
        };
        assert(r.code@ =~= self.code@);
        assert(r.local_types@ =~= self.local_types@);
        assert(r.return_types@ =~= self.return_types@);
        assert(r.acquires_global_resources@ =~= self.acquires_global_resources@);
        r
    }
}

} // verus!
