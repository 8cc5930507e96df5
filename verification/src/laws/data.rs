//! What the functions on the data of a target return.
use crate::bytecode::{Bytecode, CodeOffset, Label, TempIndex};
use crate::function_data::{is_next_attr, is_next_label, FunctionData, FunctionVariant};
use crate::laws::{law_last_name_counts, law_other_names_unmapped};
use crate::model::{FunctionEnv, Loc, StructId, Symbol, SymbolKey, Type};
use std::collections::BTreeMap;
use vstd::prelude::*;

verus! {

/// New data holds what it is given, is the baseline, has the modify targets of its function, and
/// nothing else.
pub proof fn law_new_data(
    func_env: &FunctionEnv<'_>,
    code: Vec<Bytecode>,
    local_types: Vec<Type>,
    return_types: Vec<Type>,
    locations: BTreeMap<usize, Loc>,
    acquires: Vec<StructId>,
    r: FunctionData,
)
    requires
        call_ensures(
            FunctionData::new,
            (func_env, code, local_types, return_types, locations, acquires),
            r,
        ),
    ensures
        r.variant == FunctionVariant::Baseline,
        r.code@ == code@,
        r.local_types@ == local_types@,
        r.return_types@ == return_types@,
        r.locations@ == locations@,
        r.acquires_global_resources@ == acquires@,
        r.modify_targets@ == func_env.modify_targets@,
        forall|attr: usize| !(#[trigger] r.debug_comments@.contains_key(attr)),
        forall|attr: usize| !(#[trigger] r.vc_infos@.contains_key(attr)),
        forall|key: (u8, CodeOffset)| !(#[trigger] r.annotations.texts@.contains_key(key)),
{
}

/// New data maps each name of a local of the source to the last local with that name, and no other
/// name.
pub proof fn law_new_data_names(
    func_env: &FunctionEnv<'_>,
    code: Vec<Bytecode>,
    local_types: Vec<Type>,
    return_types: Vec<Type>,
    locations: BTreeMap<usize, Loc>,
    acquires: Vec<StructId>,
    r: FunctionData,
    name: Symbol,
    key: SymbolKey,
)
    requires
        call_ensures(
            FunctionData::new,
            (func_env, code, local_types, return_types, locations, acquires),
            r,
        ),
        call_ensures(Symbol::key, (&name,), key),
    ensures
        forall|i: int|
            0 <= i < func_env.locals@.len() && name == Symbol::Interned(
                (#[trigger] func_env.locals@[i]).name,
            ) && (forall|j: int|
                i < j < func_env.locals@.len() ==> (#[trigger] func_env.locals@[j]).name
                    != func_env.locals@[i].name) ==> r.name_to_index@.contains_key(key)
                && r.name_to_index@[key] == i,
        (forall|i: int|
            0 <= i < func_env.locals@.len() ==> name != Symbol::Interned(
                (#[trigger] func_env.locals@[i]).name,
            )) ==> !r.name_to_index@.contains_key(key),
{
    let names = func_env.user_names();
    assert(names.len() == func_env.locals.len());
    assert forall|i: int|
        0 <= i < func_env.locals@.len() && name == Symbol::Interned(
            (#[trigger] func_env.locals@[i]).name,
        ) && (forall|j: int|
            i < j < func_env.locals@.len() ==> (#[trigger] func_env.locals@[j]).name
                != func_env.locals@[i].name) implies r.name_to_index@.contains_key(key)
        && r.name_to_index@[key] == i by {
        assert(names[i] == name);
        assert forall|j: int| i < j < names.len() implies names[j] != names[i] by {
            assert(func_env.locals@[j].name != func_env.locals@[i].name);
        }
        law_last_name_counts(names, i);
    }
    if forall|i: int|
        0 <= i < func_env.locals@.len() ==> name != Symbol::Interned(
            (#[trigger] func_env.locals@[i]).name,
        ) {
        assert forall|i: int| 0 <= i < names.len() implies names[i] != name by {
            assert(name != Symbol::Interned(func_env.locals@[i].name));
        }
        law_other_names_unmapped(names, name);
    }
}

/// The next free attribute is greater than that of any instruction, whatever its kind, and there is
/// no gap: it is one, or an instruction has the one before it.
pub proof fn law_next_free_attr(data: &FunctionData, r: usize)
    requires
        call_ensures(FunctionData::next_free_attr_index, (data,), r),
    ensures
        r >= 1,
        forall|i: int|
            0 <= i < data.code@.len() ==> match #[trigger] data.code@[i] {
                Bytecode::Label(attr, _) => attr.0 < r,
                Bytecode::Operation(attr, _) => attr.0 < r,
            },
        r > 1 ==> exists|i: int|
            0 <= i < data.code@.len() && match #[trigger] data.code@[i] {
                Bytecode::Label(attr, _) => attr.0 == r - 1,
                Bytecode::Operation(attr, _) => attr.0 == r - 1,
            },
        is_next_attr(data.code@, r),
{
    if r > 1 {
        let i = choose|i: int|
            0 <= i < data.code@.len() && (#[trigger] data.code@[i]).attr_id().0 == r - 1;
        assert(match data.code@[i] {
            Bytecode::Label(attr, _) => attr.0 == r - 1,
            Bytecode::Operation(attr, _) => attr.0 == r - 1,
        });
    }
}

/// The next free label is greater than any label that stands in the code, and there is no gap: it
/// is one, or the one before it stands in the code.
pub proof fn law_next_free_label(data: &FunctionData, r: usize)
    requires
        call_ensures(FunctionData::next_free_label_index, (data,), r),
    ensures
        r >= 1,
        forall|i: int|
            0 <= i < data.code@.len() ==> match #[trigger] data.code@[i] {
                Bytecode::Label(_, label) => label.0 < r,
                Bytecode::Operation(_, _) => true,
            },
        r > 1 ==> exists|i: int|
            0 <= i < data.code@.len() && match #[trigger] data.code@[i] {
                Bytecode::Label(_, label) => label.0 == r - 1,
                Bytecode::Operation(_, _) => false,
            },
        is_next_label(data.code@, r),
{
    assert forall|i: int| 0 <= i < data.code@.len() implies match #[trigger] data.code@[i] {
        Bytecode::Label(_, label) => label.0 < r,
        Bytecode::Operation(_, _) => true,
    } by {
        assert(match data.code@[i].label() {
            Some(label) => label.0 < r,
            None => true,
        });
    }
    if r > 1 {
        let i = choose|i: int|
            0 <= i < data.code@.len() && (#[trigger] data.code@[i]).label() == Some(
                Label((r - 1) as usize),
            );
        assert(match data.code@[i] {
            Bytecode::Label(_, label) => label.0 == r - 1,
            Bytecode::Operation(_, _) => false,
        });
    }
}

/// Equal up to variant and annotations means equal in everything else.
pub proof fn law_same_function(a: FunctionData, b: FunctionData)
    ensures
        a.same_function(b) <==> {
            &&& a.code@ == b.code@
            &&& a.local_types@ == b.local_types@
            &&& a.return_types@ == b.return_types@
            &&& a.acquires_global_resources@ == b.acquires_global_resources@
            &&& a.locations@ == b.locations@
            &&& a.debug_comments@ == b.debug_comments@
            &&& a.vc_infos@ == b.vc_infos@
            &&& a.name_to_index@ == b.name_to_index@
            &&& a.modify_targets@ == b.modify_targets@
        },
{
}

/// A fork has the asked for variant, no annotations, and all else of the data.
pub proof fn law_fork(data: &FunctionData, variant: FunctionVariant, r: FunctionData)
    requires
        call_ensures(FunctionData::fork, (data, variant), r),
    ensures
        r.variant == variant,
        r.code@ == data.code@,
        r.local_types@ == data.local_types@,
        r.return_types@ == data.return_types@,
        r.acquires_global_resources@ == data.acquires_global_resources@,
        r.locations@ == data.locations@,
        r.debug_comments@ == data.debug_comments@,
        r.vc_infos@ == data.vc_infos@,
        r.name_to_index@ == data.name_to_index@,
        r.modify_targets@ == data.modify_targets@,
        forall|key: (u8, CodeOffset)| !(#[trigger] r.annotations.texts@.contains_key(key)),
{
}

/// A clone has all of the data.
pub proof fn law_clone_data(data: &FunctionData, r: FunctionData)
    requires
        call_ensures(<FunctionData as Clone>::clone, (data,), r),
    ensures
        r.variant == data.variant,
        r.code@ == data.code@,
        r.local_types@ == data.local_types@,
        r.return_types@ == data.return_types@,
        r.acquires_global_resources@ == data.acquires_global_resources@,
        r.locations@ == data.locations@,
        r.debug_comments@ == data.debug_comments@,
        r.vc_infos@ == data.vc_infos@,
        r.annotations.texts@ == data.annotations.texts@,
        r.name_to_index@ == data.name_to_index@,
        r.modify_targets@ == data.modify_targets@,
{
}

/// A renaming of variables leaves the data as it is.
pub proof fn law_rename_vars<'a, F: Fn(TempIndex) -> TempIndex>(f: &F)
    ensures
        forall|data: &'a mut FunctionData| #[trigger]
            call_ensures(FunctionData::rename_vars::<F>, (data, f), ()) ==> *final(data) == *data,
{
}

} // verus!
