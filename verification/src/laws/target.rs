//! What the accessors of a target return.
use crate::annotations::{AnnotationFormatter, AnnotationKind, Annotations};
use crate::bytecode::{AttrId, Bytecode, TempIndex};
use crate::function_data::FunctionData;
use crate::function_target::{entry, mut_ref_count, temporary_digits, FunctionTarget};
use crate::laws::lemma_mut_ref_count_step;
use crate::laws::model::{law_pragma_value, law_unknown_pragma_value, stands_at};
use crate::model::{
    Exp, FunId, FunctionEnv, FunctionVisibility, GlobalEnv, Loc, ModuleEnv, QualifiedId, Spec,
    StructId, StructKey, Symbol, SymbolKey, SymbolPool, Type, TypeParameter,
};
use crate::text::parse_index;
use std::collections::BTreeMap;
use std::ops::Range;
use vstd::prelude::*;

verus! {

broadcast use vstd::string::group_string_axioms;

// ---------------------------------------------------------------------------------------------
// Making targets

/// A new target has the function and the data that it is made of, and no formatters.
pub proof fn law_new_target<'env>(
    func_env: &'env FunctionEnv<'env>,
    data: &'env FunctionData,
    r: FunctionTarget<'env>,
)
    requires
        call_ensures(FunctionTarget::new, (func_env, data), r),
    ensures
        r.func_env == func_env,
        r.data == data,
        r.annotation_formatters@ == Seq::<AnnotationFormatter>::empty(),
{
}

/// A clone is of the same function and data, and has no formatters, however many there were.
pub proof fn law_clone_target(target: &FunctionTarget<'_>, r: FunctionTarget<'_>)
    requires
        call_ensures(<FunctionTarget<'_> as Clone>::clone, (target,), r),
    ensures
        r.func_env == target.func_env,
        r.data == target.data,
        r.annotation_formatters@ == Seq::<AnnotationFormatter>::empty(),
{
}

/// A registered formatter comes behind all others; nothing else changes.
pub proof fn law_register<'a, 'env>(formatter: AnnotationFormatter)
    ensures
        forall|target: &'a mut FunctionTarget<'env>| #[trigger]
            call_ensures(
                FunctionTarget::register_annotation_formatter,
                (target, formatter),
                (),
            ) ==> {
                &&& final(target).func_env == target.func_env
                &&& final(target).data == target.data
                &&& final(target).annotation_formatters@.len() == target.annotation_formatters@.len()
                    + 1
                &&& final(target).annotation_formatters@.drop_last()
                    == target.annotation_formatters@
                &&& final(target).annotation_formatters@.last() == formatter
            },
{
    assert forall|target: &'a mut FunctionTarget<'env>| #[trigger]
        call_ensures(
            FunctionTarget::register_annotation_formatter,
            (target, formatter),
            (),
        ) implies {
        &&& final(target).func_env == target.func_env
        &&& final(target).data == target.data
        &&& final(target).annotation_formatters@.len() == target.annotation_formatters@.len() + 1
        &&& final(target).annotation_formatters@.drop_last() == target.annotation_formatters@
        &&& final(target).annotation_formatters@.last() == formatter
    } by {
        assert(final(target).annotation_formatters@.drop_last()
            =~= target.annotation_formatters@);
    }
}

/// The formatters for tests come behind all others, one for each kind, in this order; nothing else
/// changes.
pub proof fn law_register_for_test<'a, 'env>()
    ensures
        forall|target: &'a mut FunctionTarget<'env>| #[trigger]
            call_ensures(
                FunctionTarget::register_annotation_formatters_for_test,
                (target,),
                (),
            ) ==> {
                let n = target.annotation_formatters@.len() as int;
                let after = final(target).annotation_formatters@;
                &&& final(target).func_env == target.func_env
                &&& final(target).data == target.data
                &&& after.len() == n + 4
                &&& after.take(n) == target.annotation_formatters@
                &&& after[n].is_for_kind(AnnotationKind::LiveVar)
                &&& after[n + 1].is_for_kind(AnnotationKind::Borrow)
                &&& after[n + 2].is_for_kind(AnnotationKind::ReachingDef)
                &&& after[n + 3].is_for_kind(AnnotationKind::ReadWriteSet)
            },
{
}

// ---------------------------------------------------------------------------------------------
// What comes from the function

/// The target hands out what its function is.
pub proof fn law_function_accessors(target: &FunctionTarget<'_>)
    ensures
        forall|r: Symbol| #[trigger]
            call_ensures(FunctionTarget::get_name, (target,), r) ==> r == target.func_env.name,
        forall|r: FunId| #[trigger]
            call_ensures(FunctionTarget::get_id, (target,), r) ==> r == target.func_env.id,
        forall|r: Loc| #[trigger]
            call_ensures(FunctionTarget::get_loc, (target,), r) ==> r == target.func_env.loc,
        forall|r: bool| #[trigger]
            call_ensures(FunctionTarget::is_native, (target,), r) ==> r == target.func_env.native,
        forall|r: bool| #[trigger]
            call_ensures(FunctionTarget::is_intrinsic, (target,), r) ==> r
                == target.func_env.intrinsic,
        forall|r: bool| #[trigger]
            call_ensures(FunctionTarget::is_opaque, (target,), r) ==> r == target.func_env.opaque,
        forall|r: bool| #[trigger]
            call_ensures(FunctionTarget::is_public, (target,), r) ==> r == target.func_env.public,
        forall|r: FunctionVisibility| #[trigger]
            call_ensures(FunctionTarget::visibility, (target,), r) ==> r
                == target.func_env.visibility,
        forall|r: Vec<TypeParameter>| #[trigger]
            call_ensures(FunctionTarget::get_type_parameters, (target,), r) ==> r@
                == target.func_env.type_parameters@,
        forall|r: usize| #[trigger]
            call_ensures(FunctionTarget::get_user_local_count, (target,), r) ==> r
                == target.func_env.locals@.len(),
        forall|r: usize| #[trigger]
            call_ensures(FunctionTarget::get_parameter_count, (target,), r) ==> r
                == target.func_env.parameter_types@.len(),
{
}

/// The environments of the target are those of its function.
pub proof fn law_environment_accessors<'env>(
    target: &FunctionTarget<'env>,
    pool: &SymbolPool,
    module_env: &ModuleEnv<'env>,
    global_env: &GlobalEnv,
    spec: &'env Spec,
)
    requires
        call_ensures(FunctionTarget::symbol_pool, (target,), pool),
        call_ensures(FunctionTarget::module_env, (target,), module_env),
        call_ensures(FunctionTarget::global_env, (target,), global_env),
        call_ensures(FunctionTarget::get_spec, (target,), spec),
    ensures
        *module_env == target.func_env.module_env,
        *global_env == *module_env.env,
        *pool == global_env.symbol_pool,
        *spec == target.func_env.spec,
        target.func_env.pool() == *pool,
{
}

/// A function mutates references exactly when one of the parameters of the source is a mutable
/// reference.
pub proof fn law_target_mutating(target: &FunctionTarget<'_>, i: int, r: bool)
    requires
        call_ensures(FunctionTarget::is_mutating, (target,), r),
    ensures
        0 <= i < target.func_env.parameter_types@.len()
            && target.func_env.parameter_types@[i].mutable_reference ==> r,
        (forall|j: int|
            0 <= j < target.func_env.parameter_types@.len() ==> !(
            #[trigger] target.func_env.parameter_types@[j]).mutable_reference) ==> !r,
{
}

/// A pragma of the function itself counts, whatever the module says; one of the module counts where
/// the function has none; the default counts where neither has it.
pub proof fn law_target_pragmas<F: FnOnce() -> bool>(
    target: &FunctionTarget<'_>,
    name: &str,
    default: F,
    index: usize,
    r: bool,
)
    requires
        call_ensures(FunctionTarget::is_pragma_true, (target, name, default), r),
        stands_at(target.func_env.module_env.env.symbol_pool, name@, index),
    ensures
        ({
            let own = target.func_env.spec.pragmas@;
            let outer = target.func_env.module_env.spec.pragmas@;
            &&& own.contains_key(index) ==> r == own[index]
            &&& !own.contains_key(index) && outer.contains_key(index) ==> r == outer[index]
            &&& !own.contains_key(index) && !outer.contains_key(index) ==> call_ensures(
                default,
                (),
                r,
            )
        }),
{
    law_pragma_value(*target.func_env, name@, index);
}

/// A pragma with a name that the pool does not hold has the default.
pub proof fn law_target_unknown_pragma<F: FnOnce() -> bool>(
    target: &FunctionTarget<'_>,
    name: &str,
    default: F,
    r: bool,
)
    requires
        call_ensures(FunctionTarget::is_pragma_true, (target, name, default), r),
        forall|j: int|
            0 <= j < target.func_env.module_env.env.symbol_pool.strings@.len() ==> (
            #[trigger] target.func_env.module_env.env.symbol_pool.strings@[j])@ != name@,
    ensures
        call_ensures(default, (), r),
{
    law_unknown_pragma_value(*target.func_env, name@);
}

// ---------------------------------------------------------------------------------------------
// What comes from the data

/// The target hands out what its data holds.
pub proof fn law_data_accessors(target: &FunctionTarget<'_>, idx: usize)
    ensures
        forall|r: &[Bytecode]| #[trigger]
            call_ensures(FunctionTarget::get_bytecode, (target,), r) ==> r@ == target.data.code@,
        forall|r: &Annotations| #[trigger]
            call_ensures(FunctionTarget::get_annotations, (target,), r) ==> *r
                == target.data.annotations,
        forall|r: &[StructId]| #[trigger]
            call_ensures(FunctionTarget::get_acquires_global_resources, (target,), r) ==> r@
                == target.data.acquires_global_resources@,
        forall|r: &BTreeMap<StructKey, Vec<Exp>>| #[trigger]
            call_ensures(FunctionTarget::get_modify_targets, (target,), r) ==> *r
                == target.data.modify_targets,
        forall|r: &[Type]| #[trigger]
            call_ensures(FunctionTarget::get_return_types, (target,), r) ==> r@
                == target.data.return_types@,
        forall|r: usize| #[trigger]
            call_ensures(FunctionTarget::get_return_count, (target,), r) ==> r
                == target.data.return_types@.len(),
        forall|r: &Type| #[trigger]
            call_ensures(FunctionTarget::get_return_type, (target, idx), r) ==> *r
                == target.data.return_types@[idx as int],
        forall|r: usize| #[trigger]
            call_ensures(FunctionTarget::get_local_count, (target,), r) ==> r
                == target.data.local_types@.len(),
        forall|r: &Type| #[trigger]
            call_ensures(FunctionTarget::get_local_type, (target, idx), r) ==> *r
                == target.data.local_types@[idx as int],
{
}

/// The entry of a map is there exactly when the map has the key, and is then what it maps to.
pub proof fn law_entry<K, V>(map: Map<K, V>, key: K)
    ensures
        map.contains_key(key) ==> entry(map, key) == Some(map[key]),
        !map.contains_key(key) ==> entry(map, key) is None,
{
}

/// The location of an attribute is the one in the data, or the internal one, if there is none.
pub proof fn law_bytecode_loc(target: &FunctionTarget<'_>, attr: AttrId, r: Loc)
    requires
        call_ensures(FunctionTarget::get_bytecode_loc, (target, attr), r),
    ensures
        target.data.locations@.contains_key(attr.0) ==> r == target.data.locations@[attr.0],
        !target.data.locations@.contains_key(attr.0) ==> r
            == target.func_env.module_env.env.internal_loc,
{
}

/// An attribute has the debug comment and the message that the data has for it, and no other.
pub proof fn law_comments_and_messages(target: &FunctionTarget<'_>, attr: AttrId)
    ensures
        forall|r: Option<&String>| #[trigger]
            call_ensures(FunctionTarget::get_debug_comment, (target, attr), r) ==> match r {
                Some(s) => target.data.debug_comments@.contains_key(attr.0) && *s
                    == target.data.debug_comments@[attr.0],
                None => !target.data.debug_comments@.contains_key(attr.0),
            },
        forall|r: Option<&String>| #[trigger]
            call_ensures(FunctionTarget::get_vc_info, (target, attr), r) ==> match r {
                Some(s) => target.data.vc_infos@.contains_key(attr.0) && *s
                    == target.data.vc_infos@[attr.0],
                None => !target.data.vc_infos@.contains_key(attr.0),
            },
{
}

/// A struct has the modify targets that the data has for its module and its identifier.
pub proof fn law_modify_targets(
    target: &FunctionTarget<'_>,
    ty: &QualifiedId<StructId>,
    r: Option<&Vec<Exp>>,
)
    requires
        call_ensures(FunctionTarget::get_modify_targets_for_type, (target, ty), r),
    ensures
        match r {
            Some(targets) => target.data.modify_targets@.contains_key((ty.module_id.0, ty.id.0))
                && *targets == target.data.modify_targets@[(ty.module_id.0, ty.id.0)],
            None => !target.data.modify_targets@.contains_key((ty.module_id.0, ty.id.0)),
        },
{
}

// ---------------------------------------------------------------------------------------------
// Locals

/// The parameters come first among the locals, and the others follow up to the last.
pub proof fn law_ranges(target: &FunctionTarget<'_>, parameters: Range<usize>, others: Range<usize>)
    requires
        call_ensures(FunctionTarget::get_parameters, (target,), parameters),
        call_ensures(FunctionTarget::get_non_parameter_locals, (target,), others),
    ensures
        parameters.start == 0,
        parameters.end - parameters.start == target.func_env.parameter_types@.len(),
        others.start == parameters.end,
        others.end == target.data.local_types@.len(),
{
}

/// A local of the source has its user name and is a temporary exactly when it is marked as one,
/// parameter or not; any other local has a generated name and is a temporary.
pub proof fn law_names_and_temporaries(
    target: &FunctionTarget<'_>,
    idx: usize,
    user: bool,
    temporary: bool,
    name: Symbol,
)
    requires
        call_ensures(FunctionTarget::has_local_user_name, (target, idx), user),
        call_ensures(FunctionTarget::is_temporary, (target, idx), temporary),
        call_ensures(FunctionTarget::get_local_name, (target, idx), name),
    ensures
        user <==> idx < target.func_env.locals@.len(),
        user ==> temporary == target.func_env.locals@[idx as int].temporary,
        user ==> name == Symbol::Interned(target.func_env.locals@[idx as int].name),
        !user ==> temporary,
        !user ==> name == Symbol::Generated(idx),
{
}

/// No local is given the name that is generated for another one.
pub proof fn law_target_names_differ(
    target: &FunctionTarget<'_>,
    i: usize,
    j: usize,
    user: bool,
    of_i: Symbol,
    of_j: Symbol,
)
    requires
        call_ensures(FunctionTarget::has_local_user_name, (target, i), user),
        call_ensures(FunctionTarget::get_local_name, (target, i), of_i),
        call_ensures(FunctionTarget::get_local_name, (target, j), of_j),
        !user,
        i != j,
    ensures
        of_i != of_j,
{
}

/// A name that the data maps has the index that it is mapped to, whatever its text is.
pub proof fn law_index_of_mapped_name(
    target: &FunctionTarget<'_>,
    name: Symbol,
    key: SymbolKey,
    r: Option<usize>,
)
    requires
        call_ensures(FunctionTarget::get_local_index, (target, name), r),
        call_ensures(Symbol::key, (&name,), key),
        target.data.name_to_index@.contains_key(key),
    ensures
        r == Some(target.data.name_to_index@[key]),
{
}

/// The index can be asked for of a name that the data maps, and of one in the pool that does not
/// start with `$t`.
pub proof fn law_index_can_be_asked(target: &FunctionTarget<'_>, name: Symbol, key: SymbolKey)
    requires
        call_ensures(Symbol::key, (&name,), key),
        target.data.name_to_index@.contains_key(key) || (
        target.func_env.module_env.env.symbol_pool.contains(name) && !"$t"@.is_prefix_of(
            target.func_env.module_env.env.symbol_pool.text(name),
        )),
    ensures
        call_requires(FunctionTarget::get_local_index, (target, name)),
{
    let text = target.func_env.module_env.env.symbol_pool.text(name);
    reveal_strlit("$t");
    if text.len() >= 2 && text[0] == '$' && text[1] == 't' {
        assert(text.subrange(0, 2) =~= "$t"@);
    }
}

/// A name that the data does not map has the index in it, if its text is `$t` and the index, with
/// or without a dollar sign behind.
pub proof fn law_index_in_name(
    target: &FunctionTarget<'_>,
    name: Symbol,
    key: SymbolKey,
    text: String,
    digits: &str,
    of_digits: Option<usize>,
    r: Option<usize>,
)
    requires
        call_ensures(FunctionTarget::get_local_index, (target, name), r),
        call_ensures(Symbol::key, (&name,), key),
        call_ensures(
            SymbolPool::string,
            (&target.func_env.module_env.env.symbol_pool, name),
            text,
        ),
        call_ensures(parse_index, (digits,), of_digits),
        !target.data.name_to_index@.contains_key(key),
        text@ == "$t"@ + digits@ && (digits@.len() == 0 || digits@.last() != '$') || text@ == "$t"@
            + digits@ + "$"@,
    ensures
        r == of_digits,
{
    reveal_strlit("$t");
    reveal_strlit("$");
    if text@ == "$t"@ + digits@ && (digits@.len() == 0 || digits@.last() != '$') {
        assert(text@.skip(2) =~= digits@);
    } else {
        assert(text@.skip(2) =~= digits@.push('$'));
        assert(text@.skip(2).drop_last() =~= digits@);
    }
    assert(temporary_digits(text@) == Some(digits@));
}

/// A name that the data does not map, and whose text does not start with `$t`, has no index.
pub proof fn law_no_index(
    target: &FunctionTarget<'_>,
    name: Symbol,
    key: SymbolKey,
    text: String,
    r: Option<usize>,
)
    requires
        call_ensures(FunctionTarget::get_local_index, (target, name), r),
        call_ensures(Symbol::key, (&name,), key),
        call_ensures(
            SymbolPool::string,
            (&target.func_env.module_env.env.symbol_pool, name),
            text,
        ),
        !target.data.name_to_index@.contains_key(key),
        !"$t"@.is_prefix_of(text@),
    ensures
        r is None,
{
    reveal_strlit("$t");
    if text@.len() >= 2 && text@[0] == '$' && text@[1] == 't' {
        assert(text@.subrange(0, 2) =~= "$t"@);
    }
}

// ---------------------------------------------------------------------------------------------
// Mutable references

/// A parameter is mapped exactly when its local is a mutable reference; no other local is.
pub proof fn law_mapped_parameters(
    target: &FunctionTarget<'_>,
    r: BTreeMap<TempIndex, usize>,
    idx: usize,
)
    requires
        call_ensures(FunctionTarget::get_mut_ref_mapping, (target,), r),
        target.func_env.parameter_types@.len() <= target.data.local_types@.len(),
    ensures
        r@.contains_key(idx) <==> idx < target.func_env.parameter_types@.len()
            && target.data.local_types@[idx as int].mutable_reference,
        r@ == target.spec_mut_ref_mapping(),
{
}

/// The first mutable reference parameter has the return index right behind the return values that
/// the function has in the source.
pub proof fn law_first_mapped(
    target: &FunctionTarget<'_>,
    r: BTreeMap<TempIndex, usize>,
    idx: usize,
)
    requires
        call_ensures(FunctionTarget::get_mut_ref_mapping, (target,), r),
        target.func_env.parameter_types@.len() <= target.data.local_types@.len(),
        r@.contains_key(idx),
        forall|j: int|
            0 <= j < idx ==> !(#[trigger] target.data.local_types@[j]).mutable_reference,
    ensures
        r@[idx] == target.func_env.return_types@.len(),
{
    let types = target.parameters();
    assert(target.func_env.return_types@.len() == target.func_env.return_types.len());
    assert forall|j: int| 0 <= j < idx implies !(#[trigger] types[j]).mutable_reference by {
        assert(types[j] == target.data.local_types@[j]);
    }
    lemma_no_mut_refs(types, 0, idx as int);
    assert(types.take(0) =~= Seq::empty());
}

/// Each further mutable reference parameter has the return index behind that of the one before it;
/// the greatest index, where there is none behind.
pub proof fn law_next_mapped(
    target: &FunctionTarget<'_>,
    r: BTreeMap<TempIndex, usize>,
    i: usize,
    j: usize,
)
    requires
        call_ensures(FunctionTarget::get_mut_ref_mapping, (target,), r),
        target.func_env.parameter_types@.len() <= target.data.local_types@.len(),
        i < j,
        r@.contains_key(i),
        r@.contains_key(j),
        forall|k: int|
            i < k < j ==> !(#[trigger] target.data.local_types@[k]).mutable_reference,
    ensures
        r@[i] < usize::MAX ==> r@[j] == r@[i] + 1,
        r@[i] == usize::MAX ==> r@[j] == usize::MAX,
{
    let types = target.parameters();
    assert forall|k: int| i < k < j implies !(#[trigger] types[k]).mutable_reference by {
        assert(types[k] == target.data.local_types@[k]);
    }
    lemma_mut_ref_count_step(types, i as int);
    lemma_no_mut_refs(types, i + 1, j as int);
}

/// No return value of a mutable reference is in the place of one that the function has in the
/// source.
pub proof fn law_mapped_behind_returns(
    target: &FunctionTarget<'_>,
    r: BTreeMap<TempIndex, usize>,
    idx: usize,
)
    requires
        call_ensures(FunctionTarget::get_mut_ref_mapping, (target,), r),
        target.func_env.parameter_types@.len() <= target.data.local_types@.len(),
        r@.contains_key(idx),
    ensures
        target.func_env.return_types@.len() <= r@[idx],
        r@[idx] <= target.func_env.return_types@.len() + idx,
{
    assert(target.func_env.return_types@.len() == target.func_env.return_types.len());
    lemma_count_bounded(target.parameters().take(idx as int));
}

proof fn lemma_count_bounded(types: Seq<Type>)
    ensures
        mut_ref_count(types) <= types.len(),
    decreases types.len(),
{
    if types.len() > 0 {
        lemma_count_bounded(types.drop_last());
    }
}

proof fn lemma_no_mut_refs(types: Seq<Type>, i: int, j: int)
    requires
        0 <= i <= j <= types.len(),
        forall|k: int| i <= k < j ==> !(#[trigger] types[k]).mutable_reference,
    ensures
        mut_ref_count(types.take(j)) == mut_ref_count(types.take(i)),
    decreases j,
{
    if i < j {
        lemma_no_mut_refs(types, i, j - 1);
        lemma_mut_ref_count_step(types, j - 1);
        assert(!types[j - 1].mutable_reference);
    }
}

/// The return index of a single parameter is the one that it is mapped to.
pub proof fn law_return_index(
    target: &FunctionTarget<'_>,
    mapping: BTreeMap<TempIndex, usize>,
    idx: usize,
    r: Option<usize>,
)
    requires
        call_ensures(FunctionTarget::get_mut_ref_mapping, (target,), mapping),
        call_ensures(FunctionTarget::get_mut_ref_return_index, (target, idx), r),
    ensures
        mapping@.contains_key(idx) ==> r == Some(mapping@[idx]),
        !mapping@.contains_key(idx) ==> r is None,
{
}

/// No parameter is unchecked.
pub proof fn law_no_unchecked_parameter(target: &FunctionTarget<'_>, idx: TempIndex, r: bool)
    requires
        call_ensures(FunctionTarget::is_unchecked_param, (target, idx), r),
    ensures
        !r,
{
}

} // verus!
