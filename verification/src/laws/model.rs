//! What the functions on the environment and on instructions return.
use crate::annotations::{
    AnnotationFormatter, AnnotationKind, Annotations, FormatAnnotation, KindFormatter,
};
use crate::bytecode::{
    code_offset, label_map, lemma_label_absent, lemma_label_at, to_code_offset, AttrId, Bytecode,
    CodeOffset, Label,
};
use crate::function_data::FunctionData;
use crate::model::{
    first_index, FunctionEnv, Loc, QualifiedId, Spec, StructId, StructKey, Symbol, SymbolKey,
    SymbolPool, Type,
};
use crate::text::decimal_string;
use std::collections::BTreeMap;
use vstd::prelude::*;

verus! {

broadcast use vstd::string::group_string_axioms;

// ---------------------------------------------------------------------------------------------
// Symbols and identifiers

/// Different symbols have different keys.
pub proof fn law_symbol_keys_differ(a: Symbol, b: Symbol, of_a: SymbolKey, of_b: SymbolKey)
    requires
        call_ensures(Symbol::key, (&a,), of_a),
        call_ensures(Symbol::key, (&b,), of_b),
    ensures
        of_a == of_b <==> a == b,
{
}

/// The text of an interned symbol is the one at its index; that of a generated one is `$t` and the
/// index of its local.
pub proof fn law_symbol_text(
    pool: &SymbolPool,
    index: usize,
    interned: String,
    generated: String,
    digits: String,
)
    requires
        call_ensures(SymbolPool::string, (pool, Symbol::Interned(index)), interned),
        call_ensures(SymbolPool::string, (pool, Symbol::Generated(index)), generated),
        call_ensures(decimal_string, (index,), digits),
    ensures
        interned@ == pool.strings@[index as int]@,
        generated@ == "$t"@ + digits@,
        pool.text(Symbol::Interned(index)) == interned@,
        pool.text(Symbol::Generated(index)) == generated@,
{
}

/// A text is found at the first index where it stands, and is not found exactly when it stands
/// nowhere.
pub proof fn law_find(pool: &SymbolPool, text: &str, r: Option<usize>)
    requires
        call_ensures(SymbolPool::find, (pool, text), r),
    ensures
        match r {
            Some(index) => {
                &&& index < pool.strings@.len()
                &&& pool.strings@[index as int]@ == text@
                &&& forall|j: int| 0 <= j < index ==> (#[trigger] pool.strings@[j])@ != text@
            },
            None => forall|j: int|
                0 <= j < pool.strings@.len() ==> (#[trigger] pool.strings@[j])@ != text@,
        },
{
    assert(pool.strings@.len() == pool.strings.len());
    lemma_first_index(pool.strings@, text@);
}

proof fn lemma_first_index(strings: Seq<String>, text: Seq<char>)
    requires
        strings.len() <= usize::MAX,
    ensures
        match first_index(strings, text) {
            Some(index) => {
                &&& index < strings.len()
                &&& strings[index as int]@ == text
                &&& forall|j: int| 0 <= j < index ==> (#[trigger] strings[j])@ != text
            },
            None => forall|j: int| 0 <= j < strings.len() ==> (#[trigger] strings[j])@ != text,
        },
    decreases strings.len(),
{
    if strings.len() > 0 {
        let before = strings.drop_last();
        lemma_first_index(before, text);
        assert(forall|j: int| 0 <= j < before.len() ==> #[trigger] strings[j] == before[j]);
    }
}

/// The key of a struct holds its module and its own identifier.
pub proof fn law_struct_key(id: &QualifiedId<StructId>, r: StructKey)
    requires
        call_ensures(QualifiedId::<StructId>::key, (id,), r),
    ensures
        r.0 == id.module_id.0,
        r.1 == id.id.0,
{
}

/// Locations and types are cloned as they are, and a type tells whether it is a mutable reference.
pub proof fn law_locations_and_types(
    loc: &Loc,
    loc_clone: Loc,
    ty: &Type,
    ty_clone: Type,
    mutable: bool,
)
    requires
        call_ensures(<Loc as Clone>::clone, (loc,), loc_clone),
        call_ensures(<Type as Clone>::clone, (ty,), ty_clone),
        call_ensures(Type::is_mutable_reference, (ty,), mutable),
    ensures
        loc_clone.text@ == loc.text@,
        ty_clone.text@ == ty.text@,
        ty_clone.mutable_reference == ty.mutable_reference,
        mutable == ty.mutable_reference,
{
}

// ---------------------------------------------------------------------------------------------
// Pragmas

/// Whether `index` is where `name` stands in the pool, and stands first.
pub open spec fn stands_at(pool: SymbolPool, name: Seq<char>, index: usize) -> bool {
    &&& index < pool.strings@.len()
    &&& pool.strings@[index as int]@ == name
    &&& forall|j: int| 0 <= j < index ==> (#[trigger] pool.strings@[j])@ != name
}

proof fn lemma_stands_at(pool: SymbolPool, name: Seq<char>, index: usize)
    requires
        stands_at(pool, name, index),
    ensures
        first_index(pool.strings@, name) == Some(index),
{
    assert(pool.strings@.len() == pool.strings.len());
    lemma_first_index(pool.strings@, name);
    match first_index(pool.strings@, name) {
        Some(found) => {
            assert(pool.strings@[found as int]@ == name);
            assert(pool.strings@[index as int]@ == name);
        },
        None => {
            assert(pool.strings@[index as int]@ == name);
        },
    }
}

/// A block has the value of a pragma that it keeps under the index of the name, and of no other.
pub proof fn law_block_pragma(
    spec: &Spec,
    pool: &SymbolPool,
    name: &str,
    index: usize,
    r: Option<bool>,
)
    requires
        call_ensures(Spec::get_pragma, (spec, pool, name), r),
    ensures
        stands_at(*pool, name@, index) && spec.pragmas@.contains_key(index) ==> r == Some(
            spec.pragmas@[index],
        ),
        stands_at(*pool, name@, index) && !spec.pragmas@.contains_key(index) ==> r is None,
        (forall|j: int| 0 <= j < pool.strings@.len() ==> (#[trigger] pool.strings@[j])@ != name@)
            ==> r is None,
{
    assert(pool.strings@.len() == pool.strings.len());
    lemma_first_index(pool.strings@, name@);
    if stands_at(*pool, name@, index) {
        lemma_stands_at(*pool, name@, index);
    }
}

/// A pragma of the function itself counts, whatever the module says; one of the module counts where
/// the function has none; the default counts where neither has it.
pub proof fn law_pragma_precedence<F: FnOnce() -> bool>(
    func_env: &FunctionEnv<'_>,
    name: &str,
    default: F,
    index: usize,
    r: bool,
)
    requires
        call_ensures(FunctionEnv::is_pragma_true, (func_env, name, default), r),
    ensures
        stands_at(func_env.module_env.env.symbol_pool, name@, index) ==> {
            let own = func_env.spec.pragmas@;
            let outer = func_env.module_env.spec.pragmas@;
            &&& own.contains_key(index) ==> r == own[index]
            &&& !own.contains_key(index) && outer.contains_key(index) ==> r == outer[index]
            &&& !own.contains_key(index) && !outer.contains_key(index) ==> call_ensures(
                default,
                (),
                r,
            )
        },
        (forall|j: int|
            0 <= j < func_env.module_env.env.symbol_pool.strings@.len() ==> (
            #[trigger] func_env.module_env.env.symbol_pool.strings@[j])@ != name@)
            ==> call_ensures(default, (), r),
{
    let pool = func_env.module_env.env.symbol_pool;
    assert(pool.strings@.len() == pool.strings.len());
    lemma_first_index(pool.strings@, name@);
    if stands_at(pool, name@, index) {
        lemma_stands_at(pool, name@, index);
    }
}

/// The value of a pragma, as it is looked up: that of the function, else that of the module.
pub proof fn law_pragma_value(func_env: FunctionEnv<'_>, name: Seq<char>, index: usize)
    requires
        stands_at(func_env.module_env.env.symbol_pool, name, index),
    ensures
        func_env.spec.pragmas@.contains_key(index) ==> func_env.pragma_value(name) == Some(
            func_env.spec.pragmas@[index],
        ),
        !func_env.spec.pragmas@.contains_key(index) && func_env.module_env.spec.pragmas@.contains_key(
            index,
        ) ==> func_env.pragma_value(name) == Some(func_env.module_env.spec.pragmas@[index]),
        !func_env.spec.pragmas@.contains_key(index) && !func_env.module_env.spec.pragmas@.contains_key(
            index,
        ) ==> func_env.pragma_value(name) is None,
{
    lemma_stands_at(func_env.module_env.env.symbol_pool, name, index);
}

/// There is no value for a name that the pool does not hold.
pub proof fn law_unknown_pragma_value(func_env: FunctionEnv<'_>, name: Seq<char>)
    requires
        forall|j: int|
            0 <= j < func_env.module_env.env.symbol_pool.strings@.len() ==> (
            #[trigger] func_env.module_env.env.symbol_pool.strings@[j])@ != name,
    ensures
        func_env.pragma_value(name) is None,
{
    let pool = func_env.module_env.env.symbol_pool;
    assert(pool.strings@.len() == pool.strings.len());
    lemma_first_index(pool.strings@, name);
}

// ---------------------------------------------------------------------------------------------
// Locals and parameters of the source

/// A local of the source is a temporary exactly when it is marked as one, parameter or not; any
/// other local is one.
pub proof fn law_temporaries(func_env: &FunctionEnv<'_>, idx: usize, r: bool)
    requires
        call_ensures(FunctionEnv::is_temporary, (func_env, idx), r),
    ensures
        idx < func_env.locals@.len() ==> r == func_env.locals@[idx as int].temporary,
        idx >= func_env.locals@.len() ==> r,
        func_env.spec_is_temporary(idx) == r,
{
}

/// A local of the source has the name that the source gives it; any other one has the name that is
/// generated for its index. The locals of the source are counted.
pub proof fn law_source_locals(func_env: &FunctionEnv<'_>, idx: usize, name: Symbol, count: usize)
    requires
        call_ensures(FunctionEnv::get_local_name, (func_env, idx), name),
        call_ensures(FunctionEnv::get_local_count, (func_env,), count),
    ensures
        count == func_env.locals@.len(),
        idx < count ==> name == Symbol::Interned(func_env.locals@[idx as int].name),
        idx >= count ==> name == Symbol::Generated(idx),
        name == func_env.local_name(idx),
        idx < count ==> name == func_env.user_names()[idx as int],
        func_env.user_names().len() == count,
{
}

/// A mutable reference at any place among the parameters makes a function mutating, and nothing
/// else does.
pub proof fn law_mutating(func_env: &FunctionEnv<'_>, i: int, r: bool)
    requires
        call_ensures(FunctionEnv::is_mutating, (func_env,), r),
    ensures
        0 <= i < func_env.parameter_types@.len() && func_env.parameter_types@[i].mutable_reference
            ==> r,
        (forall|j: int|
            0 <= j < func_env.parameter_types@.len() ==> !(
            #[trigger] func_env.parameter_types@[j]).mutable_reference) ==> !r,
{
}

// ---------------------------------------------------------------------------------------------
// Instructions

/// Attributes and labels have their numbers; an instruction of either kind has its own attribute,
/// and only a label has a label.
pub proof fn law_instructions(
    attr: AttrId,
    label: Label,
    code: &Bytecode,
    attr_number: usize,
    label_number: usize,
    attr_of_code: AttrId,
)
    requires
        call_ensures(AttrId::as_usize, (&attr,), attr_number),
        call_ensures(Label::as_usize, (&label,), label_number),
        call_ensures(Bytecode::get_attr_id, (code,), attr_of_code),
    ensures
        attr_number == attr.0,
        label_number == label.0,
        match *code {
            Bytecode::Label(a, l) => attr_of_code == a && code.attr_id() == a && code.label() == Some(
                l,
            ),
            Bytecode::Operation(a, _) => attr_of_code == a && code.attr_id() == a
                && code.label() is None,
        },
{
}

/// An offset below 65536 is itself as a code offset, and then they repeat.
pub proof fn law_code_offsets(offset: usize, r: CodeOffset)
    requires
        call_ensures(to_code_offset, (offset,), r),
    ensures
        offset <= 0xffff ==> r == offset,
        offset > 0xffff ==> r == code_offset(offset - 0x1_0000),
        r == code_offset(offset as int),
        0 <= offset <= 0xffff ==> code_offset(offset as int) == offset,
{
    if offset > 0xffff {
        assert((offset - 0x1_0000) % 0x1_0000 == offset as int % 0x1_0000) by (nonlinear_arith)
            requires
                offset > 0xffff,
        ;
    }
}

/// Each label that stands in the code has the offset of its last place; no other label has one.
pub proof fn law_label_offsets(
    code: &[Bytecode],
    r: BTreeMap<usize, CodeOffset>,
    i: int,
    label: usize,
)
    requires
        call_ensures(Bytecode::label_offsets, (code,), r),
    ensures
        r@ == label_map(code@),
        0 <= i < code@.len() && code@[i] is Label && code@[i]->Label_1 == Label(label) && (forall|j: int|
            i < j < code@.len() && #[trigger] code@[j] is Label ==> code@[j]->Label_1 != Label(label))
            ==> r@.contains_key(label) && r@[label] == i % 0x1_0000,
        (forall|j: int|
            0 <= j < code@.len() && #[trigger] code@[j] is Label ==> code@[j]->Label_1 != Label(label))
            ==> !r@.contains_key(label),
{
    if 0 <= i < code@.len() && code@[i] is Label && code@[i]->Label_1 == Label(label) && (forall|j: int|
        i < j < code@.len() && #[trigger] code@[j] is Label ==> code@[j]->Label_1 != Label(label)) {
        assert forall|j: int| i < j < code@.len() implies (#[trigger] code@[j]).label() != Some(
            Label(label),
        ) by {
            assert(code@[j] is Label ==> code@[j]->Label_1 != Label(label));
        }
        lemma_label_at(code@, i, Label(label));
    }
    if forall|j: int|
        0 <= j < code@.len() && #[trigger] code@[j] is Label ==> code@[j]->Label_1 != Label(label) {
        assert forall|j: int| 0 <= j < code@.len() implies (#[trigger] code@[j]).label() != Some(
            Label(label),
        ) by {
            assert(code@[j] is Label ==> code@[j]->Label_1 != Label(label));
        }
        lemma_label_absent(code@, Label(label));
    }
}

// ---------------------------------------------------------------------------------------------
// Annotations

/// Different kinds have different numbers.
pub proof fn law_kinds_differ(a: AnnotationKind, b: AnnotationKind, of_a: u8, of_b: u8)
    requires
        call_ensures(AnnotationKind::code, (&a,), of_a),
        call_ensures(AnnotationKind::code, (&b,), of_b),
    ensures
        of_a == of_b <==> a == b,
{
}

/// New annotations are empty, and a clone has the same.
pub proof fn law_annotations(new: Annotations, annotations: &Annotations, cloned: Annotations)
    requires
        call_ensures(<Annotations as Default>::default, (), new),
        call_ensures(<Annotations as Clone>::clone, (annotations,), cloned),
    ensures
        new.texts@.dom() == Set::<(u8, CodeOffset)>::empty(),
        cloned.texts@ == annotations.texts@,
{
    assert(new.texts@.dom() =~= Set::<(u8, CodeOffset)>::empty());
}

/// The formatter for a kind gives the text that is kept for that kind at that offset, and nothing
/// where none is kept.
pub proof fn law_kind_formatter(
    kind: AnnotationKind,
    formatter: AnnotationFormatter,
    code: u8,
    func_env: &FunctionEnv<'_>,
    data: &FunctionData,
    offset: CodeOffset,
    result: Option<Seq<char>>,
)
    requires
        call_ensures(AnnotationFormatter::for_kind, (kind,), formatter),
        call_ensures(AnnotationKind::code, (&kind,), code),
        formatter.0.may_format(func_env, data, offset, result),
    ensures
        data.annotations.texts@.contains_key((code, offset)) ==> result == Some(
            data.annotations.texts@[(code, offset)]@,
        ),
        !data.annotations.texts@.contains_key((code, offset)) ==> result is None,
{
}

/// What is picked for a kind is the text that is kept for that kind at that offset.
pub proof fn law_kind_format(
    picker: &KindFormatter,
    code: u8,
    func_env: &FunctionEnv<'_>,
    data: &FunctionData,
    offset: CodeOffset,
    r: Option<String>,
)
    requires
        call_ensures(
            <KindFormatter as FormatAnnotation>::format,
            (picker, func_env, data, offset),
            r,
        ),
        call_ensures(AnnotationKind::code, (&picker.kind,), code),
    ensures
        match r {
            Some(text) => data.annotations.texts@.contains_key((code, offset)) && text@
                == data.annotations.texts@[(code, offset)]@,
            None => !data.annotations.texts@.contains_key((code, offset)),
        },
{
}

/// So do the formatters that are known to be for a kind, and those that pick annotations of a kind.
pub proof fn law_for_kind(
    kind: AnnotationKind,
    formatter: AnnotationFormatter,
    picker: KindFormatter,
    code: u8,
    func_env: &FunctionEnv<'_>,
    data: &FunctionData,
    offset: CodeOffset,
    result: Option<Seq<char>>,
)
    requires
        formatter.is_for_kind(kind) && formatter.0.may_format(func_env, data, offset, result) || (
        picker.kind == kind && picker.may_format(func_env, data, offset, result)),
        call_ensures(AnnotationKind::code, (&kind,), code),
    ensures
        data.annotations.texts@.contains_key((code, offset)) ==> result == Some(
            data.annotations.texts@[(code, offset)]@,
        ),
        !data.annotations.texts@.contains_key((code, offset)) ==> result is None,
{
}

} // verus!
