//! What holds of function targets beyond the contracts of single functions.
use crate::bytecode::{AttrId, Bytecode, Label};
use crate::display::{annotation_lines, note, notes};
use crate::function_data::{is_next_attr, is_next_label, name_map, FunctionData};
use crate::function_target::{entry, mut_ref_count, mut_ref_map, temporary_digits, FunctionTarget};
use crate::laws::text::{lemma_trimmed_end, lemma_trimmed_start};
use crate::model::{FunctionEnv, Symbol, Type};
use crate::text::{decimal, joined, lemma_decimal_last, lemma_decimal_parses, line_feeds_replaced};
use std::ops::Range;
use vstd::prelude::*;

pub mod data;
pub mod display;
pub mod model;
pub mod target;
pub mod text;

verus! {

broadcast use vstd::string::group_string_axioms;

// ---------------------------------------------------------------------------------------------
// Names and indices of locals

/// A name is mapped to the last index at which it stands.
pub proof fn law_last_name_counts(names: Seq<Symbol>, i: int)
    requires
        names.len() <= usize::MAX,
        0 <= i < names.len(),
        forall|j: int| i < j < names.len() ==> names[j] != names[i],
    ensures
        name_map(names).contains_key(names[i].spec_key()),
        name_map(names)[names[i].spec_key()] == i,
    decreases names.len(),
{
    if i < names.len() - 1 {
        assert(names.last() != names[i]);
        law_last_name_counts(names.drop_last(), i);
    }
}

/// A name that stands nowhere is not mapped.
pub proof fn law_other_names_unmapped(names: Seq<Symbol>, name: Symbol)
    requires
        !names.contains(name),
    ensures
        !name_map(names).contains_key(name.spec_key()),
    decreases names.len(),
{
    if names.len() > 0 {
        assert(names.last() == names[names.len() - 1]);
        assert forall|k: int| 0 <= k < names.len() - 1 implies names.drop_last()[k] != name by {
            assert(names[k] != name);
        }
        law_other_names_unmapped(names.drop_last(), name);
    }
}

/// The index of the name of a user declared local is that of the local, if no two of those locals
/// have the same name and the names are mapped as in new data.
pub proof fn law_user_name_index(target: FunctionTarget<'_>, idx: usize)
    requires
        target.data.name_to_index@ == name_map(target.func_env.user_names()),
        target.func_env.user_names().no_duplicates(),
        idx < target.func_env.locals@.len(),
    ensures
        target.is_index_name(target.func_env.local_name(idx)),
        target.local_index(target.func_env.local_name(idx)) == Some(idx),
{
    let names = target.func_env.user_names();
    assert(names.len() == target.func_env.locals.len());
    assert(target.func_env.local_name(idx) == names[idx as int]);
    law_last_name_counts(names, idx as int);
}

/// The index of a name of the form `$t<N>$` or `$t<N>` that is not a user name is the number in it.
pub proof fn law_temporary_name_index(target: FunctionTarget<'_>, name: Symbol, idx: usize)
    requires
        target.func_env.pool().contains(name),
        !target.data.name_to_index@.contains_key(name.spec_key()),
        target.func_env.pool().text(name) == "$t"@ + decimal(idx as nat)
            || target.func_env.pool().text(name) == "$t"@ + decimal(idx as nat) + "$"@,
    ensures
        target.is_index_name(name),
        target.local_index(name) == Some(idx),
{
    let text = target.func_env.pool().text(name);
    let digits = decimal(idx as nat);
    reveal_strlit("$t");
    reveal_strlit("$");
    lemma_decimal_parses(idx);
    lemma_decimal_last(idx as nat);
    if text == "$t"@ + digits {
        assert(text.skip(2) =~= digits);
    } else {
        assert(text.skip(2) =~= digits + "$"@);
        assert(text.skip(2).drop_last() =~= digits);
    }
    assert(temporary_digits(text) == Some(digits));
}

/// The name of a local without a user name is that of no other local.
pub proof fn law_generated_name_is_unique(func_env: FunctionEnv<'_>, idx: usize, other: usize)
    requires
        !(idx < func_env.locals@.len()),
        other != idx,
    ensures
        func_env.local_name(idx) != func_env.local_name(other),
{
}

/// Nor has another local a name with the same text, unless the user gave it that one.
pub proof fn law_generated_text_is_unique(func_env: FunctionEnv<'_>, idx: usize, other: usize)
    requires
        !(idx < func_env.locals@.len()),
        other != idx,
    ensures
        func_env.pool().text(func_env.local_name(idx)) == func_env.pool().text(
            func_env.local_name(other),
        ) ==> other < func_env.locals@.len(),
{
    if !(other < func_env.locals@.len()) {
        let text = func_env.pool().text(func_env.local_name(idx));
        let other_text = func_env.pool().text(func_env.local_name(other));
        reveal_strlit("$t");
        lemma_decimal_parses(idx);
        lemma_decimal_parses(other);
        assert(text.skip(2) =~= decimal(idx as nat));
        assert(other_text.skip(2) =~= decimal(other as nat));
    }
}

/// The index of the name of a local without a user name is that of the local, if the names are
/// mapped as in new data.
pub proof fn law_generated_name_index(target: FunctionTarget<'_>, idx: usize)
    requires
        target.data.name_to_index@ == name_map(target.func_env.user_names()),
        !(idx < target.func_env.locals@.len()),
    ensures
        target.is_index_name(target.func_env.local_name(idx)),
        target.local_index(target.func_env.local_name(idx)) == Some(idx),
{
    let name = target.func_env.local_name(idx);
    assert forall|k: int| 0 <= k < target.func_env.locals@.len() implies
        target.func_env.user_names()[k] != name by {}
    law_other_names_unmapped(target.func_env.user_names(), name);
    law_temporary_name_index(target, name, idx);
}

/// A local without a user name is a temporary.
pub proof fn law_unnamed_is_temporary(target: FunctionTarget<'_>, idx: usize)
    requires
        !(idx < target.func_env.locals@.len()),
    ensures
        target.func_env.spec_is_temporary(idx),
{
}

// ---------------------------------------------------------------------------------------------
// Mutable references

pub(crate) proof fn lemma_mut_ref_count_step(types: Seq<Type>, i: int)
    requires
        0 <= i < types.len(),
    ensures
        mut_ref_count(types.take(i + 1)) == mut_ref_count(types.take(i)) + if types[i].mutable_reference {
            1nat
        } else {
            0nat
        },
{
    assert(types.take(i + 1).drop_last() =~= types.take(i));
}

pub(crate) proof fn lemma_mut_ref_count_mono(types: Seq<Type>, i: int, j: int)
    requires
        0 <= i <= j <= types.len(),
    ensures
        mut_ref_count(types.take(i)) <= mut_ref_count(types.take(j)),
    decreases j,
{
    if i < j {
        lemma_mut_ref_count_mono(types, i, j - 1);
        lemma_mut_ref_count_step(types, j - 1);
    }
}

/// The return values of mutable references come after the ordinary ones, in the order of the
/// parameters, and there are as many as mutable references. (Without the bound, indices from the
/// greatest one on would be the same.)
pub proof fn law_mut_refs_in_order(parameters: Seq<Type>, return_count: nat, i: usize, j: usize)
    requires
        return_count + mut_ref_count(parameters) <= usize::MAX,
        i < j < parameters.len(),
        parameters[i as int].mutable_reference,
        parameters[j as int].mutable_reference,
    ensures
        return_count <= mut_ref_map(parameters, return_count)[i],
        mut_ref_map(parameters, return_count)[i] < mut_ref_map(parameters, return_count)[j],
        mut_ref_map(parameters, return_count)[j] < return_count + mut_ref_count(parameters),
{
    lemma_mut_ref_count_step(parameters, i as int);
    lemma_mut_ref_count_step(parameters, j as int);
    lemma_mut_ref_count_mono(parameters, i + 1, j as int);
    lemma_mut_ref_count_mono(parameters, j + 1, parameters.len() as int);
    assert(parameters.take(parameters.len() as int) =~= parameters);
}

/// Each appended return value belongs to a mutable reference parameter.
pub proof fn law_mut_refs_cover_returns(
    parameters: Seq<Type>,
    return_count: nat,
    ret_index: usize,
) -> (idx: usize)
    requires
        parameters.len() <= usize::MAX,
        return_count <= ret_index < return_count + mut_ref_count(parameters),
    ensures
        mut_ref_map(parameters, return_count).contains_key(idx),
        mut_ref_map(parameters, return_count)[idx] == ret_index,
    decreases parameters.len(),
{
    let before = parameters.drop_last();
    let last = (parameters.len() - 1) as usize;
    assert(parameters.take(last as int) =~= before);
    if ret_index < return_count + mut_ref_count(before) {
        let idx = law_mut_refs_cover_returns(before, return_count, ret_index);
        assert(before.take(idx as int) =~= parameters.take(idx as int));
        idx
    } else {
        last
    }
}

/// A function mutates references exactly when some parameter has a return index, if its data has
/// the parameters of the source.
pub proof fn law_mutating_has_returns(target: FunctionTarget<'_>)
    requires
        target.func_env.parameter_types@.len() <= target.data.local_types@.len(),
        target.parameters() == target.func_env.parameter_types@,
    ensures
        target.func_env.spec_is_mutating() <==> exists|idx: usize| #[trigger]
            target.spec_mut_ref_mapping().contains_key(idx),
{
    if target.func_env.spec_is_mutating() {
        let i = choose|i: int|
            0 <= i < target.func_env.parameter_types@.len() && (
            #[trigger] target.func_env.parameter_types@[i]).mutable_reference;
        assert(i < target.func_env.parameter_types.len());
        assert(target.spec_mut_ref_mapping().contains_key(i as usize));
    }
    if exists|idx: usize| #[trigger] target.spec_mut_ref_mapping().contains_key(idx) {
        let idx = choose|idx: usize| #[trigger] target.spec_mut_ref_mapping().contains_key(idx);
        assert(target.func_env.parameter_types@[idx as int].mutable_reference);
    }
}

/// A parameter has a return index exactly when it is a mutable reference; no other local has one.
pub proof fn law_return_index_iff_mut_ref(target: FunctionTarget<'_>, idx: usize)
    requires
        target.func_env.parameter_types@.len() <= target.data.local_types@.len(),
    ensures
        entry(target.spec_mut_ref_mapping(), idx) is Some <==> idx
            < target.func_env.parameter_types@.len()
            && target.data.local_types@[idx as int].mutable_reference,
{
}

// ---------------------------------------------------------------------------------------------
// Free indices

/// The next free attribute is not in use, and after it is given to an instruction at the end of the
/// code, the one behind it is next.
pub proof fn law_next_attr_is_free(code: Seq<Bytecode>, next: usize, instruction: Bytecode)
    requires
        is_next_attr(code, next),
        next < usize::MAX,
        instruction.attr_id() == AttrId(next),
    ensures
        forall|i: int| 0 <= i < code.len() ==> (#[trigger] code[i]).attr_id() != AttrId(next),
        is_next_attr(code.push(instruction), (next + 1) as usize),
{
    let longer = code.push(instruction);
    assert(longer[code.len() as int].attr_id().0 == next);
}

/// The next free label is not in use, and after it is put at the end of the code, the one behind it
/// is next.
pub proof fn law_next_label_is_free(code: Seq<Bytecode>, next: usize, attr_id: AttrId)
    requires
        is_next_label(code, next),
        next < usize::MAX,
    ensures
        forall|i: int| 0 <= i < code.len() ==> (#[trigger] code[i]).label() != Some(Label(next)),
        is_next_label(code.push(Bytecode::Label(attr_id, Label(next))), (next + 1) as usize),
{
    let longer = code.push(Bytecode::Label(attr_id, Label(next)));
    assert(longer[code.len() as int].label() == Some(Label(next)));
}

/// There is only one next free attribute, and only one next free label.
pub proof fn law_next_free_is_unique(code: Seq<Bytecode>, a: usize, b: usize)
    ensures
        is_next_attr(code, a) && is_next_attr(code, b) ==> a == b,
        is_next_label(code, a) && is_next_label(code, b) ==> a == b,
{
}

// ---------------------------------------------------------------------------------------------
// Parameters and other locals

/// Every local is either a parameter or in the range of the other locals, and not both.
pub proof fn law_parameters_and_others(
    target: FunctionTarget<'_>,
    parameters: Range<usize>,
    others: Range<usize>,
    idx: usize,
)
    requires
        target.func_env.parameter_types@.len() <= target.data.local_types@.len(),
        parameters.start == 0,
        parameters.end == target.func_env.parameter_types@.len(),
        others.start == target.func_env.parameter_types@.len(),
        others.end == target.data.local_types@.len(),
    ensures
        (parameters.start <= idx < parameters.end) || (others.start <= idx < others.end) <==> idx
            < target.data.local_types@.len(),
        !((parameters.start <= idx < parameters.end) && (others.start <= idx < others.end)),
{
}

// ---------------------------------------------------------------------------------------------
// Forks

/// A fork prints as what it was forked from, when formatters and instructions give the same texts.
pub proof fn law_fork_prints_alike(
    target: FunctionTarget<'_>,
    fork: FunctionTarget<'_>,
    results: Seq<Seq<Option<Seq<char>>>>,
    texts: Seq<Seq<char>>,
)
    requires
        fork.func_env == target.func_env,
        fork.data.same_function(*target.data),
    ensures
        fork.printable() == target.printable(),
        fork.rendering(results, texts) == target.rendering(results, texts),
{
    let parameter_count = target.func_env.parameter_types@.len();
    assert(fork.declarations(parameter_count) =~= target.declarations(parameter_count));
    lemma_fork_variables(target, fork, target.data.local_types@.len());
    lemma_fork_code(target, fork, target.data.code@.len(), results, texts);
}

proof fn lemma_fork_variables(target: FunctionTarget<'_>, fork: FunctionTarget<'_>, n: nat)
    requires
        fork.func_env == target.func_env,
        fork.data.same_function(*target.data),
    ensures
        fork.variable_lines(n) == target.variable_lines(n),
    decreases n,
{
    if n > 0 {
        lemma_fork_variables(target, fork, (n - 1) as nat);
    }
}

proof fn lemma_fork_code(
    target: FunctionTarget<'_>,
    fork: FunctionTarget<'_>,
    n: nat,
    results: Seq<Seq<Option<Seq<char>>>>,
    texts: Seq<Seq<char>>,
)
    requires
        fork.func_env == target.func_env,
        fork.data.same_function(*target.data),
    ensures
        fork.code_lines(n, results, texts) == target.code_lines(n, results, texts),
    decreases n,
{
    if n > 0 {
        lemma_fork_code(target, fork, (n - 1) as nat, results, texts);
    }
}

/// A fork answers for names, locals and mutable references as what it was forked from.
pub proof fn law_fork_answers_alike(target: FunctionTarget<'_>, fork: FunctionTarget<'_>)
    requires
        fork.func_env == target.func_env,
        fork.data.same_function(*target.data),
    ensures
        fork.spec_mut_ref_mapping() == target.spec_mut_ref_mapping(),
        forall|name: Symbol| #[trigger] fork.is_index_name(name) == target.is_index_name(name),
        forall|name: Symbol| #[trigger] fork.local_index(name) == target.local_index(name),
{
}

/// Forking a fork back keeps all but the annotations.
pub proof fn law_fork_back(data: FunctionData, fork: FunctionData, back: FunctionData)
    requires
        fork.same_function(data),
        back.same_function(fork),
    ensures
        back.same_function(data),
{
}

// ---------------------------------------------------------------------------------------------
// The printed form

/// The printed form starts with the header and ends with the closing bracket on a line of its own.
pub proof fn law_rendering_frame(
    target: FunctionTarget<'_>,
    results: Seq<Seq<Option<Seq<char>>>>,
    texts: Seq<Seq<char>>,
)
    ensures
        target.header().is_prefix_of(target.rendering(results, texts)),
        "}\n"@.is_suffix_of(target.rendering(results, texts)),
{
    let all = target.rendering(results, texts);
    let header = target.header();
    assert(all.subrange(0, header.len() as int) =~= header);
    assert(all.subrange(all.len() - "}\n"@.len(), all.len() as int) =~= "}\n"@);
}

/// Each line feed in `text` is followed by a comment sign behind five blanks.
pub open spec fn continues_commented(text: Seq<char>) -> bool {
    forall|k: int|
        0 <= k < text.len() && #[trigger] text[k] == '\n' ==> k + 7 <= text.len() && text.subrange(
            k + 1,
            k + 7,
        ) == "     #"@
}

proof fn lemma_replaced_continues(s: Seq<char>, k: int)
    requires
        0 <= k < line_feeds_replaced(s, "\n     # "@).len(),
        line_feeds_replaced(s, "\n     # "@)[k] == '\n',
    ensures
        k + 8 <= line_feeds_replaced(s, "\n     # "@).len(),
        line_feeds_replaced(s, "\n     # "@).subrange(k + 1, k + 7) == "     #"@,
    decreases s.len(),
{
    let with = "\n     # "@;
    reveal_strlit("\n     # ");
    reveal_strlit("     #");
    let before = line_feeds_replaced(s.drop_last(), with);
    let all = line_feeds_replaced(s, with);
    if k < before.len() {
        assert(before[k] == '\n');
        lemma_replaced_continues(s.drop_last(), k);
        assert(all.subrange(k + 1, k + 7) =~= before.subrange(k + 1, k + 7));
    } else {
        assert(s.last() == '\n');
        assert(all[k] == with[k - before.len()]);
        assert(k == before.len());
        assert(all.subrange(k + 1, k + 7) =~= "     #"@);
    }
}

/// An annotation is printed behind a comment sign, and so is each further line of it.
pub proof fn law_note_is_commented(annotation: Seq<char>)
    ensures
        "     # "@.is_prefix_of(note(annotation)),
        continues_commented(note(annotation)),
{
    let replaced = line_feeds_replaced(annotation, "\n     # "@);
    let start = lemma_trimmed_start(replaced);
    let middle = replaced.skip(start);
    let end = lemma_trimmed_end(middle);
    let text = note(annotation);
    reveal_strlit("     # ");
    reveal_strlit("     #");
    assert(text.subrange(0, 7) =~= "     # "@);
    assert forall|k: int| 0 <= k < text.len() && #[trigger] text[k] == '\n' implies k + 7
        <= text.len() && text.subrange(k + 1, k + 7) == "     #"@ by {
        assert(k >= 7);
        let m = k - 7;
        assert(text[k] == middle[m]);
        assert(middle[m] == replaced[start + m]);
        lemma_replaced_continues(annotation, start + m);
        let following = replaced.subrange(start + m + 1, start + m + 7);
        assert(following[5] == '#');
        assert(middle[m + 6] == following[5]);
        assert(m + 6 < end);
        assert(text.subrange(k + 1, k + 7) =~= following);
    }
}

/// The annotations of an instruction are printed as comments, line by line.
pub proof fn law_annotations_are_commented(results: Seq<Option<Seq<char>>>)
    ensures
        continues_commented(joined(notes(results), "\n"@)),
        notes(results).len() > 0 ==> "     # "@.is_prefix_of(joined(notes(results), "\n"@)),
    decreases results.len(),
{
    reveal_strlit("     # ");
    reveal_strlit("     #");
    reveal_strlit("\n");
    if results.len() > 0 {
        let before = notes(results.drop_last());
        law_annotations_are_commented(results.drop_last());
        match results.last() {
            Some(annotation) => {
                law_note_is_commented(annotation);
                let last = note(annotation);
                assert(notes(results).drop_last() =~= before);
                let head = joined(before, "\n"@);
                let all = joined(notes(results), "\n"@);
                if before.len() > 0 {
                    assert(all =~= head + "\n"@ + last);
                    assert(all.subrange(0, 7) =~= head.subrange(0, 7));
                    assert forall|k: int| 0 <= k < all.len() && #[trigger] all[k]
                        == '\n' implies k + 7 <= all.len() && all.subrange(k + 1, k + 7)
                        == "     #"@ by {
                        if k < head.len() {
                            assert(head[k] == '\n');
                            assert(all.subrange(k + 1, k + 7) =~= head.subrange(k + 1, k + 7));
                        } else if k == head.len() {
                            assert(last.subrange(0, 7) == "     # "@);
                            assert(all.subrange(k + 1, k + 7) =~= last.subrange(0, 7).take(6));
                            assert(all.subrange(k + 1, k + 7) =~= "     #"@);
                        } else {
                            let m = k - head.len() - 1;
                            assert(last[m] == '\n');
                            assert(all.subrange(k + 1, k + 7) =~= last.subrange(m + 1, m + 7));
                        }
                    }
                } else {
                    assert(all == last);
                }
            },
            None => {},
        }
    }
}

/// Nothing is printed for annotations exactly when no formatter gave one.
pub proof fn law_no_annotation_no_line(results: Seq<Option<Seq<char>>>)
    ensures
        annotation_lines(results).len() == 0 <==> forall|j: int|
            0 <= j < results.len() ==> (#[trigger] results[j]) is None,
{
    reveal_strlit("     # ");
    law_annotations_are_commented(results);
    lemma_notes_empty(results);
}

proof fn lemma_notes_empty(results: Seq<Option<Seq<char>>>)
    ensures
        notes(results).len() == 0 <==> forall|j: int|
            0 <= j < results.len() ==> (#[trigger] results[j]) is None,
    decreases results.len(),
{
    if results.len() > 0 {
        let before = results.drop_last();
        lemma_notes_empty(before);
        assert(forall|j: int| 0 <= j < before.len() ==> #[trigger] before[j] == results[j]);
        assert(results.last() == results[results.len() - 1]);
        if notes(results).len() == 0 {
            assert forall|j: int| 0 <= j < results.len() implies (#[trigger] results[j]) is None by {
                if j < before.len() {
                    assert(before[j] is None);
                }
            }
        }
    }
}

/// A target without formatters, as a new one or a clone is, prints no annotations.
pub proof fn law_no_formatter_no_line(
    target: FunctionTarget<'_>,
    i: int,
    results: Seq<Option<Seq<char>>>,
)
    requires
        target.annotation_formatters@.len() == 0,
        target.may_annotate(i, results),
    ensures
        annotation_lines(results).len() == 0,
{
    law_no_annotation_no_line(results);
}

} // verus!
