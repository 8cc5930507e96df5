//! What the printed form of a target holds.
use crate::bytecode::{label_map, Bytecode, CodeOffset};
use crate::display::{all_result_views, annotation_lines, note, notes};
use crate::function_target::FunctionTarget;
use crate::laws::law_annotations_are_commented;
use crate::laws::text::{law_joined_parts, lemma_replaced_none};
use crate::model::{Symbol, Type, TypeParameter};
use crate::text::{
    contents, decimal_string, is_white_space, joined, line_feeds_replaced, right_align, trimmed,
    trimmed_end, trimmed_start,
};
use std::collections::BTreeMap;
use vstd::prelude::*;

verus! {

broadcast use vstd::string::group_string_axioms;

// ---------------------------------------------------------------------------------------------
// Locals

/// Each local of the source is declared with its name, parameter or not, temporary or not; any
/// other local without one. Both are declared with their index and their type.
pub proof fn law_declaration(target: FunctionTarget<'_>, i: usize, digits: String)
    requires
        call_ensures(decimal_string, (i,), digits),
    ensures
        i < target.func_env.locals@.len() ==> target.declaration(i as int) == "$t"@ + digits@ + "|"@
            + target.func_env.module_env.env.symbol_pool.text(
            Symbol::Interned(target.func_env.locals@[i as int].name),
        ) + ": "@ + target.data.local_types@[i as int].text@,
        i >= target.func_env.locals@.len() ==> target.declaration(i as int) == "$t"@ + digits@
            + ": "@ + target.data.local_types@[i as int].text@,
{
    if i < target.func_env.locals@.len() {
        assert(target.declaration(i as int) =~= "$t"@ + digits@ + "|"@
            + target.func_env.module_env.env.symbol_pool.text(
            Symbol::Interned(target.func_env.locals@[i as int].name),
        ) + ": "@ + target.data.local_types@[i as int].text@);
    } else {
        assert(target.declaration(i as int) =~= "$t"@ + digits@ + ": "@
            + target.data.local_types@[i as int].text@);
    }
}

/// There is no line for a parameter, and one line for each other local, with its declaration.
pub proof fn law_variable_lines(target: FunctionTarget<'_>, n: nat)
    ensures
        n < target.func_env.parameter_types@.len() ==> target.variable_lines(n + 1).len() == 0,
        target.variable_lines(target.func_env.parameter_types@.len()).len() == 0,
        n >= target.func_env.parameter_types@.len() ==> target.variable_lines(n + 1)
            == target.variable_lines(n) + ("     var "@ + target.declaration(n as int) + "\n"@),
{
    if n >= target.func_env.parameter_types@.len() {
        assert(target.variable_lines(n + 1) =~= target.variable_lines(n) + ("     var "@
            + target.declaration(n as int) + "\n"@));
    }
}

// ---------------------------------------------------------------------------------------------
// The first line

/// The type parameters are printed by their names, with commas between and in angle brackets;
/// without type parameters there are no brackets.
pub proof fn law_type_parameters(target: FunctionTarget<'_>, names: Seq<Seq<char>>)
    requires
        names.len() == target.func_env.type_parameters@.len(),
        forall|i: int|
            0 <= i < names.len() ==> #[trigger] names[i]
                == target.func_env.module_env.env.symbol_pool.text(
                target.func_env.type_parameters@[i].0,
            ),
    ensures
        names.len() == 0 ==> target.type_parameters_text().len() == 0,
        names.len() > 0 ==> target.type_parameters_text() == "<"@ + joined(names, ", "@) + ">"@,
{
    assert(names =~= target.func_env.type_parameters@.map_values(
        |parameter: TypeParameter| target.func_env.pool().text(parameter.0),
    ));
}

/// The return types of the data are printed with commas between, in round brackets only if there
/// are at least two; without return types there is nothing.
pub proof fn law_returns(target: FunctionTarget<'_>, types: Seq<Seq<char>>)
    requires
        types.len() == target.data.return_types@.len(),
        forall|i: int|
            0 <= i < types.len() ==> #[trigger] types[i] == target.data.return_types@[i].text@,
    ensures
        types.len() == 0 ==> target.returns_text().len() == 0,
        types.len() == 1 ==> target.returns_text() == ": "@ + types[0],
        types.len() > 1 ==> target.returns_text() == ": ("@ + joined(types, ", "@) + ")"@,
{
    assert(types =~= target.data.return_types@.map_values(|ty: Type| ty.text@));
    reveal_strlit(": ");
    reveal_strlit("(");
    reveal_strlit(": (");
    assert(": "@ + "("@ =~= ": ("@);
}

/// The first line has the visibility, the module, the name, the type parameters, the declarations
/// of all parameters with commas between, and the return types.
pub proof fn law_header(target: FunctionTarget<'_>, parameters: Seq<Seq<char>>)
    requires
        parameters.len() == target.func_env.parameter_types@.len(),
        forall|i: int|
            0 <= i < parameters.len() ==> #[trigger] parameters[i] == target.declaration(i),
    ensures
        target.header() == target.func_env.visibility_text@ + "fun "@
            + target.func_env.module_env.name@ + "::"@
            + target.func_env.module_env.env.symbol_pool.text(target.func_env.name)
            + target.type_parameters_text() + "("@ + joined(parameters, ", "@) + ")"@
            + target.returns_text() + " {\n"@,
{
    assert(parameters =~= target.declarations(target.func_env.parameter_types@.len()));
}

// ---------------------------------------------------------------------------------------------
// Annotations

proof fn lemma_notes_parts(a: Seq<Option<Seq<char>>>, b: Seq<Option<Seq<char>>>)
    ensures
        notes(a + b) == notes(a) + notes(b),
    decreases b.len(),
{
    if b.len() == 0 {
        assert(a + b =~= a);
        assert(notes(a) + notes(b) =~= notes(a));
    } else {
        assert((a + b).drop_last() =~= a + b.drop_last());
        assert((a + b).last() == b.last());
        lemma_notes_parts(a, b.drop_last());
        assert(notes(a + b) =~= notes(a) + notes(b));
    }
}

proof fn lemma_joined_notes_len(results: Seq<Option<Seq<char>>>)
    ensures
        joined(notes(results), "\n"@).len() == 0 <==> notes(results).len() == 0,
{
    law_annotations_are_commented(results);
    reveal_strlit("     # ");
}

/// What one formatter gives is printed whatever the others give: the lines for the results of
/// several formatters are those for the first ones, then those for the others.
pub proof fn law_annotations_of_each(a: Seq<Option<Seq<char>>>, b: Seq<Option<Seq<char>>>)
    ensures
        annotation_lines(a + b) == annotation_lines(a) + annotation_lines(b),
{
    lemma_notes_parts(a, b);
    lemma_joined_notes_len(a);
    lemma_joined_notes_len(b);
    lemma_joined_notes_len(a + b);
    let all = annotation_lines(a + b);
    if notes(a).len() == 0 {
        assert(notes(a + b) =~= notes(b));
        assert(all =~= annotation_lines(a) + annotation_lines(b));
    } else if notes(b).len() == 0 {
        assert(notes(a + b) =~= notes(a));
        assert(all =~= annotation_lines(a) + annotation_lines(b));
    } else {
        law_joined_parts(notes(a), notes(b), "\n"@);
        assert(all =~= annotation_lines(a) + annotation_lines(b));
    }
}

/// An annotation of one formatter is printed as a line; nothing is printed where it gives none.
pub proof fn law_annotation_of_one(annotation: Seq<char>)
    ensures
        annotation_lines(seq![Some(annotation)]) == note(annotation) + "\n"@,
        annotation_lines(seq![None]).len() == 0,
        annotation_lines(Seq::empty()).len() == 0,
{
    let one = seq![Some(annotation)];
    let none: Seq<Option<Seq<char>>> = seq![None];
    assert(one.drop_last() =~= Seq::empty());
    assert(none.drop_last() =~= Seq::empty());
    assert(notes(one.drop_last()) =~= Seq::empty());
    assert(notes(one) =~= seq![note(annotation)]);
    assert(notes(none) =~= Seq::empty());
    lemma_joined_notes_len(one);
    lemma_joined_notes_len(none);
    lemma_joined_notes_len(Seq::empty());
}

/// An annotation is printed behind a comment sign; it is trimmed, after each line feed got a
/// comment sign behind it.
pub proof fn law_note(annotation: Seq<char>)
    ensures
        note(annotation) == "     # "@ + trimmed(line_feeds_replaced(annotation, "\n     # "@)),
{
}

/// An annotation of a single line, without white space at its ends, is printed as it is.
pub proof fn law_note_of_line(annotation: Seq<char>)
    requires
        forall|i: int| 0 <= i < annotation.len() ==> annotation[i] != '\n',
        annotation.len() > 0,
        !is_white_space(annotation[0]),
        !is_white_space(annotation.last()),
    ensures
        note(annotation) == "     # "@ + annotation,
{
    lemma_replaced_none(annotation, "\n     # "@);
    assert(trimmed_start(annotation) == annotation);
    assert(trimmed_end(annotation) == annotation);
}

// ---------------------------------------------------------------------------------------------
// Instructions

/// The lines for an instruction of any kind, one after another: the debug comment of its attribute,
/// the annotations that the formatters gave, the message of its attribute with the location of its
/// attribute, and its offset and text.
pub proof fn law_instruction_lines(
    target: FunctionTarget<'_>,
    i: usize,
    attr: usize,
    results: Seq<Option<Seq<char>>>,
    text: Seq<char>,
    digits: String,
    digits_str: &str,
    number: String,
)
    requires
        match target.data.code@[i as int] {
            Bytecode::Label(a, _) => a.0 == attr,
            Bytecode::Operation(a, _) => a.0 == attr,
        },
        call_ensures(decimal_string, (i,), digits),
        digits_str@ == digits@,
        call_ensures(right_align, (digits_str, 3), number),
    ensures
        ({
            let comment = if target.data.debug_comments@.contains_key(attr) {
                "     # "@ + target.data.debug_comments@[attr]@ + "\n"@
            } else {
                Seq::empty()
            };
            let loc = if target.data.locations@.contains_key(attr) {
                target.data.locations@[attr]
            } else {
                target.func_env.module_env.env.unknown_loc
            };
            let message = if target.data.vc_infos@.contains_key(attr) {
                "     # VC: "@ + target.data.vc_infos@[attr]@ + " "@ + loc.text@ + "\n"@
            } else {
                Seq::empty()
            };
            target.instruction_lines(i as int, results, text) == comment + annotation_lines(results)
                + message + number@ + ": "@ + text + "\n"@
        }),
{
    assert(target.data.code@[i as int].attr_id().0 == attr);
}

/// The annotations that are printed for an instruction do not depend on its kind: they make its
/// lines longer by just as much as they are long.
pub proof fn law_annotations_are_printed(
    target: FunctionTarget<'_>,
    i: usize,
    results: Seq<Option<Seq<char>>>,
    text: Seq<char>,
)
    ensures
        target.instruction_lines(i as int, results, text).len() == target.instruction_lines(
            i as int,
            Seq::empty(),
            text,
        ).len() + annotation_lines(results).len(),
{
    law_annotation_of_one(Seq::empty());
}

/// The instructions are printed one after another, each with what the formatters gave at its offset
/// and with its own text.
pub proof fn law_code_lines(
    target: FunctionTarget<'_>,
    n: nat,
    results: Seq<Seq<Option<Seq<char>>>>,
    texts: Seq<Seq<char>>,
)
    ensures
        target.code_lines(0, results, texts).len() == 0,
        target.code_lines(n + 1, results, texts) == target.code_lines(n, results, texts)
            + target.instruction_lines(n as int, results[n as int], texts[n as int]),
{
}

// ---------------------------------------------------------------------------------------------
// The whole

/// The whole is the first line, the lines of all other locals, the lines of all instructions, and
/// the closing bracket.
pub proof fn law_rendering(
    target: FunctionTarget<'_>,
    results: Seq<Seq<Option<Seq<char>>>>,
    texts: Seq<Seq<char>>,
)
    ensures
        target.rendering(results, texts) == target.header() + target.variable_lines(
            target.data.local_types@.len(),
        ) + target.code_lines(target.data.code@.len(), results, texts) + "}\n"@,
{
}

/// `render` gives the whole for the given results and texts.
pub proof fn law_render(
    target: &FunctionTarget<'_>,
    results: &Vec<Vec<Option<String>>>,
    texts: &Vec<String>,
    result_seq: Seq<Seq<Option<Seq<char>>>>,
    text_seq: Seq<Seq<char>>,
    r: String,
)
    requires
        call_ensures(FunctionTarget::render, (target, results, texts), r),
        result_seq.len() == results@.len(),
        forall|i: int|
            0 <= i < results@.len() ==> (#[trigger] result_seq[i]).len() == results@[i]@.len(),
        forall|i: int, j: int|
            0 <= i < results@.len() && 0 <= j < results@[i]@.len() ==> #[trigger] result_seq[i][j]
                == match results@[i]@[j] {
                Some(s) => Some(s@),
                None => None,
            },
        text_seq.len() == texts@.len(),
        forall|i: int| 0 <= i < texts@.len() ==> #[trigger] text_seq[i] == texts@[i]@,
    ensures
        r@ == target.header() + target.variable_lines(target.data.local_types@.len())
            + target.code_lines(target.data.code@.len(), result_seq, text_seq) + "}\n"@,
{
    let views = all_result_views(results@);
    assert forall|i: int| 0 <= i < views.len() implies #[trigger] views[i] == result_seq[i] by {
        assert(views[i] =~= result_seq[i]);
    }
    assert(views =~= result_seq);
    assert(contents(texts@) =~= text_seq);
}

/// A target can be printed when the names that are printed are in the pool and each parameter has a
/// type.
pub proof fn law_printable(
    target: &FunctionTarget<'_>,
    results: &Vec<Vec<Option<String>>>,
    texts: &Vec<String>,
)
    requires
        target.func_env.module_env.env.symbol_pool.contains(target.func_env.name),
        forall|i: int|
            0 <= i < target.func_env.type_parameters@.len()
                ==> target.func_env.module_env.env.symbol_pool.contains(
                (#[trigger] target.func_env.type_parameters@[i]).0,
            ),
        forall|i: int|
            0 <= i < target.func_env.locals@.len() ==> (
            #[trigger] target.func_env.locals@[i]).name
                < target.func_env.module_env.env.symbol_pool.strings@.len(),
        target.func_env.parameter_types@.len() <= target.data.local_types@.len(),
        results@.len() == target.data.code@.len(),
        texts@.len() == target.data.code@.len(),
    ensures
        call_requires(FunctionTarget::render, (target, results, texts)),
{
}

/// `display` gives the whole: each registered formatter is asked for each instruction, with the
/// function and the data of the target and the offset, in the order of registration, and `print`
/// for each instruction, with this target and the places of its labels.
pub proof fn law_display<
    'env,
    P: Fn(&Bytecode, &FunctionTarget<'env>, &BTreeMap<usize, CodeOffset>) -> String,
>(target: &FunctionTarget<'env>, print: &P, r: String) -> (found: (
    BTreeMap<usize, CodeOffset>,
    Seq<Seq<Option<Seq<char>>>>,
    Seq<String>,
    Seq<Seq<char>>,
))
    requires
        call_ensures(FunctionTarget::display::<P>, (target, print), r),
    ensures
        found.0@ == label_map(target.data.code@),
        found.1.len() == target.data.code@.len(),
        forall|i: int|
            0 <= i < found.1.len() ==> (#[trigger] found.1[i]).len()
                == target.annotation_formatters@.len(),
        forall|i: int, j: int|
            0 <= i < found.1.len() && 0 <= j < target.annotation_formatters@.len()
                ==> target.annotation_formatters@[j].0.may_format(
                target.func_env,
                target.data,
                (i % 0x1_0000) as CodeOffset,
                #[trigger] found.1[i][j],
            ),
        found.2.len() == target.data.code@.len(),
        forall|i: int|
            0 <= i < found.2.len() ==> call_ensures(
                *print,
                (&target.data.code@[i], target, &found.0),
                #[trigger] found.2[i],
            ),
        found.3.len() == found.2.len(),
        forall|i: int| 0 <= i < found.2.len() ==> #[trigger] found.3[i] == found.2[i]@,
        r@ == target.header() + target.variable_lines(target.data.local_types@.len())
            + target.code_lines(target.data.code@.len(), found.1, found.3) + "}\n"@,
{
    let (label_offsets, results, texts) = choose|
        label_offsets: BTreeMap<usize, CodeOffset>,
        results: Seq<Seq<Option<Seq<char>>>>,
        texts: Seq<String>,
    | #[trigger]
        target.may_display(*print, label_offsets, results, texts, r@);
    assert forall|i: int, j: int|
        0 <= i < results.len() && 0 <= j
            < target.annotation_formatters@.len() implies target.annotation_formatters@[j].0.may_format(
        target.func_env,
        target.data,
        (i % 0x1_0000) as CodeOffset,
        #[trigger] results[i][j],
    ) by {
        assert(target.may_annotate(i, results[i]));
    }
    assert forall|i: int| 0 <= i < results.len() implies (#[trigger] results[i]).len()
        == target.annotation_formatters@.len() by {
        assert(target.may_annotate(i, results[i]));
    }
    (label_offsets, results, texts, contents(texts))
}

} // verus!
