//! The printed form of a function target, for debugging and testing.
use crate::annotations::text_view;
use crate::bytecode::{code_offset, label_map, to_code_offset, AttrId, Bytecode, CodeOffset};
use crate::function_target::{entry, FunctionTarget};
use crate::model::{Loc, Type, TypeParameter};
use crate::text::{
    contents, decimal, decimal_string, join, joined, line_feeds_replaced, replace_line_feeds,
    right_align, right_aligned, trim, trimmed,
};
use std::collections::BTreeMap;
use vstd::prelude::*;
#[allow(unused_imports)]
use vstd::string::StringExecFns;

verus! {

broadcast use vstd::string::group_string_axioms;

// ---------------------------------------------------------------------------------------------
// Annotations

/// An annotation behind a comment sign; so is each line of it but the first.
pub open spec fn note(annotation: Seq<char>) -> Seq<char> {
    "     # "@ + trimmed(line_feeds_replaced(annotation, "\n     # "@))
}

/// The notes for the results of the formatters, for those which gave an annotation.
pub open spec fn notes(results: Seq<Option<Seq<char>>>) -> Seq<Seq<char>>
    decreases results.len(),
{
    if results.len() == 0 {
        Seq::empty()
    } else {
        match results.last() {
            Some(annotation) => notes(results.drop_last()).push(note(annotation)),
            None => notes(results.drop_last()),
        }
    }
}

/// The lines for the results of the formatters.
pub open spec fn annotation_lines(results: Seq<Option<Seq<char>>>) -> Seq<char> {
    let annotations = joined(notes(results), "\n"@);
    if annotations.len() == 0 {
        Seq::empty()
    } else {
        annotations + "\n"@
    }
}

/// The contents of what the formatters gave at one offset.
pub open spec fn result_views(results: Seq<Option<String>>) -> Seq<Option<Seq<char>>> {
    results.map_values(|result: Option<String>| text_view(result))
}

/// The contents of what the formatters gave at each offset.
pub open spec fn all_result_views(results: Seq<Vec<Option<String>>>) -> Seq<
    Seq<Option<Seq<char>>>,
> {
    results.map_values(|at_offset: Vec<Option<String>>| result_views(at_offset@))
}

fn print_note(annotation: &str) -> (r: String)
    ensures
        r@ == note(annotation@),
{
    let replaced = replace_line_feeds(annotation, "\n     # ");
    let mut out = String::from_str("     # ");
    out.append(trim(replaced.as_str()));
    out
}

fn print_annotations(results: &Vec<Option<String>>) -> (r: String)
    ensures
        r@ == annotation_lines(result_views(results@)),
{
    let mut lines: Vec<String> = Vec::new();
    let ghost views = result_views(results@);
    let mut i: usize = 0;
    assert(views.take(0) =~= Seq::empty());
    assert(contents(lines@) =~= Seq::empty());
    while i < results.len()
        invariant
            i <= results@.len(),
            views == result_views(results@),
            contents(lines@) == notes(views.take(i as int)),
        decreases results.len() - i,
    {
        assert(views.take(i + 1).drop_last() =~= views.take(i as int));
        match &results[i] {
            Some(annotation) => {
                let ghost before = lines@;
                let line = print_note(annotation.as_str());
                lines.push(line);
                assert(contents(lines@) =~= contents(before).push(line@));
            },
            None => {},
        }
        i += 1;
    }
    assert(views.take(i as int) =~= views);
    proof {
        reveal_strlit("\n");
    }
    let mut out = join(&lines, "\n");
    if !out.as_str().is_empty() {
        out.append("\n");
    } else {
        assert(out@ =~= Seq::empty());
    }
    out
}

// ---------------------------------------------------------------------------------------------
// Targets

impl<'env> FunctionTarget<'env> {
    /// All names that are printed belong to the symbol pool, and each parameter has a type.
    pub open spec fn printable(self) -> bool {
        let pool = self.func_env.pool();
        &&& pool.contains(self.func_env.name)
        &&& forall|i: int|
            0 <= i < self.func_env.type_parameters@.len() ==> pool.contains(
                (#[trigger] self.func_env.type_parameters@[i]).0,
            )
        &&& forall|i: int|
            0 <= i < self.func_env.locals@.len() && i < self.data.local_types@.len()
                ==> (#[trigger] self.func_env.locals@[i]).name < pool.strings@.len()
        &&& self.func_env.parameter_types@.len() <= self.data.local_types@.len()
    }

    /// The names of the type parameters in angle brackets; nothing if there is none.
    pub open spec fn type_parameters_text(self) -> Seq<char> {
        let names = self.func_env.type_parameters@.map_values(
            |parameter: TypeParameter| self.func_env.pool().text(parameter.0),
        );
        if names.len() == 0 {
            Seq::empty()
        } else {
            "<"@ + joined(names, ", "@) + ">"@
        }
    }

    /// The declaration of a local: its index, its name if the user gave it one, and its type.
    pub open spec fn declaration(self, i: int) -> Seq<char> {
        let name = if i < self.func_env.locals@.len() {
            "|"@ + self.func_env.pool().text(self.func_env.local_name(i as usize))
        } else {
            Seq::empty()
        };
        "$t"@ + decimal(i as nat) + name + ": "@ + self.data.local_types@[i].text@
    }

    /// The declarations of the first `n` locals.
    pub open spec fn declarations(self, n: nat) -> Seq<Seq<char>> {
        Seq::new(n, |i: int| self.declaration(i))
    }

    /// The return types: in round brackets if there are several; nothing if there is none.
    pub open spec fn returns_text(self) -> Seq<char> {
        let types = self.data.return_types@.map_values(|ty: Type| ty.text@);
        if types.len() == 0 {
            Seq::empty()
        } else if types.len() == 1 {
            ": "@ + types[0]
        } else {
            ": "@ + "("@ + joined(types, ", "@) + ")"@
        }
    }

    /// The first line: visibility, name, type parameters, parameters and return types.
    pub open spec fn header(self) -> Seq<char> {
        self.func_env.visibility_text@ + "fun "@ + self.func_env.module_env.name@ + "::"@
            + self.func_env.pool().text(self.func_env.name) + self.type_parameters_text() + "("@
            + joined(self.declarations(self.func_env.parameter_types@.len()), ", "@) + ")"@
            + self.returns_text() + " {\n"@
    }

    /// A line for each local from the end of the parameters up to `n`.
    pub open spec fn variable_lines(self, n: nat) -> Seq<char>
        decreases n,
    {
        if n <= self.func_env.parameter_types@.len() {
            Seq::empty()
        } else {
            self.variable_lines((n - 1) as nat) + "     var "@ + self.declaration(n - 1) + "\n"@
        }
    }

    /// The line for the debug comment of an attribute, if it has one.
    pub open spec fn comment_line(self, attr_id: AttrId) -> Seq<char> {
        match entry(self.data.debug_comments@, attr_id.0) {
            Some(comment) => "     # "@ + comment@ + "\n"@,
            None => Seq::empty(),
        }
    }

    /// The location that is printed for an attribute: the unknown location, if it has none.
    pub open spec fn printed_loc(self, attr_id: AttrId) -> Loc {
        match entry(self.data.locations@, attr_id.0) {
            Some(loc) => loc,
            None => self.func_env.module_env.env.unknown_loc,
        }
    }

    /// The line for the verification condition message of an attribute, if it has one.
    pub open spec fn vc_line(self, attr_id: AttrId) -> Seq<char> {
        match entry(self.data.vc_infos@, attr_id.0) {
            Some(message) => "     # VC: "@ + message@ + " "@ + self.printed_loc(attr_id).text@
                + "\n"@,
            None => Seq::empty(),
        }
    }

    /// The lines for the instruction at offset `i`, given its own text.
    pub open spec fn instruction_lines(
        self,
        i: int,
        results: Seq<Option<Seq<char>>>,
        text: Seq<char>,
    ) -> Seq<char> {
        let attr_id = self.data.code@[i].attr_id();
        self.comment_line(attr_id) + annotation_lines(results) + self.vc_line(attr_id)
            + right_aligned(decimal(i as nat), 3) + ": "@ + text + "\n"@
    }

    /// The lines for the first `n` instructions.
    pub open spec fn code_lines(
        self,
        n: nat,
        results: Seq<Seq<Option<Seq<char>>>>,
        texts: Seq<Seq<char>>,
    ) -> Seq<char>
        decreases n,
    {
        if n == 0 {
            Seq::empty()
        } else {
            self.code_lines((n - 1) as nat, results, texts) + self.instruction_lines(
                n - 1,
                results[n - 1],
                texts[n - 1],
            )
        }
    }

    /// The printed form of this target, given what the formatters give at each offset and the text
    /// of each instruction.
    pub open spec fn rendering(
        self,
        results: Seq<Seq<Option<Seq<char>>>>,
        texts: Seq<Seq<char>>,
    ) -> Seq<char> {
        self.header() + self.variable_lines(self.data.local_types@.len()) + self.code_lines(
            self.data.code@.len(),
            results,
            texts,
        ) + "}\n"@
    }

    fn print_type_parameters(&self) -> (r: String)
        requires
            self.printable(),
        ensures
            r@ == self.type_parameters_text(),
    {
        let tparams = self.get_type_parameters();
        let ghost names = tparams@.map_values(
            |parameter: TypeParameter| self.func_env.pool().text(parameter.0),
        );
        let mut out = String::new();
        if tparams.len() == 0 {
            assert(out@ =~= Seq::empty());
            return out;
        }
        out.append("<");
        let mut i: usize = 0;
        assert(names.take(0) =~= Seq::empty());
        assert(out@ =~= "<"@ + joined(names.take(0), ", "@));
        while i < tparams.len()
            invariant
                i <= tparams@.len(),
                self.printable(),
                tparams@ == self.func_env.type_parameters@,
                names == tparams@.map_values(
                    |parameter: TypeParameter|
                        self.func_env.pool().text(parameter.0),
                ),
                out@ == "<"@ + joined(names.take(i as int), ", "@),
            decreases tparams.len() - i,
        {
            assert(names.take(i + 1).drop_last() =~= names.take(i as int));
            if i > 0 {
                out.append(", ");
            }
            out.append(self.symbol_pool().string(tparams[i].0).as_str());
            assert(out@ =~= "<"@ + joined(names.take(i + 1), ", "@));
            i += 1;
        }
        assert(names.take(i as int) =~= names);
        out.append(">");
        out
    }

    fn print_declaration(&self, i: usize) -> (r: String)
        requires
            self.printable(),
            i < self.data.local_types@.len(),
        ensures
            r@ == self.declaration(i as int),
    {
        let mut out = String::from_str("$t");
        out.append(decimal_string(i).as_str());
        if self.has_local_user_name(i) {
            out.append("|");
            out.append(self.symbol_pool().string(self.get_local_name(i)).as_str());
        }
        out.append(": ");
        out.append(self.get_local_type(i).text.as_str());
        assert(out@ =~= self.declaration(i as int));
        out
    }

    fn print_parameters(&self) -> (r: String)
        requires
            self.printable(),
        ensures
            r@ == joined(self.declarations(self.func_env.parameter_types@.len()), ", "@),
    {
        let count: usize = self.get_parameter_count();
        let mut out = String::new();
        let mut i: usize = 0;
        assert(self.declarations(0) =~= Seq::empty());
        while i < count
            invariant
                i <= count == self.func_env.parameter_types@.len(),
                self.printable(),
                out@ == joined(self.declarations(i as nat), ", "@),
            decreases count - i,
        {
            assert(self.declarations((i + 1) as nat).drop_last() =~= self.declarations(i as nat));
            if i > 0 {
                out.append(", ");
            }
            out.append(self.print_declaration(i).as_str());
            assert(out@ =~= joined(self.declarations((i + 1) as nat), ", "@));
            i += 1;
        }
        out
    }

    fn print_returns(&self) -> (r: String)
        ensures
            r@ == self.returns_text(),
    {
        let ghost types = self.data.return_types@.map_values(|ty: Type| ty.text@);
        let count: usize = self.get_return_count();
        let mut out = String::new();
        if count == 0 {
            assert(out@ =~= Seq::empty());
            return out;
        }
        out.append(": ");
        if count > 1 {
            out.append("(");
        }
        let ghost start = out@;
        let mut i: usize = 0;
        assert(types.take(0) =~= Seq::empty());
        assert(out@ =~= start + joined(types.take(0), ", "@));
        while i < count
            invariant
                i <= count == self.data.return_types@.len(),
                types == self.data.return_types@.map_values(|ty: Type| ty.text@),
                out@ == start + joined(types.take(i as int), ", "@),
            decreases count - i,
        {
            assert(types.take(i + 1).drop_last() =~= types.take(i as int));
            if i > 0 {
                out.append(", ");
            }
            out.append(self.get_return_type(i).text.as_str());
            assert(out@ =~= start + joined(types.take(i + 1), ", "@));
            i += 1;
        }
        assert(types.take(i as int) =~= types);
        if count > 1 {
            out.append(")");
        }
        assert(out@ =~= self.returns_text());
        out
    }

    fn print_header(&self) -> (r: String)
        requires
            self.printable(),
        ensures
            r@ == self.header(),
    {
        let mut out = self.func_env.visibility_text.clone();
        out.append("fun ");
        out.append(self.module_env().name.as_str());
        out.append("::");
        out.append(self.symbol_pool().string(self.get_name()).as_str());
        out.append(self.print_type_parameters().as_str());
        out.append("(");
        out.append(self.print_parameters().as_str());
        out.append(")");
        out.append(self.print_returns().as_str());
        out.append(" {\n");
        out
    }

    fn print_variables(&self) -> (r: String)
        requires
            self.printable(),
        ensures
            r@ == self.variable_lines(self.data.local_types@.len()),
    {
        let mut out = String::new();
        let range = self.get_non_parameter_locals();
        let mut i: usize = range.start;
        while i < range.end
            invariant
                range.start <= i <= range.end,
                range.start == self.func_env.parameter_types@.len(),
                range.end == self.data.local_types@.len(),
                self.printable(),
                out@ == self.variable_lines(i as nat),
            decreases range.end - i,
        {
            out.append("     var ");
            out.append(self.print_declaration(i).as_str());
            out.append("\n");
            i += 1;
        }
        out
    }

    fn print_instruction(&self, i: usize, results: &Vec<Option<String>>, text: &str) -> (r: String)
        requires
            i < self.data.code@.len(),
        ensures
            r@ == self.instruction_lines(i as int, result_views(results@), text@),
    {
        let attr_id = self.data.code[i].get_attr_id();
        let mut out = String::new();
        if let Some(comment) = self.get_debug_comment(attr_id) {
            out.append("     # ");
            out.append(comment.as_str());
            out.append("\n");
        }
        assert(out@ =~= self.comment_line(attr_id));
        let annotations = print_annotations(results);
        out.append(annotations.as_str());
        let ghost before = out@;
        if let Some(message) = self.get_vc_info(attr_id) {
            let loc = match self.data.locations.get(&attr_id.0) {
                Some(loc) => loc,
                None => &self.global_env().unknown_loc,
            };
            out.append("     # VC: ");
            out.append(message.as_str());
            out.append(" ");
            out.append(loc.text.as_str());
            out.append("\n");
        }
        assert(out@ =~= before + self.vc_line(attr_id));
        out.append(right_align(decimal_string(i).as_str(), 3).as_str());
        out.append(": ");
        out.append(text);
        out.append("\n");
        out
    }

    /// Prints this target, given what the formatters give at each offset and the text of each
    /// instruction.
    pub fn render(&self, results: &Vec<Vec<Option<String>>>, texts: &Vec<String>) -> (r: String)
        requires
            self.printable(),
            results@.len() == self.data.code@.len(),
            texts@.len() == self.data.code@.len(),
        ensures
            r@ == self.rendering(all_result_views(results@), contents(texts@)),
    {
        let mut out = self.print_header();
        out.append(self.print_variables().as_str());
        let ghost start = out@;
        let ghost result_seq = all_result_views(results@);
        let ghost text_seq = contents(texts@);
        let mut i: usize = 0;
        assert(out@ =~= start + self.code_lines(0, result_seq, text_seq));
        while i < self.data.code.len()
            invariant
                i <= self.data.code@.len(),
                results@.len() == self.data.code@.len(),
                texts@.len() == self.data.code@.len(),
                result_seq == all_result_views(results@),
                text_seq == contents(texts@),
                out@ == start + self.code_lines(i as nat, result_seq, text_seq),
            decreases self.data.code.len() - i,
        {
            let lines = self.print_instruction(i, &results[i], texts[i].as_str());
            out.append(lines.as_str());
            assert(out@ =~= start + self.code_lines((i + 1) as nat, result_seq, text_seq));
            i += 1;
        }
        out.append("}\n");
        out
    }

    /// Whether the registered formatters may give `results` at the offset `i`.
    pub open spec fn may_annotate(self, i: int, results: Seq<Option<Seq<char>>>) -> bool {
        &&& results.len() == self.annotation_formatters@.len()
        &&& forall|j: int|
            0 <= j < results.len() ==> self.annotation_formatters@[j].0.may_format(
                self.func_env,
                self.data,
                code_offset(i),
                #[trigger] results[j],
            )
    }

    /// Whether `text` may be printed, when the registered formatters give `results` and `print`
    /// gives `texts` for the instructions of this target and the offsets of its labels.
    pub open spec fn may_display<
        P: Fn(&Bytecode, &FunctionTarget<'env>, &BTreeMap<usize, CodeOffset>) -> String,
    >(
        self,
        print: P,
        label_offsets: BTreeMap<usize, CodeOffset>,
        results: Seq<Seq<Option<Seq<char>>>>,
        texts: Seq<String>,
        text: Seq<char>,
    ) -> bool {
        &&& label_offsets@ == label_map(self.data.code@)
        &&& results.len() == self.data.code@.len()
        &&& forall|i: int|
            0 <= i < results.len() ==> self.may_annotate(i, #[trigger] results[i])
        &&& texts.len() == self.data.code@.len()
        &&& forall|i: int|
            0 <= i < texts.len() ==> call_ensures(
                print,
                (&self.data.code@[i], &self, &label_offsets),
                #[trigger] texts[i],
            )
        &&& text == self.rendering(results, contents(texts))
    }

    fn annotate(&self, i: usize) -> (r: Vec<Option<String>>)
        ensures
            self.may_annotate(i as int, result_views(r@)),
    {
        let mut results: Vec<Option<String>> = Vec::new();
        let mut j: usize = 0;
        while j < self.annotation_formatters.len()
            invariant
                j <= self.annotation_formatters@.len(),
                results@.len() == j,
                forall|k: int|
                    0 <= k < j ==> self.annotation_formatters@[k].0.may_format(
                        self.func_env,
                        self.data,
                        code_offset(i as int),
                        text_view(#[trigger] results@[k]),
                    ),
            decreases self.annotation_formatters.len() - j,
        {
            let result = self.annotation_formatters[j].0.format(
                self.func_env,
                self.data,
                to_code_offset(i),
            );
            results.push(result);
            j += 1;
        }
        assert forall|k: int| 0 <= k < results@.len() implies self.annotation_formatters@[k].0.may_format(
            self.func_env,
            self.data,
            code_offset(i as int),
            #[trigger] result_views(results@)[k],
        ) by {
            assert(result_views(results@)[k] == text_view(results@[k]));
        }
        results
    }

    /// Prints this target: its header, its variables, and each instruction with its comments and its
    /// annotations, as the registered formatters give them. The text of an instruction is what
    /// `print` gives for it, for this target and for the offsets of the labels.
    pub fn display<
        P: Fn(&Bytecode, &FunctionTarget<'env>, &BTreeMap<usize, CodeOffset>) -> String,
    >(&self, print: &P) -> (r: String)
        requires
            self.printable(),
            forall|k: int, label_offsets: &BTreeMap<usize, CodeOffset>|
                0 <= k < self.data.code@.len() && label_offsets@ == label_map(self.data.code@)
                    ==> #[trigger] call_requires(*print, (&self.data.code@[k], self, label_offsets)),
        ensures
            exists|
                label_offsets: BTreeMap<usize, CodeOffset>,
                results: Seq<Seq<Option<Seq<char>>>>,
                texts: Seq<String>,
            | #[trigger]
                self.may_display(*print, label_offsets, results, texts, r@),
    {
        let label_offsets = Bytecode::label_offsets(self.get_bytecode());
        let mut results: Vec<Vec<Option<String>>> = Vec::new();
        let mut texts: Vec<String> = Vec::new();
        let mut i: usize = 0;
        while i < self.data.code.len()
            invariant
                i <= self.data.code@.len(),
                results@.len() == i,
                texts@.len() == i,
                label_offsets@ == label_map(self.data.code@),
                forall|k: int, label_offsets: &BTreeMap<usize, CodeOffset>|
                    0 <= k < self.data.code@.len() && label_offsets@ == label_map(self.data.code@)
                        ==> #[trigger] call_requires(
                        *print,
                        (&self.data.code@[k], self, label_offsets),
                    ),
                forall|k: int|
                    0 <= k < i ==> self.may_annotate(
                        k,
                        result_views((#[trigger] results@[k])@),
                    ),
                forall|k: int|
                    0 <= k < i ==> call_ensures(
                        *print,
                        (&self.data.code@[k], self, &label_offsets),
                        #[trigger] texts@[k],
                    ),
            decreases self.data.code.len() - i,
        {
            results.push(self.annotate(i));
            texts.push(print(&self.data.code[i], self, &label_offsets));
            i += 1;
        }
        let out = self.render(&results, &texts);
        proof {
            let views = all_result_views(results@);
            assert forall|k: int| 0 <= k < views.len() implies self.may_annotate(
                k,
                #[trigger] views[k],
            ) by {
                assert(views[k] == result_views(results@[k]@));
            }
            assert(self.may_display(*print, label_offsets, views, texts@, out@));
        }
        out
    }
}

} // verus!
