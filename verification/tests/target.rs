use function_target::annotations::{
    AnnotationFormatter, AnnotationKind, Annotations, FormatAnnotation,
};
use function_target::bytecode::{AttrId, Bytecode, CodeOffset, Label, OperationId};
use function_target::function_data::{FunctionData, FunctionDataBuilder, FunctionVariant};
use function_target::function_target::FunctionTarget;
use function_target::model::{
    Exp, FunId, FunctionEnv, FunctionVisibility, GlobalEnv, Loc, LocalVariable, ModuleEnv, ModuleId,
    QualifiedId, Spec, StructId, Symbol, SymbolPool, Type, TypeConstraint, TypeParameter,
};
use std::collections::BTreeMap;

fn text(s: &str) -> String {
    String::from(s)
}

fn loc(s: &str) -> Loc {
    Loc { text: text(s) }
}

fn plain(s: &str) -> Type {
    Type { mutable_reference: false, text: text(s) }
}

fn mut_ref(s: &str) -> Type {
    Type { mutable_reference: true, text: text(s) }
}

fn local(name: usize, temporary: bool) -> LocalVariable {
    LocalVariable { name, temporary }
}

const TRANSFER: usize = 0;
const T: usize = 1;
const U: usize = 2;
const FROM: usize = 3;
const AMOUNT: usize = 4;
const X: usize = 5;
const DOLLAR_T3: usize = 6;
const DOLLAR_T4_DOLLAR: usize = 7;
const PLUS: usize = 8;
const OTHER: usize = 9;
const OPAQUE: usize = 10;
const VERIFY: usize = 11;

fn global() -> GlobalEnv {
    let strings = [
        "transfer", "T", "U", "from", "amount", "x", "$t3", "$t4$", "$t+12", "other", "opaque",
        "verify",
    ];
    GlobalEnv {
        symbol_pool: SymbolPool { strings: strings.iter().map(|s| text(s)).collect() },
        internal_loc: loc("<internal>"),
        unknown_loc: loc("<unknown>"),
    }
}

fn spec(pragmas: &[(usize, bool)]) -> Spec {
    Spec { pragmas: pragmas.iter().cloned().collect(), conditions: vec![Exp(1), Exp(2)] }
}

fn function<'env>(env: &'env GlobalEnv) -> FunctionEnv<'env> {
    let mut modify_targets: BTreeMap<(usize, usize), Vec<Exp>> = BTreeMap::new();
    modify_targets.insert((1, 2), vec![Exp(7), Exp(8)]);
    FunctionEnv {
        module_env: ModuleEnv {
            env,
            id: ModuleId(1),
            name: text("Coin"),
            spec: spec(&[(OPAQUE, true), (VERIFY, true)]),
        },
        id: FunId(42),
        name: Symbol::Interned(TRANSFER),
        loc: loc("coin.move:1"),
        native: false,
        intrinsic: true,
        opaque: false,
        public: true,
        visibility: FunctionVisibility::Public,
        visibility_text: text("public "),
        type_parameters: vec![
            TypeParameter(Symbol::Interned(T), TypeConstraint(0)),
            TypeParameter(Symbol::Interned(U), TypeConstraint(3)),
        ],
        parameter_types: vec![mut_ref("&mut Account"), plain("u64")],
        return_types: vec![plain("u64"), plain("bool")],
        locals: vec![local(FROM, false), local(AMOUNT, false), local(X, true)],
        spec: spec(&[(OPAQUE, false)]),
        modify_targets,
    }
}

fn op(attr: usize, n: usize) -> Bytecode {
    Bytecode::Operation(AttrId(attr), OperationId(n))
}

fn label(attr: usize, n: usize) -> Bytecode {
    Bytecode::Label(AttrId(attr), Label(n))
}

fn data(func_env: &FunctionEnv<'_>) -> FunctionData {
    let mut locations: BTreeMap<usize, Loc> = BTreeMap::new();
    locations.insert(5, loc("coin.move:5"));
    FunctionData::new(
        func_env,
        vec![op(3, 0), label(5, 2), op(4, 1)],
        vec![mut_ref("&mut Account"), plain("u64"), plain("address"), plain("bool")],
        vec![plain("u64"), plain("bool")],
        locations,
        vec![StructId(6), StructId(9)],
    )
}

fn print(
    code: &Bytecode,
    target: &FunctionTarget<'_>,
    label_offsets: &BTreeMap<usize, CodeOffset>,
) -> String {
    match code {
        Bytecode::Label(_, label) => format!("label L{}", label.as_usize()),
        Bytecode::Operation(_, operation) => format!(
            "op {} of {} among {:?}",
            operation.0,
            target.symbol_pool().string(target.get_name()),
            label_offsets
        ),
    }
}

fn type_texts(types: &[Type]) -> Vec<&str> {
    types.iter().map(|ty| ty.text.as_str()).collect()
}

// -------------------------------------------------------------------------------------------------
// Data

#[test]
fn new_data_is_baseline_and_bare() {
    let env = global();
    let func_env = function(&env);
    let d = data(&func_env);
    assert_eq!(d.variant, FunctionVariant::Baseline);
    assert_eq!(d.code, vec![op(3, 0), label(5, 2), op(4, 1)]);
    assert_eq!(type_texts(&d.local_types), ["&mut Account", "u64", "address", "bool"]);
    assert_eq!(type_texts(&d.return_types), ["u64", "bool"]);
    assert_eq!(d.acquires_global_resources, vec![StructId(6), StructId(9)]);
    assert_eq!(d.locations.len(), 1);
    assert_eq!(d.locations[&5].text, "coin.move:5");
    assert!(d.debug_comments.is_empty());
    assert!(d.vc_infos.is_empty());
    assert!(d.annotations.texts.is_empty());
    let names: Vec<((u8, usize), usize)> = d.name_to_index.iter().map(|(k, v)| (*k, *v)).collect();
    assert_eq!(names, [((0, FROM), 0), ((0, AMOUNT), 1), ((0, X), 2)]);
    assert_eq!(d.modify_targets.len(), 1);
    assert_eq!(d.modify_targets[&(1, 2)], vec![Exp(7), Exp(8)]);
}

#[test]
fn of_equal_names_the_last_index_counts() {
    let env = global();
    let mut func_env = function(&env);
    func_env.locals = vec![local(FROM, false), local(X, false), local(FROM, false)];
    let d = data(&func_env);
    let names: Vec<((u8, usize), usize)> = d.name_to_index.iter().map(|(k, v)| (*k, *v)).collect();
    assert_eq!(names, [((0, FROM), 2), ((0, X), 1)]);
}

#[test]
fn next_free_indices() {
    let env = global();
    let func_env = function(&env);
    let mut d = data(&func_env);
    assert_eq!(d.next_free_attr_index(), 6);
    assert_eq!(d.next_free_label_index(), 3);
    d.code.push(label(0, 9));
    d.code.push(label(17, 4));
    assert_eq!(d.next_free_attr_index(), 18);
    assert_eq!(d.next_free_label_index(), 10);
    d.code = vec![op(0, 0)];
    assert_eq!(d.next_free_attr_index(), 1);
    assert_eq!(d.next_free_label_index(), 1);
    d.code = vec![];
    assert_eq!(d.next_free_attr_index(), 1);
    assert_eq!(d.next_free_label_index(), 1);
    d.code = vec![op(usize::MAX - 1, 0), label(0, usize::MAX - 1)];
    assert_eq!(d.next_free_attr_index(), usize::MAX);
    assert_eq!(d.next_free_label_index(), usize::MAX);
}

#[test]
fn a_next_index_given_away_moves_the_next_one() {
    let env = global();
    let func_env = function(&env);
    let mut d = data(&func_env);
    let attr = d.next_free_attr_index();
    let next_label = d.next_free_label_index();
    d.code.push(label(attr, next_label));
    assert_eq!(d.next_free_attr_index(), attr + 1);
    assert_eq!(d.next_free_label_index(), next_label + 1);
}

#[test]
fn renaming_changes_nothing() {
    let env = global();
    let func_env = function(&env);
    let mut d = data(&func_env);
    let before = format!("{:?}", d);
    d.rename_vars(&|idx| idx + 100);
    assert_eq!(format!("{:?}", d), before);
}

#[test]
fn a_fork_keeps_all_but_variant_and_annotations() {
    let env = global();
    let func_env = function(&env);
    let mut d = data(&func_env);
    d.debug_comments.insert(3, text("start"));
    d.vc_infos.insert(4, text("may overflow"));
    d.annotations.texts.insert((AnnotationKind::Borrow.code(), 0), text("borrow: x"));
    let f = d.fork(FunctionVariant::Derived(2));
    assert_eq!(f.variant, FunctionVariant::Derived(2));
    assert!(f.annotations.texts.is_empty());
    assert_eq!(f.code, d.code);
    assert_eq!(type_texts(&f.local_types), type_texts(&d.local_types));
    assert_eq!(type_texts(&f.return_types), type_texts(&d.return_types));
    assert!(f.local_types[0].mutable_reference);
    assert!(!f.local_types[1].mutable_reference);
    assert_eq!(f.acquires_global_resources, d.acquires_global_resources);
    assert_eq!(format!("{:?}", f.locations), format!("{:?}", d.locations));
    assert_eq!(f.debug_comments, d.debug_comments);
    assert_eq!(f.vc_infos, d.vc_infos);
    assert_eq!(f.name_to_index, d.name_to_index);
    assert_eq!(f.modify_targets, d.modify_targets);
    let back = f.fork(FunctionVariant::Baseline);
    d.annotations = Annotations::default();
    assert_eq!(format!("{:?}", back), format!("{:?}", d));
}

#[test]
fn a_clone_of_the_data_keeps_the_annotations() {
    let env = global();
    let func_env = function(&env);
    let mut d = data(&func_env);
    d.annotations.texts.insert((AnnotationKind::Borrow.code(), 0), text("borrow: x"));
    assert_eq!(format!("{:?}", d.clone()), format!("{:?}", d));
}

#[test]
fn a_builder_changes_the_data() {
    let env = global();
    let func_env = function(&env);
    let mut d = data(&func_env);
    let next_attr_index = d.next_free_attr_index();
    let builder = FunctionDataBuilder { data: &mut d, next_attr_index };
    builder.data.code.push(op(builder.next_attr_index, 5));
    assert_eq!(d.code[3], op(6, 5));
}

// -------------------------------------------------------------------------------------------------
// Accessors

#[test]
fn what_comes_from_the_environment() {
    let env = global();
    let func_env = function(&env);
    let d = data(&func_env);
    let target = FunctionTarget::new(&func_env, &d);
    assert_eq!(target.get_name(), Symbol::Interned(TRANSFER));
    assert_eq!(target.symbol_pool().string(target.get_name()), "transfer");
    assert_eq!(target.get_id(), FunId(42));
    assert_eq!(target.module_env().name, "Coin");
    assert_eq!(target.global_env().internal_loc.text, "<internal>");
    assert_eq!(target.get_loc().text, "coin.move:1");
    assert!(!target.is_native());
    assert!(target.is_intrinsic());
    assert!(!target.is_opaque());
    assert!(target.is_public());
    assert_eq!(target.visibility(), FunctionVisibility::Public);
    assert_eq!(
        target.get_type_parameters(),
        vec![
            TypeParameter(Symbol::Interned(T), TypeConstraint(0)),
            TypeParameter(Symbol::Interned(U), TypeConstraint(3)),
        ]
    );
    assert_eq!(target.get_spec().conditions, vec![Exp(1), Exp(2)]);
}

#[test]
fn what_comes_from_the_data() {
    let env = global();
    let func_env = function(&env);
    let d = data(&func_env);
    let target = FunctionTarget::new(&func_env, &d);
    assert_eq!(target.get_return_count(), 2);
    assert_eq!(target.get_return_type(1).text, "bool");
    assert_eq!(type_texts(target.get_return_types()), ["u64", "bool"]);
    assert_eq!(target.get_parameter_count(), 2);
    assert_eq!(target.get_parameters(), 0..2);
    assert_eq!(target.get_local_count(), 4);
    assert_eq!(target.get_user_local_count(), 3);
    assert_eq!(target.get_non_parameter_locals(), 2..4);
    assert_eq!(target.get_local_type(2).text, "address");
    assert_eq!(target.get_bytecode(), [op(3, 0), label(5, 2), op(4, 1)]);
    assert!(target.get_annotations().texts.is_empty());
    assert_eq!(target.get_acquires_global_resources(), [StructId(6), StructId(9)]);
    assert!(!target.is_unchecked_param(0));
    assert!(!target.is_unchecked_param(7));
}

#[test]
fn every_local_is_a_parameter_or_another_local() {
    let env = global();
    let func_env = function(&env);
    let d = data(&func_env);
    let target = FunctionTarget::new(&func_env, &d);
    for idx in 0..target.get_local_count() {
        assert!(
            target.get_parameters().contains(&idx)
                != target.get_non_parameter_locals().contains(&idx)
        );
    }
}

#[test]
fn locations_fall_back_to_the_internal_one() {
    let env = global();
    let func_env = function(&env);
    let d = data(&func_env);
    let target = FunctionTarget::new(&func_env, &d);
    assert_eq!(target.get_bytecode_loc(AttrId(5)).text, "coin.move:5");
    assert_eq!(target.get_bytecode_loc(AttrId(3)).text, "<internal>");
}

#[test]
fn comments_and_messages_of_attributes() {
    let env = global();
    let func_env = function(&env);
    let mut d = data(&func_env);
    d.debug_comments.insert(3, text("start"));
    d.vc_infos.insert(4, text("may overflow"));
    let target = FunctionTarget::new(&func_env, &d);
    assert_eq!(target.get_debug_comment(AttrId(3)), Some(&text("start")));
    assert_eq!(target.get_debug_comment(AttrId(4)), None);
    assert_eq!(target.get_vc_info(AttrId(4)), Some(&text("may overflow")));
    assert_eq!(target.get_vc_info(AttrId(3)), None);
}

#[test]
fn modify_targets_by_type() {
    let env = global();
    let func_env = function(&env);
    let d = data(&func_env);
    let target = FunctionTarget::new(&func_env, &d);
    let known = QualifiedId { module_id: ModuleId(1), id: StructId(2) };
    let unknown = QualifiedId { module_id: ModuleId(2), id: StructId(1) };
    assert_eq!(target.get_modify_targets_for_type(&known), Some(&vec![Exp(7), Exp(8)]));
    assert_eq!(target.get_modify_targets_for_type(&unknown), None);
    assert_eq!(target.get_modify_targets().len(), 1);
}

#[test]
fn pragmas_of_function_module_and_default() {
    let env = global();
    let func_env = function(&env);
    let d = data(&func_env);
    let target = FunctionTarget::new(&func_env, &d);
    assert!(!target.is_pragma_true("opaque", || true));
    assert!(target.is_pragma_true("verify", || false));
    assert!(target.is_pragma_true("other", || true));
    assert!(!target.is_pragma_true("other", || false));
    assert!(target.is_pragma_true("not a symbol", || true));
    assert!(!target.is_pragma_true("not a symbol", || false));
}

#[test]
fn symbols_are_found_by_their_text() {
    let env = global();
    assert_eq!(env.symbol_pool.find("amount"), Some(AMOUNT));
    assert_eq!(env.symbol_pool.find("missing"), None);
}

// -------------------------------------------------------------------------------------------------
// Locals

#[test]
fn names_of_locals() {
    let env = global();
    let func_env = function(&env);
    let d = data(&func_env);
    let target = FunctionTarget::new(&func_env, &d);
    assert_eq!(target.get_local_name(0), Symbol::Interned(FROM));
    assert_eq!(target.get_local_name(2), Symbol::Interned(X));
    assert_eq!(target.get_local_name(3), Symbol::Generated(3));
    assert_eq!(target.get_local_name(usize::MAX), Symbol::Generated(usize::MAX));
    assert_eq!(target.symbol_pool().string(target.get_local_name(12)), "$t12");
    assert_eq!(target.symbol_pool().string(target.get_local_name(1)), "amount");
    assert!(target.has_local_user_name(2));
    assert!(!target.has_local_user_name(3));
    assert!(!target.is_temporary(0));
    assert!(target.is_temporary(2));
    assert!(target.is_temporary(3));
    assert!(target.is_temporary(usize::MAX));
}

#[test]
fn indices_of_names() {
    let env = global();
    let func_env = function(&env);
    let d = data(&func_env);
    let target = FunctionTarget::new(&func_env, &d);
    assert_eq!(target.get_local_index(Symbol::Interned(AMOUNT)), Some(1));
    assert_eq!(target.get_local_index(Symbol::Interned(DOLLAR_T3)), Some(3));
    assert_eq!(target.get_local_index(Symbol::Interned(DOLLAR_T4_DOLLAR)), Some(4));
    assert_eq!(target.get_local_index(Symbol::Interned(PLUS)), Some(12));
    assert_eq!(target.get_local_index(Symbol::Interned(OTHER)), None);
}

#[test]
fn the_index_of_the_name_of_a_local_is_that_of_the_local() {
    let env = global();
    let func_env = function(&env);
    let d = data(&func_env);
    let target = FunctionTarget::new(&func_env, &d);
    for idx in [0usize, 1, 2, 3, 4, 5, 10, 65536, usize::MAX] {
        assert_eq!(target.get_local_index(target.get_local_name(idx)), Some(idx));
    }
}

#[test]
fn a_generated_name_is_that_of_no_other_local() {
    let env = global();
    let func_env = function(&env);
    let d = data(&func_env);
    let target = FunctionTarget::new(&func_env, &d);
    let pool = target.symbol_pool();
    for idx in 3..40 {
        let name = target.get_local_name(idx);
        assert_eq!(name, func_env.get_local_name(idx));
        for other in 0..40 {
            if other != idx {
                assert_ne!(target.get_local_name(other), name);
                assert_ne!(pool.string(target.get_local_name(other)), pool.string(name));
            }
        }
    }
}

#[test]
fn a_user_name_goes_before_the_number_in_it() {
    let env = global();
    let mut func_env = function(&env);
    func_env.locals[1].name = DOLLAR_T3;
    let d = data(&func_env);
    let target = FunctionTarget::new(&func_env, &d);
    assert_eq!(target.get_local_index(Symbol::Interned(DOLLAR_T3)), Some(1));
}

// -------------------------------------------------------------------------------------------------
// Mutable references

#[test]
fn return_indices_of_mutable_references() {
    let env = global();
    let mut func_env = function(&env);
    func_env.parameter_types = vec![
        plain("u64"),
        mut_ref("&mut A"),
        plain("&B"),
        mut_ref("&mut C"),
    ];
    let mut d = data(&func_env);
    d.local_types = vec![
        plain("u64"),
        mut_ref("&mut A"),
        plain("&B"),
        mut_ref("&mut C"),
        mut_ref("&mut D"),
    ];
    // The regular return values are counted in the source, not in the data.
    d.return_types = vec![];
    let target = FunctionTarget::new(&func_env, &d);
    let mapping: Vec<(usize, usize)> =
        target.get_mut_ref_mapping().iter().map(|(k, v)| (*k, *v)).collect();
    assert_eq!(mapping, [(1, 2), (3, 3)]);
    assert_eq!(target.get_mut_ref_return_index(0), None);
    assert_eq!(target.get_mut_ref_return_index(1), Some(2));
    assert_eq!(target.get_mut_ref_return_index(2), None);
    assert_eq!(target.get_mut_ref_return_index(3), Some(3));
    assert_eq!(target.get_mut_ref_return_index(4), None);
    assert!(target.is_mutating());
}

#[test]
fn no_mutable_references() {
    let env = global();
    let mut func_env = function(&env);
    func_env.parameter_types = vec![plain("u64"), plain("&B")];
    let mut d = data(&func_env);
    d.local_types = vec![plain("u64"), plain("&B")];
    let target = FunctionTarget::new(&func_env, &d);
    assert!(target.get_mut_ref_mapping().is_empty());
    assert!(!target.is_mutating());
}

// -------------------------------------------------------------------------------------------------
// Printing

#[test]
fn printed_form_of_a_target() {
    let env = global();
    let func_env = function(&env);
    let mut d = data(&func_env);
    d.debug_comments.insert(3, text("start"));
    d.vc_infos.insert(4, text("may overflow"));
    d.vc_infos.insert(5, text("reached"));
    let target = FunctionTarget::new(&func_env, &d);
    assert_eq!(
        target.display(&print),
        "public fun Coin::transfer<T, U>($t0|from: &mut Account, $t1|amount: u64): (u64, bool) {\n     \
         var $t2|x: address\n     \
         var $t3: bool\n     \
         # start\n  \
         0: op 0 of transfer among {2: 1}\n     \
         # VC: reached coin.move:5\n  \
         1: label L2\n     \
         # VC: may overflow <unknown>\n  \
         2: op 1 of transfer among {2: 1}\n\
         }\n"
    );
}

#[test]
fn printed_form_of_a_bare_function() {
    let env = global();
    let mut func_env = function(&env);
    func_env.visibility_text = text("");
    func_env.type_parameters = vec![];
    func_env.parameter_types = vec![];
    let mut d = data(&func_env);
    d.local_types = vec![];
    d.return_types = vec![];
    d.code = vec![];
    let target = FunctionTarget::new(&func_env, &d);
    assert_eq!(target.display(&print), "fun Coin::transfer() {\n}\n");
}

#[test]
fn one_return_value_has_no_brackets() {
    let env = global();
    let mut func_env = function(&env);
    func_env.type_parameters.truncate(1);
    func_env.parameter_types.truncate(1);
    let mut d = data(&func_env);
    d.local_types.truncate(1);
    d.return_types = vec![plain("vector<u8>")];
    d.code = vec![];
    let target = FunctionTarget::new(&func_env, &d);
    assert_eq!(
        target.display(&print),
        "public fun Coin::transfer<T>($t0|from: &mut Account): vector<u8> {\n}\n"
    );
}

#[test]
fn offsets_are_aligned_to_three_characters() {
    let env = global();
    let func_env = function(&env);
    let mut d = data(&func_env);
    d.code = (0..1001).map(|i| op(0, i)).collect();
    let target = FunctionTarget::new(&func_env, &d);
    let printed = target.display(&print);
    assert!(printed.contains("\n  9: op 9 of transfer among {}\n 10: op 10 of"));
    assert!(printed.contains("\n 99: op 99 of transfer among {}\n100: op 100 of"));
    assert!(printed.contains("\n999: op 999 of transfer among {}\n1000: op 1000 of"));
}

#[test]
fn label_offsets_point_to_the_labels() {
    let offsets = Bytecode::label_offsets(&[label(0, 4), op(0, 0), label(0, 7), label(0, 4)]);
    let offsets: Vec<(usize, CodeOffset)> = offsets.iter().map(|(k, v)| (*k, *v)).collect();
    assert_eq!(offsets, [(4, 3), (7, 2)]);
    let mut long: Vec<Bytecode> = (0..65537).map(|i| op(0, i)).collect();
    long.push(label(0, 1));
    assert_eq!(Bytecode::label_offsets(&long)[&1], 1);
}

struct Shout {
    word: &'static str,
}

impl FormatAnnotation for Shout {
    fn format(
        &self,
        func_env: &FunctionEnv<'_>,
        data: &FunctionData,
        offset: CodeOffset,
    ) -> Option<String> {
        if offset == 1 {
            None
        } else {
            let target = FunctionTarget::new(func_env, data);
            let name = target.symbol_pool().string(target.get_name());
            Some(format!("{} {}\nat {} of {}\n", self.word, name, offset, data.code.len()))
        }
    }
}

#[test]
fn annotations_of_any_formatter() {
    let env = global();
    let func_env = function(&env);
    let d = data(&func_env);
    let mut target = FunctionTarget::new(&func_env, &d);
    target.register_annotation_formatter(AnnotationFormatter(Box::new(Shout { word: " hey" })));
    target.register_annotation_formatter(AnnotationFormatter(Box::new(Shout { word: "ho" })));
    let printed = target.display(&print);
    let body = printed.split_once("bool\n").unwrap().1;
    assert_eq!(
        body,
        "     # hey transfer\n     # at 0 of 3\n     #\n     # ho transfer\n     # at 0 of 3\n     #\n  \
         0: op 0 of transfer among {2: 1}\n  \
         1: label L2\n     \
         # hey transfer\n     # at 2 of 3\n     #\n     # ho transfer\n     # at 2 of 3\n     #\n  \
         2: op 1 of transfer among {2: 1}\n\
         }\n"
    );
}

#[test]
fn a_clone_forgets_the_formatters() {
    let env = global();
    let func_env = function(&env);
    let d = data(&func_env);
    let mut target = FunctionTarget::new(&func_env, &d);
    let bare = target.display(&print);
    target.register_annotation_formatter(AnnotationFormatter(Box::new(Shout { word: "hey" })));
    assert_ne!(target.display(&print), bare);
    let cloned = target.clone();
    assert!(cloned.annotation_formatters.is_empty());
    assert_eq!(cloned.get_id(), target.get_id());
    assert_eq!(cloned.display(&print), bare);
}

#[test]
fn formatters_for_tests_print_all_kinds_in_order() {
    let env = global();
    let func_env = function(&env);
    let mut d = data(&func_env);
    d.annotations.texts.insert((AnnotationKind::LiveVar.code(), 0), text("live vars: x"));
    d.annotations.texts.insert((AnnotationKind::Borrow.code(), 0), text("borrowed: y"));
    d.annotations.texts.insert((AnnotationKind::ReachingDef.code(), 0), text("reaching: z"));
    d.annotations.texts.insert((AnnotationKind::ReadWriteSet.code(), 0), text("accesses: w"));
    d.annotations.texts.insert((AnnotationKind::ReadWriteSet.code(), 2), text("accesses: v"));
    let mut target = FunctionTarget::new(&func_env, &d);
    target.register_annotation_formatters_for_test();
    assert_eq!(target.annotation_formatters.len(), 4);
    let printed = target.display(&print);
    let body = printed.split_once("bool\n").unwrap().1;
    assert_eq!(
        body,
        "     # live vars: x\n     # borrowed: y\n     # reaching: z\n     # accesses: w\n  \
         0: op 0 of transfer among {2: 1}\n  \
         1: label L2\n     \
         # accesses: v\n  \
         2: op 1 of transfer among {2: 1}\n\
         }\n"
    );
}

#[test]
fn comments_annotations_and_messages_come_in_this_order() {
    let env = global();
    let func_env = function(&env);
    let mut d = data(&func_env);
    d.code.truncate(1);
    d.debug_comments.insert(3, text("comment"));
    d.vc_infos.insert(3, text("message"));
    d.annotations.texts.insert((AnnotationKind::Borrow.code(), 0), text("annotation"));
    let mut target = FunctionTarget::new(&func_env, &d);
    target.register_annotation_formatters_for_test();
    let printed = target.display(&print);
    let body = printed.split_once("bool\n").unwrap().1;
    assert_eq!(
        body,
        "     # comment\n     # annotation\n     # VC: message <unknown>\n  \
         0: op 0 of transfer among {}\n}\n"
    );
}

#[test]
fn given_texts_are_rendered() {
    let env = global();
    let func_env = function(&env);
    let mut d = data(&func_env);
    d.code.truncate(2);
    let target = FunctionTarget::new(&func_env, &d);
    let results = vec![
        vec![None, Some(text("one\ntwo")), Some(text(" three "))],
        vec![None, None, None],
    ];
    let texts = vec![text("nop"), text("ret")];
    let rendered = target.render(&results, &texts);
    assert_eq!(
        rendered.split_once("bool\n").unwrap().1,
        "     # one\n     # two\n     # three\n  0: nop\n  1: ret\n}\n"
    );
}

#[test]
fn a_fork_prints_as_its_origin() {
    let env = global();
    let func_env = function(&env);
    let mut d = data(&func_env);
    d.debug_comments.insert(3, text("start"));
    let f = d.fork(FunctionVariant::Derived(1));
    assert_eq!(
        FunctionTarget::new(&func_env, &f).display(&print),
        FunctionTarget::new(&func_env, &d).display(&print)
    );
}

#[test]
fn formatters_see_wrapped_offsets() {
    let env = global();
    let func_env = function(&env);
    let mut d = data(&func_env);
    d.code = (0..65538).map(|i| op(0, i)).collect();
    d.annotations.texts.insert((AnnotationKind::LiveVar.code(), 1), text("live"));
    let mut target = FunctionTarget::new(&func_env, &d);
    target.register_annotation_formatters_for_test();
    let printed = target.display(&|_: &Bytecode, _: &FunctionTarget<'_>, _: &BTreeMap<usize, u16>| {
        text("nop")
    });
    assert_eq!(printed.matches("     # live\n").count(), 2);
    assert!(printed.contains("     # live\n  1: nop\n"));
    assert!(printed.contains("     # live\n65537: nop\n"));
}
