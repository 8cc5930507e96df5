//! Function targets: the view of a function that analyses and transformations work with.
use crate::annotations::{AnnotationFormatter, AnnotationKind, Annotations};
use crate::bytecode::{AttrId, Bytecode, TempIndex};
use crate::function_data::FunctionData;
use crate::model::{
    Exp, FunId, FunctionEnv, FunctionVisibility, GlobalEnv, Loc, ModuleEnv, QualifiedId, Spec,
    StructId, StructKey, Symbol, SymbolPool, Type, TypeParameter,
};
use crate::text::{parse_index, parsed_index, to_chars};
use std::collections::BTreeMap;
use std::ops::Range;
use vstd::prelude::*;
#[allow(unused_imports)]
use vstd::string::StrSliceExecFns;

verus! {

/// A FunctionTarget is a drop-in replacement for a FunctionEnv which allows to rewrite and analyze
/// bytecode and parameter/local types. It encapsulates a FunctionEnv and information which can be
/// rewritten.
pub struct FunctionTarget<'env> {
    pub func_env: &'env FunctionEnv<'env>,
    pub data: &'env FunctionData,
    /// Used for debugging and testing, containing any attached annotation formatters.
    pub annotation_formatters: Vec<AnnotationFormatter>,
}

impl<'env> Clone for FunctionTarget<'env> {
    /// Annotation formatters are transient and forgotten on clone, so this is a cheap handle.
    fn clone(&self) -> (r: Self)
        ensures
            r.func_env == self.func_env,
            r.data == self.data,
            r.annotation_formatters@.len() == 0,
    {
        FunctionTarget {
            func_env: self.func_env,
            data: self.data,
            annotation_formatters: Vec::new(),
        }
    }
}

/// The entry of a map, if there is one.
pub open spec fn entry<K, V>(map: Map<K, V>, key: K) -> Option<V> {
    if map.contains_key(key) {
        Some(map[key])
    } else {
        None
    }
}

/// The number of mutable references among `types`.
pub open spec fn mut_ref_count(types: Seq<Type>) -> nat
    decreases types.len(),
{
    if types.len() == 0 {
        0
    } else if types.last().mutable_reference {
        mut_ref_count(types.drop_last()) + 1
    } else {
        mut_ref_count(types.drop_last())
    }
}

/// `n`, or the greatest index if `n` does not fit.
pub open spec fn saturated(n: nat) -> usize {
    if n <= usize::MAX {
        n as usize
    } else {
        usize::MAX
    }
}

/// The return index of each mutable reference among the parameters: counted on from the
/// `return_count` ordinary return values, in the order of the parameters.
pub open spec fn mut_ref_map(parameters: Seq<Type>, return_count: nat) -> Map<usize, usize> {
    Map::new(
        |idx: usize| idx < parameters.len() && parameters[idx as int].mutable_reference,
        |idx: usize| saturated(return_count + mut_ref_count(parameters.take(idx as int))),
    )
}

/// What stands for `<N>` in a name of the form `$t<N>$` or `$t<N>`.
pub open spec fn temporary_digits(text: Seq<char>) -> Option<Seq<char>> {
    if text.len() >= 2 && text[0] == '$' && text[1] == 't' {
        let rest = text.skip(2);
        if rest.len() > 0 && rest.last() == '$' {
            Some(rest.drop_last())
        } else {
            Some(rest)
        }
    } else {
        None
    }
}

/// Splits a name of the form `$t<N>$` or `$t<N>`.
fn split_temporary(text: &str) -> (r: Option<&str>)
    ensures
        match r {
            Some(digits) => temporary_digits(text@) == Some(digits@),
            None => temporary_digits(text@) is None,
        },
{
    let chars = to_chars(text);
    let len: usize = chars.len();
    if len >= 2 && chars[0] == '$' && chars[1] == 't' {
        let end: usize = if len > 2 && chars[len - 1] == '$' { len - 1 } else { len };
        let digits = text.substring_char(2, end);
        assert(digits@ =~= temporary_digits(text@)->0);
        Some(digits)
    } else {
        None
    }
}

impl<'env> FunctionTarget<'env> {
    // -----------------------------------------------------------------------------------------
    // Locals

    /// Whether `get_local_index` can tell an index, or that there is none: the name is known, or its
    /// text does not start as that of a temporary, or it denotes an index.
    pub open spec fn is_index_name(self, name: Symbol) -> bool {
        self.data.name_to_index@.contains_key(name.spec_key()) || {
            &&& self.func_env.pool().contains(name)
            &&& match temporary_digits(self.func_env.pool().text(name)) {
                Some(digits) => parsed_index(digits) is Some,
                None => true,
            }
        }
    }

    /// The index that a name stands for: that of a user name, or the one in a name of the form
    /// `$t<N>$` or `$t<N>`.
    pub open spec fn local_index(self, name: Symbol) -> Option<usize> {
        if self.data.name_to_index@.contains_key(name.spec_key()) {
            Some(self.data.name_to_index@[name.spec_key()])
        } else {
            match temporary_digits(self.func_env.pool().text(name)) {
                Some(digits) => parsed_index(digits),
                None => None,
            }
        }
    }

    /// Gets the index corresponding to a local name. The name must either match a user name, or have
    /// the syntax `$t<N>$`, where the second dollar sign may be missing.
    pub fn get_local_index(&self, name: Symbol) -> (r: Option<usize>)
        requires
            self.is_index_name(name),
        ensures
            r == self.local_index(name),
    {
        match self.data.name_to_index.get(&name.key()) {
            Some(idx) => Some(*idx),
            None => {
                let text = self.global_env().symbol_pool.string(name);
                match split_temporary(text.as_str()) {
                    Some(digits) => parse_index(digits),
                    None => None,
                }
            },
        }
    }

    /// Gets the name to be used for a local. If the local has a user name, uses that for naming,
    /// otherwise a unique name generated for it.
    pub fn get_local_name(&self, idx: usize) -> (r: Symbol)
        ensures
            r == self.func_env.local_name(idx),
            idx >= self.func_env.locals@.len() ==> forall|other: usize|
                other != idx ==> #[trigger] self.func_env.local_name(other) != r,
    {
        self.func_env.get_local_name(idx)
    }

    /// Returns true if this local has a user name.
    pub fn has_local_user_name(&self, idx: usize) -> (r: bool)
        ensures
            r == (idx < self.func_env.locals@.len()),
    {
        idx < self.get_user_local_count()
    }

    /// Gets the number of locals of this function, including parameters.
    pub fn get_local_count(&self) -> (r: usize)
        ensures
            r == self.data.local_types@.len(),
    {
        self.data.local_types.len()
    }

    /// Gets the number of user declared locals of this function, excluding locals which have been
    /// introduced by transformations.
    pub fn get_user_local_count(&self) -> (r: usize)
        ensures
            r == self.func_env.locals@.len(),
    {
        self.func_env.get_local_count()
    }

    /// Returns the range of the non-parameter local variables of this function.
    pub fn get_non_parameter_locals(&self) -> (r: Range<usize>)
        ensures
            r.start == self.func_env.parameter_types@.len(),
            r.end == self.data.local_types@.len(),
    {
        self.get_parameter_count()..self.get_local_count()
    }

    /// Returns true if the index is for a temporary, not user declared local.
    pub fn is_temporary(&self, idx: usize) -> (r: bool)
        ensures
            r == self.func_env.spec_is_temporary(idx),
    {
        self.func_env.is_temporary(idx)
    }

    /// Gets the type of the local at index. This must use an index in the range as determined by
    /// `get_local_count`.
    pub fn get_local_type(&self, idx: usize) -> (r: &Type)
        requires
            idx < self.data.local_types@.len(),
        ensures
            *r == self.data.local_types@[idx as int],
    {
        &self.data.local_types[idx]
    }

    // -----------------------------------------------------------------------------------------
    // Mutable references

    /// The types of the parameters, as the data has them.
    pub open spec fn parameters(self) -> Seq<Type> {
        self.data.local_types@.take(self.func_env.parameter_types@.len() as int)
    }

    /// The return index of each mutable reference parameter.
    pub open spec fn spec_mut_ref_mapping(self) -> Map<usize, usize> {
        mut_ref_map(self.parameters(), self.func_env.return_types@.len())
    }

    /// Returns a map from &mut parameters to the return indices associated with them *after* &mut
    /// instrumentation. By convention, the return values are appended after the regular return
    /// values, in the order they are in the parameter list.
    pub fn get_mut_ref_mapping(&self) -> (r: BTreeMap<TempIndex, usize>)
        requires
            self.func_env.parameter_types@.len() <= self.data.local_types@.len(),
        ensures
            r@ == self.spec_mut_ref_mapping(),
    {
        let mut res: BTreeMap<usize, usize> = BTreeMap::new();
        let ghost params = self.parameters();
        let ghost base = self.func_env.return_types@.len();
        let mut ret_index: usize = self.func_env.return_types.len();
        let count: usize = self.get_parameter_count();
        let mut idx: usize = 0;
        assert(params.take(0) =~= Seq::empty());
        assert(res@ =~= mut_ref_map(params.take(0), base));
        while idx < count
            invariant
                idx <= count == params.len(),
                count <= self.data.local_types@.len(),
                params == self.parameters(),
                count == self.func_env.parameter_types@.len(),
                ret_index == saturated(base + mut_ref_count(params.take(idx as int))),
                res@ == mut_ref_map(params.take(idx as int), base),
            decreases count - idx,
        {
            let ghost before = params.take(idx as int);
            let ghost longer = params.take(idx + 1);
            assert(longer.drop_last() =~= before);
            assert(forall|i: int| 0 <= i <= idx ==> #[trigger] longer.take(i) =~= before.take(i));
            assert(longer.take(idx as int) =~= before);
            if self.get_local_type(idx).is_mutable_reference() {
                res.insert(idx, ret_index);
                ret_index = usize::saturating_add(ret_index, 1);
                assert(res@ =~= mut_ref_map(longer, base));
            } else {
                assert(res@ =~= mut_ref_map(longer, base));
            }
            idx += 1;
        }
        assert(params.take(idx as int) =~= params);
        res
    }

    /// Gets index of return parameter for a mutable reference input parameter, or None, if this is
    /// not a mutable reference parameter.
    pub fn get_mut_ref_return_index(&self, idx: usize) -> (r: Option<usize>)
        requires
            self.func_env.parameter_types@.len() <= self.data.local_types@.len(),
        ensures
            r == entry(self.spec_mut_ref_mapping(), idx),
    {
        match self.get_mut_ref_mapping().get(&idx) {
            Some(ret_index) => Some(*ret_index),
            None => None,
        }
    }

    /// Returns true if this is an unchecked parameter. No parameter is.
    pub fn is_unchecked_param(&self, _idx: TempIndex) -> (r: bool)
        ensures
            !r,
    {
        false
    }

    // -----------------------------------------------------------------------------------------
    // Locations and comments

    /// Returns the location of the bytecode with the given attribute; the internal location, if the
    /// attribute has none.
    pub fn get_bytecode_loc(&self, attr_id: AttrId) -> (r: Loc)
        ensures
            r == match entry(self.data.locations@, attr_id.0) {
                Some(loc) => loc,
                None => self.func_env.module_env.env.internal_loc,
            },
    {
        match self.data.locations.get(&attr_id.0) {
            Some(loc) => loc.clone(),
            None => self.global_env().internal_loc.clone(),
        }
    }

    /// Returns the debug comment, if any, associated with the given attribute.
    pub fn get_debug_comment(&self, attr_id: AttrId) -> (r: Option<&String>)
        ensures
            match r {
                Some(comment) => entry(self.data.debug_comments@, attr_id.0) == Some(*comment),
                None => entry(self.data.debug_comments@, attr_id.0) is None,
            },
    {
        self.data.debug_comments.get(&attr_id.0)
    }

    /// Returns the verification condition message, if any, associated with the given attribute.
    pub fn get_vc_info(&self, attr_id: AttrId) -> (r: Option<&String>)
        ensures
            match r {
                Some(message) => entry(self.data.vc_infos@, attr_id.0) == Some(*message),
                None => entry(self.data.vc_infos@, attr_id.0) is None,
            },
    {
        self.data.vc_infos.get(&attr_id.0)
    }

    // -----------------------------------------------------------------------------------------
    // Modify targets

    /// Gets modify targets for a type.
    pub fn get_modify_targets_for_type(&self, ty: &QualifiedId<StructId>) -> (r: Option<&Vec<Exp>>)
        ensures
            match r {
                Some(targets) => entry(self.data.modify_targets@, ty.spec_key()) == Some(*targets),
                None => entry(self.data.modify_targets@, ty.spec_key()) is None,
            },
    {
        self.get_modify_targets().get(&ty.key())
    }

    /// Gets all modify targets.
    pub fn get_modify_targets(&self) -> (r: &BTreeMap<StructKey, Vec<Exp>>)
        ensures
            *r == self.data.modify_targets,
    {
        &self.data.modify_targets
    }

    // -----------------------------------------------------------------------------------------
    // Annotation formatters

    /// Registers a formatter. Each processor which introduces new annotations should register a
    /// formatter in order to get its value printed when a function target is displayed for debugging
    /// or testing.
    pub fn register_annotation_formatter(&mut self, formatter: AnnotationFormatter)
        ensures
            final(self).func_env == old(self).func_env,
            final(self).data == old(self).data,
            final(self).annotation_formatters@ == old(self).annotation_formatters@.push(formatter),
    {
        self.annotation_formatters.push(formatter);
    }

    /// Registers all formatters relevant for tests.
    pub fn register_annotation_formatters_for_test(&mut self)
        ensures
            final(self).func_env == old(self).func_env,
            final(self).data == old(self).data,
            final(self).annotation_formatters@.len() == old(self).annotation_formatters@.len() + 4,
            final(self).annotation_formatters@.take(
                old(self).annotation_formatters@.len() as int,
            ) == old(self).annotation_formatters@,
            ({
                let n = old(self).annotation_formatters@.len() as int;
                let registered = final(self).annotation_formatters@;
                &&& registered[n].is_for_kind(AnnotationKind::LiveVar)
                &&& registered[n + 1].is_for_kind(AnnotationKind::Borrow)
                &&& registered[n + 2].is_for_kind(AnnotationKind::ReachingDef)
                &&& registered[n + 3].is_for_kind(AnnotationKind::ReadWriteSet)
            }),
    {
        self.register_annotation_formatter(AnnotationFormatter::for_kind(AnnotationKind::LiveVar));
        self.register_annotation_formatter(AnnotationFormatter::for_kind(AnnotationKind::Borrow));
        self.register_annotation_formatter(
            AnnotationFormatter::for_kind(AnnotationKind::ReachingDef),
        );
        self.register_annotation_formatter(
            AnnotationFormatter::for_kind(AnnotationKind::ReadWriteSet),
        );
    }

    // -----------------------------------------------------------------------------------------
    // What the function has from its environment and its data

    /// Creates a target with no annotation formatters.
    pub fn new(func_env: &'env FunctionEnv<'env>, data: &'env FunctionData) -> (r: FunctionTarget<
        'env,
    >)
        ensures
            r.func_env == func_env,
            r.data == data,
            r.annotation_formatters@.len() == 0,
    {
        FunctionTarget { func_env, data, annotation_formatters: Vec::new() }
    }

    /// Returns the name of this function.
    pub fn get_name(&self) -> (r: Symbol)
        ensures
            r == self.func_env.name,
    {
        self.func_env.name
    }

    /// Gets the id of this function.
    pub fn get_id(&self) -> (r: FunId)
        ensures
            r == self.func_env.id,
    {
        self.func_env.id
    }

    /// Shortcut for accessing the symbol pool.
    pub fn symbol_pool(&self) -> (r: &SymbolPool)
        ensures
            *r == self.func_env.pool(),
    {
        &self.func_env.module_env.env.symbol_pool
    }

    /// Shortcut for accessing the module env of this function.
    pub fn module_env(&self) -> (r: &ModuleEnv<'env>)
        ensures
            *r == self.func_env.module_env,
    {
        &self.func_env.module_env
    }

    /// Shortcut for accessing the global env of this function.
    pub fn global_env(&self) -> (r: &GlobalEnv)
        ensures
            *r == *self.func_env.module_env.env,
    {
        self.func_env.module_env.env
    }

    /// Returns the location of this function.
    pub fn get_loc(&self) -> (r: Loc)
        ensures
            r == self.func_env.loc,
    {
        self.func_env.loc.clone()
    }

    /// Returns true if this function is native.
    pub fn is_native(&self) -> (r: bool)
        ensures
            r == self.func_env.native,
    {
        self.func_env.native
    }

    /// Returns true if this function is marked as intrinsic.
    pub fn is_intrinsic(&self) -> (r: bool)
        ensures
            r == self.func_env.intrinsic,
    {
        self.func_env.intrinsic
    }

    /// Returns true if this function is opaque.
    pub fn is_opaque(&self) -> (r: bool)
        ensures
            r == self.func_env.opaque,
    {
        self.func_env.opaque
    }

    /// Returns true if this function is public.
    pub fn is_public(&self) -> (r: bool)
        ensures
            r == self.func_env.public,
    {
        self.func_env.public
    }

    /// Returns the visibility of this function.
    pub fn visibility(&self) -> (r: FunctionVisibility)
        ensures
            r == self.func_env.visibility,
    {
        self.func_env.visibility
    }

    /// Returns true if this function mutates any references (i.e. has &mut parameters).
    pub fn is_mutating(&self) -> (r: bool)
        ensures
            r == self.func_env.spec_is_mutating(),
    {
        self.func_env.is_mutating()
    }

    /// Returns the type parameters associated with this function.
    pub fn get_type_parameters(&self) -> (r: Vec<TypeParameter>)
        ensures
            r@ == self.func_env.type_parameters@,
    {
        let r = self.func_env.type_parameters.clone();
        assert(r@ =~= self.func_env.type_parameters@);
        r
    }

    /// Returns return type at given index.
    pub fn get_return_type(&self, idx: usize) -> (r: &Type)
        requires
            idx < self.data.return_types@.len(),
        ensures
            *r == self.data.return_types@[idx as int],
    {
        &self.data.return_types[idx]
    }

    /// Returns return types of this function.
    pub fn get_return_types(&self) -> (r: &[Type])
        ensures
            r@ == self.data.return_types@,
    {
        self.data.return_types.as_slice()
    }

    /// Returns the number of return values of this function.
    pub fn get_return_count(&self) -> (r: usize)
        ensures
            r == self.data.return_types@.len(),
    {
        self.data.return_types.len()
    }

    /// Returns the number of parameters of this function.
    pub fn get_parameter_count(&self) -> (r: usize)
        ensures
            r == self.func_env.parameter_types@.len(),
    {
        self.func_env.parameter_types.len()
    }

    /// Returns the range of this function's parameters.
    pub fn get_parameters(&self) -> (r: Range<usize>)
        ensures
            r.start == 0,
            r.end == self.func_env.parameter_types@.len(),
    {
        0..self.func_env.parameter_types.len()
    }

    /// Returns specification associated with this function.
    pub fn get_spec(&self) -> (r: &'env Spec)
        ensures
            *r == self.func_env.spec,
    {
        &self.func_env.spec
    }

    /// Returns the value of a boolean pragma for this function. This first looks up a pragma in this
    /// function, then the enclosing module, and finally uses the provided default.
    pub fn is_pragma_true(&self, name: &str, default: impl FnOnce() -> bool) -> (r: bool)
        requires
            self.func_env.pragma_value(name@) is None ==> call_requires(default, ()),
        ensures
            match self.func_env.pragma_value(name@) {
                Some(value) => r == value,
                None => call_ensures(default, (), r),
            },
    {
        self.func_env.is_pragma_true(name, default)
    }

    /// Gets the bytecode.
    pub fn get_bytecode(&self) -> (r: &[Bytecode])
        ensures
            r@ == self.data.code@,
    {
        self.data.code.as_slice()
    }

    /// Gets annotations.
    pub fn get_annotations(&self) -> (r: &Annotations)
        ensures
            *r == self.data.annotations,
    {
        &self.data.annotations
    }

    /// Gets acquired resources.
    pub fn get_acquires_global_resources(&self) -> (r: &[StructId])
        ensures
            r@ == self.data.acquires_global_resources@,
    {
        self.data.acquires_global_resources.as_slice()
    }
}

} // verus!
