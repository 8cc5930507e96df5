//! The environment that a function target reads: symbols, types, locations, modules and functions.
//!
//! What only the surrounding model can compute (how a type or a location is printed, which
//! resources a specification modifies) is held here as a plain value.
use crate::text::{decimal, decimal_string};
use std::collections::BTreeMap;
use vstd::prelude::*;
#[allow(unused_imports)]
use vstd::string::StringExecFns;

verus! {

// ---------------------------------------------------------------------------------------------
// Symbols

/// A name.
#[derive(Debug, Clone, Copy, PartialEq, Eq, Structural)]
pub enum Symbol {
    /// A name that the symbol pool holds, by its index there.
    Interned(usize),
    /// The name that is made up for the local of this index, where the user gave it none.
    Generated(usize),
}

/// The key of a symbol in maps.
pub type SymbolKey = (u8, usize);

impl Symbol {
    pub open spec fn spec_key(self) -> SymbolKey {
        match self {
            Symbol::Interned(index) => (0, index),
            Symbol::Generated(idx) => (1, idx),
        }
    }

    /// Returns the key of this symbol in maps.
    pub fn key(&self) -> (r: SymbolKey)
        ensures
            r == self.spec_key(),
    {
        match self {
            Symbol::Interned(index) => (0, *index),
            Symbol::Generated(idx) => (1, *idx),
        }
    }
}

/// The texts of the interned symbols.
#[derive(Debug)]
pub struct SymbolPool {
    pub strings: Vec<String>,
}

/// The first index in `strings` of the given text.
pub open spec fn first_index(strings: Seq<String>, text: Seq<char>) -> Option<usize>
    decreases strings.len(),
{
    if strings.len() == 0 {
        None
    } else {
        match first_index(strings.drop_last(), text) {
            Some(index) => Some(index),
            None => if strings.last()@ == text {
                Some((strings.len() - 1) as usize)
            } else {
                None
            },
        }
    }
}

impl SymbolPool {
    /// Whether the symbol has a text: a generated one always does.
    pub open spec fn contains(self, symbol: Symbol) -> bool {
        match symbol {
            Symbol::Interned(index) => index < self.strings@.len(),
            Symbol::Generated(_) => true,
        }
    }

    /// The text of a symbol; that of a generated one is `$t<N>`, with the index of its local.
    pub open spec fn text(self, symbol: Symbol) -> Seq<char> {
        match symbol {
            Symbol::Interned(index) => self.strings@[index as int]@,
            Symbol::Generated(idx) => "$t"@ + decimal(idx as nat),
        }
    }

    /// No text occurs twice in the pool.
    pub open spec fn no_text_twice(self) -> bool {
        forall|a: int, b: int|
            0 <= a < self.strings@.len() && 0 <= b < self.strings@.len() && #[trigger] self.strings@[a]@
                == #[trigger] self.strings@[b]@ ==> a == b
    }

    /// Returns the text of a symbol.
    pub fn string(&self, symbol: Symbol) -> (r: String)
        requires
            self.contains(symbol),
        ensures
            r@ == self.text(symbol),
    {
        match symbol {
            Symbol::Interned(index) => self.strings[index].clone(),
            Symbol::Generated(idx) => {
                let mut out = String::from_str("$t");
                out.append(decimal_string(idx).as_str());
                out
            },
        }
    }

    /// Returns the index of the given text in the pool, if it is there.
    pub fn find(&self, text: &str) -> (r: Option<usize>)
        ensures
            r == first_index(self.strings@, text@),
    {
        let wanted = String::from_str(text);
        let mut i: usize = 0;
        assert(self.strings@.take(0) =~= Seq::empty());
        while i < self.strings.len()
            invariant
                i <= self.strings@.len(),
                wanted@ == text@,
                first_index(self.strings@.take(i as int), text@) is None,
            decreases self.strings.len() - i,
        {
            let ghost longer = self.strings@.take(i + 1);
            assert(longer.drop_last() =~= self.strings@.take(i as int));
            if self.strings[i] == wanted {
                proof {
                    lemma_first_index_prefix(self.strings@, text@, i + 1);
                }
                return Some(i);
            }
            i += 1;
        }
        assert(self.strings@.take(i as int) =~= self.strings@);
        None
    }
}

proof fn lemma_first_index_prefix(strings: Seq<String>, text: Seq<char>, k: int)
    requires
        0 <= k <= strings.len(),
        first_index(strings.take(k), text) is Some,
    ensures
        first_index(strings, text) == first_index(strings.take(k), text),
    decreases strings.len(),
{
    if k == strings.len() {
        assert(strings.take(k) =~= strings);
    } else {
        assert(strings.drop_last().take(k) =~= strings.take(k));
        lemma_first_index_prefix(strings.drop_last(), text, k);
    }
}

/// A text of the pool is found at its index, if no text occurs twice.
pub proof fn lemma_find_index(pool: SymbolPool, index: usize)
    requires
        pool.no_text_twice(),
        pool.contains(Symbol::Interned(index)),
    ensures
        first_index(pool.strings@, pool.text(Symbol::Interned(index))) == Some(index),
{
    let text = pool.strings@[index as int]@;
    let upto = pool.strings@.take(index + 1);
    assert(upto.last()@ == text);
    assert(first_index(upto, text) is Some);
    lemma_first_index_prefix(pool.strings@, text, index + 1);
    assert(pool.strings@.len() == pool.strings.len());
    lemma_first_index_sound(pool.strings@, text);
}

proof fn lemma_first_index_sound(strings: Seq<String>, text: Seq<char>)
    requires
        strings.len() <= usize::MAX,
    ensures
        match first_index(strings, text) {
            Some(index) => index < strings.len() && strings[index as int]@ == text,
            None => true,
        },
    decreases strings.len(),
{
    if strings.len() > 0 {
        lemma_first_index_sound(strings.drop_last(), text);
    }
}

// ---------------------------------------------------------------------------------------------
// Locations and types

/// A source location, as it is printed.
#[derive(Debug)]
pub struct Loc {
    pub text: String,
}

impl Clone for Loc {
    fn clone(&self) -> (r: Self)
        ensures
            r == *self,
    {
        Loc { text: self.text.clone() }
    }
}

/// A type: whether it is a mutable reference, and how it is printed.
#[derive(Debug)]
pub struct Type {
    pub mutable_reference: bool,
    pub text: String,
}

impl Type {
    /// Returns true if this is a mutable reference.
    pub fn is_mutable_reference(&self) -> (r: bool)
        ensures
            r == self.mutable_reference,
    {
        self.mutable_reference
    }
}

impl Clone for Type {
    fn clone(&self) -> (r: Self)
        ensures
            r == *self,
    {
        Type { mutable_reference: self.mutable_reference, text: self.text.clone() }
    }
}

/// What a type argument must satisfy, as the code that the model gives it.
#[derive(Debug, Clone, Copy, PartialEq, Eq, Structural)]
pub struct TypeConstraint(pub u8);

/// A type parameter: its name and its constraint.
#[derive(Debug, Clone, Copy, PartialEq, Eq, Structural)]
pub struct TypeParameter(pub Symbol, pub TypeConstraint);

// ---------------------------------------------------------------------------------------------
// Identifiers

#[derive(Debug, Clone, Copy, PartialEq, Eq, Structural)]
pub struct ModuleId(pub usize);

#[derive(Debug, Clone, Copy, PartialEq, Eq, Structural)]
pub struct FunId(pub usize);

#[derive(Debug, Clone, Copy, PartialEq, Eq, Structural)]
pub struct StructId(pub usize);

/// An identifier together with the module that it belongs to.
#[derive(Debug)]
pub struct QualifiedId<Id> {
    pub module_id: ModuleId,
    pub id: Id,
}

/// The key of a struct in maps over qualified struct identifiers.
pub type StructKey = (usize, usize);

impl QualifiedId<StructId> {
    pub open spec fn spec_key(self) -> StructKey {
        (self.module_id.0, self.id.0)
    }

    /// Returns the key of this struct in maps.
    pub fn key(&self) -> (r: StructKey)
        ensures
            r == self.spec_key(),
    {
        (self.module_id.0, self.id.0)
    }
}

// ---------------------------------------------------------------------------------------------
// Specifications

/// An expression of the model, by its node.
#[derive(Debug, Clone, Copy, PartialEq, Eq, Structural)]
pub struct Exp(pub usize);

/// A specification block: its boolean pragmas by the index of their name in the pool, and its conditions.
#[derive(Debug)]
pub struct Spec {
    pub pragmas: BTreeMap<usize, bool>,
    pub conditions: Vec<Exp>,
}

impl Spec {
    /// The value of the pragma with the given name.
    pub open spec fn pragma_value(self, pool: SymbolPool, name: Seq<char>) -> Option<bool> {
        match first_index(pool.strings@, name) {
            Some(index) => if self.pragmas@.contains_key(index) {
                Some(self.pragmas@[index])
            } else {
                None
            },
            None => None,
        }
    }

    /// Returns the value of the pragma with the given name, if this block has it.
    pub fn get_pragma(&self, pool: &SymbolPool, name: &str) -> (r: Option<bool>)
        ensures
            r == self.pragma_value(*pool, name@),
    {
        match pool.find(name) {
            Some(index) => match self.pragmas.get(&index) {
                Some(value) => Some(*value),
                None => None,
            },
            None => None,
        }
    }
}

// ---------------------------------------------------------------------------------------------
// Environments

/// What is shared by all modules.
#[derive(Debug)]
pub struct GlobalEnv {
    pub symbol_pool: SymbolPool,
    /// The location of what has no source because it was made internally.
    pub internal_loc: Loc,
    /// The location of what has an unknown source.
    pub unknown_loc: Loc,
}

/// A module.
#[derive(Debug)]
pub struct ModuleEnv<'env> {
    pub env: &'env GlobalEnv,
    pub id: ModuleId,
    /// The name of the module, as it is printed.
    pub name: String,
    pub spec: Spec,
}

#[derive(Debug, Clone, Copy, PartialEq, Eq, Structural)]
pub enum FunctionVisibility {
    Private,
    Public,
    Script,
    Friend,
}

/// A user declared local of a function, parameters included.
#[derive(Debug, Clone, Copy, PartialEq, Eq, Structural)]
pub struct LocalVariable {
    /// The index of its name in the symbol pool.
    pub name: usize,
    /// Whether the compiler made this local, rather than the user.
    pub temporary: bool,
}

/// A function of the model.
#[derive(Debug)]
pub struct FunctionEnv<'env> {
    pub module_env: ModuleEnv<'env>,
    pub id: FunId,
    pub name: Symbol,
    pub loc: Loc,
    pub native: bool,
    pub intrinsic: bool,
    pub opaque: bool,
    pub public: bool,
    pub visibility: FunctionVisibility,
    /// What is printed before `fun` for the visibility of this function.
    pub visibility_text: String,
    pub type_parameters: Vec<TypeParameter>,
    pub parameter_types: Vec<Type>,
    pub return_types: Vec<Type>,
    /// The locals of the source, parameters first.
    pub locals: Vec<LocalVariable>,
    pub spec: Spec,
    /// The expressions that this function may modify, by the struct of the resource.
    pub modify_targets: BTreeMap<StructKey, Vec<Exp>>,
}

impl<'env> FunctionEnv<'env> {
    /// The pool that the symbols of this function belong to.
    pub open spec fn pool(self) -> SymbolPool {
        self.module_env.env.symbol_pool
    }

    /// The names of the user declared locals.
    pub open spec fn user_names(self) -> Seq<Symbol> {
        self.locals@.map_values(|local: LocalVariable| Symbol::Interned(local.name))
    }

    /// The name of a local: that of the user, or a generated one behind those.
    pub open spec fn local_name(self, idx: usize) -> Symbol {
        if idx < self.locals@.len() {
            Symbol::Interned(self.locals@[idx as int].name)
        } else {
            Symbol::Generated(idx)
        }
    }

    /// Returns the number of user declared locals.
    pub fn get_local_count(&self) -> (r: usize)
        ensures
            r == self.locals@.len(),
    {
        self.locals.len()
    }

    /// Returns the name of a local: that of the user, or a generated one, which no other local has.
    pub fn get_local_name(&self, idx: usize) -> (r: Symbol)
        ensures
            r == self.local_name(idx),
            idx >= self.locals@.len() ==> forall|other: usize|
                other != idx ==> #[trigger] self.local_name(other) != r,
    {
        if idx < self.locals.len() {
            Symbol::Interned(self.locals[idx].name)
        } else {
            Symbol::Generated(idx)
        }
    }

    pub open spec fn spec_is_temporary(self, idx: usize) -> bool {
        idx >= self.locals@.len() || self.locals@[idx as int].temporary
    }

    /// Returns true if the index is for a temporary, not user declared local.
    pub fn is_temporary(&self, idx: usize) -> (r: bool)
        ensures
            r == self.spec_is_temporary(idx),
    {
        idx >= self.locals.len() || self.locals[idx].temporary
    }

    pub open spec fn spec_is_mutating(self) -> bool {
        exists|i: int|
            0 <= i < self.parameter_types@.len()
                && (#[trigger] self.parameter_types@[i]).mutable_reference
    }

    /// Returns true if a parameter is a mutable reference.
    pub fn is_mutating(&self) -> (r: bool)
        ensures
            r == self.spec_is_mutating(),
    {
        let mut i: usize = 0;
        while i < self.parameter_types.len()
            invariant
                i <= self.parameter_types@.len(),
                forall|j: int|
                    0 <= j < i ==> !(#[trigger] self.parameter_types@[j]).mutable_reference,
            decreases self.parameter_types.len() - i,
        {
            if self.parameter_types[i].is_mutable_reference() {
                return true;
            }
            i += 1;
        }
        false
    }

    /// The value of a boolean pragma: that of the function, else that of its module.
    pub open spec fn pragma_value(self, name: Seq<char>) -> Option<bool> {
        match self.spec.pragma_value(self.pool(), name) {
            Some(value) => Some(value),
            None => self.module_env.spec.pragma_value(self.pool(), name),
        }
    }

    /// Returns the value of a boolean pragma. This first looks up the pragma in this function, then
    /// in the enclosing module, and finally uses the provided default.
    pub fn is_pragma_true(&self, name: &str, default: impl FnOnce() -> bool) -> (r: bool)
        requires
            self.pragma_value(name@) is None ==> call_requires(default, ()),
        ensures
            match self.pragma_value(name@) {
                Some(value) => r == value,
                None => call_ensures(default, (), r),
            },
    {
        let pool = &self.module_env.env.symbol_pool;
        match self.spec.get_pragma(pool, name) {
            Some(value) => value,
            None => match self.module_env.spec.get_pragma(pool, name) {
                Some(value) => value,
                None => default(),
            },
        }
    }
}

} // verus!
