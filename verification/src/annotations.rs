//! Annotations of instructions, and the formatters that print them.
use crate::bytecode::CodeOffset;
use crate::function_data::FunctionData;
use crate::model::FunctionEnv;
use std::collections::BTreeMap;
use vstd::prelude::*;

verus! {

/// The analyses whose annotations can be printed.
#[derive(Debug, Clone, Copy, PartialEq, Eq, Structural)]
pub enum AnnotationKind {
    LiveVar,
    Borrow,
    ReachingDef,
    ReadWriteSet,
}

impl AnnotationKind {
    pub open spec fn spec_code(self) -> u8 {
        match self {
            AnnotationKind::LiveVar => 0,
            AnnotationKind::Borrow => 1,
            AnnotationKind::ReachingDef => 2,
            AnnotationKind::ReadWriteSet => 3,
        }
    }

    /// Returns the number under which annotations of this kind are kept.
    pub fn code(&self) -> (r: u8)
        ensures
            r == self.spec_code(),
    {
        match self {
            AnnotationKind::LiveVar => 0,
            AnnotationKind::Borrow => 1,
            AnnotationKind::ReachingDef => 2,
            AnnotationKind::ReadWriteSet => 3,
        }
    }
}

/// The annotations of a function, as they are printed, by the number of their kind and the offset
/// of their instruction.
#[derive(Debug)]
pub struct Annotations {
    pub texts: BTreeMap<(u8, CodeOffset), String>,
}

impl Annotations {
    /// The annotation of the given kind at `offset`.
    pub open spec fn text_at(self, kind: AnnotationKind, offset: CodeOffset) -> Option<Seq<char>> {
        let key = (kind.spec_code(), offset);
        if self.texts@.contains_key(key) {
            Some(self.texts@[key]@)
        } else {
            None
        }
    }
}

impl Default for Annotations {
    fn default() -> (r: Self)
        ensures
            r.texts@ == Map::<(u8, CodeOffset), String>::empty(),
    {
        Annotations { texts: BTreeMap::new() }
    }
}

impl Clone for Annotations {
    fn clone(&self) -> (r: Self)
        ensures
            r.texts@ == self.texts@,
    {
        Annotations { texts: self.texts.clone() }
    }
}

/// The content of an optional text.
pub open spec fn text_view(text: Option<String>) -> Option<Seq<char>> {
    match text {
        Some(s) => Some(s@),
        None => None,
    }
}

/// A function which is called to display the value of an annotation for a given function target at
/// the given code offset. It is passed the function and the data of the target and the code offset,
/// and is expected to pick the annotation of its respective type and for the given code offset. It
/// should return `None` if there is no relevant annotation.
pub trait FormatAnnotation {
    /// The results that this function may give: any, unless it says otherwise.
    open spec fn may_format(
        &self,
        func_env: &FunctionEnv<'_>,
        data: &FunctionData,
        offset: CodeOffset,
        result: Option<Seq<char>>,
    ) -> bool {
        true
    }

    fn format(
        &self,
        func_env: &FunctionEnv<'_>,
        data: &FunctionData,
        offset: CodeOffset,
    ) -> (r: Option<String>)
        ensures
            self.may_format(func_env, data, offset, text_view(r)),
    ;
}

/// A formatter of annotations, of any type.
pub struct AnnotationFormatter(pub Box<dyn FormatAnnotation>);

impl AnnotationFormatter {
    /// Whether this formatter gives exactly the annotations of one kind.
    pub open spec fn is_for_kind(self, kind: AnnotationKind) -> bool {
        forall|
            func_env: &FunctionEnv<'_>,
            data: &FunctionData,
            offset: CodeOffset,
            result: Option<Seq<char>>,
        | #[trigger]
            self.0.may_format(func_env, data, offset, result) == (result
                == data.annotations.text_at(kind, offset))
    }

    /// Creates the formatter for annotations of one kind.
    pub fn for_kind(kind: AnnotationKind) -> (r: AnnotationFormatter)
        ensures
            r.is_for_kind(kind),
    {
        AnnotationFormatter(Box::new(KindFormatter { kind }))
    }
}

/// Picks the annotations of one kind.
#[derive(Debug, Clone, Copy, PartialEq, Eq, Structural)]
pub struct KindFormatter {
    pub kind: AnnotationKind,
}

impl FormatAnnotation for KindFormatter {
    open spec fn may_format(
        &self,
        func_env: &FunctionEnv<'_>,
        data: &FunctionData,
        offset: CodeOffset,
        result: Option<Seq<char>>,
    ) -> bool {
        result == data.annotations.text_at(self.kind, offset)
    }

    fn format(
        &self,
        func_env: &FunctionEnv<'_>,
        data: &FunctionData,
        offset: CodeOffset,
    ) -> (r: Option<String>) {
        match data.annotations.texts.get(&(self.kind.code(), offset)) {
            Some(text) => Some(text.clone()),
            None => None,
        }
    }
}

} // verus!
