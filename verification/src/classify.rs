//! Classification of a seed: which operator it implements and how it takes
//! each operand.

use crate::catalog::{op_named, OpTrait};
use crate::error::{ExpandError, Fault};
use crate::form::Operate;
use crate::model::{
    ImplModel, ImplView, SegmentModel, SegmentView, TraitArgs, TraitArgsView, TypeModel, TypeView,
};
use vstd::prelude::*;

verus! {

/// The last segment of the trait path of a positive trait implementation.
pub open spec fn last_segment_of(implement: ImplView) -> Result<SegmentView, Fault> {
    match implement.trait_ {
        None => Err(Fault::NotTraitImpl),
        Some(t) => if t.negated {
            Err(Fault::NegativeImpl)
        } else {
            match t.last {
                None => Err(Fault::EmptyTraitPath),
                Some(s) => Ok(s),
            }
        },
    }
}

/// The type of the right operand: the trait's one type argument, or the
/// self type where the trait is written without arguments.
pub open spec fn rhs_type_of(args: TraitArgsView, self_type: TypeView) -> Result<TypeView, Fault> {
    match args {
        TraitArgsView::Absent => Ok(self_type),
        TraitArgsView::AngleBracketed { count, first } => if count != 1 {
            Err(Fault::ArgumentCount)
        } else {
            match first {
                Some(t) => Ok(t),
                None => Err(Fault::NotType),
            }
        },
        TraitArgsView::Parenthesized => Err(Fault::UnexpectedArguments),
    }
}

/// A classified seed, as a mathematical value.
pub struct SeedView {
    pub implement: ImplView,
    /// The form of the seed itself.
    pub source_op: Operate,
    pub rhs_type: TypeView,
}

/// The classification of an implementation: its shape is checked first, then
/// the trait's name, then the trait's arguments.
pub open spec fn classify(implement: ImplView) -> Result<SeedView, Fault> {
    match last_segment_of(implement) {
        Err(e) => Err(e),
        Ok(segment) => match op_named(segment.ident) {
            None => Err(Fault::UnexpectedIdent(segment.ident)),
            Some(op) => match rhs_type_of(segment.arguments, implement.self_ty) {
                Err(e) => Err(e),
                Ok(rhs) => Ok(
                    SeedView {
                        implement,
                        source_op: Operate {
                            op,
                            lhs_ref: implement.self_ty.is_ref,
                            rhs_ref: rhs.is_ref,
                        },
                        rhs_type: rhs,
                    },
                ),
            },
        },
    }
}

/// Whether a type is a reference.
pub fn is_ref(type_: &TypeModel) -> (r: bool)
    ensures
        r == type_@.is_ref,
{
    type_.is_ref
}

/// The referent of a reference; any other type as it is.
pub fn remove_reference(type_: &TypeModel) -> (r: &String)
    ensures
        r@ == type_@.elem,
{
    &type_.elem
}

/// The last segment of the trait path of `implement`; a refusal where
/// `implement` implements no trait, is negative, or has an empty trait path.
pub fn get_last_segment(implement: &ImplModel) -> (r: Result<&SegmentModel, ExpandError>)
    ensures
        match r {
            Ok(s) => last_segment_of(implement@) == Ok::<SegmentView, Fault>(s@),
            Err(e) => last_segment_of(implement@) == Err::<SegmentView, Fault>(e@),
        },
{
    match &implement.trait_ {
        None => Err(ExpandError::NotTraitImpl),
        Some(trait_) => {
            if trait_.negated {
                return Err(ExpandError::NegativeImpl);
            }
            match &trait_.last {
                None => Err(ExpandError::EmptyTraitPath),
                Some(segment) => Ok(segment),
            }
        },
    }
}

/// The type of the right operand: the one type argument of the trait, or
/// `self_type` where the trait has no arguments; a refusal where it has
/// another number of arguments, one that is no type, or round brackets.
pub fn get_rhs_type<'a>(args: &'a TraitArgs, self_type: &'a TypeModel) -> (r: Result<
    &'a TypeModel,
    ExpandError,
>)
    ensures
        match r {
            Ok(t) => rhs_type_of(args@, self_type@) == Ok::<TypeView, Fault>(t@),
            Err(e) => rhs_type_of(args@, self_type@) == Err::<TypeView, Fault>(e@),
        },
{
    match args {
        TraitArgs::Absent => Ok(self_type),
        TraitArgs::AngleBracketed { count, first } => {
            if *count != 1 {
                return Err(ExpandError::ArgumentCount);
            }
            match first {
                Some(rhs_type) => Ok(rhs_type),
                None => Err(ExpandError::NotType),
            }
        },
        TraitArgs::Parenthesized => Err(ExpandError::UnexpectedArguments),
    }
}

/// A classified seed: the implementation with its form and the type of its
/// right operand.
#[derive(Clone, Debug, PartialEq, Eq)]
pub struct Generator<'a> {
    pub implement: &'a ImplModel,
    pub source_op: Operate,
    pub rhs_type: &'a TypeModel,
}

impl<'a> View for Generator<'a> {
    type V = SeedView;

    open spec fn view(&self) -> SeedView {
        SeedView {
            implement: self.implement@,
            source_op: self.source_op,
            rhs_type: self.rhs_type@,
        }
    }
}

impl<'a> Generator<'a> {
    /// Classifies `implement`.
    pub fn new(implement: &'a ImplModel) -> (r: Result<Generator<'a>, ExpandError>)
        ensures
            match r {
                Ok(g) => classify(implement@) == Ok::<SeedView, Fault>(g@),
                Err(e) => classify(implement@) == Err::<SeedView, Fault>(e@),
            },
    {
        let last_segment = match get_last_segment(implement) {
            Ok(s) => s,
            Err(e) => {
                return Err(e);
            },
        };
        let op: OpTrait = match OpTrait::try_from(last_segment.ident.as_str()) {
            Ok(op) => op,
            Err(e) => {
                return Err(e);
            },
        };
        let self_type = &implement.self_ty;
        let rhs_type = match get_rhs_type(&last_segment.arguments, self_type) {
            Ok(t) => t,
            Err(e) => {
                return Err(e);
            },
        };
        Ok(
            Generator {
                implement,
                source_op: Operate { op, lhs_ref: is_ref(self_type), rhs_ref: is_ref(rhs_type) },
                rhs_type,
            },
        )
    }
}

} // verus!
