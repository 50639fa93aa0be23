//! A plain model of the syntax of one implementation: what the expansion
//! reads of it and what it writes, held as text and flags.
//!
//! Text is a run of tokens separated by single spaces.

use vstd::prelude::*;

verus! {


/// A type, seen as far as the expansion looks: whether it is a reference,
/// and if so with which lifetime and mutability, and to what.
#[derive(Clone, Debug, PartialEq, Eq)]
pub struct TypeModel {
    pub is_ref: bool,
    /// The lifetime of the reference, with its tick.
    pub lifetime: Option<String>,
    /// The reference is `&mut`.
    pub mutable: bool,
    /// The referent of a reference; the whole type otherwise.
    pub elem: String,
}

/// The mathematical value of a [`TypeModel`].
pub struct TypeView {
    pub is_ref: bool,
    pub lifetime: Option<Seq<char>>,
    pub mutable: bool,
    pub elem: Seq<char>,
}

/// The text before the referent of a reference with this lifetime and
/// mutability.
pub open spec fn reference_head(lifetime: Option<Seq<char>>, mutable: bool) -> Seq<char> {
    "& "@ + (match lifetime {
        Some(l) => l + " "@,
        None => Seq::empty(),
    }) + (if mutable {
        "mut "@
    } else {
        Seq::empty()
    })
}

impl TypeView {
    /// The type as text.
    pub open spec fn text(self) -> Seq<char> {
        if self.is_ref {
            reference_head(self.lifetime, self.mutable) + self.elem
        } else {
            self.elem
        }
    }
}

impl View for TypeModel {
    type V = TypeView;

    open spec fn view(&self) -> TypeView {
        TypeView {
            is_ref: self.is_ref,
            lifetime: match self.lifetime {
                Some(l) => Some(l@),
                None => None,
            },
            mutable: self.mutable,
            elem: self.elem@,
        }
    }
}

/// The generic arguments of the trait path's last segment, as far as the
/// expansion looks.
#[derive(Clone, Debug, PartialEq, Eq)]
pub enum TraitArgs {
    /// The segment has no arguments.
    Absent,
    /// The segment has `count` arguments between angle brackets; `first` is
    /// the first of them where it is a type.
    AngleBracketed { count: usize, first: Option<TypeModel> },
    /// The segment has arguments between round brackets.
    Parenthesized,
}

/// The mathematical value of a [`TraitArgs`].
pub enum TraitArgsView {
    Absent,
    AngleBracketed { count: nat, first: Option<TypeView> },
    Parenthesized,
}

impl View for TraitArgs {
    type V = TraitArgsView;

    open spec fn view(&self) -> TraitArgsView {
        match self {
            TraitArgs::Absent => TraitArgsView::Absent,
            TraitArgs::AngleBracketed { count, first } => TraitArgsView::AngleBracketed {
                count: *count as nat,
                first: match first {
                    Some(t) => Some(t@),
                    None => None,
                },
            },
            TraitArgs::Parenthesized => TraitArgsView::Parenthesized,
        }
    }
}

/// The last segment of a trait path.
#[derive(Clone, Debug, PartialEq, Eq)]
pub struct SegmentModel {
    pub ident: String,
    pub arguments: TraitArgs,
}

/// The mathematical value of a [`SegmentModel`].
pub struct SegmentView {
    pub ident: Seq<char>,
    pub arguments: TraitArgsView,
}

impl View for SegmentModel {
    type V = SegmentView;

    open spec fn view(&self) -> SegmentView {
        SegmentView { ident: self.ident@, arguments: self.arguments@ }
    }
}

/// The trait part of an implementation's header.
#[derive(Clone, Debug, PartialEq, Eq)]
pub struct TraitModel {
    /// The implementation is written with `!` before the trait.
    pub negated: bool,
    /// The path starts with `::`.
    pub leading_colon: bool,
    /// The text of each segment before the last.
    pub prefix: Vec<String>,
    /// The last segment; `None` where the path has no segment.
    pub last: Option<SegmentModel>,
}

/// The mathematical value of a [`TraitModel`].
pub struct TraitView {
    pub negated: bool,
    pub leading_colon: bool,
    pub prefix: Seq<Seq<char>>,
    pub last: Option<SegmentView>,
}

impl View for TraitModel {
    type V = TraitView;

    open spec fn view(&self) -> TraitView {
        TraitView {
            negated: self.negated,
            leading_colon: self.leading_colon,
            prefix: self.prefix.deep_view(),
            last: match self.last {
                Some(s) => Some(s@),
                None => None,
            },
        }
    }
}

/// One attribute on an implementation.
#[derive(Clone, Debug, PartialEq, Eq)]
pub struct AttrModel {
    /// The attribute is written inside the braces, as `#![..]`.
    pub inner: bool,
    pub text: String,
}

/// The mathematical value of an [`AttrModel`].
pub struct AttrView {
    pub inner: bool,
    pub text: Seq<char>,
}

impl View for AttrModel {
    type V = AttrView;

    open spec fn view(&self) -> AttrView {
        AttrView { inner: self.inner, text: self.text@ }
    }
}

impl DeepView for AttrModel {
    type V = AttrView;

    open spec fn deep_view(&self) -> AttrView {
        self@
    }
}

/// An implementation as it was written: the seed of an expansion.
#[derive(Clone, Debug, PartialEq, Eq)]
pub struct ImplModel {
    pub attrs: Vec<AttrModel>,
    pub is_default: bool,
    pub is_unsafe: bool,
    /// The generic parameters with their angle brackets; empty where there
    /// are none.
    pub generics: String,
    /// The trait that is implemented; `None` for an inherent implementation.
    pub trait_: Option<TraitModel>,
    pub self_ty: TypeModel,
    /// The predicates of the where-clause, in order.
    pub predicates: Vec<String>,
    /// A separator follows the last predicate.
    pub trailing: bool,
}

/// The mathematical value of an [`ImplModel`].
pub struct ImplView {
    pub attrs: Seq<AttrView>,
    pub is_default: bool,
    pub is_unsafe: bool,
    pub generics: Seq<char>,
    pub trait_: Option<TraitView>,
    pub self_ty: TypeView,
    pub predicates: Seq<Seq<char>>,
    pub trailing: bool,
}

impl View for ImplModel {
    type V = ImplView;

    open spec fn view(&self) -> ImplView {
        ImplView {
            attrs: self.attrs.deep_view(),
            is_default: self.is_default,
            is_unsafe: self.is_unsafe,
            generics: self.generics@,
            trait_: match self.trait_ {
                Some(t) => Some(t@),
                None => None,
            },
            self_ty: self.self_ty@,
            predicates: self.predicates.deep_view(),
            trailing: self.trailing,
        }
    }
}

/// The mathematical value of a type that may be absent.
pub open spec fn type_view(type_: Option<TypeModel>) -> Option<TypeView> {
    match type_ {
        Some(t) => Some(t@),
        None => None,
    }
}

/// The arguments of shape `shape` whose first type argument is `first`.
/// Only arguments between angle brackets have one.
pub open spec fn args_with_first(shape: TraitArgsView, first: Option<TypeView>) -> TraitArgsView {
    match shape {
        TraitArgsView::AngleBracketed { count, first: _ } => TraitArgsView::AngleBracketed {
            count,
            first,
        },
        other => other,
    }
}

/// The trait part of a header, from the parts of its path: nothing where
/// there is no path; otherwise the path's flags, its segments without the
/// last as the prefix, and `last` as the last segment.
pub open spec fn trait_view(
    path: Option<(bool, bool, Seq<Seq<char>>)>,
    last: Option<SegmentView>,
) -> Option<TraitView> {
    match path {
        None => None,
        Some((negated, leading_colon, segments)) => Some(
            TraitView {
                negated,
                leading_colon,
                prefix: if segments.len() > 0 {
                    segments.drop_last()
                } else {
                    segments
                },
                last,
            },
        ),
    }
}

impl TraitArgs {
    /// These arguments with `first` as their first type argument, where
    /// they stand between angle brackets; unchanged where they do not.
    pub fn with_first_type(self, first: Option<TypeModel>) -> (r: TraitArgs)
        ensures
            r@ == args_with_first(self@, type_view(first)),
    {
        match self {
            TraitArgs::AngleBracketed { count, first: _ } => TraitArgs::AngleBracketed {
                count,
                first,
            },
            other => other,
        }
    }
}

impl TraitModel {
    /// The trait part of a header, from the parts of its path: whether it
    /// is negated, whether it starts with `::`, and the text of each of
    /// its segments; and from its last segment, lowered.
    pub fn from_parts(path: Option<(bool, bool, Vec<String>)>, last: Option<SegmentModel>) -> (r:
        Option<TraitModel>)
        ensures
            match r {
                Some(t) => Some(t@),
                None => None,
            } == trait_view(
                match path {
                    Some((negated, leading_colon, segments)) => Some(
                        (negated, leading_colon, segments.deep_view()),
                    ),
                    None => None,
                },
                match last {
                    Some(s) => Some(s@),
                    None => None,
                },
            ),
    {
        match path {
            None => None,
            Some((negated, leading_colon, segments)) => {
                let ghost all = segments.deep_view();
                let mut prefix = segments;
                prefix.pop();
                assert(prefix.deep_view() =~= if all.len() > 0 {
                    all.drop_last()
                } else {
                    all
                });
                Some(TraitModel { negated, leading_colon, prefix, last })
            },
        }
    }
}

} // verus!
