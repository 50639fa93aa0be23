//! The derivation of one implementation from a classified seed.

use crate::body::{body_of, gen_body, Stmt};
use crate::catalog::OpTrait;
use crate::classify::{remove_reference, Generator, SeedView};
use crate::error::{ExpandError, Fault};
use crate::form::Operate;
use crate::model::{reference_head, AttrModel, AttrView, TypeModel, TypeView};
use vstd::prelude::*;
use vstd::string::StringExecFns;

verus! {

/// A derived implementation: the seed's header with the trait's argument,
/// the self type and the where-clause rewritten, and one method that
/// delegates to the seed's.
#[derive(Clone, Debug, PartialEq, Eq)]
pub struct DerivedImpl {
    pub attrs: Vec<AttrModel>,
    /// The implementation carries `#[allow(clippy::extra_unused_lifetimes)]`.
    pub allow_unused_lifetimes: bool,
    pub is_default: bool,
    pub is_unsafe: bool,
    pub generics: String,
    pub leading_colon: bool,
    /// The text of each segment of the trait path before the last.
    pub prefix: Vec<String>,
    /// The trait that is implemented.
    pub op: OpTrait,
    /// The type of the right operand: the trait's argument and the type of
    /// the method's parameter `rhs`.
    pub rhs_type: String,
    pub self_type: String,
    pub predicates: Vec<String>,
    /// A separator follows the last predicate.
    pub trailing: bool,
    /// The associated type `Output` of a plain operator.
    pub output: Option<String>,
    pub body: Vec<Stmt>,
}

/// The mathematical value of a [`DerivedImpl`].
pub struct DerivedView {
    pub attrs: Seq<AttrView>,
    pub allow_unused_lifetimes: bool,
    pub is_default: bool,
    pub is_unsafe: bool,
    pub generics: Seq<char>,
    pub leading_colon: bool,
    pub prefix: Seq<Seq<char>>,
    pub op: OpTrait,
    pub rhs_type: Seq<char>,
    pub self_type: Seq<char>,
    pub predicates: Seq<Seq<char>>,
    pub trailing: bool,
    pub output: Option<Seq<char>>,
    pub body: Seq<Stmt>,
}

impl View for DerivedImpl {
    type V = DerivedView;

    open spec fn view(&self) -> DerivedView {
        DerivedView {
            attrs: self.attrs.deep_view(),
            allow_unused_lifetimes: self.allow_unused_lifetimes,
            is_default: self.is_default,
            is_unsafe: self.is_unsafe,
            generics: self.generics@,
            leading_colon: self.leading_colon,
            prefix: self.prefix.deep_view(),
            op: self.op,
            rhs_type: self.rhs_type@,
            self_type: self.self_type@,
            predicates: self.predicates.deep_view(),
            trailing: self.trailing,
            output: match self.output {
                Some(t) => Some(t@),
                None => None,
            },
            body: self.body@,
        }
    }
}

/// What one selector contributes to the output.
#[derive(Clone, Debug, PartialEq, Eq)]
pub enum Emitted {
    /// The seed itself, as it was written.
    Seed,
    /// An implementation derived from the seed.
    Derived(DerivedImpl),
}

/// The mathematical value of an [`Emitted`].
pub enum EmittedView {
    Seed,
    Derived(DerivedView),
}

impl View for Emitted {
    type V = EmittedView;

    open spec fn view(&self) -> EmittedView {
        match self {
            Emitted::Seed => EmittedView::Seed,
            Emitted::Derived(d) => EmittedView::Derived(d@),
        }
    }
}

impl DeepView for Emitted {
    type V = EmittedView;

    open spec fn deep_view(&self) -> EmittedView {
        self@
    }
}

/// The type of an operand of a derived implementation. `target` is the
/// seed's type for that operand and `source` the seed's type for the other
/// one.
///
/// An operand taken by value has the seed's type without its outer
/// reference. One taken by reference keeps the seed's type where that is a
/// reference; otherwise it is a reference to the seed's type, shaped like
/// the other operand's where that one is a reference, and a plain borrow
/// where it is not.
pub open spec fn arg_type(by_ref: bool, target: TypeView, source: TypeView) -> Seq<char> {
    if !by_ref {
        target.elem
    } else if target.is_ref {
        target.text()
    } else if source.is_ref {
        reference_head(source.lifetime, source.mutable) + target.text()
    } else {
        "& "@ + target.text()
    }
}

/// The predicate that bounds the seed's self type by the trait `bound`.
pub open spec fn predicate(self_type: TypeView, bound: Seq<char>) -> Seq<char> {
    self_type.text() + " : "@ + bound
}

/// The predicates that the where-clause of the implementation of `target`
/// gets beyond the seed's: `Clone` where the body duplicates an operand,
/// then `Default` where it swaps a default value in.
pub open spec fn added_predicates(seed: SeedView, target: Operate, scoped_take: bool) -> Seq<
    Seq<char>,
> {
    (if seed.source_op.needs_clone(target) {
        seq![predicate(seed.implement.self_ty, "Clone"@)]
    } else {
        Seq::empty()
    }) + (if seed.source_op.needs_default(target, scoped_take) {
        seq![predicate(seed.implement.self_ty, "Default"@)]
    } else {
        Seq::empty()
    })
}

/// The implementation of `target` derived from `seed`.
pub open spec fn derived(seed: SeedView, target: Operate, scoped_take: bool) -> DerivedView {
    let implement = seed.implement;
    let added = added_predicates(seed, target, scoped_take);
    DerivedView {
        attrs: implement.attrs,
        allow_unused_lifetimes: !target.lhs_ref && !target.rhs_ref,
        is_default: implement.is_default,
        is_unsafe: implement.is_unsafe,
        generics: implement.generics,
        leading_colon: match implement.trait_ {
            Some(t) => t.leading_colon,
            None => false,
        },
        prefix: match implement.trait_ {
            Some(t) => t.prefix,
            None => Seq::empty(),
        },
        op: target.op,
        rhs_type: arg_type(target.rhs_ref, seed.rhs_type, implement.self_ty),
        self_type: arg_type(target.lhs_ref, implement.self_ty, seed.rhs_type),
        predicates: implement.predicates + added,
        trailing: implement.trailing || added.len() > 0,
        output: if target.op.assigning() {
            None
        } else {
            Some(implement.self_ty.elem)
        },
        body: body_of(seed.source_op, target, scoped_take),
    }
}

/// What a request for `target` yields: a refusal where that form does not
/// exist, the seed itself where it is the seed's own form, and the derived
/// implementation otherwise.
pub open spec fn emitted(seed: SeedView, target: Operate, scoped_take: bool) -> Result<
    EmittedView,
    Fault,
> {
    if !target.valid() {
        Err(Fault::AssignLhsReference)
    } else if target == seed.source_op {
        Ok(EmittedView::Seed)
    } else {
        Ok(EmittedView::Derived(derived(seed, target, scoped_take)))
    }
}

/// A copy of a list of texts.
pub fn clone_texts(texts: &Vec<String>) -> (r: Vec<String>)
    ensures
        r.deep_view() == texts.deep_view(),
{
    let mut r: Vec<String> = Vec::new();
    let mut i: usize = 0;
    while i < texts.len()
        invariant
            i <= texts.len(),
            r.len() == i,
            forall|j: int| 0 <= j < i ==> r[j]@ == texts[j]@,
        decreases texts.len() - i,
    {
        r.push(texts[i].clone());
        i += 1;
    }
    assert(r.deep_view() =~= texts.deep_view());
    r
}

/// A copy of a list of attributes.
pub fn clone_attrs(attrs: &Vec<AttrModel>) -> (r: Vec<AttrModel>)
    ensures
        r.deep_view() == attrs.deep_view(),
{
    let mut r: Vec<AttrModel> = Vec::new();
    let mut i: usize = 0;
    while i < attrs.len()
        invariant
            i <= attrs.len(),
            r.len() == i,
            forall|j: int| 0 <= j < i ==> r[j]@ == attrs[j]@,
        decreases attrs.len() - i,
    {
        r.push(AttrModel { inner: attrs[i].inner, text: attrs[i].text.clone() });
        i += 1;
    }
    assert(r.deep_view() =~= attrs.deep_view());
    r
}

/// The text of a type.
pub fn type_text(type_: &TypeModel) -> (r: String)
    ensures
        r@ == type_@.text(),
{
    if type_.is_ref {
        reference_text(type_, type_.elem.as_str())
    } else {
        type_.elem.clone()
    }
}

/// A reference to `target`, with the lifetime and mutability of `source`.
fn reference_text(source: &TypeModel, target: &str) -> (r: String)
    ensures
        r@ == reference_head(source@.lifetime, source@.mutable) + target@,
{
    let mut r = String::from_str("& ");
    match &source.lifetime {
        Some(l) => {
            r.append(l.as_str());
            r.append(" ");
        },
        None => {
            assert(r@ + Seq::<char>::empty() =~= r@);
        },
    }
    if source.mutable {
        r.append("mut ");
    } else {
        assert(r@ + Seq::<char>::empty() =~= r@);
    }
    r.append(target);
    r
}

/// A reference to `target`, shaped like the reference `source`: with its
/// lifetime and its mutability.
pub fn copy_reference(target: &TypeModel, source: &TypeModel) -> (r: String)
    ensures
        r@ == if source@.is_ref {
            reference_head(source@.lifetime, source@.mutable) + target@.text()
        } else {
            target@.text()
        },
{
    let text = type_text(target);
    if source.is_ref {
        reference_text(source, text.as_str())
    } else {
        text
    }
}

impl<'a> Generator<'a> {
    /// The seed's self type.
    pub fn self_type(&self) -> (r: &'a TypeModel)
        ensures
            r@ == self@.implement.self_ty,
    {
        &self.implement.self_ty
    }

    /// The type of an operand of a derived implementation that takes it by
    /// reference (`is_ref_`) or by value. `target` is the seed's type for that
    /// operand and `source` the seed's type for the other one.
    pub fn get_arg_type(is_ref_: bool, target: &TypeModel, source: &TypeModel) -> (r: String)
        ensures
            r@ == arg_type(is_ref_, target@, source@),
    {
        if !is_ref_ {
            remove_reference(target).clone()
        } else if target.is_ref {
            type_text(target)
        } else if source.is_ref {
            copy_reference(target, source)
        } else {
            String::from_str("& ").concat(type_text(target).as_str())
        }
    }

    /// Adds to the where-clause of `work` the bounds that its body needs. A
    /// separator follows each predicate that is added.
    pub fn update_where_clause(&self, work: &mut DerivedImpl, op: Operate, scoped_take: bool)
        ensures
            final(work)@ == (DerivedView {
                predicates: old(work)@.predicates + added_predicates(self@, op, scoped_take),
                trailing: old(work)@.trailing || added_predicates(self@, op, scoped_take).len()
                    > 0,
                ..old(work)@
            }),
    {
        let self_type = self.self_type();
        let ghost before = work.predicates.deep_view();
        if self.source_op.require_clone(op) {
            let bound = type_text(self_type).concat(" : ").concat("Clone");
            work.predicates.push(bound);
            work.trailing = true;
        }
        if self.source_op.require_default(op, scoped_take) {
            let bound = type_text(self_type).concat(" : ").concat("Default");
            work.predicates.push(bound);
            work.trailing = true;
        }
        assert(work.predicates.deep_view() =~= before + added_predicates(
            self@,
            op,
            scoped_take,
        ));
    }

    /// What a request for the form `op` yields.
    pub fn generate(&self, op: Operate, scoped_take: bool) -> (r: Result<Emitted, ExpandError>)
        ensures
            match r {
                Ok(e) => emitted(self@, op, scoped_take) == Ok::<EmittedView, Fault>(e@),
                Err(e) => emitted(self@, op, scoped_take) == Err::<EmittedView, Fault>(e@),
            },
    {
        if op.op.is_assign() && op.lhs_ref {
            return Err(ExpandError::AssignLhsReference);
        }
        if op == self.source_op {
            return Ok(Emitted::Seed);
        }
        let implement = self.implement;
        let self_type = self.self_type();
        let (leading_colon, prefix) = match &implement.trait_ {
            Some(t) => (t.leading_colon, clone_texts(&t.prefix)),
            None => (false, Vec::new()),
        };
        let mut work = DerivedImpl {
            attrs: clone_attrs(&implement.attrs),
            allow_unused_lifetimes: !op.lhs_ref && !op.rhs_ref,
            is_default: implement.is_default,
            is_unsafe: implement.is_unsafe,
            generics: implement.generics.clone(),
            leading_colon,
            prefix,
            op: op.op,
            rhs_type: Self::get_arg_type(op.rhs_ref, self.rhs_type, self_type),
            self_type: Self::get_arg_type(op.lhs_ref, self_type, self.rhs_type),
            predicates: clone_texts(&implement.predicates),
            trailing: implement.trailing,
            output: if op.op.is_assign() {
                None
            } else {
                Some(remove_reference(self_type).clone())
            },
            body: gen_body(self.source_op, op, scoped_take),
        };
        assert(work.prefix.deep_view() =~= match implement@.trait_ {
            Some(t) => t.prefix,
            None => Seq::empty(),
        });
        self.update_where_clause(&mut work, op, scoped_take);
        Ok(Emitted::Derived(work))
    }
}

/// A derived implementation has the generic parameters of the seed, and
/// its where-clause is the seed's, predicate for predicate, followed by
/// nothing but the bounds that the form rules ask for: `Clone` on the
/// seed's self type where the body duplicates an operand, then `Default`
/// on it where the body swaps a default value in.
pub proof fn lemma_generics_preserved(seed: SeedView, target: Operate, scoped_take: bool)
    ensures
        derived(seed, target, scoped_take).generics == seed.implement.generics,
        derived(seed, target, scoped_take).predicates.take(
            seed.implement.predicates.len() as int,
        ) == seed.implement.predicates,
        derived(seed, target, scoped_take).predicates.skip(
            seed.implement.predicates.len() as int,
        ) == added_predicates(seed, target, scoped_take),
        added_predicates(seed, target, scoped_take).contains(
            predicate(seed.implement.self_ty, "Clone"@),
        ) <==> seed.source_op.needs_clone(target),
        added_predicates(seed, target, scoped_take).contains(
            predicate(seed.implement.self_ty, "Default"@),
        ) <==> seed.source_op.needs_default(target, scoped_take),
        forall|i: int|
            0 <= i < added_predicates(seed, target, scoped_take).len() ==> {
                let p = #[trigger] added_predicates(seed, target, scoped_take)[i];
                p == predicate(seed.implement.self_ty, "Clone"@) || p == predicate(
                    seed.implement.self_ty,
                    "Default"@,
                )
            },
{
    let own = seed.implement.predicates;
    let added = added_predicates(seed, target, scoped_take);
    let all = derived(seed, target, scoped_take).predicates;
    assert(all.take(own.len() as int) =~= own);
    assert(all.skip(own.len() as int) =~= added);
    let clone = predicate(seed.implement.self_ty, "Clone"@);
    let default = predicate(seed.implement.self_ty, "Default"@);
    lemma_bounds_differ(seed.implement.self_ty);
    if seed.source_op.needs_clone(target) {
        assert(added[0] == clone);
    }
    if seed.source_op.needs_default(target, scoped_take) {
        assert(added[added.len() - 1] == default);
    }
}

/// The two bounds on a type are different predicates.
proof fn lemma_bounds_differ(self_type: TypeView)
    ensures
        predicate(self_type, "Clone"@) != predicate(self_type, "Default"@),
{
    reveal_strlit("Clone");
    reveal_strlit("Default");
    let head = self_type.text() + " : "@;
    assert((head + "Clone"@).len() == head.len() + 5);
    assert((head + "Default"@).len() == head.len() + 7);
}

/// An operand that is taken by reference has a reference type: its text
/// starts with `&`. It is the seed's type where that is a reference, and
/// else a reference to it with the lifetime and mutability of the other
/// operand's reference, if that is one. An operand that is taken by value
/// has the seed's type without its outer reference.
pub proof fn lemma_operand_types(by_ref: bool, target: TypeView, source: TypeView)
    ensures
        !by_ref ==> arg_type(by_ref, target, source) == target.elem,
        by_ref ==> arg_type(by_ref, target, source).len() >= 2 && arg_type(
            by_ref,
            target,
            source,
        ).take(2) == "& "@,
        by_ref && target.is_ref ==> arg_type(by_ref, target, source) == target.text(),
        by_ref && !target.is_ref ==> arg_type(by_ref, target, source) == reference_head(
            if source.is_ref {
                source.lifetime
            } else {
                None
            },
            source.is_ref && source.mutable,
        ) + target.elem,
{
    reveal_strlit("& ");
    let amp = "& "@;
    assert(amp.len() == 2);
    assert(reference_head(None, false) =~= amp);
    if by_ref {
        let text = arg_type(by_ref, target, source);
        if target.is_ref {
            lemma_reference_head(target.lifetime, target.mutable);
        } else if source.is_ref {
            lemma_reference_head(source.lifetime, source.mutable);
        }
        assert(text.take(2) =~= amp);
    }
}

/// The text before the referent of a reference starts with `&`.
proof fn lemma_reference_head(lifetime: Option<Seq<char>>, mutable: bool)
    ensures
        reference_head(lifetime, mutable).len() >= 2,
        reference_head(lifetime, mutable).take(2) == "& "@,
{
    reveal_strlit("& ");
    assert(reference_head(lifetime, mutable).take(2) =~= "& "@);
}

} // verus!
