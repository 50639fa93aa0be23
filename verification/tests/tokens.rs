//! Whole expansions on small seeds, the diagnostics, and the lowering of
//! parsed implementations.

use auto_ops::emit::auto_ops_texts;
use auto_ops::error::ExpandError;
use auto_ops::model::{AttrModel, TraitArgs, TypeModel};
use auto_ops::syntax::{
    append_parsed, assemble, auto_ops_impl, auto_ops_impl_inner, auto_ops_impl_with, diagnostic,
    expand_parsed, lower_impl, report,
};
use proc_macro2::{Delimiter, TokenStream, TokenTree};
use std::str::FromStr;

fn stream(text: &str) -> TokenStream {
    TokenStream::from_str(text).unwrap()
}

fn flat(stream: TokenStream) -> Vec<String> {
    let mut out = Vec::new();
    for tree in stream {
        match tree {
            TokenTree::Group(group) => {
                let (open, close) = match group.delimiter() {
                    Delimiter::Parenthesis => ("(", ")"),
                    Delimiter::Brace => ("{", "}"),
                    Delimiter::Bracket => ("[", "]"),
                    Delimiter::None => ("", ""),
                };
                out.push(open.to_string());
                out.extend(flat(group.stream()));
                out.push(close.to_string());
            }
            TokenTree::Punct(punct) => out.push(punct.as_char().to_string()),
            other => out.push(other.to_string()),
        }
    }
    out
}

/// The headers of the implementations in a stream: the tokens from each
/// top-level `impl` up to its braces, joined by spaces.
fn heads(stream: TokenStream) -> Vec<String> {
    let mut all = Vec::new();
    let mut current: Option<Vec<String>> = None;
    for tree in stream {
        match tree {
            TokenTree::Ident(ident) if ident == "impl" && current.is_none() => {
                current = Some(Vec::new());
            }
            TokenTree::Group(group) if group.delimiter() == Delimiter::Brace => {
                if let Some(head) = current.take() {
                    all.push(head.join(" "));
                }
            }
            other => {
                if let Some(head) = current.as_mut() {
                    head.extend(flat(TokenStream::from(other)));
                }
            }
        }
    }
    all
}

const SEED_B: &str =
    "impl AddAssign<&B> for B { fn add_assign(&mut self, o: &B) { self.0 += &o.0; } }";

fn message(text: &str) -> TokenStream {
    stream(&format!("compile_error!{{ {:?} }}", text))
}

#[test]
fn six_implementations_from_one_compound_assignment() {
    let out = auto_ops_impl(TokenStream::new(), stream(SEED_B));
    assert_eq!(
        heads(out),
        vec![
            "AddAssign < & B > for B",
            "AddAssign < B > for B",
            "Add < & B > for & B where B : Clone ,",
            "Add < B > for & B where B : Clone ,",
            "Add < & B > for B",
            "Add < B > for B",
        ]
    );
}

#[test]
fn one_selector_gives_its_implementation_and_the_seed() {
    let out = auto_ops_impl(stream("assign_val"), stream(SEED_B));
    assert_eq!(
        flat(out),
        flat(stream(
            "#[allow(clippy::extra_unused_lifetimes)] \
             impl AddAssign<B> for B { \
             fn add_assign(&mut self, rhs: B) { let rhs = &rhs; self.add_assign(rhs); } \
             } \
             impl AddAssign<&B> for B { fn add_assign(&mut self, o: &B) { self.0 += &o.0; } }"
        ))
    );
}

#[test]
fn the_seeds_own_selector_gives_back_the_seed() {
    let out = auto_ops_impl(stream("assign_ref"), stream(SEED_B));
    assert_eq!(flat(out), flat(stream(SEED_B)));
    let out = auto_ops_impl(stream("assign_ref,"), stream(SEED_B));
    assert_eq!(flat(out), flat(stream(SEED_B)));
}

#[test]
fn the_seed_comes_out_once_however_often_it_is_named() {
    let out = auto_ops_impl(stream("assign_ref, assign_ref"), stream(SEED_B));
    assert_eq!(flat(out), flat(stream(SEED_B)));
    let out = auto_ops_impl(stream("assign_ref, val_ref, assign_ref"), stream(SEED_B));
    assert_eq!(heads(out), vec!["AddAssign < & B > for B", "Add < & B > for B"]);
}

#[test]
fn an_unknown_selector_changes_nothing() {
    let with = auto_ops_impl(stream("val_val, sideways, ref_ref"), stream(SEED_B));
    let without = auto_ops_impl(stream("val_val, ref_ref"), stream(SEED_B));
    assert_eq!(flat(with), flat(without.clone()));
    assert_eq!(
        heads(without),
        vec!["Add < B > for B", "Add < & B > for & B where B : Clone ,", "AddAssign < & B > for B"]
    );
    // Alone, it leaves an attribute that is not empty: the seed is all
    // that comes out.
    let alone = auto_ops_impl(stream("sideways"), stream(SEED_B));
    assert_eq!(flat(alone), flat(stream(SEED_B)));
}

#[test]
fn a_seed_on_references_derives_assignments_through_a_reborrow() {
    let out = auto_ops_impl(
        stream("assign_ref"),
        stream("impl<M> Mul for &A<M> where M: Zero { type Output = A<M>; fn mul(self, o: Self) -> A<M> { A(&self.0 * &o.0) } }"),
    );
    assert_eq!(
        flat(out),
        flat(stream(
            "impl<M> MulAssign<&A<M> > for A<M> where M: Zero { \
             fn mul_assign(&mut self, rhs: &A<M>) { *self = (&*self).mul(rhs); } \
             } \
             impl<M> Mul for &A<M> where M: Zero { type Output = A<M>; \
             fn mul(self, o: Self) -> A<M> { A(&self.0 * &o.0) } }"
        ))
    );
}

#[test]
fn a_path_and_qualifiers_are_kept() {
    let out = auto_ops_impl(
        stream("val_val"),
        stream(
            "#[doc = \"sum\"] unsafe impl<'a> ::core::ops::Add<&'a mut B> for B { \
             #![allow(unused)] \
             type Output = B; fn add(self, o: &'a mut B) -> B { self } }",
        ),
    );
    assert_eq!(
        flat(out),
        flat(stream(
            "#[doc = \"sum\"] #[allow(clippy::extra_unused_lifetimes)] \
             unsafe impl<'a> ::core::ops::Add<B> for B { \
             #![allow(unused)] \
             type Output = B; \
             fn add(self, rhs: B) -> Self::Output { let lhs = self; let rhs = &rhs; lhs.add(rhs) } \
             } \
             #[doc = \"sum\"] unsafe impl<'a> ::core::ops::Add<&'a mut B> for B { \
             #![allow(unused)] \
             type Output = B; fn add(self, o: &'a mut B) -> B { self } }"
        ))
    );
}

#[test]
fn a_borrowed_operand_is_shaped_like_the_other_one() {
    let out = auto_ops_impl(
        stream("ref_ref"),
        stream("impl<'a> Sub<&'a mut C> for B { type Output = B; fn sub(self, o: &'a mut C) -> B { self } }"),
    );
    assert_eq!(
        heads(out),
        vec![
            "< ' a > Sub < & ' a mut C > for & ' a mut B where B : Clone ,",
            "< ' a > Sub < & ' a mut C > for B",
        ]
    );
}

#[test]
fn the_scoped_take_needs_no_default() {
    let seed = "impl Div<&B> for B { type Output = B; fn div(self, o: &B) -> B { B(self.0 / o.0) } }";
    let swap = auto_ops_impl_with(stream("assign_ref"), stream(seed), false);
    assert_eq!(
        flat(swap),
        flat(stream(&format!(
            "impl DivAssign<&B> for B where B: Default, {{ \
             fn div_assign(&mut self, rhs: &B) {{ \
             let mut t = Self::default(); std::mem::swap(&mut t, self); \
             let mut u = t.div(rhs); std::mem::swap(&mut u, self); }} }} {}",
            seed
        )))
    );
    let take = auto_ops_impl_with(stream("assign_ref"), stream(seed), true);
    assert_eq!(
        flat(take),
        flat(stream(&format!(
            "impl DivAssign<&B> for B {{ \
             fn div_assign(&mut self, rhs: &B) {{ take_mut::take(self, |x| x.div(rhs)); }} }} {}",
            seed
        )))
    );
}

#[test]
fn an_item_that_implements_no_trait_is_refused() {
    let out = auto_ops_impl(TokenStream::new(), stream("impl B { fn add(self, o: B) -> B { self } }"));
    assert_eq!(flat(out), flat(message("Is not Trait impl")));
}

#[test]
fn a_negative_implementation_is_refused() {
    let out = auto_ops_impl(TokenStream::new(), stream("impl !Add for B {}"));
    assert_eq!(flat(out), flat(message("Unexpected negative impl")));
}

#[test]
fn a_trait_with_two_arguments_is_refused() {
    let out = auto_ops_impl(TokenStream::new(), stream("impl Add<B, C> for B {}"));
    assert_eq!(flat(out), flat(message("Number of trait arguments is not 1")));
    let out = auto_ops_impl(TokenStream::new(), stream("impl Add<> for B {}"));
    assert_eq!(flat(out), flat(message("Number of trait arguments is not 1")));
}

#[test]
fn a_trait_argument_that_is_no_type_is_refused() {
    let out = auto_ops_impl(TokenStream::new(), stream("impl<'a> Add<'a> for B {}"));
    assert_eq!(flat(out), flat(message("Is not type")));
    let out = auto_ops_impl(TokenStream::new(), stream("impl Add<Output = B> for B {}"));
    assert_eq!(flat(out), flat(message("Is not type")));
}

#[test]
fn a_trait_with_round_brackets_is_refused() {
    let out = auto_ops_impl(TokenStream::new(), stream("impl Add(B) for B {}"));
    assert_eq!(flat(out), flat(message("Unexpected trait arguments")));
}

#[test]
fn an_assignment_through_a_reference_is_refused() {
    let out = auto_ops_impl(
        stream("val_val"),
        stream("impl AddAssign<B> for &mut B { fn add_assign(&mut self, o: B) {} }"),
    );
    assert_eq!(flat(out), flat(message("Type of LHS of assign operations must not reference")));
}

#[test]
fn what_the_parser_refuses_is_reported_in_its_words() {
    let out = auto_ops_impl(TokenStream::new(), stream("struct B;"));
    let out = flat(out);
    assert_eq!(out[..3], ["compile_error", "!", "{"]);
    assert!(auto_ops_impl_inner(TokenStream::new(), stream("struct B;"), false).is_err());
    assert!(auto_ops_impl_inner(stream("val_val ref_ref"), stream(SEED_B), false).is_err());
    assert!(auto_ops_impl_inner(stream("1"), stream(SEED_B), false).is_err());
    assert!(auto_ops_impl_inner(stream("val_val, ref_ref,"), stream(SEED_B), false).is_ok());
}

#[test]
fn a_parsed_implementation_is_lowered_field_by_field() {
    let item: syn::ItemImpl = syn::parse_str(
        "#[inline] default unsafe impl<T, 'a> ::std::ops::Shl<&'a mut Vec<T>> for &B<T> \
         where T: Copy, B<T>: Sized { #![cold] }",
    )
    .unwrap();
    let model = lower_impl(&item);
    let attrs: Vec<(bool, Vec<String>)> =
        model.attrs.iter().map(|a| (a.inner, flat(stream(&a.text)))).collect();
    assert_eq!(
        attrs,
        vec![(false, flat(stream("#[inline]"))), (true, flat(stream("#![cold]")))]
    );
    assert!(model.is_default);
    assert!(model.is_unsafe);
    // The parser writes lifetimes first, whatever their place.
    assert_eq!(flat(stream(&model.generics)), flat(stream("<'a, T,>")));
    let path = model.trait_.unwrap();
    assert!(!path.negated);
    assert!(path.leading_colon);
    assert_eq!(path.prefix, vec!["std", "ops"]);
    let last = path.last.unwrap();
    assert_eq!(last.ident, "Shl");
    match last.arguments {
        TraitArgs::AngleBracketed { count, first: Some(first) } => {
            assert_eq!(count, 1);
            assert!(first.is_ref);
            assert_eq!(first.lifetime, Some("'a".to_string()));
            assert!(first.mutable);
            assert_eq!(flat(stream(&first.elem)), flat(stream("Vec<T>")));
        }
        other => panic!("{:?}", other),
    }
    assert_eq!(
        model.self_ty,
        TypeModel {
            is_ref: true,
            lifetime: None,
            mutable: false,
            elem: model.self_ty.elem.clone(),
        }
    );
    assert_eq!(flat(stream(&model.self_ty.elem)), flat(stream("B<T>")));
    let predicates: Vec<Vec<String>> =
        model.predicates.iter().map(|p| flat(stream(p))).collect();
    assert_eq!(predicates, vec![flat(stream("T: Copy")), flat(stream("B<T>: Sized"))]);
    assert!(!model.trailing);
}

#[test]
fn what_is_absent_is_lowered_as_absent() {
    let item: syn::ItemImpl = syn::parse_str("impl B { }").unwrap();
    let model = lower_impl(&item);
    assert_eq!(model.attrs, Vec::<AttrModel>::new());
    assert!(!model.is_default);
    assert!(!model.is_unsafe);
    assert_eq!(model.generics, "");
    assert_eq!(model.trait_, None);
    assert!(!model.self_ty.is_ref);
    assert_eq!(model.self_ty.elem, "B");
    assert_eq!(model.predicates, Vec::<String>::new());
    assert!(!model.trailing);

    let item: syn::ItemImpl = syn::parse_str("impl !Neg for B where B: Sized, { }").unwrap();
    let model = lower_impl(&item);
    let path = model.trait_.unwrap();
    assert!(path.negated);
    assert!(!path.leading_colon);
    assert_eq!(path.prefix, Vec::<String>::new());
    assert_eq!(path.last.unwrap().arguments, TraitArgs::Absent);
    assert!(model.trailing);

    let item: syn::ItemImpl = syn::parse_str("impl Fn(u8) for B { }").unwrap();
    let path = lower_impl(&item).trait_.unwrap();
    assert_eq!(path.last.unwrap().arguments, TraitArgs::Parenthesized);

    let item: syn::ItemImpl = syn::parse_str("impl<'a> Add<'a, B> for B { }").unwrap();
    let path = lower_impl(&item).trait_.unwrap();
    assert_eq!(path.last.unwrap().arguments, TraitArgs::AngleBracketed { count: 2, first: None });
}

#[test]
fn a_diagnostic_carries_the_message_of_the_refusal() {
    let item: syn::ItemImpl = syn::parse_str(SEED_B).unwrap();
    for error in [
        ExpandError::NotTraitImpl,
        ExpandError::NegativeImpl,
        ExpandError::EmptyTraitPath,
        ExpandError::ArgumentCount,
        ExpandError::NotType,
        ExpandError::UnexpectedArguments,
        ExpandError::UnexpectedIdent("Neg".to_string()),
        ExpandError::AssignLhsReference,
    ] {
        assert_eq!(diagnostic(&item, &error).to_string(), error.message());
    }
    let inherent: syn::ItemImpl = syn::parse_str("impl B { }").unwrap();
    assert_eq!(
        diagnostic(&inherent, &ExpandError::NotType).to_string(),
        ExpandError::NotType.message()
    );
}

#[test]
fn items_are_assembled_in_order() {
    let item: syn::ItemImpl = syn::parse_str(SEED_B).unwrap();
    let model = lower_impl(&item);
    let texts = auto_ops_texts(&vec!["val_ref".to_string()], &model, false).unwrap();
    assert_eq!(texts.len(), 2);
    assert_eq!(
        texts[0].as_deref(),
        Some(
            "impl  Add < & B > for B { type Output = B ; fn add ( self , rhs : & B ) \
             -> Self :: Output { let mut lhs = self ; lhs . add_assign ( rhs ) ; lhs } } "
        )
    );
    assert_eq!(texts[1], None);
    let out = assemble(&item, &texts).unwrap();
    assert_eq!(heads(out), vec!["Add < & B > for B", "AddAssign < & B > for B"]);
    assert_eq!(flat(assemble(&item, &vec![]).unwrap()), Vec::<String>::new());
    let twice = assemble(&item, &vec![None, None]).unwrap();
    assert_eq!(flat(twice), flat(stream(&format!("{} {}", SEED_B, SEED_B))));
}

#[test]
fn a_derived_text_that_does_not_parse_is_an_error() {
    let item: syn::ItemImpl = syn::parse_str(SEED_B).unwrap();
    let mut model = lower_impl(&item);
    model.generics = "< <".to_string();
    let texts = auto_ops_texts(&vec!["val_ref".to_string()], &model, false).unwrap();
    assert!(assemble(&item, &texts).is_err());
    assert!(assemble(&item, &vec![Some("struct B;".to_string())]).is_err());
}

#[test]
fn a_diagnostic_holds_one_message() {
    let item: syn::ItemImpl = syn::parse_str(SEED_B).unwrap();
    let error = ExpandError::UnexpectedIdent("Neg".to_string());
    let messages: Vec<String> =
        diagnostic(&item, &error).into_iter().map(|e| e.to_string()).collect();
    assert_eq!(messages, vec!["unexpacted Ident: Neg".to_string()]);
}

#[test]
fn what_the_parser_read_is_appended_and_what_it_refused_is_handed_on() {
    let mut out = stream("struct A;");
    let read = syn::parse_str::<syn::ItemImpl>(SEED_B);
    assert!(append_parsed(&mut out, read).is_ok());
    assert_eq!(flat(out.clone()), flat(stream(&format!("struct A; {}", SEED_B))));

    let refused = syn::parse_str::<syn::ItemImpl>("impl for");
    let words = refused.clone().err().unwrap().to_string();
    let handed_on = append_parsed(&mut out, refused);
    assert_eq!(handed_on.unwrap_err().to_string(), words);
    assert_eq!(flat(out), flat(stream(&format!("struct A; {}", SEED_B))));
}

#[test]
fn an_expansion_of_seeds_alone_always_assembles() {
    let item: syn::ItemImpl = syn::parse_str(SEED_B).unwrap();
    for n in 0..4 {
        let texts = vec![None; n];
        let out = assemble(&item, &texts).unwrap();
        assert_eq!(flat(out), flat(stream(&vec![SEED_B; n].join(" "))));
    }
}

#[test]
fn a_failed_assembly_carries_the_parsers_words() {
    let item: syn::ItemImpl = syn::parse_str(SEED_B).unwrap();
    let bad = "impl Add for { }";
    let words = syn::parse_str::<syn::ItemImpl>(bad).err().unwrap().to_string();
    let texts = vec![None, Some(bad.to_string()), Some("impl for".to_string())];
    assert_eq!(assemble(&item, &texts).unwrap_err().to_string(), words);
}

#[test]
fn a_parsed_implementation_expands_or_is_refused_with_one_message() {
    let item: syn::ItemImpl = syn::parse_str(SEED_B).unwrap();
    let own = vec!["assign_ref".to_string()];
    let out = expand_parsed(&item, &own, false).unwrap();
    assert_eq!(flat(out), flat(stream(SEED_B)));
    let out = expand_parsed(&item, &vec![], false).unwrap();
    assert_eq!(heads(out).len(), 6);
    let out = expand_parsed(&item, &vec!["val_ref".to_string()], true).unwrap();
    assert_eq!(heads(out), vec!["Add < & B > for B", "AddAssign < & B > for B"]);

    let inherent: syn::ItemImpl = syn::parse_str("impl B { }").unwrap();
    let refused = expand_parsed(&inherent, &own, false).unwrap_err();
    let messages: Vec<String> = refused.into_iter().map(|e| e.to_string()).collect();
    assert_eq!(messages, vec!["Is not Trait impl".to_string()]);

    let other: syn::ItemImpl = syn::parse_str("impl Neg for B { }").unwrap();
    let refused = expand_parsed(&other, &vec![], true).unwrap_err();
    let messages: Vec<String> = refused.into_iter().map(|e| e.to_string()).collect();
    assert_eq!(messages, vec!["unexpacted Ident: Neg".to_string()]);
}

#[test]
fn an_outcome_is_reported_as_tokens() {
    let out = report(Ok(stream(SEED_B)));
    assert_eq!(flat(out), flat(stream(SEED_B)));
    let out = report(Ok(TokenStream::new()));
    assert_eq!(flat(out), Vec::<String>::new());
    let error = syn::Error::new(proc_macro2::Span::call_site(), "no good");
    assert_eq!(flat(report(Err(error))), flat(message("no good")));
    // One invocation for each message that the error holds, in order.
    let mut error = syn::Error::new(proc_macro2::Span::call_site(), "first");
    error.combine(syn::Error::new(proc_macro2::Span::call_site(), "second"));
    assert_eq!(
        flat(report(Err(error))),
        flat(stream("compile_error!{ \"first\" } compile_error!{ \"second\" }"))
    );
}

/// Where a span starts and ends in the text it was read from, as columns.
fn columns(span: proc_macro2::Span) -> (usize, usize) {
    (span.start().column, span.end().column)
}

fn pointed_at(text: &str, error: ExpandError) -> (usize, usize) {
    let item: syn::ItemImpl = syn::parse_str(text).unwrap();
    columns(diagnostic(&item, &error).span())
}

#[test]
fn a_diagnostic_points_at_the_place_of_the_refusal() {
    //          0         1         2
    //          0123456789012345678901234567
    let text = "impl !ops::Add<B, C> for B {}";
    assert_eq!(pointed_at(text, ExpandError::NotTraitImpl), (0, 29));
    assert_eq!(pointed_at(text, ExpandError::NegativeImpl), (5, 6));
    assert_eq!(pointed_at(text, ExpandError::EmptyTraitPath), (6, 20));
    assert_eq!(pointed_at(text, ExpandError::ArgumentCount), (15, 19));
    assert_eq!(pointed_at(text, ExpandError::NotType), (15, 19));
    assert_eq!(pointed_at(text, ExpandError::UnexpectedIdent("Add".to_string())), (11, 14));
    let round = "impl Add(B) for B {}";
    assert_eq!(pointed_at(round, ExpandError::UnexpectedArguments), (8, 11));
    // The invalid form is reported where the macro is invoked.
    let here = columns(proc_macro2::Span::call_site());
    assert_eq!(pointed_at(text, ExpandError::AssignLhsReference), here);
}

#[test]
fn a_diagnostic_points_at_the_call_site_where_the_place_is_missing() {
    let here = columns(proc_macro2::Span::call_site());
    let inherent = "impl B {}";
    assert_eq!(pointed_at(inherent, ExpandError::NegativeImpl), here);
    assert_eq!(pointed_at(inherent, ExpandError::EmptyTraitPath), here);
    assert_eq!(pointed_at(inherent, ExpandError::ArgumentCount), here);
    assert_eq!(pointed_at(inherent, ExpandError::UnexpectedIdent("B".to_string())), here);
    assert_eq!(pointed_at("impl Add for B {}", ExpandError::NegativeImpl), here);
}

#[test]
fn a_refused_expansion_points_into_the_implementation() {
    let refused = auto_ops_impl_inner(
        TokenStream::new(),
        stream("impl Clone for B {}"),
        false,
    )
    .unwrap_err();
    assert_eq!(refused.to_string(), "unexpacted Ident: Clone");
    assert_eq!(columns(refused.span()), (5, 10));
}
