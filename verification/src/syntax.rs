//! The way in and out of token streams: the host language's parser is
//! called here, and what it returns is lowered to the plain model on which
//! the expansion is computed.
//!
//! The functions marked `external_body` are trusted: each holds one call
//! into `syn`, `quote` or `proc_macro2`, and its contract is believed, not
//! proved. What such a call reads or writes is opaque here, so it has a name:
//! a spec function without a body, of which only those contracts speak.

use crate::emit::{auto_ops_texts, expansion_texts};
use crate::error::{ExpandError, Fault, Site};
use crate::model::{
    args_with_first, trait_view, AttrModel, AttrView, ImplModel, ImplView, SegmentModel,
    SegmentView, TraitArgs, TraitArgsView, TraitModel, TraitView, TypeModel, TypeView,
};
use proc_macro2::{Ident, Span, TokenStream};
use quote::ToTokens;
use syn::parse::Parser;
use syn::punctuated::Punctuated;
use syn::spanned::Spanned;
use syn::token::Comma;
use syn::{AttrStyle, GenericArgument, ItemImpl, PathArguments, PathSegment, Type};
use vstd::prelude::*;

verus! {

/// Declares `proc_macro2::TokenStream`, of which nothing is seen here but the name.
#[verifier::external_type_specification]
#[verifier::external_body]
pub struct ExTokenStream(proc_macro2::TokenStream);

/// Declares `proc_macro2::Span`, of which nothing is seen here but the name.
#[verifier::external_type_specification]
#[verifier::external_body]
pub struct ExSpan(proc_macro2::Span);

/// Declares `syn::ItemImpl`, of which nothing is seen here but the name.
#[verifier::external_type_specification]
#[verifier::external_body]
pub struct ExItemImpl(syn::ItemImpl);

/// Declares `syn::PathSegment`, of which nothing is seen here but the name.
#[verifier::external_type_specification]
#[verifier::external_body]
pub struct ExPathSegment(syn::PathSegment);

/// Declares `syn::Type`, of which nothing is seen here but the name.
#[verifier::external_type_specification]
#[verifier::external_body]
pub struct ExType(syn::Type);

/// Declares `syn::Error`, of which nothing is seen here but the name.
#[verifier::external_type_specification]
#[verifier::external_body]
pub struct ExError(syn::Error);

/// The tokens that a stream holds, in order, groups opened up and their
/// delimiters written as tokens of their own: an identifier by its name, a
/// punctuation mark by its character, a string literal by the string it
/// stands for between double quotes, any other literal as it is written.
pub uninterp spec fn stream_tokens(stream: proc_macro2::TokenStream) -> Seq<Seq<char>>;

/// The tokens that an implementation is written out as by
/// `ToTokens::to_tokens`, as [`stream_tokens`] gives them.
pub uninterp spec fn impl_tokens(item: syn::ItemImpl) -> Seq<Seq<char>>;

/// The names that `Punctuated::parse_terminated` reads from the tokens of an
/// attribute's arguments; `None` where it refuses them.
pub uninterp spec fn parsed_selectors(attrs: proc_macro2::TokenStream) -> Option<Seq<Seq<char>>>;

/// The implementation that `syn::parse2` reads from a stream; `None` where
/// it refuses the stream.
pub uninterp spec fn parsed_item(tokens: proc_macro2::TokenStream) -> Option<syn::ItemImpl>;

/// That `syn::parse_str`, asked to read an implementation from `text`, gave
/// `answer`. Which answer it gives is left open: the text is lexed first,
/// and inside a macro the compiler's lexer has a say in that.
pub uninterp spec fn parser_answers(
    text: Seq<char>,
    answer: Result<syn::ItemImpl, syn::Error>,
) -> bool;

/// The attributes of an implementation, as [`impl_attrs`] reads them.
pub uninterp spec fn read_attrs(item: syn::ItemImpl) -> Seq<AttrView>;

/// Whether an implementation is written with `default`, and whether with
/// `unsafe`.
pub uninterp spec fn read_qualifiers(item: syn::ItemImpl) -> (bool, bool);

/// The generic parameters of an implementation, written out.
pub uninterp spec fn read_generics(item: syn::ItemImpl) -> Seq<char>;

/// The trait path of an implementation, as [`trait_path`] reads it.
pub uninterp spec fn read_trait_path(item: syn::ItemImpl) -> Option<
    (bool, bool, Seq<Seq<char>>),
>;

/// The last segment of the trait path of an implementation.
pub uninterp spec fn read_last_segment(item: syn::ItemImpl) -> Option<syn::PathSegment>;

/// The name of a path segment.
pub uninterp spec fn read_ident(segment: syn::PathSegment) -> Seq<char>;

/// The shape of a path segment's arguments, as [`segment_arguments`] reads
/// it: without a first type argument.
pub uninterp spec fn read_arguments(segment: syn::PathSegment) -> TraitArgsView;

/// The first of a path segment's arguments between angle brackets, where it
/// is a type.
pub uninterp spec fn read_first_type(segment: syn::PathSegment) -> Option<syn::Type>;

/// The self type of an implementation.
pub uninterp spec fn read_self_type(item: syn::ItemImpl) -> syn::Type;

/// A type, as [`lower_type`] reads it.
pub uninterp spec fn read_type(ty: syn::Type) -> TypeView;

/// The predicates of the where-clause of an implementation, each written
/// out.
pub uninterp spec fn read_predicates(item: syn::ItemImpl) -> Seq<Seq<char>>;

/// Whether a separator follows the last predicate of the where-clause of an
/// implementation.
pub uninterp spec fn read_trailing(item: syn::ItemImpl) -> bool;

/// Parses an attribute's arguments with `Punctuated::parse_terminated`:
/// identifiers separated by commas, a trailing comma allowed. Returns the
/// identifiers' names in order, or `syn`'s error.
#[verifier::external_body]
fn parse_selectors(attrs: TokenStream) -> (r: Result<Vec<String>, syn::Error>)
    ensures
        match r {
            Ok(names) => parsed_selectors(attrs) == Some(names.deep_view()),
            Err(_) => parsed_selectors(attrs) is None,
        },
{
    let list = Punctuated::<Ident, Comma>::parse_terminated.parse2(attrs)?;
    Ok(list.iter().map(|ident| ident.to_string()).collect())
}

/// Parses an implementation with `syn::parse2`.
#[verifier::external_body]
fn parse_impl(tokens: TokenStream) -> (r: Result<ItemImpl, syn::Error>)
    ensures
        match r {
            Ok(item) => parsed_item(tokens) == Some(item),
            Err(_) => parsed_item(tokens) is None,
        },
{
    syn::parse2(tokens)
}

/// Parses the text of an implementation with `syn::parse_str`. Of the
/// answer the contract says only that the parser gave it for this text.
#[verifier::external_body]
fn parse_impl_text(text: &str) -> (r: Result<ItemImpl, syn::Error>)
    ensures
        parser_answers(text@, r),
{
    syn::parse_str(text)
}

/// The attributes of an implementation, each with its style and its tokens
/// written out by `ToTokens::to_token_stream`.
#[verifier::external_body]
fn impl_attrs(item: &ItemImpl) -> (r: Vec<AttrModel>)
    ensures
        r.deep_view() == read_attrs(*item),
{
    item.attrs.iter().map(
        |attr|
            AttrModel {
                inner: matches!(attr.style, AttrStyle::Inner(_)),
                text: attr.to_token_stream().to_string(),
            },
    ).collect()
}

/// Whether an implementation is written with `default`, and whether with
/// `unsafe`.
#[verifier::external_body]
fn impl_qualifiers(item: &ItemImpl) -> (r: (bool, bool))
    ensures
        r == read_qualifiers(*item),
{
    (item.defaultness.is_some(), item.unsafety.is_some())
}

/// The generic parameters of an implementation with their angle brackets,
/// written out by `ToTokens::to_token_stream` of `syn::Generics`.
#[verifier::external_body]
fn impl_generics(item: &ItemImpl) -> (r: String)
    ensures
        r@ == read_generics(*item),
{
    item.generics.to_token_stream().to_string()
}

/// The trait path of an implementation, if it has one: whether `!` stands
/// before it, whether it starts with `::`, and each of its segments written
/// out by `ToTokens::to_token_stream`.
#[verifier::external_body]
fn trait_path(item: &ItemImpl) -> (r: Option<(bool, bool, Vec<String>)>)
    ensures
        read_trait_path(*item) == match r {
            Some((negated, leading_colon, segments)) => Some(
                (negated, leading_colon, segments.deep_view()),
            ),
            None => None,
        },
{
    item.trait_.as_ref().map(
        |t|
            (
                t.0.is_some(),
                t.1.leading_colon.is_some(),
                t.1.segments.iter().map(|s| s.to_token_stream().to_string()).collect(),
            ),
    )
}

/// The last segment of the trait path of an implementation, by
/// `Punctuated::last`.
#[verifier::external_body]
fn last_segment(item: &ItemImpl) -> (r: Option<&PathSegment>)
    ensures
        read_last_segment(*item) == match r {
            Some(segment) => Some(*segment),
            None => None,
        },
{
    item.trait_.as_ref().and_then(|t| t.1.segments.last())
}

/// The name of a path segment, by `Ident::to_string`.
#[verifier::external_body]
fn segment_ident(segment: &PathSegment) -> (r: String)
    ensures
        r@ == read_ident(*segment),
{
    segment.ident.to_string()
}

/// The shape of a path segment's arguments. Of those between angle
/// brackets it gives the number, by `Punctuated::len`, and nothing of the
/// arguments themselves.
#[verifier::external_body]
fn segment_arguments(segment: &PathSegment) -> (r: TraitArgs)
    ensures
        r@ == read_arguments(*segment),
{
    match &segment.arguments {
        PathArguments::None => TraitArgs::Absent,
        PathArguments::AngleBracketed(a) => TraitArgs::AngleBracketed {
            count: a.args.len(),
            first: None,
        },
        PathArguments::Parenthesized(_) => TraitArgs::Parenthesized,
    }
}

/// The first of a path segment's arguments between angle brackets, by
/// `Punctuated::first`, where it is a type.
#[verifier::external_body]
fn first_type_argument(segment: &PathSegment) -> (r: Option<&Type>)
    ensures
        read_first_type(*segment) == match r {
            Some(ty) => Some(*ty),
            None => None,
        },
{
    match &segment.arguments {
        PathArguments::AngleBracketed(a) => match a.args.first() {
            Some(GenericArgument::Type(t)) => Some(t),
            _ => None,
        },
        _ => None,
    }
}

/// The self type of an implementation.
#[verifier::external_body]
fn self_type(item: &ItemImpl) -> (r: &Type)
    ensures
        *r == read_self_type(*item),
{
    &item.self_ty
}

/// A type as far as the expansion looks: for `Type::Reference` its
/// lifetime, its mutability and its referent written out by
/// `ToTokens::to_token_stream`; for any other type the type written out.
#[verifier::external_body]
fn lower_type(ty: &Type) -> (r: TypeModel)
    ensures
        r@ == read_type(*ty),
{
    match ty {
        Type::Reference(r) => TypeModel {
            is_ref: true,
            lifetime: r.lifetime.as_ref().map(|l| l.to_string()),
            mutable: r.mutability.is_some(),
            elem: r.elem.to_token_stream().to_string(),
        },
        _ => TypeModel {
            is_ref: false,
            lifetime: None,
            mutable: false,
            elem: ty.to_token_stream().to_string(),
        },
    }
}

/// The predicates of the where-clause of an implementation, each written
/// out by `ToTokens::to_token_stream`.
#[verifier::external_body]
fn where_predicates(item: &ItemImpl) -> (r: Vec<String>)
    ensures
        r.deep_view() == read_predicates(*item),
{
    item.generics.where_clause.iter().flat_map(|w| w.predicates.iter()).map(
        |p| p.to_token_stream().to_string(),
    ).collect()
}

/// Whether a separator follows the last predicate of the where-clause of an
/// implementation, by `Punctuated::trailing_punct`.
#[verifier::external_body]
fn where_trailing(item: &ItemImpl) -> (r: bool)
    ensures
        r == read_trailing(*item),
{
    item.generics.where_clause.as_ref().map_or(false, |w| w.predicates.trailing_punct())
}

/// The span of an implementation.
pub uninterp spec fn item_span(item: syn::ItemImpl) -> proc_macro2::Span;

/// The span of the `!` before the trait of an implementation, where there
/// is one.
pub uninterp spec fn negation_span(item: syn::ItemImpl) -> Option<proc_macro2::Span>;

/// The span of the segments of the trait path of an implementation, where
/// it implements a trait.
pub uninterp spec fn path_span(item: syn::ItemImpl) -> Option<proc_macro2::Span>;

/// The span of a path segment's arguments: of those between angle brackets
/// without the brackets, of arguments of another shape as a whole.
pub uninterp spec fn arguments_span(segment: syn::PathSegment) -> proc_macro2::Span;

/// The span of a path segment's name.
pub uninterp spec fn ident_span(segment: syn::PathSegment) -> proc_macro2::Span;

/// That `Span::call_site` gave this span: it is the span of the macro's
/// invocation. Which span that is depends on the invocation, so it has no
/// name of its own.
pub uninterp spec fn at_call_site(span: proc_macro2::Span) -> bool;

/// The span of an implementation, by `Spanned::span`.
#[verifier::external_body]
fn span_of_impl(item: &ItemImpl) -> (r: Span)
    ensures
        r == item_span(*item),
{
    item.span()
}

/// The span of the `!` before the trait of an implementation, by
/// `Spanned::span`, where there is one.
#[verifier::external_body]
fn span_of_negation(item: &ItemImpl) -> (r: Option<Span>)
    ensures
        r == negation_span(*item),
{
    item.trait_.as_ref().and_then(|t| t.0.as_ref()).map(|bang| bang.span())
}

/// The span of the segments of the trait path of an implementation, by
/// `Spanned::span`, where it implements a trait.
#[verifier::external_body]
fn span_of_path(item: &ItemImpl) -> (r: Option<Span>)
    ensures
        r == path_span(*item),
{
    item.trait_.as_ref().map(|t| t.1.segments.span())
}

/// The span of a path segment's arguments, by `Spanned::span`: of the
/// arguments between angle brackets without the brackets, of arguments of
/// another shape as a whole.
#[verifier::external_body]
fn span_of_arguments(segment: &PathSegment) -> (r: Span)
    ensures
        r == arguments_span(*segment),
{
    match &segment.arguments {
        PathArguments::AngleBracketed(a) => a.args.span(),
        other => other.span(),
    }
}

/// The span of a path segment's name, by `Ident::span`.
#[verifier::external_body]
fn span_of_ident(segment: &PathSegment) -> (r: Span)
    ensures
        r == ident_span(*segment),
{
    segment.ident.span()
}

/// The span of the macro's invocation, by `Span::call_site`.
#[verifier::external_body]
fn call_site() -> (r: Span)
    ensures
        at_call_site(r),
{
    Span::call_site()
}

/// An empty token stream, by `TokenStream::new`.
#[verifier::external_body]
fn empty_stream() -> (r: TokenStream)
    ensures
        stream_tokens(r) == Seq::<Seq<char>>::empty(),
{
    TokenStream::new()
}

/// Appends the tokens of an implementation to a stream, by
/// `ToTokens::to_tokens`: the stream holds what it held, and then the
/// implementation's tokens.
#[verifier::external_body]
fn append_impl(out: &mut TokenStream, item: &ItemImpl)
    ensures
        stream_tokens(*final(out)) == stream_tokens(*old(out)) + impl_tokens(*item),
{
    item.to_tokens(out);
}

/// The messages that a `syn::Error` holds, in the order in which it gives
/// them out.
pub uninterp spec fn error_messages(error: syn::Error) -> Seq<Seq<char>>;

/// The spans at which the messages of a `syn::Error` point, one for each
/// message, in the order of the messages.
pub uninterp spec fn error_spans(error: syn::Error) -> Seq<proc_macro2::Span>;

/// An error at the given span, by `syn::Error::new`: it holds one message,
/// the given one, and that points at the given span.
#[verifier::external_body]
fn new_error(span: Span, message: &str) -> (r: syn::Error)
    ensures
        error_messages(r) == seq![message@],
        error_spans(r) == seq![span],
{
    syn::Error::new(span, message)
}

/// The tokens that report messages to the compiler: for each message, in
/// order, `compile_error`, `!`, and between braces the message as a string
/// literal.
pub open spec fn invocations(messages: Seq<Seq<char>>) -> Seq<Seq<char>>
    decreases messages.len(),
{
    if messages.len() == 0 {
        Seq::empty()
    } else {
        invocations(messages.drop_last()) + seq![
            "compile_error"@,
            "!"@,
            "{"@,
            "\""@ + messages.last() + "\""@,
            "}"@,
        ]
    }
}

/// The invocations of `compile_error!` that report an error, by
/// `syn::Error::into_compile_error`: one for each message that the error
/// holds, in order.
#[verifier::external_body]
fn into_compile_error(error: syn::Error) -> (r: TokenStream)
    ensures
        stream_tokens(r) == invocations(error_messages(error)),
{
    error.into_compile_error()
}

/// What [`lower_impl`] makes of a path segment: its name, and its
/// arguments with the first of them where that is a type.
pub open spec fn lowered_segment(segment: syn::PathSegment) -> SegmentView {
    SegmentView {
        ident: read_ident(segment),
        arguments: args_with_first(
            read_arguments(segment),
            match read_first_type(segment) {
                Some(ty) => Some(read_type(ty)),
                None => None,
            },
        ),
    }
}

/// What [`lower_impl`] makes of the trait part of a header.
pub open spec fn lowered_trait(item: syn::ItemImpl) -> Option<TraitView> {
    trait_view(
        read_trait_path(item),
        match read_last_segment(item) {
            Some(segment) => Some(lowered_segment(segment)),
            None => None,
        },
    )
}

/// The plain model of a parsed implementation: each field is what the
/// parser's tree holds for it.
pub open spec fn lowered(item: syn::ItemImpl) -> ImplView {
    ImplView {
        attrs: read_attrs(item),
        is_default: read_qualifiers(item).0,
        is_unsafe: read_qualifiers(item).1,
        generics: read_generics(item),
        trait_: lowered_trait(item),
        self_ty: read_type(read_self_type(item)),
        predicates: read_predicates(item),
        trailing: read_trailing(item),
    }
}

/// A path segment, lowered: its name, and its arguments with the first of
/// them where that is a type.
fn lower_segment(segment: &PathSegment) -> (r: SegmentModel)
    ensures
        r@ == lowered_segment(*segment),
{
    let first = match first_type_argument(segment) {
        Some(ty) => Some(lower_type(ty)),
        None => None,
    };
    SegmentModel {
        ident: segment_ident(segment),
        arguments: segment_arguments(segment).with_first_type(first),
    }
}

/// The trait part of an implementation's header, lowered.
fn lower_trait(item: &ItemImpl) -> (r: Option<TraitModel>)
    ensures
        lowered_trait(*item) == match r {
            Some(t) => Some(t@),
            None => None,
        },
{
    let last = match last_segment(item) {
        Some(segment) => Some(lower_segment(segment)),
        None => None,
    };
    TraitModel::from_parts(trait_path(item), last)
}

/// The plain model of a parsed implementation.
pub fn lower_impl(item: &ItemImpl) -> (r: ImplModel)
    ensures
        r@ == lowered(*item),
{
    let (is_default, is_unsafe) = impl_qualifiers(item);
    ImplModel {
        attrs: impl_attrs(item),
        is_default,
        is_unsafe,
        generics: impl_generics(item),
        trait_: lower_trait(item),
        self_ty: lower_type(self_type(item)),
        predicates: where_predicates(item),
        trailing: where_trailing(item),
    }
}

/// The span of a place in an implementation, where the implementation has
/// that place. The call site is no place in it.
pub open spec fn place(item: syn::ItemImpl, site: Site) -> Option<proc_macro2::Span> {
    match site {
        Site::Item => Some(item_span(item)),
        Site::Negation => negation_span(item),
        Site::Path => path_span(item),
        Site::Arguments => match read_last_segment(item) {
            Some(segment) => Some(arguments_span(segment)),
            None => None,
        },
        Site::Ident => match read_last_segment(item) {
            Some(segment) => Some(ident_span(segment)),
            None => None,
        },
        Site::CallSite => None,
    }
}

/// `error` reports `fault` on the implementation `item`: it holds one
/// message, that of the refusal, and points at the place that the refusal
/// points at, or at the call site where the implementation has no such
/// place.
pub open spec fn reports(error: syn::Error, item: syn::ItemImpl, fault: Fault) -> bool {
    &&& error_messages(error) == seq![fault.message()]
    &&& error_spans(error).len() == 1
    &&& match place(item, fault.site()) {
        Some(span) => error_spans(error)[0] == span,
        None => at_call_site(error_spans(error)[0]),
    }
}

/// The diagnostic for a refusal: one message, that of the refusal, at the
/// span of the place that the refusal points at, or at the call site where
/// the implementation has no such place.
pub fn diagnostic(item: &ItemImpl, error: &ExpandError) -> (r: syn::Error)
    ensures
        reports(r, *item, error@),
{
    let place = match error.site() {
        Site::Item => Some(span_of_impl(item)),
        Site::Negation => span_of_negation(item),
        Site::Path => span_of_path(item),
        Site::Arguments => match last_segment(item) {
            Some(segment) => Some(span_of_arguments(segment)),
            None => None,
        },
        Site::Ident => match last_segment(item) {
            Some(segment) => Some(span_of_ident(segment)),
            None => None,
        },
        Site::CallSite => None,
    };
    let span = match place {
        Some(span) => span,
        None => call_site(),
    };
    let message = error.message();
    new_error(span, message.as_str())
}

/// The tokens of a run of implementations, one after the other.
pub open spec fn all_tokens(items: Seq<syn::ItemImpl>) -> Seq<Seq<char>>
    decreases items.len(),
{
    if items.len() == 0 {
        Seq::empty()
    } else {
        all_tokens(items.drop_last()) + impl_tokens(items.last())
    }
}

/// No item of an expansion is a derived implementation: each is the seed,
/// given back as it came.
pub open spec fn nothing_derived(texts: Seq<Option<Seq<char>>>) -> bool {
    forall|i: int| 0 <= i < texts.len() ==> (#[trigger] texts[i]) is None
}

/// `items` are the implementations that the items of an expansion stand
/// for, one for one: the seed where an item has no text, and where it has
/// one, what the parser read from that text.
pub open spec fn items_for(
    seed: syn::ItemImpl,
    texts: Seq<Option<Seq<char>>>,
    items: Seq<syn::ItemImpl>,
) -> bool {
    &&& items.len() == texts.len()
    &&& forall|i: int|
        0 <= i < texts.len() ==> match #[trigger] texts[i] {
            None => items[i] == seed,
            Some(text) => parser_answers(text, Ok(items[i])),
        }
}

/// `outcome` is what putting an expansion together comes to. Where it is
/// a stream, the parser read an implementation from every text, and the
/// stream holds the tokens of the items' implementations in order. Where it
/// is an error, the parser gave that error for one of the texts.
pub open spec fn assembled(
    seed: syn::ItemImpl,
    texts: Seq<Option<Seq<char>>>,
    outcome: Result<proc_macro2::TokenStream, syn::Error>,
) -> bool {
    match outcome {
        Ok(stream) => exists|items: Seq<syn::ItemImpl>| #[trigger]
            items_for(seed, texts, items) && stream_tokens(stream) == all_tokens(items),
        Err(e) => exists|i: int|
            0 <= i < texts.len() && (#[trigger] texts[i]) is Some && parser_answers(
                texts[i]->0,
                Err(e),
            ),
    }
}

/// Appends to a stream what the parser made of one text: the tokens of
/// the implementation that it read, or nothing where it refused the text,
/// and then its error is handed on.
pub fn append_parsed(out: &mut TokenStream, parsed: Result<ItemImpl, syn::Error>) -> (r: Result<
    (),
    syn::Error,
>)
    ensures
        match parsed {
            Ok(item) => r is Ok && stream_tokens(*final(out)) == stream_tokens(*old(out))
                + impl_tokens(item),
            Err(e) => r == Err::<(), syn::Error>(e) && *final(out) == *old(out),
        },
{
    match parsed {
        Ok(item) => {
            append_impl(out, &item);
            Ok(())
        },
        Err(e) => Err(e),
    }
}

/// The tokens of an expansion whose items are given as text: for `None`
/// the tokens of the seed, for a text the tokens of the implementation that
/// the parser reads from it. Fails with the parser's error where it refuses
/// a text; where no item is a text, nothing is parsed and it succeeds.
pub fn assemble(seed: &ItemImpl, texts: &Vec<Option<String>>) -> (r: Result<
    TokenStream,
    syn::Error,
>)
    ensures
        assembled(*seed, texts.deep_view(), r),
        nothing_derived(texts.deep_view()) ==> r is Ok,
{
    let ghost all = texts.deep_view();
    let ghost mut items: Seq<syn::ItemImpl> = Seq::empty();
    let mut result = empty_stream();
    let mut i: usize = 0;
    while i < texts.len()
        invariant
            i <= texts.len(),
            all == texts.deep_view(),
            items_for(*seed, all.take(i as int), items),
            stream_tokens(result) == all_tokens(items),
        decreases texts.len() - i,
    {
        assert(all[i as int] == texts[i as int].deep_view());
        let ghost before = items;
        match &texts[i] {
            None => {
                append_impl(&mut result, seed);
                proof {
                    items = before.push(*seed);
                }
            },
            Some(text) => {
                let parsed = parse_impl_text(text.as_str());
                let ghost answer = parsed;
                match append_parsed(&mut result, parsed) {
                    Ok(()) => {
                        proof {
                            items = before.push(answer->Ok_0);
                        }
                    },
                    Err(e) => {
                        assert(all[i as int] is Some && parser_answers(
                            all[i as int]->0,
                            Err(e),
                        ));
                        return Err(e);
                    },
                }
            },
        }
        proof {
            assert(items.drop_last() =~= before);
            let next = all.take(i as int + 1);
            assert forall|j: int| 0 <= j < next.len() implies match #[trigger] next[j] {
                None => items[j] == *seed,
                Some(text) => parser_answers(text, Ok(items[j])),
            } by {
                if j < i {
                    assert(all.take(i as int)[j] == next[j]);
                }
            }
        }
        i += 1;
    }
    assert(all.take(texts.len() as int) =~= all);
    Ok(result)
}

/// `outcome` is what expanding the parsed implementation `item` under the
/// selectors `selectors` comes to. Where the expansion of its model is
/// refused, it is the error that reports the refusal. Where it is not, it
/// is what putting the expansion's items together comes to.
pub open spec fn expanded(
    item: syn::ItemImpl,
    selectors: Seq<Seq<char>>,
    scoped_take: bool,
    outcome: Result<proc_macro2::TokenStream, syn::Error>,
) -> bool {
    match expansion_texts(selectors, lowered(item), scoped_take) {
        Err(fault) => outcome is Err && reports(outcome->Err_0, item, fault),
        Ok(texts) => assembled(item, texts, outcome) && (nothing_derived(texts)
            ==> outcome is Ok),
    }
}

/// The tokens of the expansion of a parsed implementation under the
/// selectors `selectors`.
pub fn expand_parsed(item: &ItemImpl, selectors: &Vec<String>, scoped_take: bool) -> (r: Result<
    TokenStream,
    syn::Error,
>)
    ensures
        expanded(*item, selectors.deep_view(), scoped_take, r),
{
    let model = lower_impl(item);
    match auto_ops_texts(selectors, &model, scoped_take) {
        Ok(texts) => assemble(item, &texts),
        Err(e) => Err(diagnostic(item, &e)),
    }
}

/// `tokens` stand for `outcome`: they are the stream itself where it is
/// one, and where it is an error the invocations of `compile_error!` that
/// report its messages.
pub open spec fn reported(
    outcome: Result<proc_macro2::TokenStream, syn::Error>,
    tokens: proc_macro2::TokenStream,
) -> bool {
    match outcome {
        Ok(stream) => tokens == stream,
        Err(e) => stream_tokens(tokens) == invocations(error_messages(e)),
    }
}

/// The tokens that stand for the outcome of an expansion: the stream
/// itself where it succeeded, and where it failed the invocations of
/// `compile_error!` that report the error.
pub fn report(outcome: Result<TokenStream, syn::Error>) -> (r: TokenStream)
    ensures
        reported(outcome, r),
{
    match outcome {
        Ok(stream) => stream,
        Err(e) => into_compile_error(e),
    }
}

/// `outcome` is what expanding the implementation `tokens` under the
/// attribute `attrs` comes to: an error where the parser refuses the
/// attribute's arguments, or else the implementation; otherwise what
/// expanding what it read of the two comes to.
pub open spec fn attempted(
    attrs: proc_macro2::TokenStream,
    tokens: proc_macro2::TokenStream,
    scoped_take: bool,
    outcome: Result<proc_macro2::TokenStream, syn::Error>,
) -> bool {
    match parsed_selectors(attrs) {
        None => outcome is Err,
        Some(selectors) => match parsed_item(tokens) {
            None => outcome is Err,
            Some(item) => expanded(item, selectors, scoped_take, outcome),
        },
    }
}

/// Expands the implementation `tokens` under the attribute `attrs`, or
/// fails with the first error.
pub fn auto_ops_impl_inner(attrs: TokenStream, tokens: TokenStream, scoped_take: bool) -> (r:
    Result<TokenStream, syn::Error>)
    ensures
        attempted(attrs, tokens, scoped_take, r),
{
    let selectors = match parse_selectors(attrs) {
        Ok(a) => a,
        Err(e) => {
            return Err(e);
        },
    };
    let item = match parse_impl(tokens) {
        Ok(i) => i,
        Err(e) => {
            return Err(e);
        },
    };
    expand_parsed(&item, &selectors, scoped_take)
}

/// Expands the implementation `tokens` under the attribute `attrs`. A
/// derived compound assignment whose seed consumes its left operand vacates
/// the slot by a scoped take where `scoped_take` is set, and by swapping a
/// default value in where it is not. An error becomes one invocation of
/// `compile_error!` for each of its messages.
pub fn auto_ops_impl_with(attrs: TokenStream, tokens: TokenStream, scoped_take: bool) -> (r:
    TokenStream)
    ensures
        exists|outcome: Result<TokenStream, syn::Error>| #[trigger]
            attempted(attrs, tokens, scoped_take, outcome) && reported(outcome, r),
{
    report(auto_ops_impl_inner(attrs, tokens, scoped_take))
}

/// Expands the implementation `tokens` under the attribute `attrs`, with
/// bodies that swap a default value in. An error becomes one invocation of
/// `compile_error!` for each of its messages.
pub fn auto_ops_impl(attrs: TokenStream, tokens: TokenStream) -> (r: TokenStream)
    ensures
        exists|outcome: Result<TokenStream, syn::Error>| #[trigger]
            attempted(attrs, tokens, false, outcome) && reported(outcome, r),
{
    auto_ops_impl_with(attrs, tokens, false)
}

} // verus!
