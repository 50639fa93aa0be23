//! Derived implementations as source text: a run of pieces, each followed by
//! a space.

use crate::body::Stmt;
use crate::catalog::OpTrait;
use crate::generator::{DerivedImpl, DerivedView, Emitted, EmittedView};
use crate::model::{AttrModel, AttrView};
use vstd::prelude::*;
use vstd::string::StringExecFns;

verus! {

/// The pieces in order, each followed by one space.
pub open spec fn spaced(pieces: Seq<Seq<char>>) -> Seq<char>
    decreases pieces.len(),
{
    if pieces.len() == 0 {
        Seq::empty()
    } else {
        spaced(pieces.drop_last()) + pieces.last() + " "@
    }
}

/// The texts of the attributes that are written inside the braces
/// (`inner`) or before the item (not `inner`), in order.
pub open spec fn attr_texts(attrs: Seq<AttrView>, inner: bool) -> Seq<Seq<char>>
    decreases attrs.len(),
{
    if attrs.len() == 0 {
        Seq::empty()
    } else if attrs.last().inner == inner {
        attr_texts(attrs.drop_last(), inner).push(attrs.last().text)
    } else {
        attr_texts(attrs.drop_last(), inner)
    }
}

/// The segments of a path before its last, each followed by `::`.
pub open spec fn path_prefix(prefix: Seq<Seq<char>>) -> Seq<Seq<char>>
    decreases prefix.len(),
{
    if prefix.len() == 0 {
        Seq::empty()
    } else {
        path_prefix(prefix.drop_last()).push(prefix.last()).push("::"@)
    }
}

/// The predicates, each followed by a separator.
pub open spec fn terminated(predicates: Seq<Seq<char>>) -> Seq<Seq<char>>
    decreases predicates.len(),
{
    if predicates.len() == 0 {
        Seq::empty()
    } else {
        terminated(predicates.drop_last()).push(predicates.last()).push(","@)
    }
}

/// A where-clause: nothing where there is no predicate; otherwise `where`
/// and the predicates with a separator between them, and one after the last
/// where `trailing` says so.
pub open spec fn where_clause(predicates: Seq<Seq<char>>, trailing: bool) -> Seq<Seq<char>> {
    if predicates.len() == 0 {
        Seq::empty()
    } else {
        let all_but_last = seq!["where"@] + terminated(predicates.drop_last());
        if trailing {
            all_but_last.push(predicates.last()).push(","@)
        } else {
            all_but_last.push(predicates.last())
        }
    }
}

/// The texts of the statements of a body.
pub open spec fn body_texts(body: Seq<Stmt>) -> Seq<Seq<char>> {
    body.map_values(|s: Stmt| s.text())
}

/// The items of a derived implementation: for a plain operator the
/// associated type `Output`; then the trait's method, which takes `&mut
/// self` and returns nothing where the trait assigns, and takes `self` and
/// returns `Self::Output` where it does not.
pub open spec fn items(
    op: OpTrait,
    rhs_type: Seq<char>,
    output: Option<Seq<char>>,
    body: Seq<Stmt>,
) -> Seq<Seq<char>> {
    let s = match output {
        Some(t) => seq!["type Output ="@, t, ";"@],
        None => Seq::empty(),
    };
    let s = s.push("fn"@).push(op.spec_func_ident());
    let s = if op.assigning() {
        s.push("( & mut self , rhs :"@).push(rhs_type).push(") {"@)
    } else {
        s.push("( self , rhs :"@).push(rhs_type).push(") -> Self :: Output {"@)
    };
    (s + body_texts(body)).push("}"@)
}

impl DerivedView {
    /// The implementation as a run of pieces of text.
    pub open spec fn pieces(self) -> Seq<Seq<char>> {
        let s = attr_texts(self.attrs, false);
        let s = if self.allow_unused_lifetimes {
            s.push("# [ allow ( clippy :: extra_unused_lifetimes ) ]"@)
        } else {
            s
        };
        let s = if self.is_default {
            s.push("default"@)
        } else {
            s
        };
        let s = if self.is_unsafe {
            s.push("unsafe"@)
        } else {
            s
        };
        let s = s.push("impl"@).push(self.generics);
        let s = if self.leading_colon {
            s.push("::"@)
        } else {
            s
        };
        let s = s + path_prefix(self.prefix);
        let s = s.push(self.op.spec_name()).push("<"@).push(self.rhs_type).push(">"@).push(
            "for"@,
        ).push(self.self_type);
        let s = s + where_clause(self.predicates, self.trailing);
        let s = s.push("{"@);
        let s = s + attr_texts(self.attrs, true);
        let s = s + items(self.op, self.rhs_type, self.output, self.body);
        s.push("}"@)
    }

    /// The implementation as source text.
    pub open spec fn text(self) -> Seq<char> {
        spaced(self.pieces())
    }
}

/// The text that an item of an expansion is written out as. The seed has
/// none: it is given back as it came.
pub open spec fn item_text(item: EmittedView) -> Option<Seq<char>> {
    match item {
        EmittedView::Seed => None,
        EmittedView::Derived(work) => Some(work.text()),
    }
}

/// Appends one piece.
fn put(out: &mut Vec<String>, piece: &str)
    ensures
        final(out).deep_view() == old(out).deep_view().push(piece@),
{
    out.push(String::from_str(piece));
    assert(out.deep_view() =~= old(out).deep_view().push(piece@));
}

/// Appends the texts of the attributes on one side of the braces.
fn put_attrs(out: &mut Vec<String>, attrs: &Vec<AttrModel>, inner: bool)
    ensures
        final(out).deep_view() == old(out).deep_view() + attr_texts(attrs.deep_view(), inner),
{
    let ghost all = attrs.deep_view();
    let mut i: usize = 0;
    assert(old(out).deep_view() + attr_texts(all.take(0), inner) =~= old(out).deep_view());
    while i < attrs.len()
        invariant
            i <= attrs.len(),
            all == attrs.deep_view(),
            out.deep_view() == old(out).deep_view() + attr_texts(all.take(i as int), inner),
        decreases attrs.len() - i,
    {
        proof {
            assert(all.take(i as int + 1).drop_last() =~= all.take(i as int));
            assert(all.take(i as int + 1).last() == attrs[i as int]@);
        }
        if attrs[i].inner == inner {
            put(out, attrs[i].text.as_str());
            assert(out.deep_view() =~= old(out).deep_view() + attr_texts(
                all.take(i as int + 1),
                inner,
            ));
        }
        i += 1;
    }
    assert(all.take(attrs.len() as int) =~= all);
}

/// Appends the segments of a path before its last, each with its `::`.
fn put_prefix(out: &mut Vec<String>, prefix: &Vec<String>)
    ensures
        final(out).deep_view() == old(out).deep_view() + path_prefix(prefix.deep_view()),
{
    let ghost all = prefix.deep_view();
    let mut i: usize = 0;
    assert(old(out).deep_view() + path_prefix(all.take(0)) =~= old(out).deep_view());
    while i < prefix.len()
        invariant
            i <= prefix.len(),
            all == prefix.deep_view(),
            out.deep_view() == old(out).deep_view() + path_prefix(all.take(i as int)),
        decreases prefix.len() - i,
    {
        proof {
            assert(all.take(i as int + 1).drop_last() =~= all.take(i as int));
            assert(all.take(i as int + 1).last() == prefix[i as int]@);
        }
        put(out, prefix[i].as_str());
        put(out, "::");
        assert(out.deep_view() =~= old(out).deep_view() + path_prefix(all.take(i as int + 1)));
        i += 1;
    }
    assert(all.take(prefix.len() as int) =~= all);
}

/// Appends a where-clause.
fn put_where(out: &mut Vec<String>, predicates: &Vec<String>, trailing: bool)
    ensures
        final(out).deep_view() == old(out).deep_view() + where_clause(
            predicates.deep_view(),
            trailing,
        ),
{
    let ghost all = predicates.deep_view();
    let n = predicates.len();
    if n == 0 {
        assert(old(out).deep_view() + where_clause(all, trailing) =~= old(out).deep_view());
        return ;
    }
    put(out, "where");
    let ghost start = old(out).deep_view() + seq!["where"@];
    assert(out.deep_view() =~= start + terminated(all.take(0)));
    let mut i: usize = 0;
    while i < n - 1
        invariant
            n == predicates.len(),
            n > 0,
            i <= n - 1,
            all == predicates.deep_view(),
            start == old(out).deep_view() + seq!["where"@],
            out.deep_view() == start + terminated(all.take(i as int)),
        decreases n - 1 - i,
    {
        proof {
            assert(all.take(i as int + 1).drop_last() =~= all.take(i as int));
            assert(all.take(i as int + 1).last() == predicates[i as int]@);
        }
        put(out, predicates[i].as_str());
        put(out, ",");
        assert(out.deep_view() =~= start + terminated(all.take(i as int + 1)));
        i += 1;
    }
    assert(all.take(n as int - 1) =~= all.drop_last());
    assert(all.last() == predicates[n as int - 1]@);
    put(out, predicates[n - 1].as_str());
    if trailing {
        put(out, ",");
    }
    assert(out.deep_view() =~= old(out).deep_view() + where_clause(all, trailing));
}

/// Appends the statements of a body.
fn put_body(out: &mut Vec<String>, body: &Vec<Stmt>)
    ensures
        final(out).deep_view() == old(out).deep_view() + body_texts(body@),
{
    let mut i: usize = 0;
    assert(old(out).deep_view() + body_texts(body@.take(0)) =~= old(out).deep_view());
    while i < body.len()
        invariant
            i <= body.len(),
            out.deep_view() == old(out).deep_view() + body_texts(body@.take(i as int)),
        decreases body.len() - i,
    {
        let text = body[i].to_text();
        put(out, text.as_str());
        assert(out.deep_view() =~= old(out).deep_view() + body_texts(body@.take(i as int + 1)));
        i += 1;
    }
    assert(body@.take(body.len() as int) =~= body@);
}

/// Appends the items of a derived implementation.
fn put_items(out: &mut Vec<String>, work: &DerivedImpl)
    ensures
        final(out).deep_view() == old(out).deep_view() + items(
            work@.op,
            work@.rhs_type,
            work@.output,
            work@.body,
        ),
{
    let ghost start = old(out).deep_view();
    match &work.output {
        Some(t) => {
            put(out, "type Output =");
            put(out, t.as_str());
            put(out, ";");
        },
        None => {},
    }
    put(out, "fn");
    let name = work.op.to_func_ident();
    put(out, name.as_str());
    if work.op.is_assign() {
        put(out, "( & mut self , rhs :");
        put(out, work.rhs_type.as_str());
        put(out, ") {");
    } else {
        put(out, "( self , rhs :");
        put(out, work.rhs_type.as_str());
        put(out, ") -> Self :: Output {");
    }
    put_body(out, &work.body);
    put(out, "}");
    assert(out.deep_view() =~= start + items(
        work@.op,
        work@.rhs_type,
        work@.output,
        work@.body,
    ));
}

/// The pieces in order, each followed by one space.
pub fn join_spaced(pieces: &Vec<String>) -> (r: String)
    ensures
        r@ == spaced(pieces.deep_view()),
{
    let ghost all = pieces.deep_view();
    let mut r = String::new();
    let mut i: usize = 0;
    while i < pieces.len()
        invariant
            i <= pieces.len(),
            all == pieces.deep_view(),
            r@ == spaced(all.take(i as int)),
        decreases pieces.len() - i,
    {
        proof {
            assert(all.take(i as int + 1).drop_last() =~= all.take(i as int));
            assert(all.take(i as int + 1).last() == pieces[i as int]@);
        }
        r.append(pieces[i].as_str());
        r.append(" ");
        i += 1;
    }
    assert(all.take(pieces.len() as int) =~= all);
    r
}

impl DerivedImpl {
    /// The implementation as a run of pieces of text.
    pub fn to_pieces(&self) -> (r: Vec<String>)
        ensures
            r.deep_view() == self@.pieces(),
    {
        let mut out: Vec<String> = Vec::new();
        assert(out.deep_view() =~= Seq::<Seq<char>>::empty());
        put_attrs(&mut out, &self.attrs, false);
        assert(out.deep_view() =~= attr_texts(self@.attrs, false));
        if self.allow_unused_lifetimes {
            put(&mut out, "# [ allow ( clippy :: extra_unused_lifetimes ) ]");
        }
        if self.is_default {
            put(&mut out, "default");
        }
        if self.is_unsafe {
            put(&mut out, "unsafe");
        }
        put(&mut out, "impl");
        put(&mut out, self.generics.as_str());
        if self.leading_colon {
            put(&mut out, "::");
        }
        put_prefix(&mut out, &self.prefix);
        let name = self.op.name();
        put(&mut out, name.as_str());
        put(&mut out, "<");
        put(&mut out, self.rhs_type.as_str());
        put(&mut out, ">");
        put(&mut out, "for");
        put(&mut out, self.self_type.as_str());
        put_where(&mut out, &self.predicates, self.trailing);
        put(&mut out, "{");
        put_attrs(&mut out, &self.attrs, true);
        put_items(&mut out, self);
        put(&mut out, "}");
        out
    }

    /// The implementation as source text.
    pub fn to_text(&self) -> (r: String)
        ensures
            r@ == self@.text(),
    {
        let pieces = self.to_pieces();
        join_spaced(&pieces)
    }
}

impl Emitted {
    /// The text that the item is written out as, if it is not the seed.
    pub fn to_text(&self) -> (r: Option<String>)
        ensures
            r.deep_view() == item_text(self@),
    {
        match self {
            Emitted::Seed => None,
            Emitted::Derived(work) => Some(work.to_text()),
        }
    }
}

/// In a where-clause a separator stands between any two predicates, so a
/// predicate that is added behind one that had no separator after it is
/// still set apart from it; and the clause ends with a separator exactly
/// where `trailing` says so.
pub proof fn lemma_where_clause_separates(predicates: Seq<Seq<char>>, trailing: bool)
    requires
        predicates.len() > 0,
    ensures
        where_clause(predicates, true) == seq!["where"@] + terminated(predicates),
        where_clause(predicates, false) == where_clause(predicates, true).drop_last(),
        where_clause(predicates, trailing).len() == 2 * predicates.len() + (if trailing {
            1int
        } else {
            0int
        }),
        forall|i: int|
            0 <= i < predicates.len() ==> #[trigger] where_clause(predicates, trailing)[2 * i + 1]
                == predicates[i],
        forall|i: int|
            0 <= i < predicates.len() - 1 ==> #[trigger] where_clause(predicates, trailing)[2 * i
                + 2] == ","@,
{
    lemma_terminated(predicates);
    lemma_terminated(predicates.drop_last());
    let head = seq!["where"@];
    assert(where_clause(predicates, true) =~= head + terminated(predicates));
    assert(where_clause(predicates, false) =~= where_clause(predicates, true).drop_last());
    assert forall|i: int| 0 <= i < predicates.len() implies #[trigger] where_clause(
        predicates,
        trailing,
    )[2 * i + 1] == predicates[i] by {
        if i < predicates.len() - 1 {
            assert(terminated(predicates.drop_last())[2 * i] == predicates.drop_last()[i]);
        }
    }
    assert forall|i: int| 0 <= i < predicates.len() - 1 implies #[trigger] where_clause(
        predicates,
        trailing,
    )[2 * i + 2] == ","@ by {
        assert(terminated(predicates.drop_last())[2 * i + 1] == ","@);
    }
}

/// Predicates that are each followed by a separator: two pieces for each
/// predicate, the predicate and the separator.
pub proof fn lemma_terminated(predicates: Seq<Seq<char>>)
    ensures
        terminated(predicates).len() == 2 * predicates.len(),
        forall|i: int|
            0 <= i < predicates.len() ==> #[trigger] terminated(predicates)[2 * i]
                == predicates[i],
        forall|i: int|
            0 <= i < predicates.len() ==> #[trigger] terminated(predicates)[2 * i + 1] == ","@,
    decreases predicates.len(),
{
    if predicates.len() > 0 {
        lemma_terminated(predicates.drop_last());
        let before = terminated(predicates.drop_last());
        assert forall|i: int| 0 <= i < predicates.len() implies #[trigger] terminated(
            predicates,
        )[2 * i] == predicates[i] by {
            if i < predicates.len() - 1 {
                assert(before[2 * i] == predicates.drop_last()[i]);
            }
        }
        assert forall|i: int| 0 <= i < predicates.len() implies #[trigger] terminated(
            predicates,
        )[2 * i + 1] == ","@ by {
            if i < predicates.len() - 1 {
                assert(before[2 * i + 1] == ","@);
            }
        }
    }
}

} // verus!
