//! The bodies of derived methods: a short run of statements that adapts the
//! caller's operands to what the seed's method takes and then calls it.

use crate::catalog::OpTrait;
use crate::form::Operate;
use vstd::prelude::*;
use vstd::string::StringExecFns;

verus! {

/// What the local `lhs` is bound to.
#[derive(Clone, Copy, Debug, PartialEq, Eq, Hash, Structural)]
pub enum Binding {
    /// `self`
    Taken,
    /// `&self`
    Borrowed,
    /// `self.clone()`
    Cloned,
}

/// One statement of a derived body. Where a statement calls a method, it
/// holds the trait whose method it calls.
#[derive(Clone, Copy, Debug, PartialEq, Eq, Hash, Structural)]
pub enum Stmt {
    /// `let rhs = &rhs;`
    BorrowRhs,
    /// `let rhs = rhs.clone();`
    CloneRhs,
    /// `let lhs = ..;` or `let mut lhs = ..;`
    BindLhs { mutable: bool, init: Binding },
    /// `self.f(rhs);`
    CallOnSelf(OpTrait),
    /// `*self = (&*self).f(rhs);`
    AssignFromBorrow(OpTrait),
    /// `take_mut::take(self, |x| x.f(rhs));`
    ScopedTake(OpTrait),
    /// `let mut t = Self::default();`
    MakeDefault,
    /// `std::mem::swap(&mut t, self);`
    SwapOut,
    /// `let mut u = t.f(rhs);`
    CallOnTaken(OpTrait),
    /// `std::mem::swap(&mut u, self);`
    SwapIn,
    /// `lhs.f(rhs);`
    CallOnLhs(OpTrait),
    /// `lhs`
    YieldLhs,
    /// `lhs.f(rhs)`
    YieldCall(OpTrait),
}

impl Stmt {
    /// The trait whose method the statement calls, if it calls one.
    pub open spec fn callee(self) -> Option<OpTrait> {
        match self {
            Stmt::CallOnSelf(f) => Some(f),
            Stmt::AssignFromBorrow(f) => Some(f),
            Stmt::ScopedTake(f) => Some(f),
            Stmt::CallOnTaken(f) => Some(f),
            Stmt::CallOnLhs(f) => Some(f),
            Stmt::YieldCall(f) => Some(f),
            _ => None,
        }
    }

    /// The statement duplicates an operand.
    pub open spec fn clones(self) -> bool {
        self == Stmt::CloneRhs || (self matches Stmt::BindLhs { init, .. } && init
            == Binding::Cloned)
    }

    /// The statement as text.
    pub open spec fn text(self) -> Seq<char> {
        match self {
            Stmt::BorrowRhs => "let rhs = & rhs ;"@,
            Stmt::CloneRhs => "let rhs = rhs . clone ( ) ;"@,
            Stmt::BindLhs { mutable, init } => (if mutable {
                "let mut lhs = "@
            } else {
                "let lhs = "@
            }) + (match init {
                Binding::Taken => "self ;"@,
                Binding::Borrowed => "& self ;"@,
                Binding::Cloned => "self . clone ( ) ;"@,
            }),
            Stmt::CallOnSelf(f) => "self . "@ + f.spec_func_ident() + " ( rhs ) ;"@,
            Stmt::AssignFromBorrow(f) => "* self = ( & * self ) . "@ + f.spec_func_ident()
                + " ( rhs ) ;"@,
            Stmt::ScopedTake(f) => "take_mut :: take ( self , | x | x . "@ + f.spec_func_ident()
                + " ( rhs ) ) ;"@,
            Stmt::MakeDefault => "let mut t = Self :: default ( ) ;"@,
            Stmt::SwapOut => "std :: mem :: swap ( & mut t , self ) ;"@,
            Stmt::CallOnTaken(f) => "let mut u = t . "@ + f.spec_func_ident() + " ( rhs ) ;"@,
            Stmt::SwapIn => "std :: mem :: swap ( & mut u , self ) ;"@,
            Stmt::CallOnLhs(f) => "lhs . "@ + f.spec_func_ident() + " ( rhs ) ;"@,
            Stmt::YieldLhs => "lhs"@,
            Stmt::YieldCall(f) => "lhs . "@ + f.spec_func_ident() + " ( rhs )"@,
        }
    }

    /// The statement as text.
    pub fn to_text(self) -> (r: String)
        ensures
            r@ == self.text(),
    {
        match self {
            Stmt::BorrowRhs => String::from_str("let rhs = & rhs ;"),
            Stmt::CloneRhs => String::from_str("let rhs = rhs . clone ( ) ;"),
            Stmt::BindLhs { mutable, init } => {
                let head = if mutable {
                    String::from_str("let mut lhs = ")
                } else {
                    String::from_str("let lhs = ")
                };
                match init {
                    Binding::Taken => head.concat("self ;"),
                    Binding::Borrowed => head.concat("& self ;"),
                    Binding::Cloned => head.concat("self . clone ( ) ;"),
                }
            },
            Stmt::CallOnSelf(f) => call_text("self . ", f, " ( rhs ) ;"),
            Stmt::AssignFromBorrow(f) => call_text("* self = ( & * self ) . ", f, " ( rhs ) ;"),
            Stmt::ScopedTake(f) => call_text(
                "take_mut :: take ( self , | x | x . ",
                f,
                " ( rhs ) ) ;",
            ),
            Stmt::MakeDefault => String::from_str("let mut t = Self :: default ( ) ;"),
            Stmt::SwapOut => String::from_str("std :: mem :: swap ( & mut t , self ) ;"),
            Stmt::CallOnTaken(f) => call_text("let mut u = t . ", f, " ( rhs ) ;"),
            Stmt::SwapIn => String::from_str("std :: mem :: swap ( & mut u , self ) ;"),
            Stmt::CallOnLhs(f) => call_text("lhs . ", f, " ( rhs ) ;"),
            Stmt::YieldLhs => String::from_str("lhs"),
            Stmt::YieldCall(f) => call_text("lhs . ", f, " ( rhs )"),
        }
    }
}

/// The method name of `f` between two pieces of text.
fn call_text(before: &str, f: OpTrait, after: &str) -> (r: String)
    ensures
        r@ == before@ + f.spec_func_ident() + after@,
{
    let name = f.to_func_ident();
    String::from_str(before).concat(name.as_str()).concat(after)
}

/// How the right operand that the caller hands over becomes the one that
/// the seed's method takes.
///
/// | seed takes | caller gives | statement               |
/// |------------|--------------|-------------------------|
/// | reference  | reference    | none                    |
/// | reference  | value        | `let rhs = &rhs;`       |
/// | value      | reference    | `let rhs = rhs.clone();`|
/// | value      | value        | none                    |
pub open spec fn rhs_adapter(source: Operate, target: Operate) -> Option<Stmt> {
    match (source.rhs_ref, target.rhs_ref) {
        (true, true) => None,
        (true, false) => Some(Stmt::BorrowRhs),
        (false, true) => Some(Stmt::CloneRhs),
        (false, false) => None,
    }
}

/// How the left operand of a plain operator becomes the receiver of the
/// seed's method.
///
/// | seed assigns | seed takes | caller gives | statement                     |
/// |--------------|------------|--------------|-------------------------------|
/// | yes          | any        | reference    | `let mut lhs = self.clone();` |
/// | yes          | any        | value        | `let mut lhs = self;`         |
/// | no           | reference  | reference    | `let lhs = self;`             |
/// | no           | reference  | value        | `let lhs = &self;`            |
/// | no           | value      | reference    | `let lhs = self.clone();`     |
/// | no           | value      | value        | `let lhs = self;`             |
pub open spec fn lhs_adapter(source: Operate, target: Operate) -> Stmt {
    match (source.op.assigning(), source.lhs_ref, target.lhs_ref) {
        (true, _, true) => Stmt::BindLhs { mutable: true, init: Binding::Cloned },
        (true, _, false) => Stmt::BindLhs { mutable: true, init: Binding::Taken },
        (false, true, true) => Stmt::BindLhs { mutable: false, init: Binding::Taken },
        (false, true, false) => Stmt::BindLhs { mutable: false, init: Binding::Borrowed },
        (false, false, true) => Stmt::BindLhs { mutable: false, init: Binding::Cloned },
        (false, false, false) => Stmt::BindLhs { mutable: false, init: Binding::Taken },
    }
}

/// The statements of a compound assignment that call the seed's method,
/// once the right operand is adapted: a seed that assigns is called on
/// `self`; one that borrows its left operand is called on a reborrow and
/// its result stored; one that consumes its left operand is called on the
/// value taken out of the slot, by a scoped take or by swapping a default
/// value in and the result back.
pub open spec fn assign_core(source: Operate, scoped_take: bool) -> Seq<Stmt> {
    if source.op.assigning() {
        seq![Stmt::CallOnSelf(source.op)]
    } else if source.lhs_ref {
        seq![Stmt::AssignFromBorrow(source.op)]
    } else if scoped_take {
        seq![Stmt::ScopedTake(source.op)]
    } else {
        seq![Stmt::MakeDefault, Stmt::SwapOut, Stmt::CallOnTaken(source.op), Stmt::SwapIn]
    }
}

/// The statements of a plain operator that call the seed's method, once
/// both operands are adapted: a seed that assigns changes `lhs` in place,
/// and `lhs` is the result; otherwise the call is the result.
pub open spec fn value_core(source: Operate) -> Seq<Stmt> {
    if source.op.assigning() {
        seq![Stmt::CallOnLhs(source.op), Stmt::YieldLhs]
    } else {
        seq![Stmt::YieldCall(source.op)]
    }
}

/// The statement of an optional adapter, as a run of statements.
pub open spec fn optional(stmt: Option<Stmt>) -> Seq<Stmt> {
    match stmt {
        Some(s) => seq![s],
        None => Seq::empty(),
    }
}

/// The body of the method of `target`, derived from a seed of form
/// `source`.
pub open spec fn body_of(source: Operate, target: Operate, scoped_take: bool) -> Seq<Stmt> {
    if target.op.assigning() {
        optional(rhs_adapter(source, target)) + assign_core(source, scoped_take)
    } else {
        seq![lhs_adapter(source, target)] + optional(rhs_adapter(source, target)) + value_core(
            source,
        )
    }
}

/// The statement that adapts the right operand, if one is needed.
pub fn gen_rhs(source_op: Operate, op: Operate) -> (r: Option<Stmt>)
    ensures
        r == rhs_adapter(source_op, op),
{
    if source_op.rhs_ref {
        if op.rhs_ref {
            None
        } else {
            Some(Stmt::BorrowRhs)
        }
    } else {
        if op.rhs_ref {
            Some(Stmt::CloneRhs)
        } else {
            None
        }
    }
}

/// The statement that binds `lhs`, the receiver of the seed's method in a
/// plain operator.
pub fn gen_lhs(source_op: Operate, op: Operate) -> (r: Stmt)
    ensures
        r == lhs_adapter(source_op, op),
{
    if source_op.op.is_assign() {
        if op.lhs_ref {
            Stmt::BindLhs { mutable: true, init: Binding::Cloned }
        } else {
            Stmt::BindLhs { mutable: true, init: Binding::Taken }
        }
    } else if source_op.lhs_ref {
        if op.lhs_ref {
            Stmt::BindLhs { mutable: false, init: Binding::Taken }
        } else {
            Stmt::BindLhs { mutable: false, init: Binding::Borrowed }
        }
    } else {
        if op.lhs_ref {
            Stmt::BindLhs { mutable: false, init: Binding::Cloned }
        } else {
            Stmt::BindLhs { mutable: false, init: Binding::Taken }
        }
    }
}

/// The statements of a compound assignment that call the seed's method.
pub fn assign_body(source_op: Operate, scoped_take: bool) -> (r: Vec<Stmt>)
    ensures
        r@ == assign_core(source_op, scoped_take),
{
    let f = source_op.op;
    let r = if f.is_assign() {
        vec![Stmt::CallOnSelf(f)]
    } else if source_op.lhs_ref {
        vec![Stmt::AssignFromBorrow(f)]
    } else if scoped_take {
        vec![Stmt::ScopedTake(f)]
    } else {
        vec![Stmt::MakeDefault, Stmt::SwapOut, Stmt::CallOnTaken(f), Stmt::SwapIn]
    };
    assert(r@ =~= assign_core(source_op, scoped_take));
    r
}

/// The body of the method of `op`, derived from a seed of form `source_op`.
pub fn gen_body(source_op: Operate, op: Operate, scoped_take: bool) -> (r: Vec<Stmt>)
    ensures
        r@ == body_of(source_op, op, scoped_take),
{
    let preamble_rhs = gen_rhs(source_op, op);
    let mut body: Vec<Stmt> = Vec::new();
    if op.op.is_assign() {
        if let Some(stmt) = preamble_rhs {
            body.push(stmt);
        }
        let mut core = assign_body(source_op, scoped_take);
        body.append(&mut core);
    } else {
        body.push(gen_lhs(source_op, op));
        if let Some(stmt) = preamble_rhs {
            body.push(stmt);
        }
        let f = source_op.op;
        if f.is_assign() {
            body.push(Stmt::CallOnLhs(f));
            body.push(Stmt::YieldLhs);
        } else {
            body.push(Stmt::YieldCall(f));
        }
    }
    assert(body@ =~= body_of(source_op, op, scoped_take));
    body
}

/// The number of calls of a method in a run of statements.
pub open spec fn calls(body: Seq<Stmt>) -> nat
    decreases body.len(),
{
    if body.len() == 0 {
        0
    } else {
        calls(body.drop_last()) + (if body.last().callee() is Some {
            1nat
        } else {
            0nat
        })
    }
}

/// How an operand is held.
#[derive(Clone, Copy, Debug, PartialEq, Eq, Hash, Structural)]
pub enum Held {
    /// By value.
    Owned,
    /// Behind a shared reference.
    Shared,
    /// Behind an exclusive reference, or by value in a binding that may be
    /// changed.
    Exclusive,
}

/// How the caller of a method of `form` hands over the right operand, and
/// how that method takes it.
pub open spec fn rhs_held(form: Operate) -> Held {
    if form.rhs_ref {
        Held::Shared
    } else {
        Held::Owned
    }
}

/// How a method of `form` takes its left operand.
pub open spec fn lhs_held(form: Operate) -> Held {
    if form.op.assigning() {
        Held::Exclusive
    } else if form.lhs_ref {
        Held::Shared
    } else {
        Held::Owned
    }
}

/// How an operand is held after an adapter statement, given how it was
/// held before: a borrow lends what was owned, a clone owns a copy of what
/// was lent, and a binding that may be changed gives exclusive access to
/// what it owns.
pub open spec fn held_after(stmt: Option<Stmt>, before: Held) -> Held {
    match stmt {
        Some(Stmt::BorrowRhs) => Held::Shared,
        Some(Stmt::CloneRhs) => Held::Owned,
        Some(Stmt::BindLhs { mutable, init }) => {
            let value = match init {
                Binding::Taken => before,
                Binding::Borrowed => Held::Shared,
                Binding::Cloned => Held::Owned,
            };
            if mutable && value == Held::Owned {
                Held::Exclusive
            } else {
                value
            }
        },
        _ => before,
    }
}

/// Every derived body calls the seed's method, and no other, exactly once.
pub proof fn lemma_body_calls_seed_once(source: Operate, target: Operate, scoped_take: bool)
    ensures
        calls(body_of(source, target, scoped_take)) == 1,
        forall|i: int|
            0 <= i < body_of(source, target, scoped_take).len() ==> {
                let callee = #[trigger] body_of(source, target, scoped_take)[i].callee();
                callee is Some ==> callee == Some(source.op)
            },
{
    let body = body_of(source, target, scoped_take);
    lemma_calls_unfold(body);
}

/// The number of calls in a run of at most six statements, written out.
proof fn lemma_calls_unfold(body: Seq<Stmt>)
    requires
        body.len() <= 6,
    ensures
        calls(body) == (if body.len() > 0 && body[0].callee() is Some {
            1nat
        } else {
            0nat
        }) + (if body.len() > 1 && body[1].callee() is Some {
            1nat
        } else {
            0nat
        }) + (if body.len() > 2 && body[2].callee() is Some {
            1nat
        } else {
            0nat
        }) + (if body.len() > 3 && body[3].callee() is Some {
            1nat
        } else {
            0nat
        }) + (if body.len() > 4 && body[4].callee() is Some {
            1nat
        } else {
            0nat
        }) + (if body.len() > 5 && body[5].callee() is Some {
            1nat
        } else {
            0nat
        }),
    decreases body.len(),
{
    if body.len() > 0 {
        lemma_calls_unfold(body.drop_last());
    }
}

/// The adapters hand the seed's method each operand as it takes it: the
/// right operand is lent or owned as the seed's form says, and in a plain
/// operator so is the receiver `lhs`.
pub proof fn lemma_operands_adapted(source: Operate, target: Operate)
    requires
        source.valid(),
        target.valid(),
    ensures
        held_after(rhs_adapter(source, target), rhs_held(target)) == rhs_held(source),
        !target.op.assigning() ==> held_after(
            Some(lhs_adapter(source, target)),
            lhs_held(target),
        ) == lhs_held(source),
{
}

/// A derived body duplicates an operand exactly where the form rules ask
/// for the `Clone` bound, and builds a default value exactly where they ask
/// for the `Default` bound.
pub proof fn lemma_body_matches_bounds(source: Operate, target: Operate, scoped_take: bool)
    requires
        target.valid(),
    ensures
        (exists|i: int|
            0 <= i < body_of(source, target, scoped_take).len() && #[trigger] body_of(
                source,
                target,
                scoped_take,
            )[i].clones()) <==> source.needs_clone(target),
        body_of(source, target, scoped_take).contains(Stmt::MakeDefault) <==> source.needs_default(
            target,
            scoped_take,
        ),
{
    let body = body_of(source, target, scoped_take);
    if source.needs_clone(target) {
        if target.op.assigning() {
            assert(body[0].clones());
        } else if source.needs_lhs_clone(target) {
            assert(body[0].clones());
        } else {
            assert(body[1].clones());
        }
    }
    if source.needs_default(target, scoped_take) {
        if rhs_adapter(source, target) is Some {
            assert(body[1] == Stmt::MakeDefault);
        } else {
            assert(body[0] == Stmt::MakeDefault);
        }
    }
}

} // verus!
