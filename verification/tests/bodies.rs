//! The bodies of derived methods.

use auto_ops::body::{assign_body, gen_body, gen_lhs, gen_rhs, Binding, Stmt};
use auto_ops::catalog::OpTrait;
use auto_ops::form::Operate;

fn form(op: OpTrait, lhs_ref: bool, rhs_ref: bool) -> Operate {
    Operate { op, lhs_ref, rhs_ref }
}

fn bind(mutable: bool, init: Binding) -> Stmt {
    Stmt::BindLhs { mutable, init }
}

#[test]
fn the_right_operand_is_adapted_by_the_table() {
    let lent = form(OpTrait::Sub, false, true);
    let owned = form(OpTrait::Sub, false, false);
    assert_eq!(gen_rhs(lent, lent), None);
    assert_eq!(gen_rhs(lent, owned), Some(Stmt::BorrowRhs));
    assert_eq!(gen_rhs(owned, lent), Some(Stmt::CloneRhs));
    assert_eq!(gen_rhs(owned, owned), None);
}

#[test]
fn the_left_operand_is_adapted_by_the_table() {
    let to_ref = form(OpTrait::Sub, true, false);
    let to_val = form(OpTrait::Sub, false, false);
    for lhs_ref in [false, true] {
        let assign = form(OpTrait::SubAssign, lhs_ref, true);
        assert_eq!(gen_lhs(assign, to_ref), bind(true, Binding::Cloned));
        assert_eq!(gen_lhs(assign, to_val), bind(true, Binding::Taken));
    }
    let by_ref = form(OpTrait::Sub, true, true);
    assert_eq!(gen_lhs(by_ref, to_ref), bind(false, Binding::Taken));
    assert_eq!(gen_lhs(by_ref, to_val), bind(false, Binding::Borrowed));
    let by_val = form(OpTrait::Sub, false, true);
    assert_eq!(gen_lhs(by_val, to_ref), bind(false, Binding::Cloned));
    assert_eq!(gen_lhs(by_val, to_val), bind(false, Binding::Taken));
}

#[test]
fn a_compound_assignment_reaches_the_seed_in_one_of_four_ways() {
    assert_eq!(
        assign_body(form(OpTrait::RemAssign, false, true), false),
        vec![Stmt::CallOnSelf(OpTrait::RemAssign)]
    );
    assert_eq!(
        assign_body(form(OpTrait::RemAssign, false, true), true),
        vec![Stmt::CallOnSelf(OpTrait::RemAssign)]
    );
    assert_eq!(
        assign_body(form(OpTrait::Rem, true, false), false),
        vec![Stmt::AssignFromBorrow(OpTrait::Rem)]
    );
    assert_eq!(
        assign_body(form(OpTrait::Rem, false, false), true),
        vec![Stmt::ScopedTake(OpTrait::Rem)]
    );
    assert_eq!(
        assign_body(form(OpTrait::Rem, false, false), false),
        vec![
            Stmt::MakeDefault,
            Stmt::SwapOut,
            Stmt::CallOnTaken(OpTrait::Rem),
            Stmt::SwapIn
        ]
    );
}

#[test]
fn whole_bodies() {
    let seed = form(OpTrait::AddAssign, false, true);
    assert_eq!(
        gen_body(seed, form(OpTrait::AddAssign, false, false), false),
        vec![Stmt::BorrowRhs, Stmt::CallOnSelf(OpTrait::AddAssign)]
    );
    assert_eq!(
        gen_body(seed, form(OpTrait::Add, true, false), false),
        vec![
            bind(true, Binding::Cloned),
            Stmt::BorrowRhs,
            Stmt::CallOnLhs(OpTrait::AddAssign),
            Stmt::YieldLhs
        ]
    );
    let seed = form(OpTrait::Mul, true, true);
    assert_eq!(
        gen_body(seed, form(OpTrait::MulAssign, false, true), false),
        vec![Stmt::AssignFromBorrow(OpTrait::Mul)]
    );
    assert_eq!(
        gen_body(seed, form(OpTrait::Mul, false, false), false),
        vec![bind(false, Binding::Borrowed), Stmt::BorrowRhs, Stmt::YieldCall(OpTrait::Mul)]
    );
    let seed = form(OpTrait::Div, false, false);
    assert_eq!(
        gen_body(seed, form(OpTrait::DivAssign, false, true), true),
        vec![Stmt::CloneRhs, Stmt::ScopedTake(OpTrait::Div)]
    );
    assert_eq!(
        gen_body(seed, form(OpTrait::Div, true, true), false),
        vec![bind(false, Binding::Cloned), Stmt::CloneRhs, Stmt::YieldCall(OpTrait::Div)]
    );
}

fn calls(body: &[Stmt]) -> Vec<OpTrait> {
    body.iter()
        .filter_map(|stmt| match stmt {
            Stmt::CallOnSelf(f)
            | Stmt::AssignFromBorrow(f)
            | Stmt::ScopedTake(f)
            | Stmt::CallOnTaken(f)
            | Stmt::CallOnLhs(f)
            | Stmt::YieldCall(f) => Some(*f),
            _ => None,
        })
        .collect()
}

#[test]
fn every_body_calls_the_seed_once() {
    let flags = [false, true];
    for source_op in [OpTrait::BitOr, OpTrait::BitOrAssign] {
        for target_op in [OpTrait::BitOr, OpTrait::BitOrAssign] {
            for bits in 0..32 {
                let bit = |n: usize| flags[(bits >> n) & 1];
                let source = form(source_op, bit(0), bit(1));
                let target = form(target_op, bit(2), bit(3));
                let body = gen_body(source, target, bit(4));
                assert_eq!(calls(&body), vec![source_op]);
            }
        }
    }
}

#[test]
fn statements_as_text() {
    assert_eq!(Stmt::BorrowRhs.to_text(), "let rhs = & rhs ;");
    assert_eq!(Stmt::CloneRhs.to_text(), "let rhs = rhs . clone ( ) ;");
    assert_eq!(bind(false, Binding::Taken).to_text(), "let lhs = self ;");
    assert_eq!(bind(true, Binding::Taken).to_text(), "let mut lhs = self ;");
    assert_eq!(bind(false, Binding::Borrowed).to_text(), "let lhs = & self ;");
    assert_eq!(bind(false, Binding::Cloned).to_text(), "let lhs = self . clone ( ) ;");
    assert_eq!(bind(true, Binding::Cloned).to_text(), "let mut lhs = self . clone ( ) ;");
    assert_eq!(Stmt::CallOnSelf(OpTrait::AddAssign).to_text(), "self . add_assign ( rhs ) ;");
    assert_eq!(
        Stmt::AssignFromBorrow(OpTrait::Mul).to_text(),
        "* self = ( & * self ) . mul ( rhs ) ;"
    );
    assert_eq!(
        Stmt::ScopedTake(OpTrait::Div).to_text(),
        "take_mut :: take ( self , | x | x . div ( rhs ) ) ;"
    );
    assert_eq!(Stmt::MakeDefault.to_text(), "let mut t = Self :: default ( ) ;");
    assert_eq!(Stmt::SwapOut.to_text(), "std :: mem :: swap ( & mut t , self ) ;");
    assert_eq!(Stmt::CallOnTaken(OpTrait::Div).to_text(), "let mut u = t . div ( rhs ) ;");
    assert_eq!(Stmt::SwapIn.to_text(), "std :: mem :: swap ( & mut u , self ) ;");
    assert_eq!(Stmt::CallOnLhs(OpTrait::ShlAssign).to_text(), "lhs . shl_assign ( rhs ) ;");
    assert_eq!(Stmt::YieldLhs.to_text(), "lhs");
    assert_eq!(Stmt::YieldCall(OpTrait::BitXor).to_text(), "lhs . bitxor ( rhs )");
}
