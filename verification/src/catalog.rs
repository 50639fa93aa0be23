//! The closed catalog of operator traits.

use crate::error::{ExpandError, Fault};
use vstd::prelude::*;
use vstd::string::StringExecFns;

verus! {

/// The ten operator families.
#[derive(Clone, Copy, Debug, PartialEq, Eq, Hash, Structural)]
pub enum Family {
    Add,
    Sub,
    Mul,
    Div,
    Rem,
    BitAnd,
    BitOr,
    BitXor,
    Shl,
    Shr,
}

/// An operator trait: a family together with its plain or compound-assignment
/// spelling.
#[derive(Clone, Copy, Debug, PartialEq, Eq, Hash, Structural)]
pub enum OpTrait {
    Add,
    AddAssign,
    Sub,
    SubAssign,
    Mul,
    MulAssign,
    Div,
    DivAssign,
    Rem,
    RemAssign,
    BitAnd,
    BitAndAssign,
    BitOr,
    BitOrAssign,
    BitXor,
    BitXorAssign,
    Shl,
    ShlAssign,
    Shr,
    ShrAssign,
}

/// The method name of the plain member of a family.
pub open spec fn family_method(f: Family) -> Seq<char> {
    match f {
        Family::Add => "add"@,
        Family::Sub => "sub"@,
        Family::Mul => "mul"@,
        Family::Div => "div"@,
        Family::Rem => "rem"@,
        Family::BitAnd => "bitand"@,
        Family::BitOr => "bitor"@,
        Family::BitXor => "bitxor"@,
        Family::Shl => "shl"@,
        Family::Shr => "shr"@,
    }
}

/// The trait name of the plain member of a family.
pub open spec fn family_name(f: Family) -> Seq<char> {
    match f {
        Family::Add => "Add"@,
        Family::Sub => "Sub"@,
        Family::Mul => "Mul"@,
        Family::Div => "Div"@,
        Family::Rem => "Rem"@,
        Family::BitAnd => "BitAnd"@,
        Family::BitOr => "BitOr"@,
        Family::BitXor => "BitXor"@,
        Family::Shl => "Shl"@,
        Family::Shr => "Shr"@,
    }
}

/// The catalog entry with the given family and spelling.
pub open spec fn member(f: Family, assign: bool) -> OpTrait {
    match f {
        Family::Add => if assign { OpTrait::AddAssign } else { OpTrait::Add },
        Family::Sub => if assign { OpTrait::SubAssign } else { OpTrait::Sub },
        Family::Mul => if assign { OpTrait::MulAssign } else { OpTrait::Mul },
        Family::Div => if assign { OpTrait::DivAssign } else { OpTrait::Div },
        Family::Rem => if assign { OpTrait::RemAssign } else { OpTrait::Rem },
        Family::BitAnd => if assign { OpTrait::BitAndAssign } else { OpTrait::BitAnd },
        Family::BitOr => if assign { OpTrait::BitOrAssign } else { OpTrait::BitOr },
        Family::BitXor => if assign { OpTrait::BitXorAssign } else { OpTrait::BitXor },
        Family::Shl => if assign { OpTrait::ShlAssign } else { OpTrait::Shl },
        Family::Shr => if assign { OpTrait::ShrAssign } else { OpTrait::Shr },
    }
}

impl Family {
    /// The trait name of the plain member of this family.
    pub fn name(self) -> (r: &'static str)
        ensures
            r@ == family_name(self),
    {
        match self {
            Family::Add => "Add",
            Family::Sub => "Sub",
            Family::Mul => "Mul",
            Family::Div => "Div",
            Family::Rem => "Rem",
            Family::BitAnd => "BitAnd",
            Family::BitOr => "BitOr",
            Family::BitXor => "BitXor",
            Family::Shl => "Shl",
            Family::Shr => "Shr",
        }
    }

    /// The method name of the plain member of this family.
    pub fn method(self) -> (r: &'static str)
        ensures
            r@ == family_method(self),
    {
        match self {
            Family::Add => "add",
            Family::Sub => "sub",
            Family::Mul => "mul",
            Family::Div => "div",
            Family::Rem => "rem",
            Family::BitAnd => "bitand",
            Family::BitOr => "bitor",
            Family::BitXor => "bitxor",
            Family::Shl => "shl",
            Family::Shr => "shr",
        }
    }

    /// The member of this family with the given spelling.
    pub fn member(self, assign: bool) -> (r: OpTrait)
        ensures
            r == member(self, assign),
            r.family() == self,
            r.assigning() == assign,
    {
        match self {
            Family::Add => if assign { OpTrait::AddAssign } else { OpTrait::Add },
            Family::Sub => if assign { OpTrait::SubAssign } else { OpTrait::Sub },
            Family::Mul => if assign { OpTrait::MulAssign } else { OpTrait::Mul },
            Family::Div => if assign { OpTrait::DivAssign } else { OpTrait::Div },
            Family::Rem => if assign { OpTrait::RemAssign } else { OpTrait::Rem },
            Family::BitAnd => if assign { OpTrait::BitAndAssign } else { OpTrait::BitAnd },
            Family::BitOr => if assign { OpTrait::BitOrAssign } else { OpTrait::BitOr },
            Family::BitXor => if assign { OpTrait::BitXorAssign } else { OpTrait::BitXor },
            Family::Shl => if assign { OpTrait::ShlAssign } else { OpTrait::Shl },
            Family::Shr => if assign { OpTrait::ShrAssign } else { OpTrait::Shr },
        }
    }

    /// The member of this family that is written `name`, if there is one.
    fn spelled(self, name: &str) -> (r: Option<OpTrait>)
        ensures
            match r {
                Some(op) => op.family() == self && op.spec_name() == name@,
                None => member(self, false).spec_name() != name@ && member(
                    self,
                    true,
                ).spec_name() != name@,
            },
    {
        let plain = String::from_str(self.name());
        let wanted = String::from_str(name);
        if plain == wanted {
            return Some(self.member(false));
        }
        let compound = plain.concat("Assign");
        if compound == wanted {
            Some(self.member(true))
        } else {
            None
        }
    }
}

impl OpTrait {
    /// The family this trait belongs to.
    pub open spec fn family(self) -> Family {
        match self {
            OpTrait::Add | OpTrait::AddAssign => Family::Add,
            OpTrait::Sub | OpTrait::SubAssign => Family::Sub,
            OpTrait::Mul | OpTrait::MulAssign => Family::Mul,
            OpTrait::Div | OpTrait::DivAssign => Family::Div,
            OpTrait::Rem | OpTrait::RemAssign => Family::Rem,
            OpTrait::BitAnd | OpTrait::BitAndAssign => Family::BitAnd,
            OpTrait::BitOr | OpTrait::BitOrAssign => Family::BitOr,
            OpTrait::BitXor | OpTrait::BitXorAssign => Family::BitXor,
            OpTrait::Shl | OpTrait::ShlAssign => Family::Shl,
            OpTrait::Shr | OpTrait::ShrAssign => Family::Shr,
        }
    }

    /// Whether this is the compound-assignment member of its family.
    pub open spec fn assigning(self) -> bool {
        self == member(self.family(), true)
    }

    /// The trait's name as it is written in source.
    pub open spec fn spec_name(self) -> Seq<char> {
        if self.assigning() {
            family_name(self.family()) + "Assign"@
        } else {
            family_name(self.family())
        }
    }

    /// The name of the trait's one method.
    pub open spec fn spec_func_ident(self) -> Seq<char> {
        if self.assigning() {
            family_method(self.family()) + "_assign"@
        } else {
            family_method(self.family())
        }
    }

    /// The compound-assignment member of this trait's family.
    pub fn to_assign(self) -> (r: OpTrait)
        ensures
            r == member(self.family(), true),
            r.family() == self.family(),
            r.assigning(),
    {
        match self {
            OpTrait::Add | OpTrait::AddAssign => OpTrait::AddAssign,
            OpTrait::Sub | OpTrait::SubAssign => OpTrait::SubAssign,
            OpTrait::Mul | OpTrait::MulAssign => OpTrait::MulAssign,
            OpTrait::Div | OpTrait::DivAssign => OpTrait::DivAssign,
            OpTrait::Rem | OpTrait::RemAssign => OpTrait::RemAssign,
            OpTrait::BitAnd | OpTrait::BitAndAssign => OpTrait::BitAndAssign,
            OpTrait::BitOr | OpTrait::BitOrAssign => OpTrait::BitOrAssign,
            OpTrait::BitXor | OpTrait::BitXorAssign => OpTrait::BitXorAssign,
            OpTrait::Shl | OpTrait::ShlAssign => OpTrait::ShlAssign,
            OpTrait::Shr | OpTrait::ShrAssign => OpTrait::ShrAssign,
        }
    }

    /// The plain member of this trait's family.
    pub fn to_non_assign(self) -> (r: OpTrait)
        ensures
            r == member(self.family(), false),
            r.family() == self.family(),
            !r.assigning(),
    {
        match self {
            OpTrait::Add | OpTrait::AddAssign => OpTrait::Add,
            OpTrait::Sub | OpTrait::SubAssign => OpTrait::Sub,
            OpTrait::Mul | OpTrait::MulAssign => OpTrait::Mul,
            OpTrait::Div | OpTrait::DivAssign => OpTrait::Div,
            OpTrait::Rem | OpTrait::RemAssign => OpTrait::Rem,
            OpTrait::BitAnd | OpTrait::BitAndAssign => OpTrait::BitAnd,
            OpTrait::BitOr | OpTrait::BitOrAssign => OpTrait::BitOr,
            OpTrait::BitXor | OpTrait::BitXorAssign => OpTrait::BitXor,
            OpTrait::Shl | OpTrait::ShlAssign => OpTrait::Shl,
            OpTrait::Shr | OpTrait::ShrAssign => OpTrait::Shr,
        }
    }

    /// Whether this is the compound-assignment member of its family.
    pub fn is_assign(self) -> (r: bool)
        ensures
            r == self.assigning(),
    {
        self.to_assign() == self
    }

    /// The family this trait belongs to.
    pub fn get_family(self) -> (r: Family)
        ensures
            r == self.family(),
    {
        match self {
            OpTrait::Add | OpTrait::AddAssign => Family::Add,
            OpTrait::Sub | OpTrait::SubAssign => Family::Sub,
            OpTrait::Mul | OpTrait::MulAssign => Family::Mul,
            OpTrait::Div | OpTrait::DivAssign => Family::Div,
            OpTrait::Rem | OpTrait::RemAssign => Family::Rem,
            OpTrait::BitAnd | OpTrait::BitAndAssign => Family::BitAnd,
            OpTrait::BitOr | OpTrait::BitOrAssign => Family::BitOr,
            OpTrait::BitXor | OpTrait::BitXorAssign => Family::BitXor,
            OpTrait::Shl | OpTrait::ShlAssign => Family::Shl,
            OpTrait::Shr | OpTrait::ShrAssign => Family::Shr,
        }
    }

    /// The trait's name as it is written in source.
    pub fn name(self) -> (r: String)
        ensures
            r@ == self.spec_name(),
    {
        let plain = String::from_str(self.get_family().name());
        if self.is_assign() {
            plain.concat("Assign")
        } else {
            plain
        }
    }

    /// The name of the trait's one method: the trait's name in lower snake
    /// case.
    pub fn to_func_ident(self) -> (r: String)
        ensures
            r@ == self.spec_func_ident(),
    {
        let plain = String::from_str(self.get_family().method());
        if self.is_assign() {
            plain.concat("_assign")
        } else {
            plain
        }
    }

    /// The catalog entry that is written `ident`, matched by case; a name
    /// outside the catalog is refused, and the refusal quotes it.
    pub fn try_from(ident: &str) -> (r: Result<OpTrait, ExpandError>)
        ensures
            match r {
                Ok(op) => op_named(ident@) == Some(op) && op.spec_name() == ident@,
                Err(e) => op_named(ident@) is None && e@ == Fault::UnexpectedIdent(ident@),
            },
    {
        let families = [
            Family::Add,
            Family::Sub,
            Family::Mul,
            Family::Div,
            Family::Rem,
            Family::BitAnd,
            Family::BitOr,
            Family::BitXor,
            Family::Shl,
            Family::Shr,
        ];
        let mut i: usize = 0;
        while i < 10
            invariant
                i <= 10,
                families.len() == 10,
                families[0] == Family::Add,
                families[1] == Family::Sub,
                families[2] == Family::Mul,
                families[3] == Family::Div,
                families[4] == Family::Rem,
                families[5] == Family::BitAnd,
                families[6] == Family::BitOr,
                families[7] == Family::BitXor,
                families[8] == Family::Shl,
                families[9] == Family::Shr,
                forall|j: int, assign: bool|
                    0 <= j < i ==> (#[trigger] member(families[j], assign)).spec_name() != ident@,
            decreases 10 - i,
        {
            match families[i].spelled(ident) {
                Some(op) => {
                    proof {
                        lemma_op_named(op);
                    }
                    return Ok(op);
                },
                None => {},
            }
            i += 1;
        }
        proof {
            assert forall|op: OpTrait| op.spec_name() != ident@ by {
                lemma_member_of_family(op);
                let j = family_index(op.family());
                assert(families[j] == op.family());
                assert(member(families[j], op.assigning()) == op);
            }
        }
        Err(ExpandError::UnexpectedIdent(String::from_str(ident)))
    }
}

/// The place of a family in the catalog's order.
pub open spec fn family_index(f: Family) -> int {
    match f {
        Family::Add => 0,
        Family::Sub => 1,
        Family::Mul => 2,
        Family::Div => 3,
        Family::Rem => 4,
        Family::BitAnd => 5,
        Family::BitOr => 6,
        Family::BitXor => 7,
        Family::Shl => 8,
        Family::Shr => 9,
    }
}

/// Every operator is the member of its own family with its own spelling.
pub proof fn lemma_member_of_family(op: OpTrait)
    ensures
        member(op.family(), op.assigning()) == op,
{
}

/// No two families share a trait name.
pub proof fn lemma_family_names_distinct(a: Family, b: Family)
    ensures
        family_name(a) == family_name(b) ==> a == b,
        3 <= family_name(a).len() <= 6,
{
    reveal_strlit("Add");
    reveal_strlit("Sub");
    reveal_strlit("Mul");
    reveal_strlit("Div");
    reveal_strlit("Rem");
    reveal_strlit("BitAnd");
    reveal_strlit("BitOr");
    reveal_strlit("BitXor");
    reveal_strlit("Shl");
    reveal_strlit("Shr");
    assert("Add"@[0] == 'A');
    assert("Sub"@[0] == 'S' && "Sub"@[1] == 'u');
    assert("Mul"@[0] == 'M');
    assert("Div"@[0] == 'D');
    assert("Rem"@[0] == 'R');
    assert("Shl"@[0] == 'S' && "Shl"@[1] == 'h' && "Shl"@[2] == 'l');
    assert("Shr"@[0] == 'S' && "Shr"@[1] == 'h' && "Shr"@[2] == 'r');
    assert("BitAnd"@[3] == 'A');
    assert("BitXor"@[3] == 'X');
}

/// No two catalog entries share a name, so a name stands for at most one
/// operator.
pub proof fn lemma_names_distinct(a: OpTrait, b: OpTrait)
    ensures
        a.spec_name() == b.spec_name() ==> a == b,
{
    lemma_family_names_distinct(a.family(), b.family());
    lemma_family_names_distinct(b.family(), a.family());
    lemma_member_of_family(a);
    lemma_member_of_family(b);
    reveal_strlit("Assign");
    let x = family_name(a.family());
    let y = family_name(b.family());
    let suffix = "Assign"@;
    if a.spec_name() == b.spec_name() {
        if a.assigning() && b.assigning() {
            assert((x + suffix).len() == x.len() + 6);
            assert((y + suffix).len() == y.len() + 6);
            assert(x =~= (x + suffix).subrange(0, x.len() as int));
            assert(y =~= (y + suffix).subrange(0, y.len() as int));
        } else if a.assigning() {
            assert((x + suffix).len() == x.len() + 6);
        } else if b.assigning() {
            assert((y + suffix).len() == y.len() + 6);
        }
    }
}

/// The operator that is written `name`, if the catalog has one.
pub open spec fn op_named(name: Seq<char>) -> Option<OpTrait> {
    if exists|op: OpTrait| op.spec_name() == name {
        Some(choose|op: OpTrait| op.spec_name() == name)
    } else {
        None
    }
}

/// An operator is found again by its name.
pub proof fn lemma_op_named(op: OpTrait)
    ensures
        op_named(op.spec_name()) == Some(op),
{
    let found = choose|o: OpTrait| o.spec_name() == op.spec_name();
    lemma_names_distinct(found, op);
}

/// The two spellings of a family are each other's partners: taking the
/// compound member is idempotent and forgets which member it started from,
/// and so is taking the plain member.
pub proof fn lemma_partners(op: OpTrait)
    ensures
        member(member(op.family(), false).family(), true) == member(op.family(), true),
        member(member(op.family(), true).family(), false) == member(op.family(), false),
        member(member(op.family(), true).family(), true) == member(op.family(), true),
        member(member(op.family(), false).family(), false) == member(op.family(), false),
        member(op.family(), true) != member(op.family(), false),
        op == member(op.family(), true) || op == member(op.family(), false),
{
}

/// The method of a compound-assignment trait is named after the method of
/// its plain partner, with `_assign` behind it.
pub proof fn lemma_method_names(op: OpTrait)
    ensures
        member(op.family(), true).spec_func_ident() == member(
            op.family(),
            false,
        ).spec_func_ident() + "_assign"@,
        member(op.family(), true).spec_name() == member(op.family(), false).spec_name()
            + "Assign"@,
{
}

} // verus!
