//! Implementation forms: an operator with the way each operand is taken.

use crate::catalog::{member, OpTrait};
use vstd::prelude::*;
use vstd::string::StringExecFns;

verus! {

/// The shape of one operator implementation: the trait, whether the left
/// operand is a reference, and whether the right operand is one.
#[derive(Clone, Copy, Debug, PartialEq, Eq, Hash, Structural)]
pub struct Operate {
    pub op: OpTrait,
    pub lhs_ref: bool,
    pub rhs_ref: bool,
}

impl Operate {
    /// A compound assignment needs exclusive access to its left operand, so a
    /// form that assigns through a reference type does not exist.
    pub open spec fn valid(self) -> bool {
        !(self.op.assigning() && self.lhs_ref)
    }

    /// The form consumes its left operand.
    pub open spec fn moves_lhs(self) -> bool {
        !self.op.assigning() && !self.lhs_ref
    }

    /// The form consumes its right operand.
    pub open spec fn moves_rhs(self) -> bool {
        !self.rhs_ref
    }

    /// An implementation of `target` that delegates to this form has to
    /// duplicate the left operand: this form consumes or mutates it, and the
    /// caller of `target` lends it.
    pub open spec fn needs_lhs_clone(self, target: Operate) -> bool {
        (self.moves_lhs() || self.op.assigning()) && target.lhs_ref
    }

    /// An implementation of `target` that delegates to this form has to
    /// duplicate the right operand.
    pub open spec fn needs_rhs_clone(self, target: Operate) -> bool {
        self.moves_rhs() && target.rhs_ref
    }

    /// An implementation of `target` that delegates to this form needs the
    /// `Clone` bound.
    pub open spec fn needs_clone(self, target: Operate) -> bool {
        self.needs_lhs_clone(target) || self.needs_rhs_clone(target)
    }

    /// An implementation of `target` that delegates to this form has to vacate
    /// the slot behind `&mut self`: this form consumes its left operand and
    /// `target` assigns.
    pub open spec fn vacates_slot(self, target: Operate) -> bool {
        self.moves_lhs() && target.op.assigning()
    }

    /// An implementation of `target` that delegates to this form needs the
    /// `Default` bound: it vacates the slot, and does so by swapping a default
    /// value in rather than by a scoped take.
    pub open spec fn needs_default(self, target: Operate, scoped_take: bool) -> bool {
        self.vacates_slot(target) && !scoped_take
    }

    /// Whether the form consumes its left operand.
    pub fn lhs_move(&self) -> (r: bool)
        ensures
            r == self.moves_lhs(),
    {
        !self.op.is_assign() && !self.lhs_ref
    }

    /// Whether the form consumes its right operand.
    pub fn rhs_move(&self) -> (r: bool)
        ensures
            r == self.moves_rhs(),
    {
        !self.rhs_ref
    }

    /// Whether an implementation of `op` that delegates to this form has to
    /// duplicate the left operand.
    pub fn require_lhs_clone(&self, op: Operate) -> (r: bool)
        ensures
            r == self.needs_lhs_clone(op),
    {
        (self.lhs_move() || self.op.is_assign()) && op.lhs_ref
    }

    /// Whether an implementation of `op` that delegates to this form has to
    /// duplicate the right operand.
    pub fn require_rhs_clone(&self, op: Operate) -> (r: bool)
        ensures
            r == self.needs_rhs_clone(op),
    {
        self.rhs_move() && op.rhs_ref
    }

    /// Whether an implementation of `op` that delegates to this form needs the
    /// `Clone` bound.
    pub fn require_clone(&self, op: Operate) -> (r: bool)
        ensures
            r == self.needs_clone(op),
    {
        self.require_lhs_clone(op) || self.require_rhs_clone(op)
    }

    /// Whether an implementation of `op` that delegates to this form needs the
    /// `Default` bound.
    pub fn require_default(&self, op: Operate, scoped_take: bool) -> (r: bool)
        ensures
            r == self.needs_default(op, scoped_take),
    {
        self.lhs_move() && op.op.is_assign() && !scoped_take
    }

    /// Whether this form exists.
    pub fn is_valid(&self) -> (r: bool)
        ensures
            r == self.valid(),
    {
        !(self.op.is_assign() && self.lhs_ref)
    }
}

/// The name of one of the six forms of a family, as it is written in the
/// attribute.
#[derive(Clone, Copy, Debug, PartialEq, Eq, Hash, Structural)]
pub enum Selector {
    AssignRef,
    AssignVal,
    RefRef,
    RefVal,
    ValRef,
    ValVal,
}

/// The six selectors in the order in which an empty attribute asks for them.
pub open spec fn all_selectors() -> Seq<Selector> {
    seq![
        Selector::AssignRef,
        Selector::AssignVal,
        Selector::RefRef,
        Selector::RefVal,
        Selector::ValRef,
        Selector::ValVal,
    ]
}

/// The selector that names `form` within its family.
pub open spec fn selector_of(form: Operate) -> Selector {
    if form.op.assigning() {
        if form.rhs_ref {
            Selector::AssignRef
        } else {
            Selector::AssignVal
        }
    } else if form.lhs_ref {
        if form.rhs_ref {
            Selector::RefRef
        } else {
            Selector::RefVal
        }
    } else if form.rhs_ref {
        Selector::ValRef
    } else {
        Selector::ValVal
    }
}

/// The selector that is written `name`, if there is one.
pub open spec fn selector_named(name: Seq<char>) -> Option<Selector> {
    if name == "assign_ref"@ {
        Some(Selector::AssignRef)
    } else if name == "assign_val"@ {
        Some(Selector::AssignVal)
    } else if name == "ref_ref"@ {
        Some(Selector::RefRef)
    } else if name == "ref_val"@ {
        Some(Selector::RefVal)
    } else if name == "val_ref"@ {
        Some(Selector::ValRef)
    } else if name == "val_val"@ {
        Some(Selector::ValVal)
    } else {
        None
    }
}

impl Selector {
    /// The selector's name.
    pub open spec fn spec_name(self) -> Seq<char> {
        match self {
            Selector::AssignRef => "assign_ref"@,
            Selector::AssignVal => "assign_val"@,
            Selector::RefRef => "ref_ref"@,
            Selector::RefVal => "ref_val"@,
            Selector::ValRef => "val_ref"@,
            Selector::ValVal => "val_val"@,
        }
    }

    /// The selected form assigns.
    pub open spec fn assigns(self) -> bool {
        self == Selector::AssignRef || self == Selector::AssignVal
    }

    /// The selected form takes its left operand by reference.
    pub open spec fn lhs_ref(self) -> bool {
        self == Selector::RefRef || self == Selector::RefVal
    }

    /// The selected form takes its right operand by reference.
    pub open spec fn rhs_ref(self) -> bool {
        self == Selector::AssignRef || self == Selector::RefRef || self == Selector::ValRef
    }

    /// The form this selector names in the family of `op`.
    pub open spec fn spec_form(self, op: OpTrait) -> Operate {
        Operate {
            op: member(op.family(), self.assigns()),
            lhs_ref: self.lhs_ref(),
            rhs_ref: self.rhs_ref(),
        }
    }

    /// The selector's name.
    pub fn name(self) -> (r: &'static str)
        ensures
            r@ == self.spec_name(),
    {
        match self {
            Selector::AssignRef => "assign_ref",
            Selector::AssignVal => "assign_val",
            Selector::RefRef => "ref_ref",
            Selector::RefVal => "ref_val",
            Selector::ValRef => "val_ref",
            Selector::ValVal => "val_val",
        }
    }

    /// The selector that is written `name`, if there is one.
    pub fn from_name(name: &str) -> (r: Option<Selector>)
        ensures
            r == selector_named(name@),
    {
        let wanted = String::from_str(name);
        if wanted == String::from_str("assign_ref") {
            Some(Selector::AssignRef)
        } else if wanted == String::from_str("assign_val") {
            Some(Selector::AssignVal)
        } else if wanted == String::from_str("ref_ref") {
            Some(Selector::RefRef)
        } else if wanted == String::from_str("ref_val") {
            Some(Selector::RefVal)
        } else if wanted == String::from_str("val_ref") {
            Some(Selector::ValRef)
        } else if wanted == String::from_str("val_val") {
            Some(Selector::ValVal)
        } else {
            None
        }
    }

    /// The form this selector names in the family of `op`.
    pub fn form(self, op: OpTrait) -> (r: Operate)
        ensures
            r == self.spec_form(op),
            r.valid(),
    {
        match self {
            Selector::AssignRef => Operate { op: op.to_assign(), lhs_ref: false, rhs_ref: true },
            Selector::AssignVal => Operate { op: op.to_assign(), lhs_ref: false, rhs_ref: false },
            Selector::RefRef => Operate { op: op.to_non_assign(), lhs_ref: true, rhs_ref: true },
            Selector::RefVal => Operate { op: op.to_non_assign(), lhs_ref: true, rhs_ref: false },
            Selector::ValRef => Operate { op: op.to_non_assign(), lhs_ref: false, rhs_ref: true },
            Selector::ValVal => Operate { op: op.to_non_assign(), lhs_ref: false, rhs_ref: false },
        }
    }

    /// The selector that names `form`. A form that assigns through a reference
    /// has none.
    pub fn of_form(form: Operate) -> (r: Option<Selector>)
        ensures
            r == (if form.valid() {
                Some(selector_of(form))
            } else {
                None
            }),
            form.valid() ==> selector_of(form).spec_form(form.op) == form,
    {
        if form.op.is_assign() {
            if form.lhs_ref {
                None
            } else if form.rhs_ref {
                Some(Selector::AssignRef)
            } else {
                Some(Selector::AssignVal)
            }
        } else if form.lhs_ref {
            if form.rhs_ref {
                Some(Selector::RefRef)
            } else {
                Some(Selector::RefVal)
            }
        } else if form.rhs_ref {
            Some(Selector::ValRef)
        } else {
            Some(Selector::ValVal)
        }
    }

    /// The six selectors in the order in which an empty attribute asks for
    /// them.
    pub fn all() -> (r: Vec<Selector>)
        ensures
            r@ == all_selectors(),
    {
        let r = vec![
            Selector::AssignRef,
            Selector::AssignVal,
            Selector::RefRef,
            Selector::RefVal,
            Selector::ValRef,
            Selector::ValVal,
        ];
        assert(r@ =~= all_selectors());
        r
    }
}

/// A selector is found again by its name: no two selectors share one.
pub proof fn lemma_selector_named(s: Selector)
    ensures
        selector_named(s.spec_name()) == Some(s),
{
    reveal_strlit("assign_ref");
    reveal_strlit("assign_val");
    reveal_strlit("ref_ref");
    reveal_strlit("ref_val");
    reveal_strlit("val_ref");
    reveal_strlit("val_val");
    assert("assign_ref"@[7] != "assign_val"@[7]);
    assert("ref_ref"@[0] != "val_ref"@[0]);
    assert("ref_ref"@[4] != "ref_val"@[4]);
    assert("ref_ref"@[0] != "val_val"@[0]);
    assert("ref_val"@[0] != "val_ref"@[0]);
    assert("ref_val"@[0] != "val_val"@[0]);
    assert("val_ref"@[4] != "val_val"@[4]);
}

/// Within one family the selectors and the forms that exist correspond one
/// to one.
pub proof fn lemma_selector_form_bijection(a: Selector, b: Selector, op: OpTrait)
    ensures
        a.spec_form(op).valid(),
        a.spec_form(op) == b.spec_form(op) ==> a == b,
        a.spec_form(op).op.family() == op.family(),
        selector_of(a.spec_form(op)) == a,
{
}

/// A form that exists is the one its selector names in its family.
pub proof fn lemma_form_of_selector(form: Operate)
    requires
        form.valid(),
    ensures
        selector_of(form).spec_form(form.op) == form,
{
}

} // verus!
