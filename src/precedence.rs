//! The binding strength of operators, as a strictly ordered scale.
use vstd::prelude::*;

verus! {

/// Binding strength of an operator, from the weakest to the strongest.
#[derive(Debug, Clone, Copy)]
pub enum Precedence {
    Lowest,
    /// `=` and the compound assignments
    Assign,
    /// `..` and `..=`
    Range,
    /// `||`
    Or,
    /// `&&`
    And,
    /// `==` and `!=`
    Equals,
    /// `<`, `>`, `<=` and `>=`
    LessGreater,
    /// `|`
    BitOr,
    /// `^`
    BitXor,
    /// `&`
    BitAnd,
    /// `<<` and `>>`
    Shift,
    /// `+` and `-`
    Sum,
    /// `*`, `/` and `%`
    Product,
    /// prefix `-`, `!`, `~`, `&` and `*`
    Prefix,
    /// a call `f(x)`
    Call,
    /// indexing `a[i]` and member access `a.b`
    Index,
    /// `true` and `false`
    Bool,
}

impl Precedence {
    /// Position of the level on the scale, `Lowest` at 0.
    pub open spec fn rank(self) -> nat {
        match self {
            Precedence::Lowest => 0,
            Precedence::Assign => 1,
            Precedence::Range => 2,
            Precedence::Or => 3,
            Precedence::And => 4,
            Precedence::Equals => 5,
            Precedence::LessGreater => 6,
            Precedence::BitOr => 7,
            Precedence::BitXor => 8,
            Precedence::BitAnd => 9,
            Precedence::Shift => 10,
            Precedence::Sum => 11,
            Precedence::Product => 12,
            Precedence::Prefix => 13,
            Precedence::Call => 14,
            Precedence::Index => 15,
            Precedence::Bool => 16,
        }
    }

    /// The position of the level on the scale.
    pub fn level(&self) -> (r: u8)
        ensures
            r as nat == self.rank(),
    {
        match self {
            Precedence::Lowest => 0,
            Precedence::Assign => 1,
            Precedence::Range => 2,
            Precedence::Or => 3,
            Precedence::And => 4,
            Precedence::Equals => 5,
            Precedence::LessGreater => 6,
            Precedence::BitOr => 7,
            Precedence::BitXor => 8,
            Precedence::BitAnd => 9,
            Precedence::Shift => 10,
            Precedence::Sum => 11,
            Precedence::Product => 12,
            Precedence::Prefix => 13,
            Precedence::Call => 14,
            Precedence::Index => 15,
            Precedence::Bool => 16,
        }
    }

    /// Whether an operator of this level takes its operand away from an
    /// operator of level `other`: the test by which a precedence-climbing
    /// parser decides to keep absorbing a right-hand operand.
    pub fn binds_tighter_than(&self, other: &Precedence) -> (r: bool)
        ensures
            r == (self.rank() > other.rank()),
    {
        self.level() > other.level()
    }
}

impl PartialEq for Precedence {
    fn eq(&self, other: &Precedence) -> (r: bool)
        ensures
            r == (self.rank() == other.rank()),
    {
        self.level() == other.level()
    }
}

impl vstd::std_specs::cmp::PartialEqSpecImpl for Precedence {
    open spec fn obeys_eq_spec() -> bool {
        true
    }

    open spec fn eq_spec(&self, other: &Precedence) -> bool {
        self.rank() == other.rank()
    }
}

impl PartialOrd for Precedence {
    fn partial_cmp(&self, other: &Precedence) -> (r: Option<core::cmp::Ordering>)
        ensures
            r == Some(rank_order(self.rank(), other.rank())),
    {
        let a = self.level();
        let b = other.level();
        if a < b {
            Some(core::cmp::Ordering::Less)
        } else if a > b {
            Some(core::cmp::Ordering::Greater)
        } else {
            Some(core::cmp::Ordering::Equal)
        }
    }
}

impl vstd::std_specs::cmp::PartialOrdSpecImpl for Precedence {
    open spec fn obeys_partial_cmp_spec() -> bool {
        true
    }

    open spec fn partial_cmp_spec(&self, other: &Precedence) -> Option<core::cmp::Ordering> {
        Some(rank_order(self.rank(), other.rank()))
    }
}

/// How two positions on the scale compare.
pub open spec fn rank_order(a: nat, b: nat) -> core::cmp::Ordering {
    if a < b {
        core::cmp::Ordering::Less
    } else if a > b {
        core::cmp::Ordering::Greater
    } else {
        core::cmp::Ordering::Equal
    }
}

/// The scale is strict: each level lies strictly below the next, from
/// `Lowest` up to `Bool`, so no two levels coincide.
pub proof fn lemma_scale_is_strict()
    ensures
        Precedence::Lowest.rank() < Precedence::Assign.rank(),
        Precedence::Assign.rank() < Precedence::Range.rank(),
        Precedence::Range.rank() < Precedence::Or.rank(),
        Precedence::Or.rank() < Precedence::And.rank(),
        Precedence::And.rank() < Precedence::Equals.rank(),
        Precedence::Equals.rank() < Precedence::LessGreater.rank(),
        Precedence::LessGreater.rank() < Precedence::BitOr.rank(),
        Precedence::BitOr.rank() < Precedence::BitXor.rank(),
        Precedence::BitXor.rank() < Precedence::BitAnd.rank(),
        Precedence::BitAnd.rank() < Precedence::Shift.rank(),
        Precedence::Shift.rank() < Precedence::Sum.rank(),
        Precedence::Sum.rank() < Precedence::Product.rank(),
        Precedence::Product.rank() < Precedence::Prefix.rank(),
        Precedence::Prefix.rank() < Precedence::Call.rank(),
        Precedence::Call.rank() < Precedence::Index.rank(),
        Precedence::Index.rank() < Precedence::Bool.rank(),
        forall|p: Precedence, q: Precedence| #[trigger] p.rank() == #[trigger] q.rank() ==> p == q,
{
    assert forall|p: Precedence, q: Precedence| #[trigger] p.rank() == #[trigger] q.rank() implies p
        == q by {
        match p {
            Precedence::Lowest => {},
            _ => {},
        }
    }
}

} // verus!
