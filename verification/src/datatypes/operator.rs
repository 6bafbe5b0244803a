use vstd::prelude::*;

verus! {

/// The closed set of binary operators understood by both plan layers:
/// comparisons, integer arithmetic, and boolean connectives.
#[derive(Debug, Clone, Copy, PartialEq, Eq, Hash, Structural)]
pub enum Operator {
    Eq,
    NotEq,
    Lt,
    LtEq,
    Gt,
    GtEq,
    Plus,
    Minus,
    Multiply,
    Divide,
    And,
    Or,
}

/// The canonical display symbol of each operator, as a sequence of characters.
pub open spec fn op_symbol(op: Operator) -> Seq<char> {
    match op {
        Operator::Eq => seq!['='],
        Operator::NotEq => seq!['!', '='],
        Operator::Lt => seq!['<'],
        Operator::LtEq => seq!['<', '='],
        Operator::Gt => seq!['>'],
        Operator::GtEq => seq!['>', '='],
        Operator::Plus => seq!['+'],
        Operator::Minus => seq!['-'],
        Operator::Multiply => seq!['*'],
        Operator::Divide => seq!['/'],
        Operator::And => seq!['A', 'N', 'D'],
        Operator::Or => seq!['O', 'R'],
    }
}

impl Operator {
    /// Returns the canonical display symbol (`=`, `!=`, `<`, `<=`, `>`, `>=`,
    /// `+`, `-`, `*`, `/`, `AND`, `OR`).
    pub fn symbol(&self) -> (r: String)
        ensures
            r@ == op_symbol(*self),
    {
        match self {
            Operator::Eq => {
                let s = String::from_str("=");
                proof {
                    reveal_strlit("=");
                    assert(s@ =~= op_symbol(*self));
                }
                s
            },
            Operator::NotEq => {
                let s = String::from_str("!=");
                proof {
                    reveal_strlit("!=");
                    assert(s@ =~= op_symbol(*self));
                }
                s
            },
            Operator::Lt => {
                let s = String::from_str("<");
                proof {
                    reveal_strlit("<");
                    assert(s@ =~= op_symbol(*self));
                }
                s
            },
            Operator::LtEq => {
                let s = String::from_str("<=");
                proof {
                    reveal_strlit("<=");
                    assert(s@ =~= op_symbol(*self));
                }
                s
            },
            Operator::Gt => {
                let s = String::from_str(">");
                proof {
                    reveal_strlit(">");
                    assert(s@ =~= op_symbol(*self));
                }
                s
            },
            Operator::GtEq => {
                let s = String::from_str(">=");
                proof {
                    reveal_strlit(">=");
                    assert(s@ =~= op_symbol(*self));
                }
                s
            },
            Operator::Plus => {
                let s = String::from_str("+");
                proof {
                    reveal_strlit("+");
                    assert(s@ =~= op_symbol(*self));
                }
                s
            },
            Operator::Minus => {
                let s = String::from_str("-");
                proof {
                    reveal_strlit("-");
                    assert(s@ =~= op_symbol(*self));
                }
                s
            },
            Operator::Multiply => {
                let s = String::from_str("*");
                proof {
                    reveal_strlit("*");
                    assert(s@ =~= op_symbol(*self));
                }
                s
            },
            Operator::Divide => {
                let s = String::from_str("/");
                proof {
                    reveal_strlit("/");
                    assert(s@ =~= op_symbol(*self));
                }
                s
            },
            Operator::And => {
                let s = String::from_str("AND");
                proof {
                    reveal_strlit("AND");
                    assert(s@ =~= op_symbol(*self));
                }
                s
            },
            Operator::Or => {
                let s = String::from_str("OR");
                proof {
                    reveal_strlit("OR");
                    assert(s@ =~= op_symbol(*self));
                }
                s
            },
        }
    }
}

} // verus!
