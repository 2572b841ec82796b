use vstd::prelude::*;

verus! {

/// The operators that join two operands.
#[derive(Clone, Copy, Debug, PartialEq, Eq, Structural)]
pub enum BinaryOperator {
    And,
    Or,
    Equal,
    NotEqual,
    LowerThan,
    LowerOrEqualThan,
    GreaterThan,
    GreaterOrEqualThan,
    Plus,
    Minus,
    Asterisk,
    Slash,
    DoubleSlash,
    Percent,
    Caret,
    Concat,
}

/// The operators that apply to one operand.
#[derive(Clone, Copy, Debug, PartialEq, Eq, Structural)]
pub enum UnaryOperator {
    Length,
    Minus,
    Not,
}

/// The operators of a compound assignment.
#[derive(Clone, Copy, Debug, PartialEq, Eq, Structural)]
pub enum CompoundOperator {
    Plus,
    Minus,
    Asterisk,
    Slash,
    DoubleSlash,
    Percent,
    Caret,
    Concat,
}

impl CompoundOperator {
    /// The binary operator that a compound assignment with this operator applies.
    pub fn to_binary_operator(self) -> (operator: BinaryOperator)
        ensures
            operator == match self {
                CompoundOperator::Plus => BinaryOperator::Plus,
                CompoundOperator::Minus => BinaryOperator::Minus,
                CompoundOperator::Asterisk => BinaryOperator::Asterisk,
                CompoundOperator::Slash => BinaryOperator::Slash,
                CompoundOperator::DoubleSlash => BinaryOperator::DoubleSlash,
                CompoundOperator::Percent => BinaryOperator::Percent,
                CompoundOperator::Caret => BinaryOperator::Caret,
                CompoundOperator::Concat => BinaryOperator::Concat,
            },
    {
        match self {
            CompoundOperator::Plus => BinaryOperator::Plus,
            CompoundOperator::Minus => BinaryOperator::Minus,
            CompoundOperator::Asterisk => BinaryOperator::Asterisk,
            CompoundOperator::Slash => BinaryOperator::Slash,
            CompoundOperator::DoubleSlash => BinaryOperator::DoubleSlash,
            CompoundOperator::Percent => BinaryOperator::Percent,
            CompoundOperator::Caret => BinaryOperator::Caret,
            CompoundOperator::Concat => BinaryOperator::Concat,
        }
    }
}

} // verus!
