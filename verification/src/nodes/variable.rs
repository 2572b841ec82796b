use crate::nodes::field::FieldExpression;
use crate::nodes::identifier::Identifier;
use crate::nodes::index::IndexExpression;
use crate::nodes::list::{NodeList, deeper};
use vstd::prelude::*;

verus! {

/// What an assignment can write to.
#[derive(Debug, PartialEq, Eq)]
pub enum Variable {
    Identifier(Identifier),
    Field(Box<FieldExpression>),
    Index(Box<IndexExpression>),
}

impl Variable {
    /// How deep the tree under this node goes.
    pub open spec fn depth(self) -> nat
        decreases self,
    {
        match self {
            Variable::Field(inner) => 1 + inner.depth(),
            Variable::Index(inner) => 1 + inner.depth(),
            _ => 0,
        }
    }

    /// Whether no token of this node, nor of anything under it, holds a comment.
    pub open spec fn is_comment_free(self) -> bool
        decreases self,
    {
        match self {
            Variable::Identifier(inner) => inner.is_comment_free(),
            Variable::Field(inner) => inner.is_comment_free(),
            Variable::Index(inner) => inner.is_comment_free(),
        }
    }

    /// This node with the comments taken out of every token of it and of everything
    /// under it.
    pub open spec fn stripped(self) -> Self
        decreases self,
    {
        match self {
            Variable::Identifier(inner) => Variable::Identifier(inner.stripped()),
            Variable::Field(inner) => Variable::Field(Box::new(inner.stripped())),
            Variable::Index(inner) => Variable::Index(Box::new(inner.stripped())),
        }
    }

    /// Once the comments are taken out of everything, no token holds a comment.
    pub proof fn stripped_is_comment_free(self)
        ensures
            self.stripped().is_comment_free(),
        decreases self.depth(), 0nat,
    {
        match self {
            Variable::Identifier(inner) => inner.stripped_is_comment_free(),
            Variable::Field(inner) => inner.stripped_is_comment_free(),
            Variable::Index(inner) => inner.stripped_is_comment_free(),
        }
    }

    /// Taking the comments out of everything a second time changes nothing.
    pub proof fn stripped_is_idempotent(self)
        ensures
            self.stripped().stripped() == self.stripped(),
        decreases self.depth(), 0nat,
    {
        match self {
            Variable::Identifier(inner) => inner.stripped_is_idempotent(),
            Variable::Field(inner) => inner.stripped_is_idempotent(),
            Variable::Index(inner) => inner.stripped_is_idempotent(),
        }
    }
}

impl From<Identifier> for Variable {
    fn from(node: Identifier) -> (wrapped: Variable) {
        Variable::Identifier(node)
    }
}

impl vstd::std_specs::convert::FromSpecImpl<Identifier> for Variable {
    open spec fn obeys_from_spec() -> bool {
        true
    }

    open spec fn from_spec(node: Identifier) -> Variable {
        Variable::Identifier(node)
    }
}

impl From<FieldExpression> for Variable {
    fn from(node: FieldExpression) -> (wrapped: Variable) {
        Variable::Field(Box::new(node))
    }
}

impl vstd::std_specs::convert::FromSpecImpl<FieldExpression> for Variable {
    open spec fn obeys_from_spec() -> bool {
        true
    }

    open spec fn from_spec(node: FieldExpression) -> Variable {
        Variable::Field(Box::new(node))
    }
}

impl From<IndexExpression> for Variable {
    fn from(node: IndexExpression) -> (wrapped: Variable) {
        Variable::Index(Box::new(node))
    }
}

impl vstd::std_specs::convert::FromSpecImpl<IndexExpression> for Variable {
    open spec fn obeys_from_spec() -> bool {
        true
    }

    open spec fn from_spec(node: IndexExpression) -> Variable {
        Variable::Index(Box::new(node))
    }
}

/// Whether none of a list of variables holds a comment.
pub open spec fn variables_are_comment_free(list: NodeList<Variable>) -> bool
    decreases list,
{
    match list {
        NodeList::Empty => true,
        NodeList::Cell(cell) => {
            cell.head.is_comment_free() && variables_are_comment_free(cell.tail)
        },
    }
}

/// A list of variables with the comments taken out of every token of them.
pub open spec fn variables_stripped(list: NodeList<Variable>) -> NodeList<Variable>
    decreases list,
{
    match list {
        NodeList::Empty => NodeList::Empty,
        NodeList::Cell(cell) => NodeList::cons(cell.head.stripped(), variables_stripped(cell.tail)),
    }
}

/// Once the comments are taken out of a list of variables, no token of them holds a
/// comment.
pub proof fn variables_stripped_are_comment_free(list: NodeList<Variable>)
    ensures
        variables_are_comment_free(variables_stripped(list)),
    decreases variables_depth(list), 1 + list.count(),
{
    match list {
        NodeList::Empty => {},
        NodeList::Cell(cell) => {
            cell.head.stripped_is_comment_free();
            variables_stripped_are_comment_free(cell.tail);
        },
    }
}

/// Taking the comments out of a list of variables a second time changes nothing.
pub proof fn variables_stripped_is_idempotent(list: NodeList<Variable>)
    ensures
        variables_stripped(variables_stripped(list)) == variables_stripped(list),
    decreases variables_depth(list), 1 + list.count(),
{
    match list {
        NodeList::Empty => {},
        NodeList::Cell(cell) => {
            cell.head.stripped_is_idempotent();
            variables_stripped_is_idempotent(cell.tail);
        },
    }
}

/// The depth of the deepest of a list of variables.
pub open spec fn variables_depth(list: NodeList<Variable>) -> nat
    decreases list,
{
    match list {
        NodeList::Empty => 0,
        NodeList::Cell(cell) => deeper(cell.head.depth(), variables_depth(cell.tail)),
    }
}

impl Variable {
    /// The variable of a name.
    pub fn new(name: &str) -> (variable: Self)
        ensures
            variable matches Variable::Identifier(identifier) && identifier.name@ == name@
                && identifier.token is None,
    {
        Variable::Identifier(Identifier::new(name))
    }
}

} // verus!
