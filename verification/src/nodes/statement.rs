use crate::nodes::assign::AssignStatement;
use crate::nodes::compound_assign::CompoundAssignStatement;
use crate::nodes::do_statement::DoStatement;
use crate::nodes::function::FunctionStatement;
use crate::nodes::function_call::FunctionCall;
use crate::nodes::generic_for::GenericForStatement;
use crate::nodes::if_statement::IfStatement;
use crate::nodes::list::{NodeList, deeper};
use crate::nodes::local_assign::LocalAssignStatement;
use crate::nodes::local_function::LocalFunctionStatement;
use crate::nodes::numeric_for::NumericForStatement;
use crate::nodes::repeat::RepeatStatement;
use crate::nodes::type_declaration::TypeDeclarationStatement;
use crate::nodes::type_function::{ExportTypeFunctionStatement, TypeFunctionStatement};
use crate::nodes::while_statement::WhileStatement;
use vstd::prelude::*;

verus! {

/// A statement of a block.
#[derive(Debug, PartialEq, Eq)]
pub enum Statement {
    Assign(AssignStatement),
    Do(DoStatement),
    Call(FunctionCall),
    CompoundAssign(CompoundAssignStatement),
    Function(FunctionStatement),
    GenericFor(GenericForStatement),
    If(IfStatement),
    LocalAssign(LocalAssignStatement),
    LocalFunction(LocalFunctionStatement),
    TypeFunction(TypeFunctionStatement),
    ExportTypeFunction(ExportTypeFunctionStatement),
    NumericFor(NumericForStatement),
    Repeat(RepeatStatement),
    While(WhileStatement),
    TypeDeclaration(TypeDeclarationStatement),
}

impl Statement {
    /// How deep the tree under this node goes.
    pub open spec fn depth(self) -> nat
        decreases self,
    {
        match self {
            Statement::Assign(inner) => 1 + inner.depth(),
            Statement::Do(inner) => 1 + inner.depth(),
            Statement::Call(inner) => 1 + inner.depth(),
            Statement::CompoundAssign(inner) => 1 + inner.depth(),
            Statement::Function(inner) => 1 + inner.depth(),
            Statement::GenericFor(inner) => 1 + inner.depth(),
            Statement::If(inner) => 1 + inner.depth(),
            Statement::LocalAssign(inner) => 1 + inner.depth(),
            Statement::LocalFunction(inner) => 1 + inner.depth(),
            Statement::TypeFunction(inner) => 1 + inner.depth(),
            Statement::ExportTypeFunction(inner) => 1 + inner.depth(),
            Statement::NumericFor(inner) => 1 + inner.depth(),
            Statement::Repeat(inner) => 1 + inner.depth(),
            Statement::While(inner) => 1 + inner.depth(),
            Statement::TypeDeclaration(inner) => 1 + inner.depth(),
        }
    }

    /// Whether no token of this node, nor of anything under it, holds a comment.
    pub open spec fn is_comment_free(self) -> bool
        decreases self,
    {
        match self {
            Statement::Assign(inner) => inner.is_comment_free(),
            Statement::Do(inner) => inner.is_comment_free(),
            Statement::Call(inner) => inner.is_comment_free(),
            Statement::CompoundAssign(inner) => inner.is_comment_free(),
            Statement::Function(inner) => inner.is_comment_free(),
            Statement::GenericFor(inner) => inner.is_comment_free(),
            Statement::If(inner) => inner.is_comment_free(),
            Statement::LocalAssign(inner) => inner.is_comment_free(),
            Statement::LocalFunction(inner) => inner.is_comment_free(),
            Statement::TypeFunction(inner) => inner.is_comment_free(),
            Statement::ExportTypeFunction(inner) => inner.is_comment_free(),
            Statement::NumericFor(inner) => inner.is_comment_free(),
            Statement::Repeat(inner) => inner.is_comment_free(),
            Statement::While(inner) => inner.is_comment_free(),
            Statement::TypeDeclaration(inner) => inner.is_comment_free(),
        }
    }

    /// This node with the comments taken out of every token of it and of everything
    /// under it.
    pub open spec fn stripped(self) -> Self
        decreases self,
    {
        match self {
            Statement::Assign(inner) => Statement::Assign(inner.stripped()),
            Statement::Do(inner) => Statement::Do(inner.stripped()),
            Statement::Call(inner) => Statement::Call(inner.stripped()),
            Statement::CompoundAssign(inner) => Statement::CompoundAssign(inner.stripped()),
            Statement::Function(inner) => Statement::Function(inner.stripped()),
            Statement::GenericFor(inner) => Statement::GenericFor(inner.stripped()),
            Statement::If(inner) => Statement::If(inner.stripped()),
            Statement::LocalAssign(inner) => Statement::LocalAssign(inner.stripped()),
            Statement::LocalFunction(inner) => Statement::LocalFunction(inner.stripped()),
            Statement::TypeFunction(inner) => Statement::TypeFunction(inner.stripped()),
            Statement::ExportTypeFunction(inner) => Statement::ExportTypeFunction(inner.stripped()),
            Statement::NumericFor(inner) => Statement::NumericFor(inner.stripped()),
            Statement::Repeat(inner) => Statement::Repeat(inner.stripped()),
            Statement::While(inner) => Statement::While(inner.stripped()),
            Statement::TypeDeclaration(inner) => Statement::TypeDeclaration(inner.stripped()),
        }
    }

    /// Once the comments are taken out of everything, no token holds a comment.
    pub proof fn stripped_is_comment_free(self)
        ensures
            self.stripped().is_comment_free(),
        decreases self.depth(), 0nat,
    {
        match self {
            Statement::Assign(inner) => inner.stripped_is_comment_free(),
            Statement::Do(inner) => inner.stripped_is_comment_free(),
            Statement::Call(inner) => inner.stripped_is_comment_free(),
            Statement::CompoundAssign(inner) => inner.stripped_is_comment_free(),
            Statement::Function(inner) => inner.stripped_is_comment_free(),
            Statement::GenericFor(inner) => inner.stripped_is_comment_free(),
            Statement::If(inner) => inner.stripped_is_comment_free(),
            Statement::LocalAssign(inner) => inner.stripped_is_comment_free(),
            Statement::LocalFunction(inner) => inner.stripped_is_comment_free(),
            Statement::TypeFunction(inner) => inner.stripped_is_comment_free(),
            Statement::ExportTypeFunction(inner) => inner.stripped_is_comment_free(),
            Statement::NumericFor(inner) => inner.stripped_is_comment_free(),
            Statement::Repeat(inner) => inner.stripped_is_comment_free(),
            Statement::While(inner) => inner.stripped_is_comment_free(),
            Statement::TypeDeclaration(inner) => inner.stripped_is_comment_free(),
        }
    }

    /// Taking the comments out of everything a second time changes nothing.
    pub proof fn stripped_is_idempotent(self)
        ensures
            self.stripped().stripped() == self.stripped(),
        decreases self.depth(), 0nat,
    {
        match self {
            Statement::Assign(inner) => inner.stripped_is_idempotent(),
            Statement::Do(inner) => inner.stripped_is_idempotent(),
            Statement::Call(inner) => inner.stripped_is_idempotent(),
            Statement::CompoundAssign(inner) => inner.stripped_is_idempotent(),
            Statement::Function(inner) => inner.stripped_is_idempotent(),
            Statement::GenericFor(inner) => inner.stripped_is_idempotent(),
            Statement::If(inner) => inner.stripped_is_idempotent(),
            Statement::LocalAssign(inner) => inner.stripped_is_idempotent(),
            Statement::LocalFunction(inner) => inner.stripped_is_idempotent(),
            Statement::TypeFunction(inner) => inner.stripped_is_idempotent(),
            Statement::ExportTypeFunction(inner) => inner.stripped_is_idempotent(),
            Statement::NumericFor(inner) => inner.stripped_is_idempotent(),
            Statement::Repeat(inner) => inner.stripped_is_idempotent(),
            Statement::While(inner) => inner.stripped_is_idempotent(),
            Statement::TypeDeclaration(inner) => inner.stripped_is_idempotent(),
        }
    }
}

impl From<AssignStatement> for Statement {
    fn from(node: AssignStatement) -> (wrapped: Statement) {
        Statement::Assign(node)
    }
}

impl vstd::std_specs::convert::FromSpecImpl<AssignStatement> for Statement {
    open spec fn obeys_from_spec() -> bool {
        true
    }

    open spec fn from_spec(node: AssignStatement) -> Statement {
        Statement::Assign(node)
    }
}

impl From<DoStatement> for Statement {
    fn from(node: DoStatement) -> (wrapped: Statement) {
        Statement::Do(node)
    }
}

impl vstd::std_specs::convert::FromSpecImpl<DoStatement> for Statement {
    open spec fn obeys_from_spec() -> bool {
        true
    }

    open spec fn from_spec(node: DoStatement) -> Statement {
        Statement::Do(node)
    }
}

impl From<FunctionCall> for Statement {
    fn from(node: FunctionCall) -> (wrapped: Statement) {
        Statement::Call(node)
    }
}

impl vstd::std_specs::convert::FromSpecImpl<FunctionCall> for Statement {
    open spec fn obeys_from_spec() -> bool {
        true
    }

    open spec fn from_spec(node: FunctionCall) -> Statement {
        Statement::Call(node)
    }
}

impl From<CompoundAssignStatement> for Statement {
    fn from(node: CompoundAssignStatement) -> (wrapped: Statement) {
        Statement::CompoundAssign(node)
    }
}

impl vstd::std_specs::convert::FromSpecImpl<CompoundAssignStatement> for Statement {
    open spec fn obeys_from_spec() -> bool {
        true
    }

    open spec fn from_spec(node: CompoundAssignStatement) -> Statement {
        Statement::CompoundAssign(node)
    }
}

impl From<FunctionStatement> for Statement {
    fn from(node: FunctionStatement) -> (wrapped: Statement) {
        Statement::Function(node)
    }
}

impl vstd::std_specs::convert::FromSpecImpl<FunctionStatement> for Statement {
    open spec fn obeys_from_spec() -> bool {
        true
    }

    open spec fn from_spec(node: FunctionStatement) -> Statement {
        Statement::Function(node)
    }
}

impl From<GenericForStatement> for Statement {
    fn from(node: GenericForStatement) -> (wrapped: Statement) {
        Statement::GenericFor(node)
    }
}

impl vstd::std_specs::convert::FromSpecImpl<GenericForStatement> for Statement {
    open spec fn obeys_from_spec() -> bool {
        true
    }

    open spec fn from_spec(node: GenericForStatement) -> Statement {
        Statement::GenericFor(node)
    }
}

impl From<IfStatement> for Statement {
    fn from(node: IfStatement) -> (wrapped: Statement) {
        Statement::If(node)
    }
}

impl vstd::std_specs::convert::FromSpecImpl<IfStatement> for Statement {
    open spec fn obeys_from_spec() -> bool {
        true
    }

    open spec fn from_spec(node: IfStatement) -> Statement {
        Statement::If(node)
    }
}

impl From<LocalAssignStatement> for Statement {
    fn from(node: LocalAssignStatement) -> (wrapped: Statement) {
        Statement::LocalAssign(node)
    }
}

impl vstd::std_specs::convert::FromSpecImpl<LocalAssignStatement> for Statement {
    open spec fn obeys_from_spec() -> bool {
        true
    }

    open spec fn from_spec(node: LocalAssignStatement) -> Statement {
        Statement::LocalAssign(node)
    }
}

impl From<LocalFunctionStatement> for Statement {
    fn from(node: LocalFunctionStatement) -> (wrapped: Statement) {
        Statement::LocalFunction(node)
    }
}

impl vstd::std_specs::convert::FromSpecImpl<LocalFunctionStatement> for Statement {
    open spec fn obeys_from_spec() -> bool {
        true
    }

    open spec fn from_spec(node: LocalFunctionStatement) -> Statement {
        Statement::LocalFunction(node)
    }
}

impl From<TypeFunctionStatement> for Statement {
    fn from(node: TypeFunctionStatement) -> (wrapped: Statement) {
        Statement::TypeFunction(node)
    }
}

impl vstd::std_specs::convert::FromSpecImpl<TypeFunctionStatement> for Statement {
    open spec fn obeys_from_spec() -> bool {
        true
    }

    open spec fn from_spec(node: TypeFunctionStatement) -> Statement {
        Statement::TypeFunction(node)
    }
}

impl From<ExportTypeFunctionStatement> for Statement {
    fn from(node: ExportTypeFunctionStatement) -> (wrapped: Statement) {
        Statement::ExportTypeFunction(node)
    }
}

impl vstd::std_specs::convert::FromSpecImpl<ExportTypeFunctionStatement> for Statement {
    open spec fn obeys_from_spec() -> bool {
        true
    }

    open spec fn from_spec(node: ExportTypeFunctionStatement) -> Statement {
        Statement::ExportTypeFunction(node)
    }
}

impl From<NumericForStatement> for Statement {
    fn from(node: NumericForStatement) -> (wrapped: Statement) {
        Statement::NumericFor(node)
    }
}

impl vstd::std_specs::convert::FromSpecImpl<NumericForStatement> for Statement {
    open spec fn obeys_from_spec() -> bool {
        true
    }

    open spec fn from_spec(node: NumericForStatement) -> Statement {
        Statement::NumericFor(node)
    }
}

impl From<RepeatStatement> for Statement {
    fn from(node: RepeatStatement) -> (wrapped: Statement) {
        Statement::Repeat(node)
    }
}

impl vstd::std_specs::convert::FromSpecImpl<RepeatStatement> for Statement {
    open spec fn obeys_from_spec() -> bool {
        true
    }

    open spec fn from_spec(node: RepeatStatement) -> Statement {
        Statement::Repeat(node)
    }
}

impl From<WhileStatement> for Statement {
    fn from(node: WhileStatement) -> (wrapped: Statement) {
        Statement::While(node)
    }
}

impl vstd::std_specs::convert::FromSpecImpl<WhileStatement> for Statement {
    open spec fn obeys_from_spec() -> bool {
        true
    }

    open spec fn from_spec(node: WhileStatement) -> Statement {
        Statement::While(node)
    }
}

impl From<TypeDeclarationStatement> for Statement {
    fn from(node: TypeDeclarationStatement) -> (wrapped: Statement) {
        Statement::TypeDeclaration(node)
    }
}

impl vstd::std_specs::convert::FromSpecImpl<TypeDeclarationStatement> for Statement {
    open spec fn obeys_from_spec() -> bool {
        true
    }

    open spec fn from_spec(node: TypeDeclarationStatement) -> Statement {
        Statement::TypeDeclaration(node)
    }
}

/// Whether none of a list of statements holds a comment.
pub open spec fn statements_are_comment_free(list: NodeList<Statement>) -> bool
    decreases list,
{
    match list {
        NodeList::Empty => true,
        NodeList::Cell(cell) => {
            cell.head.is_comment_free() && statements_are_comment_free(cell.tail)
        },
    }
}

/// A list of statements with the comments taken out of every token of them.
pub open spec fn statements_stripped(list: NodeList<Statement>) -> NodeList<Statement>
    decreases list,
{
    match list {
        NodeList::Empty => NodeList::Empty,
        NodeList::Cell(cell) => {
            NodeList::cons(cell.head.stripped(), statements_stripped(cell.tail))
        },
    }
}

/// Once the comments are taken out of a list of statements, no token of them holds a
/// comment.
pub proof fn statements_stripped_are_comment_free(list: NodeList<Statement>)
    ensures
        statements_are_comment_free(statements_stripped(list)),
    decreases statements_depth(list), 1 + list.count(),
{
    match list {
        NodeList::Empty => {},
        NodeList::Cell(cell) => {
            cell.head.stripped_is_comment_free();
            statements_stripped_are_comment_free(cell.tail);
        },
    }
}

/// Taking the comments out of a list of statements a second time changes nothing.
pub proof fn statements_stripped_is_idempotent(list: NodeList<Statement>)
    ensures
        statements_stripped(statements_stripped(list)) == statements_stripped(list),
    decreases statements_depth(list), 1 + list.count(),
{
    match list {
        NodeList::Empty => {},
        NodeList::Cell(cell) => {
            cell.head.stripped_is_idempotent();
            statements_stripped_is_idempotent(cell.tail);
        },
    }
}

/// The depth of the deepest of a list of statements.
pub open spec fn statements_depth(list: NodeList<Statement>) -> nat
    decreases list,
{
    match list {
        NodeList::Empty => 0,
        NodeList::Cell(cell) => deeper(cell.head.depth(), statements_depth(cell.tail)),
    }
}

} // verus!
