pub mod arguments;
pub mod array_type;
pub mod assign;
pub mod binary;
pub mod block;
pub mod compound_assign;
pub mod conversion;
pub mod do_statement;
pub mod expression;
pub mod expression_type;
pub mod field;
pub mod function;
pub mod function_call;
pub mod function_expression;
pub mod function_type;
pub mod generic_for;
pub mod identifier;
pub mod if_expression;
pub mod if_statement;
pub mod index;
pub mod interpolated_string;
pub mod intersection_type;
pub mod list;
pub mod local_assign;
pub mod local_function;
pub mod named_type;
pub mod number;
pub mod numeric_for;
pub mod operators;
pub mod optional_type;
pub mod parenthese;
pub mod parenthese_type;
pub mod prefix;
pub mod repeat;
pub mod statement;
pub mod string;
pub mod string_type;
pub mod table;
pub mod table_type;
pub mod token;
pub mod type_cast;
pub mod type_declaration;
pub mod type_field;
pub mod type_function;
pub mod type_pack;
pub mod types;
pub mod unary;
pub mod union_type;
pub mod variable;
pub mod while_statement;

pub use arguments::{Arguments, TupleArguments, TupleArgumentsTokens};
pub use array_type::{ArrayType, ArrayTypeTokens};
pub use assign::{AssignStatement, AssignTokens};
pub use binary::BinaryExpression;
pub use block::{Block, BlockTokens, LastStatement, ReturnStatement, ReturnTokens};
pub use compound_assign::{CompoundAssignStatement, CompoundAssignTokens};
pub use do_statement::{DoStatement, DoTokens};
pub use expression::Expression;
pub use expression_type::{ExpressionType, ExpressionTypeTokens};
pub use field::FieldExpression;
pub use function::{
    FunctionBodyTokens, FunctionName, FunctionNameTokens, FunctionStatement, GenericParameters,
    GenericParametersTokens,
};
pub use function_call::{FunctionCall, FunctionCallTokens};
pub use function_expression::FunctionExpression;
pub use function_type::{
    FunctionArgumentType, FunctionReturnType, FunctionType, FunctionTypeTokens,
    FunctionVariadicType,
};
pub use generic_for::{GenericForStatement, GenericForTokens};
pub use identifier::{Identifier, TypedIdentifier, TypedIdentifierTokens};
pub use if_expression::{
    ElseIfExpressionBranch, ElseIfExpressionBranchTokens, IfExpression, IfExpressionTokens,
};
pub use if_statement::{IfBranch, IfBranchTokens, IfStatement, IfStatementTokens};
pub use index::{IndexExpression, IndexExpressionTokens};
pub use interpolated_string::{
    InterpolatedStringExpression, InterpolatedStringTokens, InterpolationSegment, StringSegment,
    ValueSegment, ValueSegmentTokens,
};
pub use intersection_type::{IntersectionType, IntersectionTypeTokens};
pub use list::{ListCell, NodeList};
pub use local_assign::{LocalAssignStatement, LocalAssignTokens};
pub use local_function::{LocalFunctionStatement, LocalFunctionTokens};
pub use named_type::{TypeName, TypeParameter, TypeParameters, TypeParametersTokens};
pub use number::{BinaryNumber, DecimalNumber, HexNumber, NumberExpression};
pub use numeric_for::{NumericForStatement, NumericForTokens};
pub use operators::{BinaryOperator, CompoundOperator, UnaryOperator};
pub use optional_type::OptionalType;
pub use parenthese::{ParentheseExpression, ParentheseTokens};
pub use parenthese_type::{ParentheseType, ParentheseTypeTokens};
pub use prefix::Prefix;
pub use repeat::{RepeatStatement, RepeatTokens};
pub use statement::Statement;
pub use string::StringExpression;
pub use string_type::StringType;
pub use table::{
    TableEntry, TableExpression, TableFieldEntry, TableIndexEntry, TableIndexEntryTokens,
    TableTokens,
};
pub use table_type::{
    TableEntryType, TableIndexTypeTokens, TableIndexerType, TableLiteralPropertyType,
    TablePropertyType, TableType, TableTypeTokens,
};
pub use token::{Position, Token, Trivia, TriviaKind};
pub use type_cast::TypeCastExpression;
pub use type_declaration::{
    GenericParameter, GenericParametersWithDefaults, GenericTypePackDefault,
    GenericTypePackWithDefault, TypeDeclarationStatement, TypeDeclarationTokens,
    TypeVariableWithDefault,
};
pub use type_field::TypeField;
pub use type_function::{
    ExportTypeFunctionStatement, ExportTypeFunctionTokens, TypeFunctionStatement,
    TypeFunctionTokens,
};
pub use type_pack::{GenericTypePack, TypePack, TypePackTokens, VariadicArgumentType, VariadicTypePack};
pub use types::Type;
pub use unary::UnaryExpression;
pub use union_type::{UnionType, UnionTypeTokens};
pub use variable::Variable;
pub use while_statement::{WhileStatement, WhileTokens};
