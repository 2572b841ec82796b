//! What a visit that removes comments leaves: types.
use crate::nodes::{
    ArrayType, ExpressionType, FunctionArgumentType, FunctionReturnType, FunctionType,
    FunctionVariadicType, GenericTypePack, IntersectionType, OptionalType, ParentheseType,
    StringType, TableEntryType, TableType, Type, TypeField, TypeName, TypePack, TypeParameter,
    UnionType, VariadicArgumentType, VariadicTypePack,
};
use crate::process::walk::{
    walk_array_type, walk_expression, walk_expression_type, walk_function_argument_type,
    walk_function_argument_types, walk_function_return_type, walk_function_type,
    walk_function_variadic_type, walk_generic_type_pack, walk_intersection_type, walk_optional_type,
    walk_parenthese_type, walk_string_type, walk_table_entry_type, walk_table_entry_types,
    walk_table_type, walk_type, walk_type_field, walk_type_name, walk_type_pack,
    walk_type_parameter, walk_type_parameters, walk_types, walk_union_type,
    walk_variadic_argument_type, walk_variadic_type_pack,
};
use crate::rules::remove_comments::{RemoveCommentProcessor, processors_are_equal};
use crate::rules::stripping::expressions::visit_strips_expression;
use crate::rules::stripping::lists::{
    visit_strips_function_argument_types, visit_strips_table_entry_types,
    visit_strips_type_parameters, visit_strips_types,
};
use vstd::prelude::*;

verus! {

/// A visit of the type of the variadic arguments of a function takes the comments out
/// of every token of it and of everything under it, and changes nothing else.
pub proof fn visit_strips_function_variadic_type(variadic_type: FunctionVariadicType)
    ensures
        forall|p: RemoveCommentProcessor|
            (#[trigger] walk_function_variadic_type(p, variadic_type)).1
                == variadic_type.stripped(),
    decreases variadic_type.depth(), 0nat,
{
    match variadic_type {
        FunctionVariadicType::Type(inner) => {
            visit_strips_type(inner);
        },
        FunctionVariadicType::GenericTypePack(inner) => {
            visit_strips_generic_type_pack(inner);
        },
    }
    assert forall|p: RemoveCommentProcessor|
        (#[trigger] walk_function_variadic_type(p, variadic_type)).1
            == variadic_type.stripped() by {
        match variadic_type {
            FunctionVariadicType::Type(inner) => {
                processors_are_equal(walk_type(p, inner).0, p);
            },
            FunctionVariadicType::GenericTypePack(inner) => {
                processors_are_equal(walk_generic_type_pack(p, inner).0, p);
            },
            _ => {},
        }
    }
}

/// A visit of a generic type pack takes the comments out of every token of it and of
/// everything under it, and changes nothing else.
pub proof fn visit_strips_generic_type_pack(generic: GenericTypePack)
    ensures
        forall|p: RemoveCommentProcessor|
            (#[trigger] walk_generic_type_pack(p, generic)).1 == generic.stripped(),
{
}

/// A visit of a type takes the comments out of every token of it and of everything
/// under it, and changes nothing else.
pub proof fn visit_strips_type(annotation: Type)
    ensures
        forall|p: RemoveCommentProcessor|
            (#[trigger] walk_type(p, annotation)).1 == annotation.stripped(),
    decreases annotation.depth(), 0nat,
{
    annotation.without_comments_is_idempotent();
    annotation.without_comments_keeps_depth();
    annotation.stripped_absorbs_clearing();
    let entered = annotation.without_comments();
    match entered {
        Type::Name(inner) => {
            visit_strips_type_name(inner);
        },
        Type::Field(inner) => {
            visit_strips_type_field(*inner);
        },
        Type::Array(inner) => {
            visit_strips_array_type(inner);
        },
        Type::Table(inner) => {
            visit_strips_table_type(inner);
        },
        Type::TypeOf(inner) => {
            visit_strips_expression_type(inner);
        },
        Type::Parenthese(inner) => {
            visit_strips_parenthese_type(inner);
        },
        Type::Function(inner) => {
            visit_strips_function_type(*inner);
        },
        Type::Optional(inner) => {
            visit_strips_optional_type(inner);
        },
        Type::Intersection(inner) => {
            visit_strips_intersection_type(inner);
        },
        Type::Union(inner) => {
            visit_strips_union_type(inner);
        },
        Type::String(inner) => {
            visit_strips_string_type(inner);
        },
        _ => {},
    }
    assert forall|p: RemoveCommentProcessor|
        (#[trigger] walk_type(p, annotation)).1 == annotation.stripped() by {
        match entered {
            Type::Name(inner) => {
                processors_are_equal(walk_type_name(p, inner).0, p);
            },
            Type::Field(inner) => {
                processors_are_equal(walk_type_field(p, *inner).0, p);
            },
            Type::Array(inner) => {
                processors_are_equal(walk_array_type(p, inner).0, p);
            },
            Type::Table(inner) => {
                processors_are_equal(walk_table_type(p, inner).0, p);
            },
            Type::TypeOf(inner) => {
                processors_are_equal(walk_expression_type(p, inner).0, p);
            },
            Type::Parenthese(inner) => {
                processors_are_equal(walk_parenthese_type(p, inner).0, p);
            },
            Type::Function(inner) => {
                processors_are_equal(walk_function_type(p, *inner).0, p);
            },
            Type::Optional(inner) => {
                processors_are_equal(walk_optional_type(p, inner).0, p);
            },
            Type::Intersection(inner) => {
                processors_are_equal(walk_intersection_type(p, inner).0, p);
            },
            Type::Union(inner) => {
                processors_are_equal(walk_union_type(p, inner).0, p);
            },
            Type::String(inner) => {
                processors_are_equal(walk_string_type(p, inner).0, p);
            },
            _ => {},
        }
    }
}

/// A visit of a named type takes the comments out of every token of it and of
/// everything under it, and changes nothing else.
pub proof fn visit_strips_type_name(name: TypeName)
    ensures
        forall|p: RemoveCommentProcessor| (#[trigger] walk_type_name(p, name)).1 == name.stripped(),
    decreases name.depth(), 0nat,
{
    name.without_comments_is_idempotent();
    name.without_comments_keeps_depth();
    name.stripped_absorbs_clearing();
    let entered = name.without_comments();
    match entered.type_parameters {
        Some(inner) => {
            visit_strips_type_parameters(inner.parameters);
        },
        None => {},
    }
    assert forall|p: RemoveCommentProcessor|
        (#[trigger] walk_type_name(p, name)).1 == name.stripped() by {
        match entered.type_parameters {
            Some(inner) => {
                processors_are_equal(walk_type_parameters(p, inner.parameters).0, p);
            },
            None => {},
        }
    }
}

/// A visit of a type read from a namespace takes the comments out of every token of it
/// and of everything under it, and changes nothing else.
pub proof fn visit_strips_type_field(type_field: TypeField)
    ensures
        forall|p: RemoveCommentProcessor|
            (#[trigger] walk_type_field(p, type_field)).1 == type_field.stripped(),
    decreases type_field.depth(), 0nat,
{
    type_field.without_comments_is_idempotent();
    type_field.without_comments_keeps_depth();
    type_field.stripped_absorbs_clearing();
    let entered = type_field.without_comments();
    visit_strips_type_name(entered.name);
    assert forall|p: RemoveCommentProcessor|
        (#[trigger] walk_type_field(p, type_field)).1 == type_field.stripped() by {
        processors_are_equal(walk_type_name(p, entered.name).0, p);
    }
}

/// A visit of an array type takes the comments out of every token of it and of
/// everything under it, and changes nothing else.
pub proof fn visit_strips_array_type(array: ArrayType)
    ensures
        forall|p: RemoveCommentProcessor|
            (#[trigger] walk_array_type(p, array)).1 == array.stripped(),
    decreases array.depth(), 0nat,
{
    array.without_comments_is_idempotent();
    array.without_comments_keeps_depth();
    array.stripped_absorbs_clearing();
    let entered = array.without_comments();
    visit_strips_type(*entered.element_type);
    assert forall|p: RemoveCommentProcessor|
        (#[trigger] walk_array_type(p, array)).1 == array.stripped() by {
        processors_are_equal(walk_type(p, *entered.element_type).0, p);
    }
}

/// A visit of a table type takes the comments out of every token of it and of
/// everything under it, and changes nothing else.
pub proof fn visit_strips_table_type(table: TableType)
    ensures
        forall|p: RemoveCommentProcessor|
            (#[trigger] walk_table_type(p, table)).1 == table.stripped(),
    decreases table.depth(), 0nat,
{
    table.without_comments_is_idempotent();
    table.without_comments_keeps_depth();
    table.stripped_absorbs_clearing();
    let entered = table.without_comments();
    visit_strips_table_entry_types(entered.entries);
    assert forall|p: RemoveCommentProcessor|
        (#[trigger] walk_table_type(p, table)).1 == table.stripped() by {
        processors_are_equal(walk_table_entry_types(p, entered.entries).0, p);
    }
}

/// A visit of a `typeof` type takes the comments out of every token of it and of
/// everything under it, and changes nothing else.
pub proof fn visit_strips_expression_type(expression_type: ExpressionType)
    ensures
        forall|p: RemoveCommentProcessor|
            (#[trigger] walk_expression_type(p, expression_type)).1 == expression_type.stripped(),
    decreases expression_type.depth(), 0nat,
{
    expression_type.without_comments_is_idempotent();
    expression_type.without_comments_keeps_depth();
    expression_type.stripped_absorbs_clearing();
    let entered = expression_type.without_comments();
    visit_strips_expression(*entered.expression);
    assert forall|p: RemoveCommentProcessor|
        (#[trigger] walk_expression_type(p, expression_type)).1 == expression_type.stripped() by {
        processors_are_equal(walk_expression(p, *entered.expression).0, p);
    }
}

/// A visit of a parenthesized type takes the comments out of every token of it and of
/// everything under it, and changes nothing else.
pub proof fn visit_strips_parenthese_type(parenthese: ParentheseType)
    ensures
        forall|p: RemoveCommentProcessor|
            (#[trigger] walk_parenthese_type(p, parenthese)).1 == parenthese.stripped(),
    decreases parenthese.depth(), 0nat,
{
    parenthese.without_comments_is_idempotent();
    parenthese.without_comments_keeps_depth();
    parenthese.stripped_absorbs_clearing();
    let entered = parenthese.without_comments();
    visit_strips_type(*entered.inner_type);
    assert forall|p: RemoveCommentProcessor|
        (#[trigger] walk_parenthese_type(p, parenthese)).1 == parenthese.stripped() by {
        processors_are_equal(walk_type(p, *entered.inner_type).0, p);
    }
}

/// A visit of a function type takes the comments out of every token of it and of
/// everything under it, and changes nothing else.
pub proof fn visit_strips_function_type(function: FunctionType)
    ensures
        forall|p: RemoveCommentProcessor|
            (#[trigger] walk_function_type(p, function)).1 == function.stripped(),
    decreases function.depth(), 0nat,
{
    function.without_comments_is_idempotent();
    function.without_comments_keeps_depth();
    function.stripped_absorbs_clearing();
    let entered = function.without_comments();
    visit_strips_function_argument_types(entered.arguments);
    match entered.variadic_argument_type {
        Some(inner) => {
            visit_strips_variadic_argument_type(inner);
        },
        None => {},
    }
    visit_strips_function_return_type(entered.return_type);
    assert forall|p: RemoveCommentProcessor|
        (#[trigger] walk_function_type(p, function)).1 == function.stripped() by {
        processors_are_equal(walk_function_argument_types(p, entered.arguments).0, p);
        match entered.variadic_argument_type {
            Some(inner) => {
                processors_are_equal(walk_variadic_argument_type(p, inner).0, p);
            },
            None => {},
        }
        processors_are_equal(walk_function_return_type(p, entered.return_type).0, p);
    }
}

/// A visit of an optional type takes the comments out of every token of it and of
/// everything under it, and changes nothing else.
pub proof fn visit_strips_optional_type(optional: OptionalType)
    ensures
        forall|p: RemoveCommentProcessor|
            (#[trigger] walk_optional_type(p, optional)).1 == optional.stripped(),
    decreases optional.depth(), 0nat,
{
    optional.without_comments_is_idempotent();
    optional.without_comments_keeps_depth();
    optional.stripped_absorbs_clearing();
    let entered = optional.without_comments();
    visit_strips_type(*entered.inner_type);
    assert forall|p: RemoveCommentProcessor|
        (#[trigger] walk_optional_type(p, optional)).1 == optional.stripped() by {
        processors_are_equal(walk_type(p, *entered.inner_type).0, p);
    }
}

/// A visit of an intersection type takes the comments out of every token of it and of
/// everything under it, and changes nothing else.
pub proof fn visit_strips_intersection_type(intersection: IntersectionType)
    ensures
        forall|p: RemoveCommentProcessor|
            (#[trigger] walk_intersection_type(p, intersection)).1 == intersection.stripped(),
    decreases intersection.depth(), 0nat,
{
    intersection.without_comments_is_idempotent();
    intersection.without_comments_keeps_depth();
    intersection.stripped_absorbs_clearing();
    let entered = intersection.without_comments();
    visit_strips_types(entered.types);
    assert forall|p: RemoveCommentProcessor|
        (#[trigger] walk_intersection_type(p, intersection)).1 == intersection.stripped() by {
        processors_are_equal(walk_types(p, entered.types).0, p);
    }
}

/// A visit of a union type takes the comments out of every token of it and of
/// everything under it, and changes nothing else.
pub proof fn visit_strips_union_type(union: UnionType)
    ensures
        forall|p: RemoveCommentProcessor|
            (#[trigger] walk_union_type(p, union)).1 == union.stripped(),
    decreases union.depth(), 0nat,
{
    union.without_comments_is_idempotent();
    union.without_comments_keeps_depth();
    union.stripped_absorbs_clearing();
    let entered = union.without_comments();
    visit_strips_types(entered.types);
    assert forall|p: RemoveCommentProcessor|
        (#[trigger] walk_union_type(p, union)).1 == union.stripped() by {
        processors_are_equal(walk_types(p, entered.types).0, p);
    }
}

/// A visit of a string type takes the comments out of every token of it and of
/// everything under it, and changes nothing else.
pub proof fn visit_strips_string_type(string: StringType)
    ensures
        forall|p: RemoveCommentProcessor|
            (#[trigger] walk_string_type(p, string)).1 == string.stripped(),
{
}

/// A visit of a type pack takes the comments out of every token of it and of everything
/// under it, and changes nothing else.
pub proof fn visit_strips_type_pack(type_pack: TypePack)
    ensures
        forall|p: RemoveCommentProcessor|
            (#[trigger] walk_type_pack(p, type_pack)).1 == type_pack.stripped(),
    decreases type_pack.depth(), 0nat,
{
    type_pack.without_comments_is_idempotent();
    type_pack.without_comments_keeps_depth();
    type_pack.stripped_absorbs_clearing();
    let entered = type_pack.without_comments();
    visit_strips_types(entered.types);
    match entered.variadic_type {
        Some(inner) => {
            visit_strips_variadic_argument_type(inner);
        },
        None => {},
    }
    assert forall|p: RemoveCommentProcessor|
        (#[trigger] walk_type_pack(p, type_pack)).1 == type_pack.stripped() by {
        processors_are_equal(walk_types(p, entered.types).0, p);
        match entered.variadic_type {
            Some(inner) => {
                processors_are_equal(walk_variadic_argument_type(p, inner).0, p);
            },
            None => {},
        }
    }
}

/// A visit of a variadic type pack takes the comments out of every token of it and of
/// everything under it, and changes nothing else.
pub proof fn visit_strips_variadic_type_pack(variadic_type_pack: VariadicTypePack)
    ensures
        forall|p: RemoveCommentProcessor|
            (#[trigger] walk_variadic_type_pack(p, variadic_type_pack)).1
                == variadic_type_pack.stripped(),
    decreases variadic_type_pack.depth(), 0nat,
{
    variadic_type_pack.without_comments_is_idempotent();
    variadic_type_pack.without_comments_keeps_depth();
    variadic_type_pack.stripped_absorbs_clearing();
    let entered = variadic_type_pack.without_comments();
    visit_strips_type(*entered.inner_type);
    assert forall|p: RemoveCommentProcessor|
        (#[trigger] walk_variadic_type_pack(p, variadic_type_pack)).1
            == variadic_type_pack.stripped() by {
        processors_are_equal(walk_type(p, *entered.inner_type).0, p);
    }
}

/// A visit of the variadic tail of a list of types takes the comments out of every
/// token of it and of everything under it, and changes nothing else.
pub proof fn visit_strips_variadic_argument_type(variadic_type: VariadicArgumentType)
    ensures
        forall|p: RemoveCommentProcessor|
            (#[trigger] walk_variadic_argument_type(p, variadic_type)).1
                == variadic_type.stripped(),
    decreases variadic_type.depth(), 0nat,
{
    match variadic_type {
        VariadicArgumentType::VariadicTypePack(inner) => {
            visit_strips_variadic_type_pack(inner);
        },
        VariadicArgumentType::GenericTypePack(inner) => {
            visit_strips_generic_type_pack(inner);
        },
    }
    assert forall|p: RemoveCommentProcessor|
        (#[trigger] walk_variadic_argument_type(p, variadic_type)).1
            == variadic_type.stripped() by {
        match variadic_type {
            VariadicArgumentType::VariadicTypePack(inner) => {
                processors_are_equal(walk_variadic_type_pack(p, inner).0, p);
            },
            VariadicArgumentType::GenericTypePack(inner) => {
                processors_are_equal(walk_generic_type_pack(p, inner).0, p);
            },
            _ => {},
        }
    }
}

/// A visit of what a function returns takes the comments out of every token of it and
/// of everything under it, and changes nothing else.
pub proof fn visit_strips_function_return_type(return_type: FunctionReturnType)
    ensures
        forall|p: RemoveCommentProcessor|
            (#[trigger] walk_function_return_type(p, return_type)).1 == return_type.stripped(),
    decreases return_type.depth(), 0nat,
{
    match return_type {
        FunctionReturnType::Type(inner) => {
            visit_strips_type(*inner);
        },
        FunctionReturnType::TypePack(inner) => {
            visit_strips_type_pack(inner);
        },
        FunctionReturnType::VariadicTypePack(inner) => {
            visit_strips_variadic_type_pack(inner);
        },
        FunctionReturnType::GenericTypePack(inner) => {
            visit_strips_generic_type_pack(inner);
        },
    }
    assert forall|p: RemoveCommentProcessor|
        (#[trigger] walk_function_return_type(p, return_type)).1 == return_type.stripped() by {
        match return_type {
            FunctionReturnType::Type(inner) => {
                processors_are_equal(walk_type(p, *inner).0, p);
            },
            FunctionReturnType::TypePack(inner) => {
                processors_are_equal(walk_type_pack(p, inner).0, p);
            },
            FunctionReturnType::VariadicTypePack(inner) => {
                processors_are_equal(walk_variadic_type_pack(p, inner).0, p);
            },
            FunctionReturnType::GenericTypePack(inner) => {
                processors_are_equal(walk_generic_type_pack(p, inner).0, p);
            },
            _ => {},
        }
    }
}

/// A visit of a parameter given to a named type takes the comments out of every token
/// of it and of everything under it, and changes nothing else.
pub proof fn visit_strips_type_parameter(parameter: TypeParameter)
    ensures
        forall|p: RemoveCommentProcessor|
            (#[trigger] walk_type_parameter(p, parameter)).1 == parameter.stripped(),
    decreases parameter.depth(), 0nat,
{
    match parameter {
        TypeParameter::Type(inner) => {
            visit_strips_type(inner);
        },
        TypeParameter::TypePack(inner) => {
            visit_strips_type_pack(inner);
        },
        TypeParameter::VariadicTypePack(inner) => {
            visit_strips_variadic_type_pack(inner);
        },
        TypeParameter::GenericTypePack(inner) => {
            visit_strips_generic_type_pack(inner);
        },
    }
    assert forall|p: RemoveCommentProcessor|
        (#[trigger] walk_type_parameter(p, parameter)).1 == parameter.stripped() by {
        match parameter {
            TypeParameter::Type(inner) => {
                processors_are_equal(walk_type(p, inner).0, p);
            },
            TypeParameter::TypePack(inner) => {
                processors_are_equal(walk_type_pack(p, inner).0, p);
            },
            TypeParameter::VariadicTypePack(inner) => {
                processors_are_equal(walk_variadic_type_pack(p, inner).0, p);
            },
            TypeParameter::GenericTypePack(inner) => {
                processors_are_equal(walk_generic_type_pack(p, inner).0, p);
            },
            _ => {},
        }
    }
}

/// A visit of an entry of a table type takes the comments out of every token of it and
/// of everything under it, and changes nothing else, where its own tokens held no
/// comment before.
pub proof fn visit_strips_table_entry_type(entry: TableEntryType)
    requires
        entry.without_comments() == entry,
    ensures
        forall|p: RemoveCommentProcessor|
            (#[trigger] walk_table_entry_type(p, entry)).1 == entry.stripped(),
    decreases entry.depth(), 0nat,
{
    match entry {
        TableEntryType::Property(inner) => {
            visit_strips_type(inner.property_type);
        },
        TableEntryType::Literal(inner) => {
            visit_strips_string_type(inner.string);
            visit_strips_type(inner.property_type);
        },
        TableEntryType::Indexer(inner) => {
            visit_strips_type(inner.key_type);
            visit_strips_type(inner.value_type);
        },
    }
    assert forall|p: RemoveCommentProcessor|
        (#[trigger] walk_table_entry_type(p, entry)).1 == entry.stripped() by {
        match entry {
            TableEntryType::Property(inner) => {
                processors_are_equal(walk_type(p, inner.property_type).0, p);
            },
            TableEntryType::Literal(inner) => {
                processors_are_equal(walk_string_type(p, inner.string).0, p);
                processors_are_equal(walk_type(p, inner.property_type).0, p);
            },
            TableEntryType::Indexer(inner) => {
                processors_are_equal(walk_type(p, inner.key_type).0, p);
                processors_are_equal(walk_type(p, inner.value_type).0, p);
            },
            _ => {},
        }
    }
}

/// A visit of the type of an argument takes the comments out of every token of it and
/// of everything under it, and changes nothing else, where its own tokens held no
/// comment before.
pub proof fn visit_strips_function_argument_type(argument: FunctionArgumentType)
    requires
        argument.without_comments() == argument,
    ensures
        forall|p: RemoveCommentProcessor|
            (#[trigger] walk_function_argument_type(p, argument)).1 == argument.stripped(),
    decreases argument.depth(), 0nat,
{
    visit_strips_type(argument.argument_type);
    assert forall|p: RemoveCommentProcessor|
        (#[trigger] walk_function_argument_type(p, argument)).1 == argument.stripped() by {
        processors_are_equal(walk_type(p, argument.argument_type).0, p);
    }
}

} // verus!
