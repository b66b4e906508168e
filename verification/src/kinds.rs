//! The kind tags and field names of the Rust grammar that the index reads,
//! and the fixed texts that it writes.

use vstd::prelude::*;

verus! {

/// Kind of a struct declaration.
pub const STRUCT_ITEM: &'static str = "struct_item";

/// Kind of a function declaration.
pub const FUNCTION_ITEM: &'static str = "function_item";

/// Kind of a type alias.
pub const TYPE_ITEM: &'static str = "type_item";

/// Kind of an impl block.
pub const IMPL_ITEM: &'static str = "impl_item";

/// Kind of a use declaration.
pub const USE_DECLARATION: &'static str = "use_declaration";

/// Kind of a module declaration.
pub const MOD_ITEM: &'static str = "mod_item";

/// Kind of an enum declaration.
pub const ENUM_ITEM: &'static str = "enum_item";

/// Kind of a macro invocation.
pub const MACRO_INVOCATION: &'static str = "macro_invocation";

/// Kind of a visibility modifier such as `pub`.
pub const VISIBILITY_MODIFIER: &'static str = "visibility_modifier";

/// Kind of the identifier that names a type.
pub const TYPE_IDENTIFIER: &'static str = "type_identifier";

/// Kind of a plain identifier.
pub const IDENTIFIER: &'static str = "identifier";

/// Kind of the identifier that names a field.
pub const FIELD_IDENTIFIER: &'static str = "field_identifier";

/// Kind of a braced list of named fields.
pub const FIELD_DECLARATION_LIST: &'static str = "field_declaration_list";

/// Kind of one named field in such a list.
pub const FIELD_DECLARATION: &'static str = "field_declaration";

/// Kind of a parenthesized list of unnamed fields.
pub const ORDERED_FIELD_DECLARATION_LIST: &'static str = "ordered_field_declaration_list";

/// Kind of one variant of an enum.
pub const ENUM_VARIANT: &'static str = "enum_variant";

/// Kind of a function parameter other than the receiver.
pub const PARAMETER: &'static str = "parameter";

/// Kind of a `self` receiver.
pub const SELF_PARAMETER: &'static str = "self_parameter";

/// Kind of a comment that runs to the end of its line.
pub const LINE_COMMENT: &'static str = "line_comment";

/// Kind of an outer attribute with its `#[` and `]`.
pub const ATTRIBUTE_ITEM: &'static str = "attribute_item";

/// Kind of a path of two or more segments.
pub const SCOPED_IDENTIFIER: &'static str = "scoped_identifier";

/// Kind of a braced group of imports behind a common path.
pub const SCOPED_USE_LIST: &'static str = "scoped_use_list";

/// Kind of a braced group of imports.
pub const USE_LIST: &'static str = "use_list";

/// Kind of an import that is renamed with `as`.
pub const USE_AS_CLAUSE: &'static str = "use_as_clause";

/// Kind of an import of everything below a path.
pub const USE_WILDCARD: &'static str = "use_wildcard";

/// Field that holds a declaration's name.
pub const FIELD_NAME: &'static str = "name";

/// Field that holds a declaration's body.
pub const FIELD_BODY: &'static str = "body";

/// Field that holds a type.
pub const FIELD_TYPE: &'static str = "type";

/// Field that holds a function's parameter list.
pub const FIELD_PARAMETERS: &'static str = "parameters";

/// Field that holds a function's return type.
pub const FIELD_RETURN_TYPE: &'static str = "return_type";

/// Field that holds the path of an invoked macro.
pub const FIELD_MACRO: &'static str = "macro";

/// Field that holds the new name in an `as` clause.
pub const FIELD_ALIAS: &'static str = "alias";

/// The segment that stands for a wildcard import.
pub const WILDCARD_SEGMENT: &'static str = "*";

/// The separator between the lines of a documentation comment.
pub const LINE_FEED: &'static str = "\n";

/// The kinds that the eight extractors look for differ from one another, so
/// that no node is claimed by two of them.
pub proof fn lemma_declaration_kinds_distinct()
    ensures
        STRUCT_ITEM@ != FUNCTION_ITEM@,
        STRUCT_ITEM@ != TYPE_ITEM@,
        STRUCT_ITEM@ != IMPL_ITEM@,
        STRUCT_ITEM@ != USE_DECLARATION@,
        STRUCT_ITEM@ != MOD_ITEM@,
        STRUCT_ITEM@ != ENUM_ITEM@,
        STRUCT_ITEM@ != MACRO_INVOCATION@,
        FUNCTION_ITEM@ != TYPE_ITEM@,
        FUNCTION_ITEM@ != IMPL_ITEM@,
        FUNCTION_ITEM@ != USE_DECLARATION@,
        FUNCTION_ITEM@ != MOD_ITEM@,
        FUNCTION_ITEM@ != ENUM_ITEM@,
        FUNCTION_ITEM@ != MACRO_INVOCATION@,
        TYPE_ITEM@ != IMPL_ITEM@,
        TYPE_ITEM@ != USE_DECLARATION@,
        TYPE_ITEM@ != MOD_ITEM@,
        TYPE_ITEM@ != ENUM_ITEM@,
        TYPE_ITEM@ != MACRO_INVOCATION@,
        IMPL_ITEM@ != USE_DECLARATION@,
        IMPL_ITEM@ != MOD_ITEM@,
        IMPL_ITEM@ != ENUM_ITEM@,
        IMPL_ITEM@ != MACRO_INVOCATION@,
        USE_DECLARATION@ != MOD_ITEM@,
        USE_DECLARATION@ != ENUM_ITEM@,
        USE_DECLARATION@ != MACRO_INVOCATION@,
        MOD_ITEM@ != ENUM_ITEM@,
        MOD_ITEM@ != MACRO_INVOCATION@,
        ENUM_ITEM@ != MACRO_INVOCATION@,
{
    reveal_strlit("struct_item");
    reveal_strlit("function_item");
    reveal_strlit("type_item");
    reveal_strlit("impl_item");
    reveal_strlit("use_declaration");
    reveal_strlit("mod_item");
    reveal_strlit("enum_item");
    reveal_strlit("macro_invocation");
    assert(STRUCT_ITEM@.len() == 11);
    assert(FUNCTION_ITEM@.len() == 13);
    assert(TYPE_ITEM@.len() == 9 && TYPE_ITEM@[0] == 't');
    assert(IMPL_ITEM@.len() == 9 && IMPL_ITEM@[0] == 'i');
    assert(USE_DECLARATION@.len() == 15);
    assert(MOD_ITEM@.len() == 8);
    assert(ENUM_ITEM@.len() == 9 && ENUM_ITEM@[0] == 'e');
    assert(MACRO_INVOCATION@.len() == 16);
}

} // verus!
