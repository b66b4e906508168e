//! The eight extractors, one for each kind of declaration that is indexed.

use vstd::prelude::*;
use crate::extract::{
    extract_enum_info, extract_function_info, extract_impl_info, extract_macro_info,
    extract_mod_info, extract_struct_info, extract_type_alias_info, extract_use_dependency_info,
};
use crate::kinds::{
    ENUM_ITEM, FUNCTION_ITEM, IMPL_ITEM, MACRO_INVOCATION, MOD_ITEM, STRUCT_ITEM, TYPE_ITEM,
    USE_DECLARATION,
};
use crate::rules;
use crate::store::{ExtractedData, RecordModel};
use crate::syntax::{SyntaxNode, SyntaxTree};
use crate::traverse::InfoExtractor;

verus! {

/// The extractor of struct declarations.
pub struct StructInfoExtractor {}

impl InfoExtractor for StructInfoExtractor {
    open spec fn kind_tag(&self) -> Seq<char> {
        STRUCT_ITEM@
    }

    open spec fn record(
        &self,
        node: SyntaxTree,
        preceding: Seq<SyntaxTree>,
        code: Seq<char>,
        file_path: Seq<char>,
    ) -> RecordModel {
        RecordModel::Struct(rules::struct_record(node, preceding, code, file_path))
    }

    fn extract(
        &self,
        node: &SyntaxNode,
        preceding: &[SyntaxNode],
        code: &str,
        file_path: String,
        extracted_data_: &mut ExtractedData,
    ) {
        if node.is_kind(STRUCT_ITEM) {
            let mut info = extract_struct_info(node, preceding, code, file_path);
            info.start_position = node.start_byte;
            let ghost before = extracted_data_.structs.deep_view();
            extracted_data_.structs.push(info);
            assert(extracted_data_.structs.deep_view() =~= before.push(info.deep_view()));
        }
    }

    fn node_kind(&self) -> (kind: &'static str) {
        STRUCT_ITEM
    }
}

/// The extractor of function declarations.
pub struct FunctionInfoExtractor {}

impl InfoExtractor for FunctionInfoExtractor {
    open spec fn kind_tag(&self) -> Seq<char> {
        FUNCTION_ITEM@
    }

    open spec fn record(
        &self,
        node: SyntaxTree,
        preceding: Seq<SyntaxTree>,
        code: Seq<char>,
        file_path: Seq<char>,
    ) -> RecordModel {
        RecordModel::Function(rules::function_info(node, code, file_path))
    }

    fn extract(
        &self,
        node: &SyntaxNode,
        preceding: &[SyntaxNode],
        code: &str,
        file_path: String,
        extracted_data_: &mut ExtractedData,
    ) {
        if node.is_kind(FUNCTION_ITEM) {
            let info = extract_function_info(node, code, file_path);
            let ghost before = extracted_data_.functions.deep_view();
            extracted_data_.functions.push(info);
            assert(extracted_data_.functions.deep_view() =~= before.push(info.deep_view()));
        }
    }

    fn node_kind(&self) -> (kind: &'static str) {
        FUNCTION_ITEM
    }
}

/// The extractor of type aliases.
pub struct TypeAliasInfoExtractor {}

impl InfoExtractor for TypeAliasInfoExtractor {
    open spec fn kind_tag(&self) -> Seq<char> {
        TYPE_ITEM@
    }

    open spec fn record(
        &self,
        node: SyntaxTree,
        preceding: Seq<SyntaxTree>,
        code: Seq<char>,
        file_path: Seq<char>,
    ) -> RecordModel {
        RecordModel::TypeAlias(rules::type_alias_info(node, preceding, code, file_path))
    }

    fn extract(
        &self,
        node: &SyntaxNode,
        preceding: &[SyntaxNode],
        code: &str,
        file_path: String,
        extracted_data_: &mut ExtractedData,
    ) {
        if node.is_kind(TYPE_ITEM) {
            let info = extract_type_alias_info(node, preceding, code, file_path);
            let ghost before = extracted_data_.type_aliases.deep_view();
            extracted_data_.type_aliases.push(info);
            assert(extracted_data_.type_aliases.deep_view() =~= before.push(info.deep_view()));
        }
    }

    fn node_kind(&self) -> (kind: &'static str) {
        TYPE_ITEM
    }
}

/// The extractor of impl blocks.
pub struct ImplInfoExtractor {}

impl InfoExtractor for ImplInfoExtractor {
    open spec fn kind_tag(&self) -> Seq<char> {
        IMPL_ITEM@
    }

    open spec fn record(
        &self,
        node: SyntaxTree,
        preceding: Seq<SyntaxTree>,
        code: Seq<char>,
        file_path: Seq<char>,
    ) -> RecordModel {
        RecordModel::Impl(rules::impl_info(node, code, file_path))
    }

    fn extract(
        &self,
        node: &SyntaxNode,
        preceding: &[SyntaxNode],
        code: &str,
        file_path: String,
        extracted_data_: &mut ExtractedData,
    ) {
        if node.is_kind(IMPL_ITEM) {
            let info = extract_impl_info(node, code, file_path);
            let ghost before = extracted_data_.impls.deep_view();
            extracted_data_.impls.push(info);
            assert(extracted_data_.impls.deep_view() =~= before.push(info.deep_view()));
        }
    }

    fn node_kind(&self) -> (kind: &'static str) {
        IMPL_ITEM
    }
}

/// The extractor of use declarations.
pub struct UseDependencyInfoExtractor {}

impl InfoExtractor for UseDependencyInfoExtractor {
    open spec fn kind_tag(&self) -> Seq<char> {
        USE_DECLARATION@
    }

    open spec fn record(
        &self,
        node: SyntaxTree,
        preceding: Seq<SyntaxTree>,
        code: Seq<char>,
        file_path: Seq<char>,
    ) -> RecordModel {
        RecordModel::UseDependency(rules::use_dependency_info(node, code, file_path))
    }

    fn extract(
        &self,
        node: &SyntaxNode,
        preceding: &[SyntaxNode],
        code: &str,
        file_path: String,
        extracted_data_: &mut ExtractedData,
    ) {
        if node.is_kind(USE_DECLARATION) {
            let info = extract_use_dependency_info(node, code, file_path);
            let ghost before = extracted_data_.use_dependencies.deep_view();
            extracted_data_.use_dependencies.push(info);
            assert(extracted_data_.use_dependencies.deep_view() =~= before.push(info.deep_view()));
        }
    }

    fn node_kind(&self) -> (kind: &'static str) {
        USE_DECLARATION
    }
}

/// The extractor of module declarations.
pub struct ModInfoExtractor {}

impl InfoExtractor for ModInfoExtractor {
    open spec fn kind_tag(&self) -> Seq<char> {
        MOD_ITEM@
    }

    open spec fn record(
        &self,
        node: SyntaxTree,
        preceding: Seq<SyntaxTree>,
        code: Seq<char>,
        file_path: Seq<char>,
    ) -> RecordModel {
        RecordModel::Mod(rules::mod_info(node, code, file_path))
    }

    fn extract(
        &self,
        node: &SyntaxNode,
        preceding: &[SyntaxNode],
        code: &str,
        file_path: String,
        extracted_data_: &mut ExtractedData,
    ) {
        if node.is_kind(MOD_ITEM) {
            let info = extract_mod_info(node, code, file_path);
            let ghost before = extracted_data_.mods.deep_view();
            extracted_data_.mods.push(info);
            assert(extracted_data_.mods.deep_view() =~= before.push(info.deep_view()));
        }
    }

    fn node_kind(&self) -> (kind: &'static str) {
        MOD_ITEM
    }
}

/// The extractor of enum declarations.
pub struct EnumInfoExtractor {}

impl InfoExtractor for EnumInfoExtractor {
    open spec fn kind_tag(&self) -> Seq<char> {
        ENUM_ITEM@
    }

    open spec fn record(
        &self,
        node: SyntaxTree,
        preceding: Seq<SyntaxTree>,
        code: Seq<char>,
        file_path: Seq<char>,
    ) -> RecordModel {
        RecordModel::Enum(rules::enum_info(node, code, file_path))
    }

    fn extract(
        &self,
        node: &SyntaxNode,
        preceding: &[SyntaxNode],
        code: &str,
        file_path: String,
        extracted_data_: &mut ExtractedData,
    ) {
        if node.is_kind(ENUM_ITEM) {
            let info = extract_enum_info(node, code, file_path);
            let ghost before = extracted_data_.enums.deep_view();
            extracted_data_.enums.push(info);
            assert(extracted_data_.enums.deep_view() =~= before.push(info.deep_view()));
        }
    }

    fn node_kind(&self) -> (kind: &'static str) {
        ENUM_ITEM
    }
}

/// The extractor of macro invocations.
pub struct MacroInfoExtractor {}

impl InfoExtractor for MacroInfoExtractor {
    open spec fn kind_tag(&self) -> Seq<char> {
        MACRO_INVOCATION@
    }

    open spec fn record(
        &self,
        node: SyntaxTree,
        preceding: Seq<SyntaxTree>,
        code: Seq<char>,
        file_path: Seq<char>,
    ) -> RecordModel {
        RecordModel::Macro(rules::macro_info(node, code, file_path))
    }

    fn extract(
        &self,
        node: &SyntaxNode,
        preceding: &[SyntaxNode],
        code: &str,
        file_path: String,
        extracted_data_: &mut ExtractedData,
    ) {
        if node.is_kind(MACRO_INVOCATION) {
            let info = extract_macro_info(node, code, file_path);
            let ghost before = extracted_data_.macros.deep_view();
            extracted_data_.macros.push(info);
            assert(extracted_data_.macros.deep_view() =~= before.push(info.deep_view()));
        }
    }

    fn node_kind(&self) -> (kind: &'static str) {
        MACRO_INVOCATION
    }
}

} // verus!
