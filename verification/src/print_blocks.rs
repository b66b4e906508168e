//! The source text of a record: the bytes of its file that its range spans.

use vstd::prelude::*;
use crate::records::{
    EnumInfo, FunctionInfo, ImplInfo, MacroInfo, ModInfo, StructInfo, TypeAliasInfo,
    UseDependencyInfo,
};
use crate::store::{ExtractedData, ExtractedDataModel, RecordModel};
use crate::text::slice_text;

verus! {

/// The text that the byte range of `record` spans in the text that the
/// store holds of the record's file; nothing where the store does not hold
/// the file or the range cannot be read.
pub open spec fn block_of(data: ExtractedDataModel, record: RecordModel) -> Option<Seq<char>> {
    if data.file_contents.contains_key(record.file_path()) {
        slice_text(
            data.file_contents[record.file_path()],
            record.start_position() as int,
            record.end_position() as int,
        )
    } else {
        None
    }
}

/// A record whose source text can be looked up in the store.
pub trait PrintBlock {
    /// The record as one of the store's records.
    spec fn as_record(&self) -> RecordModel;

    /// The source text of the record.
    fn print_block(&self, extracted_data: &ExtractedData) -> (block: Option<String>)
        ensures
            block.deep_view() == block_of(extracted_data.deep_view(), self.as_record()),
    ;
}

/// The source text of every record of a sliceable store can be looked up.
pub proof fn lemma_block_of_held_record(data: ExtractedDataModel, record: RecordModel)
    requires
        data.sliceable(),
        data.holds(record),
    ensures
        block_of(data, record) is Some,
{
}

impl PrintBlock for StructInfo {
    open spec fn as_record(&self) -> RecordModel {
        RecordModel::Struct(self.deep_view())
    }

    fn print_block(&self, extracted_data: &ExtractedData) -> (block: Option<String>) {
        extracted_data.source_block(
            self.file_path.as_str(),
            self.start_position,
            self.end_position,
        )
    }
}

impl PrintBlock for FunctionInfo {
    open spec fn as_record(&self) -> RecordModel {
        RecordModel::Function(self.deep_view())
    }

    fn print_block(&self, extracted_data: &ExtractedData) -> (block: Option<String>) {
        extracted_data.source_block(
            self.file_path.as_str(),
            self.start_position,
            self.end_position,
        )
    }
}

impl PrintBlock for TypeAliasInfo {
    open spec fn as_record(&self) -> RecordModel {
        RecordModel::TypeAlias(self.deep_view())
    }

    fn print_block(&self, extracted_data: &ExtractedData) -> (block: Option<String>) {
        extracted_data.source_block(
            self.file_path.as_str(),
            self.start_position,
            self.end_position,
        )
    }
}

impl PrintBlock for ImplInfo {
    open spec fn as_record(&self) -> RecordModel {
        RecordModel::Impl(self.deep_view())
    }

    fn print_block(&self, extracted_data: &ExtractedData) -> (block: Option<String>) {
        extracted_data.source_block(
            self.file_path.as_str(),
            self.start_position,
            self.end_position,
        )
    }
}

impl PrintBlock for UseDependencyInfo {
    open spec fn as_record(&self) -> RecordModel {
        RecordModel::UseDependency(self.deep_view())
    }

    fn print_block(&self, extracted_data: &ExtractedData) -> (block: Option<String>) {
        extracted_data.source_block(
            self.file_path.as_str(),
            self.start_position,
            self.end_position,
        )
    }
}

impl PrintBlock for ModInfo {
    open spec fn as_record(&self) -> RecordModel {
        RecordModel::Mod(self.deep_view())
    }

    fn print_block(&self, extracted_data: &ExtractedData) -> (block: Option<String>) {
        extracted_data.source_block(
            self.file_path.as_str(),
            self.start_position,
            self.end_position,
        )
    }
}

impl PrintBlock for EnumInfo {
    open spec fn as_record(&self) -> RecordModel {
        RecordModel::Enum(self.deep_view())
    }

    fn print_block(&self, extracted_data: &ExtractedData) -> (block: Option<String>) {
        extracted_data.source_block(
            self.file_path.as_str(),
            self.start_position,
            self.end_position,
        )
    }
}

impl PrintBlock for MacroInfo {
    open spec fn as_record(&self) -> RecordModel {
        RecordModel::Macro(self.deep_view())
    }

    fn print_block(&self, extracted_data: &ExtractedData) -> (block: Option<String>) {
        extracted_data.source_block(
            self.file_path.as_str(),
            self.start_position,
            self.end_position,
        )
    }
}

} // verus!
