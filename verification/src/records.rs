//! The records that the index holds, one type for each kind of declaration,
//! and the mathematical model of each.

use vstd::prelude::*;

verus! {

/// The shape of an enum variant's payload.
#[derive(Clone, Debug)]
pub enum EnumVariantType {
    /// No payload.
    Unit,
    /// Unnamed fields: their types, as written, in declared order.
    Tuple(Vec<String>),
    /// Named fields: each name with its type, as written, in declared order.
    Struct(Vec<(String, String)>),
    /// No shape was determined.
    Unspecified,
}

/// The mathematical model of an [`EnumVariantType`].
pub ghost enum EnumVariantTypeModel {
    Unit,
    Tuple(Seq<Seq<char>>),
    Struct(Seq<(Seq<char>, Seq<char>)>),
    Unspecified,
}

impl DeepView for EnumVariantType {
    type V = EnumVariantTypeModel;

    open spec fn deep_view(&self) -> EnumVariantTypeModel {
        match self {
            EnumVariantType::Unit => EnumVariantTypeModel::Unit,
            EnumVariantType::Tuple(types) => EnumVariantTypeModel::Tuple(types.deep_view()),
            EnumVariantType::Struct(fields) => EnumVariantTypeModel::Struct(fields.deep_view()),
            EnumVariantType::Unspecified => EnumVariantTypeModel::Unspecified,
        }
    }
}

impl Default for EnumVariantType {
    fn default() -> (shape: EnumVariantType)
        ensures
            shape.deep_view() == EnumVariantTypeModel::Unspecified,
    {
        EnumVariantType::Unspecified
    }
}

/// One parameter of a function, other than its receiver.
#[derive(Clone, Debug)]
pub struct ParameterInfo {
    /// The parameter's identifier.
    pub name: String,
    /// The parameter's type, as written.
    pub type_text: String,
}

/// The mathematical model of a [`ParameterInfo`].
pub ghost struct ParameterInfoModel {
    pub name: Seq<char>,
    pub type_text: Seq<char>,
}

impl ParameterInfoModel {
    /// The record with every part left at its default.
    pub open spec fn empty() -> ParameterInfoModel {
        ParameterInfoModel {
            name: Seq::empty(),
            type_text: Seq::empty(),
        }
    }
}

impl DeepView for ParameterInfo {
    type V = ParameterInfoModel;

    open spec fn deep_view(&self) -> ParameterInfoModel {
        ParameterInfoModel {
            name: self.name@,
            type_text: self.type_text@,
        }
    }
}

impl Default for ParameterInfo {
    fn default() -> (record: ParameterInfo)
        ensures
            record.deep_view() == ParameterInfoModel::empty(),
    {
        let record = ParameterInfo {
            name: String::new(),
            type_text: String::new(),
        };
        record
    }
}

/// One named field of a struct.
#[derive(Clone, Debug)]
pub struct FieldInfo {
    /// The field's identifier.
    pub name: String,
    /// The field's type, as written.
    pub type_text: String,
    /// Whether the field carries a visibility modifier.
    pub is_pub: bool,
}

/// The mathematical model of a [`FieldInfo`].
pub ghost struct FieldInfoModel {
    pub name: Seq<char>,
    pub type_text: Seq<char>,
    pub is_pub: bool,
}

impl FieldInfoModel {
    /// The record with every part left at its default.
    pub open spec fn empty() -> FieldInfoModel {
        FieldInfoModel {
            name: Seq::empty(),
            type_text: Seq::empty(),
            is_pub: false,
        }
    }
}

impl DeepView for FieldInfo {
    type V = FieldInfoModel;

    open spec fn deep_view(&self) -> FieldInfoModel {
        FieldInfoModel {
            name: self.name@,
            type_text: self.type_text@,
            is_pub: self.is_pub,
        }
    }
}

impl Default for FieldInfo {
    fn default() -> (record: FieldInfo)
        ensures
            record.deep_view() == FieldInfoModel::empty(),
    {
        let record = FieldInfo {
            name: String::new(),
            type_text: String::new(),
            is_pub: false,
        };
        record
    }
}

/// One variant of an enum.
#[derive(Clone, Debug)]
pub struct EnumVariantInfo {
    /// The variant's identifier.
    pub name: String,
    /// The shape of the variant's payload.
    pub variant_type: EnumVariantType,
}

/// The mathematical model of a [`EnumVariantInfo`].
pub ghost struct EnumVariantInfoModel {
    pub name: Seq<char>,
    pub variant_type: EnumVariantTypeModel,
}

impl EnumVariantInfoModel {
    /// The record with every part left at its default.
    pub open spec fn empty() -> EnumVariantInfoModel {
        EnumVariantInfoModel {
            name: Seq::empty(),
            variant_type: EnumVariantTypeModel::Unspecified,
        }
    }
}

impl DeepView for EnumVariantInfo {
    type V = EnumVariantInfoModel;

    open spec fn deep_view(&self) -> EnumVariantInfoModel {
        EnumVariantInfoModel {
            name: self.name@,
            variant_type: self.variant_type.deep_view(),
        }
    }
}

impl Default for EnumVariantInfo {
    fn default() -> (record: EnumVariantInfo)
        ensures
            record.deep_view() == EnumVariantInfoModel::empty(),
    {
        let record = EnumVariantInfo {
            name: String::new(),
            variant_type: EnumVariantType::Unspecified,
        };
        record
    }
}

/// An enum declaration.
#[derive(Clone, Debug)]
pub struct EnumInfo {
    /// The enum's name.
    pub name: String,
    /// The variants, in declared order.
    pub variants: Vec<EnumVariantInfo>,
    /// Whether the declaration carries a visibility modifier.
    pub is_pub: bool,
    /// Byte offset at which the declaration starts.
    pub start_position: usize,
    /// Byte offset one past the declaration's extent.
    pub end_position: usize,
    /// The file that holds the declaration.
    pub file_path: String,
}

/// The mathematical model of a [`EnumInfo`].
pub ghost struct EnumInfoModel {
    pub name: Seq<char>,
    pub variants: Seq<EnumVariantInfoModel>,
    pub is_pub: bool,
    pub start_position: usize,
    pub end_position: usize,
    pub file_path: Seq<char>,
}

impl EnumInfoModel {
    /// The record with every part left at its default.
    pub open spec fn empty() -> EnumInfoModel {
        EnumInfoModel {
            name: Seq::empty(),
            variants: Seq::empty(),
            is_pub: false,
            start_position: 0,
            end_position: 0,
            file_path: Seq::empty(),
        }
    }
}

impl DeepView for EnumInfo {
    type V = EnumInfoModel;

    open spec fn deep_view(&self) -> EnumInfoModel {
        EnumInfoModel {
            name: self.name@,
            variants: self.variants.deep_view(),
            is_pub: self.is_pub,
            start_position: self.start_position,
            end_position: self.end_position,
            file_path: self.file_path@,
        }
    }
}

impl Default for EnumInfo {
    fn default() -> (record: EnumInfo)
        ensures
            record.deep_view() == EnumInfoModel::empty(),
    {
        let record = EnumInfo {
            name: String::new(),
            variants: Vec::new(),
            is_pub: false,
            start_position: 0,
            end_position: 0,
            file_path: String::new(),
        };
        assert(record.variants.deep_view() =~= Seq::empty());
        record
    }
}

/// A module declaration.
#[derive(Clone, Debug)]
pub struct ModInfo {
    /// The module's name.
    pub name: String,
    /// Whether the declaration carries a visibility modifier.
    pub is_pub: bool,
    /// Byte offset at which the declaration starts.
    pub start_position: usize,
    /// Byte offset one past the declaration's extent.
    pub end_position: usize,
    /// The file that holds the declaration.
    pub file_path: String,
}

/// The mathematical model of a [`ModInfo`].
pub ghost struct ModInfoModel {
    pub name: Seq<char>,
    pub is_pub: bool,
    pub start_position: usize,
    pub end_position: usize,
    pub file_path: Seq<char>,
}

impl ModInfoModel {
    /// The record with every part left at its default.
    pub open spec fn empty() -> ModInfoModel {
        ModInfoModel {
            name: Seq::empty(),
            is_pub: false,
            start_position: 0,
            end_position: 0,
            file_path: Seq::empty(),
        }
    }
}

impl DeepView for ModInfo {
    type V = ModInfoModel;

    open spec fn deep_view(&self) -> ModInfoModel {
        ModInfoModel {
            name: self.name@,
            is_pub: self.is_pub,
            start_position: self.start_position,
            end_position: self.end_position,
            file_path: self.file_path@,
        }
    }
}

impl Default for ModInfo {
    fn default() -> (record: ModInfo)
        ensures
            record.deep_view() == ModInfoModel::empty(),
    {
        let record = ModInfo {
            name: String::new(),
            is_pub: false,
            start_position: 0,
            end_position: 0,
            file_path: String::new(),
        };
        record
    }
}

/// A macro invocation.
#[derive(Clone, Debug)]
pub struct MacroInfo {
    /// The invoked macro's path, as written.
    pub name: String,
    /// Byte offset at which the invocation starts.
    pub start_position: usize,
    /// Byte offset one past the invocation's extent.
    pub end_position: usize,
    /// The file that holds the invocation.
    pub file_path: String,
}

/// The mathematical model of a [`MacroInfo`].
pub ghost struct MacroInfoModel {
    pub name: Seq<char>,
    pub start_position: usize,
    pub end_position: usize,
    pub file_path: Seq<char>,
}

impl MacroInfoModel {
    /// The record with every part left at its default.
    pub open spec fn empty() -> MacroInfoModel {
        MacroInfoModel {
            name: Seq::empty(),
            start_position: 0,
            end_position: 0,
            file_path: Seq::empty(),
        }
    }
}

impl DeepView for MacroInfo {
    type V = MacroInfoModel;

    open spec fn deep_view(&self) -> MacroInfoModel {
        MacroInfoModel {
            name: self.name@,
            start_position: self.start_position,
            end_position: self.end_position,
            file_path: self.file_path@,
        }
    }
}

impl Default for MacroInfo {
    fn default() -> (record: MacroInfo)
        ensures
            record.deep_view() == MacroInfoModel::empty(),
    {
        let record = MacroInfo {
            name: String::new(),
            start_position: 0,
            end_position: 0,
            file_path: String::new(),
        };
        record
    }
}

/// A struct declaration.
#[derive(Clone, Debug)]
pub struct StructInfo {
    /// The struct's name.
    pub name: String,
    /// Whether the declaration carries a visibility modifier.
    pub is_pub: bool,
    /// The documentation lines that lead up to the declaration, joined by line feeds.
    pub doc_comment: Option<String>,
    /// The attribute items that lead up to the declaration, in source order.
    pub attributes: Vec<String>,
    /// The named fields, in declared order.
    pub fields: Vec<FieldInfo>,
    /// Byte offset at which the declaration starts.
    pub start_position: usize,
    /// Byte offset one past the declaration's extent.
    pub end_position: usize,
    /// The file that holds the declaration.
    pub file_path: String,
}

/// The mathematical model of a [`StructInfo`].
pub ghost struct StructInfoModel {
    pub name: Seq<char>,
    pub is_pub: bool,
    pub doc_comment: Option<Seq<char>>,
    pub attributes: Seq<Seq<char>>,
    pub fields: Seq<FieldInfoModel>,
    pub start_position: usize,
    pub end_position: usize,
    pub file_path: Seq<char>,
}

impl StructInfoModel {
    /// The record with every part left at its default.
    pub open spec fn empty() -> StructInfoModel {
        StructInfoModel {
            name: Seq::empty(),
            is_pub: false,
            doc_comment: None,
            attributes: Seq::empty(),
            fields: Seq::empty(),
            start_position: 0,
            end_position: 0,
            file_path: Seq::empty(),
        }
    }
}

impl DeepView for StructInfo {
    type V = StructInfoModel;

    open spec fn deep_view(&self) -> StructInfoModel {
        StructInfoModel {
            name: self.name@,
            is_pub: self.is_pub,
            doc_comment: self.doc_comment.deep_view(),
            attributes: self.attributes.deep_view(),
            fields: self.fields.deep_view(),
            start_position: self.start_position,
            end_position: self.end_position,
            file_path: self.file_path@,
        }
    }
}

impl Default for StructInfo {
    fn default() -> (record: StructInfo)
        ensures
            record.deep_view() == StructInfoModel::empty(),
    {
        let record = StructInfo {
            name: String::new(),
            is_pub: false,
            doc_comment: None,
            attributes: Vec::new(),
            fields: Vec::new(),
            start_position: 0,
            end_position: 0,
            file_path: String::new(),
        };
        assert(record.attributes.deep_view() =~= Seq::empty());
        assert(record.fields.deep_view() =~= Seq::empty());
        record
    }
}

/// An impl block.
#[derive(Clone, Debug)]
pub struct ImplInfo {
    /// The type that the block implements, as written.
    pub name: String,
    /// Whether the block carries a visibility modifier.
    pub is_pub: bool,
    /// Byte offset at which the block starts.
    pub start_position: usize,
    /// Byte offset one past the block's extent.
    pub end_position: usize,
    /// The file that holds the block.
    pub file_path: String,
}

/// The mathematical model of a [`ImplInfo`].
pub ghost struct ImplInfoModel {
    pub name: Seq<char>,
    pub is_pub: bool,
    pub start_position: usize,
    pub end_position: usize,
    pub file_path: Seq<char>,
}

impl ImplInfoModel {
    /// The record with every part left at its default.
    pub open spec fn empty() -> ImplInfoModel {
        ImplInfoModel {
            name: Seq::empty(),
            is_pub: false,
            start_position: 0,
            end_position: 0,
            file_path: Seq::empty(),
        }
    }
}

impl DeepView for ImplInfo {
    type V = ImplInfoModel;

    open spec fn deep_view(&self) -> ImplInfoModel {
        ImplInfoModel {
            name: self.name@,
            is_pub: self.is_pub,
            start_position: self.start_position,
            end_position: self.end_position,
            file_path: self.file_path@,
        }
    }
}

impl Default for ImplInfo {
    fn default() -> (record: ImplInfo)
        ensures
            record.deep_view() == ImplInfoModel::empty(),
    {
        let record = ImplInfo {
            name: String::new(),
            is_pub: false,
            start_position: 0,
            end_position: 0,
            file_path: String::new(),
        };
        record
    }
}

/// A use declaration.
#[derive(Clone, Debug)]
pub struct UseDependencyInfo {
    /// The identifiers of the imported path, in order; `*` for a wildcard.
    pub segments: Vec<String>,
    /// The name that an `as` clause gives the import.
    pub alias: Option<String>,
    /// Whether the declaration carries a visibility modifier.
    pub is_pub: bool,
    /// Byte offset at which the declaration starts.
    pub start_position: usize,
    /// Byte offset one past the declaration's extent.
    pub end_position: usize,
    /// The file that holds the declaration.
    pub file_path: String,
}

/// The mathematical model of a [`UseDependencyInfo`].
pub ghost struct UseDependencyInfoModel {
    pub segments: Seq<Seq<char>>,
    pub alias: Option<Seq<char>>,
    pub is_pub: bool,
    pub start_position: usize,
    pub end_position: usize,
    pub file_path: Seq<char>,
}

impl UseDependencyInfoModel {
    /// The record with every part left at its default.
    pub open spec fn empty() -> UseDependencyInfoModel {
        UseDependencyInfoModel {
            segments: Seq::empty(),
            alias: None,
            is_pub: false,
            start_position: 0,
            end_position: 0,
            file_path: Seq::empty(),
        }
    }
}

impl DeepView for UseDependencyInfo {
    type V = UseDependencyInfoModel;

    open spec fn deep_view(&self) -> UseDependencyInfoModel {
        UseDependencyInfoModel {
            segments: self.segments.deep_view(),
            alias: self.alias.deep_view(),
            is_pub: self.is_pub,
            start_position: self.start_position,
            end_position: self.end_position,
            file_path: self.file_path@,
        }
    }
}

impl Default for UseDependencyInfo {
    fn default() -> (record: UseDependencyInfo)
        ensures
            record.deep_view() == UseDependencyInfoModel::empty(),
    {
        let record = UseDependencyInfo {
            segments: Vec::new(),
            alias: None,
            is_pub: false,
            start_position: 0,
            end_position: 0,
            file_path: String::new(),
        };
        assert(record.segments.deep_view() =~= Seq::empty());
        record
    }
}

/// A type alias.
#[derive(Clone, Debug)]
pub struct TypeAliasInfo {
    /// The alias's name.
    pub name: String,
    /// The aliased type, as written.
    pub aliased_type: String,
    /// Whether the declaration carries a visibility modifier.
    pub is_pub: bool,
    /// The attributes among the declaration's children, in order.
    pub attributes: Vec<String>,
    /// Byte offset at which the declaration starts.
    pub start_position: usize,
    /// Byte offset one past the declaration's extent.
    pub end_position: usize,
    /// The file that holds the declaration.
    pub file_path: String,
}

/// The mathematical model of a [`TypeAliasInfo`].
pub ghost struct TypeAliasInfoModel {
    pub name: Seq<char>,
    pub aliased_type: Seq<char>,
    pub is_pub: bool,
    pub attributes: Seq<Seq<char>>,
    pub start_position: usize,
    pub end_position: usize,
    pub file_path: Seq<char>,
}

impl TypeAliasInfoModel {
    /// The record with every part left at its default.
    pub open spec fn empty() -> TypeAliasInfoModel {
        TypeAliasInfoModel {
            name: Seq::empty(),
            aliased_type: Seq::empty(),
            is_pub: false,
            attributes: Seq::empty(),
            start_position: 0,
            end_position: 0,
            file_path: Seq::empty(),
        }
    }
}

impl DeepView for TypeAliasInfo {
    type V = TypeAliasInfoModel;

    open spec fn deep_view(&self) -> TypeAliasInfoModel {
        TypeAliasInfoModel {
            name: self.name@,
            aliased_type: self.aliased_type@,
            is_pub: self.is_pub,
            attributes: self.attributes.deep_view(),
            start_position: self.start_position,
            end_position: self.end_position,
            file_path: self.file_path@,
        }
    }
}

impl Default for TypeAliasInfo {
    fn default() -> (record: TypeAliasInfo)
        ensures
            record.deep_view() == TypeAliasInfoModel::empty(),
    {
        let record = TypeAliasInfo {
            name: String::new(),
            aliased_type: String::new(),
            is_pub: false,
            attributes: Vec::new(),
            start_position: 0,
            end_position: 0,
            file_path: String::new(),
        };
        assert(record.attributes.deep_view() =~= Seq::empty());
        record
    }
}

/// A function declaration.
#[derive(Clone, Debug)]
pub struct FunctionInfo {
    /// The function's name.
    pub name: String,
    /// The parameters other than the receiver, in declared order.
    pub parameters: Vec<ParameterInfo>,
    /// The return type, as written, where one is declared.
    pub return_type: Option<String>,
    /// Whether the declaration carries a visibility modifier.
    pub is_pub: bool,
    /// Whether the parameters hold a `self` receiver.
    pub is_method: bool,
    /// Byte offset at which the declaration starts.
    pub start_position: usize,
    /// Byte offset one past the declaration's extent.
    pub end_position: usize,
    /// The file that holds the declaration.
    pub file_path: String,
}

/// The mathematical model of a [`FunctionInfo`].
pub ghost struct FunctionInfoModel {
    pub name: Seq<char>,
    pub parameters: Seq<ParameterInfoModel>,
    pub return_type: Option<Seq<char>>,
    pub is_pub: bool,
    pub is_method: bool,
    pub start_position: usize,
    pub end_position: usize,
    pub file_path: Seq<char>,
}

impl FunctionInfoModel {
    /// The record with every part left at its default.
    pub open spec fn empty() -> FunctionInfoModel {
        FunctionInfoModel {
            name: Seq::empty(),
            parameters: Seq::empty(),
            return_type: None,
            is_pub: false,
            is_method: false,
            start_position: 0,
            end_position: 0,
            file_path: Seq::empty(),
        }
    }
}

impl DeepView for FunctionInfo {
    type V = FunctionInfoModel;

    open spec fn deep_view(&self) -> FunctionInfoModel {
        FunctionInfoModel {
            name: self.name@,
            parameters: self.parameters.deep_view(),
            return_type: self.return_type.deep_view(),
            is_pub: self.is_pub,
            is_method: self.is_method,
            start_position: self.start_position,
            end_position: self.end_position,
            file_path: self.file_path@,
        }
    }
}

impl Default for FunctionInfo {
    fn default() -> (record: FunctionInfo)
        ensures
            record.deep_view() == FunctionInfoModel::empty(),
    {
        let record = FunctionInfo {
            name: String::new(),
            parameters: Vec::new(),
            return_type: None,
            is_pub: false,
            is_method: false,
            start_position: 0,
            end_position: 0,
            file_path: String::new(),
        };
        assert(record.parameters.deep_view() =~= Seq::empty());
        record
    }
}


} // verus!
