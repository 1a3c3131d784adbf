//! The interfaces of the native library's code navigation service, as far
//! as the wrappers call them.

use vstd::prelude::*;
use crate::ffi::{CLSID, IID};
use crate::os::{HRESULT, WCHAR};
use crate::unknown::IDxcUnknownShim;

verus! {

/// The class of the code navigation service.
#[allow(non_upper_case_globals)]
pub const CLSID_DxcIntelliSense: CLSID = 0x3047833c_d1c0_4b8e_9d40_102878605985;

pub const IID_IDXC_INTELLI_SENSE: IID = 0xb1f99513_46d6_4112_8169_dd0d6053f17d;

/// Options for parsing a translation unit, as a set of bits.
#[derive(Clone, Copy, Debug, PartialEq, Eq, Structural)]
pub struct DxcTranslationUnitFlags(pub u32);

/// The kind of entity that a cursor points at.
#[derive(Clone, Copy, Debug, PartialEq, Eq, Structural)]
pub struct DxcCursorKind(pub u32);

/// Properties of a cursor's kind, as a set of bits.
#[derive(Clone, Copy, Debug, PartialEq, Eq, Structural)]
pub struct DxcCursorKindFlags(pub u32);

/// Options for writing a cursor's name, as a set of bits.
#[derive(Clone, Copy, Debug, PartialEq, Eq, Structural)]
pub struct DxcCursorFormatting(pub u32);

/// A file known to a translation unit.
pub trait IDxcFile: IDxcUnknownShim {

}

/// A position in a source file.
pub trait IDxcSourceLocation: IDxcUnknownShim {

}

/// A stretch of a source file.
pub trait IDxcSourceRange: IDxcUnknownShim {
    /// The status, and the byte offsets of the stretch's start and end.
    fn get_offsets(&self) -> (HRESULT, u32, u32);
}

/// The type of an entity.
pub trait IDxcType: IDxcUnknownShim {
    /// The status, and the type's spelling as a zero-terminated byte
    /// string.
    fn get_spelling(&self) -> (HRESULT, Vec<u8>);
}

/// A file whose contents are given in memory.
pub trait IDxcUnsavedFile: IDxcUnknownShim {
    fn get_length(&self) -> (HRESULT, u32);
}

/// A pointer to an entity of a translation unit. Names come as counted
/// wide strings, spellings as zero-terminated byte strings.
pub trait IDxcCursor: IDxcUnknownShim + Sized {
    type File: IDxcFile;

    type SourceLocation: IDxcSourceLocation;

    type SourceRange: IDxcSourceRange;

    type Type: IDxcType;

    fn get_extent(&self) -> (HRESULT, Option<Self::SourceRange>);

    fn get_location(&self) -> (HRESULT, Option<Self::SourceLocation>);

    fn get_kind(&self) -> (HRESULT, DxcCursorKind);

    fn get_kind_flags(&self) -> (HRESULT, DxcCursorKindFlags);

    fn get_semantic_parent(&self) -> (HRESULT, Option<Self>);

    fn get_lexical_parent(&self) -> (HRESULT, Option<Self>);

    fn get_cursor_type(&self) -> (HRESULT, Option<Self::Type>);

    fn get_num_arguments(&self) -> (HRESULT, i32);

    fn get_argument_at(&self, index: i32) -> (HRESULT, Option<Self>);

    fn get_referenced_cursor(&self) -> (HRESULT, Option<Self>);

    fn get_definition_cursor(&self) -> (HRESULT, Option<Self>);

    /// The status, and up to `top` references after the first `skip`.
    fn find_references_in_file(&self, file: &Self::File, skip: u32, top: u32) -> (
        HRESULT,
        Vec<Self>,
    );

    fn get_spelling(&self) -> (HRESULT, Vec<u8>);

    fn is_equal_to(&self, other: &Self) -> (HRESULT, bool);

    fn is_null(&self) -> (HRESULT, bool);

    fn is_definition(&self) -> (HRESULT, bool);

    fn get_display_name(&self) -> (HRESULT, Vec<WCHAR>);

    fn get_qualified_name(&self, include_template_args: bool) -> (HRESULT, Vec<WCHAR>);

    fn get_formatted_name(&self, formatting: DxcCursorFormatting) -> (HRESULT, Vec<WCHAR>);

    /// The status, and up to `max_count` children after the first `skip`.
    fn get_children(&self, skip: u32, max_count: u32) -> (HRESULT, Vec<Self>);

    fn get_snapped_child(&self, location: &Self::SourceLocation) -> (HRESULT, Option<Self>);
}

/// A parsed source file with all that it pulls in.
pub trait IDxcTranslationUnit: IDxcUnknownShim {
    type Cursor: IDxcCursor;

    type File: IDxcFile;

    /// `name` is a zero-terminated byte string.
    fn get_file(&self, name: &[u8]) -> (HRESULT, Option<Self::File>);

    fn get_cursor(&self) -> (HRESULT, Option<Self::Cursor>);
}

/// A set of translation units. Texts are zero-terminated byte strings.
pub trait IDxcIndex: IDxcUnknownShim {
    type TranslationUnit: IDxcTranslationUnit;

    type UnsavedFile: IDxcUnsavedFile;

    fn parse_translation_unit(
        &self,
        source_filename: &[u8],
        command_line_args: &[Vec<u8>],
        unsaved_files: &[&Self::UnsavedFile],
        options: DxcTranslationUnitFlags,
    ) -> (HRESULT, Option<Self::TranslationUnit>);
}

/// The code navigation service. Texts are zero-terminated byte strings.
pub trait IDxcIntelliSense: IDxcUnknownShim {
    type Index: IDxcIndex;

    type UnsavedFile: IDxcUnsavedFile;

    fn get_default_editing_tu_options(&self) -> (HRESULT, DxcTranslationUnitFlags);

    fn create_index(&self) -> (HRESULT, Option<Self::Index>);

    fn create_unsaved_file(&self, file_name: &[u8], contents: &[u8], contents_length: u32) -> (
        HRESULT,
        Option<Self::UnsavedFile>,
    );
}

} // verus!
