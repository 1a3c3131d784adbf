use std::cell::RefCell;
use std::rc::Rc;

use hassle_rs::ffi::{DxcCreateInstanceProc, CLSID, IID};
use hassle_rs::intellisense::ffi::{
    CLSID_DxcIntelliSense, DxcCursorFormatting, DxcCursorKind, DxcCursorKindFlags,
    DxcTranslationUnitFlags, IDxcCursor, IDxcFile, IDxcIndex, IDxcIntelliSense,
    IDxcSourceLocation, IDxcSourceRange, IDxcTranslationUnit, IDxcType, IDxcUnsavedFile,
    IID_IDXC_INTELLI_SENSE,
};
use hassle_rs::intellisense::wrapper::{
    all_zero_free, return_cursor, return_cursors, return_name, return_spelling, source_slice,
    wrap_cursors,
    DxcCursor, DxcFile, DxcIndex, DxcIntellisense, DxcSourceLocation, DxcSourceOffsets,
    DxcSourceRange, DxcTranslationUnit, DxcType, DxcUnsavedFile, MAX_CHILDREN_PER_CHUNK,
};
use hassle_rs::os::{Platform, HRESULT, WCHAR};
use hassle_rs::unknown::IDxcUnknownShim;
use hassle_rs::utils::HassleError;
use hassle_rs::wrapper::{Dxc, DxcModule};

const E_FAIL: i32 = -2147467259;
const E_INVALIDARG: i32 = -2147024809;
const E_POINTER: i32 = -2147467261;

#[derive(Clone, Debug, PartialEq)]
struct MockFile(u32);

impl IDxcUnknownShim for MockFile {}

impl IDxcFile for MockFile {}

#[derive(Clone, Debug, PartialEq)]
struct MockLocation(u32);

impl IDxcUnknownShim for MockLocation {}

impl IDxcSourceLocation for MockLocation {}

#[derive(Clone, Debug, PartialEq)]
struct MockRange {
    status: i32,
    start: u32,
    end: u32,
}

impl IDxcUnknownShim for MockRange {}

impl IDxcSourceRange for MockRange {
    fn get_offsets(&self) -> (HRESULT, u32, u32) {
        (HRESULT(self.status), self.start, self.end)
    }
}

#[derive(Clone, Debug, PartialEq)]
struct MockType(&'static str);

impl IDxcUnknownShim for MockType {}

impl IDxcType for MockType {
    fn get_spelling(&self) -> (HRESULT, Vec<u8>) {
        let mut bytes = self.0.as_bytes().to_vec();
        bytes.push(0);
        (HRESULT(0), bytes)
    }
}

#[derive(Clone, Debug, PartialEq)]
struct MockUnsaved {
    status: i32,
    name: Vec<u8>,
    contents: Vec<u8>,
    length: u32,
}

impl IDxcUnknownShim for MockUnsaved {}

impl IDxcUnsavedFile for MockUnsaved {
    fn get_length(&self) -> (HRESULT, u32) {
        (HRESULT(self.status), self.length)
    }
}

#[derive(Clone, Debug, PartialEq)]
struct MockCursor {
    id: u32,
    status: i32,
    children: Vec<u32>,
    extent: Option<(u32, u32)>,
    offsets_status: i32,
    fail_after: Option<u32>,
    overfull: bool,
    requests: Rc<RefCell<Vec<(u32, u32)>>>,
}

fn cursor(id: u32) -> MockCursor {
    MockCursor {
        id,
        status: 0,
        children: vec![],
        extent: None,
        offsets_status: 0,
        fail_after: None,
        overfull: false,
        requests: Rc::new(RefCell::new(vec![])),
    }
}

fn parent_of(count: u32) -> MockCursor {
    let mut parent = cursor(1000);
    parent.children = (0..count).collect();
    parent
}

fn units(text: &str) -> Vec<WCHAR> {
    text.chars().map(|c| c as u32).collect()
}

impl IDxcUnknownShim for MockCursor {}

impl IDxcCursor for MockCursor {
    type File = MockFile;
    type SourceLocation = MockLocation;
    type SourceRange = MockRange;
    type Type = MockType;

    fn get_extent(&self) -> (HRESULT, Option<MockRange>) {
        let range = self.extent.map(|(start, end)| MockRange { status: self.offsets_status, start, end });
        (HRESULT(self.status), range)
    }

    fn get_location(&self) -> (HRESULT, Option<MockLocation>) {
        (HRESULT(self.status), Some(MockLocation(self.id)))
    }

    fn get_kind(&self) -> (HRESULT, DxcCursorKind) {
        (HRESULT(self.status), DxcCursorKind(self.id + 1))
    }

    fn get_kind_flags(&self) -> (HRESULT, DxcCursorKindFlags) {
        (HRESULT(self.status), DxcCursorKindFlags(self.id + 2))
    }

    fn get_semantic_parent(&self) -> (HRESULT, Option<Self>) {
        (HRESULT(self.status), Some(cursor(self.id + 10)))
    }

    fn get_lexical_parent(&self) -> (HRESULT, Option<Self>) {
        (HRESULT(self.status), Some(cursor(self.id + 20)))
    }

    fn get_cursor_type(&self) -> (HRESULT, Option<MockType>) {
        (HRESULT(self.status), Some(MockType("float4")))
    }

    fn get_num_arguments(&self) -> (HRESULT, i32) {
        (HRESULT(self.status), -1)
    }

    fn get_argument_at(&self, index: i32) -> (HRESULT, Option<Self>) {
        (HRESULT(self.status), if index >= 0 { Some(cursor(index as u32)) } else { None })
    }

    fn get_referenced_cursor(&self) -> (HRESULT, Option<Self>) {
        (HRESULT(self.status), Some(cursor(self.id + 30)))
    }

    fn get_definition_cursor(&self) -> (HRESULT, Option<Self>) {
        (HRESULT(self.status), Some(cursor(self.id + 40)))
    }

    fn find_references_in_file(&self, file: &MockFile, skip: u32, top: u32) -> (HRESULT, Vec<Self>) {
        let found = (skip..skip + top).map(|i| cursor(file.0 * 100 + i)).collect();
        (HRESULT(self.status), found)
    }

    fn get_spelling(&self) -> (HRESULT, Vec<u8>) {
        (HRESULT(self.status), b"main\0junk".to_vec())
    }

    fn is_equal_to(&self, other: &Self) -> (HRESULT, bool) {
        (HRESULT(self.status), self.id == other.id)
    }

    fn is_null(&self) -> (HRESULT, bool) {
        (HRESULT(self.status), self.id == 0)
    }

    fn is_definition(&self) -> (HRESULT, bool) {
        (HRESULT(self.status), self.id % 2 == 1)
    }

    fn get_display_name(&self) -> (HRESULT, Vec<WCHAR>) {
        (HRESULT(self.status), units("main(float4)"))
    }

    fn get_qualified_name(&self, include_template_args: bool) -> (HRESULT, Vec<WCHAR>) {
        (HRESULT(self.status), units(if include_template_args { "ns::f<int>" } else { "ns::f" }))
    }

    fn get_formatted_name(&self, formatting: DxcCursorFormatting) -> (HRESULT, Vec<WCHAR>) {
        (HRESULT(self.status), units(&format!("formatted:{}", formatting.0)))
    }

    fn get_children(&self, skip: u32, max_count: u32) -> (HRESULT, Vec<Self>) {
        self.requests.borrow_mut().push((skip, max_count));
        if let Some(limit) = self.fail_after {
            if skip >= limit {
                return (HRESULT(E_FAIL), vec![cursor(7)]);
            }
        }
        let take = if self.overfull { max_count as usize + 2 } else { max_count as usize };
        let chunk = self.children.iter().skip(skip as usize).take(take).map(|id| cursor(*id)).collect();
        (HRESULT(self.status), chunk)
    }

    fn get_snapped_child(&self, location: &MockLocation) -> (HRESULT, Option<Self>) {
        (HRESULT(self.status), Some(cursor(location.0)))
    }
}

fn wrap(mock: MockCursor) -> DxcCursor<MockCursor> {
    DxcCursor::new(mock, Platform::Linux)
}

fn ids(cursors: &[DxcCursor<MockCursor>]) -> Vec<u32> {
    cursors.iter().map(|c| c.inner.id).collect()
}

// ---- pure helpers ----

#[test]
fn names_are_decoded_unless_the_status_fails() {
    assert_eq!(return_name(Platform::Linux, HRESULT(0), units("f\u{1F600}")), Ok("f\u{1F600}".to_string()));
    assert_eq!(return_name(Platform::Windows, HRESULT(0), vec![0xD83D, 0xDE00]), Ok("\u{1F600}".to_string()));
    assert_eq!(return_name(Platform::Linux, HRESULT(E_FAIL), units("f")), Err(HRESULT(E_FAIL)));
}

#[test]
fn spellings_are_read_up_to_the_terminator() {
    assert_eq!(return_spelling(HRESULT(0), b"int\0x".to_vec()), Ok("int".to_string()));
    assert_eq!(return_spelling(HRESULT(1), b"int".to_vec()), Ok("int".to_string()));
    assert_eq!(return_spelling(HRESULT(E_FAIL), b"int\0".to_vec()), Err(HRESULT(E_FAIL)));
}

#[test]
fn a_malformed_spelling_is_an_invalid_argument() {
    assert_eq!(return_spelling(HRESULT(0), vec![b'a', 0xFF, 0]), Err(HRESULT(E_INVALIDARG)));
    assert_eq!(return_spelling(HRESULT(0), vec![b'a', 0, 0xFF]), Ok("a".to_string()));
    assert_eq!(return_spelling(HRESULT(E_FAIL), vec![0xFF]), Err(HRESULT(E_FAIL)));
}

#[test]
fn source_slice_cuts_between_the_offsets() {
    let source = "float4 main() {}";
    let at = |start_offset, end_offset| source_slice(source, &DxcSourceOffsets { start_offset, end_offset });
    assert_eq!(at(7, 11), Some("main"));
    assert_eq!(at(0, 16), Some(source));
    assert_eq!(at(0, 0), Some(""));
    assert_eq!(at(16, 16), Some(""));
    assert_eq!(at(5, 5), Some(""));
}

#[test]
fn source_slice_rejects_offsets_that_mark_no_stretch() {
    let source = "float4 main() {}";
    let at = |start_offset, end_offset| source_slice(source, &DxcSourceOffsets { start_offset, end_offset });
    assert_eq!(at(11, 7), None);
    assert_eq!(at(0, 17), None);
    assert_eq!(at(17, 17), None);
    assert_eq!(at(17, 20), None);
    assert_eq!(at(u32::MAX, u32::MAX), None);
    assert_eq!(source_slice("", &DxcSourceOffsets { start_offset: 0, end_offset: 1 }), None);
    assert_eq!(source_slice("", &DxcSourceOffsets { start_offset: 0, end_offset: 0 }), Some(""));
}

#[test]
fn source_slice_does_not_split_characters() {
    // bytes: a (1) ü (2) 😀 (4) b (1)
    let source = "a\u{fc}\u{1F600}b";
    let at = |start_offset, end_offset| source_slice(source, &DxcSourceOffsets { start_offset, end_offset });
    assert_eq!(at(1, 3), Some("\u{fc}"));
    assert_eq!(at(3, 7), Some("\u{1F600}"));
    assert_eq!(at(1, 8), Some("\u{fc}\u{1F600}b"));
    assert_eq!(at(2, 3), None);
    assert_eq!(at(1, 2), None);
    assert_eq!(at(3, 5), None);
    assert_eq!(at(4, 7), None);
    assert_eq!(at(6, 8), None);
}

#[test]
fn cursors_are_wrapped_in_order() {
    let wrapped = wrap_cursors(Platform::Windows, vec!['a', 'b', 'c']);
    let inner: Vec<char> = wrapped.iter().map(|c| c.inner).collect();
    assert_eq!(inner, vec!['a', 'b', 'c']);
    assert!(wrapped.iter().all(|c| c.platform == Platform::Windows));
    assert!(wrap_cursors(Platform::Linux, Vec::<char>::new()).is_empty());
}

#[test]
fn cursor_lists_are_handed_on_unless_the_status_fails() {
    let listed = return_cursors(Platform::Linux, HRESULT(1), vec![4u8, 2]).ok().unwrap();
    assert_eq!(listed.iter().map(|c| c.inner).collect::<Vec<u8>>(), vec![4, 2]);
    assert_eq!(return_cursors(Platform::Linux, HRESULT(E_FAIL), vec![4u8, 2]).err(), Some(HRESULT(E_FAIL)));
}

#[test]
fn a_cursor_is_handed_on_unless_the_status_fails_or_there_is_none() {
    let cursor = return_cursor(Platform::MacOs, HRESULT(0), Some(9u8)).ok().unwrap();
    assert_eq!((cursor.inner, cursor.platform), (9, Platform::MacOs));
    assert_eq!(return_cursor(Platform::MacOs, HRESULT(E_FAIL), Some(9u8)).err(), Some(HRESULT(E_FAIL)));
    assert_eq!(return_cursor(Platform::MacOs, HRESULT(0), None::<u8>).err(), Some(HRESULT(E_POINTER)));
}

// ---- children ----

#[test]
fn get_children_wraps_in_order() {
    let parent = wrap(parent_of(5));
    let children = parent.get_children(1, 3).unwrap();
    assert_eq!(ids(&children), vec![1, 2, 3]);
    assert!(children.iter().all(|c| c.platform == Platform::Linux));
    assert_eq!(*parent.inner.requests.borrow(), vec![(1, 3)]);
    assert_eq!(ids(&parent.get_children(5, 3).unwrap()), Vec::<u32>::new());
}

#[test]
fn get_children_failure_carries_the_status() {
    let mut mock = parent_of(5);
    mock.status = E_FAIL;
    assert_eq!(wrap(mock).get_children(0, 3).err(), Some(HRESULT(E_FAIL)));
}

#[test]
fn get_all_children_of_a_leaf_asks_once() {
    let parent = wrap(parent_of(0));
    assert_eq!(ids(&parent.get_all_children().unwrap()), Vec::<u32>::new());
    assert_eq!(*parent.inner.requests.borrow(), vec![(0, 10)]);
    assert_eq!(MAX_CHILDREN_PER_CHUNK, 10);
}

#[test]
fn get_all_children_stops_at_a_short_chunk() {
    let parent = wrap(parent_of(25));
    let children = parent.get_all_children().unwrap();
    assert_eq!(ids(&children), (0..25).collect::<Vec<u32>>());
    assert_eq!(*parent.inner.requests.borrow(), vec![(0, 10), (10, 10), (20, 10)]);
}

#[test]
fn get_all_children_asks_again_after_a_full_chunk() {
    let parent = wrap(parent_of(20));
    let children = parent.get_all_children().unwrap();
    assert_eq!(ids(&children), (0..20).collect::<Vec<u32>>());
    assert_eq!(*parent.inner.requests.borrow(), vec![(0, 10), (10, 10), (20, 10)]);

    let parent = wrap(parent_of(9));
    assert_eq!(parent.get_all_children().unwrap().len(), 9);
    assert_eq!(*parent.inner.requests.borrow(), vec![(0, 10)]);

    let parent = wrap(parent_of(10));
    assert_eq!(parent.get_all_children().unwrap().len(), 10);
    assert_eq!(*parent.inner.requests.borrow(), vec![(0, 10), (10, 10)]);
}

#[test]
fn get_all_children_skips_what_it_has_gathered() {
    let mut mock = parent_of(30);
    mock.overfull = true;
    let parent = wrap(mock);
    let children = parent.get_all_children().unwrap();
    // chunks of twelve: 0..12, 12..24, 24..30
    assert_eq!(ids(&children), (0..30).collect::<Vec<u32>>());
    assert_eq!(*parent.inner.requests.borrow(), vec![(0, 10), (12, 10), (24, 10)]);
}

#[test]
fn get_all_children_gives_up_on_a_failure() {
    let mut mock = parent_of(25);
    mock.fail_after = Some(20);
    let parent = wrap(mock);
    assert_eq!(parent.get_all_children().err(), Some(HRESULT(E_FAIL)));
    assert_eq!(*parent.inner.requests.borrow(), vec![(0, 10), (10, 10), (20, 10)]);

    let mut mock = parent_of(25);
    mock.fail_after = Some(0);
    let parent = wrap(mock);
    assert_eq!(parent.get_all_children().err(), Some(HRESULT(E_FAIL)));
    assert_eq!(*parent.inner.requests.borrow(), vec![(0, 10)]);
}

#[test]
fn find_references_wraps_in_order() {
    let cursor = wrap(cursor(1));
    let found = cursor.find_references_in_file(&DxcFile::new(MockFile(3)), 2, 3).unwrap();
    assert_eq!(ids(&found), vec![302, 303, 304]);
    let mut failing = self::cursor(1);
    failing.status = E_FAIL;
    assert_eq!(
        wrap(failing).find_references_in_file(&DxcFile::new(MockFile(3)), 0, 1).err(),
        Some(HRESULT(E_FAIL))
    );
}

// ---- getters ----

#[test]
fn cursor_getters_translate_the_status() {
    let mut c = wrap(cursor(5));
    assert_eq!(c.get_kind(), Ok(DxcCursorKind(6)));
    assert_eq!(c.get_kind_flags(), Ok(DxcCursorKindFlags(7)));
    assert_eq!(c.get_num_arguments(), Ok(-1));
    assert_eq!(c.is_null(), Ok(false));
    assert_eq!(c.is_definition(), Ok(true));
    assert_eq!(c.is_equal_to(&wrap(cursor(5))), Ok(true));
    assert_eq!(c.is_equal_to(&wrap(cursor(6))), Ok(false));
    assert_eq!(c.get_semantic_parent().unwrap().inner.id, 15);
    assert_eq!(c.get_lexical_parent().unwrap().inner.id, 25);
    assert_eq!(c.get_referenced_cursor().unwrap().inner.id, 35);
    assert_eq!(c.get_definition_cursor().unwrap().inner.id, 45);
    assert_eq!(c.get_argument_at(3).unwrap().inner.id, 3);
    assert_eq!(c.get_snapped_child(&DxcSourceLocation::new(MockLocation(77))).unwrap().inner.id, 77);
    assert_eq!(c.get_location().unwrap().inner, MockLocation(5));
    assert_eq!(c.get_cursor_type().unwrap().get_spelling(), Ok("float4".to_string()));
    assert_eq!(c.get_spelling(), Ok("main".to_string()));
    assert_eq!(c.get_display_name(), Ok("main(float4)".to_string()));
    assert_eq!(c.get_qualified_name(true), Ok("ns::f<int>".to_string()));
    assert_eq!(c.get_qualified_name(false), Ok("ns::f".to_string()));
    assert_eq!(c.get_formatted_name(DxcCursorFormatting(9)), Ok("formatted:9".to_string()));
    assert_eq!(wrap(cursor(0)).is_null(), Ok(true));
}

#[test]
fn cursor_getters_carry_a_failing_status() {
    let mut mock = cursor(5);
    mock.status = E_FAIL;
    mock.extent = Some((0, 1));
    let mut c = wrap(mock);
    let failed = HRESULT(E_FAIL);
    assert_eq!(c.get_kind(), Err(failed));
    assert_eq!(c.get_kind_flags(), Err(failed));
    assert_eq!(c.get_num_arguments(), Err(failed));
    assert_eq!(c.is_null(), Err(failed));
    assert_eq!(c.is_definition(), Err(failed));
    assert_eq!(c.is_equal_to(&wrap(cursor(5))), Err(failed));
    assert_eq!(c.get_semantic_parent().err(), Some(failed));
    assert_eq!(c.get_lexical_parent().err(), Some(failed));
    assert_eq!(c.get_referenced_cursor().err(), Some(failed));
    assert_eq!(c.get_definition_cursor().err(), Some(failed));
    assert_eq!(c.get_argument_at(3).err(), Some(failed));
    assert_eq!(c.get_location().err(), Some(failed));
    assert_eq!(c.get_extent().err(), Some(failed));
    assert_eq!(c.get_cursor_type().err(), Some(failed));
    assert_eq!(c.get_spelling(), Err(failed));
    assert_eq!(c.get_display_name(), Err(failed));
    assert_eq!(c.get_qualified_name(true), Err(failed));
    assert_eq!(c.get_formatted_name(DxcCursorFormatting(0)), Err(failed));
    assert_eq!(c.get_source("x"), Err(failed));
}

#[test]
fn a_cursor_that_is_not_handed_out_is_a_bad_pointer() {
    let c = wrap(cursor(5));
    assert_eq!(c.get_argument_at(-1).err(), Some(HRESULT(E_POINTER)));
    assert_eq!(c.get_extent().err(), Some(HRESULT(E_POINTER)));
    assert_eq!(c.get_source("abc"), Err(HRESULT(E_POINTER)));
}

#[test]
fn source_range_offsets() {
    let range = DxcSourceRange::new(MockRange { status: 0, start: 3, end: 9 });
    assert_eq!(range.get_offsets(), Ok(DxcSourceOffsets { start_offset: 3, end_offset: 9 }));
    let range = DxcSourceRange::new(MockRange { status: E_FAIL, start: 3, end: 9 });
    assert_eq!(range.get_offsets(), Err(HRESULT(E_FAIL)));
}

#[test]
fn get_source_cuts_the_extent_out_of_the_text() {
    let mut mock = cursor(1);
    mock.extent = Some((7, 11));
    assert_eq!(wrap(mock).get_source("float4 main() {}"), Ok(Some("main")));
}

#[test]
fn get_source_of_an_extent_outside_the_text_is_nothing() {
    let mut mock = cursor(1);
    mock.extent = Some((7, 40));
    assert_eq!(wrap(mock).get_source("float4 main() {}"), Ok(None));
    let mut mock = cursor(1);
    mock.extent = Some((9, 3));
    assert_eq!(wrap(mock).get_source("float4 main() {}"), Ok(None));
}

#[test]
fn get_source_carries_the_failure_of_the_offsets() {
    let mut mock = cursor(1);
    mock.extent = Some((7, 11));
    mock.offsets_status = E_FAIL;
    assert_eq!(wrap(mock).get_source("float4 main() {}"), Err(HRESULT(E_FAIL)));
}

#[test]
fn type_spelling() {
    assert_eq!(DxcType::new(MockType("matrix<float, 4, 4>")).get_spelling(), Ok("matrix<float, 4, 4>".to_string()));
}

// ---- translation units, indexes, the service ----

struct MockUnit;

impl IDxcUnknownShim for MockUnit {}

impl IDxcTranslationUnit for MockUnit {
    type Cursor = MockCursor;
    type File = MockFile;

    fn get_file(&self, name: &[u8]) -> (HRESULT, Option<MockFile>) {
        if name == b"known.hlsl\0" {
            (HRESULT(0), Some(MockFile(1)))
        } else {
            (HRESULT(E_FAIL), None)
        }
    }

    fn get_cursor(&self) -> (HRESULT, Option<MockCursor>) {
        (HRESULT(0), Some(cursor(42)))
    }
}

#[derive(Debug, PartialEq)]
struct Parse {
    source_filename: Vec<u8>,
    arguments: Vec<Vec<u8>>,
    unsaved: Vec<Vec<u8>>,
    options: u32,
}

struct MockIndex {
    status: i32,
    parses: RefCell<Vec<Parse>>,
}

impl IDxcUnknownShim for MockIndex {}

impl IDxcIndex for MockIndex {
    type TranslationUnit = MockUnit;
    type UnsavedFile = MockUnsaved;

    fn parse_translation_unit(
        &self,
        source_filename: &[u8],
        command_line_args: &[Vec<u8>],
        unsaved_files: &[&MockUnsaved],
        options: DxcTranslationUnitFlags,
    ) -> (HRESULT, Option<MockUnit>) {
        self.parses.borrow_mut().push(Parse {
            source_filename: source_filename.to_vec(),
            arguments: command_line_args.to_vec(),
            unsaved: unsaved_files.iter().map(|f| f.name.clone()).collect(),
            options: options.0,
        });
        (HRESULT(self.status), Some(MockUnit))
    }
}

struct MockService {
    status: i32,
}

struct CountingService {
    asked: Rc<RefCell<u32>>,
}

impl IDxcUnknownShim for CountingService {}

impl IDxcIntelliSense for CountingService {
    type Index = MockIndex;
    type UnsavedFile = MockUnsaved;

    fn get_default_editing_tu_options(&self) -> (HRESULT, DxcTranslationUnitFlags) {
        unreachable!()
    }

    fn create_index(&self) -> (HRESULT, Option<MockIndex>) {
        unreachable!()
    }

    fn create_unsaved_file(&self, _: &[u8], _: &[u8], _: u32) -> (HRESULT, Option<MockUnsaved>) {
        *self.asked.borrow_mut() += 1;
        (HRESULT(0), Some(MockUnsaved { status: 0, name: vec![], contents: vec![], length: 0 }))
    }
}

impl IDxcUnknownShim for MockService {}

impl IDxcIntelliSense for MockService {
    type Index = MockIndex;
    type UnsavedFile = MockUnsaved;

    fn get_default_editing_tu_options(&self) -> (HRESULT, DxcTranslationUnitFlags) {
        (HRESULT(self.status), DxcTranslationUnitFlags(0x24))
    }

    fn create_index(&self) -> (HRESULT, Option<MockIndex>) {
        (HRESULT(self.status), Some(MockIndex { status: 0, parses: RefCell::new(vec![]) }))
    }

    fn create_unsaved_file(
        &self,
        file_name: &[u8],
        contents: &[u8],
        contents_length: u32,
    ) -> (HRESULT, Option<MockUnsaved>) {
        let file = MockUnsaved {
            status: 0,
            name: file_name.to_vec(),
            contents: contents.to_vec(),
            length: contents_length,
        };
        (HRESULT(self.status), Some(file))
    }
}

#[test]
fn translation_unit_hands_out_files_and_cursors() {
    let unit = DxcTranslationUnit::new(MockUnit, Platform::Windows);
    assert_eq!(unit.get_file(b"known.hlsl\0").unwrap().inner, MockFile(1));
    assert_eq!(unit.get_file(b"other.hlsl\0").err(), Some(HRESULT(E_FAIL)));
    let cursor = unit.get_cursor().unwrap();
    assert_eq!(cursor.inner.id, 42);
    assert_eq!(cursor.platform, Platform::Windows);
}

#[test]
fn unsaved_file_goes_over_with_terminators_and_its_length() {
    let service = DxcIntellisense::new(MockService { status: 0 }, Platform::Linux);
    let file = service.create_unsaved_file("a.hlsl", "gr\u{fc}n").unwrap();
    assert_eq!(file.inner.name, b"a.hlsl\0".to_vec());
    assert_eq!(file.inner.contents, "gr\u{fc}n\0".as_bytes().to_vec());
    assert_eq!(file.inner.length, 5);
    assert_eq!(file.get_length(), Ok(5));
    let empty = service.create_unsaved_file("", "").unwrap();
    assert_eq!(empty.inner.name, vec![0]);
    assert_eq!(empty.inner.contents, vec![0]);
    assert_eq!(empty.get_length(), Ok(0));
}

#[test]
fn an_unsaved_file_with_a_zero_character_is_refused() {
    let asked = Rc::new(RefCell::new(0u32));
    let service = DxcIntellisense::new(CountingService { asked: asked.clone() }, Platform::Linux);
    assert_eq!(service.create_unsaved_file("a\0.hlsl", "x").err(), Some(HRESULT(E_INVALIDARG)));
    assert_eq!(service.create_unsaved_file("a.hlsl", "x\0y").err(), Some(HRESULT(E_INVALIDARG)));
    assert_eq!(service.create_unsaved_file("\0", "\0").err(), Some(HRESULT(E_INVALIDARG)));
    assert_eq!(*asked.borrow(), 0);
    assert!(service.create_unsaved_file("a.hlsl", "xy").is_ok());
    assert_eq!(*asked.borrow(), 1);
}

#[test]
fn a_parse_with_a_zero_character_is_refused() {
    let index = DxcIndex::new(MockIndex { status: 0, parses: RefCell::new(vec![]) }, Platform::Linux);
    let refused = |unit: Result<DxcTranslationUnit<MockUnit>, HRESULT>| {
        assert_eq!(unit.err(), Some(HRESULT(E_INVALIDARG)))
    };
    refused(index.parse_translation_unit("ma\0in.hlsl", &[], &[], DxcTranslationUnitFlags(0)));
    refused(index.parse_translation_unit("main.hlsl", &["-E", "ma\0in"], &[], DxcTranslationUnitFlags(0)));
    refused(index.parse_translation_unit("main.hlsl", &["\0"], &[], DxcTranslationUnitFlags(0)));
    assert!(index.inner.parses.borrow().is_empty());
    assert!(index.parse_translation_unit("main.hlsl", &["-E"], &[], DxcTranslationUnitFlags(0)).is_ok());
    assert_eq!(index.inner.parses.borrow().len(), 1);
}

#[test]
fn zero_characters_are_found_in_arguments() {
    assert!(all_zero_free(&[]));
    assert!(all_zero_free(&["-E", "main", ""]));
    assert!(!all_zero_free(&["-E", "ma\0in"]));
    assert!(!all_zero_free(&["\0", "main"]));
}

#[test]
fn unsaved_file_length_failure() {
    let file = DxcUnsavedFile::new(MockUnsaved { status: E_FAIL, name: vec![], contents: vec![], length: 3 });
    assert_eq!(file.get_length(), Err(HRESULT(E_FAIL)));
}

#[test]
fn service_getters_translate_the_status() {
    let service = DxcIntellisense::new(MockService { status: 0 }, Platform::Linux);
    assert_eq!(service.get_default_editing_tu_options(), Ok(DxcTranslationUnitFlags(0x24)));
    assert_eq!(service.create_index().ok().unwrap().platform, Platform::Linux);
    let broken = DxcIntellisense::new(MockService { status: E_FAIL }, Platform::Linux);
    assert_eq!(broken.get_default_editing_tu_options(), Err(HRESULT(E_FAIL)));
    assert_eq!(broken.create_index().err(), Some(HRESULT(E_FAIL)));
    assert_eq!(broken.create_unsaved_file("a", "b").err(), Some(HRESULT(E_FAIL)));
}

#[test]
fn parse_translation_unit_hands_over_native_texts_in_order() {
    let service = DxcIntellisense::new(MockService { status: 0 }, Platform::Linux);
    let first = service.create_unsaved_file("first.hlsl", "1").unwrap();
    let second = service.create_unsaved_file("second.hlsl", "2").unwrap();
    let index = service.create_index().ok().unwrap();
    let unit = index.parse_translation_unit(
        "main.hlsl",
        &["-E", "main", ""],
        &[&first, &second],
        DxcTranslationUnitFlags(4),
    );
    assert_eq!(unit.ok().unwrap().platform, Platform::Linux);
    assert_eq!(
        *index.inner.parses.borrow(),
        vec![Parse {
            source_filename: b"main.hlsl\0".to_vec(),
            arguments: vec![b"-E\0".to_vec(), b"main\0".to_vec(), vec![0]],
            unsaved: vec![b"first.hlsl\0".to_vec(), b"second.hlsl\0".to_vec()],
            options: 4,
        }]
    );
}

#[test]
fn parse_translation_unit_failure_carries_the_status() {
    let index = DxcIndex::new(MockIndex { status: E_FAIL, parses: RefCell::new(vec![]) }, Platform::Linux);
    let unit = index.parse_translation_unit("main.hlsl", &[], &[], DxcTranslationUnitFlags(0));
    assert_eq!(unit.err(), Some(HRESULT(E_FAIL)));
}

// ---- the factory ----

struct MockModule {
    status: i32,
    asked: RefCell<Vec<(CLSID, IID)>>,
}

impl DxcModule for MockModule {
    fn load(_: &str) -> Result<Self, String> {
        Ok(MockModule { status: 0, asked: RefCell::new(vec![]) })
    }
}

impl DxcCreateInstanceProc<MockService> for MockModule {
    fn create_instance(&self, rclsid: &CLSID, riid: &IID) -> Result<(HRESULT, Option<MockService>), String> {
        self.asked.borrow_mut().push((*rclsid, *riid));
        Ok((HRESULT(self.status), Some(MockService { status: 0 })))
    }
}

#[test]
fn create_intellisense_asks_for_the_service_class() {
    let dxc = Dxc::<MockModule>::new(Platform::MacOs).ok().unwrap();
    let service = dxc.create_intellisense::<MockService>().ok().unwrap();
    assert_eq!(service.platform, Platform::MacOs);
    assert_eq!(*dxc.dxc_lib.asked.borrow(), vec![(CLSID_DxcIntelliSense, IID_IDXC_INTELLI_SENSE)]);
}

#[test]
fn create_intellisense_failure_is_a_win32_error() {
    let mut dxc = Dxc::<MockModule>::new(Platform::MacOs).ok().unwrap();
    dxc.dxc_lib.status = E_FAIL;
    assert!(matches!(
        dxc.create_intellisense::<MockService>(),
        Err(HassleError::Win32Error(HRESULT(E_FAIL)))
    ));
}
