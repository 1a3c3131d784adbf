//! The typed wrappers around the handles of the code navigation service.

use vstd::prelude::*;
use vstd::string::StringSliceAdditionalSpecFns;
use vstd::utf8::{encode_utf8, is_char_boundary};
use crate::intellisense::ffi::{
    CLSID_DxcIntelliSense, DxcCursorFormatting, DxcCursorKind, DxcCursorKindFlags,
    DxcTranslationUnitFlags, IDxcCursor, IDxcFile, IDxcIndex, IDxcIntelliSense,
    IDxcSourceLocation, IDxcSourceRange, IDxcTranslationUnit, IDxcType, IDxcUnsavedFile,
    IID_IDXC_INTELLI_SENSE,
};
use crate::ffi::DxcCreateInstanceProc;
use crate::os::{Platform, HRESULT, WCHAR};
use crate::unknown::{invalid_argument, spec_invalid_argument};
use crate::utils::{
    decode_units, from_bstr, from_lpstr, is_zero_free, terminated_byte_len, to_c_string,
    zero_free, HassleError,
};
use crate::wrapper::{
    handle_result, return_hr, return_hr_handle, spec_return_hr_wrapped, status_result,
    text_result, Dxc, DxcModule,
};

verus! {

/// How many children `get_all_children` asks for at a time.
pub const MAX_CHILDREN_PER_CHUNK: u32 = 10;

/// What a status and a counted wide string come to: the string's text,
/// unless the status reports a failure.
pub open spec fn name_result(
    platform: Platform,
    hr: HRESULT,
    name: Seq<WCHAR>,
    res: Result<String, HRESULT>,
) -> bool {
    if hr.failed() {
        res == Err::<String, HRESULT>(hr)
    } else {
        res matches Ok(text) && text@ == decode_units(platform, name)
    }
}

/// What a status and a zero-terminated byte string come to: the status
/// where it reports a failure; otherwise the text of the bytes before the
/// terminator, or an invalid argument where they are no well-formed UTF-8.
pub open spec fn spelling_result(hr: HRESULT, spelling: Seq<u8>, res: Result<String, HRESULT>) -> bool {
    if hr.failed() {
        res == Err::<String, HRESULT>(hr)
    } else {
        text_result(spelling.take(terminated_byte_len(spelling) as int), res)
    }
}

pub fn return_name(platform: Platform, hr: HRESULT, name: Vec<WCHAR>) -> (res: Result<
    String,
    HRESULT,
>)
    ensures
        name_result(platform, hr, name@, res),
{
    if hr.is_err() {
        Err(hr)
    } else {
        Ok(from_bstr(name.as_slice(), platform))
    }
}

pub fn return_spelling(hr: HRESULT, spelling: Vec<u8>) -> (res: Result<String, HRESULT>)
    ensures
        spelling_result(hr, spelling@, res),
{
    if hr.is_err() {
        Err(hr)
    } else {
        match from_lpstr(spelling.as_slice()) {
            Some(text) => Ok(text),
            None => Err(invalid_argument()),
        }
    }
}

/// A handle to a file known to a translation unit.
pub struct DxcFile<F> {
    pub inner: F,
}

impl<F: IDxcFile> DxcFile<F> {
    pub fn new(inner: F) -> (file: Self)
        ensures
            file.inner == inner,
    {
        DxcFile { inner }
    }
}

/// A handle to a position in a source file.
#[derive(Debug)]
pub struct DxcSourceLocation<L> {
    pub inner: L,
}

impl<L: IDxcSourceLocation> DxcSourceLocation<L> {
    pub fn new(inner: L) -> (location: Self)
        ensures
            location.inner == inner,
    {
        DxcSourceLocation { inner }
    }
}

/// The byte offsets at which a stretch of a source file starts and ends.
#[derive(Clone, Copy, Debug, PartialEq, Eq, Structural)]
pub struct DxcSourceOffsets {
    pub start_offset: u32,
    pub end_offset: u32,
}

/// The bytes that lie between the offsets, where the offsets mark a
/// stretch of the text: the start is not after the end, the end is not
/// after the text's last byte, and neither splits a character.
pub open spec fn spec_source_slice(source: Seq<char>, offsets: DxcSourceOffsets) -> Option<Seq<u8>> {
    let bytes = encode_utf8(source);
    if offsets.start_offset <= offsets.end_offset <= bytes.len() && is_char_boundary(
        bytes,
        offsets.start_offset as int,
    ) && is_char_boundary(bytes, offsets.end_offset as int) {
        Some(bytes.subrange(offsets.start_offset as int, offsets.end_offset as int))
    } else {
        None
    }
}

/// The stretch of `source` between the offsets, if they mark one.
pub fn source_slice<'a>(source: &'a str, offsets: &DxcSourceOffsets) -> (slice: Option<&'a str>)
    ensures
        match spec_source_slice(source@, *offsets) {
            Some(bytes) => slice matches Some(text) && text.spec_bytes() == bytes,
            None => slice is None,
        },
{
    let start = offsets.start_offset as usize;
    let end = offsets.end_offset as usize;
    if start <= end && end <= source.as_bytes().len() && source.is_char_boundary(start)
        && source.is_char_boundary(end) {
        let (head, _) = source.split_at(end);
        proof {
            vstd::utf8::encode_utf8_valid_utf8(source@);
            lemma_boundary_in_prefix(source.spec_bytes(), start as int, end as int);
        }
        let (_, middle) = head.split_at(start);
        Some(middle)
    } else {
        None
    }
}

/// A character boundary of a text is a character boundary of each prefix
/// that reaches it, where the prefix ends at a boundary too.
proof fn lemma_boundary_in_prefix(bytes: Seq<u8>, start: int, end: int)
    requires
        vstd::utf8::valid_utf8(bytes),
        0 <= start <= end <= bytes.len(),
        is_char_boundary(bytes, start),
        is_char_boundary(bytes, end),
    ensures
        is_char_boundary(bytes.subrange(0, end), start),
{
    vstd::utf8::valid_utf8_split(bytes, end);
    let prefix = bytes.subrange(0, end);
    if start < end {
        vstd::utf8::is_char_boundary_iff_not_is_continuation_byte(bytes, start);
        vstd::utf8::is_char_boundary_iff_not_is_continuation_byte(prefix, start);
    } else {
        vstd::utf8::is_char_boundary_start_end_of_seq(prefix);
    }
}

/// A handle to a stretch of a source file.
#[derive(Debug)]
pub struct DxcSourceRange<R> {
    pub inner: R,
}

impl<R: IDxcSourceRange> DxcSourceRange<R> {
    pub fn new(inner: R) -> (range: Self)
        ensures
            range.inner == inner,
    {
        DxcSourceRange { inner }
    }

    pub fn get_offsets(&self) -> (res: Result<DxcSourceOffsets, HRESULT>)
        ensures
            exists|answer: (HRESULT, u32, u32)|
                call_ensures(R::get_offsets, (&self.inner,), answer) && res == status_result(
                    answer.0,
                    DxcSourceOffsets { start_offset: answer.1, end_offset: answer.2 },
                ),
    {
        let (hr, start_offset, end_offset) = self.inner.get_offsets();
        return_hr(hr, DxcSourceOffsets { start_offset, end_offset })
    }
}

/// A handle to the type of an entity.
pub struct DxcType<T> {
    pub inner: T,
}

impl<T: IDxcType> DxcType<T> {
    pub fn new(inner: T) -> (ty: Self)
        ensures
            ty.inner == inner,
    {
        DxcType { inner }
    }

    pub fn get_spelling(&self) -> (res: Result<String, HRESULT>)
        ensures
            exists|answer: (HRESULT, Vec<u8>)|
                call_ensures(T::get_spelling, (&self.inner,), answer) && spelling_result(
                    answer.0,
                    answer.1@,
                    res,
                ),
    {
        let (hr, spelling) = self.inner.get_spelling();
        return_spelling(hr, spelling)
    }
}

/// A handle to a file whose contents are given in memory.
pub struct DxcUnsavedFile<U> {
    pub inner: U,
}

impl<U: IDxcUnsavedFile> DxcUnsavedFile<U> {
    pub fn get_length(&self) -> (res: Result<u32, HRESULT>)
        ensures
            exists|answer: (HRESULT, u32)|
                call_ensures(U::get_length, (&self.inner,), answer) && res == status_result(
                    answer.0,
                    answer.1,
                ),
    {
        let (hr, length) = self.inner.get_length();
        return_hr(hr, length)
    }

    pub fn new(inner: U) -> (file: Self)
        ensures
            file.inner == inner,
    {
        DxcUnsavedFile { inner }
    }
}

/// A handle to an entity of a translation unit.
pub struct DxcCursor<C> {
    pub inner: C,
    pub platform: Platform,
}

/// Whether `cursors` wraps `handles`, one for one.
pub open spec fn cursors_of<C>(platform: Platform, handles: Seq<C>, cursors: Seq<DxcCursor<C>>) -> bool {
    &&& cursors.len() == handles.len()
    &&& forall|i: int|
        0 <= i < handles.len() ==> #[trigger] cursors[i] == (DxcCursor {
            inner: handles[i],
            platform,
        })
}

/// What a status and a place for a cursor come to.
pub open spec fn cursor_result<C>(platform: Platform, hr: HRESULT, slot: Option<C>) -> Result<
    DxcCursor<C>,
    HRESULT,
> {
    match handle_result(hr, slot) {
        Ok(inner) => Ok(DxcCursor { inner, platform }),
        Err(hr) => Err(hr),
    }
}

/// What a status and a list of cursors come to: the cursors, wrapped, in
/// the same order, unless the status reports a failure.
pub open spec fn cursors_result<C>(
    platform: Platform,
    hr: HRESULT,
    handles: Seq<C>,
    res: Result<Vec<DxcCursor<C>>, HRESULT>,
) -> bool {
    if hr.failed() {
        res == Err::<Vec<DxcCursor<C>>, HRESULT>(hr)
    } else {
        res matches Ok(cursors) && cursors_of(platform, handles, cursors@)
    }
}

/// The children that a run of answers holds, in the order of the
/// answers.
pub open spec fn gathered<C>(answers: Seq<(HRESULT, Vec<C>)>) -> Seq<C>
    decreases answers.len(),
{
    if answers.len() == 0 {
        Seq::empty()
    } else {
        gathered(answers.drop_last()) + answers.last().1@
    }
}

/// Whether `answers` is a full enumeration of a cursor's children in
/// chunks: each answer is what the cursor said when asked for the next
/// chunk after all the children before; every answer but the last
/// succeeded and held a full chunk; and the last one failed, or fell
/// short of a full chunk, or took the count past what a next request could
/// skip.
pub open spec fn enumeration<C: IDxcCursor>(cursor: C, answers: Seq<(HRESULT, Vec<C>)>) -> bool {
    &&& answers.len() > 0
    &&& forall|k: int| 0 <= k < answers.len() ==> #[trigger] asked(cursor, answers, k)
    &&& forall|k: int| 0 <= k < answers.len() - 1 ==> #[trigger] full_chunk(answers, k)
    &&& {
        let last = answers.last();
        last.0.failed() || last.1@.len() < MAX_CHILDREN_PER_CHUNK || gathered(answers).len()
            > u32::MAX
    }
}

/// Whether answer number `k` is what the cursor said when asked for a
/// chunk of children after all the children of the answers before.
pub open spec fn asked<C: IDxcCursor>(cursor: C, answers: Seq<(HRESULT, Vec<C>)>, k: int) -> bool {
    &&& gathered(answers.take(k)).len() <= u32::MAX
    &&& call_ensures(
        C::get_children,
        (&cursor, gathered(answers.take(k)).len() as u32, MAX_CHILDREN_PER_CHUNK),
        answers[k],
    )
}

/// Whether answer number `k` succeeded and held a full chunk.
pub open spec fn full_chunk<C>(answers: Seq<(HRESULT, Vec<C>)>, k: int) -> bool {
    !answers[k].0.failed() && answers[k].1@.len() >= MAX_CHILDREN_PER_CHUNK
}

pub fn return_cursor<C>(platform: Platform, hr: HRESULT, slot: Option<C>) -> (res: Result<
    DxcCursor<C>,
    HRESULT,
>)
    ensures
        res == cursor_result(platform, hr, slot),
{
    match return_hr_handle(hr, slot) {
        Ok(inner) => Ok(DxcCursor { inner, platform }),
        Err(hr) => Err(hr),
    }
}

/// Wraps a list of cursors, keeping their order.
pub fn wrap_cursors<C>(platform: Platform, handles: Vec<C>) -> (cursors: Vec<DxcCursor<C>>)
    ensures
        cursors_of(platform, handles@, cursors@),
{
    let ghost all = handles@;
    let mut cursors: Vec<DxcCursor<C>> = Vec::new();
    for handle in it: handles
        invariant
            it.seq() == all,
            cursors_of(platform, all.take(it.index() as int), cursors@),
    {
        cursors.push(DxcCursor { inner: handle, platform });
    }
    cursors
}

pub fn return_cursors<C>(platform: Platform, hr: HRESULT, handles: Vec<C>) -> (res: Result<
    Vec<DxcCursor<C>>,
    HRESULT,
>)
    ensures
        cursors_result(platform, hr, handles@, res),
{
    if hr.is_err() {
        Err(hr)
    } else {
        Ok(wrap_cursors(platform, handles))
    }
}

impl<C: IDxcCursor> DxcCursor<C> {
    pub fn new(inner: C, platform: Platform) -> (cursor: Self)
        ensures
            cursor.inner == inner,
            cursor.platform == platform,
    {
        DxcCursor { inner, platform }
    }

    pub fn get_children(&self, skip: u32, max_count: u32) -> (res: Result<
        Vec<DxcCursor<C>>,
        HRESULT,
    >)
        ensures
            exists|answer: (HRESULT, Vec<C>)|
                call_ensures(C::get_children, (&self.inner, skip, max_count), answer)
                    && cursors_result(self.platform, answer.0, answer.1@, res),
    {
        let (hr, children) = self.inner.get_children(skip, max_count);
        return_cursors(self.platform, hr, children)
    }

    /// All children of the cursor, gathered in chunks of
    /// `MAX_CHILDREN_PER_CHUNK`: each request skips the children gathered
    /// so far, and a chunk that falls short of the full size is the last.
    /// A failing answer is the result, whatever was gathered before it.
    pub fn get_all_children(&self) -> (res: Result<Vec<DxcCursor<C>>, HRESULT>)
        ensures
            exists|answers: Seq<(HRESULT, Vec<C>)>|
                #![trigger enumeration(self.inner, answers)]
                enumeration(self.inner, answers) && cursors_result(
                    self.platform,
                    answers.last().0,
                    gathered(answers),
                    res,
                ),
    {
        let mut children: Vec<DxcCursor<C>> = Vec::new();
        let ghost mut answers: Seq<(HRESULT, Vec<C>)> = Seq::empty();
        loop
            invariant
                children@.len() <= u32::MAX,
                cursors_of(self.platform, gathered(answers), children@),
                forall|k: int| 0 <= k < answers.len() ==> #[trigger] asked(self.inner, answers, k),
                forall|k: int| 0 <= k < answers.len() ==> #[trigger] full_chunk(answers, k),
            decreases u32::MAX - children@.len(),
        {
            let skip = children.len() as u32;
            let answer = self.inner.get_children(skip, MAX_CHILDREN_PER_CHUNK);
            let ghost earlier = answers;
            proof {
                answers = earlier.push(answer);
                assert(answers.take(earlier.len() as int) =~= earlier);
                assert forall|k: int| 0 <= k < answers.len() implies #[trigger] asked(
                    self.inner,
                    answers,
                    k,
                ) by {
                    if k < earlier.len() {
                        assert(answers.take(k) =~= earlier.take(k));
                        assert(asked(self.inner, earlier, k));
                    }
                }
                assert forall|k: int| 0 <= k < answers.len() - 1 implies #[trigger] full_chunk(
                    answers,
                    k,
                ) by {
                    assert(full_chunk(earlier, k));
                }
            }
            let (hr, chunk) = answer;
            if hr.is_err() {
                assert(enumeration(self.inner, answers));
                return Err(hr);
            }
            let chunk_len = chunk.len();
            let mut wrapped = wrap_cursors(self.platform, chunk);
            children.append(&mut wrapped);
            if chunk_len < MAX_CHILDREN_PER_CHUNK as usize || children.len() > u32::MAX as usize {
                assert(enumeration(self.inner, answers));
                return Ok(children);
            }
        }
    }

    pub fn get_extent(&self) -> (res: Result<DxcSourceRange<C::SourceRange>, HRESULT>)
        ensures
            exists|answer: (HRESULT, Option<C::SourceRange>)|
                call_ensures(C::get_extent, (&self.inner,), answer) && res == match handle_result(
                    answer.0,
                    answer.1,
                ) {
                    Ok(inner) => Ok(DxcSourceRange { inner }),
                    Err(hr) => Err(hr),
                },
    {
        let (hr, range) = self.inner.get_extent();
        match return_hr_handle(hr, range) {
            Ok(inner) => Ok(DxcSourceRange::new(inner)),
            Err(hr) => Err(hr),
        }
    }

    pub fn get_location(&self) -> (res: Result<DxcSourceLocation<C::SourceLocation>, HRESULT>)
        ensures
            exists|answer: (HRESULT, Option<C::SourceLocation>)|
                call_ensures(C::get_location, (&self.inner,), answer) && res
                    == match handle_result(answer.0, answer.1) {
                    Ok(inner) => Ok(DxcSourceLocation { inner }),
                    Err(hr) => Err(hr),
                },
    {
        let (hr, location) = self.inner.get_location();
        match return_hr_handle(hr, location) {
            Ok(inner) => Ok(DxcSourceLocation::new(inner)),
            Err(hr) => Err(hr),
        }
    }

    pub fn get_display_name(&self) -> (res: Result<String, HRESULT>)
        ensures
            exists|answer: (HRESULT, Vec<WCHAR>)|
                call_ensures(C::get_display_name, (&self.inner,), answer) && name_result(
                    self.platform,
                    answer.0,
                    answer.1@,
                    res,
                ),
    {
        let (hr, name) = self.inner.get_display_name();
        return_name(self.platform, hr, name)
    }

    pub fn get_formatted_name(&self, formatting: DxcCursorFormatting) -> (res: Result<
        String,
        HRESULT,
    >)
        ensures
            exists|answer: (HRESULT, Vec<WCHAR>)|
                call_ensures(C::get_formatted_name, (&self.inner, formatting), answer)
                    && name_result(self.platform, answer.0, answer.1@, res),
    {
        let (hr, name) = self.inner.get_formatted_name(formatting);
        return_name(self.platform, hr, name)
    }

    pub fn get_qualified_name(&self, include_template_args: bool) -> (res: Result<
        String,
        HRESULT,
    >)
        ensures
            exists|answer: (HRESULT, Vec<WCHAR>)|
                call_ensures(C::get_qualified_name, (&self.inner, include_template_args), answer)
                    && name_result(self.platform, answer.0, answer.1@, res),
    {
        let (hr, name) = self.inner.get_qualified_name(include_template_args);
        return_name(self.platform, hr, name)
    }

    pub fn get_kind(&self) -> (res: Result<DxcCursorKind, HRESULT>)
        ensures
            exists|answer: (HRESULT, DxcCursorKind)|
                call_ensures(C::get_kind, (&self.inner,), answer) && res == status_result(
                    answer.0,
                    answer.1,
                ),
    {
        let (hr, cursor_kind) = self.inner.get_kind();
        return_hr(hr, cursor_kind)
    }

    pub fn get_kind_flags(&self) -> (res: Result<DxcCursorKindFlags, HRESULT>)
        ensures
            exists|answer: (HRESULT, DxcCursorKindFlags)|
                call_ensures(C::get_kind_flags, (&self.inner,), answer) && res == status_result(
                    answer.0,
                    answer.1,
                ),
    {
        let (hr, cursor_kind_flags) = self.inner.get_kind_flags();
        return_hr(hr, cursor_kind_flags)
    }

    pub fn get_semantic_parent(&self) -> (res: Result<DxcCursor<C>, HRESULT>)
        ensures
            exists|answer: (HRESULT, Option<C>)|
                call_ensures(C::get_semantic_parent, (&self.inner,), answer) && res
                    == cursor_result(self.platform, answer.0, answer.1),
    {
        let (hr, inner) = self.inner.get_semantic_parent();
        return_cursor(self.platform, hr, inner)
    }

    pub fn get_lexical_parent(&self) -> (res: Result<DxcCursor<C>, HRESULT>)
        ensures
            exists|answer: (HRESULT, Option<C>)|
                call_ensures(C::get_lexical_parent, (&self.inner,), answer) && res
                    == cursor_result(self.platform, answer.0, answer.1),
    {
        let (hr, inner) = self.inner.get_lexical_parent();
        return_cursor(self.platform, hr, inner)
    }

    pub fn get_cursor_type(&self) -> (res: Result<DxcType<C::Type>, HRESULT>)
        ensures
            exists|answer: (HRESULT, Option<C::Type>)|
                call_ensures(C::get_cursor_type, (&self.inner,), answer) && res
                    == match handle_result(answer.0, answer.1) {
                    Ok(inner) => Ok(DxcType { inner }),
                    Err(hr) => Err(hr),
                },
    {
        let (hr, inner) = self.inner.get_cursor_type();
        match return_hr_handle(hr, inner) {
            Ok(inner) => Ok(DxcType::new(inner)),
            Err(hr) => Err(hr),
        }
    }

    pub fn get_num_arguments(&self) -> (res: Result<i32, HRESULT>)
        ensures
            exists|answer: (HRESULT, i32)|
                call_ensures(C::get_num_arguments, (&self.inner,), answer) && res
                    == status_result(answer.0, answer.1),
    {
        let (hr, result) = self.inner.get_num_arguments();
        return_hr(hr, result)
    }

    pub fn get_argument_at(&self, index: i32) -> (res: Result<DxcCursor<C>, HRESULT>)
        ensures
            exists|answer: (HRESULT, Option<C>)|
                call_ensures(C::get_argument_at, (&self.inner, index), answer) && res
                    == cursor_result(self.platform, answer.0, answer.1),
    {
        let (hr, inner) = self.inner.get_argument_at(index);
        return_cursor(self.platform, hr, inner)
    }

    pub fn get_referenced_cursor(&self) -> (res: Result<DxcCursor<C>, HRESULT>)
        ensures
            exists|answer: (HRESULT, Option<C>)|
                call_ensures(C::get_referenced_cursor, (&self.inner,), answer) && res
                    == cursor_result(self.platform, answer.0, answer.1),
    {
        let (hr, inner) = self.inner.get_referenced_cursor();
        return_cursor(self.platform, hr, inner)
    }

    pub fn get_definition_cursor(&self) -> (res: Result<DxcCursor<C>, HRESULT>)
        ensures
            exists|answer: (HRESULT, Option<C>)|
                call_ensures(C::get_definition_cursor, (&self.inner,), answer) && res
                    == cursor_result(self.platform, answer.0, answer.1),
    {
        let (hr, inner) = self.inner.get_definition_cursor();
        return_cursor(self.platform, hr, inner)
    }

    pub fn find_references_in_file(&self, file: &DxcFile<C::File>, skip: u32, top: u32) -> (res:
        Result<Vec<DxcCursor<C>>, HRESULT>)
        ensures
            exists|answer: (HRESULT, Vec<C>)|
                call_ensures(
                    C::find_references_in_file,
                    (&self.inner, &file.inner, skip, top),
                    answer,
                ) && cursors_result(self.platform, answer.0, answer.1@, res),
    {
        let (hr, references) = self.inner.find_references_in_file(&file.inner, skip, top);
        return_cursors(self.platform, hr, references)
    }

    pub fn get_spelling(&self) -> (res: Result<String, HRESULT>)
        ensures
            exists|answer: (HRESULT, Vec<u8>)|
                call_ensures(C::get_spelling, (&self.inner,), answer) && spelling_result(
                    answer.0,
                    answer.1@,
                    res,
                ),
    {
        let (hr, spelling) = self.inner.get_spelling();
        return_spelling(hr, spelling)
    }

    pub fn is_equal_to(&self, other: &DxcCursor<C>) -> (res: Result<bool, HRESULT>)
        ensures
            exists|answer: (HRESULT, bool)|
                call_ensures(C::is_equal_to, (&self.inner, &other.inner), answer) && res
                    == status_result(answer.0, answer.1),
    {
        let (hr, result) = self.inner.is_equal_to(&other.inner);
        return_hr(hr, result)
    }

    pub fn is_null(&mut self) -> (res: Result<bool, HRESULT>)
        ensures
            *final(self) == *old(self),
            exists|answer: (HRESULT, bool)|
                call_ensures(C::is_null, (&old(self).inner,), answer) && res == status_result(
                    answer.0,
                    answer.1,
                ),
    {
        let (hr, result) = self.inner.is_null();
        return_hr(hr, result)
    }

    pub fn is_definition(&self) -> (res: Result<bool, HRESULT>)
        ensures
            exists|answer: (HRESULT, bool)|
                call_ensures(C::is_definition, (&self.inner,), answer) && res == status_result(
                    answer.0,
                    answer.1,
                ),
    {
        let (hr, result) = self.inner.is_definition();
        return_hr(hr, result)
    }

    pub fn get_snapped_child(&self, location: &DxcSourceLocation<C::SourceLocation>) -> (res:
        Result<DxcCursor<C>, HRESULT>)
        ensures
            exists|answer: (HRESULT, Option<C>)|
                call_ensures(C::get_snapped_child, (&self.inner, &location.inner), answer) && res
                    == cursor_result(self.platform, answer.0, answer.1),
    {
        let (hr, inner) = self.inner.get_snapped_child(&location.inner);
        return_cursor(self.platform, hr, inner)
    }

    /// The stretch of `source` that the cursor's extent marks: the
    /// extent's offsets are asked for, and the text between them is cut
    /// out. Offsets that mark no stretch of `source` give no text.
    pub fn get_source<'a>(&self, source: &'a str) -> (res: Result<Option<&'a str>, HRESULT>)
        ensures
            exists|extent: (HRESULT, Option<C::SourceRange>)|
                call_ensures(C::get_extent, (&self.inner,), extent) && match handle_result(
                    extent.0,
                    extent.1,
                ) {
                    Ok(range) => exists|answer: (HRESULT, u32, u32)|
                        call_ensures(
                            <C::SourceRange as IDxcSourceRange>::get_offsets,
                            (&range,),
                            answer,
                        ) && if answer.0.failed() {
                            res == Err::<Option<&'a str>, HRESULT>(answer.0)
                        } else {
                            res matches Ok(slice) && match spec_source_slice(
                                source@,
                                DxcSourceOffsets { start_offset: answer.1, end_offset: answer.2 },
                            ) {
                                Some(bytes) => slice matches Some(text) && text.spec_bytes()
                                    == bytes,
                                None => slice is None,
                            }
                        },
                    Err(hr) => res == Err::<Option<&'a str>, HRESULT>(hr),
                },
    {
        let range = match self.get_extent() {
            Ok(range) => range,
            Err(hr) => {
                return Err(hr);
            },
        };
        let offsets = match range.get_offsets() {
            Ok(offsets) => offsets,
            Err(hr) => {
                return Err(hr);
            },
        };
        Ok(source_slice(source, &offsets))
    }
}

/// A handle to a parsed source file.
pub struct DxcTranslationUnit<T> {
    pub inner: T,
    pub platform: Platform,
}

impl<T: IDxcTranslationUnit> DxcTranslationUnit<T> {
    pub fn new(inner: T, platform: Platform) -> (unit: Self)
        ensures
            unit.inner == inner,
            unit.platform == platform,
    {
        DxcTranslationUnit { inner, platform }
    }

    /// The file of the translation unit with the given name, a
    /// zero-terminated byte string.
    pub fn get_file(&self, name: &[u8]) -> (res: Result<DxcFile<T::File>, HRESULT>)
        ensures
            exists|answer: (HRESULT, Option<T::File>)|
                call_ensures(T::get_file, (&self.inner, name), answer) && res
                    == match handle_result(answer.0, answer.1) {
                    Ok(inner) => Ok(DxcFile { inner }),
                    Err(hr) => Err(hr),
                },
    {
        let (hr, file) = self.inner.get_file(name);
        match return_hr_handle(hr, file) {
            Ok(inner) => Ok(DxcFile::new(inner)),
            Err(hr) => Err(hr),
        }
    }

    pub fn get_cursor(&self) -> (res: Result<DxcCursor<T::Cursor>, HRESULT>)
        ensures
            exists|answer: (HRESULT, Option<T::Cursor>)|
                call_ensures(T::get_cursor, (&self.inner,), answer) && res == cursor_result(
                    self.platform,
                    answer.0,
                    answer.1,
                ),
    {
        let (hr, cursor) = self.inner.get_cursor();
        return_cursor(self.platform, hr, cursor)
    }
}

/// Whether a file name and arguments can go to the parser: none of them
/// holds a zero character.
pub open spec fn parse_accepted(source_filename: Seq<char>, args: Seq<&str>) -> bool {
    &&& zero_free(source_filename)
    &&& forall|k: int| 0 <= k < args.len() ==> zero_free(#[trigger] args[k]@)
}

/// Whether none of `args` holds a zero character.
pub fn all_zero_free(args: &[&str]) -> (free: bool)
    ensures
        free == (forall|k: int| 0 <= k < args@.len() ==> zero_free(#[trigger] args@[k]@)),
{
    let mut k: usize = 0;
    while k < args.len()
        invariant
            k <= args@.len(),
            forall|j: int| 0 <= j < k ==> zero_free(#[trigger] args@[j]@),
        decreases args@.len() - k,
    {
        if !is_zero_free(args[k]) {
            return false;
        }
        k += 1;
    }
    true
}

/// Whether `narrow` holds the native narrow forms of `args`, one for one.
pub open spec fn narrow_arguments(args: Seq<&str>, narrow: Seq<Vec<u8>>) -> bool {
    &&& narrow.len() == args.len()
    &&& forall|i: int|
        0 <= i < args.len() ==> (#[trigger] narrow[i])@ == encode_utf8(args[i]@).push(0)
}

/// Whether `handles` holds the handles inside `files`, one for one.
pub open spec fn handles_of<U>(files: Seq<&DxcUnsavedFile<U>>, handles: Seq<&U>) -> bool {
    &&& handles.len() == files.len()
    &&& forall|i: int| 0 <= i < files.len() ==> *(#[trigger] handles[i]) == files[i].inner
}

/// A handle to a set of translation units.
pub struct DxcIndex<I> {
    pub inner: I,
    pub platform: Platform,
}

impl<I: IDxcIndex> DxcIndex<I> {
    pub fn new(inner: I, platform: Platform) -> (index: Self)
        ensures
            index.inner == inner,
            index.platform == platform,
    {
        DxcIndex { inner, platform }
    }

    /// Parses a source file. The file name and the arguments go to the
    /// native library as zero-terminated byte strings, the unsaved files
    /// as their handles, in the order given. A file name or an argument
    /// that holds a zero character is refused as an invalid argument, and
    /// the native library is not asked.
    pub fn parse_translation_unit(
        &self,
        source_filename: &str,
        args: &[&str],
        unsaved_files: &[&DxcUnsavedFile<I::UnsavedFile>],
        options: DxcTranslationUnitFlags,
    ) -> (res: Result<DxcTranslationUnit<I::TranslationUnit>, HRESULT>)
        ensures
            !parse_accepted(source_filename@, args@) ==> res == Err::<
                DxcTranslationUnit<I::TranslationUnit>,
                HRESULT,
            >(spec_invalid_argument()),
            parse_accepted(source_filename@, args@) ==> exists|
                filename: &[u8],
                arguments: &[Vec<u8>],
                files: &[&I::UnsavedFile],
                answer: (HRESULT, Option<I::TranslationUnit>),
            |
                #![trigger call_ensures(I::parse_translation_unit, (&self.inner, filename, arguments, files, options), answer)]
                {
                    &&& filename@ == encode_utf8(source_filename@).push(0)
                    &&& narrow_arguments(args@, arguments@)
                    &&& handles_of(unsaved_files@, files@)
                    &&& call_ensures(
                        I::parse_translation_unit,
                        (&self.inner, filename, arguments, files, options),
                        answer,
                    )
                    &&& res == match handle_result(answer.0, answer.1) {
                        Ok(inner) => Ok(DxcTranslationUnit { inner, platform: self.platform }),
                        Err(hr) => Err(hr),
                    }
                },
    {
        if !is_zero_free(source_filename) || !all_zero_free(args) {
            return Err(invalid_argument());
        }
        let c_source_filename = to_c_string(source_filename);
        let mut uf: Vec<&I::UnsavedFile> = Vec::new();
        let mut i: usize = 0;
        while i < unsaved_files.len()
            invariant
                i <= unsaved_files@.len(),
                uf@.len() == i,
                forall|j: int| 0 <= j < i ==> *(#[trigger] uf@[j]) == unsaved_files@[j].inner,
            decreases unsaved_files@.len() - i,
        {
            uf.push(&unsaved_files[i].inner);
            i += 1;
        }
        let mut c_args: Vec<Vec<u8>> = Vec::new();
        let mut k: usize = 0;
        while k < args.len()
            invariant
                k <= args@.len(),
                c_args@.len() == k,
                forall|j: int|
                    0 <= j < k ==> (#[trigger] c_args@[j])@ == encode_utf8(args@[j]@).push(0),
            decreases args@.len() - k,
        {
            c_args.push(to_c_string(args[k]));
            k += 1;
        }
        let (hr, tu) = self.inner.parse_translation_unit(
            c_source_filename.as_slice(),
            c_args.as_slice(),
            uf.as_slice(),
            options,
        );
        match return_hr_handle(hr, tu) {
            Ok(inner) => Ok(DxcTranslationUnit::new(inner, self.platform)),
            Err(hr) => Err(hr),
        }
    }
}

/// A handle to the code navigation service.
pub struct DxcIntellisense<I> {
    pub inner: I,
    pub platform: Platform,
}

impl<I: IDxcIntelliSense> DxcIntellisense<I> {
    pub fn new(inner: I, platform: Platform) -> (service: Self)
        ensures
            service.inner == inner,
            service.platform == platform,
    {
        DxcIntellisense { inner, platform }
    }

    pub fn get_default_editing_tu_options(&self) -> (res: Result<DxcTranslationUnitFlags, HRESULT>)
        ensures
            exists|answer: (HRESULT, DxcTranslationUnitFlags)|
                call_ensures(I::get_default_editing_tu_options, (&self.inner,), answer) && res
                    == status_result(answer.0, answer.1),
    {
        let (hr, options) = self.inner.get_default_editing_tu_options();
        return_hr(hr, options)
    }

    pub fn create_index(&self) -> (res: Result<DxcIndex<I::Index>, HRESULT>)
        ensures
            exists|answer: (HRESULT, Option<I::Index>)|
                call_ensures(I::create_index, (&self.inner,), answer) && res
                    == match handle_result(answer.0, answer.1) {
                    Ok(inner) => Ok(DxcIndex { inner, platform: self.platform }),
                    Err(hr) => Err(hr),
                },
    {
        let (hr, index) = self.inner.create_index();
        match return_hr_handle(hr, index) {
            Ok(inner) => Ok(DxcIndex::new(inner, self.platform)),
            Err(hr) => Err(hr),
        }
    }

    /// A file given in memory. The name and the contents go to the native
    /// library as zero-terminated byte strings, with the length of the
    /// contents, which does not count the terminator. A name or contents
    /// that hold a zero character, and contents whose length does not fit
    /// in thirty-two bits, are refused as an invalid argument, and the
    /// native library is not asked.
    pub fn create_unsaved_file(&self, file_name: &str, contents: &str) -> (res: Result<
        DxcUnsavedFile<I::UnsavedFile>,
        HRESULT,
    >)
        ensures
            !unsaved_file_accepted(file_name@, contents@) ==> res == Err::<
                DxcUnsavedFile<I::UnsavedFile>,
                HRESULT,
            >(spec_invalid_argument()),
            unsaved_file_accepted(file_name@, contents@) ==> exists|
                name: &[u8],
                text: &[u8],
                answer: (HRESULT, Option<I::UnsavedFile>),
            |
                #![trigger call_ensures(I::create_unsaved_file, (&self.inner, name, text, unsaved_length(contents@)), answer)]
                {
                    &&& name@ == encode_utf8(file_name@).push(0)
                    &&& text@ == encode_utf8(contents@).push(0)
                    &&& call_ensures(
                        I::create_unsaved_file,
                        (&self.inner, name, text, unsaved_length(contents@)),
                        answer,
                    )
                    &&& res == match handle_result(answer.0, answer.1) {
                        Ok(inner) => Ok(DxcUnsavedFile { inner }),
                        Err(hr) => Err(hr),
                    }
                },
    {
        let length = contents.as_bytes().len();
        if !is_zero_free(file_name) || !is_zero_free(contents) || length > u32::MAX as usize {
            return Err(invalid_argument());
        }
        let c_file_name = to_c_string(file_name);
        let c_contents = to_c_string(contents);
        let contents_length: u32 = length as u32;
        assert(contents_length == unsaved_length(contents@));
        let (hr, file) = self.inner.create_unsaved_file(
            c_file_name.as_slice(),
            c_contents.as_slice(),
            contents_length,
        );
        match return_hr_handle(hr, file) {
            Ok(inner) => Ok(DxcUnsavedFile::new(inner)),
            Err(hr) => Err(hr),
        }
    }
}

/// Whether a name and contents can make an unsaved file: neither holds a
/// zero character, and the length of the contents fits in thirty-two bits.
pub open spec fn unsaved_file_accepted(file_name: Seq<char>, contents: Seq<char>) -> bool {
    &&& zero_free(file_name)
    &&& zero_free(contents)
    &&& encode_utf8(contents).len() <= u32::MAX
}

/// The length that goes with the contents of an unsaved file: their
/// number of bytes in UTF-8.
pub open spec fn unsaved_length(contents: Seq<char>) -> u32 {
    encode_utf8(contents).len() as u32
}

impl<M: DxcModule> Dxc<M> {
    /// The code navigation service.
    pub fn create_intellisense<I: IDxcIntelliSense>(&self) -> (res: Result<
        DxcIntellisense<I>,
        HassleError,
    >) where M: DxcCreateInstanceProc<I>
        ensures
            exists|answer: Result<(HRESULT, Option<I>), String>|
                call_ensures(
                    <M as DxcCreateInstanceProc<I>>::create_instance,
                    (&self.dxc_lib, &CLSID_DxcIntelliSense, &IID_IDXC_INTELLI_SENSE),
                    answer,
                ) && res == match spec_return_hr_wrapped(answer) {
                    Ok(inner) => Ok(DxcIntellisense { inner, platform: self.platform }),
                    Err(failure) => Err(failure),
                },
    {
        match self.get_dxc_create_instance::<I>(&CLSID_DxcIntelliSense, &IID_IDXC_INTELLI_SENSE) {
            Ok(inner) => Ok(DxcIntellisense::new(inner, self.platform)),
            Err(failure) => Err(failure),
        }
    }
}

} // verus!
