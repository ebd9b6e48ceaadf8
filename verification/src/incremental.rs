//! Incremental parsing: per-document state, text changes, and the
//! translation between (line, character) positions and byte offsets.

use vstd::prelude::*;

verus! {

use crate::engine::Edit;
use crate::error::ParseError;
use crate::parser::NixParser;
use crate::result::ParseResult;
use crate::strutil::str_eq;
use vstd::string::StrSliceExecFns;
use vstd::string::StringSliceAdditionalSpecFns;
use vstd::string::StringExecFns;

broadcast use vstd::std_specs::vec::axiom_vec_index_decreases, vstd::seq::axiom_seq_index_decreases;

/// A position in a document, zero-based, with the character measured in
/// sixteen-bit units as editors count them.
#[derive(Debug, Clone, Copy, PartialEq, Eq, Hash, Structural)]
pub struct Position {
    /// Line number, zero-based.
    pub line: usize,
    /// Character offset within the line, zero-based.
    pub character: usize,
}

impl Position {
    /// Builds a position.
    pub fn new(line: usize, character: usize) -> (r: Position)
        ensures
            r.line == line,
            r.character == character,
    {
        Position { line, character }
    }

    /// The document's first position.
    pub fn zero() -> (r: Position)
        ensures
            r.line == 0,
            r.character == 0,
    {
        Position { line: 0, character: 0 }
    }
}

/// A zero-based row and column pair, the column measured in bytes.
#[derive(Debug, Clone, Copy, PartialEq, Eq, Structural)]
pub struct Point {
    /// Row number, zero-based.
    pub row: usize,
    /// Column, zero-based, in bytes since the row's start.
    pub column: usize,
}

/// The byte length of one character's encoding.
pub open spec fn char_u8_len(c: char) -> int {
    let u = c as u32;
    if u < 0x80 {
        1
    } else if u < 0x800 {
        2
    } else if u < 0x10000 {
        3
    } else {
        4
    }
}

/// The sixteen-bit length of one character's encoding.
pub open spec fn char_u16_len(c: char) -> int {
    if (c as u32) < 0x10000 {
        1
    } else {
        2
    }
}

/// The byte length of the characters of `s[i..]`.
pub open spec fn byte_len_from(s: Seq<char>, i: int) -> int
    decreases s.len() - i,
{
    if i < 0 || i >= s.len() {
        0
    } else {
        char_u8_len(s[i]) + byte_len_from(s, i + 1)
    }
}

/// The byte offset a (line, character) position names, walked from
/// character `i` with the line, character and offset counted so far;
/// a position past the text names its end.
pub open spec fn pos_to_off_from(
    s: Seq<char>,
    tline: int,
    tchar: int,
    i: int,
    line: int,
    ch: int,
    off: int,
) -> int
    decreases s.len() - i,
{
    if line == tline && ch == tchar {
        off
    } else if i < 0 || i >= s.len() {
        off + byte_len_from(s, i)
    } else if s[i] == '\n' {
        pos_to_off_from(s, tline, tchar, i + 1, line + 1, 0, off + 1)
    } else {
        pos_to_off_from(s, tline, tchar, i + 1, line, ch + char_u16_len(s[i]), off + char_u8_len(
            s[i],
        ))
    }
}

/// The byte offset a (line, character) position names.
pub open spec fn spec_position_to_byte_offset(s: Seq<char>, tline: int, tchar: int) -> int {
    pos_to_off_from(s, tline, tchar, 0, 0, 0, 0)
}

/// The (row, column) point a byte offset names, walked from character
/// `i` with the offset, row and byte column counted so far.
pub open spec fn off_to_pos_from(
    s: Seq<char>,
    target: int,
    i: int,
    off: int,
    line: int,
    col: int,
) -> (int, int)
    decreases s.len() - i,
{
    if i < 0 || i >= s.len() || off >= target {
        (line, col)
    } else if s[i] == '\n' {
        off_to_pos_from(s, target, i + 1, off + 1, line + 1, 0)
    } else {
        off_to_pos_from(s, target, i + 1, off + char_u8_len(s[i]), line, col + char_u8_len(s[i]))
    }
}

/// The (row, column) point a byte offset names.
pub open spec fn spec_byte_offset_to_position(s: Seq<char>, target: int) -> (int, int) {
    off_to_pos_from(s, target, 0, 0, 0, 0)
}

/// Reads the byte length of one character.
fn exec_char_u8_len(c: char) -> (r: u8)
    ensures
        r as int == char_u8_len(c),
{
    let u = c as u32;
    if u < 0x80 {
        1
    } else if u < 0x800 {
        2
    } else if u < 0x10000 {
        3
    } else {
        4
    }
}

/// Translates a zero-based (line, character) position into a byte
/// offset against the given text; a position past the text names its
/// end.  A result past the machine range saturates.
pub fn position_to_byte_offset(source: &str, position: Position) -> (r: usize)
    ensures
        spec_position_to_byte_offset(source@, position.line as int, position.character as int)
            <= usize::MAX ==> r as int == spec_position_to_byte_offset(
            source@,
            position.line as int,
            position.character as int,
        ),
{
    let n = source.unicode_len();
    let mut i: usize = 0;
    let mut line: u128 = 0;
    let mut ch: u128 = 0;
    let mut off: u128 = 0;
    let ghost tl = position.line as int;
    let ghost tc = position.character as int;
    while i < n
        invariant
            0 <= i <= n,
            n == source@.len(),
            off <= 4 * i,
            line <= i,
            ch <= 2 * i,
            spec_position_to_byte_offset(source@, tl, tc) == pos_to_off_from(
                source@,
                tl,
                tc,
                i as int,
                line as int,
                ch as int,
                off as int,
            ),
            tl == position.line as int,
            tc == position.character as int,
        decreases n - i,
    {
        if line == position.line as u128 && ch == position.character as u128 {
            proof {
                assert(pos_to_off_from(source@, tl, tc, i as int, line as int, ch as int, off as int)
                    == off as int);
            }
            if off <= usize::MAX as u128 {
                return off as usize;
            } else {
                return usize::MAX;
            }
        }
        let c = source.get_char(i);
        if c == '\n' {
            line = line + 1;
            ch = 0;
            off = off + 1;
        } else {
            let l16: u128 = if (c as u32) < 0x10000 {
                1
            } else {
                2
            };
            ch = ch + l16;
            off = off + exec_char_u8_len(c) as u128;
        }
        i = i + 1;
    }
    if line == position.line as u128 && ch == position.character as u128 {
        proof {
            assert(pos_to_off_from(source@, tl, tc, n as int, line as int, ch as int, off as int)
                == off as int);
        }
    } else {
        proof {
            assert(byte_len_from(source@, n as int) == 0);
            assert(pos_to_off_from(source@, tl, tc, n as int, line as int, ch as int, off as int)
                == off as int);
        }
    }
    if off <= usize::MAX as u128 {
        off as usize
    } else {
        usize::MAX
    }
}

/// Translates a byte offset into a zero-based (row, column) point, the
/// column counted in bytes; values past the machine range saturate.
pub fn byte_offset_to_position(source: &str, byte_offset: usize) -> (r: Point)
    ensures
        ({
            let p = spec_byte_offset_to_position(source@, byte_offset as int);
            (p.0 <= usize::MAX && p.1 <= usize::MAX) ==> (r.row as int == p.0 && r.column as int
                == p.1)
        }),
{
    let n = source.unicode_len();
    let mut i: usize = 0;
    let mut off: u128 = 0;
    let mut line: u128 = 0;
    let mut col: u128 = 0;
    while i < n && off < byte_offset as u128
        invariant
            0 <= i <= n,
            n == source@.len(),
            off <= 4 * i,
            line <= i,
            col <= 4 * i,
            spec_byte_offset_to_position(source@, byte_offset as int) == off_to_pos_from(
                source@,
                byte_offset as int,
                i as int,
                off as int,
                line as int,
                col as int,
            ),
        decreases n - i,
    {
        let c = source.get_char(i);
        let l8 = exec_char_u8_len(c) as u128;
        if c == '\n' {
            off = off + 1;
            line = line + 1;
            col = 0;
        } else {
            off = off + l8;
            col = col + l8;
        }
        i = i + 1;
    }
    proof {
        assert(off_to_pos_from(
            source@,
            byte_offset as int,
            i as int,
            off as int,
            line as int,
            col as int,
        ) == (line as int, col as int));
    }
    let row: usize = if line <= usize::MAX as u128 {
        line as usize
    } else {
        usize::MAX
    };
    let column: usize = if col <= usize::MAX as u128 {
        col as usize
    } else {
        usize::MAX
    };
    Point { row, column }
}

/// One replacement of a (line, character) range by new text, described
/// against the old document.
#[derive(Debug, PartialEq, Eq)]
pub struct TextChange {
    /// Start of the replaced range, zero-based, inclusive.
    pub start: Position,
    /// End of the replaced range, zero-based, exclusive.
    pub end: Position,
    /// The replacement text; empty for a deletion.
    pub new_text: String,
}

impl Clone for TextChange {
    /// Clones the change, keeping its values.
    fn clone(&self) -> (res: Self)
        ensures
            res.start == self.start,
            res.end == self.end,
            res.new_text@ == self.new_text@,
    {
        TextChange { start: self.start, end: self.end, new_text: self.new_text.clone() }
    }
}

impl TextChange {
    /// Builds a change replacing the given range.
    pub fn new(start: Position, end: Position, new_text: &str) -> (r: TextChange)
        ensures
            r.start == start,
            r.end == end,
            r.new_text@ == new_text@,
    {
        TextChange { start, end, new_text: new_text.to_owned() }
    }

    /// Builds an insertion at a position.
    pub fn insert(position: Position, text: &str) -> (r: TextChange)
        ensures
            r.start == position,
            r.end == position,
            r.new_text@ == text@,
    {
        TextChange::new(position, position, text)
    }

    /// Builds a deletion of a range.
    pub fn delete(start: Position, end: Position) -> (r: TextChange)
        ensures
            r.start == start,
            r.end == end,
            r.new_text@.len() == 0,
    {
        proof {
            reveal_strlit("");
        }
        TextChange::new(start, end, "")
    }

    /// Builds a replacement of a range.
    pub fn replace(start: Position, end: Position, text: &str) -> (r: TextChange)
        ensures
            r.start == start,
            r.end == end,
            r.new_text@ == text@,
    {
        TextChange::new(start, end, text)
    }

    /// Describes this change as a byte-range edit for the engine: the
    /// start and old end come from the old text, and the new end is the
    /// start plus the replacement's byte length.
    pub fn to_tree_sitter_edit(&self, old_source: &str, new_source: &str) -> (r: Edit)
        ensures
            spec_position_to_byte_offset(
                old_source@,
                self.start.line as int,
                self.start.character as int,
            ) <= usize::MAX ==> r.start_byte as int == spec_position_to_byte_offset(
                old_source@,
                self.start.line as int,
                self.start.character as int,
            ),
            spec_position_to_byte_offset(
                old_source@,
                self.end.line as int,
                self.end.character as int,
            ) <= usize::MAX ==> r.old_end_byte as int == spec_position_to_byte_offset(
                old_source@,
                self.end.line as int,
                self.end.character as int,
            ),
            r.new_end_byte as int == r.start_byte as int + (vstd::utf8::encode_utf8(
                self.new_text@,
            ).len() as usize) as int || r.new_end_byte == usize::MAX,
            r.start_position == (self.start.line, self.start.character),
            r.old_end_position == (self.end.line, self.end.character),
            ({
                let p = spec_byte_offset_to_position(new_source@, r.new_end_byte as int);
                (p.0 <= usize::MAX && p.1 <= usize::MAX) ==> r.new_end_position == (
                    p.0 as usize,
                    p.1 as usize,
                )
            }),
    {
        let old_start_byte = position_to_byte_offset(old_source, self.start);
        let old_end_byte = position_to_byte_offset(old_source, self.end);
        let text_len = self.new_text.as_str().len();
        let new_end_byte: usize = if old_start_byte <= usize::MAX - text_len {
            old_start_byte + text_len
        } else {
            usize::MAX
        };
        let new_end = byte_offset_to_position(new_source, new_end_byte);
        Edit {
            start_byte: old_start_byte,
            old_end_byte,
            new_end_byte,
            start_position: (self.start.line, self.start.character),
            old_end_position: (self.end.line, self.end.character),
            new_end_position: (new_end.row, new_end.column),
        }
    }
}

/// The state kept for one tracked document.
pub struct DocumentState {
    /// The engine's tree for the document's current text.
    pub tree: tree_sitter::Tree,
    /// The current text.
    pub source: String,
    /// The version counter; the first parse is version one.
    pub version: u32,
}

/// Counts of tracked documents and their total source size.
#[derive(Debug, Clone, Copy, PartialEq, Eq, Structural)]
pub struct IncrementalStats {
    /// How many documents are tracked.
    pub document_count: usize,
    /// The total byte size of all tracked sources.
    pub total_source_size: usize,
}

/// The version counter after one successful update: one more, held at
/// the machine limit.
pub open spec fn bumped_version(v: u32) -> u32 {
    if v < u32::MAX {
        (v + 1) as u32
    } else {
        u32::MAX
    }
}

/// The parse path's own errors never spell the untracked-document
/// rejection: they differ in their leading characters.
proof fn lemma_parse_error_is_not_untracked(e: crate::error::ParseErrorModel, id: Seq<char>)
    requires
        crate::parser::is_parse_error(e),
    ensures
        e != untracked_error(id),
{
    reveal_strlit("Document '");
    reveal_strlit("Parse result contains errors but allow_errors is false");
    let u = "Document '"@ + id + "' not found. Call parse_document first."@;
    let p = "Parse result contains errors but allow_errors is false"@;
    assert("Document '"@.len() == 10);
    assert("Document '"@[0] == 'D');
    assert(p[0] == 'P');
    assert(u[0] == 'D');
    if u == p {
        assert(u[0] == p[0]);
    }
}

/// The total byte size of the stored sources of `docs[i..]`, added to
/// `acc` one document at a time, held at the machine limit.
pub open spec fn stored_sizes(docs: Seq<(Seq<char>, u32, Seq<char>)>, i: int, acc: int) -> int
    decreases docs.len() - i,
{
    if i < 0 || i >= docs.len() {
        acc
    } else {
        let t = acc + (vstd::utf8::encode_utf8(docs[i].2).len() as usize) as int;
        stored_sizes(
            docs,
            i + 1,
            if t <= usize::MAX {
                t
            } else {
                usize::MAX as int
            },
        )
    }
}

/// The error an update of an untracked document raises.
pub open spec fn untracked_error(id: Seq<char>) -> crate::error::ParseErrorModel {
    crate::error::ParseErrorModel::ValidationError(
        "Document '"@ + id + "' not found. Call parse_document first."@,
    )
}

/// A parser that keeps per-document state for incremental reparsing.
pub struct IncrementalParser {
    parser: NixParser,
    documents: Vec<(String, DocumentState)>,
}

/// The position of a tracked document, if any.
pub open spec fn doc_index(docs: Seq<(Seq<char>, u32, Seq<char>)>, id: Seq<char>, i: int) -> Option<
    int,
>
    decreases docs.len() - i,
{
    if i < 0 || i >= docs.len() {
        None
    } else if docs[i].0 == id {
        Some(i)
    } else {
        doc_index(docs, id, i + 1)
    }
}

impl IncrementalParser {
    /// The tracked documents: identifier, version and stored source, in
    /// storage order.  The engine's tree handle is opaque and carries no
    /// model; the stored source and version stand for the snapshot.
    pub closed spec fn doc_views(&self) -> Seq<(Seq<char>, u32, Seq<char>)> {
        Seq::new(
            self.documents@.len(),
            |i: int|
                if 0 <= i < self.documents@.len() {
                    (
                        self.documents@[i].0@,
                        self.documents@[i].1.version,
                        self.documents@[i].1.source@,
                    )
                } else {
                    arbitrary()
                },
        )
    }

    /// Whether the parser's cache state is sound.
    pub closed spec fn wf(&self) -> bool {
        self.parser.wf()
    }

    /// The tracked version of a document, if it is tracked.
    pub open spec fn spec_version(&self, id: Seq<char>) -> Option<u32> {
        match doc_index(self.doc_views(), id, 0) {
            Some(i) => Some(self.doc_views()[i].1),
            None => None,
        }
    }

    /// The stored source of a tracked document, if it is tracked.
    pub open spec fn spec_source_of(&self, id: Seq<char>) -> Option<Seq<char>> {
        match doc_index(self.doc_views(), id, 0) {
            Some(i) => Some(self.doc_views()[i].2),
            None => None,
        }
    }

    /// Builds an incremental parser.
    pub fn new() -> (r: core::result::Result<IncrementalParser, ParseError>)
        ensures
            r matches Ok(p) ==> p.wf() && p.doc_views().len() == 0,
    {
        match NixParser::new() {
            Ok(parser) => Ok(IncrementalParser { parser, documents: Vec::new() }),
            Err(e) => Err(e),
        }
    }

    /// Finds a tracked document's position.
    fn find_doc(&self, document_id: &str) -> (r: Option<usize>)
        ensures
            match r {
                Some(i) => doc_index(self.doc_views(), document_id@, 0) == Some(i as int) && i
                    < self.documents@.len(),
                None => doc_index(self.doc_views(), document_id@, 0) is None,
            },
    {
        let mut i: usize = 0;
        while i < self.documents.len()
            invariant
                0 <= i <= self.documents@.len(),
                doc_index(self.doc_views(), document_id@, 0) == doc_index(
                    self.doc_views(),
                    document_id@,
                    i as int,
                ),
                self.doc_views().len() == self.documents@.len(),
            decreases self.documents@.len() - i,
        {
            if str_eq(self.documents[i].0.as_str(), document_id) {
                proof {
                    assert(self.doc_views()[i as int].0 == self.documents@[i as int].0@);
                }
                return Some(i);
            }
            proof {
                assert(self.doc_views()[i as int].0 == self.documents@[i as int].0@);
            }
            i = i + 1;
        }
        None
    }

    /// Parses a document for the first time and starts tracking it at
    /// version one.
    pub fn parse_document(&mut self, document_id: &str, source: &str) -> (r: core::result::Result<
        ParseResult,
        ParseError,
    >)
        requires
            old(self).wf(),
        ensures
            final(self).wf(),
            r matches Ok(res) ==> crate::parser::result_valid(&res, source@),
            r matches Ok(res) ==> final(self).spec_version(document_id@) == Some(1u32)
                && final(self).spec_source_of(document_id@) == Some(source@),
            r matches Ok(res) ==> (forall|k: int|
                0 <= k < old(self).doc_views().len() && (#[trigger] old(
                    self,
                ).doc_views()[k]).0 != document_id@ ==> final(self).doc_views()[k] == old(
                    self,
                ).doc_views()[k]),
            r is Err ==> final(self).doc_views() == old(self).doc_views(),
    {
        let result = match self.parser.parse(source) {
            Ok(res) => res,
            Err(e) => {
                proof {
                    assert(self.doc_views() =~= old(self).doc_views());
                }
                return Err(e);
            },
        };
        let state = DocumentState {
            tree: crate::engine::tree_clone(result.tree()),
            source: source.to_owned(),
            version: 1,
        };
        let ghost before = self.doc_views();
        proof {
            assert(before =~= old(self).doc_views());
        }
        match self.find_doc(document_id) {
            Some(i) => {
                self.documents[i].1 = state;
                proof {
                    assert(self.doc_views().len() == before.len());
                    assert forall|k: int|
                        0 <= k < before.len() implies #[trigger] self.doc_views()[k].0
                        == before[k].0 by {
                        if k != i {
                            assert(self.documents@[k] == old(self).documents@[k]);
                        } else {
                            assert(self.documents@[k].0 == old(self).documents@[k].0);
                        }
                    }
                    lemma_doc_index_found(before, document_id@, 0, i as int);
                    assert forall|k: int|
                        0 <= k < before.len() && (#[trigger] before[k]).0 != document_id@
                            implies self.doc_views()[k] == before[k] by {
                        assert(before[i as int].0 == document_id@);
                        assert(k != i);
                        assert(self.documents@[k] == old(self).documents@[k]);
                    }
                    lemma_doc_index_stable(before, self.doc_views(), document_id@, 0);
                    assert(doc_index(self.doc_views(), document_id@, 0) == Some(i as int));
                    assert(self.doc_views()[i as int].1 == 1u32);
                    assert(self.doc_views()[i as int].2 == source@);
                }
            },
            None => {
                self.documents.push((document_id.to_owned(), state));
                proof {
                    assert(self.doc_views().len() == before.len() + 1);
                    assert forall|k: int| 0 <= k < before.len() implies #[trigger] self.doc_views()[k]
                        == before[k] by {
                        assert(self.documents@[k] == old(self).documents@[k]);
                    }
                    assert(self.doc_views()[before.len() as int].0 == document_id@);
                    assert(self.doc_views()[before.len() as int].1 == 1u32);
                    assert(self.doc_views()[before.len() as int].2 == source@);
                    lemma_doc_index_extend(before, self.doc_views(), document_id@, 0);
                }
            },
        }
        Ok(result)
    }

    /// Applies a batch of text changes to a tracked document and
    /// reparses it incrementally.  On success the document's entry alone
    /// is replaced — new source stored, version grown by exactly one —
    /// and the returned result carries the new source with diagnostics
    /// that are the collector's walk of its own tree.  On any failure,
    /// the untracked-identifier rejection included, the tracked state is
    /// left exactly as it was.
    pub fn update_document(
        &mut self,
        document_id: &str,
        changes: &[TextChange],
        new_source: &str,
    ) -> (r: core::result::Result<ParseResult, ParseError>)
        requires
            old(self).wf(),
        ensures
            final(self).wf(),
            doc_index(old(self).doc_views(), document_id@, 0) is None <==> (r matches Err(e)
                && e@ == untracked_error(document_id@)),
            r matches Ok(res) ==> res.spec_source() == new_source@ && res.coherent(),
            r is Ok ==> (doc_index(old(self).doc_views(), document_id@, 0) matches Some(i)
                ==> final(self).doc_views() == old(self).doc_views().update(
                i,
                (
                    old(self).doc_views()[i].0,
                    bumped_version(old(self).doc_views()[i].1),
                    new_source@,
                ),
            )),
            (doc_index(old(self).doc_views(), document_id@, 0) is Some && r matches Ok(res)) ==> (
            final(self).spec_version(document_id@) matches Some(v2)
                && old(self).spec_version(document_id@) matches Some(v1) && v2
                == bumped_version(v1)),
            r is Err ==> final(self).doc_views() == old(self).doc_views(),
    {
        let idx = match self.find_doc(document_id) {
            Some(i) => i,
            None => {
                let mut msg = String::new();
                msg.append("Document '");
                msg.append(document_id);
                msg.append("' not found. Call parse_document first.");
                proof {
                    assert(msg@ =~= "Document '"@ + document_id@
                        + "' not found. Call parse_document first."@);
                    assert(self.doc_views() =~= old(self).doc_views());
                }
                return Err(ParseError::ValidationError(msg));
            },
        };
        // Fold every change into a copy of the stored tree, translating
        // positions against the stored source.
        let mut tree = crate::engine::tree_clone(&self.documents[idx].1.tree);
        let mut i: usize = 0;
        while i < changes.len()
            invariant
                0 <= i <= changes@.len(),
                idx < self.documents@.len(),
            decreases changes@.len() - i,
        {
            let edit = changes[i].to_tree_sitter_edit(
                self.documents[idx].1.source.as_str(),
                new_source,
            );
            crate::engine::tree_edit(&mut tree, &edit);
            i = i + 1;
        }
        let result = match self.parser.parse_with_context(new_source, Some(&tree)) {
            Ok(res) => res,
            Err(e) => {
                proof {
                    lemma_parse_error_is_not_untracked(e@, document_id@);
                    assert(self.doc_views() =~= old(self).doc_views());
                }
                return Err(e);
            },
        };
        let ghost before = self.doc_views();
        let new_version: u32 = if self.documents[idx].1.version < u32::MAX {
            self.documents[idx].1.version + 1
        } else {
            u32::MAX
        };
        let state = DocumentState {
            tree: crate::engine::tree_clone(result.tree()),
            source: new_source.to_owned(),
            version: new_version,
        };
        self.documents[idx].1 = state;
        proof {
            assert(before =~= old(self).doc_views());
            assert(self.doc_views().len() == before.len());
            assert forall|k: int|
                0 <= k < before.len() implies #[trigger] self.doc_views()[k].0 == before[k].0 by {
                if k != idx {
                    assert(self.documents@[k] == old(self).documents@[k]);
                } else {
                    assert(self.documents@[k].0 == old(self).documents@[k].0);
                }
            }
            lemma_doc_index_stable(before, self.doc_views(), document_id@, 0);
            assert(self.doc_views()[idx as int].1 == new_version);
            assert(before[idx as int].1 == old(self).documents@[idx as int].1.version);
            assert(new_version == bumped_version(before[idx as int].1));
            assert(self.doc_views()[idx as int].2 == new_source@);
            assert forall|k: int|
                0 <= k < before.len() implies #[trigger] self.doc_views()[k] == before.update(
                idx as int,
                (before[idx as int].0, new_version, new_source@),
            )[k] by {
                if k != idx {
                    assert(self.documents@[k] == old(self).documents@[k]);
                }
            }
            assert(self.doc_views() =~= before.update(
                idx as int,
                (before[idx as int].0, new_version, new_source@),
            ));
        }
        Ok(result)
    }

    /// Stops tracking a document; reports whether it was tracked.  The
    /// found entry alone leaves; untracked identifiers change nothing.
    pub fn remove_document(&mut self, document_id: &str) -> (r: bool)
        requires
            old(self).wf(),
        ensures
            final(self).wf(),
            r == (doc_index(old(self).doc_views(), document_id@, 0) is Some),
            doc_index(old(self).doc_views(), document_id@, 0) matches Some(i)
                ==> final(self).doc_views() == old(self).doc_views().remove(i),
            doc_index(old(self).doc_views(), document_id@, 0) is None ==> final(self).doc_views()
                == old(self).doc_views(),
    {
        let ghost before = self.doc_views();
        match self.find_doc(document_id) {
            Some(i) => {
                self.documents.remove(i);
                proof {
                    assert(before =~= old(self).doc_views());
                    assert forall|k: int|
                        0 <= k < self.doc_views().len() implies #[trigger] self.doc_views()[k]
                        == before.remove(i as int)[k] by {
                        if k < i {
                            assert(self.documents@[k] == old(self).documents@[k]);
                        } else {
                            assert(self.documents@[k] == old(self).documents@[k + 1]);
                        }
                    }
                    assert(self.doc_views() =~= before.remove(i as int));
                }
                true
            },
            None => {
                proof {
                    assert(self.doc_views() =~= old(self).doc_views());
                }
                false
            },
        }
    }

    /// The tracked version of a document.
    pub fn document_version(&self, document_id: &str) -> (r: Option<u32>)
        ensures
            r == self.spec_version(document_id@),
    {
        match self.find_doc(document_id) {
            Some(i) => Some(self.documents[i].1.version),
            None => None,
        }
    }

    /// Whether a document is tracked.
    pub fn has_document(&self, document_id: &str) -> (r: bool)
        ensures
            r == (doc_index(self.doc_views(), document_id@, 0) is Some),
    {
        match self.find_doc(document_id) {
            Some(_) => true,
            None => false,
        }
    }

    /// Counts the tracked documents and their total source size, the
    /// size saturating at the machine limit.
    pub fn stats(&self) -> (r: IncrementalStats)
        ensures
            r.document_count == self.doc_views().len(),
            r.total_source_size as int == stored_sizes(self.doc_views(), 0, 0),
    {
        let ghost views = self.doc_views();
        let mut total: usize = 0;
        let mut i: usize = 0;
        while i < self.documents.len()
            invariant
                0 <= i <= self.documents@.len(),
                views == self.doc_views(),
                views.len() == self.documents@.len(),
                stored_sizes(views, 0, 0) == stored_sizes(views, i as int, total as int),
            decreases self.documents@.len() - i,
        {
            proof {
                assert(views[i as int].2 == self.documents@[i as int].1.source@);
            }
            let src = self.documents[i].1.source.as_str();
            let sz = src.len();
            proof {
                assert(src.spec_bytes() == vstd::utf8::encode_utf8(views[i as int].2));
            }
            if sz <= usize::MAX - total {
                total = total + sz;
            } else {
                total = usize::MAX;
            }
            i = i + 1;
        }
        IncrementalStats { document_count: self.documents.len(), total_source_size: total }
    }

    /// Stops tracking every document.
    pub fn clear(&mut self)
        requires
            old(self).wf(),
        ensures
            final(self).wf(),
            final(self).doc_views().len() == 0,
    {
        self.documents.clear();
    }
}

/// A found index lies in range and carries the identifier looked for.
proof fn lemma_doc_index_found(
    docs: Seq<(Seq<char>, u32, Seq<char>)>,
    id: Seq<char>,
    i: int,
    j: int,
)
    requires
        doc_index(docs, id, i) == Some(j),
    ensures
        i <= j < docs.len(),
        docs[j].0 == id,
    decreases docs.len() - i,
{
    if 0 <= i < docs.len() && docs[i].0 != id {
        lemma_doc_index_found(docs, id, i + 1, j);
    }
}

/// Replacing a document's state in place keeps lookups finding it.
proof fn lemma_doc_index_stable(
    before: Seq<(Seq<char>, u32, Seq<char>)>,
    after: Seq<(Seq<char>, u32, Seq<char>)>,
    id: Seq<char>,
    i: int,
)
    requires
        before.len() == after.len(),
        forall|k: int| 0 <= k < before.len() ==> #[trigger] after[k].0 == before[k].0,
    ensures
        match doc_index(before, id, i) {
            Some(j) => doc_index(after, id, i) == Some(j),
            None => doc_index(after, id, i) is None,
        },
    decreases before.len() - i,
{
    if 0 <= i < before.len() {
        lemma_doc_index_stable(before, after, id, i + 1);
    }
}

/// Appending a new document leaves earlier lookups as they were and
/// makes a previously untracked identifier found at the new position.
proof fn lemma_doc_index_extend(
    before: Seq<(Seq<char>, u32, Seq<char>)>,
    after: Seq<(Seq<char>, u32, Seq<char>)>,
    id: Seq<char>,
    i: int,
)
    requires
        after.len() == before.len() + 1,
        forall|k: int| 0 <= k < before.len() ==> #[trigger] after[k] == before[k],
        after[before.len() as int].0 == id,
        0 <= i <= before.len(),
        doc_index(before, id, i) is None,
    ensures
        doc_index(after, id, i) == Some(before.len() as int),
    decreases before.len() - i,
{
    if i == before.len() {
        assert(after[i].0 == id);
    } else {
        assert(before[i].0 != id);
        lemma_doc_index_extend(before, after, id, i + 1);
    }
}

} // verus!
