use vstd::prelude::*;

use crate::error::StashError;

verus! {

/// One line of a rendered diff, tagged by the origin marker the diff
/// engine gave it. Each variant holds the line's text exactly as emitted.
#[derive(Debug, PartialEq)]
pub enum LineDiff {
    /// `+`: a line added.
    Addition(String),
    /// `-`: a line removed.
    Deletion(String),
    /// `=`: context at the end of a file.
    ContextEndOfAFile(String),
    /// `>`: an added line at the end of a file, without a final newline.
    AddEndOfAFile(String),
    /// `<`: a removed line at the end of a file.
    RemoveEndOfAFile(String),
    /// `F`: a file header (`diff --git ...`).
    FileHeader(String),
    /// `H`: a hunk header (`@@ ... @@`).
    HunkHeader(String),
    /// `B`: a marker line for binary content.
    LineBinary(String),
    /// Any other marker: a plain context line.
    SameAsPrevious(String),
}

/// A line as the diff engine emits it: its origin marker and raw bytes.
pub struct RawLine {
    pub origin: char,
    pub content: Vec<u8>,
}

/// The markers that have a variant of their own.
pub open spec fn is_diff_marker(c: char) -> bool {
    c == '+' || c == '-' || c == '=' || c == '>' || c == '<' || c == 'F' || c == 'H' || c == 'B'
}

/// The text of a line decoded from UTF-8 bytes, or `None` where the bytes
/// are not valid UTF-8.
pub uninterp spec fn utf8_text(bytes: Seq<u8>) -> Option<Seq<char>>;

impl LineDiff {
    /// The text the line holds, whatever its kind.
    pub open spec fn text(self) -> Seq<char> {
        match self {
            LineDiff::Addition(s) => s@,
            LineDiff::Deletion(s) => s@,
            LineDiff::ContextEndOfAFile(s) => s@,
            LineDiff::AddEndOfAFile(s) => s@,
            LineDiff::RemoveEndOfAFile(s) => s@,
            LineDiff::FileHeader(s) => s@,
            LineDiff::HunkHeader(s) => s@,
            LineDiff::LineBinary(s) => s@,
            LineDiff::SameAsPrevious(s) => s@,
        }
    }

    /// The line's variant is the one that `marker` selects.
    pub open spec fn has_marker(self, marker: char) -> bool {
        match self {
            LineDiff::Addition(_) => marker == '+',
            LineDiff::Deletion(_) => marker == '-',
            LineDiff::ContextEndOfAFile(_) => marker == '=',
            LineDiff::AddEndOfAFile(_) => marker == '>',
            LineDiff::RemoveEndOfAFile(_) => marker == '<',
            LineDiff::FileHeader(_) => marker == 'F',
            LineDiff::HunkHeader(_) => marker == 'H',
            LineDiff::LineBinary(_) => marker == 'B',
            LineDiff::SameAsPrevious(_) => !is_diff_marker(marker),
        }
    }

    /// Classifies one line by its origin marker, keeping its text as it is.
    pub fn new(context: char, content: String) -> (r: LineDiff)
        ensures
            r.has_marker(context),
            r.text() == content@,
            context == '+' ==> r is Addition,
            context == '-' ==> r is Deletion,
            context == '=' ==> r is ContextEndOfAFile,
            context == '>' ==> r is AddEndOfAFile,
            context == '<' ==> r is RemoveEndOfAFile,
            context == 'F' ==> r is FileHeader,
            context == 'H' ==> r is HunkHeader,
            context == 'B' ==> r is LineBinary,
            !is_diff_marker(context) ==> r is SameAsPrevious,
    {
        match context {
            '+' => LineDiff::Addition(content),
            '-' => LineDiff::Deletion(content),
            '=' => LineDiff::ContextEndOfAFile(content),
            '>' => LineDiff::AddEndOfAFile(content),
            '<' => LineDiff::RemoveEndOfAFile(content),
            'F' => LineDiff::FileHeader(content),
            'H' => LineDiff::HunkHeader(content),
            'B' => LineDiff::LineBinary(content),
            _ => LineDiff::SameAsPrevious(content),
        }
    }
}

/// Relies on `std::str::from_utf8`: it accepts exactly the valid UTF-8
/// byte strings and decodes them; the result depends on the bytes alone.
#[verifier::external_body]
pub(crate) fn decode_utf8(bytes: &[u8]) -> (r: Option<String>)
    ensures
        match r {
            Some(s) => utf8_text(bytes@) == Some(s@),
            None => utf8_text(bytes@) is None,
        },
{
    std::str::from_utf8(bytes).ok().map(|s| s.to_string())
}

/// Every line of `lines` is the classification of the raw line at the
/// same position: same marker, and the decoded text of its bytes.
pub open spec fn classifies_all(raw: Seq<RawLine>, lines: Seq<LineDiff>) -> bool {
    &&& lines.len() == raw.len()
    &&& forall|i: int|
        0 <= i < raw.len() ==> {
            &&& #[trigger] lines[i].has_marker(raw[i].origin)
            &&& utf8_text(raw[i].content@) == Some(lines[i].text())
        }
}

/// `lines` is the classification of some sequence of raw lines.
pub open spec fn is_classification(lines: Seq<LineDiff>) -> bool {
    exists|raw: Seq<RawLine>| classifies_all(raw, lines)
}

/// Every raw line's bytes decode as UTF-8.
pub open spec fn all_decodable(raw: Seq<RawLine>) -> bool {
    forall|i: int| 0 <= i < raw.len() ==> (#[trigger] utf8_text(raw[i].content@)) is Some
}

/// Decodes and classifies one raw line; fails where its bytes are not UTF-8.
pub fn classify_line(origin: char, content: &[u8]) -> (r: Result<LineDiff, StashError>)
    ensures
        match utf8_text(content@) {
            Some(t) => r matches Ok(l) && l.has_marker(origin) && l.text() == t,
            None => r matches Err(e) && e is DecodingFailed,
        },
{
    match decode_utf8(content) {
        Some(text) => Ok(LineDiff::new(origin, text)),
        None => Err(StashError::DecodingFailed),
    }
}

/// Classifies the raw lines of a diff, in the order given. The whole call
/// fails with `DecodingFailed` if any one line is not UTF-8.
pub fn classify_lines(raw: &Vec<RawLine>) -> (r: Result<Vec<LineDiff>, StashError>)
    ensures
        r is Ok <==> all_decodable(raw@),
        r matches Ok(lines) ==> classifies_all(raw@, lines@),
        r matches Err(e) ==> e is DecodingFailed,
{
    let mut lines: Vec<LineDiff> = Vec::new();
    let mut i: usize = 0;
    while i < raw.len()
        invariant
            i <= raw@.len(),
            classifies_all(raw@.subrange(0, i as int), lines@),
            all_decodable(raw@.subrange(0, i as int)),
        decreases raw@.len() - i,
    {
        let line = &raw[i];
        match classify_line(line.origin, line.content.as_slice()) {
            Ok(l) => {
                lines.push(l);
            },
            Err(e) => {
                assert(!all_decodable(raw@)) by {
                    assert(utf8_text(raw@[i as int].content@) is None);
                }
                return Err(e);
            },
        }
        i = i + 1;
        assert(raw@.subrange(0, i as int).drop_last() =~= raw@.subrange(0, i - 1));
    }
    assert(raw@.subrange(0, i as int) =~= raw@);
    Ok(lines)
}

} // verus!
