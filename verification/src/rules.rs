//! The schema's rules on single fields. Each check gives its input back
//! unchanged where the input keeps the rule, and names the rule it breaks
//! otherwise.
use vstd::prelude::*;
use crate::pattern::{regex_match, id_text, line_text, tag_text};
use vstd::utf8::encode_utf8;

verus! {

/// A value that breaks one of the notebook schema's rules.
#[derive(Debug, Clone, Copy, PartialEq, Eq, Structural)]
pub enum SchemaError {
    /// `original_notebook_format` is below 1.
    OriginalFormatBelowOne,
    /// `nbformat` is not 4.
    NbformatNotFour,
    /// `nbformat_minor` is below 5.
    NbformatMinorBelowFive,
    /// A cell id is the empty string.
    EmptyCellId,
    /// A cell id is longer than 64 bytes.
    CellIdTooLong,
    /// A cell id does not match `^[a-zA-Z0-9\-_]+$`.
    CellIdPattern,
    /// A non-empty cell name does not match `^.+$`.
    CellNamePattern,
    /// A cell tag does not match `^[^,]+$`.
    CellTagPattern,
    /// A raw cell's `cell_type` is not `raw`.
    NotRawCellType,
    /// A markdown cell's `cell_type` is not `markdown`.
    NotMarkdownCellType,
    /// A code cell's `cell_type` is not `code`.
    NotCodeCellType,
}

/// The text that describes a broken rule.
pub open spec fn schema_message(e: SchemaError) -> Seq<char> {
    match e {
        SchemaError::OriginalFormatBelowOne => "original_notebook_format must be at least 1"@,
        SchemaError::NbformatNotFour => "nbformat must be 4"@,
        SchemaError::NbformatMinorBelowFive => "nbformat_minor must be 5 or greater"@,
        SchemaError::EmptyCellId => "Cell id cannot be empty"@,
        SchemaError::CellIdTooLong => "Cell id cannot be longer than 64 characters"@,
        SchemaError::CellIdPattern => "Cell id must match pattern ^[a-zA-Z0-9-_]+$"@,
        SchemaError::CellNamePattern => "Cell name must match pattern ^.+$"@,
        SchemaError::CellTagPattern => "Each cell tag must match pattern ^[^,]+$"@,
        SchemaError::NotRawCellType => "RawCell cell_type must be 'raw'"@,
        SchemaError::NotMarkdownCellType => "MarkdownCell cell_type must be 'markdown'"@,
        SchemaError::NotCodeCellType => "CodeCell cell_type must be 'code'"@,
    }
}

impl SchemaError {
    /// Describes the broken rule.
    pub fn message(&self) -> (m: String)
        ensures
            m@ == schema_message(*self),
    {
        match self {
            SchemaError::OriginalFormatBelowOne => String::from_str("original_notebook_format must be at least 1"),
            SchemaError::NbformatNotFour => String::from_str("nbformat must be 4"),
            SchemaError::NbformatMinorBelowFive => String::from_str("nbformat_minor must be 5 or greater"),
            SchemaError::EmptyCellId => String::from_str("Cell id cannot be empty"),
            SchemaError::CellIdTooLong => String::from_str("Cell id cannot be longer than 64 characters"),
            SchemaError::CellIdPattern => String::from_str("Cell id must match pattern ^[a-zA-Z0-9-_]+$"),
            SchemaError::CellNamePattern => String::from_str("Cell name must match pattern ^.+$"),
            SchemaError::CellTagPattern => String::from_str("Each cell tag must match pattern ^[^,]+$"),
            SchemaError::NotRawCellType => String::from_str("RawCell cell_type must be 'raw'"),
            SchemaError::NotMarkdownCellType => String::from_str("MarkdownCell cell_type must be 'markdown'"),
            SchemaError::NotCodeCellType => String::from_str("CodeCell cell_type must be 'code'"),
        }
    }
}

/// The pattern that cell ids must match.
pub const CELL_ID_PATTERN: &'static str = "^[a-zA-Z0-9\\-_]+$";

/// The pattern that non-empty cell names must match.
pub const CELL_NAME_PATTERN: &'static str = "^.+$";

/// The pattern that each cell tag must match.
pub const CELL_TAG_PATTERN: &'static str = "^[^,]+$";

/// The longest cell id, in bytes of its UTF-8 encoding.
pub const MAX_CELL_ID_BYTES: usize = 64;

/// `Ok(value)` where no rule is broken, else the broken rule.
pub open spec fn verdict<T>(value: T, broken: Option<SchemaError>) -> Result<T, SchemaError> {
    match broken {
        None => Ok(value),
        Some(e) => Err(e),
    }
}

/// `original_notebook_format`: absent, or at least 1.
pub open spec fn orig_nbformat_rule(value: Option<u64>) -> Option<SchemaError> {
    match value {
        Some(v) => if v < 1 { Some(SchemaError::OriginalFormatBelowOne) } else { None },
        None => None,
    }
}

/// `nbformat`: exactly 4.
pub open spec fn nbformat_rule(value: u64) -> Option<SchemaError> {
    if value != 4 { Some(SchemaError::NbformatNotFour) } else { None }
}

/// `nbformat_minor`: at least 5.
pub open spec fn nbformat_minor_rule(value: u64) -> Option<SchemaError> {
    if value < 5 { Some(SchemaError::NbformatMinorBelowFive) } else { None }
}

/// The rule on cell ids, checked in this order: not empty, at most 64
/// bytes of UTF-8, and matched by `^[a-zA-Z0-9\-_]+$`.
pub open spec fn cell_id_rule(id: Seq<char>) -> Option<SchemaError> {
    if id.len() == 0 {
        Some(SchemaError::EmptyCellId)
    } else if encode_utf8(id).len() > MAX_CELL_ID_BYTES {
        Some(SchemaError::CellIdTooLong)
    } else if !id_text(id) {
        Some(SchemaError::CellIdPattern)
    } else {
        None
    }
}

/// The rule on cell names: absent, empty, or matched by `^.+$`.
pub open spec fn cell_name_rule(name: Option<Seq<char>>) -> Option<SchemaError> {
    match name {
        Some(n) => if n.len() > 0 && !line_text(n) { Some(SchemaError::CellNamePattern) } else { None },
        None => None,
    }
}

/// Every tag is matched by `^[^,]+$`.
pub open spec fn all_tags_text(tags: Seq<Seq<char>>) -> bool {
    forall|i: int| 0 <= i < tags.len() ==> #[trigger] tag_text(tags[i])
}

/// The rule on cell tags: absent, or each tag matched by `^[^,]+$`.
pub open spec fn cell_tags_rule(tags: Option<Seq<Seq<char>>>) -> Option<SchemaError> {
    match tags {
        Some(t) => if all_tags_text(t) { None } else { Some(SchemaError::CellTagPattern) },
        None => None,
    }
}

/// A cell's `cell_type` must be the given word.
pub open spec fn cell_type_rule(value: Seq<char>, word: Seq<char>, broken: SchemaError) -> Option<SchemaError> {
    if value != word { Some(broken) } else { None }
}

/// Checks `original_notebook_format`: where present, at least 1.
pub fn check_orig_nbformat(value: Option<u64>) -> (r: Result<Option<u64>, SchemaError>)
    ensures
        r == verdict(value, orig_nbformat_rule(value)),
{
    if let Some(v) = value {
        if v < 1 {
            return Err(SchemaError::OriginalFormatBelowOne);
        }
    }
    Ok(value)
}

/// Checks `nbformat`: exactly 4.
pub fn check_nbformat(value: u64) -> (r: Result<u64, SchemaError>)
    ensures
        r == verdict(value, nbformat_rule(value)),
{
    if value != 4 {
        return Err(SchemaError::NbformatNotFour);
    }
    Ok(value)
}

/// Checks `nbformat_minor`: at least 5.
pub fn check_nbformat_minor(value: u64) -> (r: Result<u64, SchemaError>)
    ensures
        r == verdict(value, nbformat_minor_rule(value)),
{
    if value < 5 {
        return Err(SchemaError::NbformatMinorBelowFive);
    }
    Ok(value)
}

/// Checks a cell id: not empty, at most 64 bytes, made of ASCII letters,
/// digits, `-` and `_` (by the pattern `^[a-zA-Z0-9\-_]+$`).
pub fn check_cell_id(id: String) -> (r: Result<String, SchemaError>)
    ensures
        r == verdict(id, cell_id_rule(id@)),
{
    if id.as_str().is_empty() {
        return Err(SchemaError::EmptyCellId);
    }
    if id.as_str().as_bytes().len() > MAX_CELL_ID_BYTES {
        return Err(SchemaError::CellIdTooLong);
    }
    let matched = regex_match(CELL_ID_PATTERN, id.as_str()).unwrap();
    if !matched {
        return Err(SchemaError::CellIdPattern);
    }
    Ok(id)
}

/// Checks a cell name: absent, empty, or matched by `^.+$`.
pub fn check_cell_name(name: Option<String>) -> (r: Result<Option<String>, SchemaError>)
    ensures
        r == verdict(name, cell_name_rule(name.deep_view())),
{
    if let Some(n) = &name {
        if !n.as_str().is_empty() {
            let matched = regex_match(CELL_NAME_PATTERN, n.as_str()).unwrap();
            if !matched {
                return Err(SchemaError::CellNamePattern);
            }
        }
    }
    Ok(name)
}

/// Checks cell tags: absent, or each tag matched by `^[^,]+$`.
pub fn check_cell_tags(tags: Option<Vec<String>>) -> (r: Result<Option<Vec<String>>, SchemaError>)
    ensures
        r == verdict(tags, cell_tags_rule(tags.deep_view())),
{
    if let Some(t) = &tags {
        assert(tags.deep_view() == Some(t.deep_view()));
        let mut i: usize = 0;
        while i < t.len()
            invariant
                i <= t@.len(),
                tags.deep_view() == Some(t.deep_view()),
                forall|j: int| 0 <= j < i ==> #[trigger] tag_text(t.deep_view()[j]),
            decreases t.len() - i,
        {
            let matched = regex_match(CELL_TAG_PATTERN, t[i].as_str()).unwrap();
            assert(t.deep_view()[i as int] == t@[i as int]@);
            if !matched {
                assert(!tag_text(t.deep_view()[i as int]));
                assert(!all_tags_text(t.deep_view()));
                return Err(SchemaError::CellTagPattern);
            }
            i = i + 1;
        }
    }
    Ok(tags)
}

/// `value == word`, comparing characters.
fn same_text(value: &String, word: &str) -> (r: bool)
    ensures
        r == (value@ == word@),
{
    let w = String::from_str(word);
    *value == w
}

/// Checks a raw cell's `cell_type`: exactly `raw`.
pub fn check_raw_cell_type(value: String) -> (r: Result<String, SchemaError>)
    ensures
        r == verdict(value, cell_type_rule(value@, "raw"@, SchemaError::NotRawCellType)),
{
    if !same_text(&value, "raw") {
        return Err(SchemaError::NotRawCellType);
    }
    Ok(value)
}

/// Checks a markdown cell's `cell_type`: exactly `markdown`.
pub fn check_markdown_cell_type(value: String) -> (r: Result<String, SchemaError>)
    ensures
        r == verdict(value, cell_type_rule(value@, "markdown"@, SchemaError::NotMarkdownCellType)),
{
    if !same_text(&value, "markdown") {
        return Err(SchemaError::NotMarkdownCellType);
    }
    Ok(value)
}

/// Checks a code cell's `cell_type`: exactly `code`.
pub fn check_code_cell_type(value: String) -> (r: Result<String, SchemaError>)
    ensures
        r == verdict(value, cell_type_rule(value@, "code"@, SchemaError::NotCodeCellType)),
{
    if !same_text(&value, "code") {
        return Err(SchemaError::NotCodeCellType);
    }
    Ok(value)
}

} // verus!
