//! Decoding parsed JSON into the notebook's types.
//!
//! A struct is read from a JSON object or from a JSON array. The members of
//! an object are read in their order: a member whose key names no field is
//! passed over, a field's key met a second time is `DuplicateField`, and
//! the first member whose value does not decode as its field decides the
//! error; only then is a missing member an error (`MissingField`). The
//! items of an array are read in the order in which the type declares its
//! fields: an array that ends before a field without a default is
//! `InvalidLength`, and one with more items than the struct has fields is
//! refused after its fields are read (`TooManyItems`). A field of type
//! `Option` reads `null`, and an absent member, as `None`; a field with a
//! schema rule reads its value first and then checks the rule.
//!
//! `DuplicateField` comes only from a `Json` built with a key twice: the
//! `from_json_str` functions parse with `parse_json`, which keeps one member
//! per key (the last value, at the first place), so for text a field's key
//! written twice is read with its last value and not refused.
use vstd::prelude::*;
use crate::json::{
    entry, entry_of, err_of, find_member_index, has_too_many_items, json_document, key_is,
    key_seen_before, no_key_before, object_error, object_error_of, parse_json, too_many_items,
    DecodeError, Json,
};
use crate::model::{
    authors_view, Author, AuthorView, Cell, CodeCell, CodeCellView, KernelSpec, KernelSpecView,
    LanguageInfo, LanguageInfoView, MarkdownCell, MarkdownCellView, Notebook, NotebookMetadata,
    NotebookMetadataView, NotebookView, RawCell, RawCellJupyterMetadata, RawCellMetadata,
    RawCellMetadataView, RawCellView,
};
use crate::rules::{
    cell_id_rule, cell_name_rule, cell_tags_rule, cell_type_rule, check_cell_id, check_cell_name,
    check_cell_tags, check_code_cell_type, check_markdown_cell_type, check_nbformat,
    check_nbformat_minor, check_orig_nbformat, check_raw_cell_type, nbformat_minor_rule,
    nbformat_rule, orig_nbformat_rule, SchemaError,
};

verus! {

// ---------------------------------------------------------------------
// Specification: what each decoder gives.
// ---------------------------------------------------------------------

/// A JSON string.
pub open spec fn string_of(v: Json) -> Result<Seq<char>, DecodeError> {
    match v {
        Json::Str(s) => Ok(s@),
        _ => Err(DecodeError::WrongType),
    }
}

/// A JSON number that is a non-negative integer of 64 bits.
pub open spec fn u64_of(v: Json) -> Result<u64, DecodeError> {
    match v {
        Json::Number(n) => match n.unsigned {
            Some(u) => Ok(u),
            None => Err(DecodeError::WrongType),
        },
        _ => Err(DecodeError::WrongType),
    }
}

/// A JSON boolean.
pub open spec fn bool_of(v: Json) -> Result<bool, DecodeError> {
    match v {
        Json::Bool(b) => Ok(b),
        _ => Err(DecodeError::WrongType),
    }
}

/// `null` as `None`, anything else decoded by `d`.
pub open spec fn nullable<T>(v: Json, d: spec_fn(Json) -> Result<T, DecodeError>) -> Result<Option<T>, DecodeError> {
    match v {
        Json::Null => Ok(None),
        _ => match d(v) {
            Ok(x) => Ok(Some(x)),
            Err(e) => Err(e),
        },
    }
}

/// What an absent field is: a missing member of an object, or an array
/// with too few items.
pub open spec fn absent(in_object: bool) -> DecodeError {
    if in_object {
        DecodeError::MissingField
    } else {
        DecodeError::InvalidLength
    }
}

/// A field that must be present (`in_object` tells a struct written as an
/// object from one written as an array).
pub open spec fn required<T>(f: Option<Json>, in_object: bool, d: spec_fn(Json) -> Result<T, DecodeError>) -> Result<T, DecodeError> {
    match f {
        Some(v) => d(v),
        None => Err(absent(in_object)),
    }
}

/// A field of type `Option`: `null` reads as `None`, and so does an absent
/// member where `absent_ok` (a struct written as an object); an absent item
/// of a struct written as an array is an error.
pub open spec fn optional<T>(f: Option<Json>, absent_ok: bool, d: spec_fn(Json) -> Result<T, DecodeError>) -> Result<Option<T>, DecodeError> {
    match f {
        Some(v) => nullable(v, d),
        None => if absent_ok {
            Ok(None)
        } else {
            Err(DecodeError::InvalidLength)
        },
    }
}

/// Each item decoded by `d`; the first item that fails decides the error.
pub open spec fn list_of<T>(items: Seq<Json>, d: spec_fn(Json) -> Result<T, DecodeError>) -> Result<Seq<T>, DecodeError>
    decreases items.len(),
{
    if items.len() == 0 {
        Ok(Seq::empty())
    } else {
        match list_of(items.drop_last(), d) {
            Err(e) => Err(e),
            Ok(init) => match d(items.last()) {
                Err(e) => Err(e),
                Ok(x) => Ok(init.push(x)),
            },
        }
    }
}

/// A JSON array, each item decoded by `d`.
pub open spec fn array_of<T>(v: Json, d: spec_fn(Json) -> Result<T, DecodeError>) -> Result<Seq<T>, DecodeError> {
    match v {
        Json::Array(items) => list_of(items@, d),
        _ => Err(DecodeError::WrongType),
    }
}

/// Where a list decoder fails on a prefix, it fails the same on the whole.
proof fn lemma_list_of_prefix_err<T>(items: Seq<Json>, d: spec_fn(Json) -> Result<T, DecodeError>, k: int, m: int)
    requires
        0 <= k <= m <= items.len(),
        list_of(items.take(k), d) is Err,
    ensures
        list_of(items.take(m), d) == list_of(items.take(k), d),
    decreases m - k,
{
    if m > k {
        lemma_list_of_prefix_err(items, d, k, m - 1);
        assert(items.take(m).drop_last() =~= items.take(m - 1));
    }
}

/// Extending a decoded prefix by one item.
proof fn lemma_list_of_step<T>(items: Seq<Json>, d: spec_fn(Json) -> Result<T, DecodeError>, i: int)
    requires
        0 <= i < items.len(),
    ensures
        list_of(items.take(i + 1), d) == (match list_of(items.take(i), d) {
            Err(e) => Err(e),
            Ok(init) => match d(items[i]) {
                Err(e) => Err(e),
                Ok(x) => Ok(init.push(x)),
            },
        }),
{
    assert(items.take(i + 1).drop_last() =~= items.take(i));
    assert(items.take(i + 1).last() == items[i]);
}

/// The whole list is its longest prefix.
proof fn lemma_list_of_full<T>(items: Seq<Json>, d: spec_fn(Json) -> Result<T, DecodeError>)
    ensures
        list_of(items.take(items.len() as int), d) == list_of(items, d),
{
    assert(items.take(items.len() as int) =~= items);
}

/// A result seen through the view of its value.
pub open spec fn rv<T: View>(r: Result<T, DecodeError>) -> Result<T::V, DecodeError> {
    match r {
        Ok(x) => Ok(x@),
        Err(e) => Err(e),
    }
}

/// An optional result seen through the view of its value.
pub open spec fn orv<T: View>(r: Result<Option<T>, DecodeError>) -> Result<Option<T::V>, DecodeError> {
    match r {
        Ok(Some(x)) => Ok(Some(x@)),
        Ok(None) => Ok(None),
        Err(e) => Err(e),
    }
}

/// A result seen through the deep view of its value.
pub open spec fn rdv<T: DeepView>(r: Result<T, DecodeError>) -> Result<T::V, DecodeError> {
    match r {
        Ok(x) => Ok(x.deep_view()),
        Err(e) => Err(e),
    }
}

/// A decoded value, or the schema rule that it breaks.
pub open spec fn lift<T>(x: T, broken: Option<SchemaError>) -> Result<T, DecodeError> {
    match broken {
        None => Ok(x),
        Some(e) => Err(DecodeError::Schema(e)),
    }
}

pub open spec fn string_decoder() -> spec_fn(Json) -> Result<Seq<char>, DecodeError> {
    |v: Json| string_of(v)
}

pub open spec fn u64_decoder() -> spec_fn(Json) -> Result<u64, DecodeError> {
    |v: Json| u64_of(v)
}

pub open spec fn bool_decoder() -> spec_fn(Json) -> Result<bool, DecodeError> {
    |v: Json| bool_of(v)
}

/// A required string field.
pub open spec fn req_string(f: Option<Json>, in_object: bool) -> Result<Seq<char>, DecodeError> {
    required(f, in_object, string_decoder())
}

/// An optional string field.
pub open spec fn opt_string(f: Option<Json>, absent_ok: bool) -> Result<Option<Seq<char>>, DecodeError> {
    optional(f, absent_ok, string_decoder())
}

/// An optional integer member.
pub open spec fn opt_u64(f: Option<Json>, absent_ok: bool) -> Result<Option<u64>, DecodeError> {
    optional(f, absent_ok, u64_decoder())
}

/// An optional boolean member.
pub open spec fn opt_bool(f: Option<Json>, absent_ok: bool) -> Result<Option<bool>, DecodeError> {
    optional(f, absent_ok, bool_decoder())
}

/// A JSON array of strings.
pub open spec fn strings_of(v: Json) -> Result<Seq<Seq<char>>, DecodeError> {
    array_of(v, string_decoder())
}

pub open spec fn strings_decoder() -> spec_fn(Json) -> Result<Seq<Seq<char>>, DecodeError> {
    |v: Json| strings_of(v)
}

// ---------------------------------------------------------------------
// Member decoders.
// ---------------------------------------------------------------------

fn string_value(v: &Json) -> (r: Result<String, DecodeError>)
    ensures
        rv(r) == string_of(*v),
{
    match v {
        Json::Str(s) => Ok(s.clone()),
        _ => Err(DecodeError::WrongType),
    }
}

fn u64_value(v: &Json) -> (r: Result<u64, DecodeError>)
    ensures
        r == u64_of(*v),
{
    match v {
        Json::Number(n) => match n.unsigned {
            Some(u) => Ok(u),
            None => Err(DecodeError::WrongType),
        },
        _ => Err(DecodeError::WrongType),
    }
}

fn bool_value(v: &Json) -> (r: Result<bool, DecodeError>)
    ensures
        r == bool_of(*v),
{
    match v {
        Json::Bool(b) => Ok(*b),
        _ => Err(DecodeError::WrongType),
    }
}

fn req_string_member(j: &Json, index: usize, key: &str) -> (r: Result<String, DecodeError>)
    ensures
        rv(r) == req_string(entry(*j, index as int, key@), *j is Object),
{
    match entry_of(j, index, key) {
        Some(v) => string_value(v),
        None => Err(absent_error(j)),
    }
}

fn opt_string_member(j: &Json, index: usize, key: &str) -> (r: Result<Option<String>, DecodeError>)
    ensures
        orv(r) == opt_string(entry(*j, index as int, key@), *j is Object),
{
    match entry_of(j, index, key) {
        Some(Json::Null) => Ok(None),
        Some(v) => match string_value(v) {
            Ok(s) => Ok(Some(s)),
            Err(e) => Err(e),
        },
        None => if is_object(j) {
            Ok(None)
        } else {
            Err(DecodeError::InvalidLength)
        },
    }
}

fn opt_u64_member(j: &Json, index: usize, key: &str) -> (r: Result<Option<u64>, DecodeError>)
    ensures
        r == opt_u64(entry(*j, index as int, key@), *j is Object),
{
    match entry_of(j, index, key) {
        Some(Json::Null) => Ok(None),
        Some(v) => match u64_value(v) {
            Ok(u) => Ok(Some(u)),
            Err(e) => Err(e),
        },
        None => if is_object(j) {
            Ok(None)
        } else {
            Err(DecodeError::InvalidLength)
        },
    }
}

fn opt_bool_member(j: &Json, index: usize, key: &str) -> (r: Result<Option<bool>, DecodeError>)
    ensures
        r == opt_bool(entry(*j, index as int, key@), *j is Object),
{
    match entry_of(j, index, key) {
        Some(Json::Null) => Ok(None),
        Some(v) => match bool_value(v) {
            Ok(b) => Ok(Some(b)),
            Err(e) => Err(e),
        },
        None => if is_object(j) {
            Ok(None)
        } else {
            Err(DecodeError::InvalidLength)
        },
    }
}

fn absent_error(j: &Json) -> (e: DecodeError)
    ensures
        e == absent(*j is Object),
{
    if is_object(j) {
        DecodeError::MissingField
    } else {
        DecodeError::InvalidLength
    }
}

fn is_record(j: &Json) -> (b: bool)
    ensures
        b == (*j is Object || *j is Array),
{
    match j {
        Json::Object(_) => true,
        Json::Array(_) => true,
        _ => false,
    }
}

fn is_object(j: &Json) -> (b: bool)
    ensures
        b == (*j is Object),
{
    match j {
        Json::Object(_) => true,
        _ => false,
    }
}

/// The error of a result, if it has one.
fn error_of<T>(r: Result<T, DecodeError>) -> (e: Option<DecodeError>)
    ensures
        e == err_of(r),
{
    match r {
        Ok(_) => None,
        Err(e) => Some(e),
    }
}

/// The error of reading `v` as an optional string.
fn opt_string_error(v: &Json) -> (e: Option<DecodeError>)
    ensures
        e == err_of(opt_string(Some(*v), true)),
{
    match v {
        Json::Null => None,
        _ => error_of(string_value(v)),
    }
}

fn strings_value(v: &Json) -> (r: Result<Vec<String>, DecodeError>)
    ensures
        rdv(r) == strings_of(*v),
{
    match v {
        Json::Array(items) => {
            let ghost d = string_decoder();
            let mut out: Vec<String> = Vec::new();
            let mut i: usize = 0;
            assert(items@.take(0) =~= Seq::<Json>::empty());
            assert(out.deep_view() =~= Seq::<Seq<char>>::empty());
            while i < items.len()
                invariant
                    i <= items@.len(),
                    d == string_decoder(),
                    strings_of(*v) == list_of(items@, d),
                    list_of(items@.take(i as int), d) == Ok::<Seq<Seq<char>>, DecodeError>(out.deep_view()),
                decreases items.len() - i,
            {
                proof {
                    lemma_list_of_step(items@, d, i as int);
                }
                match string_value(&items[i]) {
                    Ok(s) => {
                        let ghost before = out.deep_view();
                        out.push(s);
                        assert(out.deep_view() =~= before.push(s@));
                    },
                    Err(e) => {
                        proof {
                            lemma_list_of_prefix_err(items@, d, i + 1, items@.len() as int);
                            lemma_list_of_full(items@, d);
                        }
                        return Err(e);
                    },
                }
                i = i + 1;
            }
            proof {
                lemma_list_of_full(items@, d);
            }
            Ok(out)
        },
        _ => Err(DecodeError::WrongType),
    }
}

// ---------------------------------------------------------------------
// The fields with schema rules, read from their JSON value.
// ---------------------------------------------------------------------

/// `original_notebook_format`: `null`, or an integer of at least 1.
pub open spec fn orig_nbformat_of(v: Json) -> Result<Option<u64>, DecodeError> {
    match nullable(v, u64_decoder()) {
        Err(e) => Err(e),
        Ok(x) => lift(x, orig_nbformat_rule(x)),
    }
}

/// `nbformat`: the integer 4.
pub open spec fn nbformat_of(v: Json) -> Result<u64, DecodeError> {
    match u64_of(v) {
        Err(e) => Err(e),
        Ok(x) => lift(x, nbformat_rule(x)),
    }
}

/// `nbformat_minor`: an integer of at least 5.
pub open spec fn nbformat_minor_of(v: Json) -> Result<u64, DecodeError> {
    match u64_of(v) {
        Err(e) => Err(e),
        Ok(x) => lift(x, nbformat_minor_rule(x)),
    }
}

/// A cell id: a string that keeps the cell-id rule.
pub open spec fn cell_id_of(v: Json) -> Result<Seq<char>, DecodeError> {
    match string_of(v) {
        Err(e) => Err(e),
        Ok(x) => lift(x, cell_id_rule(x)),
    }
}

/// A cell name: `null`, or a string that keeps the cell-name rule.
pub open spec fn cell_name_of(v: Json) -> Result<Option<Seq<char>>, DecodeError> {
    match nullable(v, string_decoder()) {
        Err(e) => Err(e),
        Ok(x) => lift(x, cell_name_rule(x)),
    }
}

/// Cell tags: `null`, or an array of strings that keep the tag rule.
pub open spec fn cell_tags_of(v: Json) -> Result<Option<Seq<Seq<char>>>, DecodeError> {
    match nullable(v, strings_decoder()) {
        Err(e) => Err(e),
        Ok(x) => lift(x, cell_tags_rule(x)),
    }
}

/// A `cell_type`: the string `word`.
pub open spec fn cell_type_of(v: Json, word: Seq<char>, broken: SchemaError) -> Result<Seq<char>, DecodeError> {
    match string_of(v) {
        Err(e) => Err(e),
        Ok(x) => lift(x, cell_type_rule(x, word, broken)),
    }
}

/// Reads `original_notebook_format` from its JSON value.
pub fn deserialize_orig_nbformat(v: &Json) -> (r: Result<Option<u64>, DecodeError>)
    ensures
        r == orig_nbformat_of(*v),
{
    let x = match v {
        Json::Null => None,
        _ => Some(u64_value(v)?),
    };
    match check_orig_nbformat(x) {
        Ok(x) => Ok(x),
        Err(e) => Err(DecodeError::Schema(e)),
    }
}

/// Reads `nbformat` from its JSON value.
pub fn deserialize_nbformat(v: &Json) -> (r: Result<u64, DecodeError>)
    ensures
        r == nbformat_of(*v),
{
    let x = u64_value(v)?;
    match check_nbformat(x) {
        Ok(x) => Ok(x),
        Err(e) => Err(DecodeError::Schema(e)),
    }
}

/// Reads `nbformat_minor` from its JSON value.
pub fn deserialize_nbformat_minor(v: &Json) -> (r: Result<u64, DecodeError>)
    ensures
        r == nbformat_minor_of(*v),
{
    let x = u64_value(v)?;
    match check_nbformat_minor(x) {
        Ok(x) => Ok(x),
        Err(e) => Err(DecodeError::Schema(e)),
    }
}

/// Reads a cell id from its JSON value, which must be a string.
pub fn deserialize_cell_id(v: &Json) -> (r: Result<String, DecodeError>)
    requires
        *v is Str,
    ensures
        rv(r) == cell_id_of(*v),
{
    let x = string_value(v)?;
    match check_cell_id(x) {
        Ok(x) => Ok(x),
        Err(e) => Err(DecodeError::Schema(e)),
    }
}

/// Reads a cell name from its JSON value.
pub fn deserialize_cell_name(v: &Json) -> (r: Result<Option<String>, DecodeError>)
    ensures
        rdv(r) == cell_name_of(*v),
{
    let x = match v {
        Json::Null => None,
        _ => Some(string_value(v)?),
    };
    match check_cell_name(x) {
        Ok(x) => Ok(x),
        Err(e) => Err(DecodeError::Schema(e)),
    }
}

/// Reads cell tags from their JSON value.
pub fn deserialize_cell_tags(v: &Json) -> (r: Result<Option<Vec<String>>, DecodeError>)
    ensures
        rdv(r) == cell_tags_of(*v),
{
    let x = match v {
        Json::Null => None,
        _ => Some(strings_value(v)?),
    };
    match check_cell_tags(x) {
        Ok(x) => Ok(x),
        Err(e) => Err(DecodeError::Schema(e)),
    }
}

/// Reads a raw cell's `cell_type` from its JSON value.
pub fn deserialize_raw_cell_type(v: &Json) -> (r: Result<String, DecodeError>)
    ensures
        rv(r) == cell_type_of(*v, "raw"@, SchemaError::NotRawCellType),
{
    let x = string_value(v)?;
    match check_raw_cell_type(x) {
        Ok(x) => Ok(x),
        Err(e) => Err(DecodeError::Schema(e)),
    }
}

/// Reads a markdown cell's `cell_type` from its JSON value.
pub fn deserialize_markdown_cell_type(v: &Json) -> (r: Result<String, DecodeError>)
    ensures
        rv(r) == cell_type_of(*v, "markdown"@, SchemaError::NotMarkdownCellType),
{
    let x = string_value(v)?;
    match check_markdown_cell_type(x) {
        Ok(x) => Ok(x),
        Err(e) => Err(DecodeError::Schema(e)),
    }
}

/// Reads a code cell's `cell_type` from its JSON value.
pub fn deserialize_code_cell_type(v: &Json) -> (r: Result<String, DecodeError>)
    ensures
        rv(r) == cell_type_of(*v, "code"@, SchemaError::NotCodeCellType),
{
    let x = string_value(v)?;
    match check_code_cell_type(x) {
        Ok(x) => Ok(x),
        Err(e) => Err(DecodeError::Schema(e)),
    }
}

// ---------------------------------------------------------------------
// KernelSpec, LanguageInfo, Author.
// ---------------------------------------------------------------------

/// A document read from JSON text, by the decoder `d`.
pub open spec fn from_text<T>(doc: Option<Json>, d: spec_fn(Json) -> Result<T, DecodeError>) -> Result<T, DecodeError> {
    match doc {
        Some(j) => d(j),
        None => Err(DecodeError::Syntax),
    }
}

/// What a kernel spec makes of one member of an object (see
/// `member_error`).
pub open spec fn kernel_spec_member(k: Seq<char>, v: Json) -> Option<Option<DecodeError>> {
    if k == "name"@ || k == "display_name"@ {
        Some(err_of(req_string(Some(v), true)))
    } else {
        None
    }
}

pub open spec fn kernel_spec_members() -> spec_fn(Seq<char>, Json) -> Option<Option<DecodeError>> {
    |k: Seq<char>, v: Json| kernel_spec_member(k, v)
}

fn kernel_spec_member_check(k: &str, v: &Json) -> (c: Option<Option<DecodeError>>)
    ensures
        c == kernel_spec_member(k@, *v),
{
    if key_is(k, "name") || key_is(k, "display_name") {
        Some(error_of(string_value(v)))
    } else {
        None
    }
}

/// A kernel spec: an object with the strings `name` and `display_name`.
/// The members of an object are read in their order; the first that fails
/// decides the error, and only then is a missing field an error.
pub open spec fn kernel_spec_of(j: Json) -> Result<KernelSpecView, DecodeError> {
    if !(j is Object || j is Array) {
        Err(DecodeError::WrongType)
    } else if object_error(j, kernel_spec_members()) is Some {
        Err(object_error(j, kernel_spec_members())->0)
    } else {
        let name = req_string(entry(j, 0, "name"@), j is Object);
        let display_name = req_string(entry(j, 1, "display_name"@), j is Object);
        if name is Err {
            Err(name->Err_0)
        } else if display_name is Err {
            Err(display_name->Err_0)
        } else if too_many_items(j, 2) {
            Err(DecodeError::TooManyItems)
        } else {
            Ok(KernelSpecView { name: name->Ok_0, display_name: display_name->Ok_0 })
        }
    }
}

pub open spec fn kernel_spec_decoder() -> spec_fn(Json) -> Result<KernelSpecView, DecodeError> {
    |j: Json| kernel_spec_of(j)
}

impl KernelSpec {
    /// Decodes a kernel spec.
    pub fn from_json(j: &Json) -> (r: Result<KernelSpec, DecodeError>)
        ensures
            rv(r) == kernel_spec_of(*j),
    {
        if !is_record(j) {
            return Err(DecodeError::WrongType);
        }
        if let Some(e) = object_error_of(j, kernel_spec_member_check, Ghost(kernel_spec_members())) {
            return Err(e);
        }
        let name = req_string_member(j, 0, "name")?;
        let display_name = req_string_member(j, 1, "display_name")?;
        if has_too_many_items(j, 2) {
            return Err(DecodeError::TooManyItems);
        }
        Ok(KernelSpec { name, display_name })
    }

    /// Parses and decodes a kernel spec written as JSON text. A key written
    /// twice in one object is read with its last value (see `parse_json`).
    pub fn from_json_str(text: &str) -> (r: Result<KernelSpec, DecodeError>)
        ensures
            rv(r) == from_text(json_document(text@), kernel_spec_decoder()),
    {
        let j = parse_json(text)?;
        KernelSpec::from_json(&j)
    }
}

/// What language info makes of one member of an object (see `member_error`).
pub open spec fn language_info_member(k: Seq<char>, v: Json) -> Option<Option<DecodeError>> {
    if k == "name"@ {
        Some(err_of(req_string(Some(v), true)))
    } else if k == "codemirror_mode"@ {
        Some(err_of(opt_string(Some(v), true)))
    } else if k == "mimetype"@ {
        Some(err_of(opt_string(Some(v), true)))
    } else if k == "file_extension"@ {
        Some(err_of(opt_string(Some(v), true)))
    } else if k == "pygments_lexer"@ {
        Some(err_of(opt_string(Some(v), true)))
    } else {
        None
    }
}

pub open spec fn language_info_members() -> spec_fn(Seq<char>, Json) -> Option<Option<DecodeError>> {
    |k: Seq<char>, v: Json| language_info_member(k, v)
}

fn language_info_member_check(k: &str, v: &Json) -> (c: Option<Option<DecodeError>>)
    ensures
        c == language_info_member(k@, *v),
{
    if key_is(k, "name") {
        Some(error_of(string_value(v)))
    } else if key_is(k, "codemirror_mode") {
        Some(opt_string_error(v))
    } else if key_is(k, "mimetype") {
        Some(opt_string_error(v))
    } else if key_is(k, "file_extension") {
        Some(opt_string_error(v))
    } else if key_is(k, "pygments_lexer") {
        Some(opt_string_error(v))
    } else {
        None
    }
}

/// Language info: an object with the string `name` and the optional strings
/// `codemirror_mode`, `mimetype`, `file_extension` and `pygments_lexer`.
pub open spec fn language_info_of(j: Json) -> Result<LanguageInfoView, DecodeError> {
    if !(j is Object || j is Array) {
        Err(DecodeError::WrongType)
    } else if object_error(j, language_info_members()) is Some {
        Err(object_error(j, language_info_members())->0)
    } else {
        let name = req_string(entry(j, 0, "name"@), j is Object);
        let codemirror_mode = opt_string(entry(j, 1, "codemirror_mode"@), j is Object);
        let mimetype = opt_string(entry(j, 2, "mimetype"@), j is Object);
        let file_extension = opt_string(entry(j, 3, "file_extension"@), j is Object);
        let pygments_lexer = opt_string(entry(j, 4, "pygments_lexer"@), j is Object);
        if name is Err {
            Err(name->Err_0)
        } else if codemirror_mode is Err {
            Err(codemirror_mode->Err_0)
        } else if mimetype is Err {
            Err(mimetype->Err_0)
        } else if file_extension is Err {
            Err(file_extension->Err_0)
        } else if pygments_lexer is Err {
            Err(pygments_lexer->Err_0)
        } else if too_many_items(j, 5) {
            Err(DecodeError::TooManyItems)
        } else {
            Ok(LanguageInfoView {
                name: name->Ok_0,
                codemirror_mode: codemirror_mode->Ok_0,
                mimetype: mimetype->Ok_0,
                file_extension: file_extension->Ok_0,
                pygments_lexer: pygments_lexer->Ok_0,
            })
        }
    }
}

pub open spec fn language_info_decoder() -> spec_fn(Json) -> Result<LanguageInfoView, DecodeError> {
    |j: Json| language_info_of(j)
}

impl LanguageInfo {
    /// Decodes language info.
    pub fn from_json(j: &Json) -> (r: Result<LanguageInfo, DecodeError>)
        ensures
            rv(r) == language_info_of(*j),
    {
        if !is_record(j) {
            return Err(DecodeError::WrongType);
        }
        if let Some(e) = object_error_of(j, language_info_member_check, Ghost(language_info_members())) {
            return Err(e);
        }
        let name = req_string_member(j, 0, "name")?;
        let codemirror_mode = opt_string_member(j, 1, "codemirror_mode")?;
        let mimetype = opt_string_member(j, 2, "mimetype")?;
        let file_extension = opt_string_member(j, 3, "file_extension")?;
        let pygments_lexer = opt_string_member(j, 4, "pygments_lexer")?;
        if has_too_many_items(j, 5) {
            return Err(DecodeError::TooManyItems);
        }
        Ok(LanguageInfo { name, codemirror_mode, mimetype, file_extension, pygments_lexer })
    }

    /// Parses and decodes language info written as JSON text. A key written
    /// twice in one object is read with its last value (see `parse_json`).
    pub fn from_json_str(text: &str) -> (r: Result<LanguageInfo, DecodeError>)
        ensures
            rv(r) == from_text(json_document(text@), language_info_decoder()),
    {
        let j = parse_json(text)?;
        LanguageInfo::from_json(&j)
    }
}

/// What an author makes of one member of an object (see `member_error`).
pub open spec fn author_member(k: Seq<char>, v: Json) -> Option<Option<DecodeError>> {
    if k == "name"@ {
        Some(err_of(req_string(Some(v), true)))
    } else {
        None
    }
}

pub open spec fn author_members() -> spec_fn(Seq<char>, Json) -> Option<Option<DecodeError>> {
    |k: Seq<char>, v: Json| author_member(k, v)
}

fn author_member_check(k: &str, v: &Json) -> (c: Option<Option<DecodeError>>)
    ensures
        c == author_member(k@, *v),
{
    if key_is(k, "name") {
        Some(error_of(string_value(v)))
    } else {
        None
    }
}

/// An author: an object with the string `name`.
pub open spec fn author_of(j: Json) -> Result<AuthorView, DecodeError> {
    if !(j is Object || j is Array) {
        Err(DecodeError::WrongType)
    } else if object_error(j, author_members()) is Some {
        Err(object_error(j, author_members())->0)
    } else {
        let name = req_string(entry(j, 0, "name"@), j is Object);
        if name is Err {
            Err(name->Err_0)
        } else if too_many_items(j, 1) {
            Err(DecodeError::TooManyItems)
        } else {
            Ok(AuthorView { name: name->Ok_0 })
        }
    }
}

pub open spec fn author_decoder() -> spec_fn(Json) -> Result<AuthorView, DecodeError> {
    |j: Json| author_of(j)
}

impl Author {
    /// Decodes an author.
    pub fn from_json(j: &Json) -> (r: Result<Author, DecodeError>)
        ensures
            rv(r) == author_of(*j),
    {
        if !is_record(j) {
            return Err(DecodeError::WrongType);
        }
        if let Some(e) = object_error_of(j, author_member_check, Ghost(author_members())) {
            return Err(e);
        }
        let name = req_string_member(j, 0, "name")?;
        if has_too_many_items(j, 1) {
            return Err(DecodeError::TooManyItems);
        }
        Ok(Author { name })
    }

    /// Parses and decodes an author written as JSON text. A key written
    /// twice in one object is read with its last value (see `parse_json`).
    pub fn from_json_str(text: &str) -> (r: Result<Author, DecodeError>)
        ensures
            rv(r) == from_text(json_document(text@), author_decoder()),
    {
        let j = parse_json(text)?;
        Author::from_json(&j)
    }
}

/// A JSON array of authors.
pub open spec fn authors_of(v: Json) -> Result<Seq<AuthorView>, DecodeError> {
    array_of(v, author_decoder())
}

pub open spec fn authors_decoder() -> spec_fn(Json) -> Result<Seq<AuthorView>, DecodeError> {
    |v: Json| authors_of(v)
}

fn authors_value(v: &Json) -> (r: Result<Vec<Author>, DecodeError>)
    ensures
        match r {
            Ok(a) => authors_of(*v) == Ok::<Seq<AuthorView>, DecodeError>(authors_view(a@)),
            Err(e) => authors_of(*v) == Err::<Seq<AuthorView>, DecodeError>(e),
        },
{
    match v {
        Json::Array(items) => {
            let ghost d = author_decoder();
            let mut out: Vec<Author> = Vec::new();
            let mut i: usize = 0;
            assert(items@.take(0) =~= Seq::<Json>::empty());
            assert(authors_view(out@) =~= Seq::<AuthorView>::empty());
            while i < items.len()
                invariant
                    i <= items@.len(),
                    d == author_decoder(),
                    authors_of(*v) == list_of(items@, d),
                    list_of(items@.take(i as int), d) == Ok::<Seq<AuthorView>, DecodeError>(authors_view(out@)),
                decreases items.len() - i,
            {
                proof {
                    lemma_list_of_step(items@, d, i as int);
                }
                match Author::from_json(&items[i]) {
                    Ok(a) => {
                        let ghost before = out@;
                        out.push(a);
                        assert(authors_view(out@) =~= authors_view(before).push(a@));
                    },
                    Err(e) => {
                        proof {
                            lemma_list_of_prefix_err(items@, d, i + 1, items@.len() as int);
                            lemma_list_of_full(items@, d);
                        }
                        return Err(e);
                    },
                }
                i = i + 1;
            }
            proof {
                lemma_list_of_full(items@, d);
            }
            Ok(out)
        },
        _ => Err(DecodeError::WrongType),
    }
}

// ---------------------------------------------------------------------
// NotebookMetadata.
// ---------------------------------------------------------------------

pub open spec fn orig_nbformat_decoder() -> spec_fn(Json) -> Result<Option<u64>, DecodeError> {
    |v: Json| orig_nbformat_of(v)
}

/// What notebook metadata makes of one member of an object (see `member_error`).
pub open spec fn notebook_metadata_member(k: Seq<char>, v: Json) -> Option<Option<DecodeError>> {
    if k == "kernelspec"@ {
        Some(err_of(optional(Some(v), true, kernel_spec_decoder())))
    } else if k == "language_info"@ {
        Some(err_of(optional(Some(v), true, language_info_decoder())))
    } else if k == "original_notebook_format"@ {
        Some(err_of(required(Some(v), true, orig_nbformat_decoder())))
    } else if k == "title"@ {
        Some(err_of(opt_string(Some(v), true)))
    } else if k == "authors"@ {
        Some(err_of(optional(Some(v), true, authors_decoder())))
    } else {
        None
    }
}

pub open spec fn notebook_metadata_members() -> spec_fn(Seq<char>, Json) -> Option<Option<DecodeError>> {
    |k: Seq<char>, v: Json| notebook_metadata_member(k, v)
}

fn notebook_metadata_member_check(k: &str, v: &Json) -> (c: Option<Option<DecodeError>>)
    ensures
        c == notebook_metadata_member(k@, *v),
{
    if key_is(k, "kernelspec") {
        Some(match v { Json::Null => None, _ => error_of(KernelSpec::from_json(v)) })
    } else if key_is(k, "language_info") {
        Some(match v { Json::Null => None, _ => error_of(LanguageInfo::from_json(v)) })
    } else if key_is(k, "original_notebook_format") {
        Some(error_of(deserialize_orig_nbformat(v)))
    } else if key_is(k, "title") {
        Some(opt_string_error(v))
    } else if key_is(k, "authors") {
        Some(match v { Json::Null => None, _ => error_of(authors_value(v)) })
    } else {
        None
    }
}

/// Notebook metadata: an object with the optional members `kernelspec`,
/// `language_info`, `title` and `authors`, and the member
/// `original_notebook_format`, which must be present (it may be `null`).
pub open spec fn notebook_metadata_of(j: Json) -> Result<NotebookMetadataView, DecodeError> {
    if !(j is Object || j is Array) {
        Err(DecodeError::WrongType)
    } else if object_error(j, notebook_metadata_members()) is Some {
        Err(object_error(j, notebook_metadata_members())->0)
    } else {
        let kernelspec = optional(entry(j, 0, "kernelspec"@), j is Object, kernel_spec_decoder());
        let language_info = optional(entry(j, 1, "language_info"@), j is Object, language_info_decoder());
        let original_notebook_format = required(entry(j, 2, "original_notebook_format"@), j is Object, orig_nbformat_decoder());
        let title = opt_string(entry(j, 3, "title"@), j is Object);
        let authors = optional(entry(j, 4, "authors"@), j is Object, authors_decoder());
        if kernelspec is Err {
            Err(kernelspec->Err_0)
        } else if language_info is Err {
            Err(language_info->Err_0)
        } else if original_notebook_format is Err {
            Err(original_notebook_format->Err_0)
        } else if title is Err {
            Err(title->Err_0)
        } else if authors is Err {
            Err(authors->Err_0)
        } else if too_many_items(j, 5) {
            Err(DecodeError::TooManyItems)
        } else {
            Ok(NotebookMetadataView {
                kernelspec: kernelspec->Ok_0,
                language_info: language_info->Ok_0,
                original_notebook_format: original_notebook_format->Ok_0,
                title: title->Ok_0,
                authors: authors->Ok_0,
            })
        }
    }
}

pub open spec fn notebook_metadata_decoder() -> spec_fn(Json) -> Result<NotebookMetadataView, DecodeError> {
    |j: Json| notebook_metadata_of(j)
}

impl NotebookMetadata {
    /// Decodes notebook metadata.
    pub fn from_json(j: &Json) -> (r: Result<NotebookMetadata, DecodeError>)
        ensures
            rv(r) == notebook_metadata_of(*j),
    {
        if !is_record(j) {
            return Err(DecodeError::WrongType);
        }
        if let Some(e) = object_error_of(j, notebook_metadata_member_check, Ghost(notebook_metadata_members())) {
            return Err(e);
        }
        let kernelspec = match entry_of(j, 0, "kernelspec") {
            Some(Json::Null) => None,
            Some(v) => Some(KernelSpec::from_json(v)?),
            None => if is_object(j) {
                None
            } else {
                return Err(DecodeError::InvalidLength);
            },
        };
        let language_info = match entry_of(j, 1, "language_info") {
            Some(Json::Null) => None,
            Some(v) => Some(LanguageInfo::from_json(v)?),
            None => if is_object(j) {
                None
            } else {
                return Err(DecodeError::InvalidLength);
            },
        };
        let original_notebook_format = match entry_of(j, 2, "original_notebook_format") {
            Some(v) => deserialize_orig_nbformat(v)?,
            None => return Err(absent_error(j)),
        };
        let title = opt_string_member(j, 3, "title")?;
        let authors = match entry_of(j, 4, "authors") {
            Some(Json::Null) => None,
            Some(v) => Some(authors_value(v)?),
            None => if is_object(j) {
                None
            } else {
                return Err(DecodeError::InvalidLength);
            },
        };
        if has_too_many_items(j, 5) {
            return Err(DecodeError::TooManyItems);
        }
        Ok(NotebookMetadata { kernelspec, language_info, original_notebook_format, title, authors })
    }

    /// Parses and decodes notebook metadata written as JSON text. A key written
    /// twice in one object is read with its last value (see `parse_json`).
    pub fn from_json_str(text: &str) -> (r: Result<NotebookMetadata, DecodeError>)
        ensures
            rv(r) == from_text(json_document(text@), notebook_metadata_decoder()),
    {
        let j = parse_json(text)?;
        NotebookMetadata::from_json(&j)
    }
}

// ---------------------------------------------------------------------
// Raw cell metadata.
// ---------------------------------------------------------------------

/// What the `jupyter` part of raw cell metadata makes of one member of an object (see `member_error`).
pub open spec fn jupyter_member(k: Seq<char>, v: Json) -> Option<Option<DecodeError>> {
    if k == "source_hidden"@ {
        Some(err_of(opt_bool(Some(v), true)))
    } else {
        None
    }
}

pub open spec fn jupyter_members() -> spec_fn(Seq<char>, Json) -> Option<Option<DecodeError>> {
    |k: Seq<char>, v: Json| jupyter_member(k, v)
}

fn jupyter_member_check(k: &str, v: &Json) -> (c: Option<Option<DecodeError>>)
    ensures
        c == jupyter_member(k@, *v),
{
    if key_is(k, "source_hidden") {
        Some(match v { Json::Null => None, _ => error_of(bool_value(v)) })
    } else {
        None
    }
}

/// The `jupyter` part of raw cell metadata: an object with the optional
/// boolean `source_hidden`.
pub open spec fn jupyter_of(j: Json) -> Result<RawCellJupyterMetadata, DecodeError> {
    if !(j is Object || j is Array) {
        Err(DecodeError::WrongType)
    } else if object_error(j, jupyter_members()) is Some {
        Err(object_error(j, jupyter_members())->0)
    } else {
        let source_hidden = opt_bool(entry(j, 0, "source_hidden"@), j is Object);
        if source_hidden is Err {
            Err(source_hidden->Err_0)
        } else if too_many_items(j, 1) {
            Err(DecodeError::TooManyItems)
        } else {
            Ok(RawCellJupyterMetadata { source_hidden: source_hidden->Ok_0 })
        }
    }
}

pub open spec fn jupyter_decoder() -> spec_fn(Json) -> Result<RawCellJupyterMetadata, DecodeError> {
    |j: Json| jupyter_of(j)
}

impl RawCellJupyterMetadata {
    /// Decodes the `jupyter` part of raw cell metadata.
    pub fn from_json(j: &Json) -> (r: Result<RawCellJupyterMetadata, DecodeError>)
        ensures
            r == jupyter_of(*j),
    {
        if !is_record(j) {
            return Err(DecodeError::WrongType);
        }
        if let Some(e) = object_error_of(j, jupyter_member_check, Ghost(jupyter_members())) {
            return Err(e);
        }
        let source_hidden = opt_bool_member(j, 0, "source_hidden")?;
        if has_too_many_items(j, 1) {
            return Err(DecodeError::TooManyItems);
        }
        Ok(RawCellJupyterMetadata { source_hidden })
    }
}

/// A field with a default: absent (as a member or as a trailing item)
/// reads as `None`, else it is read by `d`.
pub open spec fn defaulted<T>(f: Option<Json>, d: spec_fn(Json) -> Result<Option<T>, DecodeError>) -> Result<Option<T>, DecodeError> {
    match f {
        Some(v) => d(v),
        None => Ok(None),
    }
}

pub open spec fn cell_name_decoder() -> spec_fn(Json) -> Result<Option<Seq<char>>, DecodeError> {
    |v: Json| cell_name_of(v)
}

pub open spec fn cell_tags_decoder() -> spec_fn(Json) -> Result<Option<Seq<Seq<char>>>, DecodeError> {
    |v: Json| cell_tags_of(v)
}

/// What raw cell metadata makes of one member of an object (see `member_error`).
pub open spec fn raw_cell_metadata_member(k: Seq<char>, v: Json) -> Option<Option<DecodeError>> {
    if k == "format"@ {
        Some(err_of(opt_string(Some(v), true)))
    } else if k == "jupyter"@ {
        Some(err_of(optional(Some(v), true, jupyter_decoder())))
    } else if k == "name"@ {
        Some(err_of(defaulted(Some(v), cell_name_decoder())))
    } else if k == "tags"@ {
        Some(err_of(defaulted(Some(v), cell_tags_decoder())))
    } else {
        None
    }
}

pub open spec fn raw_cell_metadata_members() -> spec_fn(Seq<char>, Json) -> Option<Option<DecodeError>> {
    |k: Seq<char>, v: Json| raw_cell_metadata_member(k, v)
}

fn raw_cell_metadata_member_check(k: &str, v: &Json) -> (c: Option<Option<DecodeError>>)
    ensures
        c == raw_cell_metadata_member(k@, *v),
{
    if key_is(k, "format") {
        Some(opt_string_error(v))
    } else if key_is(k, "jupyter") {
        Some(match v { Json::Null => None, _ => error_of(RawCellJupyterMetadata::from_json(v)) })
    } else if key_is(k, "name") {
        Some(error_of(deserialize_cell_name(v)))
    } else if key_is(k, "tags") {
        Some(error_of(deserialize_cell_tags(v)))
    } else {
        None
    }
}

/// Raw cell metadata: an object with the optional members `format`,
/// `jupyter`, `name` and `tags`; a name and the tags must keep their rules.
pub open spec fn raw_cell_metadata_of(j: Json) -> Result<RawCellMetadataView, DecodeError> {
    if !(j is Object || j is Array) {
        Err(DecodeError::WrongType)
    } else if object_error(j, raw_cell_metadata_members()) is Some {
        Err(object_error(j, raw_cell_metadata_members())->0)
    } else {
        let format = opt_string(entry(j, 0, "format"@), j is Object);
        let jupyter = optional(entry(j, 1, "jupyter"@), j is Object, jupyter_decoder());
        let name = defaulted(entry(j, 2, "name"@), cell_name_decoder());
        let tags = defaulted(entry(j, 3, "tags"@), cell_tags_decoder());
        if format is Err {
            Err(format->Err_0)
        } else if jupyter is Err {
            Err(jupyter->Err_0)
        } else if name is Err {
            Err(name->Err_0)
        } else if tags is Err {
            Err(tags->Err_0)
        } else if too_many_items(j, 4) {
            Err(DecodeError::TooManyItems)
        } else {
            Ok(RawCellMetadataView {
                format: format->Ok_0,
                jupyter: jupyter->Ok_0,
                name: name->Ok_0,
                tags: tags->Ok_0,
            })
        }
    }
}

pub open spec fn raw_cell_metadata_decoder() -> spec_fn(Json) -> Result<RawCellMetadataView, DecodeError> {
    |j: Json| raw_cell_metadata_of(j)
}

impl RawCellMetadata {
    /// Decodes raw cell metadata.
    pub fn from_json(j: &Json) -> (r: Result<RawCellMetadata, DecodeError>)
        ensures
            rv(r) == raw_cell_metadata_of(*j),
    {
        if !is_record(j) {
            return Err(DecodeError::WrongType);
        }
        if let Some(e) = object_error_of(j, raw_cell_metadata_member_check, Ghost(raw_cell_metadata_members())) {
            return Err(e);
        }
        let format = opt_string_member(j, 0, "format")?;
        let jupyter = match entry_of(j, 1, "jupyter") {
            Some(Json::Null) => None,
            Some(v) => Some(RawCellJupyterMetadata::from_json(v)?),
            None => if is_object(j) {
                None
            } else {
                return Err(DecodeError::InvalidLength);
            },
        };
        let name = match entry_of(j, 2, "name") {
            Some(v) => deserialize_cell_name(v)?,
            None => None,
        };
        let tags = match entry_of(j, 3, "tags") {
            Some(v) => deserialize_cell_tags(v)?,
            None => None,
        };
        if has_too_many_items(j, 4) {
            return Err(DecodeError::TooManyItems);
        }
        Ok(RawCellMetadata { format, jupyter, name, tags })
    }

    /// Parses and decodes raw cell metadata written as JSON text. A key written
    /// twice in one object is read with its last value (see `parse_json`).
    pub fn from_json_str(text: &str) -> (r: Result<RawCellMetadata, DecodeError>)
        ensures
            rv(r) == from_text(json_document(text@), raw_cell_metadata_decoder()),
    {
        let j = parse_json(text)?;
        RawCellMetadata::from_json(&j)
    }
}

// ---------------------------------------------------------------------
// Cells.
// ---------------------------------------------------------------------

/// Reading the members of an object in their order (see `member_error`)
/// stops at the first member with the key `id`, whose value is no string.
pub open spec fn stops_at_bad_id(
    fields: Seq<(String, Json)>,
    check: spec_fn(Seq<char>, Json) -> Option<Option<DecodeError>>,
    i: int,
) -> bool
    decreases fields.len() - i,
{
    if i < 0 || i >= fields.len() {
        false
    } else {
        match check(fields[i].0@, fields[i].1) {
            None => stops_at_bad_id(fields, check, i + 1),
            Some(r) => if !no_key_before(fields, i, fields[i].0@) {
                false
            } else if fields[i].0@ == "id"@ && !(fields[i].1 is Str) {
                true
            } else if r is Some {
                false
            } else {
                stops_at_bad_id(fields, check, i + 1)
            },
        }
    }
}

/// Whether `j` keeps `id_is_text` for the member reader `check`, which
/// decides for one member as `spec_check` states.
fn id_is_text_of<F: Fn(&str, &Json) -> Option<Option<DecodeError>>>(
    j: &Json,
    check: F,
    Ghost(spec_check): Ghost<spec_fn(Seq<char>, Json) -> Option<Option<DecodeError>>>,
) -> (b: bool)
    requires
        forall|k: &str, v: &Json| #[trigger] call_requires(check, (k, v)),
        forall|k: &str, v: &Json, c: Option<Option<DecodeError>>|
            #[trigger] call_ensures(check, (k, v), c) ==> c == spec_check(k@, *v),
    ensures
        b == id_is_text(*j, spec_check),
{
    match j {
        Json::Object(fields) => {
            let mut i: usize = 0;
            while i < fields.len()
                invariant
                    i <= fields@.len(),
                    forall|k: &str, v: &Json| #[trigger] call_requires(check, (k, v)),
                    forall|k: &str, v: &Json, c: Option<Option<DecodeError>>|
                        #[trigger] call_ensures(check, (k, v), c) ==> c == spec_check(k@, *v),
                    id_is_text(*j, spec_check) == !stops_at_bad_id(fields@, spec_check, i as int),
                    *j == Json::Object(*fields),
                decreases fields.len() - i,
            {
                let c = check(fields[i].0.as_str(), &fields[i].1);
                assert(c == spec_check(fields@[i as int].0@, fields@[i as int].1));
                if let Some(res) = c {
                    if key_seen_before(fields, i) {
                        return true;
                    }
                    let not_text = match &fields[i].1 {
                        Json::Str(_) => false,
                        _ => true,
                    };
                    if key_is(fields[i].0.as_str(), "id") && not_text {
                        return false;
                    }
                    if res.is_some() {
                        return true;
                    }
                }
                i = i + 1;
            }
            true
        },
        Json::Array(items) => {
            if items.len() == 0 {
                true
            } else {
                match &items[0] {
                    Json::Str(_) => true,
                    _ => false,
                }
            }
        },
        _ => true,
    }
}

/// A cell whose reading, with `check` for the members of an object, never
/// comes to an `id` that is no string before it ends: the id is read only
/// from a string. (An array gives the id as its first item.)
pub open spec fn id_is_text(j: Json, check: spec_fn(Seq<char>, Json) -> Option<Option<DecodeError>>) -> bool {
    match j {
        Json::Object(fields) => !stops_at_bad_id(fields@, check, 0),
        Json::Array(items) => items@.len() > 0 ==> items@[0] is Str,
        _ => true,
    }
}

pub open spec fn cell_id_decoder() -> spec_fn(Json) -> Result<Seq<char>, DecodeError> {
    |v: Json| cell_id_of(v)
}

pub open spec fn raw_cell_type_decoder() -> spec_fn(Json) -> Result<Seq<char>, DecodeError> {
    |v: Json| cell_type_of(v, "raw"@, SchemaError::NotRawCellType)
}

pub open spec fn markdown_cell_type_decoder() -> spec_fn(Json) -> Result<Seq<char>, DecodeError> {
    |v: Json| cell_type_of(v, "markdown"@, SchemaError::NotMarkdownCellType)
}

pub open spec fn code_cell_type_decoder() -> spec_fn(Json) -> Result<Seq<char>, DecodeError> {
    |v: Json| cell_type_of(v, "code"@, SchemaError::NotCodeCellType)
}

/// The error of reading `v` as a cell id.
fn cell_id_error(v: &Json) -> (e: Option<DecodeError>)
    ensures
        e == err_of(required(Some(*v), true, cell_id_decoder())),
{
    match v {
        Json::Str(_) => error_of(deserialize_cell_id(v)),
        _ => Some(DecodeError::WrongType),
    }
}

fn cell_id_member(j: &Json) -> (r: Result<String, DecodeError>)
    ensures
        rv(r) == required(entry(*j, 0, "id"@), *j is Object, cell_id_decoder()),
{
    match entry_of(j, 0, "id") {
        Some(v) => match v {
            Json::Str(_) => deserialize_cell_id(v),
            _ => Err(DecodeError::WrongType),
        },
        None => Err(absent_error(j)),
    }
}

/// What a raw cell makes of one member of an object (see `member_error`).
pub open spec fn raw_cell_member(k: Seq<char>, v: Json) -> Option<Option<DecodeError>> {
    if k == "id"@ {
        Some(err_of(required(Some(v), true, cell_id_decoder())))
    } else if k == "cell_type"@ {
        Some(err_of(required(Some(v), true, raw_cell_type_decoder())))
    } else if k == "source"@ {
        Some(err_of(req_string(Some(v), true)))
    } else if k == "metadata"@ {
        Some(err_of(required(Some(v), true, raw_cell_metadata_decoder())))
    } else {
        None
    }
}

pub open spec fn raw_cell_members() -> spec_fn(Seq<char>, Json) -> Option<Option<DecodeError>> {
    |k: Seq<char>, v: Json| raw_cell_member(k, v)
}

fn raw_cell_member_check(k: &str, v: &Json) -> (c: Option<Option<DecodeError>>)
    ensures
        c == raw_cell_member(k@, *v),
{
    if key_is(k, "id") {
        Some(cell_id_error(v))
    } else if key_is(k, "cell_type") {
        Some(error_of(deserialize_raw_cell_type(v)))
    } else if key_is(k, "source") {
        Some(error_of(string_value(v)))
    } else if key_is(k, "metadata") {
        Some(error_of(RawCellMetadata::from_json(v)))
    } else {
        None
    }
}

/// A raw cell: an object with `id`, `cell_type` (`raw`), `source` and
/// `metadata`.
pub open spec fn raw_cell_of(j: Json) -> Result<RawCellView, DecodeError> {
    if !(j is Object || j is Array) {
        Err(DecodeError::WrongType)
    } else if object_error(j, raw_cell_members()) is Some {
        Err(object_error(j, raw_cell_members())->0)
    } else {
        let id = required(entry(j, 0, "id"@), j is Object, cell_id_decoder());
        let cell_type = required(entry(j, 1, "cell_type"@), j is Object, raw_cell_type_decoder());
        let source = req_string(entry(j, 2, "source"@), j is Object);
        let metadata = required(entry(j, 3, "metadata"@), j is Object, raw_cell_metadata_decoder());
        if id is Err {
            Err(id->Err_0)
        } else if cell_type is Err {
            Err(cell_type->Err_0)
        } else if source is Err {
            Err(source->Err_0)
        } else if metadata is Err {
            Err(metadata->Err_0)
        } else if too_many_items(j, 4) {
            Err(DecodeError::TooManyItems)
        } else {
            Ok(RawCellView {
                id: id->Ok_0,
                cell_type: cell_type->Ok_0,
                source: source->Ok_0,
                metadata: metadata->Ok_0,
            })
        }
    }
}

impl RawCell {
    /// Whether `j` meets the `requires` of `from_json`: reading it never
    /// comes to an `id` that is no string before it ends.
    pub fn cell_id_is_text(j: &Json) -> (b: bool)
        ensures
            b == id_is_text(*j, raw_cell_members()),
    {
        id_is_text_of(j, raw_cell_member_check, Ghost(raw_cell_members()))
    }

    /// Decodes a raw cell.
    pub fn from_json(j: &Json) -> (r: Result<RawCell, DecodeError>)
        requires
            id_is_text(*j, raw_cell_members()),
        ensures
            rv(r) == raw_cell_of(*j),
    {
        if !is_record(j) {
            return Err(DecodeError::WrongType);
        }
        if let Some(e) = object_error_of(j, raw_cell_member_check, Ghost(raw_cell_members())) {
            return Err(e);
        }
        let id = cell_id_member(j)?;
        let cell_type = match entry_of(j, 1, "cell_type") {
            Some(v) => deserialize_raw_cell_type(v)?,
            None => return Err(absent_error(j)),
        };
        let source = req_string_member(j, 2, "source")?;
        let metadata = match entry_of(j, 3, "metadata") {
            Some(v) => RawCellMetadata::from_json(v)?,
            None => return Err(absent_error(j)),
        };
        if has_too_many_items(j, 4) {
            return Err(DecodeError::TooManyItems);
        }
        Ok(RawCell { id, cell_type, source, metadata })
    }
}

/// What a markdown cell makes of one member of an object (see `member_error`).
pub open spec fn markdown_cell_member(k: Seq<char>, v: Json) -> Option<Option<DecodeError>> {
    if k == "id"@ {
        Some(err_of(required(Some(v), true, cell_id_decoder())))
    } else if k == "cell_type"@ {
        Some(err_of(required(Some(v), true, markdown_cell_type_decoder())))
    } else if k == "source"@ {
        Some(err_of(req_string(Some(v), true)))
    } else {
        None
    }
}

pub open spec fn markdown_cell_members() -> spec_fn(Seq<char>, Json) -> Option<Option<DecodeError>> {
    |k: Seq<char>, v: Json| markdown_cell_member(k, v)
}

fn markdown_cell_member_check(k: &str, v: &Json) -> (c: Option<Option<DecodeError>>)
    ensures
        c == markdown_cell_member(k@, *v),
{
    if key_is(k, "id") {
        Some(cell_id_error(v))
    } else if key_is(k, "cell_type") {
        Some(error_of(deserialize_markdown_cell_type(v)))
    } else if key_is(k, "source") {
        Some(error_of(string_value(v)))
    } else {
        None
    }
}

/// A markdown cell: an object with `id`, `cell_type` (`markdown`) and
/// `source`.
pub open spec fn markdown_cell_of(j: Json) -> Result<MarkdownCellView, DecodeError> {
    if !(j is Object || j is Array) {
        Err(DecodeError::WrongType)
    } else if object_error(j, markdown_cell_members()) is Some {
        Err(object_error(j, markdown_cell_members())->0)
    } else {
        let id = required(entry(j, 0, "id"@), j is Object, cell_id_decoder());
        let cell_type = required(entry(j, 1, "cell_type"@), j is Object, markdown_cell_type_decoder());
        let source = req_string(entry(j, 2, "source"@), j is Object);
        if id is Err {
            Err(id->Err_0)
        } else if cell_type is Err {
            Err(cell_type->Err_0)
        } else if source is Err {
            Err(source->Err_0)
        } else if too_many_items(j, 3) {
            Err(DecodeError::TooManyItems)
        } else {
            Ok(MarkdownCellView { id: id->Ok_0, cell_type: cell_type->Ok_0, source: source->Ok_0 })
        }
    }
}

impl MarkdownCell {
    /// Whether `j` meets the `requires` of `from_json`: reading it never
    /// comes to an `id` that is no string before it ends.
    pub fn cell_id_is_text(j: &Json) -> (b: bool)
        ensures
            b == id_is_text(*j, markdown_cell_members()),
    {
        id_is_text_of(j, markdown_cell_member_check, Ghost(markdown_cell_members()))
    }

    /// Decodes a markdown cell.
    pub fn from_json(j: &Json) -> (r: Result<MarkdownCell, DecodeError>)
        requires
            id_is_text(*j, markdown_cell_members()),
        ensures
            rv(r) == markdown_cell_of(*j),
    {
        if !is_record(j) {
            return Err(DecodeError::WrongType);
        }
        if let Some(e) = object_error_of(j, markdown_cell_member_check, Ghost(markdown_cell_members())) {
            return Err(e);
        }
        let id = cell_id_member(j)?;
        let cell_type = match entry_of(j, 1, "cell_type") {
            Some(v) => deserialize_markdown_cell_type(v)?,
            None => return Err(absent_error(j)),
        };
        let source = req_string_member(j, 2, "source")?;
        if has_too_many_items(j, 3) {
            return Err(DecodeError::TooManyItems);
        }
        Ok(MarkdownCell { id, cell_type, source })
    }
}

/// A JSON array, its items kept as they are.
pub open spec fn outputs_of(v: Json) -> Result<Seq<Json>, DecodeError> {
    match v {
        Json::Array(items) => Ok(items@),
        _ => Err(DecodeError::WrongType),
    }
}

pub open spec fn outputs_decoder() -> spec_fn(Json) -> Result<Seq<Json>, DecodeError> {
    |v: Json| outputs_of(v)
}

/// What a code cell makes of one member of an object (see `member_error`).
pub open spec fn code_cell_member(k: Seq<char>, v: Json) -> Option<Option<DecodeError>> {
    if k == "id"@ {
        Some(err_of(required(Some(v), true, cell_id_decoder())))
    } else if k == "cell_type"@ {
        Some(err_of(required(Some(v), true, code_cell_type_decoder())))
    } else if k == "source"@ {
        Some(err_of(req_string(Some(v), true)))
    } else if k == "outputs"@ {
        Some(err_of(required(Some(v), true, outputs_decoder())))
    } else if k == "execution_count"@ {
        Some(err_of(opt_u64(Some(v), true)))
    } else {
        None
    }
}

pub open spec fn code_cell_members() -> spec_fn(Seq<char>, Json) -> Option<Option<DecodeError>> {
    |k: Seq<char>, v: Json| code_cell_member(k, v)
}

fn code_cell_member_check(k: &str, v: &Json) -> (c: Option<Option<DecodeError>>)
    ensures
        c == code_cell_member(k@, *v),
{
    if key_is(k, "id") {
        Some(cell_id_error(v))
    } else if key_is(k, "cell_type") {
        Some(error_of(deserialize_code_cell_type(v)))
    } else if key_is(k, "source") {
        Some(error_of(string_value(v)))
    } else if key_is(k, "outputs") {
        Some(match v { Json::Array(_) => None, _ => Some(DecodeError::WrongType) })
    } else if key_is(k, "execution_count") {
        Some(match v { Json::Null => None, _ => error_of(u64_value(v)) })
    } else {
        None
    }
}

/// A code cell: an object with `id`, `cell_type` (`code`), `source`,
/// `outputs` (an array of any JSON values) and the optional integer
/// `execution_count`.
pub open spec fn code_cell_of(j: Json) -> Result<CodeCellView, DecodeError> {
    if !(j is Object || j is Array) {
        Err(DecodeError::WrongType)
    } else if object_error(j, code_cell_members()) is Some {
        Err(object_error(j, code_cell_members())->0)
    } else {
        let id = required(entry(j, 0, "id"@), j is Object, cell_id_decoder());
        let cell_type = required(entry(j, 1, "cell_type"@), j is Object, code_cell_type_decoder());
        let source = req_string(entry(j, 2, "source"@), j is Object);
        let outputs = required(entry(j, 3, "outputs"@), j is Object, outputs_decoder());
        let execution_count = opt_u64(entry(j, 4, "execution_count"@), j is Object);
        if id is Err {
            Err(id->Err_0)
        } else if cell_type is Err {
            Err(cell_type->Err_0)
        } else if source is Err {
            Err(source->Err_0)
        } else if outputs is Err {
            Err(outputs->Err_0)
        } else if execution_count is Err {
            Err(execution_count->Err_0)
        } else if too_many_items(j, 5) {
            Err(DecodeError::TooManyItems)
        } else {
            Ok(CodeCellView {
                id: id->Ok_0,
                cell_type: cell_type->Ok_0,
                source: source->Ok_0,
                outputs: outputs->Ok_0,
                execution_count: execution_count->Ok_0,
            })
        }
    }
}

/// Takes the array that is field number `index`, named `key`, of `j`.
fn take_entry_array(j: Json, index: usize, key: &str) -> (r: Vec<Json>)
    requires
        entry(j, index as int, key@) matches Some(Json::Array(_)),
    ensures
        entry(j, index as int, key@) == Some(Json::Array(r)),
{
    match j {
        Json::Object(fields) => {
            let mut fields = fields;
            match find_member_index(&fields, key) {
                Some(i) => {
                    let (_, v) = fields.remove(i);
                    match v {
                        Json::Array(items) => items,
                        _ => Vec::new(),
                    }
                },
                None => Vec::new(),
            }
        },
        Json::Array(items) => {
            let mut items = items;
            let v = items.remove(index);
            match v {
                Json::Array(inner) => inner,
                _ => Vec::new(),
            }
        },
        _ => Vec::new(),
    }
}

impl CodeCell {
    /// Whether `j` meets the `requires` of `from_json`: reading it never
    /// comes to an `id` that is no string before it ends.
    pub fn cell_id_is_text(j: &Json) -> (b: bool)
        ensures
            b == id_is_text(*j, code_cell_members()),
    {
        id_is_text_of(j, code_cell_member_check, Ghost(code_cell_members()))
    }

    /// Decodes a code cell, taking its outputs out of `j`.
    pub fn from_json(j: Json) -> (r: Result<CodeCell, DecodeError>)
        requires
            id_is_text(j, code_cell_members()),
        ensures
            rv(r) == code_cell_of(j),
    {
        if !is_record(&j) {
            return Err(DecodeError::WrongType);
        }
        if let Some(e) = object_error_of(&j, code_cell_member_check, Ghost(code_cell_members())) {
            return Err(e);
        }
        let id = cell_id_member(&j)?;
        let cell_type = match entry_of(&j, 1, "cell_type") {
            Some(v) => deserialize_code_cell_type(v)?,
            None => return Err(absent_error(&j)),
        };
        let source = req_string_member(&j, 2, "source")?;
        match entry_of(&j, 3, "outputs") {
            Some(Json::Array(_)) => {},
            Some(_) => return Err(DecodeError::WrongType),
            None => return Err(absent_error(&j)),
        }
        let execution_count = opt_u64_member(&j, 4, "execution_count")?;
        if has_too_many_items(&j, 5) {
            return Err(DecodeError::TooManyItems);
        }
        let outputs = take_entry_array(j, 3, "outputs");
        Ok(CodeCell { id, cell_type, source, outputs, execution_count })
    }
}

// ---------------------------------------------------------------------
// Notebook.
// ---------------------------------------------------------------------

/// An entry of `cells`: only `null` is one, and it reads as a raw cell.
pub open spec fn cell_of(v: Json) -> Result<Cell, DecodeError> {
    match v {
        Json::Null => Ok(Cell::RawCell),
        _ => Err(DecodeError::WrongType),
    }
}

pub open spec fn cell_decoder() -> spec_fn(Json) -> Result<Cell, DecodeError> {
    |v: Json| cell_of(v)
}

/// A JSON array of cells.
pub open spec fn cells_of(v: Json) -> Result<Seq<Cell>, DecodeError> {
    array_of(v, cell_decoder())
}

pub open spec fn cells_decoder() -> spec_fn(Json) -> Result<Seq<Cell>, DecodeError> {
    |v: Json| cells_of(v)
}

impl Cell {
    /// Decodes an entry of a notebook's `cells`.
    pub fn from_json(v: &Json) -> (r: Result<Cell, DecodeError>)
        ensures
            r == cell_of(*v),
    {
        match v {
            Json::Null => Ok(Cell::RawCell),
            _ => Err(DecodeError::WrongType),
        }
    }
}

fn cells_value(v: &Json) -> (r: Result<Vec<Cell>, DecodeError>)
    ensures
        match r {
            Ok(c) => cells_of(*v) == Ok::<Seq<Cell>, DecodeError>(c@),
            Err(e) => cells_of(*v) == Err::<Seq<Cell>, DecodeError>(e),
        },
{
    match v {
        Json::Array(items) => {
            let ghost d = cell_decoder();
            let mut out: Vec<Cell> = Vec::new();
            let mut i: usize = 0;
            assert(items@.take(0) =~= Seq::<Json>::empty());
            assert(out@ =~= Seq::<Cell>::empty());
            while i < items.len()
                invariant
                    i <= items@.len(),
                    d == cell_decoder(),
                    cells_of(*v) == list_of(items@, d),
                    list_of(items@.take(i as int), d) == Ok::<Seq<Cell>, DecodeError>(out@),
                decreases items.len() - i,
            {
                proof {
                    lemma_list_of_step(items@, d, i as int);
                }
                match Cell::from_json(&items[i]) {
                    Ok(c) => {
                        out.push(c);
                    },
                    Err(e) => {
                        proof {
                            lemma_list_of_prefix_err(items@, d, i + 1, items@.len() as int);
                            lemma_list_of_full(items@, d);
                        }
                        return Err(e);
                    },
                }
                i = i + 1;
            }
            proof {
                lemma_list_of_full(items@, d);
            }
            Ok(out)
        },
        _ => Err(DecodeError::WrongType),
    }
}

pub open spec fn nbformat_decoder() -> spec_fn(Json) -> Result<u64, DecodeError> {
    |v: Json| nbformat_of(v)
}

pub open spec fn nbformat_minor_decoder() -> spec_fn(Json) -> Result<u64, DecodeError> {
    |v: Json| nbformat_minor_of(v)
}

/// What a notebook makes of one member of an object (see `member_error`).
pub open spec fn notebook_member(k: Seq<char>, v: Json) -> Option<Option<DecodeError>> {
    if k == "metadata"@ {
        Some(err_of(required(Some(v), true, notebook_metadata_decoder())))
    } else if k == "nbformat"@ {
        Some(err_of(required(Some(v), true, nbformat_decoder())))
    } else if k == "nbformat_minor"@ {
        Some(err_of(required(Some(v), true, nbformat_minor_decoder())))
    } else if k == "cells"@ {
        Some(err_of(required(Some(v), true, cells_decoder())))
    } else {
        None
    }
}

pub open spec fn notebook_members() -> spec_fn(Seq<char>, Json) -> Option<Option<DecodeError>> {
    |k: Seq<char>, v: Json| notebook_member(k, v)
}

fn notebook_member_check(k: &str, v: &Json) -> (c: Option<Option<DecodeError>>)
    ensures
        c == notebook_member(k@, *v),
{
    if key_is(k, "metadata") {
        Some(error_of(NotebookMetadata::from_json(v)))
    } else if key_is(k, "nbformat") {
        Some(error_of(deserialize_nbformat(v)))
    } else if key_is(k, "nbformat_minor") {
        Some(error_of(deserialize_nbformat_minor(v)))
    } else if key_is(k, "cells") {
        Some(error_of(cells_value(v)))
    } else {
        None
    }
}

/// A notebook: an object with `metadata`, `nbformat` (4), `nbformat_minor`
/// (at least 5) and `cells`.
pub open spec fn notebook_of(j: Json) -> Result<NotebookView, DecodeError> {
    if !(j is Object || j is Array) {
        Err(DecodeError::WrongType)
    } else if object_error(j, notebook_members()) is Some {
        Err(object_error(j, notebook_members())->0)
    } else {
        let metadata = required(entry(j, 0, "metadata"@), j is Object, notebook_metadata_decoder());
        let nbformat = required(entry(j, 1, "nbformat"@), j is Object, nbformat_decoder());
        let nbformat_minor = required(entry(j, 2, "nbformat_minor"@), j is Object, nbformat_minor_decoder());
        let cells = required(entry(j, 3, "cells"@), j is Object, cells_decoder());
        if metadata is Err {
            Err(metadata->Err_0)
        } else if nbformat is Err {
            Err(nbformat->Err_0)
        } else if nbformat_minor is Err {
            Err(nbformat_minor->Err_0)
        } else if cells is Err {
            Err(cells->Err_0)
        } else if too_many_items(j, 4) {
            Err(DecodeError::TooManyItems)
        } else {
            Ok(NotebookView {
                metadata: metadata->Ok_0,
                nbformat: nbformat->Ok_0,
                nbformat_minor: nbformat_minor->Ok_0,
                cells: cells->Ok_0,
            })
        }
    }
}

pub open spec fn notebook_decoder() -> spec_fn(Json) -> Result<NotebookView, DecodeError> {
    |j: Json| notebook_of(j)
}

impl Notebook {
    /// Decodes a notebook.
    pub fn from_json(j: &Json) -> (r: Result<Notebook, DecodeError>)
        ensures
            rv(r) == notebook_of(*j),
    {
        if !is_record(j) {
            return Err(DecodeError::WrongType);
        }
        if let Some(e) = object_error_of(j, notebook_member_check, Ghost(notebook_members())) {
            return Err(e);
        }
        let metadata = match entry_of(j, 0, "metadata") {
            Some(v) => NotebookMetadata::from_json(v)?,
            None => return Err(absent_error(j)),
        };
        let nbformat = match entry_of(j, 1, "nbformat") {
            Some(v) => deserialize_nbformat(v)?,
            None => return Err(absent_error(j)),
        };
        let nbformat_minor = match entry_of(j, 2, "nbformat_minor") {
            Some(v) => deserialize_nbformat_minor(v)?,
            None => return Err(absent_error(j)),
        };
        let cells = match entry_of(j, 3, "cells") {
            Some(v) => cells_value(v)?,
            None => return Err(absent_error(j)),
        };
        if has_too_many_items(j, 4) {
            return Err(DecodeError::TooManyItems);
        }
        Ok(Notebook { metadata, nbformat, nbformat_minor, cells })
    }

    /// Parses and decodes a notebook written as JSON text. A key written
    /// twice in one object is read with its last value (see `parse_json`).
    pub fn from_json_str(text: &str) -> (r: Result<Notebook, DecodeError>)
        ensures
            rv(r) == from_text(json_document(text@), notebook_decoder()),
    {
        let j = parse_json(text)?;
        Notebook::from_json(&j)
    }
}

} // verus!
