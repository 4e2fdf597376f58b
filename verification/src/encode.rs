//! Writing the notebook's types as JSON values: each struct as an object
//! with one member per field, in the order in which the type declares
//! them, `None` as `null`, lists as arrays, and a cell entry as `null`.
//!
//! Each writer states the exact JSON form of its output, and what decoding
//! that output gives back: the value itself, wherever the value keeps the
//! schema's rules. (The printed text of a number is left to the standard
//! library's formatting and is not stated.)
use vstd::prelude::*;
use crate::json::{lemma_member_at, no_key_before, DecodeError, Json, JsonNumber};
use crate::model::{
    authors_view, Author, AuthorView, Cell, CodeCell, CodeCellView, KernelSpec, KernelSpecView,
    LanguageInfo, LanguageInfoView, MarkdownCell, MarkdownCellView, Notebook, NotebookMetadata,
    NotebookMetadataView, NotebookView, RawCell, RawCellJupyterMetadata, RawCellMetadata,
    RawCellMetadataView, RawCellView,
};
use crate::decode::{
    author_decoder, author_of, authors_of, bool_decoder, cell_decoder, cell_of, cells_of,
    code_cell_of, jupyter_of, kernel_spec_of, language_info_of, markdown_cell_of,
    notebook_metadata_of, notebook_of, nullable, raw_cell_metadata_of, raw_cell_of,
    string_decoder, strings_of, u64_decoder, u64_of,
};
use crate::rules::{
    cell_id_rule, cell_name_rule, cell_tags_rule, nbformat_minor_rule, nbformat_rule,
    orig_nbformat_rule,
};
use crate::laws::law_list_of_items;

verus! {

// ---------------------------------------------------------------------
// The JSON form of each value.
// ---------------------------------------------------------------------

/// `v` is the string `s`.
pub open spec fn text_form(v: Json, s: Seq<char>) -> bool {
    v is Str && v->Str_0@ == s
}

/// `v` is the string in `o`, or `null`.
pub open spec fn opt_text_form(v: Json, o: Option<Seq<char>>) -> bool {
    match o {
        Some(s) => text_form(v, s),
        None => v is Null,
    }
}

/// `v` is the number `n`.
pub open spec fn u64_form(v: Json, n: u64) -> bool {
    v is Number && v->Number_0.unsigned == Some(n)
}

/// `v` is the number in `o`, or `null`.
pub open spec fn opt_u64_form(v: Json, o: Option<u64>) -> bool {
    match o {
        Some(n) => u64_form(v, n),
        None => v is Null,
    }
}

/// `v` is the boolean in `o`, or `null`.
pub open spec fn opt_bool_form(v: Json, o: Option<bool>) -> bool {
    match o {
        Some(b) => v == Json::Bool(b),
        None => v is Null,
    }
}

/// `v` is an array of the strings `t`.
pub open spec fn texts_form(v: Json, t: Seq<Seq<char>>) -> bool {
    &&& v is Array
    &&& v->Array_0@.len() == t.len()
    &&& forall|i: int| 0 <= i < t.len() ==> text_form(#[trigger] v->Array_0@[i], t[i])
}

/// `j` is an object whose members have the keys `keys`, in this order.
pub open spec fn object_with_keys(j: Json, keys: Seq<Seq<char>>) -> bool {
    &&& j is Object
    &&& j->Object_0@.len() == keys.len()
    &&& forall|i: int| 0 <= i < keys.len() ==> #[trigger] j->Object_0@[i].0@ == keys[i]
}

/// The value of the member at position `i` of an object.
pub open spec fn value_at(j: Json, i: int) -> Json {
    j->Object_0@[i].1
}

pub open spec fn kernel_spec_form(j: Json, k: KernelSpecView) -> bool {
    &&& object_with_keys(j, seq!["name"@, "display_name"@])
    &&& text_form(value_at(j, 0), k.name)
    &&& text_form(value_at(j, 1), k.display_name)
}

pub open spec fn language_info_form(j: Json, l: LanguageInfoView) -> bool {
    &&& object_with_keys(j, seq!["name"@, "codemirror_mode"@, "mimetype"@, "file_extension"@, "pygments_lexer"@])
    &&& text_form(value_at(j, 0), l.name)
    &&& opt_text_form(value_at(j, 1), l.codemirror_mode)
    &&& opt_text_form(value_at(j, 2), l.mimetype)
    &&& opt_text_form(value_at(j, 3), l.file_extension)
    &&& opt_text_form(value_at(j, 4), l.pygments_lexer)
}

pub open spec fn author_form(j: Json, a: AuthorView) -> bool {
    &&& object_with_keys(j, seq!["name"@])
    &&& text_form(value_at(j, 0), a.name)
}

pub open spec fn authors_form(v: Json, a: Seq<AuthorView>) -> bool {
    &&& v is Array
    &&& v->Array_0@.len() == a.len()
    &&& forall|i: int| 0 <= i < a.len() ==> author_form(#[trigger] v->Array_0@[i], a[i])
}

pub open spec fn notebook_metadata_form(j: Json, m: NotebookMetadataView) -> bool {
    &&& object_with_keys(j, seq!["kernelspec"@, "language_info"@, "original_notebook_format"@, "title"@, "authors"@])
    &&& match m.kernelspec {
        Some(k) => kernel_spec_form(value_at(j, 0), k),
        None => value_at(j, 0) is Null,
    }
    &&& match m.language_info {
        Some(l) => language_info_form(value_at(j, 1), l),
        None => value_at(j, 1) is Null,
    }
    &&& opt_u64_form(value_at(j, 2), m.original_notebook_format)
    &&& opt_text_form(value_at(j, 3), m.title)
    &&& match m.authors {
        Some(a) => authors_form(value_at(j, 4), a),
        None => value_at(j, 4) is Null,
    }
}

pub open spec fn jupyter_form(j: Json, m: RawCellJupyterMetadata) -> bool {
    &&& object_with_keys(j, seq!["source_hidden"@])
    &&& opt_bool_form(value_at(j, 0), m.source_hidden)
}

pub open spec fn raw_cell_metadata_form(j: Json, m: RawCellMetadataView) -> bool {
    &&& object_with_keys(j, seq!["format"@, "jupyter"@, "name"@, "tags"@])
    &&& opt_text_form(value_at(j, 0), m.format)
    &&& match m.jupyter {
        Some(x) => jupyter_form(value_at(j, 1), x),
        None => value_at(j, 1) is Null,
    }
    &&& opt_text_form(value_at(j, 2), m.name)
    &&& match m.tags {
        Some(t) => texts_form(value_at(j, 3), t),
        None => value_at(j, 3) is Null,
    }
}

pub open spec fn raw_cell_form(j: Json, c: RawCellView) -> bool {
    &&& object_with_keys(j, seq!["id"@, "cell_type"@, "source"@, "metadata"@])
    &&& text_form(value_at(j, 0), c.id)
    &&& text_form(value_at(j, 1), c.cell_type)
    &&& text_form(value_at(j, 2), c.source)
    &&& raw_cell_metadata_form(value_at(j, 3), c.metadata)
}

pub open spec fn markdown_cell_form(j: Json, c: MarkdownCellView) -> bool {
    &&& object_with_keys(j, seq!["id"@, "cell_type"@, "source"@])
    &&& text_form(value_at(j, 0), c.id)
    &&& text_form(value_at(j, 1), c.cell_type)
    &&& text_form(value_at(j, 2), c.source)
}

pub open spec fn code_cell_form(j: Json, c: CodeCellView) -> bool {
    &&& object_with_keys(j, seq!["id"@, "cell_type"@, "source"@, "outputs"@, "execution_count"@])
    &&& text_form(value_at(j, 0), c.id)
    &&& text_form(value_at(j, 1), c.cell_type)
    &&& text_form(value_at(j, 2), c.source)
    &&& value_at(j, 3) is Array && value_at(j, 3)->Array_0@ == c.outputs
    &&& opt_u64_form(value_at(j, 4), c.execution_count)
}

/// `v` is an array of one `null` per cell entry.
pub open spec fn cells_form(v: Json, n: nat) -> bool {
    &&& v is Array
    &&& v->Array_0@.len() == n
    &&& forall|i: int| 0 <= i < n ==> #[trigger] v->Array_0@[i] is Null
}

pub open spec fn notebook_form(j: Json, n: NotebookView) -> bool {
    &&& object_with_keys(j, seq!["metadata"@, "nbformat"@, "nbformat_minor"@, "cells"@])
    &&& notebook_metadata_form(value_at(j, 0), n.metadata)
    &&& u64_form(value_at(j, 1), n.nbformat)
    &&& u64_form(value_at(j, 2), n.nbformat_minor)
    &&& cells_form(value_at(j, 3), n.cells.len())
}

fn text_json(s: &String) -> (j: Json)
    ensures
        text_form(j, s@),
        j is Str,
        j->Str_0@ == s@,
{
    Json::Str(s.clone())
}

fn opt_text_json(o: &Option<String>) -> (j: Json)
    ensures
        opt_text_form(j, o.deep_view()),
        nullable(j, string_decoder()) == Ok::<_, DecodeError>(o.deep_view()),
{
    match o {
        Some(s) => text_json(s),
        None => Json::Null,
    }
}

fn u64_json(n: u64) -> (j: Json)
    ensures
        u64_form(j, n),
        j is Number,
        u64_of(j) == Ok::<_, DecodeError>(n),
{
    Json::Number(JsonNumber { unsigned: Some(n), text: n.to_string() })
}

fn opt_u64_json(o: Option<u64>) -> (j: Json)
    ensures
        opt_u64_form(j, o),
        nullable(j, u64_decoder()) == Ok::<_, DecodeError>(o),
{
    match o {
        Some(n) => u64_json(n),
        None => Json::Null,
    }
}

fn opt_bool_json(o: Option<bool>) -> (j: Json)
    ensures
        opt_bool_form(j, o),
        nullable(j, bool_decoder()) == Ok::<_, DecodeError>(o),
{
    match o {
        Some(b) => Json::Bool(b),
        None => Json::Null,
    }
}

fn texts_json(v: &Vec<String>) -> (j: Json)
    ensures
        texts_form(j, v.deep_view()),
        j is Array,
        strings_of(j) == Ok::<_, DecodeError>(v.deep_view()),
{
    let mut items: Vec<Json> = Vec::new();
    let mut i: usize = 0;
    while i < v.len()
        invariant
            i <= v@.len(),
            items@.len() == i,
            forall|k: int| 0 <= k < i ==> (#[trigger] items@[k] is Str) && items@[k]->Str_0@ == v@[k]@,
        decreases v.len() - i,
    {
        items.push(text_json(&v[i]));
        i = i + 1;
    }
    let ghost d = string_decoder();
    proof {
        law_list_of_items(items@, d);
        assert forall|k: int| 0 <= k < items@.len() implies #[trigger] d(items@[k]) is Ok by {
            assert(items@[k] is Str);
        }
        let xs = crate::decode::list_of(items@, d)->Ok_0;
        assert forall|k: int| 0 <= k < items@.len() implies xs[k] == v.deep_view()[k] by {
            assert(d(items@[k]) == Ok::<Seq<char>, DecodeError>(xs[k]));
        }
        assert(xs =~= v.deep_view());
    }
    Json::Array(items)
}

impl KernelSpec {
    /// Writes the kernel spec as a JSON object; decoding it gives the kernel
    /// spec back.
    pub fn to_json(&self) -> (j: Json)
        ensures
            kernel_spec_form(j, self@),
            kernel_spec_of(j) == Ok::<_, DecodeError>(self@),
    {
        let mut fields: Vec<(String, Json)> = Vec::new();
        fields.push((String::from_str("name"), text_json(&self.name)));
        fields.push((String::from_str("display_name"), text_json(&self.display_name)));
        proof {
            reveal_strlit("name");
            reveal_strlit("display_name");
            assert("name"@.len() == 4);
            assert("display_name"@.len() == 12);
            reveal_with_fuel(no_key_before, 3);
            lemma_member_at(fields@, 0, "name"@);
            lemma_member_at(fields@, 1, "display_name"@);
            reveal_with_fuel(crate::json::member_error, 3);
        }
        Json::Object(fields)
    }
}

impl LanguageInfo {
    /// Writes the language info as a JSON object; decoding it gives the
    /// language info back.
    pub fn to_json(&self) -> (j: Json)
        ensures
            language_info_form(j, self@),
            language_info_of(j) == Ok::<_, DecodeError>(self@),
    {
        let mut fields: Vec<(String, Json)> = Vec::new();
        fields.push((String::from_str("name"), text_json(&self.name)));
        fields.push((String::from_str("codemirror_mode"), opt_text_json(&self.codemirror_mode)));
        fields.push((String::from_str("mimetype"), opt_text_json(&self.mimetype)));
        fields.push((String::from_str("file_extension"), opt_text_json(&self.file_extension)));
        fields.push((String::from_str("pygments_lexer"), opt_text_json(&self.pygments_lexer)));
        proof {
            reveal_strlit("name");
            reveal_strlit("codemirror_mode");
            reveal_strlit("mimetype");
            reveal_strlit("file_extension");
            reveal_strlit("pygments_lexer");
            assert("name"@.len() == 4);
            assert("codemirror_mode"@.len() == 15);
            assert("mimetype"@.len() == 8);
            assert("file_extension"@.len() == 14);
            assert("pygments_lexer"@.len() == 14);
            reveal_with_fuel(no_key_before, 6);
            reveal_with_fuel(crate::json::member_error, 6);
            assert("file_extension"@[0] != "pygments_lexer"@[0]);
            lemma_member_at(fields@, 0, "name"@);
            lemma_member_at(fields@, 1, "codemirror_mode"@);
            lemma_member_at(fields@, 2, "mimetype"@);
            lemma_member_at(fields@, 3, "file_extension"@);
            lemma_member_at(fields@, 4, "pygments_lexer"@);
        }
        Json::Object(fields)
    }
}

impl Author {
    /// Writes the author as a JSON object; decoding it gives the author
    /// back.
    pub fn to_json(&self) -> (j: Json)
        ensures
            author_form(j, self@),
            author_of(j) == Ok::<_, DecodeError>(self@),
    {
        let mut fields: Vec<(String, Json)> = Vec::new();
        fields.push((String::from_str("name"), text_json(&self.name)));
        proof {
            lemma_member_at(fields@, 0, "name"@);
            reveal_with_fuel(crate::json::member_error, 2);
        }
        Json::Object(fields)
    }
}

fn authors_json(v: &Vec<Author>) -> (j: Json)
    ensures
        authors_form(j, authors_view(v@)),
        j is Array,
        authors_of(j) == Ok::<_, DecodeError>(authors_view(v@)),
{
    let mut items: Vec<Json> = Vec::new();
    let mut i: usize = 0;
    while i < v.len()
        invariant
            i <= v@.len(),
            items@.len() == i,
            forall|k: int| 0 <= k < i ==> author_of(#[trigger] items@[k]) == Ok::<_, DecodeError>(v@[k]@),
            forall|k: int| 0 <= k < i ==> author_form(#[trigger] items@[k], v@[k]@),
        decreases v.len() - i,
    {
        items.push(v[i].to_json());
        i = i + 1;
    }
    let ghost d = author_decoder();
    proof {
        law_list_of_items(items@, d);
        assert forall|k: int| 0 <= k < items@.len() implies #[trigger] d(items@[k]) is Ok by {
            assert(author_of(items@[k]) == Ok::<_, DecodeError>(v@[k]@));
        }
        let xs = crate::decode::list_of(items@, d)->Ok_0;
        assert forall|k: int| 0 <= k < items@.len() implies xs[k] == authors_view(v@)[k] by {
            assert(d(items@[k]) == Ok::<AuthorView, DecodeError>(xs[k]));
            assert(author_of(items@[k]) == Ok::<_, DecodeError>(v@[k]@));
        }
        assert(xs =~= authors_view(v@));
    }
    Json::Array(items)
}

impl NotebookMetadata {
    /// Writes the metadata as a JSON object; decoding it gives the metadata
    /// back where `original_notebook_format` keeps its rule.
    pub fn to_json(&self) -> (j: Json)
        ensures
            notebook_metadata_form(j, self@),
            orig_nbformat_rule(self.original_notebook_format) is None
                ==> notebook_metadata_of(j) == Ok::<_, DecodeError>(self@),
    {
        let kernelspec = match &self.kernelspec {
            Some(k) => k.to_json(),
            None => Json::Null,
        };
        let language_info = match &self.language_info {
            Some(l) => l.to_json(),
            None => Json::Null,
        };
        let authors = match &self.authors {
            Some(a) => authors_json(a),
            None => Json::Null,
        };
        let mut fields: Vec<(String, Json)> = Vec::new();
        fields.push((String::from_str("kernelspec"), kernelspec));
        fields.push((String::from_str("language_info"), language_info));
        fields.push((String::from_str("original_notebook_format"), opt_u64_json(self.original_notebook_format)));
        fields.push((String::from_str("title"), opt_text_json(&self.title)));
        fields.push((String::from_str("authors"), authors));
        proof {
            reveal_strlit("kernelspec");
            reveal_strlit("language_info");
            reveal_strlit("original_notebook_format");
            reveal_strlit("title");
            reveal_strlit("authors");
            assert("kernelspec"@.len() == 10);
            assert("language_info"@.len() == 13);
            assert("original_notebook_format"@.len() == 24);
            assert("title"@.len() == 5);
            assert("authors"@.len() == 7);
            reveal_with_fuel(no_key_before, 6);
            reveal_with_fuel(crate::json::member_error, 6);
            lemma_member_at(fields@, 0, "kernelspec"@);
            lemma_member_at(fields@, 1, "language_info"@);
            lemma_member_at(fields@, 2, "original_notebook_format"@);
            lemma_member_at(fields@, 3, "title"@);
            lemma_member_at(fields@, 4, "authors"@);
        }
        Json::Object(fields)
    }
}

impl RawCellJupyterMetadata {
    /// Writes the `jupyter` part of raw cell metadata as a JSON object;
    /// decoding it gives the value back.
    pub fn to_json(&self) -> (j: Json)
        ensures
            jupyter_form(j, *self),
            jupyter_of(j) == Ok::<_, DecodeError>(*self),
    {
        let mut fields: Vec<(String, Json)> = Vec::new();
        fields.push((String::from_str("source_hidden"), opt_bool_json(self.source_hidden)));
        proof {
            lemma_member_at(fields@, 0, "source_hidden"@);
            reveal_with_fuel(crate::json::member_error, 2);
        }
        Json::Object(fields)
    }
}

impl RawCellMetadata {
    /// Writes raw cell metadata as a JSON object; decoding it gives the
    /// metadata back where the name and the tags keep their rules.
    pub fn to_json(&self) -> (j: Json)
        ensures
            raw_cell_metadata_form(j, self@),
            cell_name_rule(self.name.deep_view()) is None && cell_tags_rule(self.tags.deep_view()) is None
                ==> raw_cell_metadata_of(j) == Ok::<_, DecodeError>(self@),
    {
        let jupyter = match &self.jupyter {
            Some(m) => m.to_json(),
            None => Json::Null,
        };
        let tags = match &self.tags {
            Some(t) => texts_json(t),
            None => Json::Null,
        };
        let mut fields: Vec<(String, Json)> = Vec::new();
        fields.push((String::from_str("format"), opt_text_json(&self.format)));
        fields.push((String::from_str("jupyter"), jupyter));
        fields.push((String::from_str("name"), opt_text_json(&self.name)));
        fields.push((String::from_str("tags"), tags));
        proof {
            reveal_strlit("format");
            reveal_strlit("jupyter");
            reveal_strlit("name");
            reveal_strlit("tags");
            assert("format"@.len() == 6);
            assert("jupyter"@.len() == 7);
            assert("name"@.len() == 4);
            assert("tags"@.len() == 4);
            reveal_with_fuel(no_key_before, 5);
            reveal_with_fuel(crate::json::member_error, 5);
            assert("name"@[0] != "tags"@[0]);
            lemma_member_at(fields@, 0, "format"@);
            lemma_member_at(fields@, 1, "jupyter"@);
            lemma_member_at(fields@, 2, "name"@);
            lemma_member_at(fields@, 3, "tags"@);
        }
        Json::Object(fields)
    }
}

impl RawCell {
    /// Writes a raw cell as a JSON object; decoding it gives the cell back
    /// where its id, its `cell_type` and its metadata keep their rules.
    pub fn to_json(&self) -> (j: Json)
        ensures
            raw_cell_form(j, self@),
            cell_id_rule(self.id@) is None && self.cell_type@ == "raw"@
                && cell_name_rule(self.metadata.name.deep_view()) is None
                && cell_tags_rule(self.metadata.tags.deep_view()) is None
                ==> raw_cell_of(j) == Ok::<_, DecodeError>(self@),
    {
        let mut fields: Vec<(String, Json)> = Vec::new();
        fields.push((String::from_str("id"), text_json(&self.id)));
        fields.push((String::from_str("cell_type"), text_json(&self.cell_type)));
        fields.push((String::from_str("source"), text_json(&self.source)));
        fields.push((String::from_str("metadata"), self.metadata.to_json()));
        proof {
            reveal_strlit("id");
            reveal_strlit("cell_type");
            reveal_strlit("source");
            reveal_strlit("metadata");
            assert("id"@.len() == 2);
            assert("cell_type"@.len() == 9);
            assert("source"@.len() == 6);
            assert("metadata"@.len() == 8);
            reveal_with_fuel(no_key_before, 5);
            reveal_with_fuel(crate::json::member_error, 5);
            lemma_member_at(fields@, 0, "id"@);
            lemma_member_at(fields@, 1, "cell_type"@);
            lemma_member_at(fields@, 2, "source"@);
            lemma_member_at(fields@, 3, "metadata"@);
        }
        Json::Object(fields)
    }
}

impl MarkdownCell {
    /// Writes a markdown cell as a JSON object; decoding it gives the cell
    /// back where its id and its `cell_type` keep their rules.
    pub fn to_json(&self) -> (j: Json)
        ensures
            markdown_cell_form(j, self@),
            cell_id_rule(self.id@) is None && self.cell_type@ == "markdown"@
                ==> markdown_cell_of(j) == Ok::<_, DecodeError>(self@),
    {
        let mut fields: Vec<(String, Json)> = Vec::new();
        fields.push((String::from_str("id"), text_json(&self.id)));
        fields.push((String::from_str("cell_type"), text_json(&self.cell_type)));
        fields.push((String::from_str("source"), text_json(&self.source)));
        proof {
            reveal_strlit("id");
            reveal_strlit("cell_type");
            reveal_strlit("source");
            assert("id"@.len() == 2);
            assert("cell_type"@.len() == 9);
            assert("source"@.len() == 6);
            reveal_with_fuel(no_key_before, 4);
            reveal_with_fuel(crate::json::member_error, 4);
            lemma_member_at(fields@, 0, "id"@);
            lemma_member_at(fields@, 1, "cell_type"@);
            lemma_member_at(fields@, 2, "source"@);
        }
        Json::Object(fields)
    }
}

impl CodeCell {
    /// Writes a code cell as a JSON object, moving its outputs into it;
    /// decoding it gives the cell back where its id and its `cell_type`
    /// keep their rules.
    pub fn into_json(self) -> (j: Json)
        ensures
            code_cell_form(j, self@),
            cell_id_rule(self.id@) is None && self.cell_type@ == "code"@
                ==> code_cell_of(j) == Ok::<_, DecodeError>(self@),
    {
        let mut fields: Vec<(String, Json)> = Vec::new();
        fields.push((String::from_str("id"), text_json(&self.id)));
        fields.push((String::from_str("cell_type"), text_json(&self.cell_type)));
        fields.push((String::from_str("source"), text_json(&self.source)));
        let execution_count = opt_u64_json(self.execution_count);
        fields.push((String::from_str("outputs"), Json::Array(self.outputs)));
        fields.push((String::from_str("execution_count"), execution_count));
        proof {
            reveal_strlit("id");
            reveal_strlit("cell_type");
            reveal_strlit("source");
            reveal_strlit("outputs");
            reveal_strlit("execution_count");
            assert("id"@.len() == 2);
            assert("cell_type"@.len() == 9);
            assert("source"@.len() == 6);
            assert("outputs"@.len() == 7);
            assert("execution_count"@.len() == 15);
            reveal_with_fuel(no_key_before, 6);
            reveal_with_fuel(crate::json::member_error, 6);
            lemma_member_at(fields@, 0, "id"@);
            lemma_member_at(fields@, 1, "cell_type"@);
            lemma_member_at(fields@, 2, "source"@);
            lemma_member_at(fields@, 3, "outputs"@);
            lemma_member_at(fields@, 4, "execution_count"@);
        }
        Json::Object(fields)
    }
}

impl Cell {
    /// Writes a cell entry: `null`, as for any untagged unit kind. Decoding
    /// it gives a raw cell, whichever kind was written.
    pub fn to_json(&self) -> (j: Json)
        ensures
            j is Null,
            cell_of(j) == Ok::<_, DecodeError>(Cell::RawCell),
    {
        Json::Null
    }
}

fn cells_json(v: &Vec<Cell>) -> (j: Json)
    ensures
        cells_form(j, v@.len()),
        j is Array,
        (forall|k: int| 0 <= k < v@.len() ==> #[trigger] v@[k] == Cell::RawCell)
            ==> cells_of(j) == Ok::<_, DecodeError>(v@),
{
    let mut items: Vec<Json> = Vec::new();
    let mut i: usize = 0;
    while i < v.len()
        invariant
            i <= v@.len(),
            items@.len() == i,
            forall|k: int| 0 <= k < i ==> #[trigger] items@[k] is Null,
        decreases v.len() - i,
    {
        items.push(v[i].to_json());
        i = i + 1;
    }
    let ghost d = cell_decoder();
    proof {
        law_list_of_items(items@, d);
        assert forall|k: int| 0 <= k < items@.len() implies #[trigger] d(items@[k]) is Ok by {
            assert(items@[k] is Null);
        }
        if forall|k: int| 0 <= k < v@.len() ==> #[trigger] v@[k] == Cell::RawCell {
            let xs = crate::decode::list_of(items@, d)->Ok_0;
            assert forall|k: int| 0 <= k < items@.len() implies xs[k] == v@[k] by {
                assert(d(items@[k]) == Ok::<Cell, DecodeError>(xs[k]));
                assert(items@[k] is Null);
                assert(v@[k] == Cell::RawCell);
            }
            assert(xs =~= v@);
        }
    }
    Json::Array(items)
}

impl Notebook {
    /// Writes the notebook as a JSON object; decoding it gives the notebook
    /// back where it keeps the schema's rules and every cell entry is a raw
    /// cell (the other kinds are written as `null` too, and read back as
    /// raw cells).
    pub fn to_json(&self) -> (j: Json)
        ensures
            notebook_form(j, self@),
            orig_nbformat_rule(self.metadata.original_notebook_format) is None
                && nbformat_rule(self.nbformat) is None
                && nbformat_minor_rule(self.nbformat_minor) is None
                && (forall|k: int| 0 <= k < self.cells@.len() ==> #[trigger] self.cells@[k] == Cell::RawCell)
                ==> notebook_of(j) == Ok::<_, DecodeError>(self@),
    {
        let mut fields: Vec<(String, Json)> = Vec::new();
        fields.push((String::from_str("metadata"), self.metadata.to_json()));
        fields.push((String::from_str("nbformat"), u64_json(self.nbformat)));
        fields.push((String::from_str("nbformat_minor"), u64_json(self.nbformat_minor)));
        fields.push((String::from_str("cells"), cells_json(&self.cells)));
        proof {
            reveal_strlit("metadata");
            reveal_strlit("nbformat");
            reveal_strlit("nbformat_minor");
            reveal_strlit("cells");
            assert("metadata"@.len() == 8);
            assert("nbformat"@.len() == 8);
            assert("nbformat_minor"@.len() == 14);
            assert("cells"@.len() == 5);
            reveal_with_fuel(no_key_before, 5);
            reveal_with_fuel(crate::json::member_error, 5);
            assert("metadata"@[0] != "nbformat"@[0]);
            lemma_member_at(fields@, 0, "metadata"@);
            lemma_member_at(fields@, 1, "nbformat"@);
            lemma_member_at(fields@, 2, "nbformat_minor"@);
            lemma_member_at(fields@, 3, "cells"@);
        }
        Json::Object(fields)
    }
}

} // verus!
