//! What decoding reads from its input. A struct read from a JSON object
//! takes each field from the member with its key; a required field whose
//! member is absent makes the object fail; members whose keys name no field
//! change nothing; a field's key written twice is refused. A struct read
//! from an array takes its fields from the items in order. Scalars read as
//! themselves, and anything else is of the wrong type.
use vstd::prelude::*;
use crate::json::{
    lemma_key_before, lemma_member_decodes, lemma_member_error_none, lemma_member_error_push, member, object_error,
    DecodeError, Json,
};
use crate::encode::{opt_bool_form, opt_text_form, opt_u64_form, text_form, texts_form, u64_form};
use crate::decode::{
    author_members, author_of, authors_decoder, code_cell_members, code_cell_of, jupyter_decoder,
    jupyter_members, jupyter_of, kernel_spec_decoder, kernel_spec_members, kernel_spec_of,
    language_info_decoder, language_info_members, language_info_of, markdown_cell_members,
    markdown_cell_of, notebook_members, notebook_metadata_members, notebook_metadata_of,
    notebook_of, raw_cell_members, raw_cell_metadata_members, raw_cell_metadata_of, raw_cell_of,
    bool_of, nullable, string_decoder, string_of, strings_of, u64_of,
};
use crate::model::{
    AuthorView, CodeCellView, KernelSpecView, LanguageInfoView, MarkdownCellView,
    NotebookMetadataView, NotebookView, RawCellJupyterMetadata, RawCellMetadataView, RawCellView,
};
use crate::laws::{law_cells_are_nulls, law_list_of_items, law_member_push};

verus! {

/// The member `m` is there and is the string `s`.
pub open spec fn text_member(m: Option<Json>, s: Seq<char>) -> bool {
    m matches Some(v) && text_form(v, s)
}

/// The member `m` is absent or `null` where `o` is `None`, else the string
/// in `o`.
pub open spec fn opt_text_member(m: Option<Json>, o: Option<Seq<char>>) -> bool {
    match m {
        None => o is None,
        Some(v) => opt_text_form(v, o),
    }
}

/// The member `m` is absent or `null` where `o` is `None`, else the number
/// in `o`.
pub open spec fn opt_u64_member(m: Option<Json>, o: Option<u64>) -> bool {
    match m {
        None => o is None,
        Some(v) => opt_u64_form(v, o),
    }
}

/// The member `m` is absent or `null` where `o` is `None`, else the boolean
/// in `o`.
pub open spec fn opt_bool_member(m: Option<Json>, o: Option<bool>) -> bool {
    match m {
        None => o is None,
        Some(v) => opt_bool_form(v, o),
    }
}

/// The member `m` is absent or `null` where `o` is `None`, else an array
/// of the strings in `o`.
pub open spec fn opt_texts_member(m: Option<Json>, o: Option<Seq<Seq<char>>>) -> bool {
    match m {
        None => o is None,
        Some(v) => match o {
            None => v is Null,
            Some(t) => texts_form(v, t),
        },
    }
}

/// The member `m` is absent or `null` where `o` is `None`, else a value
/// that `d` decodes to the value in `o`.
pub open spec fn opt_decoded_member<T>(
    m: Option<Json>,
    o: Option<T>,
    d: spec_fn(Json) -> Result<T, DecodeError>,
) -> bool {
    match m {
        None => o is None,
        Some(v) => if v is Null {
            o is None
        } else {
            o is Some && d(v) == Ok::<T, DecodeError>(o->0)
        },
    }
}

/// Item number `i` of `items`, where there is one.
pub open spec fn item(items: Seq<Json>, i: int) -> Option<Json> {
    if 0 <= i < items.len() {
        Some(items[i])
    } else {
        None
    }
}

/// An array of strings decodes to exactly those strings, in order.
pub proof fn lemma_strings_read(v: Json)
    ensures
        strings_of(v) matches Ok(t) ==> texts_form(v, t),
{
    if let Json::Array(items) = v {
        let d = string_decoder();
        law_list_of_items(items@, d);
        if let Ok(t) = strings_of(v) {
            assert forall|i: int| 0 <= i < t.len() implies text_form(#[trigger] items@[i], t[i]) by {
                assert(d(items@[i]) == Ok::<Seq<char>, DecodeError>(t[i]));
            }
        }
    }
}

/// A string reads as its characters, a non-negative integer of 64 bits as
/// its value, a boolean as itself; any other JSON value is of the wrong
/// type. `null` reads as `None` where a value may be absent.
pub proof fn law_scalars_read(v: Json)
    ensures
        (string_of(v) is Ok) <==> v is Str,
        v matches Json::Str(s) ==> string_of(v) == Ok::<Seq<char>, DecodeError>(s@),
        !(v is Str) ==> string_of(v) == Err::<Seq<char>, DecodeError>(DecodeError::WrongType),
        (u64_of(v) is Ok) <==> (v matches Json::Number(n) && n.unsigned is Some),
        u64_of(v) matches Ok(n) ==> u64_form(v, n),
        u64_of(v) is Err ==> u64_of(v) == Err::<u64, DecodeError>(DecodeError::WrongType),
        (bool_of(v) is Ok) <==> v is Bool,
        v matches Json::Bool(b) ==> bool_of(v) == Ok::<bool, DecodeError>(b),
        !(v is Bool) ==> bool_of(v) == Err::<bool, DecodeError>(DecodeError::WrongType),
        v is Null ==> nullable(v, string_decoder()) == Ok::<Option<Seq<char>>, DecodeError>(None),
        !(v is Null) ==> nullable(v, string_decoder()) == (match string_of(v) {
            Ok(s) => Ok::<Option<Seq<char>>, DecodeError>(Some(s)),
            Err(e) => Err(e),
        }),
{
}

/// A struct is read only from a JSON object or array; any other value is
/// of the wrong type.
pub proof fn law_structs_need_object_or_array(j: Json)
    ensures
        !(j is Object || j is Array) ==> kernel_spec_of(j) == Err::<KernelSpecView, DecodeError>(DecodeError::WrongType),
        !(j is Object || j is Array) ==> language_info_of(j) == Err::<LanguageInfoView, DecodeError>(DecodeError::WrongType),
        !(j is Object || j is Array) ==> author_of(j) == Err::<AuthorView, DecodeError>(DecodeError::WrongType),
        !(j is Object || j is Array) ==> notebook_metadata_of(j) == Err::<NotebookMetadataView, DecodeError>(DecodeError::WrongType),
        !(j is Object || j is Array) ==> jupyter_of(j) == Err::<RawCellJupyterMetadata, DecodeError>(DecodeError::WrongType),
        !(j is Object || j is Array) ==> raw_cell_metadata_of(j) == Err::<RawCellMetadataView, DecodeError>(DecodeError::WrongType),
        !(j is Object || j is Array) ==> raw_cell_of(j) == Err::<RawCellView, DecodeError>(DecodeError::WrongType),
        !(j is Object || j is Array) ==> markdown_cell_of(j) == Err::<MarkdownCellView, DecodeError>(DecodeError::WrongType),
        !(j is Object || j is Array) ==> code_cell_of(j) == Err::<CodeCellView, DecodeError>(DecodeError::WrongType),
        !(j is Object || j is Array) ==> notebook_of(j) == Err::<NotebookView, DecodeError>(DecodeError::WrongType),
{
}

/// A kernel spec read from an object has the strings of its members
/// `name` and `display_name`; without either member the object fails,
/// with `MissingField` where no member present fails first.
pub proof fn law_kernel_spec_reads_members(fields: Vec<(String, Json)>)
    ensures
        kernel_spec_of(Json::Object(fields)) matches Ok(k) ==> {
            &&& text_member(member(fields@, "name"@), k.name)
            &&& text_member(member(fields@, "display_name"@), k.display_name)
        },
        member(fields@, "name"@) is None ==> kernel_spec_of(Json::Object(fields)) is Err,
        member(fields@, "name"@) is None && object_error(Json::Object(fields), kernel_spec_members()) is None
            ==> (kernel_spec_of(Json::Object(fields)) matches Err(e) && e == DecodeError::MissingField),
        member(fields@, "display_name"@) is None ==> kernel_spec_of(Json::Object(fields)) is Err,
        member(fields@, "display_name"@) is None && object_error(Json::Object(fields), kernel_spec_members()) is None
            ==> (kernel_spec_of(Json::Object(fields)) matches Err(e) && e == DecodeError::MissingField),
{
    if object_error(Json::Object(fields), kernel_spec_members()) is None {
        reveal_strlit("name");
        assert("name"@.len() == 4);
        reveal_strlit("display_name");
        assert("display_name"@.len() == 12);
        if member(fields@, "name"@) is Some {
            lemma_member_decodes(fields@, kernel_spec_members(), "name"@);
        }
        if member(fields@, "display_name"@) is Some {
            lemma_member_decodes(fields@, kernel_spec_members(), "display_name"@);
        }
    }
}

/// Language info read from an object has the string of its member `name`,
/// and each optional field is absent, `null` or the string of its member;
/// without a `name` member the object fails.
pub proof fn law_language_info_reads_members(fields: Vec<(String, Json)>)
    ensures
        language_info_of(Json::Object(fields)) matches Ok(l) ==> {
            &&& text_member(member(fields@, "name"@), l.name)
            &&& opt_text_member(member(fields@, "codemirror_mode"@), l.codemirror_mode)
            &&& opt_text_member(member(fields@, "mimetype"@), l.mimetype)
            &&& opt_text_member(member(fields@, "file_extension"@), l.file_extension)
            &&& opt_text_member(member(fields@, "pygments_lexer"@), l.pygments_lexer)
        },
        member(fields@, "name"@) is None ==> language_info_of(Json::Object(fields)) is Err,
        member(fields@, "name"@) is None && object_error(Json::Object(fields), language_info_members()) is None
            ==> (language_info_of(Json::Object(fields)) matches Err(e) && e == DecodeError::MissingField),
{
    if object_error(Json::Object(fields), language_info_members()) is None {
        reveal_strlit("name");
        assert("name"@.len() == 4);
        reveal_strlit("codemirror_mode");
        assert("codemirror_mode"@.len() == 15);
        reveal_strlit("mimetype");
        assert("mimetype"@.len() == 8);
        reveal_strlit("file_extension");
        assert("file_extension"@.len() == 14);
        reveal_strlit("pygments_lexer");
        assert("pygments_lexer"@.len() == 14);
        if member(fields@, "name"@) is Some {
            lemma_member_decodes(fields@, language_info_members(), "name"@);
        }
        if member(fields@, "codemirror_mode"@) is Some {
            lemma_member_decodes(fields@, language_info_members(), "codemirror_mode"@);
        }
        if member(fields@, "mimetype"@) is Some {
            lemma_member_decodes(fields@, language_info_members(), "mimetype"@);
        }
        if member(fields@, "file_extension"@) is Some {
            lemma_member_decodes(fields@, language_info_members(), "file_extension"@);
        }
        if member(fields@, "pygments_lexer"@) is Some {
            lemma_member_decodes(fields@, language_info_members(), "pygments_lexer"@);
        }
    }
}

/// An author read from an object has the string of its member `name`;
/// without it the object fails.
pub proof fn law_author_reads_members(fields: Vec<(String, Json)>)
    ensures
        author_of(Json::Object(fields)) matches Ok(a) ==> text_member(member(fields@, "name"@), a.name),
        member(fields@, "name"@) is None ==> author_of(Json::Object(fields)) is Err,
        member(fields@, "name"@) is None && object_error(Json::Object(fields), author_members()) is None
            ==> (author_of(Json::Object(fields)) matches Err(e) && e == DecodeError::MissingField),
{
    if object_error(Json::Object(fields), author_members()) is None {
        reveal_strlit("name");
        assert("name"@.len() == 4);
        if member(fields@, "name"@) is Some {
            lemma_member_decodes(fields@, author_members(), "name"@);
        }
    }
}

/// Notebook metadata read from an object takes each field from the member
/// with its key: the kernel spec, language info and authors as their
/// decoders read them, the title as a string, and
/// `original_notebook_format` as `null` or a number of at least 1, from a
/// member that must be there.
pub proof fn law_notebook_metadata_reads_members(fields: Vec<(String, Json)>)
    ensures
        notebook_metadata_of(Json::Object(fields)) matches Ok(m) ==> {
            &&& opt_decoded_member(member(fields@, "kernelspec"@), m.kernelspec, kernel_spec_decoder())
            &&& opt_decoded_member(member(fields@, "language_info"@), m.language_info, language_info_decoder())
            &&& member(fields@, "original_notebook_format"@) is Some
            &&& opt_u64_member(member(fields@, "original_notebook_format"@), m.original_notebook_format)
            &&& (m.original_notebook_format matches Some(n) ==> n >= 1)
            &&& opt_text_member(member(fields@, "title"@), m.title)
            &&& opt_decoded_member(member(fields@, "authors"@), m.authors, authors_decoder())
        },
        member(fields@, "original_notebook_format"@) is None ==> notebook_metadata_of(Json::Object(fields)) is Err,
        member(fields@, "original_notebook_format"@) is None && object_error(Json::Object(fields), notebook_metadata_members()) is None
            ==> (notebook_metadata_of(Json::Object(fields)) matches Err(e) && e == DecodeError::MissingField),
{
    if object_error(Json::Object(fields), notebook_metadata_members()) is None {
        reveal_strlit("kernelspec");
        assert("kernelspec"@.len() == 10);
        reveal_strlit("language_info");
        assert("language_info"@.len() == 13);
        reveal_strlit("original_notebook_format");
        assert("original_notebook_format"@.len() == 24);
        reveal_strlit("title");
        assert("title"@.len() == 5);
        reveal_strlit("authors");
        assert("authors"@.len() == 7);
        if member(fields@, "kernelspec"@) is Some {
            lemma_member_decodes(fields@, notebook_metadata_members(), "kernelspec"@);
        }
        if member(fields@, "language_info"@) is Some {
            lemma_member_decodes(fields@, notebook_metadata_members(), "language_info"@);
        }
        if member(fields@, "original_notebook_format"@) is Some {
            lemma_member_decodes(fields@, notebook_metadata_members(), "original_notebook_format"@);
        }
        if member(fields@, "title"@) is Some {
            lemma_member_decodes(fields@, notebook_metadata_members(), "title"@);
        }
        if member(fields@, "authors"@) is Some {
            lemma_member_decodes(fields@, notebook_metadata_members(), "authors"@);
        }
    }
}

/// The `jupyter` part of raw cell metadata read from an object has the
/// boolean of its member `source_hidden`, or `None` where it is absent or
/// `null`.
pub proof fn law_jupyter_reads_members(fields: Vec<(String, Json)>)
    ensures
        jupyter_of(Json::Object(fields)) matches Ok(x) ==> opt_bool_member(
            member(fields@, "source_hidden"@),
            x.source_hidden,
        ),
{
}

/// Raw cell metadata read from an object takes each field from the member
/// with its key, whatever the other members: the format and the name as
/// strings, `jupyter` as its decoder reads it, and the tags as the array of
/// strings of the `tags` member, in order.
pub proof fn law_raw_cell_metadata_reads_members(fields: Vec<(String, Json)>)
    ensures
        raw_cell_metadata_of(Json::Object(fields)) matches Ok(m) ==> {
            &&& opt_text_member(member(fields@, "format"@), m.format)
            &&& opt_decoded_member(member(fields@, "jupyter"@), m.jupyter, jupyter_decoder())
            &&& opt_text_member(member(fields@, "name"@), m.name)
            &&& opt_texts_member(member(fields@, "tags"@), m.tags)
        },
{
    if let Ok(m) = raw_cell_metadata_of(Json::Object(fields)) {
        if let Some(v) = member(fields@, "tags"@) {
            lemma_strings_read(v);
        }
    }
}

/// A raw cell read from an object has the strings of its members `id`,
/// `cell_type` (which is `raw`) and `source`, and the metadata that its
/// `metadata` member decodes to; without any of these members it fails.
pub proof fn law_raw_cell_reads_members(fields: Vec<(String, Json)>)
    ensures
        raw_cell_of(Json::Object(fields)) matches Ok(c) ==> {
            &&& text_member(member(fields@, "id"@), c.id)
            &&& text_member(member(fields@, "cell_type"@), c.cell_type) && c.cell_type == "raw"@
            &&& text_member(member(fields@, "source"@), c.source)
            &&& member(fields@, "metadata"@) matches Some(v) && raw_cell_metadata_of(v) == Ok::<
                RawCellMetadataView,
                DecodeError,
            >(c.metadata)
        },
        member(fields@, "id"@) is None ==> raw_cell_of(Json::Object(fields)) is Err,
        member(fields@, "id"@) is None && object_error(Json::Object(fields), raw_cell_members()) is None
            ==> (raw_cell_of(Json::Object(fields)) matches Err(e) && e == DecodeError::MissingField),
        member(fields@, "cell_type"@) is None ==> raw_cell_of(Json::Object(fields)) is Err,
        member(fields@, "cell_type"@) is None && object_error(Json::Object(fields), raw_cell_members()) is None
            ==> (raw_cell_of(Json::Object(fields)) matches Err(e) && e == DecodeError::MissingField),
        member(fields@, "source"@) is None ==> raw_cell_of(Json::Object(fields)) is Err,
        member(fields@, "source"@) is None && object_error(Json::Object(fields), raw_cell_members()) is None
            ==> (raw_cell_of(Json::Object(fields)) matches Err(e) && e == DecodeError::MissingField),
        member(fields@, "metadata"@) is None ==> raw_cell_of(Json::Object(fields)) is Err,
        member(fields@, "metadata"@) is None && object_error(Json::Object(fields), raw_cell_members()) is None
            ==> (raw_cell_of(Json::Object(fields)) matches Err(e) && e == DecodeError::MissingField),
{
    if object_error(Json::Object(fields), raw_cell_members()) is None {
        reveal_strlit("id");
        assert("id"@.len() == 2);
        reveal_strlit("cell_type");
        assert("cell_type"@.len() == 9);
        reveal_strlit("source");
        assert("source"@.len() == 6);
        reveal_strlit("metadata");
        assert("metadata"@.len() == 8);
        if member(fields@, "id"@) is Some {
            lemma_member_decodes(fields@, raw_cell_members(), "id"@);
        }
        if member(fields@, "cell_type"@) is Some {
            lemma_member_decodes(fields@, raw_cell_members(), "cell_type"@);
        }
        if member(fields@, "source"@) is Some {
            lemma_member_decodes(fields@, raw_cell_members(), "source"@);
        }
        if member(fields@, "metadata"@) is Some {
            lemma_member_decodes(fields@, raw_cell_members(), "metadata"@);
        }
    }
}

/// A markdown cell read from an object has the strings of its members
/// `id`, `cell_type` (which is `markdown`) and `source`; without any of
/// them it fails.
pub proof fn law_markdown_cell_reads_members(fields: Vec<(String, Json)>)
    ensures
        markdown_cell_of(Json::Object(fields)) matches Ok(c) ==> {
            &&& text_member(member(fields@, "id"@), c.id)
            &&& text_member(member(fields@, "cell_type"@), c.cell_type) && c.cell_type == "markdown"@
            &&& text_member(member(fields@, "source"@), c.source)
        },
        member(fields@, "id"@) is None ==> markdown_cell_of(Json::Object(fields)) is Err,
        member(fields@, "id"@) is None && object_error(Json::Object(fields), markdown_cell_members()) is None
            ==> (markdown_cell_of(Json::Object(fields)) matches Err(e) && e == DecodeError::MissingField),
        member(fields@, "cell_type"@) is None ==> markdown_cell_of(Json::Object(fields)) is Err,
        member(fields@, "cell_type"@) is None && object_error(Json::Object(fields), markdown_cell_members()) is None
            ==> (markdown_cell_of(Json::Object(fields)) matches Err(e) && e == DecodeError::MissingField),
        member(fields@, "source"@) is None ==> markdown_cell_of(Json::Object(fields)) is Err,
        member(fields@, "source"@) is None && object_error(Json::Object(fields), markdown_cell_members()) is None
            ==> (markdown_cell_of(Json::Object(fields)) matches Err(e) && e == DecodeError::MissingField),
{
    if object_error(Json::Object(fields), markdown_cell_members()) is None {
        reveal_strlit("id");
        assert("id"@.len() == 2);
        reveal_strlit("cell_type");
        assert("cell_type"@.len() == 9);
        reveal_strlit("source");
        assert("source"@.len() == 6);
        if member(fields@, "id"@) is Some {
            lemma_member_decodes(fields@, markdown_cell_members(), "id"@);
        }
        if member(fields@, "cell_type"@) is Some {
            lemma_member_decodes(fields@, markdown_cell_members(), "cell_type"@);
        }
        if member(fields@, "source"@) is Some {
            lemma_member_decodes(fields@, markdown_cell_members(), "source"@);
        }
    }
}

/// A code cell read from an object has the strings of its members `id`,
/// `cell_type` (which is `code`) and `source`, the items of its `outputs`
/// array as they are, and the number of `execution_count` (or `None` where
/// it is absent or `null`); without `id`, `cell_type`, `source` or
/// `outputs` it fails.
pub proof fn law_code_cell_reads_members(fields: Vec<(String, Json)>)
    ensures
        code_cell_of(Json::Object(fields)) matches Ok(c) ==> {
            &&& text_member(member(fields@, "id"@), c.id)
            &&& text_member(member(fields@, "cell_type"@), c.cell_type) && c.cell_type == "code"@
            &&& text_member(member(fields@, "source"@), c.source)
            &&& member(fields@, "outputs"@) matches Some(Json::Array(items)) && items@ == c.outputs
            &&& opt_u64_member(member(fields@, "execution_count"@), c.execution_count)
        },
        member(fields@, "id"@) is None ==> code_cell_of(Json::Object(fields)) is Err,
        member(fields@, "id"@) is None && object_error(Json::Object(fields), code_cell_members()) is None
            ==> (code_cell_of(Json::Object(fields)) matches Err(e) && e == DecodeError::MissingField),
        member(fields@, "cell_type"@) is None ==> code_cell_of(Json::Object(fields)) is Err,
        member(fields@, "cell_type"@) is None && object_error(Json::Object(fields), code_cell_members()) is None
            ==> (code_cell_of(Json::Object(fields)) matches Err(e) && e == DecodeError::MissingField),
        member(fields@, "source"@) is None ==> code_cell_of(Json::Object(fields)) is Err,
        member(fields@, "source"@) is None && object_error(Json::Object(fields), code_cell_members()) is None
            ==> (code_cell_of(Json::Object(fields)) matches Err(e) && e == DecodeError::MissingField),
        member(fields@, "outputs"@) is None ==> code_cell_of(Json::Object(fields)) is Err,
        member(fields@, "outputs"@) is None && object_error(Json::Object(fields), code_cell_members()) is None
            ==> (code_cell_of(Json::Object(fields)) matches Err(e) && e == DecodeError::MissingField),
{
    if object_error(Json::Object(fields), code_cell_members()) is None {
        reveal_strlit("id");
        assert("id"@.len() == 2);
        reveal_strlit("cell_type");
        assert("cell_type"@.len() == 9);
        reveal_strlit("source");
        assert("source"@.len() == 6);
        reveal_strlit("outputs");
        assert("outputs"@.len() == 7);
        reveal_strlit("execution_count");
        assert("execution_count"@.len() == 15);
        if member(fields@, "id"@) is Some {
            lemma_member_decodes(fields@, code_cell_members(), "id"@);
        }
        if member(fields@, "cell_type"@) is Some {
            lemma_member_decodes(fields@, code_cell_members(), "cell_type"@);
        }
        if member(fields@, "source"@) is Some {
            lemma_member_decodes(fields@, code_cell_members(), "source"@);
        }
        if member(fields@, "outputs"@) is Some {
            lemma_member_decodes(fields@, code_cell_members(), "outputs"@);
        }
        if member(fields@, "execution_count"@) is Some {
            lemma_member_decodes(fields@, code_cell_members(), "execution_count"@);
        }
    }
}

/// A notebook read from an object has the metadata that its `metadata`
/// member decodes to, the number 4 of its `nbformat` member, the number of
/// its `nbformat_minor` member (at least 5), and one raw cell per `null` of
/// its `cells` array; without any of these members it fails.
pub proof fn law_notebook_reads_members(fields: Vec<(String, Json)>)
    ensures
        notebook_of(Json::Object(fields)) matches Ok(n) ==> {
            &&& member(fields@, "metadata"@) matches Some(v) && notebook_metadata_of(v) == Ok::<
                NotebookMetadataView,
                DecodeError,
            >(n.metadata)
            &&& member(fields@, "nbformat"@) matches Some(v) && u64_form(v, n.nbformat)
            &&& n.nbformat == 4
            &&& member(fields@, "nbformat_minor"@) matches Some(v) && u64_form(v, n.nbformat_minor)
            &&& n.nbformat_minor >= 5
            &&& member(fields@, "cells"@) matches Some(Json::Array(items)) && items@.len() == n.cells.len()
                && forall|i: int| 0 <= i < items@.len() ==> #[trigger] items@[i] is Null
        },
        member(fields@, "metadata"@) is None ==> notebook_of(Json::Object(fields)) is Err,
        member(fields@, "metadata"@) is None && object_error(Json::Object(fields), notebook_members()) is None
            ==> (notebook_of(Json::Object(fields)) matches Err(e) && e == DecodeError::MissingField),
        member(fields@, "nbformat"@) is None ==> notebook_of(Json::Object(fields)) is Err,
        member(fields@, "nbformat"@) is None && object_error(Json::Object(fields), notebook_members()) is None
            ==> (notebook_of(Json::Object(fields)) matches Err(e) && e == DecodeError::MissingField),
        member(fields@, "nbformat_minor"@) is None ==> notebook_of(Json::Object(fields)) is Err,
        member(fields@, "nbformat_minor"@) is None && object_error(Json::Object(fields), notebook_members()) is None
            ==> (notebook_of(Json::Object(fields)) matches Err(e) && e == DecodeError::MissingField),
        member(fields@, "cells"@) is None ==> notebook_of(Json::Object(fields)) is Err,
        member(fields@, "cells"@) is None && object_error(Json::Object(fields), notebook_members()) is None
            ==> (notebook_of(Json::Object(fields)) matches Err(e) && e == DecodeError::MissingField),
{
    if object_error(Json::Object(fields), notebook_members()) is None {
        reveal_strlit("metadata");
        assert("metadata"@.len() == 8);
        reveal_strlit("nbformat");
        assert("nbformat"@.len() == 8);
        assert("metadata"@[0] != "nbformat"@[0]);
        reveal_strlit("nbformat_minor");
        assert("nbformat_minor"@.len() == 14);
        reveal_strlit("cells");
        assert("cells"@.len() == 5);
        if member(fields@, "metadata"@) is Some {
            lemma_member_decodes(fields@, notebook_members(), "metadata"@);
        }
        if member(fields@, "nbformat"@) is Some {
            lemma_member_decodes(fields@, notebook_members(), "nbformat"@);
        }
        if member(fields@, "nbformat_minor"@) is Some {
            lemma_member_decodes(fields@, notebook_members(), "nbformat_minor"@);
        }
        if member(fields@, "cells"@) is Some {
            lemma_member_decodes(fields@, notebook_members(), "cells"@);
        }
    }
    if let Ok(n) = notebook_of(Json::Object(fields)) {
        let cells = member(fields@, "cells"@)->0;
        law_cells_are_nulls(cells);
        law_list_of_items(cells->Array_0@, crate::decode::cell_decoder());
    }
}

/// Language info read from an object is the same with one more member
/// whose key is none of `name`, `codemirror_mode`, `mimetype`, `file_extension`, `pygments_lexer`.
pub proof fn law_language_info_ignores_other_members(
    fields: Vec<(String, Json)>,
    more: Vec<(String, Json)>,
    extra: (String, Json),
)
    requires
        more@ == fields@.push(extra),
        extra.0@ != "name"@,
        extra.0@ != "codemirror_mode"@,
        extra.0@ != "mimetype"@,
        extra.0@ != "file_extension"@,
        extra.0@ != "pygments_lexer"@,
    ensures
        language_info_of(Json::Object(more)) == language_info_of(Json::Object(fields)),
{
    law_member_push(fields@, extra, "name"@);
    law_member_push(fields@, extra, "codemirror_mode"@);
    law_member_push(fields@, extra, "mimetype"@);
    law_member_push(fields@, extra, "file_extension"@);
    law_member_push(fields@, extra, "pygments_lexer"@);
    lemma_member_error_push(fields@, extra, language_info_members());
}

/// An author read from an object is the same with one more member
/// whose key is none of `name`.
pub proof fn law_author_ignores_other_members(
    fields: Vec<(String, Json)>,
    more: Vec<(String, Json)>,
    extra: (String, Json),
)
    requires
        more@ == fields@.push(extra),
        extra.0@ != "name"@,
    ensures
        author_of(Json::Object(more)) == author_of(Json::Object(fields)),
{
    law_member_push(fields@, extra, "name"@);
    lemma_member_error_push(fields@, extra, author_members());
}

/// Notebook metadata read from an object is the same with one more member
/// whose key is none of `kernelspec`, `language_info`, `original_notebook_format`, `title`, `authors`.
pub proof fn law_notebook_metadata_ignores_other_members(
    fields: Vec<(String, Json)>,
    more: Vec<(String, Json)>,
    extra: (String, Json),
)
    requires
        more@ == fields@.push(extra),
        extra.0@ != "kernelspec"@,
        extra.0@ != "language_info"@,
        extra.0@ != "original_notebook_format"@,
        extra.0@ != "title"@,
        extra.0@ != "authors"@,
    ensures
        notebook_metadata_of(Json::Object(more)) == notebook_metadata_of(Json::Object(fields)),
{
    law_member_push(fields@, extra, "kernelspec"@);
    law_member_push(fields@, extra, "language_info"@);
    law_member_push(fields@, extra, "original_notebook_format"@);
    law_member_push(fields@, extra, "title"@);
    law_member_push(fields@, extra, "authors"@);
    lemma_member_error_push(fields@, extra, notebook_metadata_members());
}

/// The `jupyter` part of raw cell metadata read from an object is the same with one more member
/// whose key is none of `source_hidden`.
pub proof fn law_jupyter_ignores_other_members(
    fields: Vec<(String, Json)>,
    more: Vec<(String, Json)>,
    extra: (String, Json),
)
    requires
        more@ == fields@.push(extra),
        extra.0@ != "source_hidden"@,
    ensures
        jupyter_of(Json::Object(more)) == jupyter_of(Json::Object(fields)),
{
    law_member_push(fields@, extra, "source_hidden"@);
    lemma_member_error_push(fields@, extra, jupyter_members());
}

/// A raw cell read from an object is the same with one more member
/// whose key is none of `id`, `cell_type`, `source`, `metadata`.
pub proof fn law_raw_cell_ignores_other_members(
    fields: Vec<(String, Json)>,
    more: Vec<(String, Json)>,
    extra: (String, Json),
)
    requires
        more@ == fields@.push(extra),
        extra.0@ != "id"@,
        extra.0@ != "cell_type"@,
        extra.0@ != "source"@,
        extra.0@ != "metadata"@,
    ensures
        raw_cell_of(Json::Object(more)) == raw_cell_of(Json::Object(fields)),
{
    law_member_push(fields@, extra, "id"@);
    law_member_push(fields@, extra, "cell_type"@);
    law_member_push(fields@, extra, "source"@);
    law_member_push(fields@, extra, "metadata"@);
    lemma_member_error_push(fields@, extra, raw_cell_members());
}

/// A markdown cell read from an object is the same with one more member
/// whose key is none of `id`, `cell_type`, `source`.
pub proof fn law_markdown_cell_ignores_other_members(
    fields: Vec<(String, Json)>,
    more: Vec<(String, Json)>,
    extra: (String, Json),
)
    requires
        more@ == fields@.push(extra),
        extra.0@ != "id"@,
        extra.0@ != "cell_type"@,
        extra.0@ != "source"@,
    ensures
        markdown_cell_of(Json::Object(more)) == markdown_cell_of(Json::Object(fields)),
{
    law_member_push(fields@, extra, "id"@);
    law_member_push(fields@, extra, "cell_type"@);
    law_member_push(fields@, extra, "source"@);
    lemma_member_error_push(fields@, extra, markdown_cell_members());
}

/// A code cell read from an object is the same with one more member
/// whose key is none of `id`, `cell_type`, `source`, `outputs`, `execution_count`.
pub proof fn law_code_cell_ignores_other_members(
    fields: Vec<(String, Json)>,
    more: Vec<(String, Json)>,
    extra: (String, Json),
)
    requires
        more@ == fields@.push(extra),
        extra.0@ != "id"@,
        extra.0@ != "cell_type"@,
        extra.0@ != "source"@,
        extra.0@ != "outputs"@,
        extra.0@ != "execution_count"@,
    ensures
        code_cell_of(Json::Object(more)) == code_cell_of(Json::Object(fields)),
{
    law_member_push(fields@, extra, "id"@);
    law_member_push(fields@, extra, "cell_type"@);
    law_member_push(fields@, extra, "source"@);
    law_member_push(fields@, extra, "outputs"@);
    law_member_push(fields@, extra, "execution_count"@);
    lemma_member_error_push(fields@, extra, code_cell_members());
}

/// An object in which a key of one of the fields (`name`, `codemirror_mode`, `mimetype`, `file_extension`, `pygments_lexer`)
/// stands twice is refused.
pub proof fn law_language_info_refuses_repeated_field(fields: Vec<(String, Json)>, a: int, b: int)
    requires
        0 <= a < b < fields@.len(),
        fields@[a].0@ == fields@[b].0@,
        ({ let k = fields@[b].0@; k == "name"@ || k == "codemirror_mode"@ || k == "mimetype"@ || k == "file_extension"@ || k == "pygments_lexer"@ }),
    ensures
        language_info_of(Json::Object(fields)) is Err,
{
    if language_info_of(Json::Object(fields)) is Ok {
        lemma_member_error_none(fields@, language_info_members(), 0, b);
        lemma_key_before(fields@, a, b, fields@[b].0@);
    }
}

/// An object in which a key of one of the fields (`name`)
/// stands twice is refused.
pub proof fn law_author_refuses_repeated_field(fields: Vec<(String, Json)>, a: int, b: int)
    requires
        0 <= a < b < fields@.len(),
        fields@[a].0@ == fields@[b].0@,
        ({ let k = fields@[b].0@; k == "name"@ }),
    ensures
        author_of(Json::Object(fields)) is Err,
{
    if author_of(Json::Object(fields)) is Ok {
        lemma_member_error_none(fields@, author_members(), 0, b);
        lemma_key_before(fields@, a, b, fields@[b].0@);
    }
}

/// An object in which a key of one of the fields (`kernelspec`, `language_info`, `original_notebook_format`, `title`, `authors`)
/// stands twice is refused.
pub proof fn law_notebook_metadata_refuses_repeated_field(fields: Vec<(String, Json)>, a: int, b: int)
    requires
        0 <= a < b < fields@.len(),
        fields@[a].0@ == fields@[b].0@,
        ({ let k = fields@[b].0@; k == "kernelspec"@ || k == "language_info"@ || k == "original_notebook_format"@ || k == "title"@ || k == "authors"@ }),
    ensures
        notebook_metadata_of(Json::Object(fields)) is Err,
{
    if notebook_metadata_of(Json::Object(fields)) is Ok {
        lemma_member_error_none(fields@, notebook_metadata_members(), 0, b);
        lemma_key_before(fields@, a, b, fields@[b].0@);
    }
}

/// An object in which a key of one of the fields (`source_hidden`)
/// stands twice is refused.
pub proof fn law_jupyter_refuses_repeated_field(fields: Vec<(String, Json)>, a: int, b: int)
    requires
        0 <= a < b < fields@.len(),
        fields@[a].0@ == fields@[b].0@,
        ({ let k = fields@[b].0@; k == "source_hidden"@ }),
    ensures
        jupyter_of(Json::Object(fields)) is Err,
{
    if jupyter_of(Json::Object(fields)) is Ok {
        lemma_member_error_none(fields@, jupyter_members(), 0, b);
        lemma_key_before(fields@, a, b, fields@[b].0@);
    }
}

/// An object in which a key of one of the fields (`id`, `cell_type`, `source`, `metadata`)
/// stands twice is refused.
pub proof fn law_raw_cell_refuses_repeated_field(fields: Vec<(String, Json)>, a: int, b: int)
    requires
        0 <= a < b < fields@.len(),
        fields@[a].0@ == fields@[b].0@,
        ({ let k = fields@[b].0@; k == "id"@ || k == "cell_type"@ || k == "source"@ || k == "metadata"@ }),
    ensures
        raw_cell_of(Json::Object(fields)) is Err,
{
    if raw_cell_of(Json::Object(fields)) is Ok {
        lemma_member_error_none(fields@, raw_cell_members(), 0, b);
        lemma_key_before(fields@, a, b, fields@[b].0@);
    }
}

/// An object in which a key of one of the fields (`id`, `cell_type`, `source`)
/// stands twice is refused.
pub proof fn law_markdown_cell_refuses_repeated_field(fields: Vec<(String, Json)>, a: int, b: int)
    requires
        0 <= a < b < fields@.len(),
        fields@[a].0@ == fields@[b].0@,
        ({ let k = fields@[b].0@; k == "id"@ || k == "cell_type"@ || k == "source"@ }),
    ensures
        markdown_cell_of(Json::Object(fields)) is Err,
{
    if markdown_cell_of(Json::Object(fields)) is Ok {
        lemma_member_error_none(fields@, markdown_cell_members(), 0, b);
        lemma_key_before(fields@, a, b, fields@[b].0@);
    }
}

/// An object in which a key of one of the fields (`id`, `cell_type`, `source`, `outputs`, `execution_count`)
/// stands twice is refused.
pub proof fn law_code_cell_refuses_repeated_field(fields: Vec<(String, Json)>, a: int, b: int)
    requires
        0 <= a < b < fields@.len(),
        fields@[a].0@ == fields@[b].0@,
        ({ let k = fields@[b].0@; k == "id"@ || k == "cell_type"@ || k == "source"@ || k == "outputs"@ || k == "execution_count"@ }),
    ensures
        code_cell_of(Json::Object(fields)) is Err,
{
    if code_cell_of(Json::Object(fields)) is Ok {
        lemma_member_error_none(fields@, code_cell_members(), 0, b);
        lemma_key_before(fields@, a, b, fields@[b].0@);
    }
}

/// An object in which a key of one of the fields (`name`, `display_name`)
/// stands twice is refused.
pub proof fn law_kernel_spec_refuses_repeated_field(fields: Vec<(String, Json)>, a: int, b: int)
    requires
        0 <= a < b < fields@.len(),
        fields@[a].0@ == fields@[b].0@,
        ({ let k = fields@[b].0@; k == "name"@ || k == "display_name"@ }),
    ensures
        kernel_spec_of(Json::Object(fields)) is Err,
{
    if kernel_spec_of(Json::Object(fields)) is Ok {
        lemma_member_error_none(fields@, kernel_spec_members(), 0, b);
        lemma_key_before(fields@, a, b, fields@[b].0@);
    }
}

/// An object in which a key of one of the fields (`format`, `jupyter`, `name`, `tags`)
/// stands twice is refused.
pub proof fn law_raw_cell_metadata_refuses_repeated_field(fields: Vec<(String, Json)>, a: int, b: int)
    requires
        0 <= a < b < fields@.len(),
        fields@[a].0@ == fields@[b].0@,
        ({ let k = fields@[b].0@; k == "format"@ || k == "jupyter"@ || k == "name"@ || k == "tags"@ }),
    ensures
        raw_cell_metadata_of(Json::Object(fields)) is Err,
{
    if raw_cell_metadata_of(Json::Object(fields)) is Ok {
        lemma_member_error_none(fields@, raw_cell_metadata_members(), 0, b);
        lemma_key_before(fields@, a, b, fields@[b].0@);
    }
}

/// An object in which a key of one of the fields (`metadata`, `nbformat`, `nbformat_minor`, `cells`)
/// stands twice is refused.
pub proof fn law_notebook_refuses_repeated_field(fields: Vec<(String, Json)>, a: int, b: int)
    requires
        0 <= a < b < fields@.len(),
        fields@[a].0@ == fields@[b].0@,
        ({ let k = fields@[b].0@; k == "metadata"@ || k == "nbformat"@ || k == "nbformat_minor"@ || k == "cells"@ }),
    ensures
        notebook_of(Json::Object(fields)) is Err,
{
    if notebook_of(Json::Object(fields)) is Ok {
        lemma_member_error_none(fields@, notebook_members(), 0, b);
        lemma_key_before(fields@, a, b, fields@[b].0@);
    }
}

/// A kernel spec read from an array takes field number `i` from item number
/// `i`, in the order in which the type declares its fields, and the array
/// has exactly 2 items; a shorter or longer array is refused.
pub proof fn law_kernel_spec_reads_items(items: Vec<Json>)
    ensures
        kernel_spec_of(Json::Array(items)) matches Ok(k) ==> {
            &&& text_member(item(items@, 0), k.name)
            &&& text_member(item(items@, 1), k.display_name)
        },
        kernel_spec_of(Json::Array(items)) is Ok ==> items@.len() == 2,
{
}

/// Language info read from an array takes field number `i` from item number
/// `i`, in the order in which the type declares its fields, and the array
/// has exactly 5 items; a shorter or longer array is refused.
pub proof fn law_language_info_reads_items(items: Vec<Json>)
    ensures
        language_info_of(Json::Array(items)) matches Ok(l) ==> {
            &&& text_member(item(items@, 0), l.name)
            &&& opt_text_member(item(items@, 1), l.codemirror_mode)
            &&& opt_text_member(item(items@, 2), l.mimetype)
            &&& opt_text_member(item(items@, 3), l.file_extension)
            &&& opt_text_member(item(items@, 4), l.pygments_lexer)
        },
        language_info_of(Json::Array(items)) is Ok ==> items@.len() == 5,
{
}

/// An author read from an array takes field number `i` from item number
/// `i`, in the order in which the type declares its fields, and the array
/// has exactly 1 items; a shorter or longer array is refused.
pub proof fn law_author_reads_items(items: Vec<Json>)
    ensures
        author_of(Json::Array(items)) matches Ok(a) ==> text_member(item(items@, 0), a.name),
        author_of(Json::Array(items)) is Ok ==> items@.len() == 1,
{
}

/// Notebook metadata read from an array takes field number `i` from item number
/// `i`, in the order in which the type declares its fields, and the array
/// has exactly 5 items; a shorter or longer array is refused.
pub proof fn law_notebook_metadata_reads_items(items: Vec<Json>)
    ensures
        notebook_metadata_of(Json::Array(items)) matches Ok(m) ==> {
            &&& opt_decoded_member(item(items@, 0), m.kernelspec, kernel_spec_decoder())
            &&& opt_decoded_member(item(items@, 1), m.language_info, language_info_decoder())
            &&& item(items@, 2) is Some
            &&& opt_u64_member(item(items@, 2), m.original_notebook_format)
            &&& (m.original_notebook_format matches Some(n) ==> n >= 1)
            &&& opt_text_member(item(items@, 3), m.title)
            &&& opt_decoded_member(item(items@, 4), m.authors, authors_decoder())
        },
        notebook_metadata_of(Json::Array(items)) is Ok ==> items@.len() == 5,
{
}

/// The `jupyter` part of raw cell metadata read from an array takes field number `i` from item number
/// `i`, in the order in which the type declares its fields, and the array
/// has exactly 1 items; a shorter or longer array is refused.
pub proof fn law_jupyter_reads_items(items: Vec<Json>)
    ensures
        jupyter_of(Json::Array(items)) matches Ok(x) ==> opt_bool_member(
            item(items@, 0),
            x.source_hidden,
        ),
        jupyter_of(Json::Array(items)) is Ok ==> items@.len() == 1,
{
}

/// Raw cell metadata read from an array takes field number `i` from item number
/// `i`, in the order in which the type declares its fields, and the array
/// has 2 to 4 items; a shorter or longer array is refused.
pub proof fn law_raw_cell_metadata_reads_items(items: Vec<Json>)
    ensures
        raw_cell_metadata_of(Json::Array(items)) matches Ok(m) ==> {
            &&& opt_text_member(item(items@, 0), m.format)
            &&& opt_decoded_member(item(items@, 1), m.jupyter, jupyter_decoder())
            &&& opt_text_member(item(items@, 2), m.name)
            &&& opt_texts_member(item(items@, 3), m.tags)
        },
        raw_cell_metadata_of(Json::Array(items)) is Ok ==> 2 <= items@.len() <= 4,
{
    if let Ok(m) = raw_cell_metadata_of(Json::Array(items)) {
        if items@.len() > 3 {
            lemma_strings_read(items@[3]);
        }
    }
}

/// A raw cell read from an array takes field number `i` from item number
/// `i`, in the order in which the type declares its fields, and the array
/// has exactly 4 items; a shorter or longer array is refused.
pub proof fn law_raw_cell_reads_items(items: Vec<Json>)
    ensures
        raw_cell_of(Json::Array(items)) matches Ok(c) ==> {
            &&& text_member(item(items@, 0), c.id)
            &&& text_member(item(items@, 1), c.cell_type) && c.cell_type == "raw"@
            &&& text_member(item(items@, 2), c.source)
            &&& item(items@, 3) matches Some(v) && raw_cell_metadata_of(v) == Ok::<
                RawCellMetadataView,
                DecodeError,
            >(c.metadata)
        },
        raw_cell_of(Json::Array(items)) is Ok ==> items@.len() == 4,
{
}

/// A markdown cell read from an array takes field number `i` from item number
/// `i`, in the order in which the type declares its fields, and the array
/// has exactly 3 items; a shorter or longer array is refused.
pub proof fn law_markdown_cell_reads_items(items: Vec<Json>)
    ensures
        markdown_cell_of(Json::Array(items)) matches Ok(c) ==> {
            &&& text_member(item(items@, 0), c.id)
            &&& text_member(item(items@, 1), c.cell_type) && c.cell_type == "markdown"@
            &&& text_member(item(items@, 2), c.source)
        },
        markdown_cell_of(Json::Array(items)) is Ok ==> items@.len() == 3,
{
}

/// A code cell read from an array takes field number `i` from item number
/// `i`, in the order in which the type declares its fields, and the array
/// has exactly 5 items; a shorter or longer array is refused.
pub proof fn law_code_cell_reads_items(items: Vec<Json>)
    ensures
        code_cell_of(Json::Array(items)) matches Ok(c) ==> {
            &&& text_member(item(items@, 0), c.id)
            &&& text_member(item(items@, 1), c.cell_type) && c.cell_type == "code"@
            &&& text_member(item(items@, 2), c.source)
            &&& item(items@, 3) matches Some(Json::Array(items)) && items@ == c.outputs
            &&& opt_u64_member(item(items@, 4), c.execution_count)
        },
        code_cell_of(Json::Array(items)) is Ok ==> items@.len() == 5,
{
}

/// A notebook read from an array takes field number `i` from item number
/// `i`, in the order in which the type declares its fields, and the array
/// has exactly 4 items; a shorter or longer array is refused.
pub proof fn law_notebook_reads_items(items: Vec<Json>)
    ensures
        notebook_of(Json::Array(items)) matches Ok(n) ==> {
            &&& item(items@, 0) matches Some(v) && notebook_metadata_of(v) == Ok::<
                NotebookMetadataView,
                DecodeError,
            >(n.metadata)
            &&& item(items@, 1) matches Some(v) && u64_form(v, n.nbformat)
            &&& n.nbformat == 4
            &&& item(items@, 2) matches Some(v) && u64_form(v, n.nbformat_minor)
            &&& n.nbformat_minor >= 5
            &&& item(items@, 3) matches Some(Json::Array(items)) && items@.len() == n.cells.len()
                && forall|i: int| 0 <= i < items@.len() ==> #[trigger] items@[i] is Null
        },
        notebook_of(Json::Array(items)) is Ok ==> items@.len() == 4,
{
    if let Ok(n) = notebook_of(Json::Array(items)) {
        law_cells_are_nulls(items@[3]);
        law_list_of_items(items@[3]->Array_0@, crate::decode::cell_decoder());
    }
}

} // verus!
