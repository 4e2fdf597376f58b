//! Properties of the rules and decoders that hold for all inputs.
use vstd::prelude::*;
use vstd::utf8::{encode_scalar, encode_utf8, is_ascii_chars, is_ascii_chars_encode_utf8};
use crate::json::{lemma_member_error_push, member, DecodeError, Json};
use crate::pattern::{id_char, id_text, tag_text};
use crate::rules::{
    cell_id_rule, cell_name_rule, cell_tags_rule, nbformat_minor_rule, nbformat_rule,
    orig_nbformat_rule, SchemaError, MAX_CELL_ID_BYTES,
};
use crate::decode::{
    cell_decoder, cell_id_of, cell_name_of, cell_tags_of, cells_of, code_cell_of, kernel_spec_of,
    list_of, markdown_cell_of, notebook_of, raw_cell_metadata_of, raw_cell_of, strings_of,
};
use crate::model::Cell;

verus! {

/// A list decoder succeeds exactly when it succeeds on every item, and then
/// it gives, position by position, what it gives for each item.
pub proof fn law_list_of_items<T>(items: Seq<Json>, d: spec_fn(Json) -> Result<T, DecodeError>)
    ensures
        (list_of(items, d) is Ok) <==> (forall|i: int| 0 <= i < items.len() ==> #[trigger] d(items[i]) is Ok),
        list_of(items, d) matches Ok(xs) ==> {
            &&& xs.len() == items.len()
            &&& forall|i: int| 0 <= i < items.len() ==> #[trigger] d(items[i]) == Ok::<T, DecodeError>(xs[i])
        },
    decreases items.len(),
{
    if items.len() > 0 {
        let init = items.drop_last();
        law_list_of_items(init, d);
        assert forall|i: int| 0 <= i < init.len() implies init[i] == items[i] by {}
        if list_of(items, d) is Ok {
            assert forall|i: int| 0 <= i < items.len() implies #[trigger] d(items[i]) is Ok by {
                if i < init.len() {
                    assert(d(init[i]) is Ok);
                }
            }
        }
        if forall|i: int| 0 <= i < items.len() ==> #[trigger] d(items[i]) is Ok {
            assert forall|i: int| 0 <= i < init.len() implies #[trigger] d(init[i]) is Ok by {
                assert(d(items[i]) is Ok);
            }
            assert(d(items[items.len() - 1]) is Ok);
        }
    }
}

/// The entries of a notebook's `cells` decode exactly when they are all
/// `null`, and each then reads as a raw cell.
pub proof fn law_cells_are_nulls(v: Json)
    ensures
        (cells_of(v) is Ok) <==> (v matches Json::Array(items) && forall|i: int|
            0 <= i < items@.len() ==> #[trigger] items@[i] is Null),
        cells_of(v) matches Ok(cs) ==> forall|i: int| 0 <= i < cs.len() ==> #[trigger] cs[i] == Cell::RawCell,
{
    if let Json::Array(items) = v {
        let d = cell_decoder();
        law_list_of_items(items@, d);
        if cells_of(v) is Ok {
            assert forall|i: int| 0 <= i < items@.len() implies #[trigger] items@[i] is Null by {
                assert(d(items@[i]) is Ok);
            }
        } else {
            if forall|i: int| 0 <= i < items@.len() ==> #[trigger] items@[i] is Null {
                assert forall|i: int| 0 <= i < items@.len() implies #[trigger] d(items@[i]) is Ok by {
                    assert(items@[i] is Null);
                }
            }
        }
        if let Ok(cs) = cells_of(v) {
            assert forall|i: int| 0 <= i < cs.len() implies #[trigger] cs[i] == Cell::RawCell by {
                assert(d(items@[i]) == Ok::<Cell, DecodeError>(cs[i]));
            }
        }
    }
}

/// A tag list is accepted exactly when every tag is non-empty and holds no
/// comma; otherwise the rule broken is the tag pattern.
pub proof fn law_tags_accepted(tags: Seq<Seq<char>>)
    ensures
        (cell_tags_rule(Some(tags)) is None) <==> (forall|i: int| 0 <= i < tags.len() ==> {
            &&& #[trigger] tags[i].len() > 0
            &&& forall|k: int| 0 <= k < tags[i].len() ==> tags[i][k] != ','
        }),
        cell_tags_rule(Some(tags)) is Some ==> cell_tags_rule(Some(tags)) == Some(SchemaError::CellTagPattern),
        cell_tags_rule(None) is None,
{
    if forall|i: int| 0 <= i < tags.len() ==> #[trigger] tag_text(tags[i]) {
        assert forall|i: int| 0 <= i < tags.len() implies {
            &&& #[trigger] tags[i].len() > 0
            &&& forall|k: int| 0 <= k < tags[i].len() ==> tags[i][k] != ','
        } by {
            assert(tag_text(tags[i]));
        }
    } else {
        let i = choose|i: int| 0 <= i < tags.len() && !#[trigger] tag_text(tags[i]);
        assert(!(tags[i].len() > 0 && forall|k: int| 0 <= k < tags[i].len() ==> tags[i][k] != ','));

    }
}

/// A cell name is accepted exactly when it is absent, empty, or holds no
/// line feed; otherwise the rule broken is the name pattern.
pub proof fn law_cell_name_accepted(name: Option<Seq<char>>)
    ensures
        (cell_name_rule(name) is None) <==> (match name {
            Some(n) => forall|k: int| 0 <= k < n.len() ==> n[k] != '\n',
            None => true,
        }),
        cell_name_rule(name) is Some ==> cell_name_rule(name) == Some(SchemaError::CellNamePattern),
{
}

/// A string has at least as many bytes in UTF-8 as it has characters.
proof fn lemma_utf8_len_at_least_chars(chars: Seq<char>)
    ensures
        encode_utf8(chars).len() >= chars.len(),
    decreases chars.len(),
{
    if chars.len() > 0 {
        lemma_utf8_len_at_least_chars(chars.drop_first());
        assert(encode_scalar(chars[0] as u32).len() >= 1);
    }
}

/// A cell id is accepted exactly when it has 1 to 64 characters, each an
/// ASCII letter or digit, `-` or `_`. A rejected id breaks, in this order,
/// the rule against the empty id, the 64-byte limit, or the pattern.
pub proof fn law_cell_id_accepted(id: Seq<char>)
    ensures
        (cell_id_rule(id) is None) <==> (1 <= id.len() <= 64 && forall|i: int|
            0 <= i < id.len() ==> #[trigger] id_char(id[i])),
        (cell_id_rule(id) == Some(SchemaError::EmptyCellId)) <==> id.len() == 0,
        (cell_id_rule(id) == Some(SchemaError::CellIdTooLong)) <==> (id.len() > 0
            && encode_utf8(id).len() > MAX_CELL_ID_BYTES),
        (cell_id_rule(id) == Some(SchemaError::CellIdPattern)) <==> (id.len() > 0
            && encode_utf8(id).len() <= MAX_CELL_ID_BYTES && !id_text(id)),
{
    lemma_utf8_len_at_least_chars(id);
    if forall|i: int| 0 <= i < id.len() ==> #[trigger] id_char(id[i]) {
        assert(is_ascii_chars(id)) by {
            assert forall|i: int| 0 <= i < id.len() implies '\0' <= #[trigger] id[i] <= '\u{7f}' by {
                assert(id_char(id[i]));
            }
        }
        is_ascii_chars_encode_utf8(id);
    }
}

/// Reading a cell id from a JSON string gives the string back exactly when
/// it has 1 to 64 characters, each an ASCII letter or digit, `-` or `_`;
/// otherwise the error is the first rule broken, in the order of
/// `law_cell_id_accepted`.
pub proof fn law_cell_id_decoding(v: Json)
    requires
        v is Str,
    ensures
        (cell_id_of(v) is Ok) <==> (1 <= v->Str_0@.len() <= 64 && forall|i: int|
            0 <= i < v->Str_0@.len() ==> #[trigger] id_char(v->Str_0@[i])),
        cell_id_of(v) is Ok ==> cell_id_of(v) == Ok::<Seq<char>, DecodeError>(v->Str_0@),
        cell_id_of(v) is Err ==> cell_id_of(v) == Err::<Seq<char>, DecodeError>(
            DecodeError::Schema(cell_id_rule(v->Str_0@)->0),
        ),
{
    law_cell_id_accepted(v->Str_0@);
}

/// Reading a cell name gives `None` for `null`; a string comes back as it
/// is exactly when it is empty or holds no line feed, and otherwise breaks
/// the name pattern; any other JSON value is of the wrong type.
pub proof fn law_cell_name_decoding(v: Json)
    ensures
        v is Null ==> cell_name_of(v) == Ok::<Option<Seq<char>>, DecodeError>(None),
        v is Str ==> cell_name_of(v) == (if forall|k: int| 0 <= k < v->Str_0@.len() ==> v->Str_0@[k] != '\n' {
            Ok::<Option<Seq<char>>, DecodeError>(Some(v->Str_0@))
        } else {
            Err(DecodeError::Schema(SchemaError::CellNamePattern))
        }),
        !(v is Null || v is Str) ==> cell_name_of(v) == Err::<Option<Seq<char>>, DecodeError>(DecodeError::WrongType),
{
    if let Json::Str(s) = v {
        law_cell_name_accepted(Some(s@));
    }
}

/// Reading cell tags gives `None` for `null`; an array of strings comes
/// back as it is, the same tags in the same order, exactly when no tag is
/// empty or holds a comma, and otherwise breaks the tag pattern.
pub proof fn law_cell_tags_decoding(v: Json)
    ensures
        v is Null ==> cell_tags_of(v) == Ok::<Option<Seq<Seq<char>>>, DecodeError>(None),
        strings_of(v) matches Ok(tags) ==> cell_tags_of(v) == (if forall|i: int| 0 <= i < tags.len() ==> {
            &&& #[trigger] tags[i].len() > 0
            &&& forall|k: int| 0 <= k < tags[i].len() ==> tags[i][k] != ','
        } {
            Ok::<Option<Seq<Seq<char>>>, DecodeError>(Some(tags))
        } else {
            Err(DecodeError::Schema(SchemaError::CellTagPattern))
        }),
        !(v is Null) && strings_of(v) is Err ==> cell_tags_of(v) == Err::<Option<Seq<Seq<char>>>, DecodeError>(
            strings_of(v)->Err_0,
        ),
{
    if let Ok(tags) = strings_of(v) {
        law_tags_accepted(tags);
    }
}

/// Appending a member to an object leaves the lookup of every other key
/// as it was.
pub proof fn law_member_push(fields: Seq<(String, Json)>, extra: (String, Json), key: Seq<char>)
    requires
        extra.0@ != key,
    ensures
        member(fields.push(extra), key) == member(fields, key),
    decreases fields.len(),
{
    if fields.len() > 0 {
        law_member_push(fields.drop_first(), extra, key);
        assert(fields.push(extra).drop_first() =~= fields.drop_first().push(extra));
    } else {
        assert(fields.push(extra).drop_first() =~= fields);
    }
}

/// A notebook object decodes the same with one more member whose key is
/// none of `metadata`, `nbformat`, `nbformat_minor` and `cells`.
pub proof fn law_notebook_ignores_other_members(
    fields: Vec<(String, Json)>,
    more: Vec<(String, Json)>,
    extra: (String, Json),
)
    requires
        more@ == fields@.push(extra),
        extra.0@ != "metadata"@,
        extra.0@ != "nbformat"@,
        extra.0@ != "nbformat_minor"@,
        extra.0@ != "cells"@,
    ensures
        notebook_of(Json::Object(more)) == notebook_of(Json::Object(fields)),
{
    law_member_push(fields@, extra, "metadata"@);
    law_member_push(fields@, extra, "nbformat"@);
    law_member_push(fields@, extra, "nbformat_minor"@);
    law_member_push(fields@, extra, "cells"@);
    lemma_member_error_push(fields@, extra, crate::decode::notebook_members());
}

/// A kernel spec object decodes the same with one more member whose key is
/// neither `name` nor `display_name`.
pub proof fn law_kernel_spec_ignores_other_members(
    fields: Vec<(String, Json)>,
    more: Vec<(String, Json)>,
    extra: (String, Json),
)
    requires
        more@ == fields@.push(extra),
        extra.0@ != "name"@,
        extra.0@ != "display_name"@,
    ensures
        kernel_spec_of(Json::Object(more)) == kernel_spec_of(Json::Object(fields)),
{
    law_member_push(fields@, extra, "name"@);
    law_member_push(fields@, extra, "display_name"@);
    lemma_member_error_push(fields@, extra, crate::decode::kernel_spec_members());
}

/// Raw cell metadata decodes the same with one more member whose key is
/// none of `format`, `jupyter`, `name` and `tags`.
pub proof fn law_raw_cell_metadata_ignores_other_members(
    fields: Vec<(String, Json)>,
    more: Vec<(String, Json)>,
    extra: (String, Json),
)
    requires
        more@ == fields@.push(extra),
        extra.0@ != "format"@,
        extra.0@ != "jupyter"@,
        extra.0@ != "name"@,
        extra.0@ != "tags"@,
    ensures
        raw_cell_metadata_of(Json::Object(more)) == raw_cell_metadata_of(Json::Object(fields)),
{
    law_member_push(fields@, extra, "format"@);
    law_member_push(fields@, extra, "jupyter"@);
    law_member_push(fields@, extra, "name"@);
    law_member_push(fields@, extra, "tags"@);
    lemma_member_error_push(fields@, extra, crate::decode::raw_cell_metadata_members());
}

/// Every notebook that decodes keeps the schema's rules: `nbformat` is 4,
/// `nbformat_minor` is at least 5, `original_notebook_format` is absent or
/// at least 1, and every cell entry is a raw cell.
pub proof fn law_decoded_notebook_keeps_rules(j: Json)
    ensures
        notebook_of(j) matches Ok(n) ==> {
            &&& nbformat_rule(n.nbformat) is None
            &&& nbformat_minor_rule(n.nbformat_minor) is None
            &&& orig_nbformat_rule(n.metadata.original_notebook_format) is None
            &&& n.nbformat == 4 && n.nbformat_minor >= 5
            &&& forall|i: int| 0 <= i < n.cells.len() ==> #[trigger] n.cells[i] == Cell::RawCell
        },
{
    if let Ok(n) = notebook_of(j) {
        let cells = crate::json::entry(j, 3, "cells"@).unwrap();
        law_cells_are_nulls(cells);
    }
}

/// Every raw cell that decodes keeps the rules on its id, its `cell_type`,
/// its name and its tags.
pub proof fn law_decoded_raw_cell_keeps_rules(j: Json)
    ensures
        raw_cell_of(j) matches Ok(c) ==> {
            &&& cell_id_rule(c.id) is None
            &&& c.cell_type == "raw"@
            &&& cell_name_rule(c.metadata.name) is None
            &&& cell_tags_rule(c.metadata.tags) is None
        },
{
}

/// Every markdown cell that decodes keeps the rules on its id and its
/// `cell_type`.
pub proof fn law_decoded_markdown_cell_keeps_rules(j: Json)
    ensures
        markdown_cell_of(j) matches Ok(c) ==> cell_id_rule(c.id) is None && c.cell_type == "markdown"@,
{
}

/// Every code cell that decodes keeps the rules on its id and its
/// `cell_type`.
pub proof fn law_decoded_code_cell_keeps_rules(j: Json)
    ensures
        code_cell_of(j) matches Ok(c) ==> cell_id_rule(c.id) is None && c.cell_type == "code"@,
{
}

} // verus!
