use rururucore::{
    find_field, parse_json, Cell, CodeCell, DecodeError, Json, KernelSpec, LanguageInfo,
    MarkdownCell, Notebook, NotebookMetadata, RawCell, RawCellJupyterMetadata, RawCellMetadata,
    SchemaError,
};

const METADATA: &str = r#"{"original_notebook_format": null}"#;

#[test]
fn parse_json_builds_the_document() {
    let j = parse_json(r#"{"a": [1, true, null, "x"], "b": -2.5}"#).unwrap();
    match find_field(&j, "a") {
        Some(Json::Array(items)) => {
            assert_eq!(items.len(), 4);
            match &items[0] {
                Json::Number(n) => {
                    assert_eq!(n.unsigned, Some(1));
                    assert_eq!(n.text, "1");
                }
                other => panic!("unexpected {:?}", other),
            }
            assert!(matches!(items[1], Json::Bool(true)));
            assert!(matches!(items[2], Json::Null));
            assert!(matches!(&items[3], Json::Str(x) if x == "x"));
        }
        other => panic!("unexpected {:?}", other),
    }
    match find_field(&j, "b") {
        Some(Json::Number(n)) => assert_eq!(n.unsigned, None),
        other => panic!("unexpected {:?}", other),
    }
    assert!(find_field(&j, "c").is_none());
    assert_eq!(parse_json("{").err(), Some(DecodeError::Syntax));
    assert_eq!(parse_json("[1,]").err(), Some(DecodeError::Syntax));
}

#[test]
fn kernel_spec_members() {
    let k = KernelSpec::from_json_str(r#"{"display_name": "D", "name": "N", "extra": 1}"#).unwrap();
    assert_eq!(k.name, "N");
    assert_eq!(k.display_name, "D");
    assert_eq!(KernelSpec::from_json_str(r#"{"name": 1, "display_name": "D"}"#).err(), Some(DecodeError::WrongType));
    assert_eq!(KernelSpec::from_json_str(r#"{"display_name": "D"}"#).err(), Some(DecodeError::MissingField));
    assert_eq!(KernelSpec::from_json_str(r#""python3""#).err(), Some(DecodeError::WrongType));
    assert_eq!(KernelSpec::from_json_str("").err(), Some(DecodeError::Syntax));
}

#[test]
fn language_info_optional_members() {
    let l = LanguageInfo::from_json_str(r#"{"name": "python", "mimetype": null}"#).unwrap();
    assert_eq!(l.name, "python");
    assert!(l.codemirror_mode.is_none());
    assert!(l.mimetype.is_none());
    assert_eq!(
        LanguageInfo::from_json_str(r#"{"name": "python", "file_extension": 3}"#).err(),
        Some(DecodeError::WrongType)
    );
}

#[test]
fn metadata_original_format_required() {
    let m = NotebookMetadata::from_json_str(METADATA).unwrap();
    assert!(m.kernelspec.is_none());
    assert!(m.original_notebook_format.is_none());
    assert!(m.authors.is_none());
    assert_eq!(NotebookMetadata::from_json_str("{}").err(), Some(DecodeError::MissingField));
    assert_eq!(
        NotebookMetadata::from_json_str(r#"{"original_notebook_format": 0}"#).err(),
        Some(DecodeError::Schema(SchemaError::OriginalFormatBelowOne))
    );
    assert_eq!(
        NotebookMetadata::from_json_str(r#"{"original_notebook_format": 4, "authors": [{"name": "A"}, {}]}"#).err(),
        Some(DecodeError::MissingField)
    );
    assert_eq!(
        NotebookMetadata::from_json_str(r#"{"original_notebook_format": 4, "kernelspec": {"name": "k"}}"#).err(),
        Some(DecodeError::MissingField)
    );
}

#[test]
fn raw_cell_metadata_rules() {
    let m = RawCellMetadata::from_json_str("{}").unwrap();
    assert!(m.format.is_none() && m.jupyter.is_none() && m.name.is_none() && m.tags.is_none());
    let m = RawCellMetadata::from_json_str(r#"{"name": ""}"#).unwrap();
    assert_eq!(m.name.unwrap(), "");
    assert_eq!(
        RawCellMetadata::from_json_str(r#"{"tags": ["valid_tag", "invalid,tag"]}"#).err(),
        Some(DecodeError::Schema(SchemaError::CellTagPattern))
    );
    assert_eq!(
        RawCellMetadata::from_json_str(r#"{"name": "a\nb"}"#).err(),
        Some(DecodeError::Schema(SchemaError::CellNamePattern))
    );
    assert_eq!(
        RawCellMetadata::from_json_str(r#"{"jupyter": {"source_hidden": "yes"}}"#).err(),
        Some(DecodeError::WrongType)
    );
    let j = parse_json(r#"{"source_hidden": null}"#).unwrap();
    let jm: RawCellJupyterMetadata = RawCellJupyterMetadata::from_json(&j).unwrap();
    assert!(jm.source_hidden.is_none());
}

#[test]
fn raw_cell_decoding() {
    let j = parse_json(r#"{"id": "c1", "cell_type": "raw", "source": "text", "metadata": {}}"#).unwrap();
    let c = RawCell::from_json(&j).unwrap();
    assert_eq!(c.id, "c1");
    assert_eq!(c.cell_type, "raw");
    assert_eq!(c.source, "text");
    let j = parse_json(r#"{"id": "c1", "cell_type": "code", "source": "text", "metadata": {}}"#).unwrap();
    assert_eq!(RawCell::from_json(&j).err(), Some(DecodeError::Schema(SchemaError::NotRawCellType)));
    let j = parse_json(r#"{"id": "bad id", "cell_type": "raw", "source": "text", "metadata": {}}"#).unwrap();
    assert_eq!(RawCell::from_json(&j).err(), Some(DecodeError::Schema(SchemaError::CellIdPattern)));
    let j = parse_json(r#"{"cell_type": "raw", "source": "text", "metadata": {}}"#).unwrap();
    assert_eq!(RawCell::from_json(&j).err(), Some(DecodeError::MissingField));
}

#[test]
fn markdown_cell_decoding() {
    let j = parse_json(r#"{"id": "m-1", "cell_type": "markdown", "source": "Title"}"#).unwrap();
    let c = MarkdownCell::from_json(&j).unwrap();
    assert_eq!(c.source, "Title");
    let j = parse_json(r#"{"id": "", "cell_type": "markdown", "source": "Title"}"#).unwrap();
    assert_eq!(MarkdownCell::from_json(&j).err(), Some(DecodeError::Schema(SchemaError::EmptyCellId)));
}

#[test]
fn code_cell_decoding() {
    let j = parse_json(
        r#"{"id": "k_9", "cell_type": "code", "source": "1+1", "outputs": [{"x": 1}, 2.5], "execution_count": 3}"#,
    )
    .unwrap();
    let c = CodeCell::from_json(j).unwrap();
    assert_eq!(c.id, "k_9");
    assert_eq!(c.outputs.len(), 2);
    assert!(matches!(c.outputs[0], Json::Object(_)));
    assert_eq!(c.execution_count, Some(3));
    let j = parse_json(r#"{"id": "k_9", "cell_type": "code", "source": "1+1", "execution_count": null}"#).unwrap();
    assert_eq!(CodeCell::from_json(j).err(), Some(DecodeError::MissingField));
    let j = parse_json(r#"{"id": "k_9", "cell_type": "code", "source": "1+1", "outputs": {}}"#).unwrap();
    assert_eq!(CodeCell::from_json(j).err(), Some(DecodeError::WrongType));
}

#[test]
fn notebook_decoding() {
    let text = r#"{"metadata": {"original_notebook_format": 4}, "nbformat": 4, "nbformat_minor": 5, "cells": [null, null]}"#;
    let n = Notebook::from_json_str(text).unwrap();
    assert_eq!(n.nbformat, 4);
    assert_eq!(n.nbformat_minor, 5);
    assert_eq!(n.cells, vec![Cell::RawCell, Cell::RawCell]);
    assert_eq!(n.metadata.original_notebook_format, Some(4));
    let text = r#"{"metadata": {"original_notebook_format": 4}, "nbformat": 3, "nbformat_minor": 5, "cells": []}"#;
    assert_eq!(Notebook::from_json_str(text).err(), Some(DecodeError::Schema(SchemaError::NbformatNotFour)));
    let text = r#"{"metadata": {"original_notebook_format": 4}, "nbformat": 4, "nbformat_minor": 4, "cells": []}"#;
    assert_eq!(Notebook::from_json_str(text).err(), Some(DecodeError::Schema(SchemaError::NbformatMinorBelowFive)));
    let text = r#"{"metadata": {"original_notebook_format": 4}, "nbformat": 4, "nbformat_minor": 5, "cells": [{"cell_type": "raw"}]}"#;
    assert_eq!(Notebook::from_json_str(text).err(), Some(DecodeError::WrongType));
    let text = r#"{"metadata": {"original_notebook_format": 4}, "nbformat": 4, "nbformat_minor": 5}"#;
    assert_eq!(Notebook::from_json_str(text).err(), Some(DecodeError::MissingField));
    assert_eq!(Cell::from_json(&Json::Null), Ok(Cell::RawCell));
}

#[test]
fn structs_written_as_arrays() {
    let k = KernelSpec::from_json_str(r#"["python3", "Python 3"]"#).unwrap();
    assert_eq!(k.name, "python3");
    assert_eq!(k.display_name, "Python 3");
    assert_eq!(KernelSpec::from_json_str(r#"["python3"]"#).err(), Some(DecodeError::InvalidLength));
    assert_eq!(KernelSpec::from_json_str(r#"[1]"#).err(), Some(DecodeError::WrongType));
    assert_eq!(KernelSpec::from_json_str(r#"["a", "b", "c"]"#).err(), Some(DecodeError::TooManyItems));
    // an Option field without a default must be there as an item
    assert_eq!(LanguageInfo::from_json_str(r#"["python"]"#).err(), Some(DecodeError::InvalidLength));
    let l = LanguageInfo::from_json_str(r#"["python", null, "text/x-python", null, null]"#).unwrap();
    assert_eq!(l.mimetype.unwrap(), "text/x-python");
    // name and tags have defaults: they may be left out at the end
    let m = RawCellMetadata::from_json_str(r#"["text/plain", null]"#).unwrap();
    assert_eq!(m.format.unwrap(), "text/plain");
    assert!(m.name.is_none() && m.tags.is_none());
    assert_eq!(
        RawCellMetadata::from_json_str(r#"[null, null, "n", ["x,y"]]"#).err(),
        Some(DecodeError::Schema(SchemaError::CellTagPattern))
    );
    let n = Notebook::from_json_str(r#"[[null, null, 4, null, null], 4, 5, []]"#).unwrap();
    assert_eq!(n.metadata.original_notebook_format, Some(4));
    let j = parse_json(r#"["k", "code", "x", [1, 2], 7]"#).unwrap();
    let c = CodeCell::from_json(j).unwrap();
    assert_eq!(c.outputs.len(), 2);
    assert_eq!(c.execution_count, Some(7));
}

#[test]
fn members_read_in_text_order() {
    // the first failing member in the text decides, before a missing field
    assert_eq!(KernelSpec::from_json_str(r#"{"display_name": 5}"#).err(), Some(DecodeError::WrongType));
    assert_eq!(KernelSpec::from_json_str(r#"{"display_name": "D"}"#).err(), Some(DecodeError::MissingField));
    let nb = r#"{"nbformat": 3, "metadata": 7, "nbformat_minor": 5, "cells": []}"#;
    assert_eq!(
        Notebook::from_json_str(nb).err(),
        Some(DecodeError::Schema(SchemaError::NbformatNotFour))
    );
    let nb = r#"{"metadata": 7, "nbformat": 3, "nbformat_minor": 5, "cells": []}"#;
    assert_eq!(Notebook::from_json_str(nb).err(), Some(DecodeError::WrongType));
    let cell = r#"{"source": 1, "cell_type": "code", "id": "a"}"#;
    assert_eq!(MarkdownCell::from_json(&parse_json(cell).unwrap()).err(), Some(DecodeError::WrongType));
    let cell = r#"{"cell_type": "code", "source": 1, "id": "a"}"#;
    assert_eq!(
        MarkdownCell::from_json(&parse_json(cell).unwrap()).err(),
        Some(DecodeError::Schema(SchemaError::NotMarkdownCellType))
    );
    let meta = r#"{"tags": ["a,b"], "name": "x\ny"}"#;
    assert_eq!(
        RawCellMetadata::from_json_str(meta).err(),
        Some(DecodeError::Schema(SchemaError::CellTagPattern))
    );
    let meta = r#"{"name": "x\ny", "tags": ["a,b"]}"#;
    assert_eq!(
        RawCellMetadata::from_json_str(meta).err(),
        Some(DecodeError::Schema(SchemaError::CellNamePattern))
    );
}

#[test]
fn repeated_field_key() {
    let text = |s: &str| Json::Str(s.to_string());
    let obj = Json::Object(vec![
        ("name".to_string(), text("a")),
        ("name".to_string(), text("b")),
        ("display_name".to_string(), text("c")),
    ]);
    assert_eq!(KernelSpec::from_json(&obj).err(), Some(DecodeError::DuplicateField));
    // a failing first member decides before the repetition
    let obj = Json::Object(vec![
        ("name".to_string(), Json::Null),
        ("name".to_string(), text("b")),
    ]);
    assert_eq!(KernelSpec::from_json(&obj).err(), Some(DecodeError::WrongType));
    // keys that name no field may repeat
    let obj = Json::Object(vec![
        ("x".to_string(), Json::Null),
        ("x".to_string(), Json::Null),
        ("name".to_string(), text("a")),
        ("display_name".to_string(), text("c")),
    ]);
    assert_eq!(KernelSpec::from_json(&obj).unwrap().name, "a");
    assert_eq!(DecodeError::DuplicateField.message(), "duplicate field");
}

#[test]
fn cell_id_read_in_text_order() {
    // an earlier failing member decides before an id that is no string
    let cell = r#"{"source": 1, "id": 5, "cell_type": "markdown"}"#;
    assert_eq!(MarkdownCell::from_json(&parse_json(cell).unwrap()).err(), Some(DecodeError::WrongType));
    let cell = r#"{"cell_type": "raw", "id": "", "source": "s", "metadata": {}}"#;
    assert_eq!(
        RawCell::from_json(&parse_json(cell).unwrap()).err(),
        Some(DecodeError::Schema(SchemaError::EmptyCellId))
    );
}

#[test]
fn cell_id_is_text_checks() {
    let p = |t: &str| parse_json(t).unwrap();
    assert!(RawCell::cell_id_is_text(&p(r#"{"id": "a"}"#)));
    assert!(!RawCell::cell_id_is_text(&p(r#"{"id": 5, "source": 1}"#)));
    // an earlier failing member ends the reading before the id
    assert!(MarkdownCell::cell_id_is_text(&p(r#"{"source": 1, "id": 5}"#)));
    // unknown keys are passed over
    assert!(!CodeCell::cell_id_is_text(&p(r#"{"x": 1, "id": null}"#)));
    assert!(CodeCell::cell_id_is_text(&p(r#"{"cell_type": "code"}"#)));
    assert!(!RawCell::cell_id_is_text(&p(r#"[1, "raw"]"#)));
    assert!(RawCell::cell_id_is_text(&p(r#"[]"#)));
    assert!(RawCell::cell_id_is_text(&p("7")));
}

#[test]
fn key_written_twice_in_text() {
    // the parser keeps one member per key: the last value is read
    let k = KernelSpec::from_json_str(r#"{"name": "a", "name": "b", "display_name": "c"}"#).unwrap();
    assert_eq!(k.name, "b");
    let nb = r#"{"metadata": {"original_notebook_format": null}, "nbformat": 3, "nbformat": 4, "nbformat_minor": 5, "cells": []}"#;
    assert_eq!(Notebook::from_json_str(nb).unwrap().nbformat, 4);
}
