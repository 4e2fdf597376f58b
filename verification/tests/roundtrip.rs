use rururucore::{
    find_field, parse_json, Author, Cell, CodeCell, DecodeError, Json, KernelSpec, LanguageInfo,
    MarkdownCell, Notebook, NotebookMetadata, RawCell, RawCellJupyterMetadata, RawCellMetadata,
    SchemaError,
};

fn s(x: &str) -> String {
    x.to_string()
}

fn metadata() -> NotebookMetadata {
    NotebookMetadata {
        kernelspec: Some(KernelSpec { name: s("python3"), display_name: s("Python 3") }),
        language_info: Some(LanguageInfo {
            name: s("python"),
            codemirror_mode: None,
            mimetype: Some(s("text/x-python")),
            file_extension: Some(s(".py")),
            pygments_lexer: None,
        }),
        original_notebook_format: Some(4),
        title: None,
        authors: Some(vec![Author { name: s("John Doe") }, Author { name: s("Jane Smith") }]),
    }
}

#[test]
fn kernel_spec_round_trip() {
    let k = KernelSpec { name: s("julia"), display_name: s("Julia 1.9") };
    let j = k.to_json();
    assert!(matches!(find_field(&j, "name"), Some(Json::Str(x)) if x == "julia"));
    let back = KernelSpec::from_json(&j).unwrap();
    assert_eq!(back.name, "julia");
    assert_eq!(back.display_name, "Julia 1.9");
}

#[test]
fn metadata_round_trip() {
    let j = metadata().to_json();
    assert!(matches!(find_field(&j, "title"), Some(Json::Null)));
    let back = NotebookMetadata::from_json(&j).unwrap();
    assert_eq!(back.kernelspec.unwrap().display_name, "Python 3");
    let l = back.language_info.unwrap();
    assert_eq!(l.name, "python");
    assert!(l.codemirror_mode.is_none());
    assert_eq!(l.file_extension.unwrap(), ".py");
    assert_eq!(back.original_notebook_format, Some(4));
    assert!(back.title.is_none());
    let authors = back.authors.unwrap();
    assert_eq!(authors.len(), 2);
    assert_eq!(authors[1].name, "Jane Smith");
}

#[test]
fn metadata_breaking_a_rule_does_not_come_back() {
    let mut m = metadata();
    m.original_notebook_format = Some(0);
    let j = m.to_json();
    assert_eq!(
        NotebookMetadata::from_json(&j).err(),
        Some(DecodeError::Schema(SchemaError::OriginalFormatBelowOne))
    );
}

#[test]
fn raw_cell_round_trip() {
    let c = RawCell {
        id: s("r-1"),
        cell_type: s("raw"),
        source: s("plain"),
        metadata: RawCellMetadata {
            format: Some(s("text/plain")),
            jupyter: Some(RawCellJupyterMetadata { source_hidden: Some(false) }),
            name: Some(s("first")),
            tags: Some(vec![s("a"), s("b c")]),
        },
    };
    let back = RawCell::from_json(&c.to_json()).unwrap();
    assert_eq!(back.id, "r-1");
    assert_eq!(back.metadata.jupyter.unwrap().source_hidden, Some(false));
    assert_eq!(back.metadata.tags.unwrap(), vec![s("a"), s("b c")]);
}

#[test]
fn markdown_and_code_cell_round_trip() {
    let m = MarkdownCell { id: s("m"), cell_type: s("markdown"), source: s("*hi*") };
    assert_eq!(MarkdownCell::from_json(&m.to_json()).unwrap().source, "*hi*");
    let outputs = match parse_json(r#"[{"text": "2"}]"#).unwrap() {
        Json::Array(items) => items,
        _ => unreachable!(),
    };
    let c = CodeCell { id: s("c"), cell_type: s("code"), source: s("1+1"), outputs, execution_count: None };
    let back = CodeCell::from_json(c.into_json()).unwrap();
    assert_eq!(back.outputs.len(), 1);
    assert_eq!(back.execution_count, None);
    let bad = MarkdownCell { id: s("m"), cell_type: s("raw"), source: s("") };
    assert_eq!(
        MarkdownCell::from_json(&bad.to_json()).err(),
        Some(DecodeError::Schema(SchemaError::NotMarkdownCellType))
    );
}

#[test]
fn notebook_round_trip_and_cell_kinds() {
    let n = Notebook { metadata: metadata(), nbformat: 4, nbformat_minor: 5, cells: vec![Cell::RawCell] };
    let back = Notebook::from_json(&n.to_json()).unwrap();
    assert_eq!(back.cells, vec![Cell::RawCell]);
    assert_eq!(back.nbformat_minor, 5);
    // every kind of cell entry is written as null, so it reads back as a raw cell
    let n = Notebook { metadata: metadata(), nbformat: 4, nbformat_minor: 5, cells: vec![Cell::CodeCell] };
    let j = n.to_json();
    assert!(matches!(find_field(&j, "cells"), Some(Json::Array(items)) if matches!(items[0], Json::Null)));
    assert_eq!(Notebook::from_json(&j).unwrap().cells, vec![Cell::RawCell]);
}

#[test]
fn messages() {
    assert_eq!(SchemaError::NbformatNotFour.message(), "nbformat must be 4");
    assert_eq!(SchemaError::CellIdTooLong.message(), "Cell id cannot be longer than 64 characters");
    assert_eq!(DecodeError::Schema(SchemaError::CellTagPattern).message(), "Each cell tag must match pattern ^[^,]+$");
    assert_eq!(DecodeError::MissingField.message(), "missing field");
    assert_eq!(DecodeError::InvalidLength.message(), "invalid length");
    assert_eq!(DecodeError::TooManyItems.message(), "trailing characters");
}
