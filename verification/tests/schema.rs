use rururucore::{
    deserialize_cell_id, deserialize_nbformat, deserialize_nbformat_minor,
    deserialize_orig_nbformat, parse_json, Author, KernelSpec, LanguageInfo, Notebook,
    NotebookMetadata, RawCellMetadata,
};

#[test]
fn test_kernel_spec() {
    // test that if name and display name are present, everything succeeds
    let data = r#"
        {
                "name": "python3",
                "display_name": "Python 3"
        }
        "#;

    let kernel_spec = KernelSpec::from_json_str(data).unwrap();
    assert_eq!(kernel_spec.name, "python3");
    assert_eq!(kernel_spec.display_name, "Python 3");

    // test that if name is missing, deserialization fails
    let data_missing_name = r#"
        {
                "display_name": "Python 3"
        }
        "#;

    let result = KernelSpec::from_json_str(data_missing_name);
    assert!(result.is_err());

    // test that if display name is missing, deserialization fails
    let data_missing_display_name = r#"
        {
                "name": "python3"
    }
        "#;

    let result = KernelSpec::from_json_str(data_missing_display_name);
    assert!(result.is_err());
}

#[test]
fn test_language_info() {
    let data = r#"
        {
                "name": "python",
                "codemirror_mode": "ipython",
                "mimetype": "text/x-python",
                "file_extension": ".py",
                "pygments_lexer": "ipython3"    
    }
        "#;

    let lang_info = LanguageInfo::from_json_str(data).unwrap();
    assert_eq!(lang_info.name, "python");
    assert_eq!(lang_info.codemirror_mode.unwrap(), "ipython");
    assert_eq!(lang_info.mimetype.unwrap(), "text/x-python");
    assert_eq!(lang_info.file_extension.unwrap(), ".py");
    assert_eq!(lang_info.pygments_lexer.unwrap(), "ipython3");

    // test that name is required
    let data_missing_name = r#"
        {
                "codemirror_mode": "ipython"
                "mimetype": "text/x-python"
                "file_extension": ".py"
                "pygments_lexer": "ipython3"
    }
        "#;

    let result = LanguageInfo::from_json_str(data_missing_name);
    assert!(result.is_err());
}

#[test]
fn test_author() {
    let data = r#"
        {
                "name": "John Doe"
        }
        "#;

    let author = Author::from_json_str(data).unwrap();
    assert_eq!(author.name, "John Doe");
}

#[test]
fn test_original_notebook_format() {
    let data = r#"
        4
        "#;

    let value = deserialize_orig_nbformat(&parse_json(data).unwrap()).unwrap();
    assert_eq!(value.unwrap(), 4);
    // test that value less than 1 fails
    let data_invalid = r#"
        0
        "#;
    let result = deserialize_orig_nbformat(&parse_json(data_invalid).unwrap());
    assert!(result.is_err());
}

#[test]
fn test_nbformat_minor() {
    let data = r#"
        5
        "#;

    let value = deserialize_nbformat_minor(&parse_json(data).unwrap()).unwrap();
    assert_eq!(value, 5);

    // test that value less than 5 fails
    let data_invalid = r#"
        4
        "#;
    let result = deserialize_nbformat_minor(&parse_json(data_invalid).unwrap());
    assert!(result.is_err());
}

#[test]
fn test_nbformat() {
    let data = r#"
        4
        "#;

    let value = deserialize_nbformat(&parse_json(data).unwrap()).unwrap();
    assert_eq!(value, 4);

    // test that value not equal to 4 fails
    let data_invalid = r#"
        3
        "#;
    let result = deserialize_nbformat(&parse_json(data_invalid).unwrap());
    assert!(result.is_err());
}

#[test]
fn test_cell_id() {
    let data = r#"
        "cell-123_A"
        "#;
    let cell_id = deserialize_cell_id(&parse_json(data).unwrap()).unwrap();
    assert_eq!(cell_id, "cell-123_A");
    // test that empty string fails
    let data_empty = r#""#;
    let result = parse_json(data_empty);
    assert!(result.is_err());
    // test that too long string fails
    let data_too_long = r#"
        "abcdefghijklmnopqrstuvwxyzABCDEFGHIJKLMNOPQRSTUVWXYZ0123456789_extra"
        "#;
    let result = deserialize_cell_id(&parse_json(data_too_long).unwrap());
    assert!(result.is_err());
    // test that invalid pattern fails
    let data_invalid_pattern = r#"
        "cell@123!"
        "#;
    let result = deserialize_cell_id(&parse_json(data_invalid_pattern).unwrap());
    assert!(result.is_err());
}

#[test]
fn test_rawcell_metadata() {
    // name, format, tags, jupyter are all optional
    let data = r#"
        {
                "format": "text/plain",
                "jupyter": {
                        "source_hidden": true
                }
        }
        "#;

    let metadata = RawCellMetadata::from_json_str(data).unwrap();
    assert_eq!(metadata.format.unwrap(), "text/plain");
    let jupyter_meta = metadata.jupyter.unwrap();
    assert_eq!(jupyter_meta.source_hidden.unwrap(), true);

    // make sure if name or tags are specified that they match the patterns
    let data_with_name_tags = r#"
        {
                "format": "text/plain",
                "jupyter": {
                        "source_hidden": false
                },
                "name": "cell_name_1",
                "tags": ["tag1", "tag2"]
        }
        "#;
    let metadata = RawCellMetadata::from_json_str(data_with_name_tags).unwrap();
    assert_eq!(metadata.name.unwrap(), "cell_name_1");
    let tags = metadata.tags.unwrap();
    assert_eq!(tags.len(), 2);
    assert_eq!(tags[0], "tag1");
    assert_eq!(tags[1], "tag2");
}

#[test]
fn test_metadata() {
    let data = r#"
        {
                "kernelspec": {
                        "name": "python3",
                        "display_name": "Python 3"
                },
                "language_info": {
                        "name": "python",
                        "codemirror_mode": "ipython",
                        "mimetype": "text/x-python",
                        "file_extension": ".py",
                        "pygments_lexer": "ipython3"
                },
                "original_notebook_format": 4,
                "title": "Sample Notebook",
                "authors": [
                        {"name": "John Doe"},
                        {"name": "Jane Smith"}
                ]
    }    
     "#;

    let metadata = NotebookMetadata::from_json_str(data).unwrap();

    // Check kernelspec
    let kernelspec = metadata.kernelspec.unwrap();
    assert_eq!(kernelspec.name, "python3");
    assert_eq!(kernelspec.display_name, "Python 3");

    // Check language_info
    let lang_info = metadata.language_info.unwrap();
    assert_eq!(lang_info.name, "python");
    assert_eq!(lang_info.codemirror_mode.unwrap(), "ipython");
    assert_eq!(lang_info.mimetype.unwrap(), "text/x-python");
    assert_eq!(lang_info.file_extension.unwrap(), ".py");
    assert_eq!(lang_info.pygments_lexer.unwrap(), "ipython3");

    // Check original_notebook_format
    assert_eq!(metadata.original_notebook_format.unwrap(), 4);

    // Check title
    assert_eq!(metadata.title.unwrap(), "Sample Notebook");

    // Check authors
    let authors = metadata.authors.unwrap();
    assert_eq!(authors.len(), 2);
    assert_eq!(authors[0].name, "John Doe");
    assert_eq!(authors[1].name, "Jane Smith");
}

#[test]
fn test_notebook() {
    let data = r#"
        {
                "metadata": {
                        "kernelspec": {
                                "name": "python3",
                                "display_name": "Python 3"
                        },
                        "language_info": {
                                "name": "python",
                                "codemirror_mode": "ipython",
                                "mimetype": "text/x-python",
                                "file_extension": ".py",
                                "pygments_lexer": "ipython3"
                        },
                        "original_notebook_format": 4,
                        "title": "Sample Notebook",
                        "authors": [
                                {"name": "John Doe"},
                                {"name": "Jane Smith"}
                        ]
                },
                "nbformat": 4,
                "nbformat_minor": 5
                "cells": [] // Not implemented yet
        }
        "#;
    let notebook_result = Notebook::from_json_str(data);
    assert!(notebook_result.is_err());
}
