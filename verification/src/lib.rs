//! Data model and schema rules for Jupyter notebooks (nbformat 4).
//!
//! JSON text is parsed by `serde_json` into the library's `Json`; the
//! library then decodes that value into its own types, field by field, and
//! checks the rules that the notebook schema puts on single fields (format
//! versions, cell ids, cell types, cell names and tags).
pub mod json;
pub mod pattern;
pub mod rules;
pub mod model;
pub mod decode;
pub mod encode;
pub mod laws;
pub mod reading;

pub use json::{find_field, parse_json, DecodeError, Json, JsonNumber};
pub use rules::{
    check_cell_id,
    check_cell_name, check_cell_tags, check_code_cell_type, check_markdown_cell_type,
    check_nbformat, check_nbformat_minor, check_orig_nbformat, check_raw_cell_type, SchemaError,
};
pub use model::{
    Author, Cell, CodeCell, KernelSpec, LanguageInfo, MarkdownCell, Notebook, NotebookMetadata,
    RawCell, RawCellJupyterMetadata, RawCellMetadata,
};
pub use decode::{
    deserialize_cell_id, deserialize_cell_name, deserialize_cell_tags, deserialize_code_cell_type,
    deserialize_markdown_cell_type, deserialize_nbformat, deserialize_nbformat_minor,
    deserialize_orig_nbformat, deserialize_raw_cell_type,
};
