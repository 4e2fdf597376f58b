//! The notebook's data model, and the view of each type that contracts
//! speak of (strings as sequences of characters).
use vstd::prelude::*;
use crate::json::Json;

verus! {

/// The kernel a notebook runs on.
#[derive(Debug)]
pub struct KernelSpec {
    pub name: String,
    pub display_name: String,
}

pub struct KernelSpecView {
    pub name: Seq<char>,
    pub display_name: Seq<char>,
}

impl View for KernelSpec {
    type V = KernelSpecView;

    open spec fn view(&self) -> KernelSpecView {
        KernelSpecView { name: self.name@, display_name: self.display_name@ }
    }
}

/// The programming language of a notebook.
#[derive(Debug)]
pub struct LanguageInfo {
    pub name: String,
    pub codemirror_mode: Option<String>,
    pub mimetype: Option<String>,
    pub file_extension: Option<String>,
    pub pygments_lexer: Option<String>,
}

pub struct LanguageInfoView {
    pub name: Seq<char>,
    pub codemirror_mode: Option<Seq<char>>,
    pub mimetype: Option<Seq<char>>,
    pub file_extension: Option<Seq<char>>,
    pub pygments_lexer: Option<Seq<char>>,
}

impl View for LanguageInfo {
    type V = LanguageInfoView;

    open spec fn view(&self) -> LanguageInfoView {
        LanguageInfoView {
            name: self.name@,
            codemirror_mode: self.codemirror_mode.deep_view(),
            mimetype: self.mimetype.deep_view(),
            file_extension: self.file_extension.deep_view(),
            pygments_lexer: self.pygments_lexer.deep_view(),
        }
    }
}

/// An author of a notebook.
#[derive(Debug)]
pub struct Author {
    pub name: String,
}

pub struct AuthorView {
    pub name: Seq<char>,
}

impl View for Author {
    type V = AuthorView;

    open spec fn view(&self) -> AuthorView {
        AuthorView { name: self.name@ }
    }
}

/// The view of each author in a list.
pub open spec fn authors_view(authors: Seq<Author>) -> Seq<AuthorView> {
    authors.map_values(|a: Author| a@)
}

/// The metadata of a notebook.
#[derive(Debug)]
pub struct NotebookMetadata {
    pub kernelspec: Option<KernelSpec>,
    pub language_info: Option<LanguageInfo>,
    pub original_notebook_format: Option<u64>,
    pub title: Option<String>,
    pub authors: Option<Vec<Author>>,
}

pub struct NotebookMetadataView {
    pub kernelspec: Option<KernelSpecView>,
    pub language_info: Option<LanguageInfoView>,
    pub original_notebook_format: Option<u64>,
    pub title: Option<Seq<char>>,
    pub authors: Option<Seq<AuthorView>>,
}

impl View for NotebookMetadata {
    type V = NotebookMetadataView;

    open spec fn view(&self) -> NotebookMetadataView {
        NotebookMetadataView {
            kernelspec: match self.kernelspec {
                Some(k) => Some(k@),
                None => None,
            },
            language_info: match self.language_info {
                Some(l) => Some(l@),
                None => None,
            },
            original_notebook_format: self.original_notebook_format,
            title: self.title.deep_view(),
            authors: match self.authors {
                Some(a) => Some(authors_view(a@)),
                None => None,
            },
        }
    }
}

/// The `jupyter` part of a raw cell's metadata.
#[derive(Debug, Clone, Copy)]
pub struct RawCellJupyterMetadata {
    pub source_hidden: Option<bool>,
}

/// The metadata of a raw cell.
#[derive(Debug)]
pub struct RawCellMetadata {
    pub format: Option<String>,
    pub jupyter: Option<RawCellJupyterMetadata>,
    pub name: Option<String>,
    pub tags: Option<Vec<String>>,
}

pub struct RawCellMetadataView {
    pub format: Option<Seq<char>>,
    pub jupyter: Option<RawCellJupyterMetadata>,
    pub name: Option<Seq<char>>,
    pub tags: Option<Seq<Seq<char>>>,
}

impl View for RawCellMetadata {
    type V = RawCellMetadataView;

    open spec fn view(&self) -> RawCellMetadataView {
        RawCellMetadataView {
            format: self.format.deep_view(),
            jupyter: self.jupyter,
            name: self.name.deep_view(),
            tags: self.tags.deep_view(),
        }
    }
}

/// A raw cell.
#[derive(Debug)]
pub struct RawCell {
    pub id: String,
    pub cell_type: String,
    pub source: String,
    pub metadata: RawCellMetadata,
}

pub struct RawCellView {
    pub id: Seq<char>,
    pub cell_type: Seq<char>,
    pub source: Seq<char>,
    pub metadata: RawCellMetadataView,
}

impl View for RawCell {
    type V = RawCellView;

    open spec fn view(&self) -> RawCellView {
        RawCellView {
            id: self.id@,
            cell_type: self.cell_type@,
            source: self.source@,
            metadata: self.metadata@,
        }
    }
}

/// A markdown cell.
#[derive(Debug)]
pub struct MarkdownCell {
    pub id: String,
    pub cell_type: String,
    pub source: String,
}

pub struct MarkdownCellView {
    pub id: Seq<char>,
    pub cell_type: Seq<char>,
    pub source: Seq<char>,
}

impl View for MarkdownCell {
    type V = MarkdownCellView;

    open spec fn view(&self) -> MarkdownCellView {
        MarkdownCellView { id: self.id@, cell_type: self.cell_type@, source: self.source@ }
    }
}

/// A code cell; its outputs are kept as parsed JSON.
#[derive(Debug)]
pub struct CodeCell {
    pub id: String,
    pub cell_type: String,
    pub source: String,
    pub outputs: Vec<Json>,
    pub execution_count: Option<u64>,
}

pub struct CodeCellView {
    pub id: Seq<char>,
    pub cell_type: Seq<char>,
    pub source: Seq<char>,
    pub outputs: Seq<Json>,
    pub execution_count: Option<u64>,
}

impl View for CodeCell {
    type V = CodeCellView;

    open spec fn view(&self) -> CodeCellView {
        CodeCellView {
            id: self.id@,
            cell_type: self.cell_type@,
            source: self.source@,
            outputs: self.outputs@,
            execution_count: self.execution_count,
        }
    }
}

/// An entry of a notebook's `cells` list. The kinds carry no content, so
/// (as with any untagged list of unit kinds) only JSON `null` is a cell,
/// and it reads as the first kind.
#[derive(Debug, Clone, Copy, PartialEq, Eq, Structural)]
pub enum Cell {
    RawCell,
    MarkdownCell,
    CodeCell,
}

/// A notebook.
#[derive(Debug)]
pub struct Notebook {
    pub metadata: NotebookMetadata,
    pub nbformat: u64,
    pub nbformat_minor: u64,
    pub cells: Vec<Cell>,
}

pub struct NotebookView {
    pub metadata: NotebookMetadataView,
    pub nbformat: u64,
    pub nbformat_minor: u64,
    pub cells: Seq<Cell>,
}

impl View for Notebook {
    type V = NotebookView;

    open spec fn view(&self) -> NotebookView {
        NotebookView {
            metadata: self.metadata@,
            nbformat: self.nbformat,
            nbformat_minor: self.nbformat_minor,
            cells: self.cells@,
        }
    }
}

} // verus!
