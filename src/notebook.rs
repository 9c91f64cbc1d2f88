use vstd::prelude::*;

verus! {

/// A whole notebook document: its cells, in document order.
#[derive(Clone, Debug, PartialEq, Eq)]
pub struct Notebook {
    pub cells: Vec<Cell>,
}

/// One unit of notebook content. `cell_type` is kept as written; only
/// "markdown" and "code" are recognised (see `cell_kind`).
#[derive(Clone, Debug, PartialEq, Eq)]
pub struct Cell {
    pub cell_type: String,
    pub source: Vec<String>,
    /// Recorded execution results; empty when the document has none.
    pub outputs: Vec<Output>,
}

/// A recorded result of running a code cell.
#[derive(Clone, Debug, PartialEq, Eq)]
pub struct Output {
    pub output_type: String,
    /// Stream text; empty when the document has none.
    pub text: Vec<String>,
    /// Representations of the result, one per MIME type; empty when absent.
    pub data: Vec<MimeEntry>,
}

/// The lines of one representation of an output, under its MIME type.
#[derive(Clone, Debug, PartialEq, Eq)]
pub struct MimeEntry {
    pub mime: String,
    pub lines: Vec<String>,
}

/// How a cell is treated, decided by its `cell_type`.
#[derive(Clone, Copy, Debug, PartialEq, Eq, Structural)]
pub enum CellKind {
    Markdown,
    Code,
    Other,
}

/// How an output is treated, decided by its `output_type`.
#[derive(Clone, Copy, Debug, PartialEq, Eq, Structural)]
pub enum OutputKind {
    Stream,
    ExecuteResult,
    DisplayData,
    Other,
}

pub open spec fn kind_of_cell(t: Seq<char>) -> CellKind {
    if t == "markdown"@ {
        CellKind::Markdown
    } else if t == "code"@ {
        CellKind::Code
    } else {
        CellKind::Other
    }
}

pub open spec fn kind_of_output(t: Seq<char>) -> OutputKind {
    if t == "stream"@ {
        OutputKind::Stream
    } else if t == "execute_result"@ {
        OutputKind::ExecuteResult
    } else if t == "display_data"@ {
        OutputKind::DisplayData
    } else {
        OutputKind::Other
    }
}

/// The lines stored under the first entry whose MIME type is "text/plain".
pub open spec fn plain_text_of(entries: Seq<MimeEntry>) -> Option<Seq<String>>
    decreases entries.len(),
{
    if entries.len() == 0 {
        None
    } else if entries[0].mime@ == "text/plain"@ {
        Some(entries[0].lines@)
    } else {
        plain_text_of(entries.drop_first())
    }
}

/// Classifies a cell type; anything but "markdown" and "code" is `Other`.
pub fn cell_kind(t: &String) -> (k: CellKind)
    ensures
        k == kind_of_cell(t@),
{
    if *t == String::from_str("markdown") {
        CellKind::Markdown
    } else if *t == String::from_str("code") {
        CellKind::Code
    } else {
        CellKind::Other
    }
}

/// Classifies an output type; unrecognised types are `Other`.
pub fn output_kind(t: &String) -> (k: OutputKind)
    ensures
        k == kind_of_output(t@),
{
    if *t == String::from_str("stream") {
        OutputKind::Stream
    } else if *t == String::from_str("execute_result") {
        OutputKind::ExecuteResult
    } else if *t == String::from_str("display_data") {
        OutputKind::DisplayData
    } else {
        OutputKind::Other
    }
}

/// Looks up the "text/plain" representation of an output's data.
pub fn plain_text(data: &Vec<MimeEntry>) -> (r: Option<&Vec<String>>)
    ensures
        match r {
            Some(lines) => plain_text_of(data@) == Some(lines@),
            None => plain_text_of(data@) is None,
        },
{
    let key = String::from_str("text/plain");
    let n = data.len();
    let mut i: usize = 0;
    assert(data@.subrange(0, n as int) =~= data@);
    while i < n
        invariant
            n == data@.len(),
            i <= n,
            key@ == "text/plain"@,
            plain_text_of(data@.subrange(i as int, n as int)) == plain_text_of(data@),
        decreases n - i,
    {
        assert(data@.subrange(i as int, n as int).drop_first() =~= data@.subrange(i + 1, n as int));
        if data[i].mime == key {
            return Some(&data[i].lines);
        }
        i += 1;
    }
    None
}

} // verus!
