use notebook_convert::cli::{get_args, OutputFormat};
use notebook_convert::notebook::{
    cell_kind, output_kind, plain_text, Cell, CellKind, MimeEntry, Notebook, Output, OutputKind,
};
use notebook_convert::render::{
    join_lines, render, render_cell, render_code_block, render_output, strip_trailing_newlines,
};

fn lines(v: &[&str]) -> Vec<String> {
    v.iter().map(|s| s.to_string()).collect()
}

fn cell(kind: &str, source: &[&str]) -> Cell {
    Cell { cell_type: kind.to_string(), source: lines(source), outputs: Vec::new() }
}

fn stream(text: &[&str]) -> Output {
    Output { output_type: "stream".to_string(), text: lines(text), data: Vec::new() }
}

fn result(kind: &str, data: &[(&str, &[&str])]) -> Output {
    Output {
        output_type: kind.to_string(),
        text: Vec::new(),
        data: data
            .iter()
            .map(|(m, l)| MimeEntry { mime: m.to_string(), lines: lines(l) })
            .collect(),
    }
}

fn notebook(cells: Vec<Cell>) -> Notebook {
    Notebook { cells }
}

#[test]
fn markdown_cell_passes_through_in_markdown() {
    let nb = notebook(vec![cell("markdown", &["# Title\n"])]);
    assert_eq!(render_cell(&nb.cells[0], OutputFormat::Markdown), Some("# Title\n".to_string()));
    assert_eq!(render(&nb, OutputFormat::Markdown), "# Title\n\n");
}

#[test]
fn code_cell_without_outputs_is_one_fenced_block() {
    let nb = notebook(vec![cell("code", &["print(1)\n"])]);
    assert_eq!(render_code_block(&nb.cells[0]), "```python\nprint(1)\n```\n\n");
    assert_eq!(render(&nb, OutputFormat::Markdown), "```python\nprint(1)\n```\n\n\n");
}

#[test]
fn stream_output_gets_its_own_fence() {
    let mut c = cell("code", &["print(1)\n"]);
    c.outputs.push(stream(&["hello\n", "world\n"]));
    let out = render(&notebook(vec![c]), OutputFormat::Markdown);
    assert_eq!(out, "```python\nprint(1)\n```\n\n```\nhello\nworld\n\n```\n\n");
    assert!(out.contains("hello\nworld\n"));
}

#[test]
fn result_without_plain_text_adds_nothing() {
    let mut c = cell("code", &["x\n"]);
    c.outputs.push(result("execute_result", &[("image/png", &["abc"])]));
    assert_eq!(render(&notebook(vec![c]), OutputFormat::Markdown), "```python\nx\n```\n\n\n");
    let o = result("execute_result", &[]);
    assert_eq!(render_output(&o), "");
}

#[test]
fn result_and_display_with_plain_text_are_fenced() {
    let mut c = cell("code", &["1+1\n"]);
    c.outputs.push(result("execute_result", &[("text/html", &["<b>2</b>"]), ("text/plain", &["2"])]));
    c.outputs.push(result("display_data", &[("text/plain", &["a", "b"])]));
    assert_eq!(
        render_code_block(&c),
        "```python\n1+1\n```\n\n```\n2\n```\n```\nab\n```\n"
    );
}

#[test]
fn other_output_types_and_empty_streams_add_nothing() {
    let mut c = cell("code", &["x\n"]);
    c.outputs.push(stream(&[]));
    c.outputs.push(result("error", &[("text/plain", &["boom"])]));
    assert_eq!(render_code_block(&c), "```python\nx\n```\n\n");
}

#[test]
fn html_scenario() {
    let nb = notebook(vec![cell("markdown", &["hi"]), cell("code", &["x=1"])]);
    assert_eq!(render(&nb, OutputFormat::Html), "<html><body><p>hi</p>\n<pre>x=1</pre>\n</body></html>");
}

#[test]
fn empty_notebook() {
    let nb = notebook(Vec::new());
    assert_eq!(render(&nb, OutputFormat::Text), "");
    assert_eq!(render(&nb, OutputFormat::Markdown), "");
    assert_eq!(render(&nb, OutputFormat::Html), "<html><body></body></html>");
}

#[test]
fn text_format_labels_each_cell() {
    let nb = notebook(vec![cell("markdown", &["# A\n", "b"]), cell("code", &["x = 1\n", "y = 2"])]);
    assert_eq!(render(&nb, OutputFormat::Text), "Markdown Cell: # A\nb\nCode Cell: x = 1\ny = 2\n");
}

#[test]
fn other_cells_are_skipped_in_every_format() {
    let with = notebook(vec![cell("markdown", &["a"]), cell("raw", &["zzz"]), cell("code", &["b"])]);
    let without = notebook(vec![cell("markdown", &["a"]), cell("code", &["b"])]);
    for f in [OutputFormat::Text, OutputFormat::Html, OutputFormat::Markdown] {
        assert_eq!(render(&with, f), render(&without, f));
        assert!(!render(&with, f).contains("zzz"));
    }
    assert_eq!(render_cell(&cell("raw", &["zzz"]), OutputFormat::Text), None);
}

#[test]
fn cells_render_in_document_order() {
    let nb = notebook(vec![cell("markdown", &["first\n"]), cell("markdown", &["second\n"]), cell("code", &["third"])]);
    assert_eq!(render(&nb, OutputFormat::Text), "Markdown Cell: first\n\nMarkdown Cell: second\n\nCode Cell: third\n");
    assert_eq!(
        render(&nb, OutputFormat::Markdown),
        "first\n\n\nsecond\n\n\n```python\nthird\n```\n\n\n"
    );
    assert_eq!(
        render(&nb, OutputFormat::Html),
        "<html><body><p>first\n</p>\n<p>second\n</p>\n<pre>third</pre>\n</body></html>"
    );
}

#[test]
fn rendering_twice_gives_the_same_document() {
    let mut c = cell("code", &["print(1)\n"]);
    c.outputs.push(stream(&["1\n"]));
    let nb = notebook(vec![cell("markdown", &["# T\n"]), c]);
    for f in [OutputFormat::Text, OutputFormat::Html, OutputFormat::Markdown] {
        assert_eq!(render(&nb, f), render(&nb.clone(), f));
    }
}

#[test]
fn empty_markdown_source_is_not_omitted() {
    let nb = notebook(vec![cell("markdown", &[])]);
    assert_eq!(render(&nb, OutputFormat::Html), "<html><body><p></p>\n</body></html>");
    assert_eq!(render(&nb, OutputFormat::Text), "Markdown Cell: \n");
}

#[test]
fn join_inserts_nothing_between_lines() {
    assert_eq!(join_lines(&lines(&["a", "b", "c\n"])), "abc\n");
    assert_eq!(join_lines(&Vec::new()), "");
}

#[test]
fn trailing_newlines_are_stripped() {
    assert_eq!(strip_trailing_newlines("x\n\n"), "x");
    assert_eq!(strip_trailing_newlines("a\nb"), "a\nb");
    assert_eq!(strip_trailing_newlines(""), "");
    assert_eq!(strip_trailing_newlines("\n"), "");
}

#[test]
fn kinds_are_classified() {
    assert_eq!(cell_kind(&"markdown".to_string()), CellKind::Markdown);
    assert_eq!(cell_kind(&"code".to_string()), CellKind::Code);
    assert_eq!(cell_kind(&"Code".to_string()), CellKind::Other);
    assert_eq!(output_kind(&"stream".to_string()), OutputKind::Stream);
    assert_eq!(output_kind(&"execute_result".to_string()), OutputKind::ExecuteResult);
    assert_eq!(output_kind(&"display_data".to_string()), OutputKind::DisplayData);
    assert_eq!(output_kind(&"error".to_string()), OutputKind::Other);
}

#[test]
fn plain_text_takes_the_first_matching_entry() {
    let o = result("execute_result", &[("text/html", &["h"]), ("text/plain", &["p"]), ("text/plain", &["q"])]);
    assert_eq!(plain_text(&o.data), Some(&lines(&["p"])));
    assert_eq!(plain_text(&Vec::new()), None);
}

#[test]
fn args_default_to_text() {
    let a = get_args(None, None, None);
    assert_eq!(a.format, OutputFormat::Text);
    let b = get_args(Some(OutputFormat::Html), Some("in.ipynb".to_string()), Some("out.html".to_string()));
    assert_eq!(b.format, OutputFormat::Html);
    assert_eq!(b.input, Some("in.ipynb".to_string()));
    assert_eq!(b.output, Some("out.html".to_string()));
}

#[test]
fn markdown_blocks_without_newline_get_a_blank_line() {
    let two = notebook(vec![cell("markdown", &["a"]), cell("markdown", &["b"])]);
    assert_eq!(render(&two, OutputFormat::Markdown), "a\n\nb\n");
    let mixed = notebook(vec![cell("markdown", &["hi"]), cell("code", &["x"])]);
    assert_eq!(render(&mixed, OutputFormat::Markdown), "hi\n\n```python\nx\n```\n\n\n");
    let last = notebook(vec![cell("code", &["x"]), cell("markdown", &["end"])]);
    assert_eq!(render(&last, OutputFormat::Markdown), "```python\nx\n```\n\n\n\nend\n");
}
