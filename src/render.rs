use vstd::prelude::*;

use crate::cli::OutputFormat;
use crate::notebook::{
    Cell, CellKind, Notebook, Output, OutputKind, cell_kind, kind_of_cell,
    kind_of_output, output_kind, plain_text, plain_text_of,
};

verus! {

/// The lines concatenated with nothing between them.
pub open spec fn concat_lines(lines: Seq<String>) -> Seq<char>
    decreases lines.len(),
{
    if lines.len() == 0 {
        Seq::empty()
    } else {
        concat_lines(lines.drop_last()) + lines.last()@
    }
}

/// A line with every trailing newline character removed.
pub open spec fn strip_newlines(s: Seq<char>) -> Seq<char>
    decreases s.len(),
{
    if s.len() > 0 && s.last() == '\n' {
        strip_newlines(s.drop_last())
    } else {
        s
    }
}

/// Each line stripped of its trailing newlines and then ended by exactly one.
pub open spec fn code_lines(lines: Seq<String>) -> Seq<char>
    decreases lines.len(),
{
    if lines.len() == 0 {
        Seq::empty()
    } else {
        code_lines(lines.drop_last()) + strip_newlines(lines.last()@) + "\n"@
    }
}

/// A plain fenced block around `body`.
pub open spec fn fenced(body: Seq<char>) -> Seq<char> {
    "```\n"@ + body + "\n```\n"@
}

/// What one output contributes to the Markdown rendering of its cell.
pub open spec fn output_block(o: Output) -> Seq<char> {
    match kind_of_output(o.output_type@) {
        OutputKind::Stream => if o.text@.len() > 0 {
            fenced(concat_lines(o.text@))
        } else {
            Seq::empty()
        },
        OutputKind::ExecuteResult | OutputKind::DisplayData => match plain_text_of(o.data@) {
            Some(lines) => fenced(concat_lines(lines)),
            None => Seq::empty(),
        },
        OutputKind::Other => Seq::empty(),
    }
}

/// The output blocks of a cell, in order.
pub open spec fn output_blocks(outputs: Seq<Output>) -> Seq<char>
    decreases outputs.len(),
{
    if outputs.len() == 0 {
        Seq::empty()
    } else {
        output_blocks(outputs.drop_last()) + output_block(outputs.last())
    }
}

/// The Markdown rendering of a code cell: a Python fence around its lines,
/// a blank line, then its output blocks.
pub open spec fn code_block(c: Cell) -> Seq<char> {
    "```python\n"@ + code_lines(c.source@) + "```\n\n"@ + output_blocks(c.outputs@)
}

/// The rendered unit of one cell, or `None` for a cell that is skipped.
pub open spec fn cell_unit(c: Cell, f: OutputFormat) -> Option<Seq<char>> {
    let body = concat_lines(c.source@);
    match kind_of_cell(c.cell_type@) {
        CellKind::Markdown => Some(
            match f {
                OutputFormat::Text => "Markdown Cell: "@ + body + "\n"@,
                OutputFormat::Html => "<p>"@ + body + "</p>\n"@,
                OutputFormat::Markdown => body,
            },
        ),
        CellKind::Code => Some(
            match f {
                OutputFormat::Text => "Code Cell: "@ + body + "\n"@,
                OutputFormat::Html => "<pre>"@ + body + "</pre>\n"@,
                OutputFormat::Markdown => code_block(c),
            },
        ),
        CellKind::Other => None,
    }
}

/// The units of the cells that are rendered, in cell order.
pub open spec fn units(cells: Seq<Cell>, f: OutputFormat) -> Seq<Seq<char>>
    decreases cells.len(),
{
    if cells.len() == 0 {
        Seq::empty()
    } else {
        let prev = units(cells.drop_last(), f);
        match cell_unit(cells.last(), f) {
            Some(u) => prev.push(u),
            None => prev,
        }
    }
}

/// The units concatenated with nothing between them.
pub open spec fn concat_units(us: Seq<Seq<char>>) -> Seq<char>
    decreases us.len(),
{
    if us.len() == 0 {
        Seq::empty()
    } else {
        concat_units(us.drop_last()) + us.last()
    }
}

/// Lines joined by a line terminator: one between each two of them.
pub open spec fn join_by_newline(lines: Seq<Seq<char>>) -> Seq<char>
    decreases lines.len(),
{
    if lines.len() == 0 {
        Seq::empty()
    } else if lines.len() == 1 {
        lines[0]
    } else {
        join_by_newline(lines.drop_last()) + "\n"@ + lines.last()
    }
}

/// The lines of a Markdown document: each unit followed by a blank line.
pub open spec fn markdown_lines(us: Seq<Seq<char>>) -> Seq<Seq<char>>
    decreases us.len(),
{
    if us.len() == 0 {
        Seq::empty()
    } else {
        markdown_lines(us.drop_last()) + seq![us.last(), Seq::<char>::empty()]
    }
}

/// The body of a document made of the given units.
pub open spec fn assemble_body(us: Seq<Seq<char>>, f: OutputFormat) -> Seq<char> {
    match f {
        OutputFormat::Markdown => join_by_newline(markdown_lines(us)),
        _ => concat_units(us),
    }
}

pub(crate) proof fn lemma_markdown_lines_len(us: Seq<Seq<char>>)
    ensures
        markdown_lines(us).len() == 2 * us.len(),
    decreases us.len(),
{
    if us.len() > 0 {
        lemma_markdown_lines_len(us.drop_last());
    }
}

/// Adding a unit to a Markdown document adds the unit and its blank line.
pub(crate) proof fn lemma_markdown_body_push(us: Seq<Seq<char>>, u: Seq<char>)
    ensures
        join_by_newline(markdown_lines(us.push(u))) == if us.len() == 0 {
            u + "\n"@
        } else {
            join_by_newline(markdown_lines(us)) + "\n"@ + u + "\n"@
        },
{
    let ls = markdown_lines(us);
    assert(us.push(u).drop_last() =~= us);
    assert(markdown_lines(us.push(u)) == ls + seq![u, Seq::<char>::empty()]);
    let with_u = ls.push(u);
    let all = ls + seq![u, Seq::<char>::empty()];
    assert(all.drop_last() =~= with_u);
    assert(with_u.drop_last() =~= ls);
    lemma_markdown_lines_len(us);
    assert(join_by_newline(all) == join_by_newline(with_u) + "\n"@ + Seq::<char>::empty());
    assert(join_by_newline(all) =~= join_by_newline(with_u) + "\n"@);
    if us.len() == 0 {
        assert(with_u.len() == 1);
    }
}

/// The whole document: the body, wrapped in the HTML frame for `Html`.
pub open spec fn assemble(us: Seq<Seq<char>>, f: OutputFormat) -> Seq<char> {
    match f {
        OutputFormat::Html => "<html><body>"@ + assemble_body(us, f) + "</body></html>"@,
        _ => assemble_body(us, f),
    }
}

/// The rendering of a sequence of cells in format `f`.
pub open spec fn render_cells(cells: Seq<Cell>, f: OutputFormat) -> Seq<char> {
    assemble(units(cells, f), f)
}

/// Concatenates `lines` with nothing inserted between them.
pub fn join_lines(lines: &Vec<String>) -> (r: String)
    ensures
        r@ == concat_lines(lines@),
{
    let mut r = String::new();
    let mut i: usize = 0;
    while i < lines.len()
        invariant
            i <= lines@.len(),
            r@ == concat_lines(lines@.subrange(0, i as int)),
        decreases lines@.len() - i,
    {
        assert(lines@.subrange(0, i + 1).drop_last() =~= lines@.subrange(0, i as int));
        r.append(lines[i].as_str());
        i += 1;
    }
    assert(lines@.subrange(0, i as int) =~= lines@);
    r
}

/// Removes every newline character at the end of `s`.
pub fn strip_trailing_newlines(s: &str) -> (r: String)
    ensures
        r@ == strip_newlines(s@),
{
    let mut end: usize = s.unicode_len();
    assert(s@.subrange(0, end as int) =~= s@);
    while end > 0 && s.get_char(end - 1) == '\n'
        invariant
            end <= s@.len(),
            strip_newlines(s@.subrange(0, end as int)) == strip_newlines(s@),
        decreases end,
    {
        assert(s@.subrange(0, end as int).drop_last() =~= s@.subrange(0, end - 1));
        end -= 1;
    }
    String::from_str(s.substring_char(0, end))
}

/// Appends a plain fenced block around `body` to `out`.
fn push_fenced(out: &mut String, body: &str)
    ensures
        final(out)@ == old(out)@ + fenced(body@),
{
    out.append("```\n");
    out.append(body);
    out.append("\n```\n");
}

/// Renders what one output contributes to Markdown: a fenced block for
/// non-empty stream text or for a "text/plain" result, and nothing otherwise.
pub fn render_output(o: &Output) -> (r: String)
    ensures
        r@ == output_block(*o),
{
    let mut r = String::new();
    match output_kind(&o.output_type) {
        OutputKind::Stream => {
            if o.text.len() > 0 {
                let body = join_lines(&o.text);
                push_fenced(&mut r, body.as_str());
            }
        },
        OutputKind::ExecuteResult | OutputKind::DisplayData => {
            match plain_text(&o.data) {
                Some(lines) => {
                    let body = join_lines(lines);
                    push_fenced(&mut r, body.as_str());
                },
                None => {},
            }
        },
        OutputKind::Other => {},
    }
    r
}

/// Renders a code cell as Markdown: the fenced source, a blank line, then
/// one block per output that has something to show.
pub fn render_code_block(c: &Cell) -> (r: String)
    ensures
        r@ == code_block(*c),
{
    let mut r = String::from_str("```python\n");
    let ghost start = r@;
    let mut i: usize = 0;
    while i < c.source.len()
        invariant
            i <= c.source@.len(),
            start == "```python\n"@,
            r@ == start + code_lines(c.source@.subrange(0, i as int)),
        decreases c.source@.len() - i,
    {
        assert(c.source@.subrange(0, i + 1).drop_last() =~= c.source@.subrange(0, i as int));
        let line = strip_trailing_newlines(c.source[i].as_str());
        r.append(line.as_str());
        r.append("\n");
        i += 1;
    }
    assert(c.source@.subrange(0, i as int) =~= c.source@);
    r.append("```\n\n");
    let ghost mid = r@;
    let mut j: usize = 0;
    while j < c.outputs.len()
        invariant
            j <= c.outputs@.len(),
            mid == "```python\n"@ + code_lines(c.source@) + "```\n\n"@,
            r@ == mid + output_blocks(c.outputs@.subrange(0, j as int)),
        decreases c.outputs@.len() - j,
    {
        assert(c.outputs@.subrange(0, j + 1).drop_last() =~= c.outputs@.subrange(0, j as int));
        let block = render_output(&c.outputs[j]);
        r.append(block.as_str());
        j += 1;
    }
    assert(c.outputs@.subrange(0, j as int) =~= c.outputs@);
    r
}

/// Renders one cell in format `f`, or returns `None` for a cell whose type
/// is neither "markdown" nor "code".
pub fn render_cell(c: &Cell, f: OutputFormat) -> (r: Option<String>)
    ensures
        match r {
            Some(s) => cell_unit(*c, f) == Some(s@),
            None => cell_unit(*c, f) is None,
        },
{
    match cell_kind(&c.cell_type) {
        CellKind::Markdown => {
            let body = join_lines(&c.source);
            match f {
                OutputFormat::Text => {
                    let mut r = String::from_str("Markdown Cell: ");
                    r.append(body.as_str());
                    r.append("\n");
                    Some(r)
                },
                OutputFormat::Html => {
                    let mut r = String::from_str("<p>");
                    r.append(body.as_str());
                    r.append("</p>\n");
                    Some(r)
                },
                OutputFormat::Markdown => Some(body),
            }
        },
        CellKind::Code => {
            match f {
                OutputFormat::Text => {
                    let body = join_lines(&c.source);
                    let mut r = String::from_str("Code Cell: ");
                    r.append(body.as_str());
                    r.append("\n");
                    Some(r)
                },
                OutputFormat::Html => {
                    let body = join_lines(&c.source);
                    let mut r = String::from_str("<pre>");
                    r.append(body.as_str());
                    r.append("</pre>\n");
                    Some(r)
                },
                OutputFormat::Markdown => Some(render_code_block(c)),
            }
        },
        CellKind::Other => None,
    }
}

/// Renders a whole notebook in format `f`. Cells whose type is neither
/// "markdown" nor "code" contribute nothing; the others appear in order.
pub fn render(nb: &Notebook, f: OutputFormat) -> (r: String)
    ensures
        r@ == render_cells(nb.cells@, f),
{
    let cells = &nb.cells;
    let mut body = String::new();
    let mut any = false;
    let mut i: usize = 0;
    while i < cells.len()
        invariant
            i <= cells@.len(),
            any == (units(cells@.subrange(0, i as int), f).len() > 0),
            body@ == assemble_body(units(cells@.subrange(0, i as int), f), f),
        decreases cells@.len() - i,
    {
        let ghost prev = units(cells@.subrange(0, i as int), f);
        assert(cells@.subrange(0, i + 1).drop_last() =~= cells@.subrange(0, i as int));
        match render_cell(&cells[i], f) {
            Some(u) => {
                if f == OutputFormat::Markdown && any {
                    body.append("\n");
                }
                body.append(u.as_str());
                if f == OutputFormat::Markdown {
                    body.append("\n");
                }
                any = true;
                proof {
                    let cur = prev.push(u@);
                    assert(cur.drop_last() =~= prev);
                    lemma_markdown_body_push(prev, u@);
                }
            },
            None => {},
        }
        i += 1;
    }
    assert(cells@.subrange(0, i as int) =~= cells@);
    if f == OutputFormat::Html {
        let mut r = String::from_str("<html><body>");
        r.append(body.as_str());
        r.append("</body></html>");
        r
    } else {
        body
    }
}

} // verus!
