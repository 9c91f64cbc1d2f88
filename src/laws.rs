use vstd::prelude::*;

use crate::cli::OutputFormat;
use crate::notebook::{Cell, CellKind, MimeEntry, Notebook, Output, OutputKind, kind_of_cell,
    kind_of_output, plain_text_of};
use crate::render::{
    assemble_body, concat_units, join_by_newline, lemma_markdown_body_push, lemma_markdown_lines_len,
    markdown_lines, output_block, render_cells, units,
};

verus! {

/// Rendering depends on the notebook and the format alone: equal inputs give
/// equal documents.
pub proof fn lemma_render_deterministic(a: Notebook, b: Notebook, f: OutputFormat)
    requires
        a == b,
    ensures
        render_cells(a.cells@, f) == render_cells(b.cells@, f),
{
}

/// Cell order is kept: the rendered units of `a + b` are those of `a`
/// followed by those of `b`, in every format.
pub proof fn lemma_units_append(a: Seq<Cell>, b: Seq<Cell>, f: OutputFormat)
    ensures
        units(a + b, f) == units(a, f) + units(b, f),
    decreases b.len(),
{
    if b.len() == 0 {
        assert(a + b =~= a);
        assert(units(a, f) + units(b, f) =~= units(a, f));
    } else {
        assert((a + b).drop_last() =~= a + b.drop_last());
        assert((a + b).last() == b.last());
        lemma_units_append(a, b.drop_last(), f);
        match crate::render::cell_unit(b.last(), f) {
            Some(u) => {
                assert(units(a, f) + units(b.drop_last(), f).push(u)
                    =~= (units(a, f) + units(b.drop_last(), f)).push(u));
            },
            None => {},
        }
    }
}

proof fn lemma_concat_units_append(x: Seq<Seq<char>>, y: Seq<Seq<char>>)
    ensures
        concat_units(x + y) == concat_units(x) + concat_units(y),
    decreases y.len(),
{
    if y.len() == 0 {
        assert(x + y =~= x);
        assert(concat_units(x) + concat_units(y) =~= concat_units(x));
    } else {
        assert((x + y).drop_last() =~= x + y.drop_last());
        lemma_concat_units_append(x, y.drop_last());
        assert(concat_units(x) + concat_units(y.drop_last()) + y.last()
            =~= concat_units(x) + (concat_units(y.drop_last()) + y.last()));
    }
}

/// In plain text and in HTML the body of `a + b` is the body of `a` followed
/// by the body of `b`: each cell's unit stands where the cell stands.
pub proof fn lemma_body_append(a: Seq<Cell>, b: Seq<Cell>, f: OutputFormat)
    requires
        f != OutputFormat::Markdown,
    ensures
        assemble_body(units(a + b, f), f) == assemble_body(units(a, f), f) + assemble_body(
            units(b, f),
            f,
        ),
{
    lemma_units_append(a, b, f);
    lemma_concat_units_append(units(a, f), units(b, f));
}

proof fn lemma_join_by_newline_append(x: Seq<Seq<char>>, y: Seq<Seq<char>>)
    requires
        x.len() > 0,
        y.len() > 0,
    ensures
        join_by_newline(x + y) == join_by_newline(x) + "\n"@ + join_by_newline(y),
    decreases y.len(),
{
    assert((x + y).drop_last() =~= x + y.drop_last());
    assert((x + y).last() == y.last());
    if y.len() == 1 {
        assert(x + y.drop_last() =~= x);
    } else {
        lemma_join_by_newline_append(x, y.drop_last());
        assert(join_by_newline(x) + "\n"@ + join_by_newline(y.drop_last()) + "\n"@ + y.last()
            =~= join_by_newline(x) + "\n"@ + (join_by_newline(y.drop_last()) + "\n"@ + y.last()));
    }
}

proof fn lemma_markdown_lines_append(x: Seq<Seq<char>>, y: Seq<Seq<char>>)
    ensures
        markdown_lines(x + y) == markdown_lines(x) + markdown_lines(y),
    decreases y.len(),
{
    if y.len() == 0 {
        assert(x + y =~= x);
        assert(markdown_lines(x) + markdown_lines(y) =~= markdown_lines(x));
    } else {
        assert((x + y).drop_last() =~= x + y.drop_last());
        lemma_markdown_lines_append(x, y.drop_last());
        let tail = seq![y.last(), Seq::<char>::empty()];
        assert(markdown_lines(x) + markdown_lines(y.drop_last()) + tail
            =~= markdown_lines(x) + (markdown_lines(y.drop_last()) + tail));
    }
}

/// In Markdown the document of `a + b`, where both parts render something, is
/// the document of `a`, a line terminator, then the document of `b`: the
/// blank line that follows the last block of `a` stays in place.
pub proof fn lemma_markdown_render_append(a: Seq<Cell>, b: Seq<Cell>)
    requires
        units(a, OutputFormat::Markdown).len() > 0,
        units(b, OutputFormat::Markdown).len() > 0,
    ensures
        render_cells(a + b, OutputFormat::Markdown) == render_cells(a, OutputFormat::Markdown)
            + "\n"@ + render_cells(b, OutputFormat::Markdown),
{
    let ua = units(a, OutputFormat::Markdown);
    let ub = units(b, OutputFormat::Markdown);
    lemma_units_append(a, b, OutputFormat::Markdown);
    lemma_markdown_lines_append(ua, ub);
    lemma_markdown_lines_len(ua);
    lemma_markdown_lines_len(ub);
    lemma_join_by_newline_append(markdown_lines(ua), markdown_lines(ub));
}

/// Each unit followed by its own line terminator and a blank line.
pub open spec fn blocks_with_blank_lines(us: Seq<Seq<char>>) -> Seq<char>
    decreases us.len(),
{
    if us.len() == 0 {
        Seq::empty()
    } else {
        blocks_with_blank_lines(us.drop_last()) + us.last() + "\n"@ + "\n"@
    }
}

proof fn lemma_markdown_body_blocks(us: Seq<Seq<char>>)
    requires
        us.len() > 0,
    ensures
        join_by_newline(markdown_lines(us)) + "\n"@ == blocks_with_blank_lines(us),
    decreases us.len(),
{
    let prev = us.drop_last();
    assert(prev.push(us.last()) =~= us);
    lemma_markdown_body_push(prev, us.last());
    if prev.len() > 0 {
        lemma_markdown_body_blocks(prev);
        assert(join_by_newline(markdown_lines(prev)) + "\n"@ + us.last() + "\n"@ + "\n"@
            =~= blocks_with_blank_lines(prev) + us.last() + "\n"@ + "\n"@);
    } else {
        assert(blocks_with_blank_lines(prev) =~= Seq::<char>::empty());
        assert(blocks_with_blank_lines(us) =~= us.last() + "\n"@ + "\n"@);
    }
}

/// In Markdown every rendered cell contributes its own block followed by a
/// blank line, in cell order; the document is these pieces concatenated,
/// less the line terminator that would end the final blank line.
pub proof fn lemma_markdown_render_per_cell(cells: Seq<Cell>)
    requires
        units(cells, OutputFormat::Markdown).len() > 0,
    ensures
        render_cells(cells, OutputFormat::Markdown) + "\n"@ == blocks_with_blank_lines(
            units(cells, OutputFormat::Markdown),
        ),
{
    lemma_markdown_body_blocks(units(cells, OutputFormat::Markdown));
}

/// A cell whose type is neither "markdown" nor "code" contributes no text:
/// removing it from any place in the notebook leaves every rendering as it is.
pub proof fn lemma_other_cell_contributes_nothing(
    a: Seq<Cell>,
    c: Cell,
    b: Seq<Cell>,
    f: OutputFormat,
)
    requires
        kind_of_cell(c.cell_type@) == CellKind::Other,
    ensures
        render_cells(a + seq![c] + b, f) == render_cells(a + b, f),
{
    lemma_units_append(a, seq![c], f);
    lemma_units_append(a + seq![c], b, f);
    lemma_units_append(a, b, f);
    assert(seq![c].drop_last() =~= Seq::<Cell>::empty());
    assert(seq![c].last() == c);
    assert(crate::render::cell_unit(c, f) is None);
    assert(units(seq![c], f) == units(seq![c].drop_last(), f));
    assert(units(a, f) + units(seq![c], f) =~= units(a, f));
}

proof fn lemma_no_plain_text(entries: Seq<MimeEntry>)
    requires
        forall|k: int| 0 <= k < entries.len() ==> entries[k].mime@ != "text/plain"@,
    ensures
        plain_text_of(entries) is None,
    decreases entries.len(),
{
    if entries.len() > 0 {
        assert(forall|k: int|
            0 <= k < entries.drop_first().len() ==> entries.drop_first()[k] == entries[k + 1]);
        lemma_no_plain_text(entries.drop_first());
    }
}

/// A result or display output without a "text/plain" entry contributes
/// nothing to the Markdown rendering.
pub proof fn lemma_result_without_plain_text_is_silent(o: Output)
    requires
        kind_of_output(o.output_type@) == OutputKind::ExecuteResult || kind_of_output(
            o.output_type@,
        ) == OutputKind::DisplayData,
        forall|k: int| 0 <= k < o.data@.len() ==> o.data@[k].mime@ != "text/plain"@,
    ensures
        output_block(o) == Seq::<char>::empty(),
{
    lemma_no_plain_text(o.data@);
}

} // verus!
