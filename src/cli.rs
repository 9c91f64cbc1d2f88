use vstd::prelude::*;

verus! {

/// The renderings a notebook can be converted to.
#[derive(Clone, Copy, Debug, PartialEq, Eq, Structural)]
pub enum OutputFormat {
    Text,
    Html,
    Markdown,
}

/// What a conversion run was asked to do: the target format, and where to
/// read and write (standard streams where a path is absent).
#[derive(Clone, Debug)]
pub struct Args {
    pub format: OutputFormat,
    pub input: Option<String>,
    pub output: Option<String>,
}

/// Assembles the run's settings from what the command line gave; the format
/// defaults to plain text when none was chosen.
pub fn get_args(format: Option<OutputFormat>, input: Option<String>, output: Option<String>) -> (r: Args)
    ensures
        r.format == (match format {
            Some(f) => f,
            None => OutputFormat::Text,
        }),
        r.input == input,
        r.output == output,
{
    let format = match format {
        Some(f) => f,
        None => OutputFormat::Text,
    };
    Args { format, input, output }
}

} // verus!
