//! Filling a markup template at run time.

use dyn_fmt::AsStrFormatExt;
use vstd::prelude::*;

verus! {

/// The text that `dyn_fmt` makes of a template and its arguments. In a
/// well-formed template each `{}` takes the next argument, or nothing once
/// the arguments have run out, and `{{` and `}}` stand for single braces;
/// what becomes of a lone brace is the crate's own rule.
pub uninterp spec fn dyn_format(template: Seq<char>, args: Seq<Seq<char>>) -> Seq<char>;

/// Calls `dyn_fmt::AsStrFormatExt::format` on `template` with `args`.
///
/// The contract names the result and claims that it depends on the
/// template and the arguments alone. The call returns for every input.
#[verifier::external_body]
fn format_template(template: &str, args: &Vec<String>) -> (text: String)
    ensures
        text@ == dyn_format(template@, args@.map_values(|arg: String| arg@)),
{
    template.format(args.iter())
}

/// The label that shows `percent` in the markup `template`.
pub fn percentage_label(template: &str, percent: &str) -> (label: String)
    ensures
        label@ == dyn_format(template@, seq![percent@]),
{
    let mut args: Vec<String> = Vec::new();
    args.push(percent.to_owned());
    assert(args@.map_values(|arg: String| arg@) =~= seq![percent@]);
    format_template(template, &args)
}

} // verus!
