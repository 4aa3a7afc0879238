//! The right prompt side: the directory entry type counters and the
//! background jobs decorator.

use vstd::prelude::*;

use num_format::ToFormattedString as _;

use crate::directory::TypeCounts;
use crate::prompt::{
    color_symbol, show_symbol_when_job, spec_color_symbol, spec_show_when_job, Color,
    ZSH_JOBS_COUNT,
};

verus! {

/// What num-format renders a count as in the `en` locale; it depends on the
/// count alone.
pub uninterp spec fn grouped_of(count: nat) -> Seq<char>;

/// Relies on num_format::ToFormattedString::to_formatted_string with the
/// `en` locale: renders a count in decimal with `,` between groups of three
/// digits; the result depends on the count alone.
#[verifier::external_body]
fn format_grouped(count: usize) -> (r: String)
    ensures
        r@ == grouped_of(count as nat),
{
    count.to_formatted_string(&num_format::Locale::en)
}

/// One directory entry type counter: nothing when the count is zero, else a
/// space, the possibly colored symbol of the type, and the grouped count.
pub open spec fn spec_entry_type_count(symbol: Seq<char>, color: Option<Color>, count: nat) -> Seq<
    char,
> {
    if count == 0 {
        Seq::<char>::empty()
    } else {
        " "@ + (match color {
            Some(color) => spec_color_symbol(symbol, color),
            None => symbol,
        }) + grouped_of(count)
    }
}

/// Renders a single directory entry type count; a count of zero renders
/// nothing.
pub fn write_entry_type_count(symbol: &str, color: Option<Color>, count: usize) -> (r: String)
    ensures
        r@ == spec_entry_type_count(symbol@, color, count as nat),
{
    if count == 0 {
        let r = String::new();
        proof {
            assert(r@ =~= Seq::<char>::empty());
        }
        return r;
    }
    let mut s = String::from_str(" ");
    match color {
        Some(color) => s.append(color_symbol(symbol, color).as_str()),
        None => s.append(symbol),
    }
    s.append(format_grouped(count).as_str());
    s
}

/// The prompt section that shows the total of each entry type: directories,
/// files, sockets, fifos, blocks, characters, symlinks, hiddens and
/// temporaries, in that order, each with its symbol and color.
pub open spec fn spec_entry_type_counts_section(type_counts: TypeCounts) -> Seq<char> {
    spec_entry_type_count(" "@, Some(Color::Yellow), type_counts.total_directories as nat)
        + spec_entry_type_count(" "@, None, type_counts.total_files as nat)
        + spec_entry_type_count("󱄙 "@, Some(Color::Cyan), type_counts.total_sockets as nat)
        + spec_entry_type_count("󰟦 "@, Some(Color::Blue), type_counts.total_fifos as nat)
        + spec_entry_type_count("󰇖 "@, Some(Color::Magenta), type_counts.total_blocks as nat)
        + spec_entry_type_count("󱣴 "@, Some(Color::Green), type_counts.total_characters as nat)
        + spec_entry_type_count("󰌷 "@, Some(Color::Blue), type_counts.total_symlinks as nat)
        + spec_entry_type_count("󰈉 "@, Some(Color::Red), type_counts.total_hiddens as nat)
        + spec_entry_type_count("󱣹 "@, Some(Color::Magenta), type_counts.total_temporaries as nat)
}

/// Renders the prompt section that shows the total of each entry type in
/// the scanned directory.
pub fn write_entry_type_counts_section(type_counts: &TypeCounts) -> (r: String)
    ensures
        r@ == spec_entry_type_counts_section(*type_counts),
{
    let mut s = write_entry_type_count(" ", Some(Color::Yellow), type_counts.total_directories);
    s.append(write_entry_type_count(" ", None, type_counts.total_files).as_str());
    s.append(write_entry_type_count("󱄙 ", Some(Color::Cyan), type_counts.total_sockets).as_str());
    s.append(write_entry_type_count("󰟦 ", Some(Color::Blue), type_counts.total_fifos).as_str());
    s.append(write_entry_type_count("󰇖 ", Some(Color::Magenta), type_counts.total_blocks).as_str());
    s.append(
        write_entry_type_count("󱣴 ", Some(Color::Green), type_counts.total_characters).as_str(),
    );
    s.append(write_entry_type_count("󰌷 ", Some(Color::Blue), type_counts.total_symlinks).as_str());
    s.append(write_entry_type_count("󰈉 ", Some(Color::Red), type_counts.total_hiddens).as_str());
    s.append(
        write_entry_type_count("󱣹 ", Some(Color::Magenta), type_counts.total_temporaries).as_str(),
    );
    s
}

/// The prompt section that displays the total of jobs running in the
/// background, shown only when jobs are running.
pub open spec fn spec_jobs_section() -> Seq<char> {
    spec_show_when_job(" "@ + spec_color_symbol(""@, Color::Magenta) + " "@ + "%j"@)
}

/// Renders the prompt section that displays the total of jobs running in
/// the background.
pub fn write_jobs_section() -> (r: String)
    ensures
        r@ == spec_jobs_section(),
{
    let mut inner = String::from_str(" ");
    inner.append(color_symbol("", Color::Magenta).as_str());
    inner.append(" ");
    inner.append(ZSH_JOBS_COUNT);
    show_symbol_when_job(inner.as_str())
}

/// The whole right prompt: the entry type counters, the jobs decorator and
/// a final line break.
pub open spec fn spec_right_prompt(type_counts: TypeCounts) -> Seq<char> {
    spec_entry_type_counts_section(type_counts) + spec_jobs_section() + "\n"@
}

/// Renders the right prompt from the entry type counts of the scanned
/// directory.
pub fn right_prompt(type_counts: &TypeCounts) -> (r: String)
    ensures
        r@ == spec_right_prompt(*type_counts),
{
    let mut s = write_entry_type_counts_section(type_counts);
    s.append(write_jobs_section().as_str());
    s.append("\n");
    s
}

} // verus!
