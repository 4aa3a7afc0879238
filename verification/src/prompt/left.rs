//! The left prompt side: two tribal separators framing the machine status
//! sections, then the user, exit code, path and Git status sections.

use vstd::prelude::*;

use crate::datetime::{
    day_ordinal, month_abbreviation, spec_day_fraction, spec_day_ordinal, spec_month_abbreviation,
    spec_weekday_abbreviation, weekday_abbreviation, DayFraction, LocalDateTime,
};
use crate::git::{GitReference, GitRepository};
use crate::hardware::{Charge, ChargeStatus, Usage, UsageStatus};
use crate::path;
use crate::prompt::{
    color_symbol, show_symbol_when_root, show_symbols_for_exit_codes, spec_color_symbol,
    spec_show_for_exit_codes, spec_show_when_root, Color, ZSH_EXIT_CODE, ZSH_PERCENTAGE_SYMBOL,
};
use crate::text;

verus! {

/// The length of the prompt that is composed by constant section areas.
pub const SECTIONS_CONSTANT_LENGTH: u16 = 42;

/// An error of left prompt assembly, carrying the repository path that
/// caused it.
#[derive(Debug, Clone)]
pub enum PromptError {
    /// The repository path has no parent. Defensive: a repository path that
    /// is not the root always has a parent, so assembly never produces it.
    MalformedRepositoryPath(String),
    /// The repository path's parent does not lead to the current directory.
    CannotStripRepositoryPath(String),
}

/// The mathematical model of a `PromptError`: the characters of the path it
/// carries.
pub enum PromptErrorModel {
    MalformedRepositoryPath(Seq<char>),
    CannotStripRepositoryPath(Seq<char>),
}

impl View for PromptError {
    type V = PromptErrorModel;

    open spec fn view(&self) -> PromptErrorModel {
        match self {
            PromptError::MalformedRepositoryPath(p) => PromptErrorModel::MalformedRepositoryPath(
                p@,
            ),
            PromptError::CannotStripRepositoryPath(
                p,
            ) => PromptErrorModel::CannotStripRepositoryPath(p@),
        }
    }
}

/// The displayable message of a prompt assembly error.
pub open spec fn spec_prompt_error_message(error: PromptErrorModel) -> Seq<char> {
    match error {
        PromptErrorModel::MalformedRepositoryPath(p) => "bad use of malformed repository path \""@
            + p + "\"."@,
        PromptErrorModel::CannotStripRepositoryPath(
            p,
        ) => "can not strip prefix of repository path \""@ + p + "\"."@,
    }
}

impl PromptError {
    /// Gets the displayable message of the error.
    pub fn message(&self) -> (r: String)
        ensures
            r@ == spec_prompt_error_message(self@),
    {
        match self {
            PromptError::MalformedRepositoryPath(p) => {
                let mut s = String::from_str("bad use of malformed repository path \"");
                s.append(p.as_str());
                s.append("\".");
                s
            },
            PromptError::CannotStripRepositoryPath(p) => {
                let mut s = String::from_str("can not strip prefix of repository path \"");
                s.append(p.as_str());
                s.append("\".");
                s
            },
        }
    }
}

/// One cell of the top separator: `≥` in yellow on even columns, `v` in red
/// on odd ones.
pub open spec fn spec_top_separator_cell(column: nat) -> Seq<char> {
    if column % 2 == 0 {
        spec_color_symbol("≥"@, Color::Yellow)
    } else {
        spec_color_symbol("v"@, Color::Red)
    }
}

/// The first `width` cells of the top separator.
pub open spec fn spec_top_separator_cells(width: nat) -> Seq<char>
    decreases width,
{
    if width == 0 {
        Seq::<char>::empty()
    } else {
        spec_top_separator_cells((width - 1) as nat) + spec_top_separator_cell((width - 1) as nat)
    }
}

/// The whole top separator: one cell per terminal column, closed by the
/// `:«(` ornament.
pub open spec fn spec_top_separator(width: nat) -> Seq<char> {
    spec_top_separator_cells(width) + spec_color_symbol(":«("@, Color::Yellow)
}

/// Renders the prompt separator seen at its top, one tribal cell per
/// terminal column.
pub fn write_top_separator(terminal_width: u16) -> (r: String)
    ensures
        r@ == spec_top_separator(terminal_width as nat),
{
    let mut s = String::new();
    proof {
        assert(s@ =~= spec_top_separator_cells(0));
    }
    let mut column: u16 = 0;
    while column < terminal_width
        invariant
            column <= terminal_width,
            s@ == spec_top_separator_cells(column as nat),
        decreases terminal_width - column,
    {
        if column % 2 == 0 {
            s.append(color_symbol("≥", Color::Yellow).as_str());
        } else {
            s.append(color_symbol("v", Color::Red).as_str());
        }
        column = column + 1;
    }
    s.append(color_symbol(":«(", Color::Yellow).as_str());
    s
}

/// The text the local IP section displays: the address, or a placeholder
/// when none was found.
pub open spec fn spec_ip_text(ip: Option<Seq<char>>) -> Seq<char> {
    match ip {
        Some(address) => address,
        None => "No Address Found"@,
    }
}

/// The prompt section that shows the primary local IP address.
pub open spec fn spec_local_ip_section(ip: Option<Seq<char>>) -> Seq<char> {
    spec_color_symbol(" "@, Color::Blue) + " "@ + spec_ip_text(ip)
}

/// Renders the prompt section that shows the primary local IP address of
/// the machine, and accounts its length.
pub fn write_local_ip_section(ip: &Option<String>, sections_length: &mut u16) -> (r: String)
    requires
        *old(sections_length) + spec_ip_text(ip.deep_view()).len() <= u16::MAX,
    ensures
        r@ == spec_local_ip_section(ip.deep_view()),
        *final(sections_length) == *old(sections_length) + spec_ip_text(ip.deep_view()).len(),
{
    let address: &str = match ip {
        Some(address) => address.as_str(),
        None => "No Address Found",
    };
    let mut s = color_symbol(" ", Color::Blue);
    s.append(" ");
    s.append(address);
    let length = address.unicode_len();
    *sections_length = *sections_length + (length as u16);
    s
}

/// The color the disk usage gauge is painted with, by usage status.
pub open spec fn spec_disk_color(percentage: u8) -> Color {
    match crate::hardware::spec_usage_status(percentage) {
        UsageStatus::Low => Color::Green,
        UsageStatus::Moderate => Color::Yellow,
        UsageStatus::High => Color::Red,
    }
}

/// The prompt section that shows the disk usage and its status.
pub open spec fn spec_disk_section(usage: Usage) -> Seq<char> {
    "  "@ + spec_color_symbol("󰋊 "@, spec_disk_color(usage.0)) + text::spec_decimal(usage.0 as nat)
        + "%%"@
}

/// Renders the prompt section that shows the disk usage and its status, and
/// accounts the length of the percentage digits.
pub fn write_disk_section(usage: Usage, sections_length: &mut u16) -> (r: String)
    requires
        *old(sections_length) + 3 <= u16::MAX,
    ensures
        r@ == spec_disk_section(usage),
        *final(sections_length) == *old(sections_length) + text::spec_number_length(
            usage.0 as nat,
        ),
{
    proof {
        text::lemma_number_length_u8(usage.0);
    }
    let color = match usage.status() {
        UsageStatus::Low => Color::Green,
        UsageStatus::Moderate => Color::Yellow,
        UsageStatus::High => Color::Red,
    };
    let mut s = String::from_str("  ");
    s.append(color_symbol("󰋊 ", color).as_str());
    s.append(text::to_decimal(usage.0 as u64).as_str());
    s.append(ZSH_PERCENTAGE_SYMBOL);
    let digits = text::number_length(usage.0 as u64);
    *sections_length = *sections_length + (digits as u16);
    s
}

/// The colored battery symbol of a charge: its icon depends on the status
/// and on whether the battery is charging, its color on the status alone.
pub open spec fn spec_battery_symbol(charge: Charge) -> Seq<char> {
    match crate::hardware::spec_charge_status(charge.percentage) {
        ChargeStatus::Critical => spec_color_symbol(
            if charge.is_charging {
                "󰢟"@
            } else {
                "󰂎"@
            },
            Color::Red,
        ),
        ChargeStatus::Low => spec_color_symbol(
            if charge.is_charging {
                "󱊤"@
            } else {
                "󱊡"@
            },
            Color::Red,
        ),
        ChargeStatus::Moderate => spec_color_symbol(
            if charge.is_charging {
                "󱊥"@
            } else {
                "󱊢"@
            },
            Color::Yellow,
        ),
        ChargeStatus::High => spec_color_symbol(
            if charge.is_charging {
                "󱊦"@
            } else {
                "󱊣"@
            },
            Color::Green,
        ),
    }
}

/// The prompt section that shows the battery charge and its status; nothing
/// when the machine has no battery.
pub open spec fn spec_battery_section(charge: Option<Charge>) -> Seq<char> {
    match charge {
        None => Seq::<char>::empty(),
        Some(charge) => "  "@ + spec_battery_symbol(charge) + " "@ + text::spec_decimal(
            charge.percentage as nat,
        ) + "%%"@,
    }
}

/// What the battery section adds to the accounted length: the percentage
/// digits and five fixed cells, or nothing without a battery.
pub open spec fn spec_battery_added_length(charge: Option<Charge>) -> nat {
    match charge {
        None => 0,
        Some(charge) => text::spec_number_length(charge.percentage as nat) + 5,
    }
}

/// Renders the prompt section that shows the battery charge and its status,
/// and accounts its length.
pub fn write_battery_section(charge: &Option<Charge>, sections_length: &mut u16) -> (r: String)
    requires
        *old(sections_length) + 8 <= u16::MAX,
    ensures
        r@ == spec_battery_section(*charge),
        *final(sections_length) == *old(sections_length) + spec_battery_added_length(*charge),
{
    let charge = match charge {
        Some(charge) => *charge,
        None => {
            let r = String::new();
            proof {
                assert(r@ =~= Seq::<char>::empty());
            }
            return r;
        },
    };
    proof {
        text::lemma_number_length_u8(charge.percentage);
    }
    let symbol = match charge.status() {
        ChargeStatus::Critical => color_symbol(
            if charge.is_charging {
                "󰢟"
            } else {
                "󰂎"
            },
            Color::Red,
        ),
        ChargeStatus::Low => color_symbol(
            if charge.is_charging {
                "󱊤"
            } else {
                "󱊡"
            },
            Color::Red,
        ),
        ChargeStatus::Moderate => color_symbol(
            if charge.is_charging {
                "󱊥"
            } else {
                "󱊢"
            },
            Color::Yellow,
        ),
        ChargeStatus::High => color_symbol(
            if charge.is_charging {
                "󱊦"
            } else {
                "󱊣"
            },
            Color::Green,
        ),
    };
    let mut s = String::from_str("  ");
    s.append(symbol.as_str());
    s.append(" ");
    s.append(text::to_decimal(charge.percentage as u64).as_str());
    s.append(ZSH_PERCENTAGE_SYMBOL);
    let digits = text::number_length(charge.percentage as u64);
    *sections_length = *sections_length + (digits as u16) + 5;
    s
}

/// The prompt section that shows a calendar with the weekday, month, day of
/// month and its ordinal.
pub open spec fn spec_calendar_section(date_time: LocalDateTime) -> Seq<char> {
    "  "@ + spec_color_symbol("󰃭 "@, Color::Red) + "("@ + spec_weekday_abbreviation(
        date_time.weekday,
    ) + ") "@ + spec_month_abbreviation(date_time.month) + " "@ + text::spec_two_digits(
        date_time.day as nat,
    ) + spec_day_ordinal(date_time.day as int)
}

/// Renders the prompt section that shows a calendar with the weekday, month
/// and day of month.
pub fn write_calendar_section(date_time: &LocalDateTime) -> (r: String)
    requires
        date_time.well_formed(),
    ensures
        r@ == spec_calendar_section(*date_time),
{
    let mut s = String::from_str("  ");
    s.append(color_symbol("󰃭 ", Color::Red).as_str());
    s.append("(");
    s.append(weekday_abbreviation(date_time.weekday));
    s.append(") ");
    s.append(month_abbreviation(date_time.month));
    s.append(" ");
    s.append(text::two_digits(date_time.day as u64).as_str());
    s.append(day_ordinal(date_time.day));
    s
}

/// The colored symbol of the clock section, by the fraction of the day the
/// hour falls in.
pub open spec fn spec_clock_symbol(hour: u8) -> Seq<char> {
    match spec_day_fraction(hour) {
        DayFraction::Dawn => spec_color_symbol("󰭎 "@, Color::Cyan),
        DayFraction::Morning => spec_color_symbol("󰖨 "@, Color::Red),
        DayFraction::Afternoon => spec_color_symbol(" "@, Color::Blue),
        DayFraction::Night => spec_color_symbol("󰽥 "@, Color::Yellow),
    }
}

/// The prompt section that shows a 24-hours clock with the hours and
/// minutes.
pub open spec fn spec_clock_section(date_time: LocalDateTime) -> Seq<char> {
    "  "@ + spec_clock_symbol(date_time.hour) + text::spec_two_digits(date_time.hour as nat) + "h"@
        + text::spec_two_digits(date_time.minute as nat) + "m"@
}

/// Renders the prompt section that shows a 24-hours clock with the hours
/// and minutes.
pub fn write_clock_section(date_time: &LocalDateTime) -> (r: String)
    requires
        date_time.well_formed(),
    ensures
        r@ == spec_clock_section(*date_time),
{
    let symbol = match DayFraction::from(date_time.hour) {
        DayFraction::Dawn => color_symbol("󰭎 ", Color::Cyan),
        DayFraction::Morning => color_symbol("󰖨 ", Color::Red),
        DayFraction::Afternoon => color_symbol(" ", Color::Blue),
        DayFraction::Night => color_symbol("󰽥 ", Color::Yellow),
    };
    let mut s = String::from_str("  ");
    s.append(symbol.as_str());
    s.append(text::two_digits(date_time.hour as u64).as_str());
    s.append("h");
    s.append(text::two_digits(date_time.minute as u64).as_str());
    s.append("m");
    s
}

/// One cell of the middle separator: `-` in red on even columns, `=` in
/// yellow on odd ones.
pub open spec fn spec_middle_separator_cell(column: nat) -> Seq<char> {
    if column % 2 == 0 {
        spec_color_symbol("-"@, Color::Red)
    } else {
        spec_color_symbol("="@, Color::Yellow)
    }
}

/// The first `width` cells of the middle separator.
pub open spec fn spec_middle_separator_cells(width: nat) -> Seq<char>
    decreases width,
{
    if width == 0 {
        Seq::<char>::empty()
    } else {
        spec_middle_separator_cells((width - 1) as nat) + spec_middle_separator_cell(
            (width - 1) as nat,
        )
    }
}

/// The whole middle separator: the `)»:` ornament, then one cell per
/// terminal column the sections left free.
pub open spec fn spec_middle_separator(width: nat, sections_length: nat) -> Seq<char> {
    spec_color_symbol(")»:"@, Color::Yellow) + spec_middle_separator_cells(
        if width > sections_length {
            (width - sections_length) as nat
        } else {
            0
        },
    )
}

/// Renders the prompt separator used to fill the space between the second
/// and third section lines.
pub fn write_middle_separator(terminal_width: u16, sections_length: u16) -> (r: String)
    ensures
        r@ == spec_middle_separator(terminal_width as nat, sections_length as nat),
{
    let mut s = color_symbol(")»:", Color::Yellow);
    let free: u16 = if terminal_width > sections_length {
        terminal_width - sections_length
    } else {
        0
    };
    let ghost prefix = spec_color_symbol(")»:"@, Color::Yellow);
    let mut column: u16 = 0;
    proof {
        assert(s@ =~= prefix + spec_middle_separator_cells(0));
    }
    while column < free
        invariant
            column <= free,
            s@ == prefix + spec_middle_separator_cells(column as nat),
            prefix == spec_color_symbol(")»:"@, Color::Yellow),
        decreases free - column,
    {
        if column % 2 == 0 {
            s.append(color_symbol("-", Color::Red).as_str());
        } else {
            s.append(color_symbol("=", Color::Yellow).as_str());
        }
        column = column + 1;
    }
    s
}

/// The prompt section that shows a decorator when the user is `root`.
pub open spec fn spec_user_permissions_section() -> Seq<char> {
    spec_show_when_root(
        spec_color_symbol("{"@, Color::Yellow) + spec_color_symbol("#"@, Color::Red)
            + spec_color_symbol("}"@, Color::Yellow),
    )
}

/// Renders the prompt section that shows a decorator when the user is
/// `root`.
pub fn write_user_permissions_section() -> (r: String)
    ensures
        r@ == spec_user_permissions_section(),
{
    let mut inner = color_symbol("{", Color::Yellow);
    inner.append(color_symbol("#", Color::Red).as_str());
    inner.append(color_symbol("}", Color::Yellow).as_str());
    show_symbol_when_root(inner.as_str())
}

/// The prompt section that shows different decorators for success and error
/// exit codes.
pub open spec fn spec_exit_code_section() -> Seq<char> {
    spec_color_symbol("{"@, Color::Yellow) + spec_show_for_exit_codes(
        spec_color_symbol("%?"@, Color::Yellow),
        spec_color_symbol("%?"@, Color::Red),
    ) + spec_color_symbol("}⤐ "@, Color::Yellow)
}

/// Renders the prompt section that shows different decorators for success
/// and error exit codes.
pub fn write_exit_code_section() -> (r: String)
    ensures
        r@ == spec_exit_code_section(),
{
    let mut s = color_symbol("{", Color::Yellow);
    let on_success = color_symbol(ZSH_EXIT_CODE, Color::Yellow);
    let on_error = color_symbol(ZSH_EXIT_CODE, Color::Red);
    s.append(show_symbols_for_exit_codes(on_success.as_str(), on_error.as_str()).as_str());
    s.append(color_symbol("}⤐ ", Color::Yellow).as_str());
    s
}

/// The prompt section that shows the active Python virtual environment
/// name: the last component of its path, or nothing.
pub open spec fn spec_virtual_env_section(virtual_env: Option<Seq<char>>) -> Seq<char> {
    match virtual_env {
        None => Seq::<char>::empty(),
        Some(value) => match path::spec_file_name(value) {
            None => Seq::<char>::empty(),
            Some(name) => " ("@ + name + ")"@,
        },
    }
}

/// Renders the prompt section that shows the active Python virtual
/// environment name.
pub fn write_virtual_env_section(virtual_env: &Option<String>) -> (r: String)
    ensures
        r@ == spec_virtual_env_section(virtual_env.deep_view()),
{
    let empty_result = String::new();
    proof {
        assert(empty_result@ =~= Seq::<char>::empty());
    }
    match virtual_env {
        None => empty_result,
        Some(value) => match path::file_name_of(value.as_str()) {
            None => empty_result,
            Some(name) => {
                let mut s = String::from_str(" (");
                s.append(name.as_str());
                s.append(")");
                s
            },
        },
    }
}

/// The prompt section that shows the current directory path: abbreviated to
/// `%~` outside repositories and for a repository at the root, else the
/// current directory relative to the repository's parent, prefixed `@/`.
pub open spec fn spec_path_section(
    current_directory: Seq<char>,
    repository: Option<GitRepository>,
) -> Result<Seq<char>, PromptErrorModel> {
    match repository {
        None => Ok(" "@ + spec_color_symbol("%~"@, Color::Red)),
        Some(repository) => match path::spec_parent(repository.path@) {
            None => Ok(" "@ + spec_color_symbol("%~"@, Color::Red)),
            Some(parent) => match path::spec_strip_path_prefix(current_directory, parent) {
                Some(rest) => Ok(" "@ + spec_color_symbol("@/"@ + rest, Color::Red)),
                None => Err(PromptErrorModel::CannotStripRepositoryPath(repository.path@)),
            },
        },
    }
}

/// Renders the prompt section that shows the current directory path,
/// abbreviated inside Git repositories.
pub fn write_path_section(current_directory: &str, repository: &Option<GitRepository>) -> (r:
    Result<String, PromptError>)
    ensures
        match r {
            Ok(s) => spec_path_section(current_directory@, *repository) == Ok::<
                Seq<char>,
                PromptErrorModel,
            >(s@),
            Err(e) => spec_path_section(current_directory@, *repository) == Err::<
                Seq<char>,
                PromptErrorModel,
            >(e@),
        },
{
    let repository = match repository {
        Some(repository) => repository,
        None => {
            let mut s = String::from_str(" ");
            s.append(color_symbol("%~", Color::Red).as_str());
            return Ok(s);
        },
    };
    if path::is_root(repository.path.as_str()) {
        let mut s = String::from_str(" ");
        s.append(color_symbol("%~", Color::Red).as_str());
        return Ok(s);
    }
    let parent = match path::parent_of(repository.path.as_str()) {
        Some(parent) => parent,
        None => {
            return Err(PromptError::MalformedRepositoryPath(repository.path.clone()));
        },
    };
    match path::strip_path_prefix(current_directory, parent.as_str()) {
        Some(rest) => {
            let mut inner = String::from_str("@/");
            inner.append(rest.as_str());
            let mut s = String::from_str(" ");
            s.append(color_symbol(inner.as_str(), Color::Red).as_str());
            Ok(s)
        },
        None => Err(PromptError::CannotStripRepositoryPath(repository.path.clone())),
    }
}

/// The characters a Git reference displays: the branch name, or the rebase
/// hash.
pub open spec fn spec_reference_text(reference: GitReference) -> Seq<char> {
    match reference {
        GitReference::Branch(name) => name@,
        GitReference::RebaseHash(hash) => hash@,
    }
}

/// The prompt section that shows the active branch name, a rebase
/// decorator while one is in progress, and a dirty decorator.
pub open spec fn spec_git_section(repository: Option<GitRepository>) -> Seq<char> {
    match repository {
        None => Seq::<char>::empty(),
        Some(repository) => spec_color_symbol(":«("@, Color::Yellow) + (
        if repository.reference is RebaseHash {
            spec_color_symbol("@rebase"@, Color::Magenta) + ":"@
        } else {
            Seq::<char>::empty()
        }) + spec_reference_text(repository.reference) + spec_color_symbol(")»"@, Color::Yellow) + (
        if repository.is_dirty {
            " "@ + spec_color_symbol("✗"@, Color::Cyan)
        } else {
            Seq::<char>::empty()
        }),
    }
}

/// Renders the prompt section that shows the active branch name and a
/// decorator when the repository is dirty.
pub fn write_git_section(repository: &Option<GitRepository>) -> (r: String)
    ensures
        r@ == spec_git_section(*repository),
{
    let repository = match repository {
        Some(repository) => repository,
        None => {
            let r = String::new();
            proof {
                assert(r@ =~= Seq::<char>::empty());
            }
            return r;
        },
    };
    let mut s = color_symbol(":«(", Color::Yellow);
    if let GitReference::RebaseHash(_) = &repository.reference {
        s.append(color_symbol("@rebase", Color::Magenta).as_str());
        s.append(":");
    }
    match &repository.reference {
        GitReference::Branch(name) => s.append(name.as_str()),
        GitReference::RebaseHash(hash) => s.append(hash.as_str()),
    }
    s.append(color_symbol(")»", Color::Yellow).as_str());
    if repository.is_dirty {
        s.append(" ");
        s.append(color_symbol("✗", Color::Cyan).as_str());
    }
    s
}

/// The prompt section that shows a decorator when the user does not own the
/// current directory, that is, has no write permissions on it.
pub open spec fn spec_directory_ownership_section(owns_current_directory: bool) -> Seq<char> {
    if owns_current_directory {
        Seq::<char>::empty()
    } else {
        " "@ + spec_color_symbol(""@, Color::Cyan)
    }
}

/// Renders the prompt section that shows a decorator when the user does not
/// own the current directory.
pub fn write_directory_ownership_section(owns_current_directory: bool) -> (r: String)
    ensures
        r@ == spec_directory_ownership_section(owns_current_directory),
{
    if owns_current_directory {
        let r = String::new();
        proof {
            assert(r@ =~= Seq::<char>::empty());
        }
        r
    } else {
        let mut s = String::from_str(" ");
        s.append(color_symbol("", Color::Cyan).as_str());
        s
    }
}

/// Everything the left prompt is rendered from, gathered by whoever queried
/// the machine.
#[derive(Debug, Clone)]
pub struct LeftPromptInput {
    /// The terminal width, in columns.
    pub terminal_width: u16,
    /// The primary local IP address, if one was found.
    pub local_ip: Option<String>,
    /// The disk usage of the root file system.
    pub disk_usage: Usage,
    /// The charge of the battery, if the machine has one.
    pub battery_charge: Option<Charge>,
    /// The current local date-time.
    pub date_time: LocalDateTime,
    /// The active Python virtual environment path, if any.
    pub virtual_env: Option<String>,
    /// The current directory path.
    pub current_directory: String,
    /// The enclosing Git repository, if any.
    pub repository: Option<GitRepository>,
    /// Whether the user has write permissions on the current directory.
    pub owns_current_directory: bool,
}

/// The accounted length of the variable sections: the constant areas, the
/// IP text, the disk percentage digits and the battery digits.
pub open spec fn spec_sections_length(input: LeftPromptInput) -> nat {
    (SECTIONS_CONSTANT_LENGTH + spec_ip_text(input.local_ip.deep_view()).len()
        + text::spec_number_length(input.disk_usage.0 as nat) + spec_battery_added_length(
        input.battery_charge,
    )) as nat
}

/// The whole left prompt, or the error its path section produces.
pub open spec fn spec_left_prompt(input: LeftPromptInput) -> Result<Seq<char>, PromptErrorModel> {
    match spec_path_section(input.current_directory@, input.repository) {
        Err(error) => Err(error),
        Ok(path_text) => Ok(
            spec_top_separator(input.terminal_width as nat) + spec_local_ip_section(
                input.local_ip.deep_view(),
            ) + spec_disk_section(input.disk_usage) + spec_battery_section(input.battery_charge)
                + spec_calendar_section(input.date_time) + spec_clock_section(input.date_time)
                + spec_middle_separator(input.terminal_width as nat, spec_sections_length(input))
                + spec_user_permissions_section() + spec_exit_code_section()
                + spec_virtual_env_section(input.virtual_env.deep_view()) + path_text
                + spec_git_section(input.repository) + spec_directory_ownership_section(
                input.owns_current_directory,
            ) + " \n"@,
        ),
    }
}

/// Renders the whole left prompt from what was queried of the machine.
pub fn left_prompt(input: &LeftPromptInput) -> (r: Result<String, PromptError>)
    requires
        input.date_time.well_formed(),
        spec_ip_text(input.local_ip.deep_view()).len() + SECTIONS_CONSTANT_LENGTH + 11
            <= u16::MAX,
    ensures
        match r {
            Ok(s) => spec_left_prompt(*input) == Ok::<Seq<char>, PromptErrorModel>(s@),
            Err(e) => spec_left_prompt(*input) == Err::<Seq<char>, PromptErrorModel>(e@),
        },
{
    proof {
        text::lemma_number_length_u8(input.disk_usage.0);
    }
    let mut sections_length: u16 = SECTIONS_CONSTANT_LENGTH;
    let mut s = write_top_separator(input.terminal_width);
    s.append(write_local_ip_section(&input.local_ip, &mut sections_length).as_str());
    s.append(write_disk_section(input.disk_usage, &mut sections_length).as_str());
    s.append(write_battery_section(&input.battery_charge, &mut sections_length).as_str());
    s.append(write_calendar_section(&input.date_time).as_str());
    s.append(write_clock_section(&input.date_time).as_str());
    s.append(write_middle_separator(input.terminal_width, sections_length).as_str());
    s.append(write_user_permissions_section().as_str());
    s.append(write_exit_code_section().as_str());
    s.append(write_virtual_env_section(&input.virtual_env).as_str());
    match write_path_section(input.current_directory.as_str(), &input.repository) {
        Err(error) => {
            return Err(error);
        },
        Ok(path_text) => {
            s.append(path_text.as_str());
        },
    }
    s.append(write_git_section(&input.repository).as_str());
    s.append(write_directory_ownership_section(input.owns_current_directory).as_str());
    s.append(" \n");
    Ok(s)
}

} // verus!
