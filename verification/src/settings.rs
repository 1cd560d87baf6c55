use vstd::prelude::*;

use crate::options::{
    _rewrite_options_to_implement_color_only,
    _rewrite_style_strings_to_honor_deprecated_options,
    spec_color_only,
    spec_rewrite_deprecated,
    Opt,
    OptModel,
    StyleConflict,
};
use crate::section_style::{ascii_lowercase, lowercase, to_lowercase};
use crate::text::{opt_str_view, str_eq};

verus! {

// ---------------------------------------------------------------------------
// Validity of --light, --dark and --theme
// ---------------------------------------------------------------------------

/// What is known of a theme name (that of `--theme`, or that of `BAT_THEME`),
/// as the syntax highlighting assets and theme lists tell it.
#[derive(Clone, Copy, Debug, PartialEq, Eq, Structural)]
pub struct ThemeFacts {
    /// The name turns syntax highlighting off (such as `none`).
    pub is_no_syntax_highlighting: bool,
    /// The highlighting assets hold a theme of this name.
    pub is_available: bool,
    /// The theme is a light one.
    pub is_light: bool,
}

/// An invalid combination of `--light`, `--dark` and `--theme`. The
/// `BAT_THEME` environment variable never makes the options invalid.
#[derive(Clone, Copy, Debug, PartialEq, Eq, Structural)]
pub enum ValidityError {
    /// `--light` and `--dark` cannot be used together.
    LightAndDark,
    /// The theme is not one of the available themes.
    InvalidTheme,
    /// A light theme was chosen, with `--dark`.
    LightThemeWithDark,
    /// A dark theme was chosen, with `--light`.
    DarkThemeWithLight,
}

/// Whether the options are valid, and the first reason they are not. Only the
/// theme given by `--theme` is checked.
pub open spec fn spec_check_validity(o: OptModel, theme: ThemeFacts) -> Result<(), ValidityError> {
    if o.light && o.dark {
        Err(ValidityError::LightAndDark)
    } else if o.theme is Some && !theme.is_no_syntax_highlighting {
        if !theme.is_available {
            Err(ValidityError::InvalidTheme)
        } else if theme.is_light && o.dark {
            Err(ValidityError::LightThemeWithDark)
        } else if !theme.is_light && o.light {
            Err(ValidityError::DarkThemeWithLight)
        } else {
            Ok(())
        }
    } else {
        Ok(())
    }
}

/// Checks that `--light` and `--dark` are not both given, that a theme (one
/// that does not turn highlighting off) is available, and that a light theme
/// is not combined with `--dark` nor a dark one with `--light`. `theme` tells
/// what is known of the theme that `opt.theme` (`--theme`) names.
pub fn _check_validity(opt: &Opt, theme: ThemeFacts) -> (res: Result<(), ValidityError>)
    ensures
        res == spec_check_validity(opt@, theme),
{
    if opt.light && opt.dark {
        return Err(ValidityError::LightAndDark);
    }
    if opt.theme.is_some() && !theme.is_no_syntax_highlighting {
        if !theme.is_available {
            return Err(ValidityError::InvalidTheme);
        }
        if theme.is_light && opt.dark {
            return Err(ValidityError::LightThemeWithDark);
        } else if !theme.is_light && opt.light {
            return Err(ValidityError::DarkThemeWithLight);
        }
    }
    Ok(())
}

// ---------------------------------------------------------------------------
// The theme in effect
// ---------------------------------------------------------------------------

/// Whether a theme name turns syntax highlighting off: it is `none`, in any
/// case (`--theme=none`).
pub open spec fn spec_is_no_syntax_highlighting_theme_name(theme: Seq<char>) -> bool {
    lowercase(theme) == "none"@
}

/// Decides whether a theme name turns syntax highlighting off: its lowercase
/// form is `none`.
pub fn is_no_syntax_highlighting_theme_name(theme: &str) -> (res: bool)
    ensures
        res == spec_is_no_syntax_highlighting_theme_name(theme@),
        vstd::utf8::is_ascii_chars(theme@) ==> res == (ascii_lowercase(theme@) == "none"@),
{
    let lower = to_lowercase(theme);
    str_eq(lower.as_str(), "none")
}

/// Whether a theme name may be used: it names an available theme, or it
/// turns syntax highlighting off.
pub open spec fn is_valid_theme_name(facts: ThemeFacts) -> bool {
    facts.is_available || facts.is_no_syntax_highlighting
}

/// The options with the theme in effect: the one given by `--theme`;
/// otherwise the `BAT_THEME` value if it is a valid theme name; otherwise
/// none. An invalid `BAT_THEME` value is ignored.
pub open spec fn spec_resolve_theme(o: OptModel, bat_theme: ThemeFacts) -> OptModel {
    if o.theme is None && o.bat_theme is Some && is_valid_theme_name(bat_theme) {
        OptModel { theme: o.bat_theme, ..o }
    } else {
        o
    }
}

/// Takes the theme from `BAT_THEME` when `--theme` is not given and the
/// variable holds a valid theme name; `bat_theme` tells what is known of
/// the theme that `opt.bat_theme` names.
pub fn _resolve_theme(opt: &mut Opt, bat_theme: ThemeFacts)
    ensures
        final(opt)@ == spec_resolve_theme(old(opt)@, bat_theme),
{
    if opt.theme.is_none() && (bat_theme.is_available || bat_theme.is_no_syntax_highlighting) {
        let env_theme: Option<String> = match &opt.bat_theme {
            Some(t) => Some(t.clone()),
            None => None,
        };
        if env_theme.is_some() {
            opt.theme = env_theme;
        }
    }
}

// ---------------------------------------------------------------------------
// --paging and --24-bit-color
// ---------------------------------------------------------------------------

/// When a pager is used.
#[derive(Clone, Copy, Debug, PartialEq, Eq, Structural)]
pub enum PagingMode {
    Always,
    Never,
    QuitIfOneScreen,
}

/// The paging mode that a `--paging` value selects: `always`, `never`, or
/// `auto` (quit if the output fits on one screen).
pub open spec fn spec_paging_mode(s: Seq<char>) -> Option<PagingMode> {
    if s == "always"@ {
        Some(PagingMode::Always)
    } else if s == "never"@ {
        Some(PagingMode::Never)
    } else if s == "auto"@ {
        Some(PagingMode::QuitIfOneScreen)
    } else {
        None
    }
}

/// Parses a `--paging` value; `None` for any other value than `always`,
/// `never` and `auto`.
pub fn parse_paging_mode(s: &str) -> (res: Option<PagingMode>)
    ensures
        res == spec_paging_mode(s@),
{
    if str_eq(s, "always") {
        Some(PagingMode::Always)
    } else if str_eq(s, "never") {
        Some(PagingMode::Never)
    } else if str_eq(s, "auto") {
        Some(PagingMode::QuitIfOneScreen)
    } else {
        None
    }
}

/// Whether the terminal supports 24-bit color: the `COLORTERM` environment
/// variable is `truecolor` or `24bit`.
pub open spec fn spec_is_truecolor_terminal(colorterm: Option<Seq<char>>) -> bool {
    match colorterm {
        Some(c) => c == "truecolor"@ || c == "24bit"@,
        None => false,
    }
}

/// Decides from the value of `COLORTERM` (`None` when it is not set) whether
/// the terminal supports 24-bit color.
pub fn is_truecolor_terminal(colorterm: Option<&str>) -> (res: bool)
    ensures
        res == spec_is_truecolor_terminal(opt_str_view(colorterm)),
{
    match colorterm {
        Some(c) => str_eq(c, "truecolor") || str_eq(c, "24bit"),
        None => false,
    }
}

/// Whether 24-bit color codes are emitted for a `--24-bit-color` value:
/// `always`, `never`, or `auto` (as `COLORTERM` says).
pub open spec fn spec_true_color(s: Seq<char>, colorterm: Option<Seq<char>>) -> Option<bool> {
    if s == "always"@ {
        Some(true)
    } else if s == "never"@ {
        Some(false)
    } else if s == "auto"@ {
        Some(spec_is_truecolor_terminal(colorterm))
    } else {
        None
    }
}

/// Parses a `--24-bit-color` value; `None` for any other value than
/// `always`, `never` and `auto`.
pub fn parse_true_color(s: &str, colorterm: Option<&str>) -> (res: Option<bool>)
    ensures
        res == spec_true_color(s@, opt_str_view(colorterm)),
{
    if str_eq(s, "always") {
        Some(true)
    } else if str_eq(s, "never") {
        Some(false)
    } else if str_eq(s, "auto") {
        Some(is_truecolor_terminal(colorterm))
    } else {
        None
    }
}

/// The width available for output: one column less than the terminal, in
/// case the pager shows a status column.
pub fn available_terminal_width(terminal_columns: u16) -> (res: usize)
    requires
        terminal_columns >= 1,
    ensures
        res == terminal_columns - 1,
{
    (terminal_columns - 1) as usize
}

// ---------------------------------------------------------------------------
// Processing the command line
// ---------------------------------------------------------------------------

/// Why the command-line options were refused.
#[derive(Clone, Copy, Debug, PartialEq, Eq, Structural)]
pub enum CliError {
    Validity(ValidityError),
    StyleConflict(StyleConflict),
    /// `--paging` is not `always`, `never` nor `auto`.
    InvalidPagingMode,
    /// `--24-bit-color` is not `always`, `never` nor `auto`.
    InvalidTrueColor,
}

/// The settings that follow from the command-line options.
#[derive(Debug)]
pub struct ProcessedArguments {
    /// The options after the rewrite rules.
    pub opt: Opt,
    /// Emit 24-bit color codes.
    pub true_color: bool,
    /// The width available for output.
    pub available_terminal_width: usize,
    pub paging_mode: PagingMode,
}

/// The model of `ProcessedArguments`.
#[verifier::ext_equal]
pub struct ProcessedModel {
    pub opt: OptModel,
    pub true_color: bool,
    pub available_terminal_width: usize,
    pub paging_mode: PagingMode,
}

impl View for ProcessedArguments {
    type V = ProcessedModel;

    open spec fn view(&self) -> ProcessedModel {
        ProcessedModel {
            opt: self.opt@,
            true_color: self.true_color,
            available_terminal_width: self.available_terminal_width,
            paging_mode: self.paging_mode,
        }
    }
}

/// What processing the command line yields: the validity checks, then the
/// choice of the theme in effect, then the rewrite of deprecated options,
/// then `--color-only`, then the width, the paging mode and the 24-bit color
/// setting. The first refusal is the error.
pub open spec fn spec_process(
    o: OptModel,
    theme: ThemeFacts,
    bat_theme: ThemeFacts,
    terminal_columns: u16,
    colorterm: Option<Seq<char>>,
) -> Result<ProcessedModel, CliError> {
    match spec_check_validity(o, theme) {
        Err(e) => Err(CliError::Validity(e)),
        Ok(_) => match spec_rewrite_deprecated(spec_resolve_theme(o, bat_theme)) {
            Err(e) => Err(CliError::StyleConflict(e)),
            Ok(rewritten) => {
                let o2 = spec_color_only(rewritten);
                match spec_paging_mode(o2.paging_mode) {
                    None => Err(CliError::InvalidPagingMode),
                    Some(paging_mode) => match spec_true_color(o2.true_color, colorterm) {
                        None => Err(CliError::InvalidTrueColor),
                        Some(true_color) => Ok(
                            ProcessedModel {
                                opt: o2,
                                true_color,
                                available_terminal_width: (terminal_columns - 1) as usize,
                                paging_mode,
                            },
                        ),
                    },
                }
            },
        },
    }
}

/// The model of a processing result.
pub open spec fn process_view(r: Result<ProcessedArguments, CliError>) -> Result<
    ProcessedModel,
    CliError,
> {
    match r {
        Ok(p) => Ok(p@),
        Err(e) => Err(e),
    }
}

/// Processes the command-line options: checks them, applies the rewrite
/// rules, and decides the width, paging mode and 24-bit color setting.
/// `theme` tells what is known of the theme that `opt.theme` (`--theme`)
/// names, `bat_theme` what is known of the one that `opt.bat_theme`
/// (`BAT_THEME`) names, `terminal_columns` is the terminal's width and
/// `colorterm` the value of the `COLORTERM` environment variable. The width
/// must be at least one column once the options have passed the validity
/// checks and the rewrite of deprecated options.
pub fn process_command_line_arguments(
    opt: Opt,
    theme: ThemeFacts,
    bat_theme: ThemeFacts,
    terminal_columns: u16,
    colorterm: Option<&str>,
) -> (res: Result<ProcessedArguments, CliError>)
    requires
        spec_check_validity(opt@, theme) is Ok && spec_rewrite_deprecated(
            spec_resolve_theme(opt@, bat_theme),
        ) is Ok ==> terminal_columns >= 1,
    ensures
        process_view(res) == spec_process(
            opt@,
            theme,
            bat_theme,
            terminal_columns,
            opt_str_view(colorterm),
        ),
{
    let mut opt = opt;
    match _check_validity(&opt, theme) {
        Ok(()) => {},
        Err(e) => {
            return Err(CliError::Validity(e));
        },
    }
    _resolve_theme(&mut opt, bat_theme);
    match _rewrite_style_strings_to_honor_deprecated_options(&mut opt) {
        Ok(()) => {},
        Err(e) => {
            return Err(CliError::StyleConflict(e));
        },
    }
    _rewrite_options_to_implement_color_only(&mut opt);
    let width = available_terminal_width(terminal_columns);
    let paging_mode = match parse_paging_mode(opt.paging_mode.as_str()) {
        Some(p) => p,
        None => {
            return Err(CliError::InvalidPagingMode);
        },
    };
    let true_color = match parse_true_color(opt.true_color.as_str(), colorterm) {
        Some(t) => t,
        None => {
            return Err(CliError::InvalidTrueColor);
        },
    };
    Ok(ProcessedArguments { opt, true_color, available_terminal_width: width, paging_mode })
}

} // verus!
