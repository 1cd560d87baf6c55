use delta_cli::options::{
    _rewrite_options_to_implement_color_only, _rewrite_style_strings_to_honor_deprecated_options,
    Opt, StyleConflict, StyleElement,
};
use delta_cli::section_style::{Error, SectionStyle};
use delta_cli::settings::{
    _check_validity, _resolve_theme, available_terminal_width, is_no_syntax_highlighting_theme_name, is_truecolor_terminal, parse_paging_mode,
    parse_true_color, process_command_line_arguments, CliError, PagingMode, ThemeFacts,
    ValidityError,
};
use delta_cli::style_rewrite::{_rewrite_style_string_maybe, DeprecatedOption};
use std::str::FromStr;

fn default_opt() -> Opt {
    Opt {
        light: false,
        dark: false,
        minus_style: "normal auto".to_string(),
        minus_emph_style: "normal auto".to_string(),
        zero_style: "syntax normal".to_string(),
        plus_style: "syntax auto".to_string(),
        plus_emph_style: "syntax auto".to_string(),
        deprecated_minus_background_color: None,
        deprecated_minus_emph_background_color: None,
        deprecated_plus_background_color: None,
        deprecated_plus_emph_background_color: None,
        theme: None,
        bat_theme: None,
        deprecated_highlight_minus_lines: false,
        color_only: false,
        keep_plus_minus_markers: false,
        commit_style: SectionStyle::Plain,
        commit_color: "yellow".to_string(),
        file_style: SectionStyle::Underline,
        file_color: "blue".to_string(),
        hunk_style: SectionStyle::Box,
        hunk_color: "blue".to_string(),
        width: None,
        tab_width: 4,
        show_background_colors: false,
        list_languages: false,
        list_theme_names: false,
        list_themes: false,
        true_color: "auto".to_string(),
        paging_mode: "auto".to_string(),
    }
}

fn dark_theme() -> ThemeFacts {
    ThemeFacts { is_no_syntax_highlighting: false, is_available: true, is_light: false }
}

fn unknown_theme() -> ThemeFacts {
    ThemeFacts { is_no_syntax_highlighting: false, is_available: false, is_light: false }
}

fn no_syntax_theme() -> ThemeFacts {
    ThemeFacts { is_no_syntax_highlighting: true, is_available: false, is_light: false }
}

fn light_theme() -> ThemeFacts {
    ThemeFacts { is_no_syntax_highlighting: false, is_available: true, is_light: true }
}

// Section styles

#[test]
fn section_style_parses_lowercase_names() {
    assert_eq!(SectionStyle::from_str("box"), Ok(SectionStyle::Box));
    assert_eq!(SectionStyle::from_str("plain"), Ok(SectionStyle::Plain));
    assert_eq!(SectionStyle::from_str("underline"), Ok(SectionStyle::Underline));
}

#[test]
fn section_style_ignores_case() {
    assert_eq!(SectionStyle::from_str("BOX"), Ok(SectionStyle::Box));
    assert_eq!(SectionStyle::from_str("Plain"), Ok(SectionStyle::Plain));
    assert_eq!(SectionStyle::from_str("UnderLine"), Ok(SectionStyle::Underline));
    assert_eq!(SectionStyle::from_str("Box"), SectionStyle::from_str("bOX"));
}

#[test]
fn section_style_refuses_other_names() {
    assert_eq!(SectionStyle::from_str("omit"), Err(Error::SectionStyleParseError));
    assert_eq!(SectionStyle::from_str(""), Err(Error::SectionStyleParseError));
    assert_eq!(SectionStyle::from_str("boxes"), Err(Error::SectionStyleParseError));
    assert_eq!(SectionStyle::from_str(" box"), Err(Error::SectionStyleParseError));
}

#[test]
fn section_style_parse_lowercase_is_case_sensitive() {
    assert_eq!(SectionStyle::parse_lowercase("box"), Ok(SectionStyle::Box));
    assert_eq!(SectionStyle::parse_lowercase("BOX"), Err(Error::SectionStyleParseError));
}

#[test]
fn section_style_through_from_str_trait() {
    assert_eq!("HUNK".parse::<SectionStyle>(), Err(Error::SectionStyleParseError));
    assert_eq!("Underline".parse::<SectionStyle>(), Ok(SectionStyle::Underline));
}

#[test]
fn error_text_is_empty() {
    assert_eq!(Error::SectionStyleParseError.to_string(), "");
}

// Style strings and deprecated options

#[test]
fn style_string_without_deprecated_options_is_kept() {
    assert_eq!(_rewrite_style_string_maybe("normal auto", ("normal", "auto"), (None, None)), Ok(None));
    assert_eq!(_rewrite_style_string_maybe("red blue", ("normal", "auto"), (None, None)), Ok(None));
}

#[test]
fn default_style_string_takes_deprecated_values() {
    assert_eq!(
        _rewrite_style_string_maybe("normal auto", ("normal", "auto"), (Some("syntax"), None)),
        Ok(Some("syntax auto".to_string()))
    );
    assert_eq!(
        _rewrite_style_string_maybe("normal auto", ("normal", "auto"), (None, Some("#3f0001"))),
        Ok(Some("normal #3f0001".to_string()))
    );
    assert_eq!(
        _rewrite_style_string_maybe("normal auto", ("normal", "auto"), (Some("syntax"), Some("red"))),
        Ok(Some("syntax red".to_string()))
    );
}

#[test]
fn explicit_style_string_with_deprecated_option_is_refused() {
    assert_eq!(
        _rewrite_style_string_maybe("red blue", ("syntax", "auto"), (None, Some("green"))),
        Err(DeprecatedOption::BackgroundColor)
    );
    assert_eq!(
        _rewrite_style_string_maybe("red blue", ("normal", "auto"), (Some("syntax"), Some("green"))),
        Err(DeprecatedOption::BackgroundColor)
    );
    assert_eq!(
        _rewrite_style_string_maybe("normal  auto", ("normal", "auto"), (Some("syntax"), None)),
        Err(DeprecatedOption::HighlightRemoved)
    );
}

#[test]
fn highlight_removed_rewrites_minus_styles() {
    let mut opt = default_opt();
    opt.deprecated_highlight_minus_lines = true;
    assert_eq!(_rewrite_style_strings_to_honor_deprecated_options(&mut opt), Ok(()));
    assert_eq!(opt.minus_style, "syntax auto");
    assert_eq!(opt.minus_emph_style, "syntax auto");
    assert_eq!(opt.plus_style, "syntax auto");
    assert_eq!(opt.plus_emph_style, "syntax auto");
    assert_eq!(opt.zero_style, "syntax normal");
}

#[test]
fn deprecated_colors_rewrite_styles() {
    let mut opt = default_opt();
    opt.deprecated_minus_background_color = Some("#3f0001".to_string());
    opt.deprecated_minus_emph_background_color = Some("#901011".to_string());
    opt.deprecated_plus_background_color = Some("#002800".to_string());
    opt.deprecated_plus_emph_background_color = Some("#006000".to_string());
    assert_eq!(_rewrite_style_strings_to_honor_deprecated_options(&mut opt), Ok(()));
    assert_eq!(opt.minus_style, "normal #3f0001");
    assert_eq!(opt.minus_emph_style, "normal #901011");
    assert_eq!(opt.plus_style, "syntax #002800");
    assert_eq!(opt.plus_emph_style, "syntax #006000");
}

#[test]
fn deprecated_color_with_explicit_style_is_refused_and_leaves_options() {
    let mut opt = default_opt();
    opt.deprecated_highlight_minus_lines = true;
    opt.plus_emph_style = "bold green".to_string();
    opt.deprecated_plus_emph_background_color = Some("green".to_string());
    assert_eq!(
        _rewrite_style_strings_to_honor_deprecated_options(&mut opt),
        Err(StyleConflict { element: StyleElement::PlusEmph, option: DeprecatedOption::BackgroundColor })
    );
    assert_eq!(opt.minus_style, "normal auto");
    assert_eq!(opt.plus_emph_style, "bold green");
}

#[test]
fn first_conflict_is_reported() {
    let mut opt = default_opt();
    opt.deprecated_highlight_minus_lines = true;
    opt.minus_emph_style = "red".to_string();
    opt.plus_style = "blue".to_string();
    opt.deprecated_plus_background_color = Some("green".to_string());
    assert_eq!(
        _rewrite_style_strings_to_honor_deprecated_options(&mut opt),
        Err(StyleConflict { element: StyleElement::MinusEmph, option: DeprecatedOption::HighlightRemoved })
    );
}

// --color-only

#[test]
fn color_only_sets_the_options_it_stands_for() {
    let mut opt = default_opt();
    opt.color_only = true;
    _rewrite_options_to_implement_color_only(&mut opt);
    assert!(opt.keep_plus_minus_markers);
    assert_eq!(opt.width, Some("variable".to_string()));
    assert_eq!(opt.tab_width, 0);
    assert_eq!(opt.commit_style, SectionStyle::Plain);
    assert_eq!(opt.file_style, SectionStyle::Plain);
    assert_eq!(opt.hunk_style, SectionStyle::Plain);
    assert_eq!(opt.commit_color, "yellow");
}

#[test]
fn color_only_is_idempotent() {
    let mut opt = default_opt();
    opt.color_only = true;
    _rewrite_options_to_implement_color_only(&mut opt);
    _rewrite_options_to_implement_color_only(&mut opt);
    assert!(opt.keep_plus_minus_markers);
    assert_eq!(opt.width, Some("variable".to_string()));
    assert_eq!(opt.tab_width, 0);
    assert_eq!(opt.hunk_style, SectionStyle::Plain);
}

#[test]
fn without_color_only_nothing_changes() {
    let mut opt = default_opt();
    _rewrite_options_to_implement_color_only(&mut opt);
    assert!(!opt.keep_plus_minus_markers);
    assert_eq!(opt.width, None);
    assert_eq!(opt.tab_width, 4);
    assert_eq!(opt.hunk_style, SectionStyle::Box);
    assert_eq!(opt.file_style, SectionStyle::Underline);
}

// Validity

#[test]
fn light_and_dark_together_are_refused() {
    let mut opt = default_opt();
    opt.light = true;
    opt.dark = true;
    assert_eq!(_check_validity(&opt, dark_theme()), Err(ValidityError::LightAndDark));
}

#[test]
fn unknown_theme_is_refused() {
    let mut opt = default_opt();
    opt.theme = Some("no-such-theme".to_string());
    let facts = ThemeFacts { is_no_syntax_highlighting: false, is_available: false, is_light: false };
    assert_eq!(_check_validity(&opt, facts), Err(ValidityError::InvalidTheme));
}

#[test]
fn theme_and_mode_must_agree() {
    let mut opt = default_opt();
    opt.theme = Some("GitHub".to_string());
    opt.dark = true;
    assert_eq!(_check_validity(&opt, light_theme()), Err(ValidityError::LightThemeWithDark));
    let mut opt = default_opt();
    opt.theme = Some("1337".to_string());
    opt.light = true;
    assert_eq!(_check_validity(&opt, dark_theme()), Err(ValidityError::DarkThemeWithLight));
    let mut opt = default_opt();
    opt.theme = Some("GitHub".to_string());
    opt.light = true;
    assert_eq!(_check_validity(&opt, light_theme()), Ok(()));
}

#[test]
fn no_syntax_theme_is_not_checked() {
    let mut opt = default_opt();
    opt.theme = Some("None".to_string());
    opt.light = true;
    let facts = ThemeFacts { is_no_syntax_highlighting: true, is_available: false, is_light: false };
    assert_eq!(_check_validity(&opt, facts), Ok(()));
}

#[test]
fn theme_facts_are_ignored_without_theme() {
    let mut opt = default_opt();
    opt.light = true;
    let facts = ThemeFacts { is_no_syntax_highlighting: false, is_available: false, is_light: false };
    assert_eq!(_check_validity(&opt, facts), Ok(()));
}

// Paging, 24-bit color, width

#[test]
fn paging_modes() {
    assert_eq!(parse_paging_mode("always"), Some(PagingMode::Always));
    assert_eq!(parse_paging_mode("never"), Some(PagingMode::Never));
    assert_eq!(parse_paging_mode("auto"), Some(PagingMode::QuitIfOneScreen));
    assert_eq!(parse_paging_mode("Auto"), None);
    assert_eq!(parse_paging_mode("sometimes"), None);
}

#[test]
fn truecolor_terminal_from_colorterm() {
    assert!(is_truecolor_terminal(Some("truecolor")));
    assert!(is_truecolor_terminal(Some("24bit")));
    assert!(!is_truecolor_terminal(Some("256color")));
    assert!(!is_truecolor_terminal(None));
}

#[test]
fn true_color_values() {
    assert_eq!(parse_true_color("always", None), Some(true));
    assert_eq!(parse_true_color("never", Some("truecolor")), Some(false));
    assert_eq!(parse_true_color("auto", Some("24bit")), Some(true));
    assert_eq!(parse_true_color("auto", Some("xterm")), Some(false));
    assert_eq!(parse_true_color("auto", None), Some(false));
    assert_eq!(parse_true_color("yes", Some("truecolor")), None);
}

#[test]
fn width_leaves_one_column() {
    assert_eq!(available_terminal_width(80), 79);
    assert_eq!(available_terminal_width(1), 0);
    assert_eq!(available_terminal_width(u16::MAX), 65534);
}

// The whole command line

#[test]
fn default_options_are_processed() {
    let p = process_command_line_arguments(default_opt(), dark_theme(), unknown_theme(), 120, Some("truecolor")).unwrap();
    assert!(p.true_color);
    assert_eq!(p.available_terminal_width, 119);
    assert_eq!(p.paging_mode, PagingMode::QuitIfOneScreen);
    assert_eq!(p.opt.minus_style, "normal auto");
    assert_eq!(p.opt.tab_width, 4);
}

#[test]
fn processing_applies_rewrites() {
    let mut opt = default_opt();
    opt.color_only = true;
    opt.deprecated_highlight_minus_lines = true;
    opt.paging_mode = "never".to_string();
    opt.true_color = "never".to_string();
    let p = process_command_line_arguments(opt, dark_theme(), unknown_theme(), 80, Some("truecolor")).unwrap();
    assert!(!p.true_color);
    assert_eq!(p.paging_mode, PagingMode::Never);
    assert_eq!(p.opt.minus_style, "syntax auto");
    assert_eq!(p.opt.width, Some("variable".to_string()));
    assert_eq!(p.opt.hunk_style, SectionStyle::Plain);
}

#[test]
fn processing_reports_the_first_error() {
    let mut opt = default_opt();
    opt.light = true;
    opt.dark = true;
    opt.paging_mode = "bad".to_string();
    assert_eq!(
        process_command_line_arguments(opt, dark_theme(), unknown_theme(), 80, None).unwrap_err(),
        CliError::Validity(ValidityError::LightAndDark)
    );
    let mut opt = default_opt();
    opt.minus_style = "red".to_string();
    opt.deprecated_minus_background_color = Some("blue".to_string());
    opt.paging_mode = "bad".to_string();
    assert_eq!(
        process_command_line_arguments(opt, dark_theme(), unknown_theme(), 80, None).unwrap_err(),
        CliError::StyleConflict(StyleConflict {
            element: StyleElement::Minus,
            option: DeprecatedOption::BackgroundColor
        })
    );
    let mut opt = default_opt();
    opt.paging_mode = "bad".to_string();
    opt.true_color = "bad".to_string();
    assert_eq!(
        process_command_line_arguments(opt, dark_theme(), unknown_theme(), 80, None).unwrap_err(),
        CliError::InvalidPagingMode
    );
    let mut opt = default_opt();
    opt.true_color = "bad".to_string();
    assert_eq!(
        process_command_line_arguments(opt, dark_theme(), unknown_theme(), 80, None).unwrap_err(),
        CliError::InvalidTrueColor
    );
}

#[test]
fn plain_options_pass_unchanged() {
    let mut opt = default_opt();
    opt.zero_style = "dim".to_string();
    opt.theme = Some("1337".to_string());
    opt.dark = true;
    let p = process_command_line_arguments(opt, dark_theme(), unknown_theme(), 80, None).unwrap();
    assert_eq!(p.opt.zero_style, "dim");
    assert_eq!(p.opt.theme, Some("1337".to_string()));
    assert!(p.opt.dark);
    assert_eq!(p.opt.plus_style, "syntax auto");
    assert_eq!(p.opt.file_style, SectionStyle::Underline);
}

// The theme in effect: --theme, then a valid BAT_THEME, else none

fn processed_theme(theme: Option<&str>, bat_theme: Option<&str>, theme_facts: ThemeFacts, bat_facts: ThemeFacts, light: bool, dark: bool) -> Result<Option<String>, CliError> {
    let mut opt = default_opt();
    opt.theme = theme.map(|t| t.to_string());
    opt.bat_theme = bat_theme.map(|t| t.to_string());
    opt.light = light;
    opt.dark = dark;
    process_command_line_arguments(opt, theme_facts, bat_facts, 80, None).map(|p| p.opt.theme)
}

#[test]
fn theme_selection_without_theme_or_env() {
    assert_eq!(processed_theme(None, None, unknown_theme(), unknown_theme(), false, false), Ok(None));
    assert_eq!(processed_theme(None, Some(""), unknown_theme(), unknown_theme(), false, false), Ok(None));
}

#[test]
fn theme_selection_theme_option_wins() {
    assert_eq!(
        processed_theme(Some("GitHub"), Some("1337"), light_theme(), dark_theme(), false, false),
        Ok(Some("GitHub".to_string()))
    );
    assert_eq!(
        processed_theme(Some("GitHub"), Some(""), light_theme(), unknown_theme(), false, false),
        Ok(Some("GitHub".to_string()))
    );
}

#[test]
fn theme_selection_valid_env_theme_is_used() {
    assert_eq!(
        processed_theme(None, Some("1337"), unknown_theme(), dark_theme(), false, false),
        Ok(Some("1337".to_string()))
    );
    assert_eq!(
        processed_theme(None, Some("none"), unknown_theme(), no_syntax_theme(), false, false),
        Ok(Some("none".to_string()))
    );
}

#[test]
fn theme_selection_invalid_env_theme_is_ignored() {
    assert_eq!(processed_theme(None, Some("<@@@@@>"), unknown_theme(), unknown_theme(), false, false), Ok(None));
    assert_eq!(processed_theme(None, Some("<@@@@@>"), unknown_theme(), unknown_theme(), true, false), Ok(None));
}

#[test]
fn theme_selection_env_theme_does_not_conflict_with_mode() {
    assert_eq!(
        processed_theme(None, Some("1337"), unknown_theme(), dark_theme(), true, false),
        Ok(Some("1337".to_string()))
    );
    assert_eq!(
        processed_theme(None, Some("GitHub"), unknown_theme(), light_theme(), false, true),
        Ok(Some("GitHub".to_string()))
    );
}

#[test]
fn theme_selection_theme_option_is_checked() {
    assert_eq!(
        processed_theme(Some("<@@@@@>"), None, unknown_theme(), unknown_theme(), false, false),
        Err(CliError::Validity(ValidityError::InvalidTheme))
    );
    assert_eq!(
        processed_theme(Some("None"), Some(""), no_syntax_theme(), unknown_theme(), true, false),
        Ok(Some("None".to_string()))
    );
}

#[test]
fn resolve_theme_alone() {
    let mut opt = default_opt();
    opt.bat_theme = Some("1337".to_string());
    _resolve_theme(&mut opt, dark_theme());
    assert_eq!(opt.theme, Some("1337".to_string()));
    assert_eq!(opt.bat_theme, Some("1337".to_string()));
    let mut opt = default_opt();
    opt.bat_theme = Some("<@@@@@>".to_string());
    _resolve_theme(&mut opt, unknown_theme());
    assert_eq!(opt.theme, None);
}

// Theme names that turn highlighting off

#[test]
fn none_turns_highlighting_off_in_any_case() {
    assert!(is_no_syntax_highlighting_theme_name("none"));
    assert!(is_no_syntax_highlighting_theme_name("None"));
    assert!(is_no_syntax_highlighting_theme_name("NONE"));
    assert!(!is_no_syntax_highlighting_theme_name("GitHub"));
    assert!(!is_no_syntax_highlighting_theme_name("non"));
    assert!(!is_no_syntax_highlighting_theme_name(""));
}

#[test]
fn refusals_come_before_the_width_is_needed() {
    let mut opt = default_opt();
    opt.light = true;
    opt.dark = true;
    assert_eq!(
        process_command_line_arguments(opt, dark_theme(), unknown_theme(), 0, None).unwrap_err(),
        CliError::Validity(ValidityError::LightAndDark)
    );
    let mut opt = default_opt();
    opt.plus_style = "red".to_string();
    opt.deprecated_plus_background_color = Some("blue".to_string());
    assert_eq!(
        process_command_line_arguments(opt, dark_theme(), unknown_theme(), 0, None).unwrap_err(),
        CliError::StyleConflict(StyleConflict { element: StyleElement::Plus, option: DeprecatedOption::BackgroundColor })
    );
}
