use vstd::prelude::*;

use crate::options::{spec_color_only, spec_rewrite_deprecated, OptModel};
use crate::section_style::SectionStyle;
use crate::settings::{
    spec_check_validity,
    spec_is_truecolor_terminal,
    spec_process,
    spec_resolve_theme,
    is_valid_theme_name,
    CliError,
    PagingMode,
    ThemeFacts,
    ValidityError,
};
use crate::text::spec_join_pair;

verus! {

/// `--light` and `--dark` cannot be used together: such a command line is
/// always refused, whatever else it holds.
pub proof fn lemma_light_and_dark_refused(
    o: OptModel,
    theme: ThemeFacts,
    bat_theme: ThemeFacts,
    terminal_columns: u16,
    colorterm: Option<Seq<char>>,
)
    requires
        o.light,
        o.dark,
    ensures
        spec_process(o, theme, bat_theme, terminal_columns, colorterm) == Err::<
            crate::settings::ProcessedModel,
            CliError,
        >(CliError::Validity(ValidityError::LightAndDark)),
{
}

/// With `--theme`, `--light` and `--dark` are not needed: an available theme
/// given without either of them passes the validity checks.
pub proof fn lemma_theme_without_light_or_dark_valid(o: OptModel, theme: ThemeFacts)
    requires
        !o.light,
        !o.dark,
        theme.is_available || theme.is_no_syntax_highlighting || o.theme is None,
    ensures
        spec_check_validity(o, theme) == Ok::<(), ValidityError>(()),
{
}

/// A theme name that turns syntax highlighting off is never refused; only
/// `--light` with `--dark` can make such options invalid.
pub proof fn lemma_no_syntax_theme_checks_only_light_and_dark(o: OptModel, theme: ThemeFacts)
    requires
        theme.is_no_syntax_highlighting,
    ensures
        spec_check_validity(o, theme) is Ok <==> !(o.light && o.dark),
{
}

/// The settings that processing yields under `--color-only` are those of
/// `--keep-plus-minus-markers --width variable --tabs 0 --commit-style plain
/// --file-style plain --hunk-style plain`.
pub proof fn lemma_color_only_settings(
    o: OptModel,
    theme: ThemeFacts,
    bat_theme: ThemeFacts,
    terminal_columns: u16,
    colorterm: Option<Seq<char>>,
)
    requires
        o.color_only,
        spec_process(o, theme, bat_theme, terminal_columns, colorterm) is Ok,
    ensures
        ({
            let p = spec_process(o, theme, bat_theme, terminal_columns, colorterm)->Ok_0.opt;
            &&& p.keep_plus_minus_markers
            &&& p.width == Some("variable"@)
            &&& p.tab_width == 0
            &&& p.commit_style == SectionStyle::Plain
            &&& p.file_style == SectionStyle::Plain
            &&& p.hunk_style == SectionStyle::Plain
        }),
{
    let r = spec_rewrite_deprecated(spec_resolve_theme(o, bat_theme))->Ok_0;
    assert(r.color_only);
}

/// Processing succeeds only with a `--paging` and a `--24-bit-color` value
/// among `auto`, `always` and `never`.
pub proof fn lemma_accepted_paging_and_color_values(
    o: OptModel,
    theme: ThemeFacts,
    bat_theme: ThemeFacts,
    terminal_columns: u16,
    colorterm: Option<Seq<char>>,
)
    requires
        spec_process(o, theme, bat_theme, terminal_columns, colorterm) is Ok,
    ensures
        o.paging_mode == "auto"@ || o.paging_mode == "always"@ || o.paging_mode == "never"@,
        o.true_color == "auto"@ || o.true_color == "always"@ || o.true_color == "never"@,
{
    let r = spec_rewrite_deprecated(spec_resolve_theme(o, bat_theme))->Ok_0;
    assert(r.paging_mode == o.paging_mode);
    assert(r.true_color == o.true_color);
}

/// With `--24-bit-color auto`, 24-bit color codes are emitted if and only if
/// `COLORTERM` is `truecolor` or `24bit`.
pub proof fn lemma_auto_true_color_follows_colorterm(
    o: OptModel,
    theme: ThemeFacts,
    bat_theme: ThemeFacts,
    terminal_columns: u16,
    colorterm: Option<Seq<char>>,
)
    requires
        o.true_color == "auto"@,
        spec_process(o, theme, bat_theme, terminal_columns, colorterm) is Ok,
    ensures
        spec_process(o, theme, bat_theme, terminal_columns, colorterm)->Ok_0.true_color
            == spec_is_truecolor_terminal(colorterm),
{
    reveal_strlit("auto");
    reveal_strlit("always");
    reveal_strlit("never");
    let r = spec_rewrite_deprecated(spec_resolve_theme(o, bat_theme))->Ok_0;
    assert(r.true_color == o.true_color);
    assert("auto"@.len() == 4 && "always"@.len() == 6 && "never"@.len() == 5);
}

/// Processing changes no option but the theme (taken from `BAT_THEME` when
/// `--theme` is not given), the four diff style options (for the deprecated
/// options) and those that `--color-only` stands for.
pub proof fn lemma_processing_keeps_other_options(
    o: OptModel,
    theme: ThemeFacts,
    bat_theme: ThemeFacts,
    terminal_columns: u16,
    colorterm: Option<Seq<char>>,
)
    requires
        spec_process(o, theme, bat_theme, terminal_columns, colorterm) is Ok,
    ensures
        ({
            let p = spec_process(o, theme, bat_theme, terminal_columns, colorterm)->Ok_0.opt;
            &&& p == OptModel {
                theme: p.theme,
                minus_style: p.minus_style,
                minus_emph_style: p.minus_emph_style,
                plus_style: p.plus_style,
                plus_emph_style: p.plus_emph_style,
                keep_plus_minus_markers: p.keep_plus_minus_markers,
                width: p.width,
                tab_width: p.tab_width,
                commit_style: p.commit_style,
                file_style: p.file_style,
                hunk_style: p.hunk_style,
                ..o
            }
        }),
{
    let r = spec_rewrite_deprecated(spec_resolve_theme(o, bat_theme))->Ok_0;
    let p = spec_process(o, theme, bat_theme, terminal_columns, colorterm)->Ok_0.opt;
    assert(p == spec_color_only(r));
}

/// Without `--color-only`, without deprecated options and without a
/// `BAT_THEME` value to take the place of a missing `--theme`, processing
/// leaves the options exactly as they were given.
pub proof fn lemma_plain_options_unchanged(
    o: OptModel,
    theme: ThemeFacts,
    bat_theme: ThemeFacts,
    terminal_columns: u16,
    colorterm: Option<Seq<char>>,
)
    requires
        !o.color_only,
        !o.deprecated_highlight_minus_lines,
        o.deprecated_minus_background_color is None,
        o.deprecated_minus_emph_background_color is None,
        o.deprecated_plus_background_color is None,
        o.deprecated_plus_emph_background_color is None,
        o.theme is Some || o.bat_theme is None,
        spec_process(o, theme, bat_theme, terminal_columns, colorterm) is Ok,
    ensures
        spec_process(o, theme, bat_theme, terminal_columns, colorterm)->Ok_0.opt == o,
{
    crate::options::lemma_no_deprecated_options_keep_styles(o);
}

/// The `BAT_THEME` environment variable never causes a refusal: whether the
/// command line is accepted, and why it is refused, are the same without it.
/// In particular a `BAT_THEME` theme does not conflict with `--light` or
/// `--dark`, and an invalid `BAT_THEME` value is not an error.
pub proof fn lemma_bat_theme_never_refuses(
    o: OptModel,
    theme: ThemeFacts,
    bat_theme: ThemeFacts,
    terminal_columns: u16,
    colorterm: Option<Seq<char>>,
)
    ensures
        ({
            let with_env = spec_process(o, theme, bat_theme, terminal_columns, colorterm);
            let without_env = spec_process(
                OptModel { bat_theme: None, ..o },
                theme,
                bat_theme,
                terminal_columns,
                colorterm,
            );
            match (with_env, without_env) {
                (Ok(_), Ok(_)) => true,
                (Err(e1), Err(e2)) => e1 == e2,
                _ => false,
            }
        }),
{
    let o2 = OptModel { bat_theme: None, ..o };
    let r1 = spec_resolve_theme(o, bat_theme);
    let r2 = spec_resolve_theme(o2, bat_theme);
    assert(spec_check_validity(o, theme) == spec_check_validity(o2, theme));
    assert(r2 == o2);
    assert(spec_rewrite_deprecated(r1) is Ok <==> spec_rewrite_deprecated(r2) is Ok);
    if spec_rewrite_deprecated(r1) is Err {
        assert(spec_rewrite_deprecated(r1) == spec_rewrite_deprecated(r2));
    }
}

/// The theme given by `--theme` is the theme in effect, whatever `BAT_THEME`
/// holds.
pub proof fn lemma_theme_option_takes_precedence(
    o: OptModel,
    theme: ThemeFacts,
    bat_theme: ThemeFacts,
    terminal_columns: u16,
    colorterm: Option<Seq<char>>,
)
    requires
        o.theme is Some,
        spec_process(o, theme, bat_theme, terminal_columns, colorterm) is Ok,
    ensures
        spec_process(o, theme, bat_theme, terminal_columns, colorterm)->Ok_0.opt.theme == o.theme,
{
}

/// Without `--theme`, a `BAT_THEME` value that is a valid theme name is the
/// theme in effect.
pub proof fn lemma_valid_bat_theme_used(
    o: OptModel,
    theme: ThemeFacts,
    bat_theme: ThemeFacts,
    terminal_columns: u16,
    colorterm: Option<Seq<char>>,
)
    requires
        o.theme is None,
        is_valid_theme_name(bat_theme),
        spec_process(o, theme, bat_theme, terminal_columns, colorterm) is Ok,
    ensures
        spec_process(o, theme, bat_theme, terminal_columns, colorterm)->Ok_0.opt.theme
            == o.bat_theme,
{
}

/// Without `--theme`, a `BAT_THEME` value that is not a valid theme name is
/// ignored: no theme is in effect.
pub proof fn lemma_invalid_bat_theme_ignored(
    o: OptModel,
    theme: ThemeFacts,
    bat_theme: ThemeFacts,
    terminal_columns: u16,
    colorterm: Option<Seq<char>>,
)
    requires
        o.theme is None,
        !is_valid_theme_name(bat_theme),
        spec_process(o, theme, bat_theme, terminal_columns, colorterm) is Ok,
    ensures
        spec_process(o, theme, bat_theme, terminal_columns, colorterm)->Ok_0.opt.theme is None,
{
}

/// The default style strings, written out word by word.
proof fn lemma_default_style_strings()
    ensures
        spec_join_pair("normal"@, "auto"@) == "normal auto"@,
        spec_join_pair("syntax"@, "auto"@) == "syntax auto"@,
{
    reveal_strlit("normal");
    reveal_strlit("auto");
    reveal_strlit("syntax");
    reveal_strlit("normal auto");
    reveal_strlit("syntax auto");
    assert(spec_join_pair("normal"@, "auto"@) =~= "normal auto"@);
    assert(spec_join_pair("syntax"@, "auto"@) =~= "syntax auto"@);
}

/// A background color option, or `auto` when it is not given.
pub open spec fn background_or_auto(c: Option<Seq<char>>) -> Seq<char> {
    match c {
        Some(c) => c,
        None => "auto"@,
    }
}

/// What the rewrite of deprecated options makes of each diff style option,
/// when it succeeds. Each style takes its background only from its own
/// `--*-color` option (`--minus-color` for removed lines, `--minus-emph-color`
/// for their emphasized sections, `--plus-color`, `--plus-emph-color`), and
/// `--highlight-removed` sets the foreground `syntax` of the two removed-line
/// styles only:
/// - a style with none of its deprecated options is kept as given;
/// - otherwise it was at its default (`normal auto` for removed lines,
///   `syntax auto` for added lines) and becomes `"<fg> <bg>"`, where `<fg>`
///   is `syntax` under `--highlight-removed` (removed lines) or the default
///   foreground, and `<bg>` is its own color option or `auto`.
pub proof fn lemma_rewritten_styles(o: OptModel)
    requires
        spec_rewrite_deprecated(o) is Ok,
    ensures
        ({
            let r = spec_rewrite_deprecated(o)->Ok_0;
            let hl = o.deprecated_highlight_minus_lines;
            let removed_fg = if hl {
                "syntax"@
            } else {
                "normal"@
            };
            &&& (!hl && o.deprecated_minus_background_color is None) ==> r.minus_style
                == o.minus_style
            &&& (hl || o.deprecated_minus_background_color is Some) ==> {
                &&& o.minus_style == "normal auto"@
                &&& r.minus_style == removed_fg + seq![' '] + background_or_auto(
                    o.deprecated_minus_background_color,
                )
            }
            &&& (!hl && o.deprecated_minus_emph_background_color is None) ==> r.minus_emph_style
                == o.minus_emph_style
            &&& (hl || o.deprecated_minus_emph_background_color is Some) ==> {
                &&& o.minus_emph_style == "normal auto"@
                &&& r.minus_emph_style == removed_fg + seq![' '] + background_or_auto(
                    o.deprecated_minus_emph_background_color,
                )
            }
            &&& o.deprecated_plus_background_color is None ==> r.plus_style == o.plus_style
            &&& o.deprecated_plus_background_color is Some ==> {
                &&& o.plus_style == "syntax auto"@
                &&& r.plus_style == "syntax"@ + seq![' '] + background_or_auto(
                    o.deprecated_plus_background_color,
                )
            }
            &&& o.deprecated_plus_emph_background_color is None ==> r.plus_emph_style
                == o.plus_emph_style
            &&& o.deprecated_plus_emph_background_color is Some ==> {
                &&& o.plus_emph_style == "syntax auto"@
                &&& r.plus_emph_style == "syntax"@ + seq![' '] + background_or_auto(
                    o.deprecated_plus_emph_background_color,
                )
            }
        }),
{
    lemma_default_style_strings();
}

/// `--minus-color` reaches no style but that of removed lines: two option
/// sets that differ only in it give the same emphasized-removed, added and
/// emphasized-added styles.
pub proof fn lemma_minus_color_touches_only_minus_style(o1: OptModel, o2: OptModel)
    requires
        o2 == (OptModel {
            deprecated_minus_background_color: o2.deprecated_minus_background_color,
            ..o1
        }),
        spec_rewrite_deprecated(o1) is Ok,
        spec_rewrite_deprecated(o2) is Ok,
    ensures
        spec_rewrite_deprecated(o1)->Ok_0.minus_emph_style == spec_rewrite_deprecated(
            o2,
        )->Ok_0.minus_emph_style,
        spec_rewrite_deprecated(o1)->Ok_0.plus_style == spec_rewrite_deprecated(
            o2,
        )->Ok_0.plus_style,
        spec_rewrite_deprecated(o1)->Ok_0.plus_emph_style == spec_rewrite_deprecated(
            o2,
        )->Ok_0.plus_emph_style,
{
    lemma_rewritten_styles(o1);
    lemma_rewritten_styles(o2);
}

/// Under `--highlight-removed`, with the removed-line style at its default,
/// the rewritten style has the foreground `syntax`, whatever `--minus-color`
/// holds: it is `syntax <color>` with `--minus-color <color>`, and
/// `syntax auto` without it.
pub proof fn lemma_highlight_removed_foreground(o: OptModel)
    requires
        o.deprecated_highlight_minus_lines,
        o.minus_style == "normal auto"@,
        spec_rewrite_deprecated(o) is Ok,
    ensures
        spec_rewrite_deprecated(o)->Ok_0.minus_style.take(7) == "syntax"@ + seq![' '],
        (o.deprecated_minus_background_color matches Some(c) ==> spec_rewrite_deprecated(
            o,
        )->Ok_0.minus_style == "syntax"@ + seq![' '] + c),
        o.deprecated_minus_background_color is None ==> spec_rewrite_deprecated(o)->Ok_0.minus_style
            == "syntax auto"@,
{
    lemma_rewritten_styles(o);
    lemma_default_style_strings();
    reveal_strlit("syntax");
    let r = spec_rewrite_deprecated(o)->Ok_0.minus_style;
    let c = background_or_auto(o.deprecated_minus_background_color);
    assert(r == "syntax"@ + seq![' '] + c);
    assert(r.take(7) =~= "syntax"@ + seq![' ']);
}

/// A style option given explicitly (not at its default) beside one of its
/// deprecated options makes the rewrite fail.
pub proof fn lemma_explicit_style_with_its_deprecated_option_refused(o: OptModel)
    requires
        (o.deprecated_highlight_minus_lines || o.deprecated_minus_background_color is Some)
            && o.minus_style != "normal auto"@
        || (o.deprecated_highlight_minus_lines
            || o.deprecated_minus_emph_background_color is Some) && o.minus_emph_style
            != "normal auto"@
        || o.deprecated_plus_background_color is Some && o.plus_style != "syntax auto"@
        || o.deprecated_plus_emph_background_color is Some && o.plus_emph_style
            != "syntax auto"@,
    ensures
        spec_rewrite_deprecated(o) is Err,
{
    lemma_default_style_strings();
}

/// When the validity check is to pass or fail, in terms of the options and
/// what is known of the `--theme` theme: `--light` with `--dark` is refused;
/// otherwise a `--theme` that does not turn highlighting off must be an
/// available theme (whatever `--light` and `--dark` are), and must not be a
/// light theme with `--dark` nor a dark theme with `--light`.
pub proof fn lemma_validity_conditions(o: OptModel, theme: ThemeFacts)
    ensures
        (o.light && o.dark) ==> spec_check_validity(o, theme) == Err::<(), ValidityError>(
            ValidityError::LightAndDark,
        ),
        (!(o.light && o.dark) && o.theme is Some && !theme.is_no_syntax_highlighting
            && !theme.is_available) ==> spec_check_validity(o, theme) == Err::<(), ValidityError>(
            ValidityError::InvalidTheme,
        ),
        (!(o.light && o.dark) && o.theme is Some && !theme.is_no_syntax_highlighting
            && theme.is_available && theme.is_light && o.dark) ==> spec_check_validity(o, theme)
            == Err::<(), ValidityError>(ValidityError::LightThemeWithDark),
        (!(o.light && o.dark) && o.theme is Some && !theme.is_no_syntax_highlighting
            && theme.is_available && !theme.is_light && o.light) ==> spec_check_validity(o, theme)
            == Err::<(), ValidityError>(ValidityError::DarkThemeWithLight),
        spec_check_validity(o, theme) is Ok <==> (!(o.light && o.dark) && (o.theme is None
            || theme.is_no_syntax_highlighting || (theme.is_available && !(theme.is_light && o.dark)
            && !(!theme.is_light && o.light)))),
{
}

/// The paging mode that processing yields is the one `--paging` selects:
/// `always` gives `Always`, `never` gives `Never`, `auto` gives
/// `QuitIfOneScreen`, whatever the other options (`--color-only` among them).
/// Likewise `--24-bit-color always` and `never` give 24-bit color on and off.
pub proof fn lemma_paging_and_color_follow_their_options(
    o: OptModel,
    theme: ThemeFacts,
    bat_theme: ThemeFacts,
    terminal_columns: u16,
    colorterm: Option<Seq<char>>,
)
    requires
        spec_process(o, theme, bat_theme, terminal_columns, colorterm) is Ok,
    ensures
        o.paging_mode == "always"@ ==> spec_process(
            o,
            theme,
            bat_theme,
            terminal_columns,
            colorterm,
        )->Ok_0.paging_mode == PagingMode::Always,
        o.paging_mode == "never"@ ==> spec_process(
            o,
            theme,
            bat_theme,
            terminal_columns,
            colorterm,
        )->Ok_0.paging_mode == PagingMode::Never,
        o.paging_mode == "auto"@ ==> spec_process(
            o,
            theme,
            bat_theme,
            terminal_columns,
            colorterm,
        )->Ok_0.paging_mode == PagingMode::QuitIfOneScreen,
        o.true_color == "always"@ ==> spec_process(
            o,
            theme,
            bat_theme,
            terminal_columns,
            colorterm,
        )->Ok_0.true_color,
        o.true_color == "never"@ ==> !spec_process(
            o,
            theme,
            bat_theme,
            terminal_columns,
            colorterm,
        )->Ok_0.true_color,
{
    reveal_strlit("auto");
    reveal_strlit("always");
    reveal_strlit("never");
    assert("auto"@.len() == 4 && "always"@.len() == 6 && "never"@.len() == 5);
    let r = spec_rewrite_deprecated(spec_resolve_theme(o, bat_theme))->Ok_0;
    assert(r.paging_mode == o.paging_mode);
    assert(r.true_color == o.true_color);
}

} // verus!
