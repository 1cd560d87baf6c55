use vstd::prelude::*;

use crate::section_style::SectionStyle;
use crate::style_rewrite::{
    _rewrite_style_string_maybe,
    spec_rewrite_style_string,
    DeprecatedOption,
};
use crate::text::{opt_as_str, opt_string_view};

verus! {

/// The command-line options, as parsed from the command line. Every option
/// that the rewrite rules and checks read is held here as a plain value.
#[derive(Debug)]
pub struct Opt {
    /// Use default colors appropriate for a light terminal background.
    pub light: bool,
    /// Use default colors appropriate for a dark terminal background.
    pub dark: bool,
    /// The style for removed lines (default `normal auto`).
    pub minus_style: String,
    /// The style for emphasized sections of removed lines (default `normal auto`).
    pub minus_emph_style: String,
    /// The style for unchanged lines (default `syntax normal`).
    pub zero_style: String,
    /// The style for added lines (default `syntax auto`).
    pub plus_style: String,
    /// The style for emphasized sections of added lines (default `syntax auto`).
    pub plus_emph_style: String,
    /// The deprecated background color for removed lines (`--minus-color`).
    pub deprecated_minus_background_color: Option<String>,
    /// The deprecated background color for emphasized removed sections (`--minus-emph-color`).
    pub deprecated_minus_emph_background_color: Option<String>,
    /// The deprecated background color for added lines (`--plus-color`).
    pub deprecated_plus_background_color: Option<String>,
    /// The deprecated background color for emphasized added sections (`--plus-emph-color`).
    pub deprecated_plus_emph_background_color: Option<String>,
    /// The syntax highlighting theme given by `--theme`.
    pub theme: Option<String>,
    /// The value of the `BAT_THEME` environment variable: the theme to use when
    /// `--theme` is not given, if it names a valid theme.
    pub bat_theme: Option<String>,
    /// The deprecated `--highlight-removed` option.
    pub deprecated_highlight_minus_lines: bool,
    /// Apply colors only (`--color-only`).
    pub color_only: bool,
    /// Keep the `+`/`-` markers of added and removed lines.
    pub keep_plus_minus_markers: bool,
    /// Formatting style of the commit section (default `plain`).
    pub commit_style: SectionStyle,
    /// Color of the commit section (default `yellow`).
    pub commit_color: String,
    /// Formatting style of the file section (default `underline`).
    pub file_style: SectionStyle,
    /// Color of the file section (default `blue`).
    pub file_color: String,
    /// Formatting style of the hunk-marker section (default `box`).
    pub hunk_style: SectionStyle,
    /// Color of the hunk-marker section (default `blue`).
    pub hunk_color: String,
    /// `--width`: `variable` extends background colors to the end of each line only.
    pub width: Option<String>,
    /// The number of spaces that replace a tab character (default 4).
    pub tab_width: usize,
    /// Show the background colors in effect.
    pub show_background_colors: bool,
    /// List supported languages.
    pub list_languages: bool,
    /// List theme names.
    pub list_theme_names: bool,
    /// List themes with an example.
    pub list_themes: bool,
    /// Whether to emit 24-bit color codes: `auto`, `always` or `never` (default `auto`).
    pub true_color: String,
    /// Whether to use a pager: `auto`, `always` or `never` (default `auto`).
    pub paging_mode: String,
}

/// The mathematical model of `Opt`: each string by its characters.
#[verifier::ext_equal]
pub struct OptModel {
    pub light: bool,
    pub dark: bool,
    pub minus_style: Seq<char>,
    pub minus_emph_style: Seq<char>,
    pub zero_style: Seq<char>,
    pub plus_style: Seq<char>,
    pub plus_emph_style: Seq<char>,
    pub deprecated_minus_background_color: Option<Seq<char>>,
    pub deprecated_minus_emph_background_color: Option<Seq<char>>,
    pub deprecated_plus_background_color: Option<Seq<char>>,
    pub deprecated_plus_emph_background_color: Option<Seq<char>>,
    pub theme: Option<Seq<char>>,
    pub bat_theme: Option<Seq<char>>,
    pub deprecated_highlight_minus_lines: bool,
    pub color_only: bool,
    pub keep_plus_minus_markers: bool,
    pub commit_style: SectionStyle,
    pub commit_color: Seq<char>,
    pub file_style: SectionStyle,
    pub file_color: Seq<char>,
    pub hunk_style: SectionStyle,
    pub hunk_color: Seq<char>,
    pub width: Option<Seq<char>>,
    pub tab_width: usize,
    pub show_background_colors: bool,
    pub list_languages: bool,
    pub list_theme_names: bool,
    pub list_themes: bool,
    pub true_color: Seq<char>,
    pub paging_mode: Seq<char>,
}

impl View for Opt {
    type V = OptModel;

    open spec fn view(&self) -> OptModel {
        OptModel {
            light: self.light,
            dark: self.dark,
            minus_style: self.minus_style@,
            minus_emph_style: self.minus_emph_style@,
            zero_style: self.zero_style@,
            plus_style: self.plus_style@,
            plus_emph_style: self.plus_emph_style@,
            deprecated_minus_background_color: opt_string_view(
                self.deprecated_minus_background_color,
            ),
            deprecated_minus_emph_background_color: opt_string_view(
                self.deprecated_minus_emph_background_color,
            ),
            deprecated_plus_background_color: opt_string_view(
                self.deprecated_plus_background_color,
            ),
            deprecated_plus_emph_background_color: opt_string_view(
                self.deprecated_plus_emph_background_color,
            ),
            theme: opt_string_view(self.theme),
            bat_theme: opt_string_view(self.bat_theme),
            deprecated_highlight_minus_lines: self.deprecated_highlight_minus_lines,
            color_only: self.color_only,
            keep_plus_minus_markers: self.keep_plus_minus_markers,
            commit_style: self.commit_style,
            commit_color: self.commit_color@,
            file_style: self.file_style,
            file_color: self.file_color@,
            hunk_style: self.hunk_style,
            hunk_color: self.hunk_color@,
            width: opt_string_view(self.width),
            tab_width: self.tab_width,
            show_background_colors: self.show_background_colors,
            list_languages: self.list_languages,
            list_theme_names: self.list_theme_names,
            list_themes: self.list_themes,
            true_color: self.true_color@,
            paging_mode: self.paging_mode@,
        }
    }
}

// ---------------------------------------------------------------------------
// --color-only
// ---------------------------------------------------------------------------

/// `--color-only` is equivalent to `--keep-plus-minus-markers --width variable
/// --tabs 0 --commit-style plain --file-style plain --hunk-style plain`.
pub open spec fn spec_color_only(o: OptModel) -> OptModel {
    if o.color_only {
        OptModel {
            keep_plus_minus_markers: true,
            width: Some("variable"@),
            tab_width: 0,
            commit_style: SectionStyle::Plain,
            file_style: SectionStyle::Plain,
            hunk_style: SectionStyle::Plain,
            ..o
        }
    } else {
        o
    }
}

/// Implements `--color-only` by setting the options it stands for.
pub fn _rewrite_options_to_implement_color_only(opt: &mut Opt)
    ensures
        final(opt)@ == spec_color_only(old(opt)@),
{
    if opt.color_only {
        opt.keep_plus_minus_markers = true;
        opt.width = Some(String::from_str("variable"));
        opt.tab_width = 0;
        opt.commit_style = SectionStyle::Plain;
        opt.file_style = SectionStyle::Plain;
        opt.hunk_style = SectionStyle::Plain;
    }
}

/// Implementing `--color-only` twice changes nothing more than doing it once.
pub proof fn lemma_color_only_idempotent(o: OptModel)
    ensures
        spec_color_only(spec_color_only(o)) == spec_color_only(o),
{
}

// ---------------------------------------------------------------------------
// Deprecated style options
// ---------------------------------------------------------------------------

/// The style option whose rewrite met a conflicting deprecated option.
#[derive(Clone, Copy, Debug, PartialEq, Eq, Structural)]
pub enum StyleElement {
    Minus,
    MinusEmph,
    Plus,
    PlusEmph,
}

/// A deprecated option given beside an explicit style option.
#[derive(Clone, Copy, Debug, PartialEq, Eq, Structural)]
pub struct StyleConflict {
    pub element: StyleElement,
    pub option: DeprecatedOption,
}

/// The foreground that `--highlight-removed` asks for removed lines.
pub open spec fn deprecated_minus_foreground(o: OptModel) -> Option<Seq<char>> {
    if o.deprecated_highlight_minus_lines {
        Some("syntax"@)
    } else {
        None
    }
}

/// The style string after a rewrite result: the new string, or the old one.
pub open spec fn rewritten_or(r: Option<Seq<char>>, style: Seq<char>) -> Seq<char> {
    match r {
        Some(s) => s,
        None => style,
    }
}

/// The options after honoring the deprecated ones: `--highlight-removed` and
/// `--minus-color` for removed lines (default `normal auto`), `--minus-emph-color`
/// for emphasized removed sections (default `normal auto`), `--plus-color` for
/// added lines (default `syntax auto`) and `--plus-emph-color` for emphasized
/// added sections (default `syntax auto`). The first conflict, in that order,
/// is the error.
pub open spec fn spec_rewrite_deprecated(o: OptModel) -> Result<OptModel, StyleConflict> {
    let minus = spec_rewrite_style_string(
        o.minus_style,
        ("normal"@, "auto"@),
        (deprecated_minus_foreground(o), o.deprecated_minus_background_color),
    );
    let minus_emph = spec_rewrite_style_string(
        o.minus_emph_style,
        ("normal"@, "auto"@),
        (deprecated_minus_foreground(o), o.deprecated_minus_emph_background_color),
    );
    let plus = spec_rewrite_style_string(
        o.plus_style,
        ("syntax"@, "auto"@),
        (None, o.deprecated_plus_background_color),
    );
    let plus_emph = spec_rewrite_style_string(
        o.plus_emph_style,
        ("syntax"@, "auto"@),
        (None, o.deprecated_plus_emph_background_color),
    );
    match (minus, minus_emph, plus, plus_emph) {
        (Err(e), _, _, _) => Err(StyleConflict { element: StyleElement::Minus, option: e }),
        (Ok(_), Err(e), _, _) => Err(
            StyleConflict { element: StyleElement::MinusEmph, option: e },
        ),
        (Ok(_), Ok(_), Err(e), _) => Err(StyleConflict { element: StyleElement::Plus, option: e }),
        (Ok(_), Ok(_), Ok(_), Err(e)) => Err(
            StyleConflict { element: StyleElement::PlusEmph, option: e },
        ),
        (Ok(a), Ok(b), Ok(c), Ok(d)) => Ok(
            OptModel {
                minus_style: rewritten_or(a, o.minus_style),
                minus_emph_style: rewritten_or(b, o.minus_emph_style),
                plus_style: rewritten_or(c, o.plus_style),
                plus_emph_style: rewritten_or(d, o.plus_emph_style),
                ..o
            },
        ),
    }
}

/// Without any deprecated option the style options are left as they are.
pub proof fn lemma_no_deprecated_options_keep_styles(o: OptModel)
    requires
        !o.deprecated_highlight_minus_lines,
        o.deprecated_minus_background_color is None,
        o.deprecated_minus_emph_background_color is None,
        o.deprecated_plus_background_color is None,
        o.deprecated_plus_emph_background_color is None,
    ensures
        spec_rewrite_deprecated(o) == Ok::<OptModel, StyleConflict>(o),
{
    assert(spec_rewrite_deprecated(o) matches Ok(r) && r =~= o);
}

/// Stores a rewrite result in a style option, if there is one.
fn store_rewrite(style: &mut String, rewritten: Option<String>)
    ensures
        final(style)@ == rewritten_or(crate::text::opt_string_view(rewritten), old(style)@),
{
    match rewritten {
        Some(s) => {
            *style = s;
        },
        None => {},
    }
}

/// Honors the deprecated options by rewriting the style options that still
/// have their default values. A deprecated option beside an explicitly given
/// style option is an error; then the options are left unchanged.
pub fn _rewrite_style_strings_to_honor_deprecated_options(opt: &mut Opt) -> (res: Result<
    (),
    StyleConflict,
>)
    ensures
        match spec_rewrite_deprecated(old(opt)@) {
            Ok(o) => res is Ok && final(opt)@ == o,
            Err(e) => res == Err::<(), StyleConflict>(e) && final(opt)@ == old(opt)@,
        },
{
    let deprecated_minus_foreground_arg: Option<&str> = if opt.deprecated_highlight_minus_lines {
        Some("syntax")
    } else {
        None
    };
    let minus = match _rewrite_style_string_maybe(
        opt.minus_style.as_str(),
        ("normal", "auto"),
        (deprecated_minus_foreground_arg, opt_as_str(&opt.deprecated_minus_background_color)),
    ) {
        Ok(r) => r,
        Err(e) => {
            return Err(StyleConflict { element: StyleElement::Minus, option: e });
        },
    };
    let minus_emph = match _rewrite_style_string_maybe(
        opt.minus_emph_style.as_str(),
        ("normal", "auto"),
        (deprecated_minus_foreground_arg, opt_as_str(&opt.deprecated_minus_emph_background_color)),
    ) {
        Ok(r) => r,
        Err(e) => {
            return Err(StyleConflict { element: StyleElement::MinusEmph, option: e });
        },
    };
    let plus = match _rewrite_style_string_maybe(
        opt.plus_style.as_str(),
        ("syntax", "auto"),
        (None, opt_as_str(&opt.deprecated_plus_background_color)),
    ) {
        Ok(r) => r,
        Err(e) => {
            return Err(StyleConflict { element: StyleElement::Plus, option: e });
        },
    };
    let plus_emph = match _rewrite_style_string_maybe(
        opt.plus_emph_style.as_str(),
        ("syntax", "auto"),
        (None, opt_as_str(&opt.deprecated_plus_emph_background_color)),
    ) {
        Ok(r) => r,
        Err(e) => {
            return Err(StyleConflict { element: StyleElement::PlusEmph, option: e });
        },
    };
    store_rewrite(&mut opt.minus_style, minus);
    store_rewrite(&mut opt.minus_emph_style, minus_emph);
    store_rewrite(&mut opt.plus_style, plus);
    store_rewrite(&mut opt.plus_emph_style, plus_emph);
    Ok(())
}

} // verus!
