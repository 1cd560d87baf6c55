use vstd::prelude::*;

use crate::text::{join_pair, opt_str_view, spec_join_pair, str_eq};

verus! {

/// The deprecated option that stands in the way of rewriting a style string
/// the user gave explicitly.
#[derive(Clone, Copy, Debug, PartialEq, Eq, Structural)]
pub enum DeprecatedOption {
    /// A `--*-color` background color option.
    BackgroundColor,
    /// The `--highlight-removed` option.
    HighlightRemoved,
}

/// What rewriting a style string for deprecated options yields: `Ok(None)` for
/// no rewrite, `Ok(Some(style))` for a new style string, or the deprecated
/// option that conflicts with an explicitly given style.
pub open spec fn spec_rewrite_style_string(
    style: Seq<char>,
    style_default_pair: (Seq<char>, Seq<char>),
    deprecated_args_style_pair: (Option<Seq<char>>, Option<Seq<char>>),
) -> Result<Option<Seq<char>>, DeprecatedOption> {
    let (deprecated_foreground, deprecated_background) = deprecated_args_style_pair;
    if deprecated_foreground is None && deprecated_background is None {
        Ok(None)
    } else if style == spec_join_pair(style_default_pair.0, style_default_pair.1) {
        let foreground = match deprecated_foreground {
            Some(f) => f,
            None => style_default_pair.0,
        };
        let background = match deprecated_background {
            Some(b) => b,
            None => style_default_pair.1,
        };
        Ok(Some(spec_join_pair(foreground, background)))
    } else if deprecated_background is Some {
        Err(DeprecatedOption::BackgroundColor)
    } else {
        Err(DeprecatedOption::HighlightRemoved)
    }
}

/// The characters of a rewrite result.
pub open spec fn rewrite_view(r: Result<Option<String>, DeprecatedOption>) -> Result<
    Option<Seq<char>>,
    DeprecatedOption,
> {
    match r {
        Ok(Some(s)) => Ok(Some(s@)),
        Ok(None) => Ok(None),
        Err(e) => Err(e),
    }
}

/// Rewrites a style string (`"<foreground> <background>"`) to honor the
/// deprecated foreground and background options. Without any deprecated
/// option there is no rewrite. When the style still has its default value,
/// the deprecated values replace the default foreground and background.
/// Otherwise the style was given explicitly, and a deprecated option beside
/// it is refused: the background color option first, then the foreground one.
pub fn _rewrite_style_string_maybe(
    style: &str,
    style_default_pair: (&str, &str),
    deprecated_args_style_pair: (Option<&str>, Option<&str>),
) -> (res: Result<Option<String>, DeprecatedOption>)
    ensures
        rewrite_view(res) == spec_rewrite_style_string(
            style@,
            (style_default_pair.0@, style_default_pair.1@),
            (opt_str_view(deprecated_args_style_pair.0), opt_str_view(deprecated_args_style_pair.1)),
        ),
{
    let (default_foreground, default_background) = style_default_pair;
    let (deprecated_foreground, deprecated_background) = deprecated_args_style_pair;
    if deprecated_foreground.is_none() && deprecated_background.is_none() {
        return Ok(None);
    }
    let default_style = join_pair(default_foreground, default_background);
    if str_eq(style, default_style.as_str()) {
        let foreground = match deprecated_foreground {
            Some(f) => f,
            None => default_foreground,
        };
        let background = match deprecated_background {
            Some(b) => b,
            None => default_background,
        };
        Ok(Some(join_pair(foreground, background)))
    } else if deprecated_background.is_some() {
        Err(DeprecatedOption::BackgroundColor)
    } else {
        Err(DeprecatedOption::HighlightRemoved)
    }
}

/// Without deprecated options a style string is never rewritten and never
/// refused.
pub proof fn lemma_no_deprecated_options_no_rewrite(
    style: Seq<char>,
    style_default_pair: (Seq<char>, Seq<char>),
)
    ensures
        spec_rewrite_style_string(style, style_default_pair, (None, None)) == Ok::<
            Option<Seq<char>>,
            DeprecatedOption,
        >(None),
{
}

/// A style at its default value is always rewritten, never refused, when a
/// deprecated option is given; the rewritten style keeps the default for the
/// part that no deprecated option sets.
pub proof fn lemma_default_style_is_rewritten(
    style_default_pair: (Seq<char>, Seq<char>),
    deprecated_args_style_pair: (Option<Seq<char>>, Option<Seq<char>>),
)
    requires
        deprecated_args_style_pair.0 is Some || deprecated_args_style_pair.1 is Some,
    ensures
        spec_rewrite_style_string(
            spec_join_pair(style_default_pair.0, style_default_pair.1),
            style_default_pair,
            deprecated_args_style_pair,
        ) == Ok::<Option<Seq<char>>, DeprecatedOption>(
            Some(
                spec_join_pair(
                    match deprecated_args_style_pair.0 {
                        Some(f) => f,
                        None => style_default_pair.0,
                    },
                    match deprecated_args_style_pair.1 {
                        Some(b) => b,
                        None => style_default_pair.1,
                    },
                ),
            ),
        ),
{
}

/// An explicitly given style (one that differs from the default) beside a
/// deprecated option is always refused.
pub proof fn lemma_explicit_style_with_deprecated_option_refused(
    style: Seq<char>,
    style_default_pair: (Seq<char>, Seq<char>),
    deprecated_args_style_pair: (Option<Seq<char>>, Option<Seq<char>>),
)
    requires
        deprecated_args_style_pair.0 is Some || deprecated_args_style_pair.1 is Some,
        style != spec_join_pair(style_default_pair.0, style_default_pair.1),
    ensures
        spec_rewrite_style_string(style, style_default_pair, deprecated_args_style_pair) is Err,
{
}

} // verus!
