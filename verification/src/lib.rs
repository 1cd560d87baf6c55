//! Command-line option processing for a syntax-highlighting pager of git and
//! diff output: section styles, rewrite rules for deprecated and shorthand
//! options, option validity checks and the settings that follow from them.

pub mod laws;
pub mod options;
pub mod section_style;
pub mod settings;
pub mod style_rewrite;
pub mod text;
