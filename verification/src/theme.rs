//! The dashboard's theme and its CSS custom-property block.

use vstd::prelude::*;
use vstd::string::*;

verus! {

/// The dashboard's colors and font, as configured by the user.
#[derive(Clone, Debug)]
pub struct ThemeConfig {
    pub font_family: String,
    pub bg: String,
    pub panel: String,
    pub muted: String,
    pub good: String,
    pub warn: String,
    pub bad: String,
    pub line: String,
}

/// The CSS custom-property declarations for a theme, in the dashboard's
/// fixed order.
pub open spec fn spec_theme_css(t: ThemeConfig) -> Seq<char> {
    "--font: "@ + t.font_family@ + "; --bg: "@ + t.bg@ + "; --panel: "@ + t.panel@ + "; --muted: "@
        + t.muted@ + "; --good: "@ + t.good@ + "; --warn: "@ + t.warn@ + "; --bad: "@ + t.bad@
        + "; --line: "@ + t.line@ + ";"@
}

/// Renders a theme as the CSS custom-property block the dashboard's pages
/// splice into their stylesheets.
pub fn theme_css(theme: &ThemeConfig) -> (r: String)
    ensures
        r@ == spec_theme_css(*theme),
{
    let mut s = String::from_str("--font: ");
    s.append(theme.font_family.as_str());
    s.append("; --bg: ");
    s.append(theme.bg.as_str());
    s.append("; --panel: ");
    s.append(theme.panel.as_str());
    s.append("; --muted: ");
    s.append(theme.muted.as_str());
    s.append("; --good: ");
    s.append(theme.good.as_str());
    s.append("; --warn: ");
    s.append(theme.warn.as_str());
    s.append("; --bad: ");
    s.append(theme.bad.as_str());
    s.append("; --line: ");
    s.append(theme.line.as_str());
    s.append(";");
    s
}

} // verus!
