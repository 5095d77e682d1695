//! The colour themes: the one the syntax highlighter paints with, and the
//! light or dark look of the window that goes with it.

use vstd::prelude::*;

verus! {

/// A colour theme of the syntax highlighter.
#[derive(Debug, Clone, Copy, PartialEq, Eq, Structural)]
pub enum HighlightTheme {
    SolarizedDark,
    Base16Mocha,
    Base16Ocean,
    Base16Eighties,
    InspiredGitHub,
}

/// The look of the window.
#[derive(Debug, Clone, Copy, PartialEq, Eq, Structural)]
pub enum AppTheme {
    Dark,
    Light,
}

/// `iced::highlighter::Theme::is_dark`, asked of the highlighter's theme of
/// the same name. The highlighter answers `true` for each of its themes but
/// `InspiredGitHub`; that table is taken on trust.
#[verifier::external_body]
fn highlighter_is_dark(theme: HighlightTheme) -> (dark: bool)
    ensures
        dark == theme.spec_is_dark(),
{
    let theme = match theme {
        HighlightTheme::SolarizedDark => iced::highlighter::Theme::SolarizedDark,
        HighlightTheme::Base16Mocha => iced::highlighter::Theme::Base16Mocha,
        HighlightTheme::Base16Ocean => iced::highlighter::Theme::Base16Ocean,
        HighlightTheme::Base16Eighties => iced::highlighter::Theme::Base16Eighties,
        HighlightTheme::InspiredGitHub => iced::highlighter::Theme::InspiredGitHub,
    };
    theme.is_dark()
}

impl HighlightTheme {
    /// Whether the theme paints on a dark background.
    pub open spec fn spec_is_dark(&self) -> bool {
        match self {
            HighlightTheme::SolarizedDark => true,
            HighlightTheme::Base16Mocha => true,
            HighlightTheme::Base16Ocean => true,
            HighlightTheme::Base16Eighties => true,
            HighlightTheme::InspiredGitHub => false,
        }
    }

    /// Whether the theme paints on a dark background.
    #[verifier::when_used_as_spec(spec_is_dark)]
    pub fn is_dark(&self) -> (dark: bool)
        ensures
            dark == self.spec_is_dark(),
    {
        highlighter_is_dark(*self)
    }

    /// The look of the window that goes with the theme: dark with a dark
    /// theme, light with a light one.
    pub open spec fn spec_app_theme(&self) -> AppTheme {
        if self.spec_is_dark() {
            AppTheme::Dark
        } else {
            AppTheme::Light
        }
    }

    /// The look of the window that goes with the theme.
    #[verifier::when_used_as_spec(spec_app_theme)]
    pub fn app_theme(&self) -> (look: AppTheme)
        ensures
            look == self.spec_app_theme(),
    {
        if self.is_dark() {
            AppTheme::Dark
        } else {
            AppTheme::Light
        }
    }
}

} // verus!
