use rheia::theme::{AppTheme, HighlightTheme};

#[test]
fn only_inspired_github_is_light() {
    assert!(HighlightTheme::SolarizedDark.is_dark());
    assert!(HighlightTheme::Base16Mocha.is_dark());
    assert!(HighlightTheme::Base16Ocean.is_dark());
    assert!(HighlightTheme::Base16Eighties.is_dark());
    assert!(!HighlightTheme::InspiredGitHub.is_dark());
}

#[test]
fn window_look_follows_the_highlighter() {
    assert_eq!(HighlightTheme::SolarizedDark.app_theme(), AppTheme::Dark);
    assert_eq!(HighlightTheme::InspiredGitHub.app_theme(), AppTheme::Light);
}
