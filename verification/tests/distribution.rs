use lib::distribution::{is_aigocode_compat, releases_url, COMPAT_RELEASES_URL, UPSTREAM_RELEASES_URL};

#[test]
fn compat_marker_one_marks_compat_build() {
    assert!(is_aigocode_compat(Some("1")));
}

#[test]
fn unset_marker_is_ordinary_build() {
    assert!(!is_aigocode_compat(None));
}

#[test]
fn other_marker_values_are_ordinary_builds() {
    for value in ["", "0", "true", "11", " 1", "1 ", "yes", "１"] {
        assert!(!is_aigocode_compat(Some(value)), "{value:?}");
    }
}

#[test]
fn ordinary_build_uses_upstream_latest_release() {
    assert_eq!(releases_url(None, None), "https://github.com/farion1231/cc-switch/releases/latest");
    assert_eq!(releases_url(Some("0"), None), UPSTREAM_RELEASES_URL);
}

#[test]
fn ordinary_build_ignores_configured_release_page() {
    let configured = "https://github.com/jupiterchu/cc-switch/releases";
    assert_eq!(releases_url(None, Some(configured)), UPSTREAM_RELEASES_URL);
    assert_eq!(releases_url(Some("true"), Some("https://example.com/releases")), UPSTREAM_RELEASES_URL);
}

#[test]
fn compat_build_without_configured_page_uses_fork_releases() {
    assert_eq!(releases_url(Some("1"), None), "https://github.com/jupiterchu/cc-switch/releases");
    assert_eq!(releases_url(Some("1"), None), COMPAT_RELEASES_URL);
}

#[test]
fn compat_build_with_empty_configured_page_uses_fork_releases() {
    assert_eq!(releases_url(Some("1"), Some("")), COMPAT_RELEASES_URL);
}

#[test]
fn compat_build_uses_configured_release_page() {
    assert_eq!(
        releases_url(Some("1"), Some("https://example.com/mirror/releases")),
        "https://example.com/mirror/releases"
    );
    // A configured page that is only whitespace is not empty and is kept.
    assert_eq!(releases_url(Some("1"), Some(" ")), " ");
}

#[test]
fn compat_build_default_page_differs_from_upstream() {
    assert_ne!(releases_url(Some("1"), None), releases_url(None, None));
}

#[test]
fn release_page_is_never_empty() {
    for marker in [None, Some(""), Some("1"), Some("0")] {
        for configured in [None, Some(""), Some("x")] {
            assert!(!releases_url(marker, configured).is_empty());
        }
    }
}
