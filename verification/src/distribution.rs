use vstd::prelude::*;
use vstd::std_specs::iter::IteratorSpec;

verus! {

/// Release page that ordinary builds link to.
pub const UPSTREAM_RELEASES_URL: &'static str = "https://github.com/farion1231/cc-switch/releases/latest";

/// Release page of the compatibility build when none is configured.
pub const COMPAT_RELEASES_URL: &'static str = "https://github.com/jupiterchu/cc-switch/releases";

/// The text of an optional build setting.
pub open spec fn setting_text(setting: Option<&str>) -> Option<Seq<char>> {
    match setting {
        Some(s) => Some(s@),
        None => None,
    }
}

/// A build is a compatibility build exactly when its marker is set to `1`.
pub open spec fn compat_marker_set(marker: Option<Seq<char>>) -> bool {
    marker == Some(seq!['1'])
}

/// The release page a build links to, given its compatibility marker and the
/// configured release page of the compatibility build.
pub open spec fn release_page(marker: Option<Seq<char>>, configured: Option<Seq<char>>) -> Seq<char> {
    if compat_marker_set(marker) {
        match configured {
            Some(url) => if url.len() > 0 { url } else { COMPAT_RELEASES_URL@ },
            None => COMPAT_RELEASES_URL@,
        }
    } else {
        UPSTREAM_RELEASES_URL@
    }
}

/// Whether `s` is exactly the one-character text `1`.
fn is_one(s: &str) -> (b: bool)
    ensures
        b == (s@ == seq!['1']),
{
    broadcast use vstd::string::axiom_spec_iter, vstd::string::next_postcondition;

    let mut chars = s.chars();
    let first = chars.next();
    let second = chars.next();
    proof {
        if s@.len() == 0 {
            assert(first is None);
        } else if s@.len() == 1 {
            assert(first == Some(s@[0]));
            assert(second is None);
            assert(s@ =~= seq![s@[0]]);
        } else {
            assert(second is Some);
        }
    }
    match (first, second) {
        (Some(c), None) => c == '1',
        _ => false,
    }
}

/// Whether this is a compatibility build, given the value of the build's
/// compatibility marker (absent when the marker was not set).
pub fn is_aigocode_compat(compat_build: Option<&str>) -> (b: bool)
    ensures
        b == compat_marker_set(setting_text(compat_build)),
        b <==> (compat_build is Some && compat_build->0@ == seq!['1']),
{
    match compat_build {
        Some(s) => is_one(s),
        None => false,
    }
}

/// The release page that "Check Updates", release notes and recovery
/// download links lead to, given the build's compatibility marker and the
/// release page configured for compatibility builds (each absent when it was
/// not set). A compatibility build uses the configured page unless it is empty,
/// and its own release page otherwise; an ordinary build uses the upstream
/// release page whatever is configured.
pub fn releases_url<'a>(compat_build: Option<&str>, configured_releases_url: Option<&'a str>) -> (url: &'a str)
    ensures
        url@ == release_page(setting_text(compat_build), setting_text(configured_releases_url)),
        url@.len() > 0,
        (compat_build is Some && compat_build->0@ == seq!['1'] && configured_releases_url is Some
            && configured_releases_url->0@.len() > 0) ==> url@ == configured_releases_url->0@,
        (compat_build is Some && compat_build->0@ == seq!['1'] && (configured_releases_url is None
            || configured_releases_url->0@.len() == 0)) ==> url@ == COMPAT_RELEASES_URL@,
        !(compat_build is Some && compat_build->0@ == seq!['1']) ==> url@ == UPSTREAM_RELEASES_URL@,
{
    proof {
        lemma_release_page_nonempty(setting_text(compat_build), setting_text(configured_releases_url));
        lemma_compat_marker_is_exactly_one(setting_text(compat_build));
        lemma_release_page_by_marker(setting_text(compat_build), setting_text(configured_releases_url));
    }
    if is_aigocode_compat(compat_build) {
        match configured_releases_url {
            Some(url) => if url.is_empty() { COMPAT_RELEASES_URL } else { url },
            None => COMPAT_RELEASES_URL,
        }
    } else {
        UPSTREAM_RELEASES_URL
    }
}

/// An ordinary build links to the upstream release page, and the page
/// configured for compatibility builds has no effect on it.
pub proof fn lemma_ordinary_build_keeps_upstream(
    marker: Option<Seq<char>>,
    configured: Option<Seq<char>>,
    other_configured: Option<Seq<char>>,
)
    requires
        !compat_marker_set(marker),
    ensures
        release_page(marker, configured) == UPSTREAM_RELEASES_URL@,
        release_page(marker, configured) == release_page(marker, other_configured),
{
}

/// A compatibility build never links to the upstream release page unless that
/// page is the one configured for it; with nothing (or an empty text)
/// configured it links to its own release page.
pub proof fn lemma_compat_build_leaves_upstream(
    marker: Option<Seq<char>>,
    configured: Option<Seq<char>>,
)
    requires
        compat_marker_set(marker),
    ensures
        configured != Some(UPSTREAM_RELEASES_URL@) ==> release_page(marker, configured)
            != UPSTREAM_RELEASES_URL@,
        (configured is None || configured->0.len() == 0) ==> release_page(marker, configured)
            == COMPAT_RELEASES_URL@,
{
    reveal_strlit("https://github.com/farion1231/cc-switch/releases/latest");
    reveal_strlit("https://github.com/jupiterchu/cc-switch/releases");
    assert(UPSTREAM_RELEASES_URL@[19] != COMPAT_RELEASES_URL@[19]);
}

/// Every build links to some release page: the page is never empty.
pub proof fn lemma_release_page_nonempty(marker: Option<Seq<char>>, configured: Option<Seq<char>>)
    ensures
        release_page(marker, configured).len() > 0,
{
    reveal_strlit("https://github.com/farion1231/cc-switch/releases/latest");
    reveal_strlit("https://github.com/jupiterchu/cc-switch/releases");
}

/// Only the one-character text `1` marks a compatibility build: an unset
/// marker, an empty one, and every other text (such as `0`, `true`, `false`
/// or ` 1`) mark an ordinary build.
pub proof fn lemma_compat_marker_is_exactly_one(marker: Option<Seq<char>>)
    ensures
        compat_marker_set(marker) <==> (marker is Some && marker->0.len() == 1 && marker->0[0]
            == '1'),
{
    if marker is Some && marker->0.len() == 1 && marker->0[0] == '1' {
        assert(marker->0 =~= seq!['1']);
    }
}

/// A compatibility build links to whatever non-empty page is configured for
/// it, exactly as configured, whatever its host, path or length.
pub proof fn lemma_compat_build_uses_configured_page(configured: Seq<char>)
    requires
        configured.len() > 0,
    ensures
        release_page(Some(seq!['1']), Some(configured)) == configured,
{
}

/// What the release page is, by the marker's text: the upstream page unless
/// the marker is exactly `1`; with marker `1`, the configured page when it is
/// non-empty and the fork's page otherwise.
pub proof fn lemma_release_page_by_marker(marker: Option<Seq<char>>, configured: Option<Seq<char>>)
    ensures
        marker != Some(seq!['1']) ==> release_page(marker, configured) == UPSTREAM_RELEASES_URL@,
        (marker == Some(seq!['1']) && configured is Some && configured->0.len() > 0)
            ==> release_page(marker, configured) == configured->0,
        (marker == Some(seq!['1']) && (configured is None || configured->0.len() == 0))
            ==> release_page(marker, configured) == COMPAT_RELEASES_URL@,
{
}

/// The configured page decides the page of a compatibility build: two
/// compatibility builds whose configured pages are non-empty and differ link
/// to different pages.
pub proof fn lemma_configured_pages_are_distinguished(first: Seq<char>, second: Seq<char>)
    requires
        first.len() > 0,
        second.len() > 0,
        first != second,
    ensures
        release_page(Some(seq!['1']), Some(first)) != release_page(Some(seq!['1']), Some(second)),
{
    lemma_compat_build_uses_configured_page(first);
    lemma_compat_build_uses_configured_page(second);
}

} // verus!
