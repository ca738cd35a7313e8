//! The values every rendered page is given: what build of the service is
//! running.
use vstd::prelude::*;

verus! {

/// Facts about the build of the service.
pub struct BuildInfo {
    /// The package version.
    pub pkg_version: String,
    /// When the build was made, as an RFC 2822 date.
    pub built_time_utc: String,
    /// `git describe` of the sources, when known.
    pub git_version: Option<String>,
    /// Whether the sources had uncommitted changes, when known.
    pub git_dirty: Option<bool>,
    /// The short hash of the commit, when known.
    pub git_commit_hash_short: Option<String>,
    /// The build profile.
    pub profile: String,
}

/// The RFC 3339 text, in UTC, of the RFC 2822 date `s`, or `None` when `s`
/// is no such date.
pub uninterp spec fn rfc3339_of_rfc2822(s: Seq<char>) -> Option<Seq<char>>;

/// Calls `chrono::DateTime::parse_from_rfc2822(s)` and renders the date in
/// UTC with `to_rfc3339`; a date that does not parse gives `None`.
#[verifier::external_body]
fn rfc2822_to_rfc3339(s: &str) -> (res: Option<String>)
    ensures
        res.deep_view() == rfc3339_of_rfc2822(s@),
{
    match chrono::DateTime::parse_from_rfc2822(s) {
        Ok(t) => Some(t.with_timezone(&chrono::offset::Utc).to_rfc3339()),
        Err(_) => None,
    }
}

/// The source version with a `+` for uncommitted changes: `git describe`
/// (or `unknown`), then `+` when the sources were known to be dirty.
pub open spec fn dirty_version(git_version: Option<Seq<char>>, dirty: Option<bool>) -> Seq<char> {
    let v = match git_version {
        Some(g) => g,
        None => "unknown"@,
    };
    if dirty == Some(true) {
        v + "+"@
    } else {
        v
    }
}

/// The source version with a `+` for uncommitted changes.
pub fn git_dirty_version(git_version: &Option<String>, dirty: Option<bool>) -> (res: String)
    ensures
        res@ == dirty_version(git_version.deep_view(), dirty),
{
    let mut v = match git_version {
        Some(g) => g.clone(),
        None => String::from_str("unknown"),
    };
    let is_dirty = match dirty {
        Some(d) => d,
        None => false,
    };
    if is_dirty {
        v.append("+");
    }
    v
}

/// `text`, or `Unknown` when there is none.
pub open spec fn or_unknown(text: Option<Seq<char>>) -> Seq<char> {
    match text {
        Some(t) => t,
        None => "Unknown"@,
    }
}

fn text_or_unknown(text: &Option<String>) -> (res: String)
    ensures
        res@ == or_unknown(text.deep_view()),
{
    match text {
        Some(t) => t.clone(),
        None => String::from_str("Unknown"),
    }
}

/// The entries of a page context (name, value), as values.
pub open spec fn entries_view(e: Seq<(String, String)>) -> Seq<(Seq<char>, Seq<char>)> {
    e.map_values(|p: (String, String)| (p.0@, p.1@))
}

/// The build entries every page gets, in order.
pub open spec fn build_entries(info: BuildInfo, time: Seq<char>) -> Seq<(Seq<char>, Seq<char>)> {
    seq![
        ("build_version"@, info.pkg_version@),
        ("build_time"@, time),
        ("build_git_ver"@, dirty_version(info.git_version.deep_view(), info.git_dirty)),
        ("build_git_version"@, or_unknown(info.git_version.deep_view())),
        ("build_git_commit_short"@, or_unknown(info.git_commit_hash_short.deep_view())),
        ("build_profile"@, info.profile@),
    ]
}

/// The context every page is rendered with: the build entries, the build
/// time written as RFC 3339.  `None` when the build time is no RFC 2822
/// date.
pub fn default_context(info: &BuildInfo) -> (res: Option<Vec<(String, String)>>)
    ensures
        match rfc3339_of_rfc2822(info.built_time_utc@) {
            Some(t) => res matches Some(e) && entries_view(e@) == build_entries(*info, t),
            None => res is None,
        },
{
    context_with_time(info, rfc2822_to_rfc3339(info.built_time_utc.as_str()))
}

/// The build entries for `info` with the build time `time` already written
/// as RFC 3339; `None` when there is no such time.
pub fn context_with_time(info: &BuildInfo, time: Option<String>) -> (res: Option<
    Vec<(String, String)>,
>)
    ensures
        match time {
            Some(t) => res matches Some(e) && entries_view(e@) == build_entries(*info, t@),
            None => res is None,
        },
{
    let time = match time {
        Some(t) => t,
        None => return None,
    };
    let mut e: Vec<(String, String)> = Vec::new();
    let ghost tv = time@;
    e.push((String::from_str("build_version"), info.pkg_version.clone()));
    e.push((String::from_str("build_time"), time));
    e.push(
        (
            String::from_str("build_git_ver"),
            git_dirty_version(&info.git_version, info.git_dirty),
        ),
    );
    e.push((String::from_str("build_git_version"), text_or_unknown(&info.git_version)));
    e.push(
        (String::from_str("build_git_commit_short"), text_or_unknown(&info.git_commit_hash_short)),
    );
    e.push((String::from_str("build_profile"), info.profile.clone()));
    proof {
        assert(entries_view(e@) =~= build_entries(*info, tv));
    }
    Some(e)
}

} // verus!
