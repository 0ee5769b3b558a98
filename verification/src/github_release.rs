//! The releases of one repository, and the queries that pick one of them.
//!
//! The feed lists releases newest first. Nothing here sorts: "first" always
//! means first in the order of the feed.

use vstd::prelude::*;
use crate::github::{release_views, Release, ReleaseView};
use crate::search::{first_set, lemma_first_set_at, lemma_first_set_none, lemma_first_set_sound, lemma_first_set_upto};
use crate::text::same_text;

verus! {

/// For each release, whether it is stable.
pub open spec fn stable_flags(releases: Seq<ReleaseView>) -> Seq<bool> {
    releases.map_values(|r: ReleaseView| !r.prerelease)
}

/// For each release, whether its tag is exactly `tag`.
pub open spec fn tag_flags(releases: Seq<ReleaseView>, tag: Seq<char>) -> Seq<bool> {
    releases.map_values(|r: ReleaseView| r.tag_name == tag)
}

/// The position of the release that "latest" means.
///
/// With `pre_release` it is the head of the list, whatever its flag. Without
/// it, it is the first stable release; where there is none, `stable_only`
/// decides between nothing and the head of the list.
pub open spec fn latest_index(releases: Seq<ReleaseView>, pre_release: bool, stable_only: bool) -> Option<int> {
    if releases.len() == 0 {
        None
    } else if pre_release {
        Some(0)
    } else {
        match first_set(stable_flags(releases)) {
            Some(i) => Some(i),
            None => if stable_only { None } else { Some(0) },
        }
    }
}

/// The position of the first release tagged exactly `tag`.
pub open spec fn tag_index(releases: Seq<ReleaseView>, tag: Seq<char>) -> Option<int> {
    first_set(tag_flags(releases, tag))
}

/// The selector that asks for the latest release rather than for a tag.
pub open spec fn latest_selector() -> Seq<char> {
    "latest"@
}

/// The position of the release that `selector` means: the latest one for
/// the selector `latest`, else the one tagged `selector`.
pub open spec fn resolve_index(releases: Seq<ReleaseView>, selector: Seq<char>, pre_release: bool, stable_only: bool) -> Option<int> {
    if selector == latest_selector() {
        latest_index(releases, pre_release, stable_only)
    } else {
        tag_index(releases, selector)
    }
}

/// `found` is the element of `releases` at `index`, or nothing where there
/// is no index.
pub open spec fn is_release_at(releases: Seq<Release>, index: Option<int>, found: Option<&Release>) -> bool {
    match index {
        Some(i) => 0 <= i < releases.len() && found == Some(&releases[i]),
        None => found is None,
    }
}

/// With `pre_release`, the latest release of a non-empty list is its head,
/// stable or not.
pub proof fn lemma_latest_with_pre_release(releases: Seq<ReleaseView>, stable_only: bool)
    requires
        releases.len() > 0,
    ensures
        latest_index(releases, true, stable_only) == Some(0int),
{
}

/// Where a stable release exists, `stable_only` without `pre_release` gives
/// the first stable release: it is stable and every release before it is a
/// pre-release.
pub proof fn lemma_latest_stable_only(releases: Seq<ReleaseView>)
    requires
        exists|k: int| 0 <= k < releases.len() && !releases[k].prerelease,
    ensures
        latest_index(releases, false, true) is Some,
        ({
            let i = latest_index(releases, false, true).unwrap();
            &&& 0 <= i < releases.len()
            &&& !releases[i].prerelease
            &&& forall|j: int| 0 <= j < i ==> releases[j].prerelease
        }),
{
    let flags = stable_flags(releases);
    let k = choose|k: int| 0 <= k < releases.len() && !releases[k].prerelease;
    assert(flags[k]);
    lemma_first_set_upto(flags, k);
    let i = first_set(flags).unwrap();
    assert forall|j: int| 0 <= j < i implies releases[j].prerelease by {
        assert(!flags[j]);
    }
}

/// Where a stable release exists, the latest release without `pre_release`
/// is the same with and without `stable_only`.
pub proof fn lemma_latest_prefers_stable(releases: Seq<ReleaseView>)
    requires
        exists|k: int| 0 <= k < releases.len() && !releases[k].prerelease,
    ensures
        latest_index(releases, false, false) == latest_index(releases, false, true),
{
    lemma_latest_stable_only(releases);
}

/// Where no release is stable, `stable_only` gives nothing, and without it
/// the head of the list is taken.
pub proof fn lemma_latest_without_stable(releases: Seq<ReleaseView>)
    requires
        forall|k: int| 0 <= k < releases.len() ==> releases[k].prerelease,
    ensures
        latest_index(releases, false, true) is None,
        releases.len() > 0 ==> latest_index(releases, false, false) == Some(0int),
        releases.len() == 0 ==> latest_index(releases, false, false) is None,
{
    lemma_first_set_none(stable_flags(releases));
}

/// A tag is found only verbatim: the release found carries exactly that
/// tag and is the first that does, and nothing is found exactly when no
/// release carries it.
pub proof fn lemma_tag_index_exact(releases: Seq<ReleaseView>, tag: Seq<char>)
    ensures
        match tag_index(releases, tag) {
            Some(i) => {
                &&& 0 <= i < releases.len()
                &&& releases[i].tag_name == tag
                &&& forall|j: int| 0 <= j < i ==> releases[j].tag_name != tag
            },
            None => forall|j: int| 0 <= j < releases.len() ==> releases[j].tag_name != tag,
        },
{
    let flags = tag_flags(releases, tag);
    lemma_first_set_sound(flags);
    match first_set(flags) {
        Some(i) => {
            assert forall|j: int| 0 <= j < i implies releases[j].tag_name != tag by {
                assert(!flags[j]);
            }
        },
        None => {
            assert forall|j: int| 0 <= j < releases.len() implies releases[j].tag_name != tag by {
                assert(!flags[j]);
            }
        },
    }
}

/// The position of the first stable release.
fn first_stable(releases: &[Release]) -> (found: Option<usize>)
    ensures
        match found {
            Some(i) => first_set(stable_flags(release_views(releases@))) == Some(i as int),
            None => first_set(stable_flags(release_views(releases@))) is None,
        },
{
    let ghost flags = stable_flags(release_views(releases@));
    let mut i: usize = 0;
    while i < releases.len()
        invariant
            i <= releases.len(),
            flags == stable_flags(release_views(releases@)),
            forall|j: int| 0 <= j < i ==> !flags[j],
        decreases releases.len() - i,
    {
        if !releases[i].prerelease {
            proof {
                assert(flags[i as int]);
                lemma_first_set_at(flags, i as int);
            }
            return Some(i);
        }
        assert(!flags[i as int]);
        i += 1;
    }
    proof {
        lemma_first_set_none(flags);
    }
    None
}

/// The position of the first release tagged exactly `tag`.
fn first_tagged(releases: &[Release], tag: &str) -> (found: Option<usize>)
    ensures
        match found {
            Some(i) => tag_index(release_views(releases@), tag@) == Some(i as int),
            None => tag_index(release_views(releases@), tag@) is None,
        },
{
    let ghost flags = tag_flags(release_views(releases@), tag@);
    let mut i: usize = 0;
    while i < releases.len()
        invariant
            i <= releases.len(),
            flags == tag_flags(release_views(releases@), tag@),
            forall|j: int| 0 <= j < i ==> !flags[j],
        decreases releases.len() - i,
    {
        if same_text(releases[i].tag_name.as_str(), tag) {
            proof {
                assert(flags[i as int]);
                lemma_first_set_at(flags, i as int);
            }
            return Some(i);
        }
        assert(!flags[i as int]);
        i += 1;
    }
    proof {
        lemma_first_set_none(flags);
    }
    None
}

/// The release that "latest" means among `releases`, under the two flags.
pub fn latest_release<'a>(releases: &'a [Release], pre_release: bool, stable_only: bool) -> (found: Option<&'a Release>)
    ensures
        is_release_at(releases@, latest_index(release_views(releases@), pre_release, stable_only), found),
{
    if releases.len() == 0 {
        return None;
    }
    if pre_release {
        return Some(&releases[0]);
    }
    match first_stable(releases) {
        Some(i) => {
            proof {
                lemma_first_set_sound(stable_flags(release_views(releases@)));
            }
            Some(&releases[i])
        },
        None => if stable_only {
            None
        } else {
            Some(&releases[0])
        },
    }
}

/// The choices of one interactive run.
#[derive(Debug, Clone)]
pub struct Opt {
    /// Allow a pre-release version.
    pub pre_release: bool,
    /// Only select a stable version.
    pub stable_only: bool,
    /// The name to save the download under; the asset's own name if unset.
    pub output: Option<String>,
    /// The repository, as `<user>/<repo>`.
    pub repo: String,
    /// A tag name, or `latest`.
    pub release: String,
}

/// The latest release among `releases` under the flags of `opt`.
pub fn find_latest_release<'a>(releases: &'a [Release], opt: &Opt) -> (found: Option<&'a Release>)
    ensures
        is_release_at(releases@, latest_index(release_views(releases@), opt.pre_release, opt.stable_only), found),
{
    latest_release(releases, opt.pre_release, opt.stable_only)
}

/// The first release among `releases` that is tagged exactly `tag`.
pub fn find_specific_release<'a>(releases: &'a [Release], tag: &str) -> (found: Option<&'a Release>)
    ensures
        is_release_at(releases@, tag_index(release_views(releases@), tag@), found),
{
    match first_tagged(releases, tag) {
        Some(i) => {
            proof {
                lemma_first_set_sound(tag_flags(release_views(releases@), tag@));
            }
            Some(&releases[i])
        },
        None => None,
    }
}

/// Why the releases of a repository could not be had.
#[derive(Debug)]
pub enum Error {
    /// The repository does not exist upstream. Holds the repository asked for.
    RepoNotFound(String),
    /// The server refused the request with this status.
    HttpStatus(u16),
    /// The exchange failed before any status arrived. Holds the transport's words.
    HttpError(String),
    /// An answer arrived whose body is no list of releases. Holds the decoder's words.
    DecodeError(String),
}

impl Error {
    /// The error in words.
    pub fn message(&self) -> (text: String)
        ensures
            text@ == match *self {
                Error::RepoNotFound(repo) => "repo `"@ + repo@ + "` not found"@,
                Error::HttpStatus(_) => "http error"@,
                Error::HttpError(_) => "http error"@,
                Error::DecodeError(_) => "decode error"@,
            },
    {
        match self {
            Error::RepoNotFound(repo) => String::from_str("repo `").concat(repo.as_str()).concat("` not found"),
            Error::HttpStatus(_) => String::from_str("http error"),
            Error::HttpError(_) => String::from_str("http error"),
            Error::DecodeError(_) => String::from_str("decode error"),
        }
    }
}

/// What came back from asking for the feed, once a status had arrived.
pub struct FeedReply {
    /// The status of the answer.
    pub status: u16,
    /// The releases that the body decoded to, or the decoder's words where
    /// it did not decode. Not looked at under an error status.
    pub body: Result<Vec<Release>, String>,
}

/// The status that says that the repository does not exist.
pub const NOT_FOUND: u16 = 404;

/// Whether `status` is one of the client and server error statuses.
pub open spec fn is_error_status(status: u16) -> bool {
    400 <= status <= 599
}

/// Where the feed of `repo` is asked for.
pub fn feed_url(repo: &str) -> (url: String)
    ensures
        url@ == "https://api.github.com/repos/"@ + repo@ + "/releases"@,
{
    String::from_str("https://api.github.com/repos/").concat(repo).concat("/releases")
}

/// The name the client gives itself when it asks for the feed.
pub fn feed_user_agent() -> (agent: &'static str)
    ensures
        agent@ == "reqwest 0.11.3"@,
{
    "reqwest 0.11.3"
}

/// The releases of one repository, as one fetch of its feed delivered them.
pub struct GithubRelease {
    releases: Vec<Release>,
}

impl View for GithubRelease {
    type V = Seq<ReleaseView>;

    open spec fn view(&self) -> Seq<ReleaseView> {
        release_views(self.items())
    }
}

impl GithubRelease {
    /// The releases held, in the order of the feed.
    pub closed spec fn items(&self) -> Seq<Release> {
        self.releases@
    }

    /// A catalog of `releases`, kept in the order given.
    pub fn new(releases: Vec<Release>) -> (catalog: GithubRelease)
        ensures
            catalog.items() == releases@,
    {
        GithubRelease { releases }
    }

    /// The catalog of `repo` from what came back when its feed was asked
    /// for: `reply` is the answer, or the transport's words where no status
    /// arrived.
    ///
    /// A "not found" status means that the repository does not exist; any
    /// other error status and any failure of the transport or of the decoder
    /// is reported as what it is. Anything else is a list of releases.
    pub fn from_reply(repo: &str, reply: Result<FeedReply, String>) -> (fetched: Result<GithubRelease, Error>)
        ensures
            match reply {
                Err(words) => fetched matches Err(Error::HttpError(w)) && w@ == words@,
                Ok(answer) => if answer.status == NOT_FOUND {
                    fetched matches Err(Error::RepoNotFound(name)) && name@ == repo@
                } else if is_error_status(answer.status) {
                    fetched matches Err(Error::HttpStatus(status)) && status == answer.status
                } else {
                    match answer.body {
                        Ok(releases) => fetched matches Ok(catalog) && catalog.items() == releases@,
                        Err(words) => fetched matches Err(Error::DecodeError(w)) && w@ == words@,
                    }
                },
            },
    {
        match reply {
            Err(words) => Err(Error::HttpError(words)),
            Ok(answer) => {
                if answer.status == NOT_FOUND {
                    Err(Error::RepoNotFound(String::from_str(repo)))
                } else if answer.status >= 400 && answer.status <= 599 {
                    Err(Error::HttpStatus(answer.status))
                } else {
                    match answer.body {
                        Ok(releases) => Ok(GithubRelease::new(releases)),
                        Err(words) => Err(Error::DecodeError(words)),
                    }
                }
            },
        }
    }

    /// The releases held, in the order of the feed.
    pub fn releases(&self) -> (all: &[Release])
        ensures
            all@ == self.items(),
    {
        self.releases.as_slice()
    }

    /// The release that "latest" means under the two flags.
    pub fn latest(&self, pre_release: bool, stable_only: bool) -> (found: Option<&Release>)
        ensures
            is_release_at(self.items(), latest_index(self@, pre_release, stable_only), found),
    {
        latest_release(self.releases.as_slice(), pre_release, stable_only)
    }

    /// The first release tagged exactly `tag`.
    pub fn find_tag(&self, tag: &str) -> (found: Option<&Release>)
        ensures
            is_release_at(self.items(), tag_index(self@, tag@), found),
    {
        find_specific_release(self.releases.as_slice(), tag)
    }

    /// The release that `selector` means: the latest one under the two
    /// flags for the selector `latest`, else the one tagged `selector`.
    pub fn resolve(&self, selector: &str, pre_release: bool, stable_only: bool) -> (found: Option<&Release>)
        ensures
            is_release_at(self.items(), resolve_index(self@, selector@, pre_release, stable_only), found),
    {
        if same_text(selector, "latest") {
            self.latest(pre_release, stable_only)
        } else {
            self.find_tag(selector)
        }
    }
}

} // verus!
