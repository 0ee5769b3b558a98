//! Watching a repository for new releases.
//!
//! A watch entry remembers, for one repository, the tag of the release
//! that was downloaded last and the time of the last check. One check of
//! an entry is driven from outside, like a download: the driver fetches
//! the feed and downloads the asset, and `step` decides.

use vstd::prelude::*;
use crate::download::DownloadError;
use crate::github::{asset_views, release_views, Asset, Release};
use crate::github_release::{latest_index, Error, GithubRelease};
use crate::matcher::{matching_index, select_asset};
use crate::pattern::AssetPattern;
use crate::text::same_text;

verus! {

/// A point in time: `secs` whole seconds since the Unix epoch, and `nanos`
/// nanoseconds on top of them.
#[derive(Debug, Clone, Copy, PartialEq, Eq, Structural)]
pub struct Timestamp {
    pub secs: i64,
    pub nanos: u32,
}

impl Timestamp {
    /// The point in time as nanoseconds since the Unix epoch.
    pub open spec fn total_nanos(self) -> int {
        self.secs * 1_000_000_000 + self.nanos
    }
}

/// The days for which a checked repository is left alone.
pub const QUIET_DAYS: u32 = 30;

/// The nanoseconds for which a checked repository is left alone.
pub open spec fn quiet_nanos() -> int {
    QUIET_DAYS * 86_400 * 1_000_000_000
}

/// One repository under watch, and what is remembered of it.
#[derive(Debug)]
pub struct Repo {
    /// The repository, as `<user>/<repo>`.
    pub repo: String,
    /// The pattern that picks the asset to download by its name.
    pub asset: AssetPattern,
    /// The name to save the download under; the asset's own name if unset.
    pub output: Option<String>,
    /// Allow a pre-release version.
    pub pre_release: bool,
    /// Only select a stable version.
    pub stable_only: bool,
    /// The tag of the release that was downloaded last.
    pub last_version: Option<String>,
    /// When the repository was checked last.
    pub last_update: Option<Timestamp>,
}

/// What a fetched list of releases means for a watch entry.
pub enum Verdict {
    /// There is no release to take, or the one to take was downloaded before.
    UpToDate,
    /// The release at `release` is new, but the pattern matches none of its
    /// assets.
    NoMatch { release: int },
    /// The release at `release` is new; the asset to download is its
    /// asset at `asset`.
    Download { release: int, asset: int },
}

/// Whether `seen` is the text `tag`.
pub open spec fn is_version(seen: Option<String>, tag: Seq<char>) -> bool {
    seen matches Some(version) && version@ == tag
}

/// Whether an entry that was checked last at `last_update` is due at `now`:
/// it is unless it was checked, and less than the quiet time lies between
/// that check and `now`.
pub open spec fn is_due(last_update: Option<Timestamp>, now: Timestamp) -> bool {
    match last_update {
        Some(then) => now.total_nanos() - then.total_nanos() >= quiet_nanos(),
        None => true,
    }
}

/// What `releases` means for `entry`: the latest release under the entry's
/// flags is looked at; it is new unless its tag is the entry's last
/// version; of a new release the first asset that the entry's pattern
/// matches is to be downloaded.
pub open spec fn verdict(entry: Repo, releases: Seq<Release>) -> Verdict {
    match latest_index(release_views(releases), entry.pre_release, entry.stable_only) {
        None => Verdict::UpToDate,
        Some(release) => if is_version(entry.last_version, releases[release].tag_name@) {
            Verdict::UpToDate
        } else {
            match matching_index(asset_views(releases[release].assets@), entry.asset@) {
                None => Verdict::NoMatch { release },
                Some(asset) => Verdict::Download { release, asset },
            }
        },
    }
}

/// What is to be done about a fetched list of releases.
pub enum Plan<'a> {
    /// Nothing: there is no release to take, or it was downloaded before.
    UpToDate,
    /// Nothing: `release` is new, but none of its assets is wanted.
    NoMatch { release: &'a Release },
    /// Download `asset` of the new release `release`.
    Download { release: &'a Release, asset: &'a Asset },
}

/// `plan` names the releases and assets that `verdict` gives the positions
/// of.
pub open spec fn plan_follows(plan: Plan<'_>, verdict: Verdict, releases: Seq<Release>) -> bool {
    match verdict {
        Verdict::UpToDate => plan is UpToDate,
        Verdict::NoMatch { release } => {
            &&& 0 <= release < releases.len()
            &&& plan matches Plan::NoMatch { release: found }
            &&& *found == releases[release]
        },
        Verdict::Download { release, asset } => {
            &&& 0 <= release < releases.len()
            &&& 0 <= asset < releases[release].assets@.len()
            &&& plan matches Plan::Download { release: found, asset: wanted }
            &&& *found == releases[release]
            &&& *wanted == releases[release].assets@[asset]
        },
    }
}

impl Repo {
    /// Whether the repository is to be checked at `now`.
    pub fn needs_check(&self, now: Timestamp) -> (due: bool)
        ensures
            due == is_due(self.last_update, now),
    {
        match self.last_update {
            Some(then) => {
                let seconds: i128 = now.secs as i128 - then.secs as i128;
                let nanos: i128 = now.nanos as i128 - then.nanos as i128;
                let elapsed: i128 = seconds * 1_000_000_000 + nanos;
                elapsed >= 2_592_000_000_000_000
            },
            None => true,
        }
    }

    /// Whether `tag` is the tag of the release that was downloaded last.
    pub fn has_version(&self, tag: &str) -> (seen: bool)
        ensures
            seen == is_version(self.last_version, tag@),
    {
        match &self.last_version {
            Some(version) => same_text(version.as_str(), tag),
            None => false,
        }
    }

    /// What is to be done about the releases of `catalog`.
    pub fn plan<'a>(&self, catalog: &'a GithubRelease) -> (plan: Plan<'a>)
        ensures
            plan_follows(plan, verdict(*self, catalog.items()), catalog.items()),
    {
        match catalog.latest(self.pre_release, self.stable_only) {
            None => Plan::UpToDate,
            Some(release) => {
                if self.has_version(release.tag_name.as_str()) {
                    Plan::UpToDate
                } else {
                    match select_asset(release.assets.as_slice(), &self.asset) {
                        None => Plan::NoMatch { release },
                        Some(asset) => Plan::Download { release, asset },
                    }
                }
            },
        }
    }

    /// Notes that the repository was checked at `now`.
    pub fn record_checked(&mut self, now: Timestamp)
        ensures
            *final(self) == (Repo { last_update: Some(now), ..*old(self) }),
    {
        self.last_update = Some(now);
    }

    /// Notes the outcome of a check at `now` that looked at `release`: the
    /// time of the check in any case, and the tag of `release` as the last
    /// version only if it was downloaded.
    pub fn record_if_new(&mut self, release: &Release, downloaded: bool, now: Timestamp)
        ensures
            final(self).last_update == Some(now),
            downloaded ==> final(self).last_version == Some(release.tag_name),
            !downloaded ==> final(self).last_version == old(self).last_version,
            final(self).repo == old(self).repo,
            final(self).asset == old(self).asset,
            final(self).output == old(self).output,
            final(self).pre_release == old(self).pre_release,
            final(self).stable_only == old(self).stable_only,
    {
        if downloaded {
            self.last_version = Some(release.tag_name.clone());
        }
        self.last_update = Some(now);
    }
}

/// Where one check of a watch entry stands.
#[derive(Debug)]
pub enum Watch {
    /// The check has not begun.
    Idle,
    /// The feed of the repository is being fetched.
    Fetching,
    /// An asset of the release tagged `tag` is being downloaded, to be
    /// saved as `output`.
    Downloading { tag: String, output: String },
    /// The check is over.
    Done,
}

/// What the driver of a check reports.
pub enum WatchEvent {
    /// The check is to begin.
    Begin,
    /// The feed was asked for, and this came of it.
    Fetched { feed: Result<GithubRelease, Error> },
    /// The download was run, and this came of it.
    Downloaded { outcome: Result<(), DownloadError> },
}

/// What the driver of a check is to do next, or how the check ended.
#[derive(Debug)]
pub enum WatchAction {
    /// Ended: the repository was checked too recently to look again.
    Skip,
    /// Fetch the feed of the repository and report what came of it.
    Fetch,
    /// Download from `url`, shown as `display`, into the file `output`, and
    /// report what came of it.
    Download { url: String, display: String, output: String },
    /// Ended: there is nothing newer than what was downloaded last.
    UpToDate,
    /// Ended: there is a new release, but no asset of it is wanted.
    NoMatch,
    /// Ended: a new release was downloaded and saved as `output`.
    Updated { output: String },
    /// Ended: the feed could not be had.
    FetchFailed { error: Error },
    /// Ended: the download failed.
    DownloadFailed { failure: DownloadError },
    /// Ended: an event was reported that the check was not waiting for.
    OutOfTurn,
}

/// The name that `asset` is saved under for `entry`: the entry's output
/// name where it has one, else the asset's own name.
pub open spec fn saved_as(entry: Repo, asset: Asset) -> String {
    match entry.output {
        Some(given) => given,
        None => asset.name,
    }
}

/// `entry` with `now` as the time of its last check.
pub open spec fn checked_at(entry: Repo, now: Timestamp) -> Repo {
    Repo { last_update: Some(now), ..entry }
}

/// The entry, the standing of the check and the action that follow on
/// `event`, reported at `now`.
///
/// An entry that is not due is skipped and stays as it is. A check that
/// finds nothing to download records its time and leaves the last version
/// alone. Only a download that succeeded records the tag of its release as
/// the last version, together with the time. Any failure leaves the entry
/// as it was.
pub open spec fn watch_after(entry: Repo, watch: Watch, event: WatchEvent, now: Timestamp) -> (Repo, Watch, WatchAction) {
    match (watch, event) {
        (Watch::Idle, WatchEvent::Begin) => if is_due(entry.last_update, now) {
            (entry, Watch::Fetching, WatchAction::Fetch)
        } else {
            (entry, Watch::Done, WatchAction::Skip)
        },
        (Watch::Fetching, WatchEvent::Fetched { feed: Err(error) }) => (
            entry,
            Watch::Done,
            WatchAction::FetchFailed { error },
        ),
        (Watch::Fetching, WatchEvent::Fetched { feed: Ok(catalog) }) => match verdict(entry, catalog.items()) {
            Verdict::UpToDate => (checked_at(entry, now), Watch::Done, WatchAction::UpToDate),
            Verdict::NoMatch { .. } => (checked_at(entry, now), Watch::Done, WatchAction::NoMatch),
            Verdict::Download { release, asset } => {
                let found = catalog.items()[release];
                let wanted = found.assets@[asset];
                (
                    entry,
                    Watch::Downloading { tag: found.tag_name, output: saved_as(entry, wanted) },
                    WatchAction::Download {
                        url: wanted.url,
                        display: wanted.name,
                        output: saved_as(entry, wanted),
                    },
                )
            },
        },
        (Watch::Downloading { tag, output }, WatchEvent::Downloaded { outcome: Ok(_) }) => (
            Repo { last_version: Some(tag), last_update: Some(now), ..entry },
            Watch::Done,
            WatchAction::Updated { output },
        ),
        (Watch::Downloading { .. }, WatchEvent::Downloaded { outcome: Err(failure) }) => (
            entry,
            Watch::Done,
            WatchAction::DownloadFailed { failure },
        ),
        _ => (entry, Watch::Done, WatchAction::OutOfTurn),
    }
}

/// What is said of `action` on the repository `repo`, where anything is.
pub open spec fn message_of(action: WatchAction, repo: Seq<char>) -> Option<Seq<char>> {
    match action {
        WatchAction::Skip => Some("Skip "@ + repo),
        WatchAction::Fetch => Some("Checking "@ + repo),
        WatchAction::UpToDate => Some("Update to date "@ + repo),
        WatchAction::Updated { output } => Some("Download update "@ + repo + " as "@ + output@),
        _ => None,
    }
}

impl WatchAction {
    /// What is said of the action on the repository `repo`, where anything
    /// is.
    pub fn message(&self, repo: &str) -> (text: Option<String>)
        ensures
            match message_of(*self, repo@) {
                Some(words) => text matches Some(said) && said@ == words,
                None => text is None,
            },
    {
        match self {
            WatchAction::Skip => Some(String::from_str("Skip ").concat(repo)),
            WatchAction::Fetch => Some(String::from_str("Checking ").concat(repo)),
            WatchAction::UpToDate => Some(String::from_str("Update to date ").concat(repo)),
            WatchAction::Updated { output } => Some(
                String::from_str("Download update ").concat(repo).concat(" as ").concat(output.as_str()),
            ),
            _ => None,
        }
    }
}

/// Answers `event`, reported at `now`, for the check of `entry` that
/// stands at `watch`: brings the entry up to date and returns the new
/// standing and what to do next.
pub fn step(entry: &mut Repo, watch: Watch, event: WatchEvent, now: Timestamp) -> (next: (Watch, WatchAction))
    ensures
        (*final(entry), next.0, next.1) == watch_after(*old(entry), watch, event, now),
{
    match (watch, event) {
        (Watch::Idle, WatchEvent::Begin) => {
            if entry.needs_check(now) {
                (Watch::Fetching, WatchAction::Fetch)
            } else {
                (Watch::Done, WatchAction::Skip)
            }
        },
        (Watch::Fetching, WatchEvent::Fetched { feed: Err(error) }) => (
            Watch::Done,
            WatchAction::FetchFailed { error },
        ),
        (Watch::Fetching, WatchEvent::Fetched { feed: Ok(catalog) }) => {
            let plan = entry.plan(&catalog);
            match plan {
                Plan::UpToDate => {
                    entry.record_checked(now);
                    (Watch::Done, WatchAction::UpToDate)
                },
                Plan::NoMatch { release } => {
                    entry.record_checked(now);
                    (Watch::Done, WatchAction::NoMatch)
                },
                Plan::Download { release, asset } => {
                    let output = match &entry.output {
                        Some(given) => given.clone(),
                        None => asset.name.clone(),
                    };
                    (
                        Watch::Downloading { tag: release.tag_name.clone(), output: output.clone() },
                        WatchAction::Download { url: asset.url.clone(), display: asset.name.clone(), output },
                    )
                },
            }
        },
        (Watch::Downloading { tag, output }, WatchEvent::Downloaded { outcome: Ok(_) }) => {
            entry.last_version = Some(tag);
            entry.last_update = Some(now);
            (Watch::Done, WatchAction::Updated { output })
        },
        (Watch::Downloading { .. }, WatchEvent::Downloaded { outcome: Err(failure) }) => (
            Watch::Done,
            WatchAction::DownloadFailed { failure },
        ),
        _ => (Watch::Done, WatchAction::OutOfTurn),
    }
}

/// The last version of an entry changes on no event but the report of a
/// download that succeeded.
pub proof fn lemma_last_version_kept(entry: Repo, watch: Watch, event: WatchEvent, now: Timestamp)
    ensures
        watch_after(entry, watch, event, now).0.last_version != entry.last_version ==> {
            &&& watch is Downloading
            &&& event matches WatchEvent::Downloaded { outcome: Ok(_) }
        },
{
}

/// A download is only ever asked for of a release whose tag is not the
/// last version of the entry.
pub proof fn lemma_download_is_new(entry: Repo, catalog: GithubRelease, now: Timestamp)
    ensures
        watch_after(entry, Watch::Fetching, WatchEvent::Fetched { feed: Ok(catalog) }, now).1 matches Watch::Downloading {
            tag,
            ..
        } ==> !is_version(entry.last_version, tag@),
{
}

/// A fetched feed that leads to no download leaves the last version as it
/// was and records the time of the check.
pub proof fn lemma_check_without_download(entry: Repo, catalog: GithubRelease, now: Timestamp)
    requires
        !(verdict(entry, catalog.items()) is Download),
    ensures
        ({
            let after = watch_after(entry, Watch::Fetching, WatchEvent::Fetched { feed: Ok(catalog) }, now);
            &&& after.0.last_version == entry.last_version
            &&& after.0.last_update == Some(now)
            &&& after.1 is Done
        }),
{
}

/// An entry that was checked a number of whole days before `now` is due
/// exactly when those days are thirty or more.
pub proof fn lemma_due_after_days(then: Timestamp, now: Timestamp, days: int)
    requires
        now.nanos == then.nanos,
        now.secs == then.secs + days * 86_400,
    ensures
        is_due(Some(then), now) <==> days >= QUIET_DAYS,
{
}

/// An entry that was never checked is due at any time.
pub proof fn lemma_due_when_never_checked(now: Timestamp)
    ensures
        is_due(None, now),
{
}

} // verus!
