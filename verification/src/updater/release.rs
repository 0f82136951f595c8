//! Which release to update to.
use vstd::prelude::*;

use crate::meta::track;
use crate::meta::track::copied_text;
use crate::text;
use crate::text::{chars_of, is_text, lower_chars};
use crate::updater::version;
use crate::updater::version::{parse_release_version, version_order, is_version, VersionOrder};

verus! {

/// A file of a release.
#[derive(Debug, Clone, PartialEq, Eq)]
pub struct ReleaseAsset {
    pub name: String,
    pub browser_download_url: String,
    pub size: u64,
    pub sha256_digest: Option<String>,
}

/// What a file of a release is, its texts as sequences.
pub struct AssetView {
    pub name: Seq<char>,
    pub browser_download_url: Seq<char>,
    pub size: u64,
    pub sha256_digest: Option<Seq<char>>,
}

impl View for ReleaseAsset {
    type V = AssetView;

    open spec fn view(&self) -> AssetView {
        AssetView {
            name: self.name@,
            browser_download_url: self.browser_download_url@,
            size: self.size,
            sha256_digest: track::maybe(self.sha256_digest),
        }
    }
}

/// A release that may be updated to.
#[derive(Debug, Clone, PartialEq, Eq)]
pub struct ReleaseCandidate {
    pub tag_name: String,
    pub draft: bool,
    pub prerelease: bool,
    pub assets: Vec<ReleaseAsset>,
}

/// The release that is updated to: its version and the installer.
#[derive(Debug, Clone, PartialEq, Eq)]
pub struct SelectedRelease {
    pub version: String,
    pub asset: ReleaseAsset,
}

/// What a selected release is, its version as text.
pub struct SelectedView {
    pub version: Seq<char>,
    pub asset: AssetView,
}

impl View for SelectedRelease {
    type V = SelectedView;

    open spec fn view(&self) -> SelectedView {
        SelectedView { version: self.version@, asset: self.asset@ }
    }
}

/// Whether a file is an installer, by the end of its name.
pub open spec fn is_installer(name: Seq<char>) -> bool {
    ".msi"@.is_suffix_of(text::lower(name))
}

pub fn has_installer_name(name: &str) -> (r: bool)
    ensures
        r == is_installer(name@),
{
    let chars = chars_of(name);
    let lowered = lower_chars(chars.as_slice());
    let n: usize = lowered.len();
    proof {
        reveal_strlit(".msi");
    }
    if n < 4 {
        return false;
    }
    let end = vstd::slice::slice_subrange(lowered.as_slice(), n - 4, n);
    is_text(end, ".msi")
}

/// The first installer from `from` on.
pub open spec fn installer_from(assets: Seq<ReleaseAsset>, from: int) -> Option<int>
    decreases assets.len() - from,
{
    if from >= assets.len() {
        None
    } else if is_installer(assets[from].name@) {
        Some(from)
    } else {
        installer_from(assets, from + 1)
    }
}

impl ReleaseCandidate {
    /// What a release is as one to update to from the given version: it is meant for everybody, its
    /// tag names a newer version, and it has an installer.
    pub open spec fn update_from(self, current: Seq<char>) -> Option<SelectedView> {
        let version = version::tag_version(self.tag_name@);
        match installer_from(self.assets@, 0) {
            Some(i) if !self.draft && !self.prerelease && version::is_semver(version)
                && version::semver_order(version, current) == Some(VersionOrder::Newer) => Some(
                SelectedView { version, asset: self.assets@[i]@ },
            ),
            _ => None,
        }
    }
}

/// The better one of two releases to update to: the second unless it is older.
pub open spec fn better(best: Option<SelectedView>, next: Option<SelectedView>) -> Option<
    SelectedView,
> {
    match (best, next) {
        (None, _) => next,
        (_, None) => best,
        (Some(b), Some(n)) => if version::semver_order(n.version, b.version) == Some(
            VersionOrder::Older,
        ) {
            best
        } else {
            next
        },
    }
}

/// The best one of several releases to update to: of the newest, the last.
pub open spec fn best_update(current: Seq<char>, releases: Seq<ReleaseCandidate>) -> Option<
    SelectedView,
>
    decreases releases.len(),
{
    if releases.len() == 0 {
        None
    } else {
        better(best_update(current, releases.drop_last()), releases.last().update_from(current))
    }
}

/// Whether no release to update to is newer than the given version.
pub open spec fn none_is_newer(
    version: Seq<char>,
    current: Seq<char>,
    releases: Seq<ReleaseCandidate>,
) -> bool {
    forall|i: int|
        #![trigger releases[i]]
        0 <= i < releases.len() ==> (releases[i].update_from(current) matches Some(other)
            ==> version::at_most(other.version, version))
}

fn copied_asset(asset: &ReleaseAsset) -> (r: ReleaseAsset)
    ensures
        r@ == asset@,
{
    ReleaseAsset {
        name: asset.name.clone(),
        browser_download_url: asset.browser_download_url.clone(),
        size: asset.size,
        sha256_digest: copied_text(&asset.sha256_digest),
    }
}

fn find_installer(assets: &Vec<ReleaseAsset>) -> (r: Option<ReleaseAsset>)
    ensures
        match installer_from(assets@, 0) {
            Some(i) => r is Some && 0 <= i < assets@.len() && r->0@ == assets@[i]@,
            None => r is None,
        },
{
    let mut i: usize = 0;
    while i < assets.len()
        invariant
            i <= assets@.len(),
            installer_from(assets@, i as int) == installer_from(assets@, 0),
        decreases assets@.len() - i,
    {
        if has_installer_name(&assets[i].name) {
            return Some(copied_asset(&assets[i]));
        }
        i += 1;
    }
    None
}

/// What a release with the given version is as one to update to, by how that version stands to the
/// current one.
pub fn update_by_order(
    release: &ReleaseCandidate,
    version: String,
    order: Option<VersionOrder>,
) -> (r: Option<SelectedRelease>)
    ensures
        match installer_from(release.assets@, 0) {
            Some(i) if !release.draft && !release.prerelease && order == Some(VersionOrder::Newer)
                => r is Some && r->0@ == (SelectedView {
                version: version@,
                asset: release.assets@[i]@,
            }),
            _ => r is None,
        },
{
    if release.draft || release.prerelease || order != Some(VersionOrder::Newer) {
        return None;
    }
    match find_installer(&release.assets) {
        Some(asset) => Some(SelectedRelease { version, asset }),
        None => None,
    }
}

/// Whether a release takes the place of the best one so far, by how its version stands to that
/// one's.
pub fn takes_over(order: Option<VersionOrder>) -> (r: bool)
    ensures
        r == (order != Some(VersionOrder::Older)),
{
    order != Some(VersionOrder::Older)
}

/// What a release is as one to update to from the given version.
pub fn as_update(current_version: &str, release: &ReleaseCandidate) -> (r: Option<SelectedRelease>)
    ensures
        match release.update_from(current_version@) {
            Some(update) => r is Some && r->0@ == update && version::is_semver(update.version),
            None => r is None,
        },
{
    match parse_release_version(&release.tag_name) {
        Some(version) => {
            let order = version_order(&version, current_version);
            update_by_order(release, version, order)
        },
        None => None,
    }
}

/// The release to update to: of those meant for everybody that are newer than the current version
/// and have an installer, the newest, and the last of several that are equally new. There is none
/// where the current version is not known.
pub fn select_update_release(current_version: &str, releases: &[ReleaseCandidate]) -> (r: Option<
    SelectedRelease,
>)
    ensures
        !version::is_semver(current_version@) ==> r is None,
        version::is_semver(current_version@) ==> match best_update(current_version@, releases@) {
            Some(update) => r is Some && r->0@ == update && none_is_newer(
                update.version,
                current_version@,
                releases@,
            ),
            None => r is None,
        },
{
    if !is_version(current_version) {
        return None;
    }
    let ghost current = current_version@;
    let mut best: Option<SelectedRelease> = None;
    let mut i: usize = 0;
    while i < releases.len()
        invariant
            i <= releases@.len(),
            current == current_version@,
            match best_update(current, releases@.take(i as int)) {
                Some(update) => {
                    &&& best is Some
                    &&& best->0@ == update
                    &&& version::is_semver(update.version)
                    &&& none_is_newer(update.version, current, releases@.take(i as int))
                },
                None => best is None && forall|k: int|
                    #![trigger releases@[k]]
                    0 <= k < i ==> releases@[k].update_from(current) is None,
            },
        decreases releases@.len() - i,
    {
        let ghost seen = releases@.take(i + 1);
        let ghost before = releases@.take(i as int);
        assert(seen.drop_last() =~= before);
        assert(seen.last() == releases@[i as int]);
        let next = as_update(current_version, &releases[i]);
        assert forall|k: int| 0 <= k < i implies #[trigger] seen[k] == before[k] by {}
        match next {
            Some(update) => {
                let itself = version_order(&update.version, &update.version);
                assert(itself == Some(VersionOrder::Same));
                let take = match &best {
                    Some(b) => takes_over(version_order(&update.version, &b.version)),
                    None => true,
                };
                if take {
                    assert(none_is_newer(update.version@, current, seen)) by {
                        assert forall|k: int|
                            #![trigger seen[k]]
                            0 <= k < seen.len() implies (seen[k].update_from(current) matches Some(
                            other,
                        ) ==> version::at_most(other.version, update.version@)) by {
                            if k < i {
                                assert(seen[k] == before[k]);
                                assert(before[k] == releases@[k]);
                            }
                        }
                    }
                    best = Some(update);
                }
            },
            None => {},
        }
        i += 1;
    }
    assert(releases@.take(i as int) =~= releases@);
    best
}

/// What is known of a file that was downloaded before: whether it is a plain file, and its size.
#[derive(Debug, Clone, Copy, PartialEq, Eq, Structural)]
pub struct CachedFile {
    pub is_file: bool,
    pub len: u64,
}

/// Whether a file that was downloaded before can be used: it is there, a plain file, and has the
/// size that the release gives.
pub fn cached_download_matches_size(file: Option<CachedFile>, expected_size: u64) -> (r: bool)
    ensures
        r == (match file {
            Some(found) => found.is_file && found.len == expected_size,
            None => false,
        }),
{
    match file {
        Some(found) => found.is_file && found.len == expected_size,
        None => false,
    }
}

/// A file is an installer just if its name ends in `.msi`, in letters of either case.
pub proof fn law_installers_end_in_msi(name: Seq<char>)
    ensures
        is_installer(name) <==> (name.len() >= 4 && name[name.len() - 4] == '.' && (
        name[name.len() - 3] == 'm' || name[name.len() - 3] == 'M') && (name[name.len() - 2] == 's'
            || name[name.len() - 2] == 'S') && (name[name.len() - 1] == 'i' || name[name.len() - 1]
            == 'I')),
{
    reveal_strlit(".msi");
    let small = text::lower(name);
    let n = name.len() as int;
    if n >= 4 {
        let end = small.subrange(n - 4, n);
        assert(end[0] == small[n - 4]);
        assert(end[1] == small[n - 3]);
        assert(end[2] == small[n - 2]);
        assert(end[3] == small[n - 1]);
        assert(text::lower_char(name[n - 4]) == small[n - 4]);
        assert(text::lower_char(name[n - 3]) == small[n - 3]);
        assert(text::lower_char(name[n - 2]) == small[n - 2]);
        assert(text::lower_char(name[n - 1]) == small[n - 1]);
        assert(".msi"@.is_suffix_of(small) <==> end =~= ".msi"@);
        assert(end =~= ".msi"@ <==> end[0] == '.' && end[1] == 'm' && end[2] == 's' && end[3]
            == 'i');
    }
}

proof fn lemma_installer_from(assets: Seq<ReleaseAsset>, from: int)
    requires
        0 <= from,
    ensures
        match installer_from(assets, from) {
            Some(i) => {
                &&& from <= i < assets.len()
                &&& is_installer(assets[i].name@)
                &&& forall|j: int| from <= j < i ==> !is_installer((#[trigger] assets[j]).name@)
            },
            None => forall|j: int|
                from <= j < assets.len() ==> !is_installer((#[trigger] assets[j]).name@),
        },
    decreases assets.len() - from,
{
    if from < assets.len() && !is_installer(assets[from].name@) {
        lemma_installer_from(assets, from + 1);
    }
}

/// A release is updated to only if it is meant for everybody, is newer, and has an installer; the
/// first installer is taken. A release that has all that is one to update to.
pub proof fn law_updates_are_newer_and_installable(release: ReleaseCandidate, current: Seq<char>)
    ensures
        release.update_from(current) matches Some(update) ==> {
            &&& !release.draft
            &&& !release.prerelease
            &&& update.version == version::tag_version(release.tag_name@)
            &&& version::semver_order(update.version, current) == Some(VersionOrder::Newer)
            &&& exists|i: int|
                0 <= i < release.assets@.len() && update.asset == (#[trigger] release.assets@[i])@
                    && is_installer(release.assets@[i].name@) && forall|j: int|
                    0 <= j < i ==> !is_installer((#[trigger] release.assets@[j]).name@)
        },
        release.update_from(current) is None ==> release.draft || release.prerelease
            || !version::is_semver(version::tag_version(release.tag_name@))
            || version::semver_order(version::tag_version(release.tag_name@), current) != Some(
            VersionOrder::Newer,
        ) || forall|j: int|
            0 <= j < release.assets@.len() ==> !is_installer((#[trigger] release.assets@[j]).name@),
{
    lemma_installer_from(release.assets@, 0);
    if let Some(update) = release.update_from(current) {
        let i = installer_from(release.assets@, 0)->0;
        assert(update.asset == release.assets@[i]@);
    }
}

/// What is updated to is one of the releases, and there is something to update to where any release
/// is.
pub proof fn law_update_is_one_of_the_releases(current: Seq<char>, releases: Seq<ReleaseCandidate>)
    ensures
        match best_update(current, releases) {
            Some(update) => exists|i: int|
                0 <= i < releases.len() && #[trigger] releases[i].update_from(current) == Some(
                    update,
                ),
            None => forall|i: int|
                0 <= i < releases.len() ==> #[trigger] releases[i].update_from(current) is None,
        },
    decreases releases.len(),
{
    if releases.len() > 0 {
        let before = releases.drop_last();
        law_update_is_one_of_the_releases(current, before);
        match best_update(current, releases) {
            Some(update) => {
                if releases.last().update_from(current) == Some(update) {
                    assert(releases[releases.len() - 1].update_from(current) == Some(update));
                } else {
                    let i = choose|i: int|
                        0 <= i < before.len() && #[trigger] before[i].update_from(current) == Some(
                            update,
                        );
                    assert(releases[i].update_from(current) == Some(update));
                }
            },
            None => {
                assert forall|i: int| 0 <= i < releases.len() implies #[trigger] releases[i].update_from(
                    current,
                ) is None by {
                    if i < before.len() {
                        assert(before[i].update_from(current) is None);
                    }
                }
            },
        }
    }
}

/// Of two releases the later one in the list is taken unless it is the older one.
pub proof fn law_older_releases_do_not_take_over(
    current: Seq<char>,
    releases: Seq<ReleaseCandidate>,
    release: ReleaseCandidate,
)
    ensures
        ({
            let best = best_update(current, releases);
            let next = release.update_from(current);
            let after = best_update(current, releases.push(release));
            &&& next is None ==> after == best
            &&& best is None ==> after == next
            &&& best is Some && next is Some && version::semver_order(
                next->0.version,
                best->0.version,
            ) == Some(VersionOrder::Older) ==> after == best
            &&& best is Some && next is Some && version::semver_order(
                next->0.version,
                best->0.version,
            ) != Some(VersionOrder::Older) ==> after == next
        }),
{
    assert(releases.push(release).drop_last() =~= releases);
}

} // verus!
