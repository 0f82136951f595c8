use listenmoe::updater::installer::{
    cached_download_path, download_target, install_failed_description, installer_command,
    launch_failure, ready_status, supports_updater, update_available_description,
    update_check_body,
};
use listenmoe::updater::release::{
    as_update, cached_download_matches_size, has_installer_name, select_update_release,
    takes_over, update_by_order, CachedFile, ReleaseAsset, ReleaseCandidate,
};
use listenmoe::updater::version::{parse_release_version, strip_tag, VersionOrder};

fn asset(name: &str) -> ReleaseAsset {
    ReleaseAsset {
        name: name.to_string(),
        browser_download_url: format!("https://example.test/{name}"),
        size: 7,
        sha256_digest: Some("digest".to_string()),
    }
}

fn release(tag: &str, assets: &[&str]) -> ReleaseCandidate {
    ReleaseCandidate {
        tag_name: tag.to_string(),
        draft: false,
        prerelease: false,
        assets: assets.iter().map(|name| asset(name)).collect(),
    }
}

#[test]
fn tags_name_versions_with_or_without_a_letter() {
    assert_eq!(parse_release_version(" v1.2.3 ").as_deref(), Some("1.2.3"));
    assert_eq!(parse_release_version("V1.2.3").as_deref(), Some("1.2.3"));
    assert_eq!(
        parse_release_version("1.2.3-beta.1+7").as_deref(),
        Some("1.2.3-beta.1+7")
    );
    assert_eq!(parse_release_version("vv1.2.3"), None);
    assert_eq!(parse_release_version("1.2"), None);
    assert_eq!(parse_release_version(""), None);
    assert_eq!(strip_tag("vx"), "x");
}

#[test]
fn the_newest_release_with_an_installer_is_selected() {
    let mut draft = release("v9.0.0", &["a.msi"]);
    draft.draft = true;
    let mut early = release("v8.0.0", &["a.msi"]);
    early.prerelease = true;
    let releases = vec![
        release("v1.2.0", &["old.msi"]),
        release("v1.10.0", &["note.txt", "First.MSI", "second.msi"]),
        release("v1.9.0", &["middle.msi"]),
        release("v2.0.0", &["note.txt"]),
        release("nonsense", &["x.msi"]),
        draft,
        early,
    ];
    let selected = select_update_release("1.2.0", &releases).expect("release");
    assert_eq!(selected.version, "1.10.0");
    assert_eq!(selected.asset, asset("First.MSI"));
    assert_eq!(select_update_release("1.10.0", &releases), None);
    assert_eq!(select_update_release("1.10", &releases), None);
    assert!(select_update_release("1.10.0-rc.1", &releases).is_some());
    assert_eq!(select_update_release("1.0.0", &[]), None);
}

#[test]
fn of_equally_new_releases_the_last_is_selected() {
    let releases = vec![
        release("v1.3.0", &["one.msi"]),
        release("V1.3.0", &["two.msi"]),
        release("v1.2.9", &["three.msi"]),
    ];
    let selected = select_update_release("1.2.0", &releases).expect("release");
    assert_eq!(selected.asset.name, "two.msi");
}

#[test]
fn a_release_is_judged_by_its_order_and_installer() {
    let plain = release("v1.0.0", &["a.txt", "b.msi"]);
    let newer = update_by_order(&plain, "1.0.0".to_string(), Some(VersionOrder::Newer));
    assert_eq!(newer.expect("update").asset.name, "b.msi");
    for order in [None, Some(VersionOrder::Same), Some(VersionOrder::Older)] {
        assert_eq!(update_by_order(&plain, "1.0.0".to_string(), order), None);
    }
    assert!(takes_over(Some(VersionOrder::Same)) && takes_over(Some(VersionOrder::Newer)));
    assert!(!takes_over(Some(VersionOrder::Older)));
    assert!(as_update("0.9.0", &plain).is_some());
    assert!(as_update("1.0.0", &plain).is_none());
    assert!(has_installer_name("x.MsI") && has_installer_name(".msi"));
    assert!(!has_installer_name("msi") && !has_installer_name("x.msi.sig"));
}

#[test]
fn a_download_is_used_again_if_its_size_is_right() {
    let file = |is_file: bool, len: u64| Some(CachedFile { is_file, len });
    assert!(cached_download_matches_size(file(true, 7), 7));
    assert!(!cached_download_matches_size(file(true, 8), 7));
    assert!(!cached_download_matches_size(file(false, 7), 7));
    assert!(!cached_download_matches_size(None, 7));
}

#[test]
fn the_installer_is_kept_by_version_and_run_silently() {
    let selected =
        select_update_release("1.0.0", &[release("v1.1.0", &["x.msi"])]).expect("release");
    assert_eq!(
        cached_download_path("listenmoe", &selected, "x.msi"),
        vec!["listenmoe", "updates", "1.1.0-x.msi"]
    );
    let target = download_target("listenmoe", &selected, "x.msi");
    assert_eq!(target.size, 7);
    assert_eq!(target.path.len(), 3);
    let (program, flag, rest) = installer_command();
    assert_eq!((program, flag, rest), ("msiexec", "/i", ["/quiet", "/norestart"]));
    assert!(supports_updater());
    assert_eq!(ready_status(), "The installer is ready to run.");
    assert_eq!(install_failed_description(), "Couldn't start the installer.");
    assert_eq!(
        update_available_description(),
        "A newer Windows release is available."
    );
    assert_eq!(
        update_check_body(),
        "Looking for a newer Windows installer on GitHub Releases."
    );
    assert_eq!(
        launch_failure("gone"),
        "Failed to start msiexec for update install: gone"
    );
}
