use siege_op_rando::update::{evaluate_release, is_installer_name, GitHubRelease, GitHubReleaseAsset};

fn asset(name: &str) -> GitHubReleaseAsset {
    GitHubReleaseAsset { name: name.to_string(), browser_download_url: format!("https://example.org/{}", name) }
}

fn release(tag: &str, assets: Vec<GitHubReleaseAsset>) -> GitHubRelease {
    GitHubRelease {
        tag_name: tag.to_string(),
        name: format!("Release {}", tag),
        body: Some("notes".to_string()),
        html_url: "https://example.org/release".to_string(),
        assets,
    }
}

#[test]
fn installer_names() {
    assert!(is_installer_name("r6_op_rando_v1.2.0.exe"));
    assert!(is_installer_name("r6_op_rando.exe"));
    assert!(!is_installer_name("r6_op_rando_v1.2.0.zip"));
    assert!(!is_installer_name("other.exe"));
    assert!(!is_installer_name("r6_op"));
}

#[test]
fn newer_release_offers_first_installer() {
    let r = release("v1.3.0", vec![asset("notes.txt"), asset("r6_op_rando_v1.3.0.exe"), asset("r6_op_rando_alt.exe")]);
    let u = evaluate_release("1.2.0", r).unwrap();
    assert!(u.is_newer);
    assert_eq!(u.asset_name, "r6_op_rando_v1.3.0.exe");
    assert_eq!(u.download_url, "https://example.org/r6_op_rando_v1.3.0.exe");
    assert_eq!(u.current_version, "1.2.0");
    assert_eq!(u.latest_version, "v1.3.0");
    assert_eq!(u.changelog, Some("notes".to_string()));
    assert_eq!(u.release_url, "https://example.org/release");
    assert_eq!(u.release_name, "Release v1.3.0");
}

#[test]
fn same_release_is_not_newer() {
    let u = evaluate_release("1.3.0", release("v1.3.0", vec![asset("r6_op_rando.exe")])).unwrap();
    assert!(!u.is_newer);
}

#[test]
fn release_without_installer_is_an_error() {
    let r = evaluate_release("1.2.0", release("v1.3.0", vec![asset("source.zip")]));
    assert_eq!(r.err(), Some("Could not find a matching .exe asset in release v1.3.0".to_string()));
}

#[test]
fn release_with_unreadable_tag_is_an_error() {
    let r = evaluate_release("1.2.0", release("latest", vec![asset("r6_op_rando.exe")]));
    assert_eq!(
        r.err(),
        Some("Cannot compare versions. Current: v1.2.0, Latest: latest - Please ensure GitHub release uses semantic versioning (e.g., v1.2.0)".to_string())
    );
}
