use stelliberty_service::update::{
    evaluate_release, find_matching_asset, get_architecture, get_platform_match_rules, tag_version,
    GitHubAsset,
};

fn asset(name: &str) -> GitHubAsset {
    GitHubAsset {
        name: name.to_string(),
        browser_download_url: format!("https://example.org/dl/{}", name),
    }
}

fn release_assets() -> Vec<GitHubAsset> {
    vec![
        asset("Stelliberty-1.2.0-linux-x64.tar.gz"),
        asset("Stelliberty-1.2.0-Windows-ARM64-Setup.exe"),
        asset("Stelliberty-1.2.0-Windows-x64-Setup.EXE"),
        asset("Stelliberty-1.2.0-Windows-x64-portable.exe"),
        asset("Stelliberty-1.2.0-Linux-AMD64.AppImage"),
        asset("Stelliberty-1.2.0-macOS-Apple-Silicon.dmg"),
        asset("Stelliberty-1.2.0-android.apk"),
    ]
}

#[test]
fn windows_installer_is_found_whatever_the_case() {
    assert_eq!(
        find_matching_asset(&release_assets(), "windows", "x64"),
        Some("https://example.org/dl/Stelliberty-1.2.0-Windows-x64-Setup.EXE".to_string())
    );
    assert_eq!(
        find_matching_asset(&release_assets(), "windows", "arm64"),
        Some("https://example.org/dl/Stelliberty-1.2.0-Windows-ARM64-Setup.exe".to_string())
    );
}

#[test]
fn other_platforms() {
    let assets = release_assets();
    assert_eq!(
        find_matching_asset(&assets, "linux", "x64"),
        Some("https://example.org/dl/Stelliberty-1.2.0-Linux-AMD64.AppImage".to_string())
    );
    assert_eq!(find_matching_asset(&assets, "linux", "arm64"), None);
    assert_eq!(
        find_matching_asset(&assets, "macos", "arm64"),
        Some("https://example.org/dl/Stelliberty-1.2.0-macOS-Apple-Silicon.dmg".to_string())
    );
    assert_eq!(
        find_matching_asset(&assets, "android", "arm64"),
        Some("https://example.org/dl/Stelliberty-1.2.0-android.apk".to_string())
    );
    assert_eq!(find_matching_asset(&assets, "freebsd", "x64"), None);
    assert_eq!(find_matching_asset(&vec![], "windows", "x64"), None);
}

#[test]
fn platform_rules() {
    let r = get_platform_match_rules("windows", "x64").unwrap();
    assert_eq!(r.file_extension, ".exe");
    assert_eq!(r.arch_keywords, vec!["x64", "amd64", "x86_64"]);
    assert_eq!(r.required_keywords, vec!["setup"]);
    let r = get_platform_match_rules("macos", "arm64").unwrap();
    assert_eq!(r.arch_keywords, vec!["arm64", "aarch64", "apple-silicon"]);
    assert!(get_platform_match_rules("android", "x64").unwrap().arch_keywords.is_empty());
    assert!(get_platform_match_rules("ios", "arm64").is_none());
}

#[test]
fn release_evaluation() {
    let r = evaluate_release(
        "1.1.9",
        "vv1.2.0",
        "https://example.org/release".to_string(),
        Some("notes".to_string()),
        &release_assets(),
        "linux",
        "x64",
    );
    assert_eq!(r.current_version, "1.1.9");
    assert_eq!(r.latest_version, "1.2.0");
    assert!(r.has_update);
    assert_eq!(
        r.download_url,
        Some("https://example.org/dl/Stelliberty-1.2.0-Linux-AMD64.AppImage".to_string())
    );
    assert_eq!(r.release_notes, Some("notes".to_string()));
    assert_eq!(r.html_url, Some("https://example.org/release".to_string()));
    let same = evaluate_release("1.2.0", "v1.2.0", String::new(), None, &vec![], "linux", "x64");
    assert!(!same.has_update);
    assert_eq!(same.download_url, None);
}

#[test]
fn tag_versions_and_architectures() {
    assert_eq!(tag_version("v2.0.1"), "2.0.1");
    assert_eq!(tag_version("2.0.1v"), "2.0.1v");
    assert_eq!(tag_version("vvv"), "");
    assert_eq!(get_architecture("aarch64"), "arm64");
    assert_eq!(get_architecture("x86_64"), "x64");
    assert_eq!(get_architecture("riscv64"), "riscv64");
}
