use naty::bundle::{
    bundle_dir_name, executable_name, fill_version, plan_bundles, plan_executable,
    release_template, ExecutableSource,
};
use naty::error::NatyError;
use naty::icon::{
    select_icon, IconCandidate, IconEvent, IconFormat, IconKind, IconResolver, IconSize,
    IconStage, IconStep, IconTask,
};
use naty::naming::{def_name, fallback_app_name, get_webpage_name, maybe_remove, ParsedUrl};
use naty::platform::{resolve_platforms, Platform};
use naty::settings::{def_false, def_height, def_true, def_width, AppSettings};
use naty::snapshot::{serialize_snapshot, snapshot_table};

fn candidate(w: u32, h: u32, kind: IconKind, format: IconFormat, url: &str) -> IconCandidate {
    IconCandidate { url: url.to_string(), kind, format, size: Some(IconSize { width: w, height: h }) }
}

fn settings_for(url: &str) -> AppSettings {
    AppSettings::new(url.to_string())
}

#[test]
fn defaults_have_their_values() {
    assert_eq!(def_height(), 800);
    assert_eq!(def_width(), 1280);
    assert!(!def_false());
    assert!(def_true());
    assert_eq!(def_name(), "Application Title");
    assert_eq!(fallback_app_name(), "App Name");
}

#[test]
fn new_settings_take_the_defaults() {
    let s = settings_for("https://example.com");
    assert_eq!(s.target_url, "https://example.com");
    assert_eq!(s.output_dir, ".");
    assert_eq!(s.height, 800);
    assert_eq!(s.width, 1280);
    assert_eq!(s.max_width, u32::MAX);
    assert_eq!(s.min_height, 0);
    assert!(s.name.is_none() && s.icon.is_none() && s.platforms.is_empty());
    assert_eq!(s.desktop_entry_path, "~/.local/share/applications");
}

#[test]
fn platform_from_os_identifier() {
    assert_eq!(Platform::from("linux"), Platform::Linux);
    assert_eq!(Platform::from("windows"), Platform::Windows);
    assert_eq!(Platform::from("macos"), Platform::MacOs);
    assert_eq!(Platform::from("freebsd"), Platform::MacOs);
    assert_eq!(Platform::Windows.tag(), "windows");
    assert_eq!(Platform::MacOs.tag(), "macos");
}

#[test]
fn resolve_removes_duplicates_in_first_seen_order() {
    let r = resolve_platforms(
        &vec![Platform::Windows, Platform::Linux, Platform::Windows, Platform::Linux, Platform::MacOs],
        Platform::Linux,
    );
    assert_eq!(r, vec![Platform::Windows, Platform::Linux, Platform::MacOs]);
}

#[test]
fn resolve_keeps_non_adjacent_order() {
    let r = resolve_platforms(&vec![Platform::MacOs, Platform::MacOs, Platform::Linux], Platform::Windows);
    assert_eq!(r, vec![Platform::MacOs, Platform::Linux]);
}

#[test]
fn resolve_empty_gives_host() {
    assert_eq!(resolve_platforms(&vec![], Platform::Windows), vec![Platform::Windows]);
}

#[test]
fn maybe_remove_cuts_first_occurrences() {
    assert_eq!(maybe_remove("https://www.example.com", &["https://", "www."]), "example.com");
    assert_eq!(maybe_remove("example.com", &["https://", "www."]), "example.com");
    assert_eq!(maybe_remove("a.www.b", &["www."]), "a.b");
    assert_eq!(maybe_remove("abcx", &["cx"]), "ab");
    assert_eq!(maybe_remove("example.com", &[".com"]), "example");
    assert_eq!(maybe_remove("x.com.com", &[".com"]), "x.com");
    assert_eq!(maybe_remove("abc", &[""]), "abc");
    assert_eq!(maybe_remove("", &["x"]), "");
    assert_eq!(maybe_remove("aab", &["a", "a"]), "b");
    assert_eq!(maybe_remove("baab", &["ab", "b"]), "a");
}

#[test]
fn webpage_name_prefers_the_given_name() {
    let u = ParsedUrl { domain: Some("example.com".to_string()) };
    assert_eq!(get_webpage_name(Some("Mine"), &u), "Mine");
}

#[test]
fn webpage_name_from_domain() {
    let u = ParsedUrl { domain: Some("example.com".to_string()) };
    assert_eq!(get_webpage_name(None, &u), "example");
    let u = ParsedUrl { domain: Some("www.example.co.uk".to_string()) };
    assert_eq!(get_webpage_name(None, &u), "example.co");
    let u = ParsedUrl { domain: Some("localhost".to_string()) };
    assert_eq!(get_webpage_name(None, &u), "App Name");
    let u = ParsedUrl { domain: None };
    assert_eq!(get_webpage_name(None, &u), "App Name");
}

#[test]
fn derived_name_end_to_end() {
    let u = ParsedUrl::parse("https://example.com").unwrap();
    assert_eq!(u.domain.as_deref(), Some("example.com"));
    assert_eq!(get_webpage_name(None, &u), "example");
    let u = ParsedUrl::parse("https://www.example.com/page").unwrap();
    assert_eq!(get_webpage_name(None, &u), "example");
}

#[test]
fn ip_host_has_no_domain() {
    let u = ParsedUrl::parse("http://127.0.0.1:8080").unwrap();
    assert!(u.domain.is_none());
    assert_eq!(get_webpage_name(None, &u), "App Name");
}

#[test]
fn invalid_url_is_refused() {
    assert_eq!(ParsedUrl::parse("not a url").unwrap_err(), NatyError::InvalidUrl);
    let s = settings_for("example");
    assert_eq!(plan_bundles(&s, Platform::Linux, "1.0.0").unwrap_err(), NatyError::InvalidUrl);
}

#[test]
fn selection_takes_first_square_non_favicon_raster() {
    let c = vec![
        candidate(16, 16, IconKind::SiteFavicon, IconFormat::Png, "a"),
        candidate(32, 32, IconKind::AppIcon, IconFormat::Svg, "b"),
        candidate(48, 48, IconKind::AppIcon, IconFormat::Png, "c"),
        candidate(64, 64, IconKind::AppIcon, IconFormat::Png, "d"),
    ];
    assert_eq!(select_icon(&c), Some(2));
}

#[test]
fn selection_skips_non_square_and_unsized() {
    let mut unsized_icon = candidate(1, 1, IconKind::AppIcon, IconFormat::Png, "u");
    unsized_icon.size = None;
    let c = vec![
        unsized_icon,
        candidate(32, 16, IconKind::SiteLogo, IconFormat::Png, "a"),
        candidate(24, 24, IconKind::SiteLogo, IconFormat::Ico, "b"),
    ];
    assert_eq!(select_icon(&c), Some(2));
    assert_eq!(select_icon(&vec![]), None);
}

#[test]
fn explicit_icon_unreachable_is_fatal() {
    let mut r = IconResolver::new(Some("/no/such/icon.png".to_string()), "https://example.com".to_string());
    match r.start() {
        IconStep::Perform(IconTask::FetchExplicit(p)) => assert_eq!(p, "/no/such/icon.png"),
        other => panic!("unexpected {:?}", other),
    }
    match r.advance(IconEvent::Failed) {
        IconStep::Perform(IconTask::ReadExplicit(p)) => assert_eq!(p, "/no/such/icon.png"),
        other => panic!("unexpected {:?}", other),
    }
    match r.advance(IconEvent::Failed) {
        IconStep::Abort(e) => assert_eq!(e, NatyError::IconUnavailable),
        other => panic!("unexpected {:?}", other),
    }
    assert_eq!(r.stage, IconStage::Finished);
}

#[test]
fn explicit_icon_fetched_or_read() {
    let mut r = IconResolver::new(Some("https://x/icon.png".to_string()), "https://x".to_string());
    r.start();
    match r.advance(IconEvent::Bytes(vec![1, 2, 3])) {
        IconStep::Done(b) => assert_eq!(b, vec![1, 2, 3]),
        other => panic!("unexpected {:?}", other),
    }
    let mut r = IconResolver::new(Some("icon.png".to_string()), "https://x".to_string());
    r.start();
    r.advance(IconEvent::Failed);
    match r.advance(IconEvent::Bytes(vec![9])) {
        IconStep::Done(b) => assert_eq!(b, vec![9]),
        other => panic!("unexpected {:?}", other),
    }
}

#[test]
fn no_qualifying_candidate_uses_default() {
    let mut r = IconResolver::new(None, "https://example.com".to_string());
    match r.start() {
        IconStep::Perform(IconTask::ListCandidates(u)) => assert_eq!(u, "https://example.com"),
        other => panic!("unexpected {:?}", other),
    }
    let c = vec![candidate(16, 16, IconKind::SiteFavicon, IconFormat::Png, "a")];
    assert!(matches!(r.advance(IconEvent::Candidates(c)), IconStep::UseDefault));
    let mut r = IconResolver::new(None, "https://example.com".to_string());
    r.start();
    assert!(matches!(r.advance(IconEvent::Failed), IconStep::UseDefault));
}

#[test]
fn scraped_candidate_is_downloaded() {
    let mut r = IconResolver::new(None, "https://example.com".to_string());
    r.start();
    let c = vec![
        candidate(16, 16, IconKind::SiteFavicon, IconFormat::Png, "https://example.com/f.png"),
        candidate(48, 48, IconKind::AppIcon, IconFormat::Png, "https://example.com/a.png"),
    ];
    match r.advance(IconEvent::Candidates(c)) {
        IconStep::Perform(IconTask::FetchCandidate(u)) => assert_eq!(u, "https://example.com/a.png"),
        other => panic!("unexpected {:?}", other),
    }
    match r.advance(IconEvent::Bytes(vec![7, 7])) {
        IconStep::Done(b) => assert_eq!(b, vec![7, 7]),
        other => panic!("unexpected {:?}", other),
    }
    let mut r = IconResolver::new(None, "https://example.com".to_string());
    r.start();
    r.advance(IconEvent::Candidates(vec![candidate(8, 8, IconKind::AppIcon, IconFormat::Gif, "g")]));
    assert!(matches!(r.advance(IconEvent::Failed), IconStep::UseDefault));
}

#[test]
fn platform_option_without_target_is_refused() {
    let mut s = settings_for("https://example.com");
    s.platforms = vec![Platform::Linux];
    s.windows_command = Some("npm start".to_string());
    assert_eq!(
        plan_bundles(&s, Platform::Linux, "1.0.0").unwrap_err(),
        NatyError::PlatformOptionMismatch(Platform::Windows)
    );
}

#[test]
fn linux_flags_need_linux_target() {
    let mut s = settings_for("https://example.com");
    s.platforms = vec![Platform::Windows];
    s.no_desktop = true;
    assert_eq!(
        s.check_platform_options(&vec![Platform::Windows]),
        Err(NatyError::PlatformOptionMismatch(Platform::Linux))
    );
    let mut s = settings_for("https://example.com");
    s.desktop_entry_path = "/tmp/apps".to_string();
    assert_eq!(
        s.check_platform_options(&vec![Platform::MacOs]),
        Err(NatyError::PlatformOptionMismatch(Platform::Linux))
    );
    assert_eq!(s.check_platform_options(&vec![Platform::MacOs, Platform::Linux]), Ok(()));
}

#[test]
fn options_checked_against_resolved_platforms() {
    let mut s = settings_for("https://example.com");
    s.macos_command = Some("serve".to_string());
    assert!(plan_bundles(&s, Platform::MacOs, "1.0.0").is_ok());
    assert_eq!(
        plan_bundles(&s, Platform::Linux, "1.0.0").unwrap_err(),
        NatyError::PlatformOptionMismatch(Platform::MacOs)
    );
}

#[test]
fn bundle_directories_are_named_by_platform() {
    let mut s = settings_for("https://example.com");
    s.name = Some("Example".to_string());
    s.platforms = vec![Platform::Linux, Platform::Windows];
    let plans = plan_bundles(&s, Platform::Linux, "1.2.3").unwrap();
    assert_eq!(plans.len(), 2);
    assert_eq!(plans[0].dir_name, "Example-linux");
    assert_eq!(plans[1].dir_name, "Example-windows");
    let out = std::path::Path::new("out");
    assert_eq!(out.join(&plans[0].dir_name), std::path::Path::new("out/Example-linux"));
    assert_eq!(out.join(&plans[1].dir_name), std::path::Path::new("out/Example-windows"));
    assert_eq!(bundle_dir_name("Example", Platform::MacOs), "Example-macos");
}

#[test]
fn launcher_is_copied_on_host_and_downloaded_elsewhere() {
    let mut s = settings_for("https://example.com");
    s.platforms = vec![Platform::Linux, Platform::Windows];
    let plans = plan_bundles(&s, Platform::Linux, "1.2.3").unwrap();
    assert_eq!(plans[0].executable.file_name, "example");
    assert!(matches!(plans[0].executable.source, ExecutableSource::CopySelf));
    assert_eq!(plans[1].executable.file_name, "example.exe");
    match &plans[1].executable.source {
        ExecutableSource::Download(u) => assert_eq!(
            u,
            "https://github.com/LyonSyonII/naty/releases/download/v1.2.3/naty-windows.exe"
        ),
        other => panic!("unexpected {:?}", other),
    }
    let e = plan_executable(Platform::Windows, Platform::Windows, "App", "0.1.0");
    assert_eq!(e.file_name, "App.exe");
    assert!(matches!(e.source, ExecutableSource::CopySelf));
}

#[test]
fn executable_names() {
    assert_eq!(executable_name("tool", Platform::Windows), "tool.exe");
    assert_eq!(executable_name("tool", Platform::MacOs), "tool");
}

#[test]
fn version_is_substituted() {
    assert_eq!(
        fill_version(release_template(Platform::MacOs), "2.0.1"),
        "https://github.com/LyonSyonII/naty/releases/download/v2.0.1/naty-macos"
    );
    assert_eq!(fill_version("%version%-%version%", "x"), "x-x");
    assert_eq!(fill_version("%versio%", "x"), "%versio%");
    assert_eq!(fill_version("", "x"), "");
}

#[test]
fn snapshot_holds_the_platform_command() {
    let mut s = settings_for("https://example.com");
    s.platforms = vec![Platform::Linux, Platform::Windows];
    s.windows_command = Some("npm start".to_string());
    let plans = plan_bundles(&s, Platform::Linux, "1.0.0").unwrap();
    assert!(plans[1].config.contains("command = \"npm start\""));
    assert!(!plans[0].config.contains("command"));
    let again = plan_bundles(&s, Platform::Linux, "1.0.0").unwrap();
    assert_eq!(plans[0].config, again[0].config);
}

#[test]
fn snapshot_table_fields() {
    let mut s = settings_for("https://example.com");
    s.name = Some("Ex".to_string());
    s.height = 600;
    s.full_screen = true;
    s.output_dir = "/tmp/out".to_string();
    s.icon = Some("icon.png".to_string());
    s.linux_command = Some("serve".to_string());
    let t = snapshot_table(&s, Platform::Linux);
    assert_eq!(t.get("target_url").and_then(|v| v.as_str()), Some("https://example.com"));
    assert_eq!(t.get("name").and_then(|v| v.as_str()), Some("Ex"));
    assert_eq!(t.get("height").and_then(|v| v.as_integer()), Some(600));
    assert_eq!(t.get("max_width").and_then(|v| v.as_integer()), Some(u32::MAX as i64));
    assert_eq!(t.get("full_screen").and_then(|v| v.as_bool()), Some(true));
    assert_eq!(t.get("command").and_then(|v| v.as_str()), Some("serve"));
    assert!(t.get("output_dir").is_none());
    assert!(t.get("icon").is_none());
    assert!(t.get("platforms").is_none());
    assert!(t.get("linux_command").is_none());
    assert_eq!(t.len(), 13);
    let w = snapshot_table(&s, Platform::Windows);
    assert!(w.get("command").is_none());
}

#[test]
fn serialized_snapshot_reads_back() {
    let mut s = settings_for("https://example.com");
    s.windows_command = Some("npm start".to_string());
    let text = serialize_snapshot(&s, Platform::Windows).unwrap();
    let back: toml::Table = text.parse().unwrap();
    assert_eq!(back.get("command").and_then(|v| v.as_str()), Some("npm start"));
    assert_eq!(back.get("width").and_then(|v| v.as_integer()), Some(1280));
    assert!(back.get("name").is_none());
}
