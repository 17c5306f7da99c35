//! The plan of each bundle: its directory, its launcher and its configuration.
use crate::error::NatyError;
use crate::naming::{get_webpage_name, opt_chars, url_accepts, url_domain, webpage_name, ParsedUrl};
use crate::platform::{platform_tag, resolve_platforms, resolved_platforms, Platform};
use crate::settings::{first_mismatch, AppSettings};
use crate::snapshot::{serialize_snapshot, snapshot_entries, toml_text};
use crate::text::{chars_of, occurs_at, push_char};
use vstd::prelude::*;
use vstd::string::StringExecFns;

verus! {

/// The name of the directory of the bundle for `p`: `{name}-{tag}`.
pub open spec fn bundle_dir_name_of(name: Seq<char>, p: Platform) -> Seq<char> {
    name + "-"@ + platform_tag(p)
}

/// Bundles for two different platforms never share a directory.
pub proof fn lemma_bundle_dirs_differ(name: Seq<char>, p: Platform, q: Platform)
    requires
        p != q,
    ensures
        bundle_dir_name_of(name, p) != bundle_dir_name_of(name, q),
{
    reveal_strlit("-");
    let a = bundle_dir_name_of(name, p);
    let b = bundle_dir_name_of(name, q);
    let k = name.len() as int + 1;
    assert(a.subrange(k, a.len() as int) =~= platform_tag(p));
    assert(b.subrange(k, b.len() as int) =~= platform_tag(q));
    reveal_strlit("linux");
    reveal_strlit("windows");
    reveal_strlit("macos");
    assert(platform_tag(p) != platform_tag(q)) by {
        assert("linux"@[0] != "windows"@[0] && "linux"@[0] != "macos"@[0] && "windows"@[0]
            != "macos"@[0]);
    }
}

/// The name of the directory of the bundle for `p`.
pub fn bundle_dir_name(name: &str, p: Platform) -> (r: String)
    ensures
        r@ == bundle_dir_name_of(name@, p),
{
    let mut r = name.to_owned();
    r.append("-");
    r.append(p.tag());
    r
}

/// The placeholder that release-asset templates hold for the version.
pub open spec fn version_placeholder() -> Seq<char> {
    "%version%"@
}

/// `s` with every occurrence of `pat` replaced by `rep`, scanning from the
/// front and resuming after each replaced occurrence.
pub open spec fn replace_all(s: Seq<char>, pat: Seq<char>, rep: Seq<char>) -> Seq<char>
    decreases s.len(),
{
    if pat.len() == 0 || s.len() == 0 {
        s
    } else if pat.is_prefix_of(s) {
        rep + replace_all(s.subrange(pat.len() as int, s.len() as int), pat, rep)
    } else {
        seq![s[0]] + replace_all(s.subrange(1, s.len() as int), pat, rep)
    }
}

/// `template` with every `%version%` replaced by `version`.
pub fn fill_version(template: &str, version: &str) -> (r: String)
    ensures
        r@ == replace_all(template@, version_placeholder(), version@),
{
    let v = chars_of(template);
    let pat = chars_of("%version%");
    proof {
        reveal_strlit("%version%");
    }
    let mut r = String::new();
    let mut i: usize = 0;
    assert(v@.subrange(0, v.len() as int) =~= v@);
    while i < v.len()
        invariant
            i <= v.len(),
            pat@ == version_placeholder(),
            pat@.len() == 9,
            r@ + replace_all(v@.subrange(i as int, v.len() as int), pat@, version@) == replace_all(
                v@,
                pat@,
                version@,
            ),
        decreases v.len() - i,
    {
        let ghost rest = v@.subrange(i as int, v.len() as int);
        let ghost r0 = r@;
        if occurs_at(&v, &pat, i) {
            let ghost tail = v@.subrange(i + 9, v.len() as int);
            assert(rest.subrange(9, rest.len() as int) =~= tail);
            assert(replace_all(rest, pat@, version@) == version@ + replace_all(tail, pat@, version@));
            r.append(version);
            assert(r@ + replace_all(tail, pat@, version@) =~= r0 + (version@ + replace_all(
                tail,
                pat@,
                version@,
            )));
            i = i + 9;
        } else {
            let ghost tail = v@.subrange(i + 1, v.len() as int);
            assert(rest.subrange(1, rest.len() as int) =~= tail);
            assert(replace_all(rest, pat@, version@) == seq![v@[i as int]] + replace_all(
                tail,
                pat@,
                version@,
            ));
            push_char(&mut r, v[i]);
            assert(r@ + replace_all(tail, pat@, version@) =~= r0 + (seq![v@[i as int]]
                + replace_all(tail, pat@, version@)));
            i = i + 1;
        }
    }
    r
}

/// The address template of the published launcher for `p`.
pub open spec fn release_template_of(p: Platform) -> Seq<char> {
    match p {
        Platform::Linux => "https://github.com/LyonSyonII/naty/releases/download/v%version%/naty-linux"@,
        Platform::Windows => "https://github.com/LyonSyonII/naty/releases/download/v%version%/naty-windows.exe"@,
        Platform::MacOs => "https://github.com/LyonSyonII/naty/releases/download/v%version%/naty-macos"@,
    }
}

/// The address template of the published launcher for `p`.
pub fn release_template(p: Platform) -> (r: &'static str)
    ensures
        r@ == release_template_of(p),
{
    match p {
        Platform::Linux => "https://github.com/LyonSyonII/naty/releases/download/v%version%/naty-linux",
        Platform::Windows => "https://github.com/LyonSyonII/naty/releases/download/v%version%/naty-windows.exe",
        Platform::MacOs => "https://github.com/LyonSyonII/naty/releases/download/v%version%/naty-macos",
    }
}

/// The file name of the launcher of a bundle for `p`: Windows adds `.exe`.
pub open spec fn executable_name_of(name: Seq<char>, p: Platform) -> Seq<char> {
    if p == Platform::Windows {
        name + ".exe"@
    } else {
        name
    }
}

/// The file name of the launcher of a bundle for `p`.
pub fn executable_name(name: &str, p: Platform) -> (r: String)
    ensures
        r@ == executable_name_of(name@, p),
{
    let mut r = name.to_owned();
    if p == Platform::Windows {
        r.append(".exe");
    }
    r
}

/// Where the launcher of a bundle comes from.
#[derive(Debug)]
pub enum ExecutableSource {
    /// A copy of the running executable: the target is the host platform.
    CopySelf,
    /// A download of the published launcher from this address.
    Download(String),
}

/// How the launcher of a bundle is obtained.
#[derive(Debug)]
pub struct ExecutablePlan {
    /// The file name of the launcher inside the bundle directory.
    pub file_name: String,
    pub source: ExecutableSource,
}

/// The launcher plan for `p`: copy the running executable when `p` is the
/// host, else download the launcher published for `version`.
pub open spec fn executable_plan_is(
    e: ExecutablePlan,
    p: Platform,
    host: Platform,
    name: Seq<char>,
    version: Seq<char>,
) -> bool {
    &&& e.file_name@ == executable_name_of(name, p)
    &&& p == host ==> e.source is CopySelf
    &&& p != host ==> (e.source matches ExecutableSource::Download(u) && u@ == replace_all(
        release_template_of(p),
        version_placeholder(),
        version,
    ))
}

/// How the launcher of the bundle for `p` is obtained.
pub fn plan_executable(p: Platform, host: Platform, name: &str, version: &str) -> (r:
    ExecutablePlan)
    ensures
        executable_plan_is(r, p, host, name@, version@),
{
    let file_name = executable_name(name, p);
    if p == host {
        ExecutablePlan { file_name, source: ExecutableSource::CopySelf }
    } else {
        ExecutablePlan {
            file_name,
            source: ExecutableSource::Download(fill_version(release_template(p), version)),
        }
    }
}

/// Everything that makes the bundle of one platform.
#[derive(Debug)]
pub struct BundlePlan {
    pub platform: Platform,
    /// The bundle directory, relative to the output directory.
    pub dir_name: String,
    pub executable: ExecutablePlan,
    /// The text of the bundle's `naty.toml`.
    pub config: String,
}

/// The plan of the bundle for `p` of an app called `name`.
pub open spec fn bundle_plan_is(
    b: BundlePlan,
    s: AppSettings,
    p: Platform,
    host: Platform,
    name: Seq<char>,
    version: Seq<char>,
) -> bool {
    &&& b.platform == p
    &&& b.dir_name@ == bundle_dir_name_of(name, p)
    &&& executable_plan_is(b.executable, p, host, name, version)
    &&& b.config@ == toml_text(snapshot_entries(s, p))
}

/// The display name of the app that `s` describes, once its address is parsed.
pub open spec fn app_name(s: AppSettings) -> Seq<char> {
    webpage_name(opt_chars(s.name), url_domain(s.target_url@))
}

/// Plans every bundle of a run: checks the address and the per-platform
/// options, resolves the platforms against `host`, derives the app name, and
/// renders the configuration of each bundle. Nothing is written: a refusal
/// here comes before any work on disk.
pub fn plan_bundles(settings: &AppSettings, host: Platform, version: &str) -> (r: Result<
    Vec<BundlePlan>,
    NatyError,
>)
    ensures
        !url_accepts(settings.target_url@) ==> (r matches Err(e) && e == NatyError::InvalidUrl),
        url_accepts(settings.target_url@) ==> match first_mismatch(
            *settings,
            resolved_platforms(settings.platforms@, host),
        ) {
            Some(p) => (r matches Err(e) && e == NatyError::PlatformOptionMismatch(p)),
            None => r is Ok,
        },
        r matches Ok(plans) ==> {
            let targets = resolved_platforms(settings.platforms@, host);
            &&& plans@.len() == targets.len()
            &&& forall|i: int|
                0 <= i < plans@.len() ==> bundle_plan_is(
                    #[trigger] plans@[i],
                    *settings,
                    targets[i],
                    host,
                    app_name(*settings),
                    version@,
                )
        },
{
    let url = match ParsedUrl::parse(settings.target_url.as_str()) {
        Ok(u) => u,
        Err(e) => {
            return Err(e);
        },
    };
    let targets = resolve_platforms(&settings.platforms, host);
    match settings.check_platform_options(&targets) {
        Ok(()) => {},
        Err(e) => {
            return Err(e);
        },
    }
    let name = match &settings.name {
        Some(n) => get_webpage_name(Some(n.as_str()), &url),
        None => get_webpage_name(None, &url),
    };
    let mut plans: Vec<BundlePlan> = Vec::new();
    let mut i: usize = 0;
    while i < targets.len()
        invariant
            i <= targets.len(),
            targets@ == resolved_platforms(settings.platforms@, host),
            url_accepts(settings.target_url@),
            first_mismatch(*settings, targets@) is None,
            name@ == app_name(*settings),
            plans@.len() == i,
            forall|k: int|
                0 <= k < i ==> bundle_plan_is(
                    #[trigger] plans@[k],
                    *settings,
                    targets@[k],
                    host,
                    name@,
                    version@,
                ),
        decreases targets.len() - i,
    {
        let p = targets[i];
        let config = match serialize_snapshot(settings, p) {
            Ok(c) => c,
            Err(e) => {
                return Err(e);
            },
        };
        let plan = BundlePlan {
            platform: p,
            dir_name: bundle_dir_name(name.as_str(), p),
            executable: plan_executable(p, host, name.as_str(), version),
            config,
        };
        plans.push(plan);
        i = i + 1;
    }
    Ok(plans)
}

} // verus!
