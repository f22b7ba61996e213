//! Update checks against a release feed: which release asset fits this
//! platform, and what a fetched release means for the running version. The
//! request itself is made by the caller.
use crate::version::{chars_of, compare_versions, version_order};
use std::cmp::Ordering;
use vstd::prelude::*;

verus! {

/// A downloadable file of a release.
pub struct GitHubAsset {
    pub name: String,
    pub browser_download_url: String,
}

/// How an installer for one platform and architecture is recognised by its
/// lower-cased file name.
pub struct PlatformMatchRules {
    pub file_extension: String,
    /// At least one must occur.
    pub platform_keywords: Vec<String>,
    /// At least one must occur, unless there are none.
    pub arch_keywords: Vec<String>,
    /// All must occur.
    pub required_keywords: Vec<String>,
}

/// The rules as plain text.
pub struct RulesModel {
    pub file_extension: Seq<char>,
    pub platform_keywords: Seq<Seq<char>>,
    pub arch_keywords: Seq<Seq<char>>,
    pub required_keywords: Seq<Seq<char>>,
}

/// What a release check found.
pub struct UpdateCheckResult {
    pub current_version: String,
    pub latest_version: String,
    pub has_update: bool,
    pub download_url: Option<String>,
    pub release_notes: Option<String>,
    pub html_url: Option<String>,
}

/// What `str::to_lowercase` makes of `s`.
pub uninterp spec fn lower_of(s: Seq<char>) -> Seq<char>;

/// Relies on `str::to_lowercase`: the lower-case form, which depends on the
/// characters of `s` alone.
#[verifier::external_body]
fn lowercase(s: &str) -> (r: String)
    ensures
        r@ == lower_of(s@),
{
    s.to_lowercase()
}

pub open spec fn texts(v: Seq<String>) -> Seq<Seq<char>> {
    v.map_values(|s: String| s@)
}

impl PlatformMatchRules {
    pub open spec fn model(&self) -> RulesModel {
        RulesModel {
            file_extension: self.file_extension@,
            platform_keywords: texts(self.platform_keywords@),
            arch_keywords: texts(self.arch_keywords@),
            required_keywords: texts(self.required_keywords@),
        }
    }
}

/// Whether `k` occurs in `s`.
pub open spec fn contains_text(s: Seq<char>, k: Seq<char>) -> bool {
    exists|i: int| 0 <= i && i + k.len() <= s.len() && #[trigger] s.subrange(i, i + k.len()) == k
}

/// Whether `s` ends with `suffix`.
pub open spec fn ends_with_text(s: Seq<char>, suffix: Seq<char>) -> bool {
    suffix.len() <= s.len() && s.subrange(s.len() - suffix.len(), s.len() as int) == suffix
}

pub open spec fn contains_any(s: Seq<char>, ks: Seq<Seq<char>>) -> bool {
    exists|j: int| 0 <= j < ks.len() && contains_text(s, #[trigger] ks[j])
}

pub open spec fn contains_all(s: Seq<char>, ks: Seq<Seq<char>>) -> bool {
    forall|j: int| 0 <= j < ks.len() ==> contains_text(s, #[trigger] ks[j])
}

/// Whether the lower-cased asset name `lower` fits `rules`.
pub open spec fn asset_fits(rules: RulesModel, lower: Seq<char>) -> bool {
    &&& ends_with_text(lower, rules.file_extension)
    &&& contains_any(lower, rules.platform_keywords)
    &&& (rules.arch_keywords.len() == 0 || contains_any(lower, rules.arch_keywords))
    &&& contains_all(lower, rules.required_keywords)
}

pub open spec fn arm_keywords() -> Seq<Seq<char>> {
    seq!["arm64"@, "aarch64"@]
}

pub open spec fn x64_keywords() -> Seq<Seq<char>> {
    seq!["x64"@, "amd64"@, "x86_64"@]
}

/// The installer rules of `platform` on `arch`, for the platforms with one.
pub open spec fn rules_for(platform: Seq<char>, arch: Seq<char>) -> Option<RulesModel> {
    if platform == "windows"@ {
        Some(
            RulesModel {
                file_extension: ".exe"@,
                platform_keywords: seq!["win"@, "windows"@],
                arch_keywords: if arch == "arm64"@ {
                    arm_keywords()
                } else {
                    x64_keywords()
                },
                required_keywords: seq!["setup"@],
            },
        )
    } else if platform == "linux"@ {
        Some(
            RulesModel {
                file_extension: ".appimage"@,
                platform_keywords: seq!["linux"@],
                arch_keywords: if arch == "arm64"@ {
                    arm_keywords()
                } else {
                    x64_keywords()
                },
                required_keywords: Seq::empty(),
            },
        )
    } else if platform == "macos"@ {
        Some(
            RulesModel {
                file_extension: ".dmg"@,
                platform_keywords: seq!["macos"@, "darwin"@, "osx"@],
                arch_keywords: if arch == "arm64"@ {
                    seq!["arm64"@, "aarch64"@, "apple-silicon"@]
                } else {
                    seq!["x64"@, "intel"@, "amd64"@]
                },
                required_keywords: Seq::empty(),
            },
        )
    } else if platform == "android"@ {
        Some(
            RulesModel {
                file_extension: ".apk"@,
                platform_keywords: seq!["android"@],
                arch_keywords: Seq::empty(),
                required_keywords: Seq::empty(),
            },
        )
    } else {
        None
    }
}

/// Whether two texts are equal.
pub fn text_eq(a: &str, b: &str) -> (r: bool)
    ensures
        r == (a@ == b@),
{
    let ca = chars_of(a);
    let cb = chars_of(b);
    if ca.len() != cb.len() {
        return false;
    }
    let mut i: usize = 0;
    while i < ca.len()
        invariant
            ca@ == a@,
            cb@ == b@,
            ca@.len() == cb@.len(),
            i <= ca@.len(),
            forall|j: int| 0 <= j < i ==> ca@[j] == cb@[j],
        decreases ca@.len() - i,
    {
        if ca[i] != cb[i] {
            return false;
        }
        i = i + 1;
    }
    proof {
        assert(ca@ =~= cb@);
    }
    true
}

fn words1(a: &str) -> (r: Vec<String>)
    ensures
        texts(r@) == seq![a@],
{
    let mut v: Vec<String> = Vec::new();
    v.push(String::from_str(a));
    proof {
        assert(texts(v@) =~= seq![a@]);
    }
    v
}

fn words2(a: &str, b: &str) -> (r: Vec<String>)
    ensures
        texts(r@) == seq![a@, b@],
{
    let mut v: Vec<String> = Vec::new();
    v.push(String::from_str(a));
    v.push(String::from_str(b));
    proof {
        assert(texts(v@) =~= seq![a@, b@]);
    }
    v
}

fn words3(a: &str, b: &str, c: &str) -> (r: Vec<String>)
    ensures
        texts(r@) == seq![a@, b@, c@],
{
    let mut v: Vec<String> = Vec::new();
    v.push(String::from_str(a));
    v.push(String::from_str(b));
    v.push(String::from_str(c));
    proof {
        assert(texts(v@) =~= seq![a@, b@, c@]);
    }
    v
}

fn no_words() -> (r: Vec<String>)
    ensures
        texts(r@) == Seq::<Seq<char>>::empty(),
{
    let v: Vec<String> = Vec::new();
    proof {
        assert(texts(v@) =~= Seq::<Seq<char>>::empty());
    }
    v
}

/// The installer rules of `platform` (`windows`, `linux`, `macos` or
/// `android`) on `arch` (`arm64` or another, taken as x64).
pub fn get_platform_match_rules(platform: &str, arch: &str) -> (r: Option<PlatformMatchRules>)
    ensures
        r is Some == rules_for(platform@, arch@) is Some,
        r is Some ==> r->Some_0.model() == rules_for(platform@, arch@)->Some_0,
{
    let arm = text_eq(arch, "arm64");
    if text_eq(platform, "windows") {
        Some(
            PlatformMatchRules {
                file_extension: String::from_str(".exe"),
                platform_keywords: words2("win", "windows"),
                arch_keywords: if arm {
                    words2("arm64", "aarch64")
                } else {
                    words3("x64", "amd64", "x86_64")
                },
                required_keywords: words1("setup"),
            },
        )
    } else if text_eq(platform, "linux") {
        Some(
            PlatformMatchRules {
                file_extension: String::from_str(".appimage"),
                platform_keywords: words1("linux"),
                arch_keywords: if arm {
                    words2("arm64", "aarch64")
                } else {
                    words3("x64", "amd64", "x86_64")
                },
                required_keywords: no_words(),
            },
        )
    } else if text_eq(platform, "macos") {
        Some(
            PlatformMatchRules {
                file_extension: String::from_str(".dmg"),
                platform_keywords: words3("macos", "darwin", "osx"),
                arch_keywords: if arm {
                    words3("arm64", "aarch64", "apple-silicon")
                } else {
                    words3("x64", "intel", "amd64")
                },
                required_keywords: no_words(),
            },
        )
    } else if text_eq(platform, "android") {
        Some(
            PlatformMatchRules {
                file_extension: String::from_str(".apk"),
                platform_keywords: words1("android"),
                arch_keywords: no_words(),
                required_keywords: no_words(),
            },
        )
    } else {
        None
    }
}

/// Whether `k` occurs in `s` at position `i`.
fn occurs_at(s: &Vec<char>, k: &Vec<char>, i: usize) -> (r: bool)
    requires
        i + k@.len() <= s@.len(),
    ensures
        r == (s@.subrange(i as int, i + k@.len()) == k@),
{
    let sl = s.len();
    let mut j: usize = 0;
    while j < k.len()
        invariant
            sl == s@.len(),
            i + k@.len() <= s@.len(),
            j <= k@.len(),
            forall|q: int| 0 <= q < j ==> s@[i + q] == k@[q],
        decreases k@.len() - j,
    {
        if s[i + j] != k[j] {
            proof {
                assert(s@.subrange(i as int, i + k@.len())[j as int] != k@[j as int]);
            }
            return false;
        }
        j = j + 1;
    }
    proof {
        assert(s@.subrange(i as int, i + k@.len()) =~= k@);
    }
    true
}

/// Whether `k` occurs in `s`.
pub fn contains_chars(s: &Vec<char>, k: &Vec<char>) -> (r: bool)
    ensures
        r == contains_text(s@, k@),
{
    if k.len() == 0 {
        proof {
            assert(s@.subrange(0int, 0int + k@.len()) =~= k@);
            assert(contains_text(s@, k@));
        }
        return true;
    }
    let mut i: usize = 0;
    while i < s.len()
        invariant
            k@.len() > 0,
            i <= s@.len(),
            forall|p: int|
                0 <= p < i && p + k@.len() <= s@.len() ==> #[trigger] s@.subrange(p, p + k@.len())
                    != k@,
        decreases s@.len() - i,
    {
        if k.len() <= s.len() - i && occurs_at(s, k, i) {
            return true;
        }
        i = i + 1;
    }
    false
}

/// Whether `s` ends with `suffix`.
pub fn ends_with_chars(s: &Vec<char>, suffix: &Vec<char>) -> (r: bool)
    ensures
        r == ends_with_text(s@, suffix@),
{
    if suffix.len() > s.len() {
        return false;
    }
    occurs_at(s, suffix, s.len() - suffix.len())
}

fn contains_any_of(s: &Vec<char>, ks: &Vec<String>) -> (r: bool)
    ensures
        r == contains_any(s@, texts(ks@)),
{
    let mut j: usize = 0;
    while j < ks.len()
        invariant
            j <= ks@.len(),
            forall|q: int| 0 <= q < j ==> !contains_text(s@, #[trigger] texts(ks@)[q]),
        decreases ks@.len() - j,
    {
        let k = chars_of(ks[j].as_str());
        if contains_chars(s, &k) {
            assert(texts(ks@)[j as int] == k@);
            return true;
        }
        j = j + 1;
    }
    false
}

fn contains_all_of(s: &Vec<char>, ks: &Vec<String>) -> (r: bool)
    ensures
        r == contains_all(s@, texts(ks@)),
{
    let mut j: usize = 0;
    while j < ks.len()
        invariant
            j <= ks@.len(),
            forall|q: int| 0 <= q < j ==> contains_text(s@, #[trigger] texts(ks@)[q]),
        decreases ks@.len() - j,
    {
        let k = chars_of(ks[j].as_str());
        if !contains_chars(s, &k) {
            assert(texts(ks@)[j as int] == k@);
            return false;
        }
        j = j + 1;
    }
    true
}

/// Whether an asset whose lower-cased name is `name_lower` fits `rules`:
/// the extension ends it, a platform keyword occurs, an architecture keyword
/// occurs (when the rules list any), and every required keyword occurs.
pub fn asset_matches(rules: &PlatformMatchRules, name_lower: &str) -> (r: bool)
    ensures
        r == asset_fits(rules.model(), name_lower@),
{
    let s = chars_of(name_lower);
    let ext = chars_of(rules.file_extension.as_str());
    if !ends_with_chars(&s, &ext) {
        return false;
    }
    if !contains_any_of(&s, &rules.platform_keywords) {
        return false;
    }
    if rules.arch_keywords.len() != 0 && !contains_any_of(&s, &rules.arch_keywords) {
        return false;
    }
    contains_all_of(&s, &rules.required_keywords)
}

pub open spec fn opt_text(o: Option<String>) -> Option<Seq<char>> {
    match o {
        Some(s) => Some(s@),
        None => None,
    }
}

/// The download address of the first of `assets` whose lower-cased name fits `rules`.
pub open spec fn first_fitting_url(rules: RulesModel, assets: Seq<GitHubAsset>) -> Option<Seq<char>>
    decreases assets.len(),
{
    if assets.len() == 0 {
        None
    } else if asset_fits(rules, lower_of(assets[0].name@)) {
        Some(assets[0].browser_download_url@)
    } else {
        first_fitting_url(rules, assets.drop_first())
    }
}

/// The installer for `platform` and `arch` among `assets`, if any.
pub open spec fn matching_url(assets: Seq<GitHubAsset>, platform: Seq<char>, arch: Seq<char>) -> Option<Seq<char>> {
    match rules_for(platform, arch) {
        Some(rules) => first_fitting_url(rules, assets),
        None => None,
    }
}

/// The download address of the first asset that is the installer for
/// `platform` on `arch`; none on a platform without rules.
pub fn find_matching_asset(assets: &Vec<GitHubAsset>, platform: &str, arch: &str) -> (r: Option<
    String,
>)
    ensures
        opt_text(r) == matching_url(assets@, platform@, arch@),
{
    let rules = match get_platform_match_rules(platform, arch) {
        Some(rules) => rules,
        None => return None,
    };
    let ghost m = rules.model();
    let mut i: usize = 0;
    proof {
        assert(assets@.subrange(0, assets@.len() as int) =~= assets@);
    }
    while i < assets.len()
        invariant
            i <= assets@.len(),
            m == rules.model(),
            rules_for(platform@, arch@) is Some,
            m == rules_for(platform@, arch@)->Some_0,
            first_fitting_url(m, assets@) == first_fitting_url(
                m,
                assets@.subrange(i as int, assets@.len() as int),
            ),
        decreases assets@.len() - i,
    {
        let ghost rest = assets@.subrange(i as int, assets@.len() as int);
        proof {
            assert(rest.drop_first() =~= assets@.subrange(i + 1, assets@.len() as int));
        }
        let lower = lowercase(assets[i].name.as_str());
        assert(rest[0] == assets@[i as int]);
        if asset_matches(&rules, lower.as_str()) {
            assert(asset_fits(m, lower_of(rest[0].name@)));
            assert(first_fitting_url(m, rest) == Some(rest[0].browser_download_url@));
            let url = assets[i].browser_download_url.clone();
            assert(opt_text(Some(url)) == first_fitting_url(m, rest));
            return Some(url);
        }
        i = i + 1;
    }
    None
}

/// `s` without the `v`s it starts with.
pub open spec fn strip_leading_v(s: Seq<char>) -> Seq<char>
    decreases s.len(),
{
    if s.len() > 0 && s[0] == 'v' {
        strip_leading_v(s.drop_first())
    } else {
        s
    }
}

/// The version a release tag names: the tag without its leading `v`s.
pub fn tag_version(tag: &str) -> (r: String)
    ensures
        r@ == strip_leading_v(tag@),
{
    let cs = chars_of(tag);
    let n = cs.len();
    let mut i: usize = 0;
    proof {
        assert(tag@.subrange(0, n as int) =~= tag@);
    }
    while i < n && cs[i] == 'v'
        invariant
            n == tag@.len(),
            cs@ == tag@,
            i <= n,
            strip_leading_v(tag@) == strip_leading_v(tag@.subrange(i as int, n as int)),
        decreases n - i,
    {
        proof {
            assert(tag@.subrange(i as int, n as int).drop_first() =~= tag@.subrange(
                i + 1,
                n as int,
            ));
        }
        i = i + 1;
    }
    String::from_str(tag.substring_char(i, n))
}

/// What a fetched release means for `current_version` on `platform` and
/// `arch`: the tag's version, whether it is newer, and the matching installer.
pub fn evaluate_release(
    current_version: &str,
    tag_name: &str,
    html_url: String,
    body: Option<String>,
    assets: &Vec<GitHubAsset>,
    platform: &str,
    arch: &str,
) -> (r: UpdateCheckResult)
    ensures
        r.current_version@ == current_version@,
        r.latest_version@ == strip_leading_v(tag_name@),
        r.has_update == (version_order(current_version@, strip_leading_v(tag_name@))
            == Ordering::Less),
        opt_text(r.download_url) == matching_url(assets@, platform@, arch@),
        r.release_notes == body,
        r.html_url == Some(html_url),
{
    let latest = tag_version(tag_name);
    let has_update = match compare_versions(current_version, latest.as_str()) {
        Ordering::Less => true,
        _ => false,
    };
    let download_url = find_matching_asset(assets, platform, arch);
    UpdateCheckResult {
        current_version: String::from_str(current_version),
        latest_version: latest,
        has_update,
        download_url,
        release_notes: body,
        html_url: Some(html_url),
    }
}

/// The architecture name releases use for the compiler's target name:
/// `aarch64` is `arm64`, `x86_64` is `x64`, others keep their name.
pub open spec fn arch_name(target: Seq<char>) -> Seq<char> {
    if target == "aarch64"@ {
        "arm64"@
    } else if target == "x86_64"@ {
        "x64"@
    } else {
        target
    }
}

/// The architecture name releases use for the target architecture `target_arch`.
pub fn get_architecture(target_arch: &str) -> (r: String)
    ensures
        r@ == arch_name(target_arch@),
{
    if text_eq(target_arch, "aarch64") {
        String::from_str("arm64")
    } else if text_eq(target_arch, "x86_64") {
        String::from_str("x64")
    } else {
        String::from_str(target_arch)
    }
}

} // verus!
