//! The version metadata published by Mojang and the replies of the Microsoft
//! sign-in services, as plain data, and the platform rules that gate
//! libraries and launch arguments.
use vstd::prelude::*;
use crate::platform::Platform;
use crate::text::str_eq;

verus! {

/// The newest release and snapshot ids of the version manifest.
pub struct LatestVersion {
    pub release: String,
    pub snapshot: String,
}

/// One entry of the version manifest.
pub struct VersionBrief {
    pub id: String,
    /// The version type ("release", "snapshot", ...).
    pub kind: String,
    pub url: String,
    pub time: String,
    pub release_time: String,
    pub sha1: String,
}

/// The list of all published game versions.
pub struct VersionManifest {
    pub latest: LatestVersion,
    pub versions: Vec<VersionBrief>,
}

/// The operating system a rule applies to.
pub struct RuleOS {
    pub name: Option<String>,
    pub arch: Option<Option<String>>,
}

/// An allow/disallow rule that gates a library or an argument.
pub struct Rule {
    pub action: String,
    pub os: Option<RuleOS>,
}

/// A rule-gated argument value: one string or several.
pub enum ArgumentValueList {
    Single(String),
    Many(Vec<String>),
}

/// One launch argument: plain, or gated by rules.
pub enum ArgumentValue {
    Simple(String),
    Complex { rules: Vec<Rule>, value: ArgumentValueList },
}

/// Game and JVM arguments in the modern metadata format.
pub struct Arguments {
    pub game: Vec<ArgumentValue>,
    pub jvm: Vec<ArgumentValue>,
}

/// A downloadable file.
pub struct Artifact {
    pub path: String,
    pub sha1: String,
    pub size: u64,
    pub url: String,
}

/// The files of a library; classifiers are (classifier, file) pairs.
pub struct LibraryDownloads {
    pub artifact: Option<Artifact>,
    pub classifiers: Option<Vec<(String, Artifact)>>,
}

/// A library of a game version; natives are (os name, classifier) pairs.
pub struct Library {
    pub name: String,
    pub downloads: LibraryDownloads,
    pub rules: Option<Vec<Rule>>,
    pub natives: Option<Vec<(String, String)>>,
}

/// Where a version's asset index is published.
pub struct AssetIndexRef {
    pub id: String,
    pub sha1: String,
    pub size: u64,
    pub total_size: u64,
    pub url: String,
}

/// The client jar of a version.
pub struct DownloadsRef {
    pub client: Artifact,
}

/// The Java runtime a version asks for.
pub struct JavaVersion {
    pub component: String,
    pub major_version: u32,
}

/// Everything needed to install and launch one game version.
pub struct VersionDetails {
    pub id: String,
    /// The version type ("release", "snapshot", ...).
    pub kind: String,
    pub main_class: String,
    pub arguments: Option<Arguments>,
    pub minecraft_arguments: Option<String>,
    pub libraries: Vec<Library>,
    pub asset_index: AssetIndexRef,
    pub downloads: DownloadsRef,
    pub java_version: Option<JavaVersion>,
}

/// One asset file, by content hash.
pub struct AssetObject {
    pub hash: String,
    pub size: u64,
}

/// The asset index: (asset name, file) pairs.
pub struct AssetIndex {
    pub objects: Vec<(String, AssetObject)>,
}

/// The reply that starts a Microsoft device-code sign-in.
pub struct DeviceCodeResponse {
    pub device_code: String,
    pub user_code: String,
    pub verification_uri: String,
    pub expires_in: u64,
    pub interval: u64,
    pub message: String,
}

/// Microsoft OAuth tokens.
pub struct TokenResponse {
    pub access_token: String,
    pub refresh_token: String,
    pub expires_in: u64,
}

/// The Minecraft services token obtained from an Xbox identity.
pub struct MinecraftLoginResponse {
    pub access_token: String,
    pub expires_in: u64,
}

/// The player's Minecraft profile.
pub struct MinecraftProfile {
    pub id: String,
    pub name: String,
}

impl Rule {
    /// The rule applies on `platform`: any operating-system name and any
    /// architecture it states are the platform's.
    pub open spec fn spec_matches(self, platform: Platform) -> bool {
        match self.os {
            None => true,
            Some(os) => {
                &&& (os.name matches Some(n) ==> n@ == platform.spec_os_name())
                &&& (os.arch matches Some(Some(a)) ==> a@ == platform.spec_arch_name())
            },
        }
    }

    /// The rule's action is "allow".
    pub open spec fn spec_allows(self) -> bool {
        self.action@ == "allow"@
    }

    /// Whether this rule applies on the running platform.
    pub fn matches_current_env(&self, platform: &Platform) -> (r: bool)
        ensures
            r == self.spec_matches(*platform),
    {
        if let Some(os_rule) = &self.os {
            if let Some(name) = &os_rule.name {
                if !str_eq(name.as_str(), platform.os_name()) {
                    return false;
                }
            }
            if let Some(arch_opt) = &os_rule.arch {
                if let Some(arch) = arch_opt {
                    if !str_eq(arch.as_str(), platform.arch_name()) {
                        return false;
                    }
                }
            }
        }
        true
    }

    /// Verdict of the last rule of `rules` that applies on `platform`:
    /// whether it allows; false when none applies.
    pub open spec fn last_match_allows(rules: Seq<Rule>, platform: Platform) -> bool
        decreases rules.len(),
    {
        if rules.len() == 0 {
            false
        } else if rules.last().spec_matches(platform) {
            rules.last().spec_allows()
        } else {
            Rule::last_match_allows(rules.drop_last(), platform)
        }
    }

    /// An empty rule list allows; otherwise the last applicable rule decides,
    /// and nothing is allowed when no rule applies.
    pub open spec fn spec_evaluate(rules: Seq<Rule>, platform: Platform) -> bool {
        rules.len() == 0 || Rule::last_match_allows(rules, platform)
    }

    /// Whether `rules` allow the running platform.
    pub fn evaluate(rules: &[Rule], platform: &Platform) -> (r: bool)
        ensures
            r == Rule::spec_evaluate(rules@, *platform),
    {
        if rules.len() == 0 {
            return true;
        }
        let mut allowed = false;
        let n = rules.len();
        for i in 0..n
            invariant
                n == rules@.len(),
                allowed == Rule::last_match_allows(rules@.take(i as int), *platform),
        {
            let rule = &rules[i];
            assert(rules@.take(i + 1).drop_last() =~= rules@.take(i as int));
            assert(rules@.take(i + 1).last() == rules@[i as int]);
            if rule.matches_current_env(platform) {
                allowed = str_eq(rule.action.as_str(), "allow");
            }
        }
        assert(rules@.take(n as int) =~= rules@);
        allowed
    }
}

/// A rule list with no rules allows every platform.
pub proof fn lemma_evaluate_empty(platform: Platform)
    ensures
        Rule::spec_evaluate(Seq::<Rule>::empty(), platform),
{
}

/// Appending a rule that applies makes that rule's action the verdict.
pub proof fn lemma_evaluate_last_applicable_rule_decides(
    rules: Seq<Rule>,
    rule: Rule,
    platform: Platform,
)
    requires
        rule.spec_matches(platform),
    ensures
        Rule::spec_evaluate(rules.push(rule), platform) == rule.spec_allows(),
{
    assert(rules.push(rule).drop_last() =~= rules);
}

/// Appending a rule that does not apply leaves the verdict of a non-empty
/// rule list unchanged.
pub proof fn lemma_evaluate_inapplicable_rule_is_ignored(
    rules: Seq<Rule>,
    rule: Rule,
    platform: Platform,
)
    requires
        !rule.spec_matches(platform),
        rules.len() > 0,
    ensures
        Rule::spec_evaluate(rules.push(rule), platform) == Rule::spec_evaluate(rules, platform),
{
    assert(rules.push(rule).drop_last() =~= rules);
}

/// A non-empty rule list none of whose rules applies allows nothing.
pub proof fn lemma_evaluate_no_applicable_rule_denies(rules: Seq<Rule>, platform: Platform)
    requires
        rules.len() > 0,
        forall|i: int| 0 <= i < rules.len() ==> !(#[trigger] rules[i]).spec_matches(platform),
    ensures
        !Rule::spec_evaluate(rules, platform),
    decreases rules.len(),
{
    assert(!rules[rules.len() - 1].spec_matches(platform));
    if rules.len() > 1 {
        let d = rules.drop_last();
        assert forall|i: int| 0 <= i < d.len() implies !(#[trigger] d[i]).spec_matches(platform) by {
            assert(d[i] == rules[i]);
        }
        lemma_evaluate_no_applicable_rule_denies(d, platform);
        assert(!Rule::last_match_allows(d, platform));
    } else {
        assert(!Rule::last_match_allows(rules.drop_last(), platform));
    }
    assert(!rules.last().spec_matches(platform));
    assert(!Rule::last_match_allows(rules, platform));
}

/// A rule without an operating-system condition applies everywhere.
pub proof fn lemma_rule_without_os_matches_everywhere(rule: Rule, platform: Platform)
    requires
        rule.os is None,
    ensures
        rule.spec_matches(platform),
{
}

} // verus!
