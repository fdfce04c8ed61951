//! Planning the Java command that starts a game version: the class path,
//! the placeholder variables, and the JVM and game arguments.
use vstd::prelude::*;
use crate::api::{ArgumentValue, ArgumentValueList, Library, Rule, VersionDetails};
use crate::config::{Account, AccountType, Config};
use crate::platform::{Platform, join_path, spec_join_path};
use crate::text::{concat, replace, replace_all, split_whitespace, split_ws, strs_view};

verus! {

/// Plans launches for one launcher configuration.
pub struct Launcher {
    config: Config,
}

/// The process a launch runs: the program, its working directory and its
/// arguments.
pub struct LaunchPlan {
    pub program: String,
    pub working_dir: String,
    pub args: Vec<String>,
}

/// "${key}".
pub open spec fn placeholder(key: Seq<char>) -> Seq<char> {
    "${"@ + key + "}"@
}

/// The views of (name, value) string pairs.
pub open spec fn vars_view(vars: Seq<(String, String)>) -> Seq<(Seq<char>, Seq<char>)> {
    vars.map_values(|p: (String, String)| (p.0@, p.1@))
}

/// `s` with the placeholder of each variable replaced by its value, the
/// variables taken in order.
pub open spec fn apply_vars(s: Seq<char>, vars: Seq<(Seq<char>, Seq<char>)>) -> Seq<char>
    decreases vars.len(),
{
    if vars.len() == 0 {
        s
    } else {
        replace_all(
            apply_vars(s, vars.drop_last()),
            placeholder(vars.last().0),
            vars.last().1,
        )
    }
}

/// Each string with the variables applied.
pub open spec fn apply_all(ss: Seq<Seq<char>>, vars: Seq<(Seq<char>, Seq<char>)>) -> Seq<
    Seq<char>,
> {
    ss.map_values(|s: Seq<char>| apply_vars(s, vars))
}

/// Directory path joined from `base` and the components `parts`.
pub open spec fn join_all(base: Seq<char>, parts: Seq<Seq<char>>, sep: char) -> Seq<char>
    decreases parts.len(),
{
    if parts.len() == 0 {
        base
    } else {
        spec_join_path(join_all(base, parts.drop_last(), sep), parts.last(), sep)
    }
}

/// Class-path entries of the libraries: the artifact of each library that
/// has one and whose rules (if any) allow the platform, under `lib_dir`.
pub open spec fn library_entries(libs: Seq<Library>, lib_dir: Seq<char>, p: Platform) -> Seq<
    Seq<char>,
>
    decreases libs.len(),
{
    if libs.len() == 0 {
        seq![]
    } else {
        let rest = library_entries(libs.drop_last(), lib_dir, p);
        let lib = libs.last();
        let allowed = match lib.rules {
            Some(rules) => Rule::spec_evaluate(rules@, p),
            None => true,
        };
        if allowed && lib.downloads.artifact is Some {
            rest.push(spec_join_path(lib_dir, lib.downloads.artifact->0.path@, p.spec_dir_separator()))
        } else {
            rest
        }
    }
}

/// The entries joined with `sep` between them.
pub open spec fn join_with(entries: Seq<Seq<char>>, sep: Seq<char>) -> Seq<char>
    decreases entries.len(),
{
    if entries.len() == 0 {
        seq![]
    } else if entries.len() == 1 {
        entries[0]
    } else {
        join_with(entries.drop_last(), sep) + sep + entries.last()
    }
}

/// The arguments one argument value contributes, with the variables applied.
pub open spec fn expand_one(v: ArgumentValue, p: Platform, vars: Seq<(Seq<char>, Seq<char>)>) -> Seq<
    Seq<char>,
> {
    match v {
        ArgumentValue::Simple(s) => seq![apply_vars(s@, vars)],
        ArgumentValue::Complex { rules, value } => if Rule::spec_evaluate(rules@, p) {
            match value {
                ArgumentValueList::Single(s) => seq![apply_vars(s@, vars)],
                ArgumentValueList::Many(list) => apply_all(strs_view(list@), vars),
            }
        } else {
            seq![]
        },
    }
}

/// The arguments a list of argument values contributes.
pub open spec fn expand_args(
    vals: Seq<ArgumentValue>,
    p: Platform,
    vars: Seq<(Seq<char>, Seq<char>)>,
) -> Seq<Seq<char>>
    decreases vals.len(),
{
    if vals.len() == 0 {
        seq![]
    } else {
        expand_args(vals.drop_last(), p, vars) + expand_one(vals.last(), p, vars)
    }
}

impl Launcher {
    pub closed spec fn spec_config(self) -> Config {
        self.config
    }

    pub fn new(config: Config) -> (r: Launcher)
        ensures
            r.spec_config() == config,
    {
        Launcher { config }
    }

    /// The directory of the given version.
    pub open spec fn spec_version_dir(self, version_id: Seq<char>, p: Platform) -> Seq<char> {
        join_all(self.spec_config().game_dir@, seq!["versions"@, version_id], p.spec_dir_separator())
    }

    /// The class path of a version: the allowed library artifacts under the
    /// libraries directory, then the version's client jar.
    pub open spec fn spec_classpath_entries(self, details: VersionDetails, p: Platform) -> Seq<
        Seq<char>,
    > {
        let sep = p.spec_dir_separator();
        let game_dir = self.spec_config().game_dir@;
        library_entries(details.libraries@, spec_join_path(game_dir, "libraries"@, sep), p).push(
            join_all(game_dir, seq!["versions"@, details.id@, details.id@ + ".jar"@], sep),
        )
    }

    pub open spec fn spec_classpath(self, details: VersionDetails, p: Platform) -> Seq<char> {
        join_with(self.spec_classpath_entries(details, p), p.spec_classpath_separator())
    }

    /// The class path of a version, its entries separated by the platform's
    /// class-path separator.
    pub fn build_classpath(&self, details: &VersionDetails, platform: &Platform) -> (r: Result<
        String,
        String,
    >)
        ensures
            r == Ok::<String, String>(r->Ok_0),
            r->Ok_0@ == self.spec_classpath(*details, *platform),
    {
        let libraries_dir = join_path(self.config.game_dir.as_str(), "libraries", platform);
        let mut entries: Vec<String> = Vec::new();
        let n = details.libraries.len();
        for i in 0..n
            invariant
                n == details.libraries@.len(),
                libraries_dir@ == spec_join_path(
                    self.spec_config().game_dir@,
                    "libraries"@,
                    platform.spec_dir_separator(),
                ),
                strs_view(entries@) == library_entries(
                    details.libraries@.take(i as int),
                    libraries_dir@,
                    *platform,
                ),
        {
            let lib = &details.libraries[i];
            assert(details.libraries@.take(i + 1).drop_last() =~= details.libraries@.take(i as int));
            assert(details.libraries@.take(i + 1).last() == details.libraries@[i as int]);
            let allowed = match &lib.rules {
                Some(rules) => Rule::evaluate(rules.as_slice(), platform),
                None => true,
            };
            if allowed {
                if let Some(art) = &lib.downloads.artifact {
                    let ghost before = entries@;
                    entries.push(join_path(libraries_dir.as_str(), art.path.as_str(), platform));
                    assert(strs_view(entries@) =~= strs_view(before).push(entries@.last()@));
                }
            }
        }
        assert(details.libraries@.take(n as int) =~= details.libraries@);
        let versions_dir = join_path(self.config.game_dir.as_str(), "versions", platform);
        let version_dir = join_path(versions_dir.as_str(), details.id.as_str(), platform);
        let jar_name = concat(details.id.as_str(), ".jar");
        let client_jar = join_path(version_dir.as_str(), jar_name.as_str(), platform);
        let ghost before = entries@;
        entries.push(client_jar);
        proof {
            assert(strs_view(entries@) =~= strs_view(before).push(client_jar@));
            let parts = seq!["versions"@, details.id@, details.id@ + ".jar"@];
            let sep = platform.spec_dir_separator();
            let g = self.spec_config().game_dir@;
            let p1 = parts.drop_last().drop_last();
            assert(p1 =~= seq!["versions"@]);
            assert(p1.drop_last() =~= Seq::<Seq<char>>::empty());
            assert(join_all(g, p1.drop_last(), sep) == g);
            assert(join_all(g, p1, sep) == versions_dir@);
            assert(parts.drop_last().last() == details.id@);
            assert(join_all(g, parts.drop_last(), sep) == version_dir@);
        }
        let sep = platform.classpath_separator();
        Ok(join_strings(&entries, sep))
    }

    /// The template with every "${key}" of `vars` replaced by its value, the
    /// variables taken in order.
    pub fn replace_placeholders(&self, template: &str, vars: &Vec<(String, String)>) -> (r: String)
        ensures
            r@ == apply_vars(template@, vars_view(vars@)),
    {
        let mut result = String::from_str(template);
        let n = vars.len();
        for i in 0..n
            invariant
                n == vars@.len(),
                result@ == apply_vars(template@, vars_view(vars@).take(i as int)),
        {
            let (key, val) = &vars[i];
            let p1 = concat("${", key.as_str());
            let ph = concat(p1.as_str(), "}");
            proof {
                let vv = vars_view(vars@);
                assert(vv.take(i + 1).drop_last() =~= vv.take(i as int));
                assert(vv.take(i + 1).last() == (key@, val@));
            }
            result = replace(result.as_str(), ph.as_str(), val.as_str());
        }
        assert(vars_view(vars@).take(n as int) =~= vars_view(vars@));
        result
    }

    /// The placeholder variables of a launch.
    pub open spec fn spec_launch_vars(
        self,
        version_id: Seq<char>,
        details: VersionDetails,
        account: Account,
        p: Platform,
    ) -> Seq<(Seq<char>, Seq<char>)> {
        let sep = p.spec_dir_separator();
        let game_dir = self.spec_config().game_dir@;
        let natives = spec_join_path(self.spec_version_dir(version_id, p), "natives"@, sep);
        seq![
            ("auth_player_name"@, account.username@),
            ("version_name"@, version_id),
            ("game_directory"@, game_dir),
            ("assets_root"@, spec_join_path(game_dir, "assets"@, sep)),
            ("assets_index_name"@, details.asset_index.id@),
            ("auth_uuid"@, account.uuid@),
            ("auth_access_token"@, match account.microsoft_auth {
                Some(ms) => ms.access_token@,
                None => "null"@,
            }),
            ("user_type"@, if account.account_type == AccountType::Microsoft {
                "msa"@
            } else {
                "legacy"@
            }),
            ("version_type"@, details.kind@),
            ("natives_directory"@, natives),
            ("classpath"@, self.spec_classpath(details, p)),
            ("user_properties"@, "{}"@),
        ]
    }

    /// JVM arguments of a launch: the version's own (or, for versions
    /// without them, the natives properties and the class path), then the
    /// configured extra arguments; the variables are applied to all of them.
    pub open spec fn spec_jvm_args(
        self,
        version_id: Seq<char>,
        details: VersionDetails,
        account: Account,
        p: Platform,
    ) -> Seq<Seq<char>> {
        let vars = self.spec_launch_vars(version_id, details, account, p);
        let natives = spec_join_path(
            self.spec_version_dir(version_id, p),
            "natives"@,
            p.spec_dir_separator(),
        );
        let own = match details.arguments {
            Some(args) => expand_args(args.jvm@, p, vars),
            None => seq![
                "-Djava.library.path="@ + natives,
                "-Djna.tmpdir="@ + natives,
                "-Dorg.lwjgl.system.SharedLibraryExtractPath="@ + natives,
                "-cp"@,
                "${classpath}"@,
            ],
        };
        apply_all(own + strs_view(self.spec_config().jvm_args@), vars)
    }

    /// Game arguments of a launch: the version's own, or its legacy argument
    /// string split at whitespace, with the variables applied.
    pub open spec fn spec_game_args(
        self,
        version_id: Seq<char>,
        details: VersionDetails,
        account: Account,
        p: Platform,
    ) -> Seq<Seq<char>> {
        let vars = self.spec_launch_vars(version_id, details, account, p);
        match details.arguments {
            Some(args) => expand_args(args.game@, p, vars),
            None => match details.minecraft_arguments {
                Some(legacy) => apply_all(split_ws(legacy@), vars),
                None => seq![],
            },
        }
    }

    /// The launch of a version: the configured Java, started in the game
    /// directory, with the JVM arguments, the main class and the game
    /// arguments.
    pub fn prepare_launch(
        &self,
        version_id: &str,
        details: &VersionDetails,
        account: &Account,
        platform: &Platform,
    ) -> (r: LaunchPlan)
        ensures
            r.program@ == self.spec_config().java_path@,
            r.working_dir@ == self.spec_config().game_dir@,
            strs_view(r.args@) == self.spec_jvm_args(version_id@, *details, *account, *platform)
                + seq![details.main_class@] + self.spec_game_args(
                version_id@,
                *details,
                *account,
                *platform,
            ),
    {
        let classpath = match self.build_classpath(details, platform) {
            Ok(c) => c,
            Err(e) => e,
        };
        let versions_dir = join_path(self.config.game_dir.as_str(), "versions", platform);
        let version_dir = join_path(versions_dir.as_str(), version_id, platform);
        let natives_dir = join_path(version_dir.as_str(), "natives", platform);
        proof {
            let parts = seq!["versions"@, version_id@];
            let g = self.spec_config().game_dir@;
            let sep = platform.spec_dir_separator();
            let p1 = parts.drop_last();
            assert(p1 =~= seq!["versions"@]);
            assert(p1.drop_last() =~= Seq::<Seq<char>>::empty());
            assert(join_all(g, p1.drop_last(), sep) == g);
            assert(join_all(g, p1, sep) == versions_dir@);
        }
        let vars = self.launch_vars(version_id, details, account, &natives_dir, classpath, platform);
        let ghost vv = self.spec_launch_vars(version_id@, *details, *account, *platform);

        // JVM arguments
        let mut own: Vec<String> = Vec::new();
        match &details.arguments {
            Some(args) => {
                own = self.expand_arguments(&args.jvm, &vars, platform);
            },
            None => {
                own.push(concat("-Djava.library.path=", natives_dir.as_str()));
                own.push(concat("-Djna.tmpdir=", natives_dir.as_str()));
                own.push(concat("-Dorg.lwjgl.system.SharedLibraryExtractPath=", natives_dir.as_str()));
                own.push(String::from_str("-cp"));
                own.push(String::from_str("${classpath}"));
                assert(strs_view(own@) =~= seq![
                    "-Djava.library.path="@ + natives_dir@,
                    "-Djna.tmpdir="@ + natives_dir@,
                    "-Dorg.lwjgl.system.SharedLibraryExtractPath="@ + natives_dir@,
                    "-cp"@,
                    "${classpath}"@,
                ]);
            },
        }
        let ghost own_view = strs_view(own@);
        let m = self.config.jvm_args.len();
        for i in 0..m
            invariant
                m == self.spec_config().jvm_args@.len(),
                strs_view(own@) == own_view + strs_view(self.spec_config().jvm_args@).take(i as int),
        {
            let ghost before = own@;
            own.push(self.config.jvm_args[i].clone());
            assert(strs_view(self.spec_config().jvm_args@).take(i + 1) =~= strs_view(
                self.spec_config().jvm_args@,
            ).take(i as int).push(self.spec_config().jvm_args@[i as int]@));
            assert(strs_view(own@) =~= strs_view(before).push(self.spec_config().jvm_args@[i as int]@));
        }
        assert(strs_view(self.spec_config().jvm_args@).take(m as int) =~= strs_view(
            self.spec_config().jvm_args@,
        ));
        let mut args = self.apply_to_all(&own, &vars);

        // Main class
        let ghost jvm_view = strs_view(args@);
        args.push(details.main_class.clone());
        assert(strs_view(args@) =~= jvm_view + seq![details.main_class@]);

        // Game arguments
        let game: Vec<String> = match &details.arguments {
            Some(a) => self.expand_arguments(&a.game, &vars, platform),
            None => match &details.minecraft_arguments {
                Some(legacy) => {
                    let parts = split_whitespace(legacy.as_str());
                    self.apply_to_all(&parts, &vars)
                },
                None => Vec::new(),
            },
        };
        assert(strs_view(game@) == self.spec_game_args(version_id@, *details, *account, *platform));
        let ghost head = strs_view(args@);
        let k = game.len();
        for i in 0..k
            invariant
                k == game@.len(),
                strs_view(args@) == head + strs_view(game@).take(i as int),
        {
            let ghost before = args@;
            args.push(game[i].clone());
            assert(strs_view(game@).take(i + 1) =~= strs_view(game@).take(i as int).push(game@[i as int]@));
            assert(strs_view(args@) =~= strs_view(before).push(game@[i as int]@));
        }
        assert(strs_view(game@).take(k as int) =~= strs_view(game@));
        LaunchPlan {
            program: self.config.java_path.clone(),
            working_dir: self.config.game_dir.clone(),
            args,
        }
    }

    /// The placeholder variables of a launch, in order.
    fn launch_vars(
        &self,
        version_id: &str,
        details: &VersionDetails,
        account: &Account,
        natives_dir: &String,
        classpath: String,
        platform: &Platform,
    ) -> (r: Vec<(String, String)>)
        requires
            natives_dir@ == spec_join_path(
                self.spec_version_dir(version_id@, *platform),
                "natives"@,
                platform.spec_dir_separator(),
            ),
            classpath@ == self.spec_classpath(*details, *platform),
        ensures
            vars_view(r@) == self.spec_launch_vars(version_id@, *details, *account, *platform),
    {
        let token = match &account.microsoft_auth {
            Some(ms) => ms.access_token.clone(),
            None => String::from_str("null"),
        };
        let user_type = match account.account_type {
            AccountType::Microsoft => String::from_str("msa"),
            AccountType::Offline => String::from_str("legacy"),
        };
        let mut vars: Vec<(String, String)> = Vec::new();
        vars.push((String::from_str("auth_player_name"), account.username.clone()));
        vars.push((String::from_str("version_name"), String::from_str(version_id)));
        vars.push((String::from_str("game_directory"), self.config.game_dir.clone()));
        vars.push(
            (
                String::from_str("assets_root"),
                join_path(self.config.game_dir.as_str(), "assets", platform),
            ),
        );
        vars.push((String::from_str("assets_index_name"), details.asset_index.id.clone()));
        vars.push((String::from_str("auth_uuid"), account.uuid.clone()));
        vars.push((String::from_str("auth_access_token"), token));
        vars.push((String::from_str("user_type"), user_type));
        vars.push((String::from_str("version_type"), details.kind.clone()));
        vars.push((String::from_str("natives_directory"), natives_dir.clone()));
        vars.push((String::from_str("classpath"), classpath));
        vars.push((String::from_str("user_properties"), String::from_str("{}")));
        assert(vars_view(vars@) =~= self.spec_launch_vars(
            version_id@,
            *details,
            *account,
            *platform,
        ));
        vars
    }

    /// Each string with the variables applied.
    fn apply_to_all(&self, ss: &Vec<String>, vars: &Vec<(String, String)>) -> (r: Vec<String>)
        ensures
            strs_view(r@) == apply_all(strs_view(ss@), vars_view(vars@)),
    {
        let mut out: Vec<String> = Vec::new();
        let n = ss.len();
        for i in 0..n
            invariant
                n == ss@.len(),
                strs_view(out@) == apply_all(strs_view(ss@), vars_view(vars@)).take(i as int),
        {
            let ghost before = out@;
            out.push(self.replace_placeholders(ss[i].as_str(), vars));
            assert(strs_view(out@) =~= strs_view(before).push(out@.last()@));
            assert(apply_all(strs_view(ss@), vars_view(vars@)).take(i + 1) =~= apply_all(
                strs_view(ss@),
                vars_view(vars@),
            ).take(i as int).push(apply_vars(ss@[i as int]@, vars_view(vars@))));
        }
        assert(apply_all(strs_view(ss@), vars_view(vars@)).take(n as int) =~= apply_all(
            strs_view(ss@),
            vars_view(vars@),
        ));
        out
    }

    /// The arguments a list of argument values contributes on `platform`.
    fn expand_arguments(
        &self,
        vals: &Vec<ArgumentValue>,
        vars: &Vec<(String, String)>,
        platform: &Platform,
    ) -> (r: Vec<String>)
        ensures
            strs_view(r@) == expand_args(vals@, *platform, vars_view(vars@)),
    {
        let mut out: Vec<String> = Vec::new();
        let n = vals.len();
        for i in 0..n
            invariant
                n == vals@.len(),
                strs_view(out@) == expand_args(vals@.take(i as int), *platform, vars_view(vars@)),
        {
            assert(vals@.take(i + 1).drop_last() =~= vals@.take(i as int));
            assert(vals@.take(i + 1).last() == vals@[i as int]);
            let more = match &vals[i] {
                ArgumentValue::Simple(s) => {
                    let mut v = Vec::new();
                    v.push(self.replace_placeholders(s.as_str(), vars));
                    assert(strs_view(v@) =~= seq![v@[0]@]);
                    v
                },
                ArgumentValue::Complex { rules, value } => {
                    if Rule::evaluate(rules.as_slice(), platform) {
                        match value {
                            ArgumentValueList::Single(s) => {
                                let mut v = Vec::new();
                                v.push(self.replace_placeholders(s.as_str(), vars));
                                assert(strs_view(v@) =~= seq![v@[0]@]);
                                v
                            },
                            ArgumentValueList::Many(list) => self.apply_to_all(list, vars),
                        }
                    } else {
                        let v: Vec<String> = Vec::new();
                        assert(strs_view(v@) =~= seq![]);
                        v
                    }
                },
            };
            assert(strs_view(more@) == expand_one(vals@[i as int], *platform, vars_view(vars@)));
            let ghost head = strs_view(out@);
            let k = more.len();
            for j in 0..k
                invariant
                    k == more@.len(),
                    strs_view(out@) == head + strs_view(more@).take(j as int),
            {
                let ghost before = out@;
                out.push(more[j].clone());
                assert(strs_view(more@).take(j + 1) =~= strs_view(more@).take(j as int).push(
                    more@[j as int]@,
                ));
                assert(strs_view(out@) =~= strs_view(before).push(more@[j as int]@));
            }
            assert(strs_view(more@).take(k as int) =~= strs_view(more@));
        }
        assert(vals@.take(n as int) =~= vals@);
        out
    }
}

/// The strings joined with `sep` between them.
pub fn join_strings(entries: &Vec<String>, sep: &str) -> (r: String)
    ensures
        r@ == join_with(strs_view(entries@), sep@),
{
    let mut out = String::new();
    let n = entries.len();
    for i in 0..n
        invariant
            n == entries@.len(),
            out@ == join_with(strs_view(entries@).take(i as int), sep@),
    {
        let ghost t = strs_view(entries@).take(i + 1);
        assert(t.drop_last() =~= strs_view(entries@).take(i as int));
        assert(t.last() == entries@[i as int]@);
        if i > 0 {
            out.append(sep);
        } else {
            assert(t.len() == 1);
        }
        out.append(entries[i].as_str());
    }
    assert(strs_view(entries@).take(n as int) =~= strs_view(entries@));
    out
}

/// A template in which no variable's placeholder occurs comes back unchanged.
pub proof fn lemma_apply_vars_without_placeholders(
    s: Seq<char>,
    vars: Seq<(Seq<char>, Seq<char>)>,
)
    requires
        forall|k: int, i: int|
            0 <= k < vars.len() ==> !#[trigger] crate::text::occurs_at(s, placeholder(vars[k].0), i),
    ensures
        apply_vars(s, vars) == s,
    decreases vars.len(),
{
    if vars.len() > 0 {
        let d = vars.drop_last();
        assert forall|k: int, i: int|
            0 <= k < d.len() implies !#[trigger] crate::text::occurs_at(s, placeholder(d[k].0), i) by {
            assert(d[k] == vars[k]);
        }
        lemma_apply_vars_without_placeholders(s, d);
        let last = vars.last();
        assert(last == vars[vars.len() - 1]);
        crate::text::lemma_replace_absent(s, placeholder(last.0), last.1);
    }
}

/// The class path always ends with the version's client jar.
pub proof fn lemma_classpath_ends_with_client_jar(
    launcher: Launcher,
    details: VersionDetails,
    p: Platform,
)
    ensures
        launcher.spec_classpath_entries(details, p).last() == join_all(
            launcher.spec_config().game_dir@,
            seq!["versions"@, details.id@, details.id@ + ".jar"@],
            p.spec_dir_separator(),
        ),
{
}

/// A library whose rules deny the platform adds no class-path entry.
pub proof fn lemma_denied_library_is_left_out(
    libs: Seq<Library>,
    lib: Library,
    lib_dir: Seq<char>,
    p: Platform,
)
    requires
        lib.rules is Some,
        !Rule::spec_evaluate(lib.rules->0@, p),
    ensures
        library_entries(libs.push(lib), lib_dir, p) == library_entries(libs, lib_dir, p),
{
    assert(libs.push(lib).drop_last() =~= libs);
}

/// Replacing no variables leaves a template unchanged.
pub proof fn lemma_apply_no_vars(s: Seq<char>)
    ensures
        apply_vars(s, Seq::<(Seq<char>, Seq<char>)>::empty()) == s,
{
}

/// Replacing a non-empty pattern in a string that is exactly the pattern
/// gives the replacement.
proof fn lemma_replace_whole(pat: Seq<char>, rep: Seq<char>)
    requires
        pat.len() > 0,
    ensures
        replace_all(pat, pat, rep) == rep,
{
    assert(pat.subrange(0, pat.len() as int) =~= pat);
    assert(crate::text::occurs_at(pat, pat, 0));
    let rest = pat.skip(pat.len() as int);
    assert(rest =~= Seq::<char>::empty());
    assert(replace_all(rest, pat, rep) == rest);
    assert(replace_all(pat, pat, rep) == rep + replace_all(rest, pat, rep));
    assert(rep + rest =~= rep);
}

/// An argument that is exactly the placeholder of variable `k` becomes that
/// variable's value, provided no earlier variable's placeholder occurs in it
/// and no later variable's placeholder occurs in the value.
pub proof fn lemma_placeholder_becomes_value(vars: Seq<(Seq<char>, Seq<char>)>, k: int)
    requires
        0 <= k < vars.len(),
        forall|j: int, i: int|
            0 <= j < k ==> !#[trigger] crate::text::occurs_at(placeholder(vars[k].0), placeholder(vars[j].0), i),
        forall|j: int, i: int|
            k < j < vars.len() ==> !#[trigger] crate::text::occurs_at(vars[k].1, placeholder(vars[j].0), i),
    ensures
        apply_vars(placeholder(vars[k].0), vars) == vars[k].1,
    decreases vars.len(),
{
    let d = vars.drop_last();
    let last = vars.last();
    assert(last == vars[vars.len() - 1]);
    if k < vars.len() - 1 {
        assert(d[k] == vars[k]);
        assert forall|j: int, i: int|
            0 <= j < k implies !#[trigger] crate::text::occurs_at(placeholder(d[k].0), placeholder(d[j].0), i) by {
            assert(d[j] == vars[j]);
        }
        assert forall|j: int, i: int|
            k < j < d.len() implies !#[trigger] crate::text::occurs_at(d[k].1, placeholder(d[j].0), i) by {
            assert(d[j] == vars[j]);
        }
        lemma_placeholder_becomes_value(d, k);
        assert forall|i: int| !crate::text::occurs_at(vars[k].1, placeholder(last.0), i) by {
            assert(!crate::text::occurs_at(vars[k].1, placeholder(vars[vars.len() - 1].0), i));
        }
        crate::text::lemma_replace_absent(vars[k].1, placeholder(last.0), last.1);
    } else {
        let ph = placeholder(vars[k].0);
        assert forall|j: int, i: int| 0 <= j < d.len() implies !#[trigger] crate::text::occurs_at(ph, placeholder(d[j].0), i) by {
            assert(d[j] == vars[j]);
        }
        lemma_apply_vars_without_placeholders(ph, d);
        reveal_strlit("${");
        reveal_strlit("}");
        lemma_replace_whole(ph, last.1);
    }
}

/// `s` has neither a '$' nor a '}'.
pub open spec fn plain_key(s: Seq<char>) -> bool {
    forall|i: int| 0 <= i < s.len() ==> s[i] != '$' && s[i] != '}'
}

/// The placeholder of `a` occurs in the placeholder of a plain key `b` only
/// when `a` is `b`.
proof fn lemma_placeholder_in_placeholder(a: Seq<char>, b: Seq<char>, i: int)
    requires
        plain_key(b),
        crate::text::occurs_at(placeholder(b), placeholder(a), i),
    ensures
        a == b,
{
    reveal_strlit("${");
    reveal_strlit("}");
    let pa = placeholder(a);
    let pb = placeholder(b);
    assert(pa[0] == '$');
    assert(pb.subrange(i, i + pa.len())[0] == pa[0]);
    assert(pb[i] == '$');
    if i > 0 {
        assert(i < pb.len() - 1);
        assert(pb[i] == b[i - 2]);
    }
    assert(i == 0);
    let last: int = a.len() as int + 2;
    assert(pa[last] == '}');
    assert(pb.subrange(0, pa.len() as int)[last] == pa[last]);
    assert(pb[last] == '}');
    if last < b.len() + 2 {
        assert(pb[last] == b[last - 2]);
    }
    assert(a.len() == b.len());
    assert(pb.subrange(0, pa.len() as int) =~= pb);
    assert(a =~= pa.subrange(2, 2 + a.len() as int));
    assert(b =~= pb.subrange(2, 2 + b.len() as int));
}

/// A string without '$' holds no placeholder.
proof fn lemma_no_dollar_no_placeholder(s: Seq<char>, key: Seq<char>, i: int)
    requires
        forall|k: int| 0 <= k < s.len() ==> s[k] != '$',
    ensures
        !crate::text::occurs_at(s, placeholder(key), i),
{
    reveal_strlit("${");
    if crate::text::occurs_at(s, placeholder(key), i) {
        assert(s.subrange(i, i + placeholder(key).len())[0] == placeholder(key)[0]);
    }
}

/// A '$'-free prefix followed by a placeholder-free string holds no
/// placeholder.
proof fn lemma_prefix_keeps_placeholder_free(prefix: Seq<char>, s: Seq<char>, key: Seq<char>, i: int)
    requires
        forall|k: int| 0 <= k < prefix.len() ==> prefix[k] != '$',
        forall|j: int| !crate::text::occurs_at(s, placeholder(key), j),
    ensures
        !crate::text::occurs_at(prefix + s, placeholder(key), i),
{
    reveal_strlit("${");
    let t = prefix + s;
    let ph = placeholder(key);
    if crate::text::occurs_at(t, ph, i) {
        if i < prefix.len() {
            assert(t.subrange(i, i + ph.len())[0] == ph[0]);
            assert(t[i] == prefix[i]);
        } else {
            assert(t.subrange(i, i + ph.len()) =~= s.subrange(i - prefix.len(), i - prefix.len() + ph.len()));
            assert(crate::text::occurs_at(s, ph, i - prefix.len()));
        }
    }
}

/// The launch variables have plain, pairwise different names.
pub proof fn lemma_launch_keys(
    launcher: Launcher,
    version_id: Seq<char>,
    details: VersionDetails,
    account: Account,
    p: Platform,
)
    ensures
        ({
            let vars = launcher.spec_launch_vars(version_id, details, account, p);
            &&& vars.len() == 12
            &&& forall|k: int| 0 <= k < 12 ==> plain_key(#[trigger] vars[k].0)
            &&& forall|j: int, k: int| 0 <= j < k < 12 ==> #[trigger] vars[j].0 != #[trigger] vars[k].0
        }),
{
    reveal_strlit("auth_player_name");
    reveal_strlit("version_name");
    reveal_strlit("game_directory");
    reveal_strlit("assets_root");
    reveal_strlit("assets_index_name");
    reveal_strlit("auth_uuid");
    reveal_strlit("auth_access_token");
    reveal_strlit("user_type");
    reveal_strlit("version_type");
    reveal_strlit("natives_directory");
    reveal_strlit("classpath");
    reveal_strlit("user_properties");
    let vars = launcher.spec_launch_vars(version_id, details, account, p);
    assert(vars[0].0.len() != vars[1].0.len());
    assert(vars[0].0.len() != vars[2].0.len());
    assert(vars[0].0.len() != vars[3].0.len());
    assert(vars[0].0.len() != vars[4].0.len());
    assert(vars[0].0.len() != vars[5].0.len());
    assert(vars[0].0.len() != vars[6].0.len());
    assert(vars[0].0.len() != vars[7].0.len());
    assert(vars[0].0.len() != vars[8].0.len());
    assert(vars[0].0.len() != vars[9].0.len());
    assert(vars[0].0.len() != vars[10].0.len());
    assert(vars[0].0.len() != vars[11].0.len());
    assert(vars[1].0.len() != vars[2].0.len());
    assert(vars[1].0.len() != vars[3].0.len());
    assert(vars[1].0.len() != vars[4].0.len());
    assert(vars[1].0.len() != vars[5].0.len());
    assert(vars[1].0.len() != vars[6].0.len());
    assert(vars[1].0.len() != vars[7].0.len());
    assert(vars[1].0[8] != vars[8].0[8]);
    assert(vars[1].0.len() != vars[9].0.len());
    assert(vars[1].0.len() != vars[10].0.len());
    assert(vars[1].0.len() != vars[11].0.len());
    assert(vars[2].0.len() != vars[3].0.len());
    assert(vars[2].0.len() != vars[4].0.len());
    assert(vars[2].0.len() != vars[5].0.len());
    assert(vars[2].0.len() != vars[6].0.len());
    assert(vars[2].0.len() != vars[7].0.len());
    assert(vars[2].0.len() != vars[8].0.len());
    assert(vars[2].0.len() != vars[9].0.len());
    assert(vars[2].0.len() != vars[10].0.len());
    assert(vars[2].0.len() != vars[11].0.len());
    assert(vars[3].0.len() != vars[4].0.len());
    assert(vars[3].0.len() != vars[5].0.len());
    assert(vars[3].0.len() != vars[6].0.len());
    assert(vars[3].0.len() != vars[7].0.len());
    assert(vars[3].0.len() != vars[8].0.len());
    assert(vars[3].0.len() != vars[9].0.len());
    assert(vars[3].0.len() != vars[10].0.len());
    assert(vars[3].0.len() != vars[11].0.len());
    assert(vars[4].0.len() != vars[5].0.len());
    assert(vars[4].0[1] != vars[6].0[1]);
    assert(vars[4].0.len() != vars[7].0.len());
    assert(vars[4].0.len() != vars[8].0.len());
    assert(vars[4].0[0] != vars[9].0[0]);
    assert(vars[4].0.len() != vars[10].0.len());
    assert(vars[4].0.len() != vars[11].0.len());
    assert(vars[5].0.len() != vars[6].0.len());
    assert(vars[5].0[0] != vars[7].0[0]);
    assert(vars[5].0.len() != vars[8].0.len());
    assert(vars[5].0.len() != vars[9].0.len());
    assert(vars[5].0[0] != vars[10].0[0]);
    assert(vars[5].0.len() != vars[11].0.len());
    assert(vars[6].0.len() != vars[7].0.len());
    assert(vars[6].0.len() != vars[8].0.len());
    assert(vars[6].0[0] != vars[9].0[0]);
    assert(vars[6].0.len() != vars[10].0.len());
    assert(vars[6].0.len() != vars[11].0.len());
    assert(vars[7].0.len() != vars[8].0.len());
    assert(vars[7].0.len() != vars[9].0.len());
    assert(vars[7].0[0] != vars[10].0[0]);
    assert(vars[7].0.len() != vars[11].0.len());
    assert(vars[8].0.len() != vars[9].0.len());
    assert(vars[8].0.len() != vars[10].0.len());
    assert(vars[8].0.len() != vars[11].0.len());
    assert(vars[9].0.len() != vars[10].0.len());
    assert(vars[9].0.len() != vars[11].0.len());
    assert(vars[10].0.len() != vars[11].0.len());
    assert forall|j: int, k: int| 0 <= j < k < 12 implies #[trigger] vars[j].0 != #[trigger] vars[k].0 by {
        assert(0 <= j < 12 && 0 <= k < 12);
    }
}

/// In a launch, an argument that is exactly the placeholder of a launch
/// variable becomes that variable's value, unless the value itself holds
/// the placeholder of a later variable.
pub proof fn lemma_launch_placeholder_argument(
    launcher: Launcher,
    version_id: Seq<char>,
    details: VersionDetails,
    account: Account,
    p: Platform,
    k: int,
)
    requires
        0 <= k < 12,
        ({
            let vars = launcher.spec_launch_vars(version_id, details, account, p);
            forall|j: int, i: int| k < j < 12 ==> !#[trigger] crate::text::occurs_at(vars[k].1, placeholder(vars[j].0), i)
        }),
    ensures
        ({
            let vars = launcher.spec_launch_vars(version_id, details, account, p);
            apply_vars(placeholder(vars[k].0), vars) == vars[k].1
        }),
{
    let vars = launcher.spec_launch_vars(version_id, details, account, p);
    lemma_launch_keys(launcher, version_id, details, account, p);
    assert forall|j: int, i: int| 0 <= j < k implies !#[trigger] crate::text::occurs_at(placeholder(vars[k].0), placeholder(vars[j].0), i) by {
        assert(plain_key(vars[k].0));
        assert(vars[j].0 != vars[k].0);
        if crate::text::occurs_at(placeholder(vars[k].0), placeholder(vars[j].0), i) {
            lemma_placeholder_in_placeholder(vars[j].0, vars[k].0, i);
        }
    }
    lemma_placeholder_becomes_value(vars, k);
}

/// No '$' in `s`.
pub open spec fn dollar_free(s: Seq<char>) -> bool {
    forall|k: int| 0 <= k < s.len() ==> s[k] != '$'
}

/// A '$'-free prefix of a placeholder-free string is left alone by the
/// variables.
proof fn lemma_prefixed_unchanged(prefix: Seq<char>, s: Seq<char>, vars: Seq<(Seq<char>, Seq<char>)>)
    requires
        dollar_free(prefix),
        forall|k: int, i: int| 0 <= k < vars.len() ==> !#[trigger] crate::text::occurs_at(s, placeholder(vars[k].0), i),
    ensures
        apply_vars(prefix + s, vars) == prefix + s,
{
    assert forall|k: int, i: int| 0 <= k < vars.len() implies !#[trigger] crate::text::occurs_at(prefix + s, placeholder(vars[k].0), i) by {
        assert forall|j: int| !crate::text::occurs_at(s, placeholder(vars[k].0), j) by {}
        lemma_prefix_keeps_placeholder_free(prefix, s, vars[k].0, i);
    }
    lemma_apply_vars_without_placeholders(prefix + s, vars);
}

/// A version without argument lists of its own starts the JVM with the
/// natives-directory properties, "-cp" and the class path, followed by the
/// configured extra arguments with the variables applied.  The properties
/// and the class path come out exactly as built when neither the natives
/// directory nor the class path holds the placeholder of a launch variable.
pub proof fn lemma_legacy_jvm_layout(
    launcher: Launcher,
    version_id: Seq<char>,
    details: VersionDetails,
    account: Account,
    p: Platform,
)
    requires
        details.arguments is None,
        ({
            let vars = launcher.spec_launch_vars(version_id, details, account, p);
            let natives = spec_join_path(launcher.spec_version_dir(version_id, p), "natives"@, p.spec_dir_separator());
            &&& forall|k: int, i: int| 0 <= k < 12 ==> !#[trigger] crate::text::occurs_at(natives, placeholder(vars[k].0), i)
            &&& forall|k: int, i: int| 0 <= k < 12 ==> !#[trigger] crate::text::occurs_at(
                launcher.spec_classpath(details, p),
                placeholder(vars[k].0),
                i,
            )
        }),
    ensures
        ({
            let vars = launcher.spec_launch_vars(version_id, details, account, p);
            let natives = spec_join_path(launcher.spec_version_dir(version_id, p), "natives"@, p.spec_dir_separator());
            let extra = strs_view(launcher.spec_config().jvm_args@);
            let jvm = launcher.spec_jvm_args(version_id, details, account, p);
            &&& jvm.len() == 5 + extra.len()
            &&& jvm[0] == "-Djava.library.path="@ + natives
            &&& jvm[1] == "-Djna.tmpdir="@ + natives
            &&& jvm[2] == "-Dorg.lwjgl.system.SharedLibraryExtractPath="@ + natives
            &&& jvm[3] == "-cp"@
            &&& jvm[4] == launcher.spec_classpath(details, p)
            &&& forall|i: int| 0 <= i < extra.len() ==> jvm[5 + i] == apply_vars(#[trigger] extra[i], vars)
        }),
{
    let vars = launcher.spec_launch_vars(version_id, details, account, p);
    let natives = spec_join_path(launcher.spec_version_dir(version_id, p), "natives"@, p.spec_dir_separator());
    let extra = strs_view(launcher.spec_config().jvm_args@);
    let own = seq![
        "-Djava.library.path="@ + natives,
        "-Djna.tmpdir="@ + natives,
        "-Dorg.lwjgl.system.SharedLibraryExtractPath="@ + natives,
        "-cp"@,
        "${classpath}"@,
    ];
    let all = own + extra;
    let jvm = launcher.spec_jvm_args(version_id, details, account, p);
    assert(jvm == apply_all(all, vars));
    assert(vars.len() == 12);
    reveal_strlit("-Djava.library.path=");
    reveal_strlit("-Djna.tmpdir=");
    reveal_strlit("-Dorg.lwjgl.system.SharedLibraryExtractPath=");
    reveal_strlit("-cp");
    reveal_strlit("${classpath}");
    reveal_strlit("${");
    reveal_strlit("}");
    reveal_strlit("classpath");
    assert(dollar_free("-Djava.library.path="@));
    assert(dollar_free("-Djna.tmpdir="@));
    assert(dollar_free("-Dorg.lwjgl.system.SharedLibraryExtractPath="@));
    lemma_prefixed_unchanged("-Djava.library.path="@, natives, vars);
    lemma_prefixed_unchanged("-Djna.tmpdir="@, natives, vars);
    lemma_prefixed_unchanged("-Dorg.lwjgl.system.SharedLibraryExtractPath="@, natives, vars);
    assert(dollar_free("-cp"@));
    assert forall|k: int, i: int| 0 <= k < vars.len() implies !#[trigger] crate::text::occurs_at("-cp"@, placeholder(vars[k].0), i) by {
        lemma_no_dollar_no_placeholder("-cp"@, vars[k].0, i);
    }
    lemma_apply_vars_without_placeholders("-cp"@, vars);
    assert(placeholder(vars[10].0) =~= "${classpath}"@);
    lemma_launch_placeholder_argument(launcher, version_id, details, account, p, 10);
    assert(jvm[0] == apply_vars(all[0], vars));
    assert(jvm[1] == apply_vars(all[1], vars));
    assert(jvm[2] == apply_vars(all[2], vars));
    assert(jvm[3] == apply_vars(all[3], vars));
    assert(jvm[4] == apply_vars(all[4], vars));
    assert forall|i: int| 0 <= i < extra.len() implies jvm[5 + i] == apply_vars(#[trigger] extra[i], vars) by {
        assert(all[5 + i] == extra[i]);
    }
}

/// The instance the command line launches: the one asked for, else the
/// active one; refused when there is neither.
pub fn launch_instance_id(requested: Option<String>, active: Option<String>) -> (r: Result<String, String>)
    ensures
        requested matches Some(id) ==> r == Ok::<String, String>(id),
        requested is None ==> (active matches Some(id) ==> r == Ok::<String, String>(id)),
        requested is None && active is None ==> (r matches Err(e) && e@
            == "No instance selected and no active instance set. Use 'minecli instance create' or select one in the TUI."@),
{
    match requested {
        Some(id) => Ok(id),
        None => match active {
            Some(id) => Ok(id),
            None => Err(String::from_str(
                "No instance selected and no active instance set. Use 'minecli instance create' or select one in the TUI.",
            )),
        },
    }
}

/// The instance the interface launches: the active one; refused when none
/// is selected.
pub fn active_instance_for_launch(active: &Option<String>) -> (r: Result<String, String>)
    ensures
        active matches Some(id) ==> r == Ok::<String, String>(*id),
        active is None ==> (r matches Err(e) && e@
            == "No active instance selected. Please select an instance in the 'Instances' tab."@),
{
    match active {
        Some(id) => Ok(id.clone()),
        None => Err(String::from_str("No active instance selected. Please select an instance in the 'Instances' tab.")),
    }
}

/// Whether a launch first downloads the version: its metadata or its client
/// jar is missing, and downloads are not skipped.
pub fn needs_download(skip_downloads: bool, metadata_installed: bool, jar_present: bool) -> (r: bool)
    ensures
        r == (!skip_downloads && (!metadata_installed || !jar_present)),
{
    !skip_downloads && (!metadata_installed || !jar_present)
}

/// What the interface does when asked to launch an instance it has loaded.
#[derive(PartialEq, Eq, Structural, Clone, Copy, Debug)]
pub enum LaunchStep {
    /// Install the version's files first.
    Download,
    /// No account is active: nothing starts.
    NoAccount,
    /// Start the game.
    Start,
}

/// The interface downloads a version whose metadata or client jar is
/// missing; otherwise it starts the game when an account is active.
pub fn tui_launch_step(metadata_installed: bool, jar_present: bool, has_account: bool) -> (r: LaunchStep)
    ensures
        r == (if !metadata_installed || !jar_present {
            LaunchStep::Download
        } else if !has_account {
            LaunchStep::NoAccount
        } else {
            LaunchStep::Start
        }),
{
    if needs_download(false, metadata_installed, jar_present) {
        LaunchStep::Download
    } else if !has_account {
        LaunchStep::NoAccount
    } else {
        LaunchStep::Start
    }
}

/// The access token a launch passes: an account with Microsoft tokens
/// launches with its own access token, only an account without tokens with
/// "null"; and a game argument that is exactly "${auth_access_token}" becomes
/// that token (when the token holds no later variable's placeholder).
pub proof fn lemma_launch_passes_access_token(
    launcher: Launcher,
    version_id: Seq<char>,
    details: VersionDetails,
    account: Account,
    p: Platform,
)
    ensures
        launcher.spec_launch_vars(version_id, details, account, p).len() == 12,
        launcher.spec_launch_vars(version_id, details, account, p)[6].0 == "auth_access_token"@,
        account.microsoft_auth matches Some(ms)
            ==> launcher.spec_launch_vars(version_id, details, account, p)[6].1 == ms.access_token@,
        account.microsoft_auth is None
            ==> launcher.spec_launch_vars(version_id, details, account, p)[6].1 == "null"@,
        forall|k: int| 0 <= k < 12 && k != 6
            ==> launcher.spec_launch_vars(version_id, details, account, p)[k].0 != "auth_access_token"@,
{
    let vars = launcher.spec_launch_vars(version_id, details, account, p);
    lemma_launch_keys(launcher, version_id, details, account, p);
    assert forall|k: int| 0 <= k < 12 && k != 6 implies vars[k].0 != "auth_access_token"@ by {
        if k < 6 {
            assert(vars[k].0 != vars[6].0);
        } else {
            assert(vars[6].0 != vars[k].0);
        }
    }
    let token = match account.microsoft_auth {
        Some(ms) => ms.access_token@,
        None => "null"@,
    };
    assert(vars[6].1 == token);
    assert(vars[6].0 == "auth_access_token"@);
    assert(vars.len() == 12);
}

/// The access token an account launches with: its Microsoft access token,
/// or "null" without one.
pub open spec fn access_token_of(account: Account) -> Seq<char> {
    match account.microsoft_auth {
        Some(ms) => ms.access_token@,
        None => "null"@,
    }
}

/// A game argument that is exactly "${auth_access_token}" becomes the
/// account's access token (or "null" for an account without tokens), when
/// that token holds no later launch variable's placeholder.
pub proof fn lemma_access_token_argument(
    launcher: Launcher,
    version_id: Seq<char>,
    details: VersionDetails,
    account: Account,
    p: Platform,
)
    requires
        forall|j: int, i: int|
            6 < j < 12 ==> !#[trigger] crate::text::occurs_at(
                access_token_of(account),
                placeholder(launcher.spec_launch_vars(version_id, details, account, p)[j].0),
                i,
            ),
    ensures
        apply_vars(
            placeholder("auth_access_token"@),
            launcher.spec_launch_vars(version_id, details, account, p),
        ) == access_token_of(account),
{
    let vars = launcher.spec_launch_vars(version_id, details, account, p);
    lemma_launch_passes_access_token(launcher, version_id, details, account, p);
    assert(vars[6].1 == access_token_of(account));
    assert forall|j: int, i: int| 6 < j < 12 implies !#[trigger] crate::text::occurs_at(vars[6].1, placeholder(vars[j].0), i) by {
        assert(!crate::text::occurs_at(access_token_of(account), placeholder(vars[j].0), i));
    }
    lemma_launch_placeholder_argument(launcher, version_id, details, account, p, 6);
}

} // verus!
