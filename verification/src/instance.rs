//! Game instances: their configuration, the naming of their backups, and
//! the plan that brings an instance's mod folder in line with its declared
//! mods.
use vstd::prelude::*;
use sha1::Digest;
use crate::platform::{Platform, join_path, spec_join_path};
use crate::sort::{
    Keyed, lex_lt, sort_by_key, sort_by_key_desc, keys_distinct, strictly_ascending, strictly_descending,
    lemma_filter_keeps_keys_distinct, lemma_permutation_keeps_keys_distinct, lemma_sorted_distinct_is_strict,
    lemma_desc_distinct_is_strict,
};
use crate::text::{
    concat, ends_with, spec_ends_with, spec_starts_with, starts_with, str_eq, strs_view,
};

verus! {

/// No two declared mods share a name (the declarations form a map).
pub open spec fn mod_names_distinct(mods: Seq<(String, ModValue)>) -> bool {
    forall|i: int, j: int| 0 <= i < j < mods.len() ==> mods[i].0@ != mods[j].0@
}

/// Keeping some declarations keeps the names distinct.
proof fn lemma_filter_keeps_names_distinct(
    s: Seq<(String, ModValue)>,
    pred: spec_fn((String, ModValue)) -> bool,
)
    requires
        mod_names_distinct(s),
    ensures
        mod_names_distinct(s.filter(pred)),
    decreases s.len(),
{
    reveal_with_fuel(Seq::filter, 1);
    if s.len() > 0 {
        let d = s.drop_last();
        assert(mod_names_distinct(d)) by {
            assert forall|i: int, j: int| 0 <= i < j < d.len() implies d[i].0@ != d[j].0@ by {
                assert(d[i] == s[i] && d[j] == s[j]);
            }
        }
        lemma_filter_keeps_names_distinct(d, pred);
        let f = s.filter(pred);
        let fd = d.filter(pred);
        if pred(s.last()) {
            assert(f == fd.push(s.last()));
            assert forall|x: int, y: int| 0 <= x < y < f.len() implies f[x].0@ != f[y].0@ by {
                if y == f.len() - 1 {
                    assert(f[x] == fd[x]);
                    assert(fd.contains(fd[x]));
                    d.lemma_filter_contains_rev(pred, fd[x]);
                    let k = choose|k: int| 0 <= k < d.len() && d[k] == fd[x];
                    assert(s[k] == d[k]);
                    assert(s[s.len() - 1] == s.last());
                } else {
                    assert(f[x] == fd[x] && f[y] == fd[y]);
                }
            }
        } else {
            assert(f == fd);
        }
    }
}

/// A declared mod: its download URL, and optionally the expected SHA-1.
pub enum ModValue {
    Simple(String),
    Detailed { url: String, sha1: Option<String> },
}

/// The settings file of an instance. Declared mods are (name, source) pairs.
pub struct InstanceConfig {
    pub name: String,
    pub version: String,
    pub jvm_args: Option<Vec<String>>,
    pub pre_launch: Option<String>,
    pub post_exit: Option<String>,
    pub mods: Option<Vec<(String, ModValue)>>,
    pub java_path: Option<String>,
    pub java_version: Option<u32>,
}

/// An instance: its id, its directory, and its configuration.
pub struct Instance {
    pub id: String,
    pub path: String,
    pub config: InstanceConfig,
}

impl Keyed for Instance {
    open spec fn key(&self) -> Seq<char> {
        self.id@
    }

    fn key_str(&self) -> (r: &str) {
        self.id.as_str()
    }
}

/// One mod to bring into an instance: where it comes from, the file it is
/// cached as, and the file it becomes in the instance's mods folder.
pub struct ModSyncStep {
    pub url: String,
    pub sha1: Option<String>,
    pub cache_file: String,
    pub target_file: String,
}

/// SHA-1 of a byte string, as the `sha1` crate computes it.
pub uninterp spec fn spec_sha1_digest(data: Seq<u8>) -> Seq<u8>;

/// Calls `sha1::Sha1::digest` (the `Digest` trait's one-shot hash): the
/// result is the digest of `data`, which is 20 bytes long (SHA-1's output
/// size in the crate is `U20`).
#[verifier::external_body]
pub(crate) fn sha1_digest(data: &[u8]) -> (r: Vec<u8>)
    ensures
        r@ == spec_sha1_digest(data@),
        r@.len() == 20,
{
    sha1::Sha1::digest(data).to_vec()
}

/// The lower-case hexadecimal digit of a value below 16.
pub open spec fn hex_digit(v: u8) -> char {
    if v < 10 {
        (48u8 + v) as char
    } else {
        (97u8 + (v - 10)) as char
    }
}

/// Two lower-case hexadecimal digits per byte (what `{:x}` prints for a
/// digest).
pub open spec fn spec_hex_lower(bytes: Seq<u8>) -> Seq<char>
    decreases bytes.len(),
{
    if bytes.len() == 0 {
        seq![]
    } else {
        spec_hex_lower(bytes.drop_last()) + seq![
            hex_digit(bytes.last() / 16),
            hex_digit(bytes.last() % 16),
        ]
    }
}

fn hex_digit_exec(v: u8) -> (r: char)
    requires
        v < 16,
    ensures
        r == hex_digit(v),
{
    if v < 10 {
        ((48u8 + v) as char)
    } else {
        ((97u8 + (v - 10)) as char)
    }
}

/// The bytes as lower-case hexadecimal.
pub fn hex_lower(bytes: &[u8]) -> (r: String)
    ensures
        r@ == spec_hex_lower(bytes@),
{
    let mut out: Vec<char> = Vec::new();
    let n = bytes.len();
    for i in 0..n
        invariant
            n == bytes@.len(),
            out@ == spec_hex_lower(bytes@.take(i as int)),
    {
        let b = bytes[i];
        assert(bytes@.take(i + 1).drop_last() =~= bytes@.take(i as int));
        assert(bytes@.take(i + 1).last() == b);
        out.push(hex_digit_exec(b / 16));
        out.push(hex_digit_exec(b % 16));
        assert(out@ =~= spec_hex_lower(bytes@.take(i as int)) + seq![
            hex_digit(b / 16),
            hex_digit(b % 16),
        ]);
    }
    assert(bytes@.take(n as int) =~= bytes@);
    crate::text::string_from_chars(out.as_slice())
}

/// A backup archive name is "backup_" + stamp + ".zip".
pub open spec fn is_backup_name(name: Seq<char>) -> bool {
    spec_starts_with(name, "backup_"@) && spec_ends_with(name, ".zip"@)
}

pub open spec fn backup_pred() -> spec_fn(String) -> bool {
    |s: String| is_backup_name(s@)
}

/// The file name of a backup taken at `timestamp`.
pub fn backup_file_name(timestamp: &str) -> (r: String)
    ensures
        r@ == "backup_"@ + timestamp@ + ".zip"@,
{
    let s = concat("backup_", timestamp);
    concat(s.as_str(), ".zip")
}

/// An ASCII decimal digit.
pub open spec fn is_ascii_digit(c: char) -> bool {
    '0' <= c && c <= '9'
}

/// The shape of a "%Y%m%d_%H%M%S" stamp: the year (four digits, or a sign
/// and at least four digits outside 0..=9999), two digits each for month and
/// day, '_', and two digits each for hour, minute and second.
pub open spec fn is_backup_stamp(s: Seq<char>) -> bool {
    let n = s.len();
    &&& n >= 15
    &&& s[n - 7] == '_'
    &&& (is_ascii_digit(s[0]) || s[0] == '+' || s[0] == '-')
    &&& forall|i: int| 1 <= i < n - 7 ==> is_ascii_digit(#[trigger] s[i])
    &&& forall|i: int| n - 6 <= i < n ==> is_ascii_digit(#[trigger] s[i])
}

/// Calls `chrono::Local::now` and formats it as "%Y%m%d_%H%M%S". The text
/// follows the system clock and time zone; chrono's formatter writes the
/// year as four digits for 0..=9999 (otherwise a sign and at least four
/// digits) and every other field as two digits, which is the shape stated.
#[verifier::external_body]
fn local_timestamp() -> (r: String)
    ensures
        is_backup_stamp(r@),
{
    chrono::Local::now().format("%Y%m%d_%H%M%S").to_string()
}

/// The file name of a backup taken now: "backup_", the local time as
/// "%Y%m%d_%H%M%S", ".zip".
pub fn new_backup_file_name() -> (r: String)
    ensures
        exists|stamp: Seq<char>| is_backup_stamp(stamp) && r@ == "backup_"@ + stamp + ".zip"@,
        is_backup_name(r@),
{
    let stamp = local_timestamp();
    let r = backup_file_name(stamp.as_str());
    proof {
        lemma_backup_names_are_listed(stamp@);
    }
    r
}

/// The backup a restore means: the file of that name among `backups`, or
/// else the backup taken at that timestamp; refused when neither exists.
pub fn resolve_backup_name(backups: &Vec<String>, wanted: &str) -> (r: Result<String, String>)
    ensures
        (exists|k: int| 0 <= k < backups@.len() && (#[trigger] backups@[k])@ == wanted@) ==> (r matches Ok(
            n,
        ) && n@ == wanted@),
        !(exists|k: int| 0 <= k < backups@.len() && (#[trigger] backups@[k])@ == wanted@) && (exists|
            k: int,
        | 0 <= k < backups@.len() && (#[trigger] backups@[k])@ == "backup_"@ + wanted@ + ".zip"@)
            ==> (r matches Ok(n) && n@ == "backup_"@ + wanted@ + ".zip"@),
        !(exists|k: int| 0 <= k < backups@.len() && (#[trigger] backups@[k])@ == wanted@) && !(exists|
            k: int,
        | 0 <= k < backups@.len() && (#[trigger] backups@[k])@ == "backup_"@ + wanted@ + ".zip"@)
            ==> (r matches Err(e) && e@ == "Backup file not found: "@ + wanted@),
{
    let stamped = backup_file_name(wanted);
    let mut found_stamped = false;
    let n = backups.len();
    for i in 0..n
        invariant
            n == backups@.len(),
            stamped@ == "backup_"@ + wanted@ + ".zip"@,
            forall|k: int| 0 <= k < i ==> (#[trigger] backups@[k])@ != wanted@,
            found_stamped == exists|k: int| 0 <= k < i && (#[trigger] backups@[k])@ == stamped@,
    {
        if str_eq(backups[i].as_str(), wanted) {
            return Ok(String::from_str(wanted));
        }
        if str_eq(backups[i].as_str(), stamped.as_str()) {
            found_stamped = true;
        }
    }
    if found_stamped {
        Ok(stamped)
    } else {
        Err(concat("Backup file not found: ", wanted))
    }
}

/// The instance directory's file name a sync gives a declared mod.
pub open spec fn spec_mod_target_file(name: Seq<char>) -> Seq<char> {
    if spec_ends_with(name, ".jar"@) {
        name
    } else {
        name + ".jar"@
    }
}

/// The file a declared mod becomes in the instance's mods folder.
pub fn mod_target_file_name(name: &str) -> (r: String)
    ensures
        r@ == spec_mod_target_file(name@),
{
    if ends_with(name, ".jar") {
        String::from_str(name)
    } else {
        concat(name, ".jar")
    }
}

/// The cache file of a mod whose URL has the given SHA-1 digest.
pub fn cache_file_name_for_digest(digest: &[u8]) -> (r: String)
    ensures
        r@ == spec_hex_lower(digest@) + ".jar"@,
{
    let h = hex_lower(digest);
    concat(h.as_str(), ".jar")
}

/// The cache file of a mod: named by its declared SHA-1, or else by the
/// SHA-1 of its URL.
pub open spec fn spec_mod_cache_file(url: Seq<char>, sha1: Option<Seq<char>>) -> Seq<char> {
    match sha1 {
        Some(s) => s + ".jar"@,
        None => spec_hex_lower(spec_sha1_digest(vstd::utf8::encode_utf8(url))) + ".jar"@,
    }
}

pub fn mod_cache_file_name(url: &str, sha1: &Option<String>) -> (r: String)
    ensures
        r@ == spec_mod_cache_file(
            url@,
            match sha1 {
                Some(s) => Some(s@),
                None => None,
            },
        ),
{
    match sha1 {
        Some(s) => concat(s.as_str(), ".jar"),
        None => {
            let digest = sha1_digest(url.as_bytes());
            cache_file_name_for_digest(digest.as_slice())
        },
    }
}

impl ModValue {
    /// The URL of the mod.
    pub open spec fn spec_url(self) -> Seq<char> {
        match self {
            ModValue::Simple(u) => u@,
            ModValue::Detailed { url, .. } => url@,
        }
    }

    /// The declared SHA-1 of the mod, if any.
    pub open spec fn spec_sha1(self) -> Option<Seq<char>> {
        match self {
            ModValue::Simple(_) => None,
            ModValue::Detailed { sha1, .. } => match sha1 {
                Some(s) => Some(s@),
                None => None,
            },
        }
    }

    pub fn duplicate(&self) -> (r: ModValue)
        ensures
            r == *self,
    {
        match self {
            ModValue::Simple(u) => ModValue::Simple(u.clone()),
            ModValue::Detailed { url, sha1 } => ModValue::Detailed { url: url.clone(), sha1: sha1.clone() },
        }
    }

    /// The URL and declared SHA-1 of the mod.
    pub fn source(&self) -> (r: (String, Option<String>))
        ensures
            r.0@ == self.spec_url(),
            match r.1 {
                Some(s) => self.spec_sha1() == Some(s@),
                None => self.spec_sha1() is None,
            },
    {
        match self {
            ModValue::Simple(u) => (u.clone(), None),
            ModValue::Detailed { url, sha1 } => (
                url.clone(),
                match sha1 {
                    Some(s) => Some(s.clone()),
                    None => None,
                },
            ),
        }
    }
}

/// The step that syncs one declared mod.
pub open spec fn spec_sync_step(name: Seq<char>, m: ModValue, step: ModSyncStep) -> bool {
    &&& step.url@ == m.spec_url()
    &&& match step.sha1 {
        Some(s) => m.spec_sha1() == Some(s@),
        None => m.spec_sha1() is None,
    }
    &&& step.cache_file@ == spec_mod_cache_file(m.spec_url(), m.spec_sha1())
    &&& step.target_file@ == spec_mod_target_file(name)
}

/// The mod files to delete after a sync: the ".jar" files of the folder that
/// no declared mod became.
pub open spec fn spec_is_stale(file: Seq<char>, expected: Seq<Seq<char>>) -> bool {
    spec_ends_with(file, ".jar"@) && !expected.contains(file)
}

impl InstanceConfig {
    /// The configuration of a newly created instance: a name and a game
    /// version, nothing else set.
    pub fn new(name: &str, version: &str) -> (r: InstanceConfig)
        ensures
            r.name@ == name@,
            r.version@ == version@,
            r.jvm_args is None,
            r.pre_launch is None,
            r.post_exit is None,
            r.mods is None,
            r.java_path is None,
            r.java_version is None,
    {
        InstanceConfig {
            name: String::from_str(name),
            version: String::from_str(version),
            jvm_args: None,
            pre_launch: None,
            post_exit: None,
            mods: None,
            java_path: None,
            java_version: None,
        }
    }

    /// Sets or clears the instance's own Java executable: an empty value or
    /// "clear" clears it.
    pub fn set_java_path(&mut self, path: String)
        ensures
            (path@.len() == 0 || path@ == "clear"@) ==> final(self).java_path is None,
            !(path@.len() == 0 || path@ == "clear"@) ==> final(self).java_path == Some(path),
            final(self).name == old(self).name,
            final(self).version == old(self).version,
            final(self).jvm_args == old(self).jvm_args,
            final(self).pre_launch == old(self).pre_launch,
            final(self).post_exit == old(self).post_exit,
            final(self).mods == old(self).mods,
            final(self).java_version == old(self).java_version,
    {
        if path.as_str().is_empty() || str_eq(path.as_str(), "clear") {
            self.java_path = None;
        } else {
            self.java_path = Some(path);
        }
    }

    /// Sets or clears the forced Java major version: 0 clears it.
    pub fn set_java_version(&mut self, version: u32)
        ensures
            version == 0 ==> final(self).java_version is None,
            version != 0 ==> final(self).java_version == Some(version),
            final(self).name == old(self).name,
            final(self).version == old(self).version,
            final(self).jvm_args == old(self).jvm_args,
            final(self).pre_launch == old(self).pre_launch,
            final(self).post_exit == old(self).post_exit,
            final(self).mods == old(self).mods,
            final(self).java_path == old(self).java_path,
    {
        if version == 0 {
            self.java_version = None;
        } else {
            self.java_version = Some(version);
        }
    }

    /// Applies a typed Java-version setting: empty, "0" or "clear" clear it,
    /// a number sets it, anything else leaves it as it was.
    pub fn apply_java_version_input(&mut self, input: &str)
        ensures
            (input@.len() == 0 || input@ == "0"@ || input@ == "clear"@) ==> final(self).java_version is None,
            !(input@.len() == 0 || input@ == "0"@ || input@ == "clear"@) ==> final(self).java_version == (match crate::text::spec_parse_u32(input@) {
                Some(v) => Some(v),
                None => old(self).java_version,
            }),
            final(self).java_path == old(self).java_path,
            final(self).name == old(self).name,
            final(self).version == old(self).version,
            final(self).mods == old(self).mods,
    {
        if input.is_empty() || str_eq(input, "0") || str_eq(input, "clear") {
            self.java_version = None;
        } else {
            match crate::text::parse_u32(input) {
                Some(v) => {
                    self.java_version = Some(v);
                },
                None => {},
            }
        }
    }

    /// The declared mods, none when the instance declares none.
    pub open spec fn spec_mods(self) -> Seq<(String, ModValue)> {
        match self.mods {
            Some(m) => m@,
            None => seq![],
        }
    }

    /// The declared mods have distinct names.
    pub open spec fn wf(self) -> bool {
        mod_names_distinct(self.spec_mods())
    }

    /// Declares a mod under `name`, replacing any declaration of that name;
    /// the new declaration comes last.
    pub fn declare_mod(&mut self, name: String, value: ModValue)
        ensures
            old(self).wf() ==> final(self).wf(),
            final(self).mods is Some,
            final(self).spec_mods() == old(self).spec_mods().filter(
                |e: (String, ModValue)| e.0@ != name@,
            ).push((name, value)),
            final(self).name == old(self).name,
            final(self).version == old(self).version,
            final(self).java_path == old(self).java_path,
            final(self).java_version == old(self).java_version,
            final(self).jvm_args == old(self).jvm_args,
            final(self).pre_launch == old(self).pre_launch,
            final(self).post_exit == old(self).post_exit,
    {
        let ghost pred = |e: (String, ModValue)| e.0@ != name@;
        let ghost orig = self.spec_mods();
        let mut kept: Vec<(String, ModValue)> = Vec::new();
        if let Some(list) = &self.mods {
            let n = list.len();
            for i in 0..n
                invariant
                    n == list@.len(),
                    list@ == orig,
                    pred == (|e: (String, ModValue)| e.0@ != name@),
                    kept@ == orig.take(i as int).filter(pred),
            {
                assert(orig.take(i + 1).drop_last() =~= orig.take(i as int));
                assert(orig.take(i + 1).last() == orig[i as int]);
                reveal_with_fuel(Seq::filter, 1);
                if !str_eq(list[i].0.as_str(), name.as_str()) {
                    kept.push((list[i].0.clone(), list[i].1.duplicate()));
                }
            }
            assert(orig.take(n as int) =~= orig);
        } else {
            assert(orig.filter(pred) =~= seq![]);
        }
        let ghost before = kept@;
        proof {
            if mod_names_distinct(orig) {
                lemma_filter_keeps_names_distinct(orig, pred);
                assert forall|x: int| 0 <= x < before.len() implies before[x].0@ != name@ by {
                    assert(orig.filter(pred).contains(before[x]));
                    orig.filter_lemma(pred);
                }
            }
        }
        kept.push((name, value));
        self.mods = Some(kept);
    }

    /// Drops the declarations whose mod file is `target_file`.
    pub fn forget_mod_file(&mut self, target_file: &str)
        ensures
            old(self).wf() ==> final(self).wf(),
            final(self).spec_mods() == old(self).spec_mods().filter(
                |e: (String, ModValue)| spec_mod_target_file(e.0@) != target_file@,
            ),
            old(self).mods is None ==> final(self).mods is None,
            final(self).name == old(self).name,
            final(self).version == old(self).version,
            final(self).java_path == old(self).java_path,
            final(self).java_version == old(self).java_version,
            final(self).jvm_args == old(self).jvm_args,
            final(self).pre_launch == old(self).pre_launch,
            final(self).post_exit == old(self).post_exit,
    {
        let ghost pred = |e: (String, ModValue)| spec_mod_target_file(e.0@) != target_file@;
        let ghost orig = self.spec_mods();
        if let Some(list) = &self.mods {
            let mut kept: Vec<(String, ModValue)> = Vec::new();
            let n = list.len();
            for i in 0..n
                invariant
                    n == list@.len(),
                    list@ == orig,
                    pred == (|e: (String, ModValue)| spec_mod_target_file(e.0@) != target_file@),
                    kept@ == orig.take(i as int).filter(pred),
            {
                assert(orig.take(i + 1).drop_last() =~= orig.take(i as int));
                assert(orig.take(i + 1).last() == orig[i as int]);
                reveal_with_fuel(Seq::filter, 1);
                let target = mod_target_file_name(list[i].0.as_str());
                if !str_eq(target.as_str(), target_file) {
                    kept.push((list[i].0.clone(), list[i].1.duplicate()));
                }
            }
            assert(orig.take(n as int) =~= orig);
            proof {
                if mod_names_distinct(orig) {
                    lemma_filter_keeps_names_distinct(orig, pred);
                }
            }
            self.mods = Some(kept);
        } else {
            assert(orig.filter(pred) =~= seq![]);
        }
    }

    /// Points the declarations whose mod file is `target_file` at `url`.
    pub fn point_mod_file_to(&mut self, target_file: &str, url: &str)
        ensures
            old(self).wf() ==> final(self).wf(),
            final(self).spec_mods().len() == old(self).spec_mods().len(),
            forall|i: int|
                0 <= i < old(self).spec_mods().len() ==> (#[trigger] final(self).spec_mods()[i]).0
                    == old(self).spec_mods()[i].0 && (if spec_mod_target_file(
                    old(self).spec_mods()[i].0@,
                ) == target_file@ {
                    (final(self).spec_mods()[i].1 matches ModValue::Simple(u) && u@ == url@)
                } else {
                    final(self).spec_mods()[i].1 == old(self).spec_mods()[i].1
                }),
            old(self).mods is None ==> final(self).mods is None,
            final(self).name == old(self).name,
            final(self).version == old(self).version,
            final(self).java_path == old(self).java_path,
            final(self).java_version == old(self).java_version,
            final(self).jvm_args == old(self).jvm_args,
            final(self).pre_launch == old(self).pre_launch,
            final(self).post_exit == old(self).post_exit,
    {
        let ghost orig = self.spec_mods();
        if let Some(list) = &self.mods {
            let mut out: Vec<(String, ModValue)> = Vec::new();
            let n = list.len();
            for i in 0..n
                invariant
                    n == list@.len(),
                    list@ == orig,
                    out@.len() == i,
                    forall|k: int|
                        0 <= k < i ==> (#[trigger] out@[k]).0 == orig[k].0 && (if spec_mod_target_file(
                            orig[k].0@,
                        ) == target_file@ {
                            (out@[k].1 matches ModValue::Simple(u) && u@ == url@)
                        } else {
                            out@[k].1 == orig[k].1
                        }),
            {
                let target = mod_target_file_name(list[i].0.as_str());
                let value = if str_eq(target.as_str(), target_file) {
                    ModValue::Simple(String::from_str(url))
                } else {
                    list[i].1.duplicate()
                };
                out.push((list[i].0.clone(), value));
            }
            self.mods = Some(out);
        }
    }

    /// The steps that sync the declared mods, in declaration order.
    pub fn plan_mod_sync(&self) -> (r: Vec<ModSyncStep>)
        ensures
            match self.mods {
                Some(m) => r@.len() == m@.len() && forall|i: int|
                    0 <= i < m@.len() ==> spec_sync_step(
                        (#[trigger] m@[i]).0@,
                        m@[i].1,
                        r@[i],
                    ),
                None => r@.len() == 0,
            },
    {
        let mut out: Vec<ModSyncStep> = Vec::new();
        match &self.mods {
            Some(mods) => {
                let n = mods.len();
                for i in 0..n
                    invariant
                        n == mods@.len(),
                        out@.len() == i,
                        forall|k: int|
                            0 <= k < i ==> spec_sync_step(
                                (#[trigger] mods@[k]).0@,
                                mods@[k].1,
                                out@[k],
                            ),
                {
                    let (name, value) = &mods[i];
                    let (url, sha1) = value.source();
                    let cache_file = mod_cache_file_name(url.as_str(), &sha1);
                    let target_file = mod_target_file_name(name.as_str());
                    out.push(ModSyncStep { url, sha1, cache_file, target_file });
                }
            },
            None => {},
        }
        out
    }
}

/// The ".jar" files of `existing` that are not in `expected`, in order.
pub fn stale_mod_files(existing: &Vec<String>, expected: &Vec<String>) -> (r: Vec<String>)
    ensures
        strs_view(r@) == strs_view(existing@).filter(
            |f: Seq<char>| spec_is_stale(f, strs_view(expected@)),
        ),
{
    let ghost pred = |f: Seq<char>| spec_is_stale(f, strs_view(expected@));
    let mut out: Vec<String> = Vec::new();
    let n = existing.len();
    for i in 0..n
        invariant
            n == existing@.len(),
            pred == (|f: Seq<char>| spec_is_stale(f, strs_view(expected@))),
            strs_view(out@) == strs_view(existing@).take(i as int).filter(pred),
    {
        let f = &existing[i];
        let ghost ev = strs_view(existing@);
        assert(ev.take(i + 1).drop_last() =~= ev.take(i as int));
        assert(ev.take(i + 1).last() == f@);
        reveal_with_fuel(Seq::filter, 1);
        let is_jar = ends_with(f.as_str(), ".jar");
        let mut listed = false;
        let m = expected.len();
        for j in 0..m
            invariant
                m == expected@.len(),
                *f == existing@[i as int],
                listed == (exists|k: int| 0 <= k < j && (#[trigger] expected@[k])@ == f@),
        {
            if expected[j] == *f {
                listed = true;
            }
        }
        proof {
            let ex = strs_view(expected@);
            if listed {
                let k = choose|k: int| 0 <= k < m && (#[trigger] expected@[k])@ == f@;
                assert(ex[k] == f@);
            } else {
                assert forall|k: int| 0 <= k < ex.len() implies ex[k] != f@ by {
                    assert(ex[k] == expected@[k]@);
                }
            }
            assert(listed == ex.contains(f@));
        }
        if is_jar && !listed {
            let ghost before = out@;
            out.push(f.clone());
            assert(strs_view(out@) =~= strs_view(before).push(f@));
        }
    }
    assert(strs_view(existing@).take(n as int) =~= strs_view(existing@));
    out
}

/// A file of a mods folder is a mod: an enabled ".jar" or a disabled
/// ".jar.disabled".
pub open spec fn is_mod_file(name: Seq<char>) -> bool {
    spec_ends_with(name, ".jar"@) || spec_ends_with(name, ".jar.disabled"@)
}

pub open spec fn mod_file_pred() -> spec_fn(String) -> bool {
    |s: String| is_mod_file(s@)
}

/// The mods of a mods folder, from its file names: in order of name, each
/// with whether it is enabled (ends in ".jar").
pub fn mod_file_entries(file_names: Vec<String>) -> (r: Vec<(String, bool)>)
    ensures
        forall|i: int, j: int| 0 <= i < j < r@.len() ==> !lex_lt(r@[j].0@, r@[i].0@),
        r@.map_values(|e: (String, bool)| e.0).to_multiset() =~= file_names@.filter(
            mod_file_pred(),
        ).to_multiset(),
        forall|i: int| 0 <= i < r@.len() ==> r@[i].1 == spec_ends_with(r@[i].0@, ".jar"@),
{
    let ghost pred = mod_file_pred();
    let mut kept: Vec<String> = Vec::new();
    let n = file_names.len();
    for i in 0..n
        invariant
            n == file_names@.len(),
            pred == mod_file_pred(),
            kept@ == file_names@.take(i as int).filter(pred),
    {
        let f = &file_names[i];
        assert(file_names@.take(i + 1).drop_last() =~= file_names@.take(i as int));
        assert(file_names@.take(i + 1).last() == *f);
        reveal_with_fuel(Seq::filter, 1);
        if ends_with(f.as_str(), ".jar") || ends_with(f.as_str(), ".jar.disabled") {
            kept.push(f.clone());
        }
    }
    assert(file_names@.take(n as int) =~= file_names@);
    let sorted = sort_by_key(kept);
    let mut out: Vec<(String, bool)> = Vec::new();
    let m = sorted.len();
    for i in 0..m
        invariant
            m == sorted@.len(),
            out@.map_values(|e: (String, bool)| e.0) == sorted@.take(i as int),
            forall|k: int| 0 <= k < out@.len() ==> out@[k].1 == spec_ends_with(out@[k].0@, ".jar"@),
    {
        let name = sorted[i].clone();
        let enabled = ends_with(name.as_str(), ".jar");
        let ghost before = out@;
        out.push((name, enabled));
        assert(out@.map_values(|e: (String, bool)| e.0) =~= before.map_values(|e: (String, bool)| e.0).push(
            sorted@[i as int],
        ));
        assert(sorted@.take(i + 1) =~= sorted@.take(i as int).push(sorted@[i as int]));
    }
    assert(sorted@.take(m as int) =~= sorted@);
    assert forall|i: int, j: int| 0 <= i < j < out@.len() implies !lex_lt(out@[j].0@, out@[i].0@) by {
        assert(out@[j].0 == out@.map_values(|e: (String, bool)| e.0)[j]);
        assert(out@[i].0 == out@.map_values(|e: (String, bool)| e.0)[i]);
        assert(sorted@[j].key() == sorted@[j]@);
        assert(sorted@[i].key() == sorted@[i]@);
    }
    out
}

/// The target files of a sync plan.
pub fn planned_target_files(steps: &Vec<ModSyncStep>) -> (r: Vec<String>)
    ensures
        r@.len() == steps@.len(),
        forall|i: int| 0 <= i < steps@.len() ==> (#[trigger] r@[i])@ == steps@[i].target_file@,
{
    let mut out: Vec<String> = Vec::new();
    let n = steps.len();
    for i in 0..n
        invariant
            n == steps@.len(),
            out@.len() == i,
            forall|k: int| 0 <= k < i ==> (#[trigger] out@[k])@ == steps@[k].target_file@,
    {
        out.push(steps[i].target_file.clone());
    }
    out
}

/// The name a new instance gets when none is given: "<id> Profile".
pub fn default_instance_name(id: &str) -> (r: String)
    ensures
        r@ == id@ + " Profile"@,
{
    concat(id, " Profile")
}

/// "Syncing mods for instance '<id>'...".
pub fn sync_start_message(id: &str) -> (r: String)
    ensures
        r@ == "Syncing mods for instance '"@ + id@ + "'..."@,
{
    let s = concat("Syncing mods for instance '", id);
    concat(s.as_str(), "'...")
}

impl Instance {
    /// A new instance under `<game_dir>/instances/<id>`; refused when that
    /// directory already exists.
    pub fn create(
        game_dir: &str,
        id: &str,
        name: &str,
        version: &str,
        already_exists: bool,
        platform: &Platform,
    ) -> (r: Result<Instance, String>)
        ensures
            already_exists ==> r == Err::<Instance, String>(r->Err_0) && r->Err_0@
                == "Instance directory '"@ + id@ + "' already exists."@,
            !already_exists ==> r == Ok::<Instance, String>(r->Ok_0) && r->Ok_0.id@ == id@
                && r->Ok_0.path@ == spec_join_path(
                spec_join_path(game_dir@, "instances"@, platform.spec_dir_separator()),
                id@,
                platform.spec_dir_separator(),
            ) && r->Ok_0.config.name@ == name@ && r->Ok_0.config.version@ == version@
                && r->Ok_0.config.mods is None && r->Ok_0.config.java_path is None
                && r->Ok_0.config.java_version is None && r->Ok_0.config.jvm_args is None
                && r->Ok_0.config.pre_launch is None && r->Ok_0.config.post_exit is None,
    {
        if already_exists {
            let s = concat("Instance directory '", id);
            return Err(concat(s.as_str(), "' already exists."));
        }
        let instances_dir = join_path(game_dir, "instances", platform);
        let path = join_path(instances_dir.as_str(), id, platform);
        Ok(Instance { id: String::from_str(id), path, config: InstanceConfig::new(name, version) })
    }

    /// Instances in order of their ids.
    pub fn order_by_id(list: Vec<Instance>) -> (r: Vec<Instance>)
        ensures
            forall|i: int, j: int| 0 <= i < j < r@.len() ==> !lex_lt(r@[j].id@, r@[i].id@),
            r@.to_multiset() =~= list@.to_multiset(),
            keys_distinct(list@) ==> strictly_ascending(r@),
    {
        let ghost orig = list@;
        let r = sort_by_key(list);
        proof {
            if keys_distinct(orig) {
                lemma_permutation_keeps_keys_distinct(r@, orig);
                lemma_sorted_distinct_is_strict(r@);
            }
        }
        assert forall|i: int, j: int| 0 <= i < j < r@.len() implies !lex_lt(r@[j].id@, r@[i].id@) by {
            assert(r@[j].key() == r@[j].id@);
            assert(r@[i].key() == r@[i].id@);
        }
        r
    }

    /// The backup archives among the file names of the backups folder,
    /// newest (greatest name) first.
    pub fn list_backups(file_names: Vec<String>) -> (r: Vec<String>)
        ensures
            forall|i: int, j: int| 0 <= i < j < r@.len() ==> !lex_lt(r@[i]@, r@[j]@),
            r@.to_multiset() =~= file_names@.filter(backup_pred()).to_multiset(),
            keys_distinct(file_names@) ==> strictly_descending(r@),
    {
        let ghost pred = backup_pred();
        let mut kept: Vec<String> = Vec::new();
        let n = file_names.len();
        for i in 0..n
            invariant
                n == file_names@.len(),
                pred == backup_pred(),
                kept@ == file_names@.take(i as int).filter(pred),
        {
            let f = &file_names[i];
            assert(file_names@.take(i + 1).drop_last() =~= file_names@.take(i as int));
            assert(file_names@.take(i + 1).last() == *f);
            reveal_with_fuel(Seq::filter, 1);
            if starts_with(f.as_str(), "backup_") && ends_with(f.as_str(), ".zip") {
                kept.push(f.clone());
            }
        }
        assert(file_names@.take(n as int) =~= file_names@);
        let ghost kept_view = kept@;
        let r = sort_by_key_desc(kept);
        assert forall|i: int, j: int| 0 <= i < j < r@.len() implies !lex_lt(r@[i]@, r@[j]@) by {
            assert(r@[j].key() == r@[j]@);
            assert(r@[i].key() == r@[i]@);
        }
        proof {
            if keys_distinct(file_names@) {
                lemma_filter_keeps_keys_distinct(file_names@, pred);
                lemma_permutation_keeps_keys_distinct(r@, kept_view);
                lemma_desc_distinct_is_strict(r@);
            }
        }
        r
    }
}

/// Every name `backup_file_name` makes is one `list_backups` keeps.
pub proof fn lemma_backup_names_are_listed(timestamp: Seq<char>)
    ensures
        is_backup_name("backup_"@ + timestamp + ".zip"@),
{
    let s = "backup_"@ + timestamp + ".zip"@;
    reveal_strlit("backup_");
    reveal_strlit(".zip");
    assert(s.subrange(0, 7) =~= "backup_"@);
    assert(s.subrange(s.len() - 4, s.len() as int) =~= ".zip"@);
}

/// A declared mod whose name already ends in ".jar" keeps its name; any
/// other gets ".jar" appended, so the target file always ends in ".jar".
pub proof fn lemma_mod_target_is_jar(name: Seq<char>)
    ensures
        spec_ends_with(spec_mod_target_file(name), ".jar"@),
{
    if !spec_ends_with(name, ".jar"@) {
        let t = name + ".jar"@;
        reveal_strlit(".jar");
        assert(t.subrange(t.len() - 4, t.len() as int) =~= ".jar"@);
    }
}

/// A file that a sync plan targets is never deleted as stale.
pub proof fn lemma_planned_files_are_kept(file: Seq<char>, expected: Seq<Seq<char>>)
    requires
        expected.contains(file),
    ensures
        !spec_is_stale(file, expected),
{
}

} // verus!
