//! Game version ids: where a version's metadata comes from, the mod-loader
//! versions an instance can use, and the filters of the version lists.
use vstd::prelude::*;
use crate::api::{VersionBrief, VersionManifest};
use crate::sort::{
    sort_by_key, sorted_by_key, keys_distinct, strictly_ascending, lemma_filter_keeps_keys_distinct,
    lemma_permutation_keeps_keys_distinct, lemma_sorted_distinct_is_strict,
};
use crate::text::{
    concat, spec_contains, contains, find_char, spec_starts_with, split_once, starts_with,
    str_eq, strip_prefix, to_lowercase, spec_to_lowercase, split_whitespace, split_ws, strs_view,
    spec_is_whitespace, split_ws_from, lemma_split_ws_word, lemma_split_ws_space,
};

verus! {

/// Where the metadata of a version id comes from.
pub enum VersionSource {
    /// The version's metadata file is already installed.
    Local,
    /// A Fabric profile: "fabric-loader-<loader>-<game>".
    Fabric { loader_version: String, game_version: String },
    /// A Forge profile: "forge-<version>".
    Forge(String),
    /// A NeoForge profile: "neoforge-<version>".
    NeoForge(String),
    /// A release or snapshot from the Mojang manifest.
    Vanilla,
}

/// A Fabric loader release for some game version.
pub struct FabricLoaderEntry {
    pub version: String,
    pub stable: bool,
}

/// A dependency of a Forge/NeoForge version on another component.
pub struct LoaderRequirement {
    pub uid: String,
    pub equals: String,
}

/// A Forge or NeoForge version of the loader index.
pub struct LoaderIndexEntry {
    pub version: String,
    pub recommended: bool,
    pub requires: Vec<LoaderRequirement>,
}

pub open spec fn fabric_prefix() -> Seq<char> {
    "fabric-loader-"@
}

/// Where the metadata of `id` comes from, with `fabric_error` the refusal of
/// a Fabric id without a game version.
pub open spec fn spec_version_source(
    id: Seq<char>,
    metadata_installed: bool,
    r: Result<VersionSource, String>,
    fabric_error: Seq<char>,
) -> bool {
    &&& metadata_installed ==> (r matches Ok(VersionSource::Local))
    &&& !metadata_installed ==> ({
        let rest = id.skip(fabric_prefix().len() as int);
        let k = find_char(rest, '-');
        if spec_starts_with(id, fabric_prefix()) {
            if k < 0 {
                r matches Err(e) && e@ == fabric_error
            } else {
                r matches Ok(VersionSource::Fabric { loader_version, game_version })
                    && loader_version@ == rest.take(k) && game_version@ == rest.skip(k + 1)
            }
        } else if spec_starts_with(id, "forge-"@) {
            r matches Ok(VersionSource::Forge(v)) && v@ == id.skip(6)
        } else if spec_starts_with(id, "neoforge-"@) {
            r matches Ok(VersionSource::NeoForge(v)) && v@ == id.skip(9)
        } else {
            r matches Ok(VersionSource::Vanilla)
        }
    })
}

/// Where to get the metadata of `version_id`: installed already, a Fabric,
/// Forge or NeoForge profile named by the id, or the Mojang manifest.
pub fn classify_version_id(version_id: &str, metadata_installed: bool) -> (r: Result<
    VersionSource,
    String,
>)
    ensures
        spec_version_source(version_id@, metadata_installed, r, "Invalid Fabric version ID format: "@ + version_id@),
{
    if metadata_installed {
        return Ok(VersionSource::Local);
    }
    proof {
        reveal_strlit("fabric-loader-");
        reveal_strlit("forge-");
        reveal_strlit("neoforge-");
    }
    if starts_with(version_id, "fabric-loader-") {
        let rest = strip_prefix(version_id, "fabric-loader-");
        match split_once(rest.as_str(), '-') {
            Some((loader_version, game_version)) => Ok(
                VersionSource::Fabric { loader_version, game_version },
            ),
            None => Err(concat("Invalid Fabric version ID format: ", version_id)),
        }
    } else if starts_with(version_id, "forge-") {
        Ok(VersionSource::Forge(strip_prefix(version_id, "forge-")))
    } else if starts_with(version_id, "neoforge-") {
        Ok(VersionSource::NeoForge(strip_prefix(version_id, "neoforge-")))
    } else {
        Ok(VersionSource::Vanilla)
    }
}

/// The same choice for the interface, whose refusal of a malformed Fabric
/// id does not repeat the id.
pub fn classify_version_id_for_interface(version_id: &str, metadata_installed: bool) -> (r: Result<
    VersionSource,
    String,
>)
    ensures
        spec_version_source(version_id@, metadata_installed, r, "Invalid Fabric version ID format"@),
{
    match classify_version_id(version_id, metadata_installed) {
        Ok(source) => Ok(source),
        Err(_) => Err(String::from_str("Invalid Fabric version ID format")),
    }
}

/// "fabric-loader-<loader>-<game>".
pub open spec fn spec_fabric_version_id(loader: Seq<char>, game: Seq<char>) -> Seq<char> {
    "fabric-loader-"@ + loader + "-"@ + game
}

pub fn fabric_version_id(loader_version: &str, game_version: &str) -> (r: String)
    ensures
        r@ == spec_fabric_version_id(loader_version@, game_version@),
{
    let s = concat("fabric-loader-", loader_version);
    let s = concat(s.as_str(), "-");
    concat(s.as_str(), game_version)
}

/// "neoforge-<version>" or "forge-<version>".
pub open spec fn spec_forge_version_id(version: Seq<char>, neoforge: bool) -> Seq<char> {
    if neoforge {
        "neoforge-"@ + version
    } else {
        "forge-"@ + version
    }
}

pub fn forge_version_id(version: &str, neoforge: bool) -> (r: String)
    ensures
        r@ == spec_forge_version_id(version@, neoforge),
{
    if neoforge {
        concat("neoforge-", version)
    } else {
        concat("forge-", version)
    }
}

/// The version whose client jar a launch uses: the one the metadata
/// inherits from, or the version itself.
pub fn client_jar_version(version_id: &str, inherits_from: &Option<String>) -> (r: String)
    ensures
        r@ == (match inherits_from {
            Some(p) => p@,
            None => version_id@,
        }),
{
    match inherits_from {
        Some(p) => p.clone(),
        None => String::from_str(version_id),
    }
}

/// The game version and mod loader of an instance running `version_id`: a
/// Fabric id names both; a Forge or NeoForge profile runs the version it
/// inherits from (the id itself when none is known); any other id is a
/// plain game version.
pub fn game_version_and_loader(version_id: &str, inherits_from: &Option<String>) -> (r: (
    String,
    Option<String>,
))
    ensures
        ({
            let id = version_id@;
            let rest = id.skip(fabric_prefix().len() as int);
            let k = find_char(rest, '-');
            if spec_starts_with(id, fabric_prefix()) && k >= 0 {
                &&& r.0@ == rest.skip(k + 1)
                &&& r.1 matches Some(l)
                &&& l@ == "fabric"@
            } else if spec_starts_with(id, "forge-"@) || spec_starts_with(id, "neoforge-"@) {
                &&& r.0@ == (match inherits_from {
                    Some(p) => p@,
                    None => id,
                })
                &&& r.1 matches Some(l)
                &&& l@ == (if spec_starts_with(id, "neoforge-"@) {
                    "neoforge"@
                } else {
                    "forge"@
                })
            } else {
                r.0@ == id && r.1 is None
            }
        }),
{
    proof {
        reveal_strlit("fabric-loader-");
        reveal_strlit("forge-");
        reveal_strlit("neoforge-");
        let id = version_id@;
        if spec_starts_with(id, fabric_prefix()) {
            assert(id.subrange(0, 14)[1] == id[1]);
            if spec_starts_with(id, "forge-"@) {
                assert(id.subrange(0, 6)[1] == id[1]);
            }
            if spec_starts_with(id, "neoforge-"@) {
                assert(id.subrange(0, 9)[0] == id[0]);
            }
        }
        if spec_starts_with(id, "forge-"@) && spec_starts_with(id, "neoforge-"@) {
            assert(id.subrange(0, 6)[0] == id[0]);
            assert(id.subrange(0, 9)[0] == id[0]);
        }
    }
    match classify_version_id(version_id, false) {
        Ok(VersionSource::Fabric { game_version, .. }) => (game_version, Some(String::from_str("fabric"))),
        Ok(VersionSource::Forge(_)) => (client_jar_version(version_id, inherits_from), Some(String::from_str("forge"))),
        Ok(VersionSource::NeoForge(_)) => {
            (client_jar_version(version_id, inherits_from), Some(String::from_str("neoforge")))
        },
        _ => (String::from_str(version_id), None),
    }
}

impl VersionManifest {
    /// The index of the first entry with this id, or -1.
    pub open spec fn spec_find(self, id: Seq<char>) -> int {
        brief_index(self.versions@, id)
    }

    /// The entry of the manifest with this id.
    pub fn find(&self, id: &str) -> (r: Option<&VersionBrief>)
        ensures
            self.spec_find(id@) < 0 ==> r is None,
            self.spec_find(id@) >= 0 ==> self.spec_find(id@) < self.versions@.len() && r == Some(
                &self.versions@[self.spec_find(id@)],
            ),
    {
        let n = self.versions.len();
        proof {
            lemma_brief_index(self.versions@, id@);
        }
        for i in 0..n
            invariant
                n == self.versions@.len(),
                forall|j: int| 0 <= j < i ==> self.versions@[j].id@ != id@,
                -1 <= brief_index(self.versions@, id@) < n,
                brief_index(self.versions@, id@) >= 0 ==> self.versions@[brief_index(
                    self.versions@,
                    id@,
                )].id@ == id@ && forall|j: int|
                    0 <= j < brief_index(self.versions@, id@) ==> self.versions@[j].id@ != id@,
                brief_index(self.versions@, id@) < 0 ==> forall|j: int|
                    0 <= j < n ==> self.versions@[j].id@ != id@,
        {
            if str_eq(self.versions[i].id.as_str(), id) {
                return Some(&self.versions[i]);
            }
        }
        None
    }
}

pub open spec fn brief_index(vs: Seq<VersionBrief>, id: Seq<char>) -> int
    decreases vs.len(),
{
    if vs.len() == 0 {
        -1
    } else if vs[0].id@ == id {
        0
    } else if brief_index(vs.drop_first(), id) < 0 {
        -1
    } else {
        brief_index(vs.drop_first(), id) + 1
    }
}

proof fn lemma_brief_index(vs: Seq<VersionBrief>, id: Seq<char>)
    ensures
        -1 <= brief_index(vs, id) < vs.len(),
        brief_index(vs, id) >= 0 ==> vs[brief_index(vs, id)].id@ == id,
        forall|j: int| 0 <= j < brief_index(vs, id) ==> vs[j].id@ != id,
        brief_index(vs, id) < 0 ==> forall|j: int| 0 <= j < vs.len() ==> vs[j].id@ != id,
    decreases vs.len(),
{
    if vs.len() > 0 && vs[0].id@ != id {
        lemma_brief_index(vs.drop_first(), id);
        assert forall|j: int| 1 <= j < vs.len() implies vs[j] == vs.drop_first()[j - 1] by {}
    }
}

/// Whether a manifest entry passes the version list's filters, given the
/// lower-case forms of its id, its type and the query: the query occurs in
/// the id or the type, and the type is a shown one.
pub open spec fn spec_version_matches(
    id_lower: Seq<char>,
    kind: Seq<char>,
    kind_lower: Seq<char>,
    query_lower: Seq<char>,
    releases: bool,
    snapshots: bool,
) -> bool {
    (spec_contains(id_lower, query_lower) || spec_contains(kind_lower, query_lower)) && ((
    releases && kind == "release"@) || (snapshots && kind == "snapshot"@))
}

pub fn version_matches(
    id_lower: &str,
    kind: &str,
    kind_lower: &str,
    query_lower: &str,
    releases: bool,
    snapshots: bool,
) -> (r: bool)
    ensures
        r == spec_version_matches(id_lower@, kind@, kind_lower@, query_lower@, releases, snapshots),
{
    let matches_search = contains(id_lower, query_lower) || contains(kind_lower, query_lower);
    let matches_type = (releases && str_eq(kind, "release")) || (snapshots && str_eq(
        kind,
        "snapshot",
    ));
    matches_search && matches_type
}

/// The indices of the manifest entries the version list shows, in order.
pub fn filter_versions(
    versions: &Vec<VersionBrief>,
    query: &str,
    releases: bool,
    snapshots: bool,
) -> (r: Vec<usize>)
    ensures
        forall|i: int, j: int| 0 <= i < j < r@.len() ==> r@[i] < r@[j],
        forall|i: int| 0 <= i < r@.len() ==> r@[i] < versions@.len(),
        forall|k: int|
            0 <= k < versions@.len() ==> (r@.contains(k as usize) <==> spec_version_matches(
                spec_to_lowercase(#[trigger] versions@[k].id@),
                versions@[k].kind@,
                spec_to_lowercase(versions@[k].kind@),
                spec_to_lowercase(query@),
                releases,
                snapshots,
            )),
{
    let q = to_lowercase(query);
    let mut out: Vec<usize> = Vec::new();
    let n = versions.len();
    for i in 0..n
        invariant
            n == versions@.len(),
            q@ == spec_to_lowercase(query@),
            forall|a: int, b: int| 0 <= a < b < out@.len() ==> out@[a] < out@[b],
            forall|a: int| 0 <= a < out@.len() ==> out@[a] < i,
            forall|k: int|
                0 <= k < i ==> (out@.contains(k as usize) <==> spec_version_matches(
                    spec_to_lowercase(#[trigger] versions@[k].id@),
                    versions@[k].kind@,
                    spec_to_lowercase(versions@[k].kind@),
                    spec_to_lowercase(query@),
                    releases,
                    snapshots,
                )),
    {
        let v = &versions[i];
        let id_lower = to_lowercase(v.id.as_str());
        let kind_lower = to_lowercase(v.kind.as_str());
        let ok = version_matches(
            id_lower.as_str(),
            v.kind.as_str(),
            kind_lower.as_str(),
            q.as_str(),
            releases,
            snapshots,
        );
        let ghost before = out@;
        if ok {
            out.push(i);
        }
        assert forall|k: int| 0 <= k < i + 1 implies (out@.contains(k as usize)
            <==> spec_version_matches(
            spec_to_lowercase(#[trigger] versions@[k].id@),
            versions@[k].kind@,
            spec_to_lowercase(versions@[k].kind@),
            spec_to_lowercase(query@),
            releases,
            snapshots,
        )) by {
            if k < i {
                if out@.contains(k as usize) {
                    let w = choose|w: int| 0 <= w < out@.len() && out@[w] == k as usize;
                    if w < before.len() {
                        assert(before[w] == k);
                    }
                }
                if before.contains(k as usize) {
                    let w = choose|w: int| 0 <= w < before.len() && before[w] == k as usize;
                    assert(out@[w] == k);
                }
            } else {
                if ok {
                    assert(out@[out@.len() - 1] == i);
                } else {
                    if out@.contains(k as usize) {
                        let w = choose|w: int| 0 <= w < out@.len() && out@[w] == k as usize;
                    }
                }
            }
        }
    }
    out
}

/// Whether a manifest entry passes the remote-list filters, given the
/// lower-case forms of its id and of the search: when a type is asked for,
/// the entry is of an asked type; when a search is given, it occurs in the id.
pub open spec fn spec_remote_matches(
    kind: Seq<char>,
    id_lower: Seq<char>,
    release: bool,
    snapshot: bool,
    search_lower: Option<Seq<char>>,
) -> bool {
    (!(release || snapshot) || (release && kind == "release"@) || (snapshot && kind
        == "snapshot"@)) && match search_lower {
        Some(q) => spec_contains(id_lower, q),
        None => true,
    }
}

pub fn remote_matches(
    kind: &str,
    id_lower: &str,
    release: bool,
    snapshot: bool,
    search_lower: &Option<String>,
) -> (r: bool)
    ensures
        r == spec_remote_matches(
            kind@,
            id_lower@,
            release,
            snapshot,
            match search_lower {
                Some(q) => Some(q@),
                None => None,
            },
        ),
{
    let type_ok = !(release || snapshot) || (release && str_eq(kind, "release")) || (snapshot
        && str_eq(kind, "snapshot"));
    let search_ok = match search_lower {
        Some(q) => contains(id_lower, q.as_str()),
        None => true,
    };
    type_ok && search_ok
}

/// The search of the remote list in lower case.
pub open spec fn search_lower_view(search: Option<String>) -> Option<Seq<char>> {
    match search {
        Some(q) => Some(spec_to_lowercase(q@)),
        None => None,
    }
}

/// The positions of the manifest entries the remote list shows, in order.
pub fn remote_listing(
    versions: &Vec<VersionBrief>,
    release: bool,
    snapshot: bool,
    search: &Option<String>,
) -> (r: Vec<usize>)
    ensures
        forall|i: int, j: int| 0 <= i < j < r@.len() ==> r@[i] < r@[j],
        forall|i: int| 0 <= i < r@.len() ==> r@[i] < versions@.len(),
        forall|k: int|
            0 <= k < versions@.len() ==> (r@.contains(k as usize) <==> spec_remote_matches(
                (#[trigger] versions@[k]).kind@,
                spec_to_lowercase(versions@[k].id@),
                release,
                snapshot,
                search_lower_view(*search),
            )),
{
    let q: Option<String> = match search {
        Some(s) => Some(to_lowercase(s.as_str())),
        None => None,
    };
    assert(match q {
        Some(l) => search_lower_view(*search) == Some(l@),
        None => search_lower_view(*search) is None,
    });
    let mut out: Vec<usize> = Vec::new();
    let n = versions.len();
    for i in 0..n
        invariant
            n == versions@.len(),
            match q {
                Some(l) => search_lower_view(*search) == Some(l@),
                None => search_lower_view(*search) is None,
            },
            forall|a: int, b: int| 0 <= a < b < out@.len() ==> out@[a] < out@[b],
            forall|a: int| 0 <= a < out@.len() ==> out@[a] < i,
            forall|k: int|
                0 <= k < i ==> (out@.contains(k as usize) <==> spec_remote_matches(
                    (#[trigger] versions@[k]).kind@,
                    spec_to_lowercase(versions@[k].id@),
                    release,
                    snapshot,
                    search_lower_view(*search),
                )),
    {
        let v = &versions[i];
        let id_lower = to_lowercase(v.id.as_str());
        let ok = remote_matches(v.kind.as_str(), id_lower.as_str(), release, snapshot, &q);
        let ghost before = out@;
        if ok {
            out.push(i);
        }
        assert forall|k: int| 0 <= k < i + 1 implies (out@.contains(k as usize)
            <==> spec_remote_matches(
            (#[trigger] versions@[k]).kind@,
            spec_to_lowercase(versions@[k].id@),
            release,
            snapshot,
            search_lower_view(*search),
        )) by {
            if k < i {
                if out@.contains(k as usize) {
                    let w = choose|w: int| 0 <= w < out@.len() && out@[w] == k as usize;
                    if w < before.len() {
                        assert(before[w] == k);
                    }
                }
                if before.contains(k as usize) {
                    let w = choose|w: int| 0 <= w < before.len() && before[w] == k as usize;
                    assert(out@[w] == k);
                }
            } else {
                if ok {
                    assert(out@[out@.len() - 1] == i);
                } else {
                    if out@.contains(k as usize) {
                        let w = choose|w: int| 0 <= w < out@.len() && out@[w] == k as usize;
                    }
                }
            }
        }
    }
    out
}

/// A local version id is listed: no search, or its lower-case form
/// contains the lower-case search.
pub open spec fn spec_local_listed(id: String, search: Option<Seq<char>>) -> bool {
    match search {
        Some(q) => spec_contains(spec_to_lowercase(id@), spec_to_lowercase(q)),
        None => true,
    }
}

/// The installed versions as the list command prints them: those the
/// search matches, in ascending order.
pub fn local_versions_listing(ids: Vec<String>, search: &Option<String>) -> (r: Vec<String>)
    ensures
        sorted_by_key(r@),
        r@.to_multiset() =~= ids@.filter(
            |id: String|
                spec_local_listed(
                    id,
                    match search {
                        Some(q) => Some(q@),
                        None => None,
                    },
                ),
        ).to_multiset(),
        keys_distinct(ids@) ==> strictly_ascending(r@),
{
    let ghost sv = match search {
        Some(q) => Some(q@),
        None => None::<Seq<char>>,
    };
    let ghost pred = |id: String| spec_local_listed(id, sv);
    let q_lower = match search {
        Some(q) => Some(to_lowercase(q.as_str())),
        None => None,
    };
    let mut kept: Vec<String> = Vec::new();
    let n = ids.len();
    for i in 0..n
        invariant
            n == ids@.len(),
            sv == (match search {
                Some(q) => Some(q@),
                None => None::<Seq<char>>,
            }),
            pred == (|id: String| spec_local_listed(id, sv)),
            match search {
                Some(q) => q_lower matches Some(l) && l@ == spec_to_lowercase(q@),
                None => q_lower is None,
            },
            kept@ == ids@.take(i as int).filter(pred),
    {
        assert(ids@.take(i + 1).drop_last() =~= ids@.take(i as int));
        assert(ids@.take(i + 1).last() == ids@[i as int]);
        reveal_with_fuel(Seq::filter, 1);
        let keep = match &q_lower {
            Some(l) => {
                let id_lower = to_lowercase(ids[i].as_str());
                contains(id_lower.as_str(), l.as_str())
            },
            None => true,
        };
        if keep {
            kept.push(ids[i].clone());
        }
    }
    assert(ids@.take(n as int) =~= ids@);
    proof {
        let spec_pred = |id: String|
            spec_local_listed(
                id,
                match search {
                    Some(q) => Some(q@),
                    None => None,
                },
            );
        assert(pred =~= spec_pred);
    }
    let ghost kept_view = kept@;
    let r = sort_by_key(kept);
    proof {
        if keys_distinct(ids@) {
            lemma_filter_keeps_keys_distinct(ids@, pred);
            lemma_permutation_keeps_keys_distinct(r@, kept_view);
            lemma_sorted_distinct_is_strict(r@);
        }
    }
    r
}

/// How many of `total` matches the remote list prints: at most `limit`,
/// 40 when no limit is given.
pub fn display_count(total: usize, limit: Option<usize>) -> (r: usize)
    ensures
        r == (if total < (match limit {
            Some(l) => l,
            None => 40,
        }) {
            total
        } else {
            match limit {
                Some(l) => l,
                None => 40,
            }
        }),
{
    let l = match limit {
        Some(l) => l,
        None => 40,
    };
    if total < l {
        total
    } else {
        l
    }
}

/// The mod loaders offered when creating an instance: "Vanilla", up to five
/// Fabric loaders, then the Forge and NeoForge versions (among the first
/// hundred of each index) that target the game version.
pub open spec fn spec_fabric_label(version: Seq<char>, stable: bool) -> Seq<char> {
    if stable {
        "Fabric "@ + version + " (stable)"@
    } else {
        "Fabric "@ + version
    }
}

pub open spec fn spec_forge_label(version: Seq<char>, recommended: bool, neoforge: bool) -> Seq<
    char,
> {
    (if neoforge {
        "NeoForge "@
    } else {
        "Forge "@
    }) + version + if recommended {
        " (recommended)"@
    } else {
        ""@
    }
}

pub fn fabric_label(version: &str, stable: bool) -> (r: String)
    ensures
        r@ == spec_fabric_label(version@, stable),
{
    let s = concat("Fabric ", version);
    if stable {
        concat(s.as_str(), " (stable)")
    } else {
        s
    }
}

pub fn forge_label(version: &str, recommended: bool, neoforge: bool) -> (r: String)
    ensures
        r@ == spec_forge_label(version@, recommended, neoforge),
{
    let s = if neoforge {
        concat("NeoForge ", version)
    } else {
        concat("Forge ", version)
    };
    if recommended {
        concat(s.as_str(), " (recommended)")
    } else {
        concat(s.as_str(), "")
    }
}

/// The entry targets the game version: it requires "net.minecraft" equal to it.
pub open spec fn spec_targets(e: LoaderIndexEntry, game: Seq<char>) -> bool {
    exists|k: int|
        0 <= k < e.requires@.len() && (#[trigger] e.requires@[k]).uid@ == "net.minecraft"@
            && e.requires@[k].equals@ == game
}

impl LoaderIndexEntry {
    pub fn targets(&self, game_version: &str) -> (r: bool)
        ensures
            r == spec_targets(*self, game_version@),
    {
        let n = self.requires.len();
        for k in 0..n
            invariant
                n == self.requires@.len(),
                forall|j: int|
                    0 <= j < k ==> !((#[trigger] self.requires@[j]).uid@ == "net.minecraft"@
                        && self.requires@[j].equals@ == game_version@),
        {
            let r = &self.requires[k];
            if str_eq(r.uid.as_str(), "net.minecraft") && str_eq(r.equals.as_str(), game_version) {
                return true;
            }
        }
        false
    }
}

/// The labels of the Forge or NeoForge versions, among the first `cap`
/// entries, that target the game version.
pub open spec fn spec_forge_labels(
    entries: Seq<LoaderIndexEntry>,
    game: Seq<char>,
    neoforge: bool,
) -> Seq<Seq<char>>
    decreases entries.len(),
{
    if entries.len() == 0 {
        seq![]
    } else {
        let rest = spec_forge_labels(entries.drop_last(), game, neoforge);
        let e = entries.last();
        if spec_targets(e, game) {
            rest.push(spec_forge_label(e.version@, e.recommended, neoforge))
        } else {
            rest
        }
    }
}

pub open spec fn spec_fabric_labels(entries: Seq<FabricLoaderEntry>) -> Seq<Seq<char>> {
    entries.map_values(|e: FabricLoaderEntry| spec_fabric_label(e.version@, e.stable))
}

pub open spec fn spec_take(n: int, cap: int) -> int {
    if n < cap {
        n
    } else {
        cap
    }
}

/// The loader choices for a game version.
pub open spec fn spec_loader_options(
    fabric: Seq<FabricLoaderEntry>,
    forge: Seq<LoaderIndexEntry>,
    neoforge: Seq<LoaderIndexEntry>,
    game: Seq<char>,
) -> Seq<Seq<char>> {
    seq!["Vanilla"@] + spec_fabric_labels(fabric.take(spec_take(fabric.len() as int, 5)))
        + spec_forge_labels(forge.take(spec_take(forge.len() as int, 100)), game, false)
        + spec_forge_labels(neoforge.take(spec_take(neoforge.len() as int, 100)), game, true)
}

fn push_forge_labels(
    out: &mut Vec<String>,
    entries: &Vec<LoaderIndexEntry>,
    game_version: &str,
    neoforge: bool,
)
    ensures
        strs_view(final(out)@) == strs_view(old(out)@) + spec_forge_labels(
            entries@.take(spec_take(entries@.len() as int, 100)),
            game_version@,
            neoforge,
        ),
{
    let n = if entries.len() < 100 {
        entries.len()
    } else {
        100
    };
    let ghost head = strs_view(out@);
    for i in 0..n
        invariant
            n <= entries@.len(),
            n == spec_take(entries@.len() as int, 100),
            strs_view(out@) == head + spec_forge_labels(entries@.take(i as int), game_version@, neoforge),
    {
        let e = &entries[i];
        assert(entries@.take(i + 1).drop_last() =~= entries@.take(i as int));
        assert(entries@.take(i + 1).last() == entries@[i as int]);
        if e.targets(game_version) {
            let ghost before = out@;
            out.push(forge_label(e.version.as_str(), e.recommended, neoforge));
            assert(strs_view(out@) =~= strs_view(before).push(out@.last()@));
        }
    }
}

/// The choices of mod loader for a new instance of `game_version`.
pub fn loader_options(
    fabric: &Vec<FabricLoaderEntry>,
    forge: &Vec<LoaderIndexEntry>,
    neoforge: &Vec<LoaderIndexEntry>,
    game_version: &str,
) -> (r: Vec<String>)
    ensures
        strs_view(r@) == spec_loader_options(fabric@, forge@, neoforge@, game_version@),
{
    let mut out: Vec<String> = Vec::new();
    out.push(String::from_str("Vanilla"));
    let nf = if fabric.len() < 5 {
        fabric.len()
    } else {
        5
    };
    for i in 0..nf
        invariant
            nf <= fabric@.len(),
            nf == spec_take(fabric@.len() as int, 5),
            strs_view(out@) == seq!["Vanilla"@] + spec_fabric_labels(fabric@.take(i as int)),
    {
        let ghost before = out@;
        out.push(fabric_label(fabric[i].version.as_str(), fabric[i].stable));
        assert(strs_view(out@) =~= strs_view(before).push(out@.last()@));
        assert(spec_fabric_labels(fabric@.take(i + 1)) =~= spec_fabric_labels(fabric@.take(i as int)).push(
            spec_fabric_label(fabric@[i as int].version@, fabric@[i as int].stable),
        ));
    }
    push_forge_labels(&mut out, forge, game_version, false);
    push_forge_labels(&mut out, neoforge, game_version, true);
    out
}

/// The version id a chosen loader label stands for: the game version for
/// "Vanilla"; otherwise the label's second word is the loader version.
pub open spec fn spec_choice_version_id(choice: Seq<char>, game: Seq<char>) -> Seq<char> {
    if choice == "Vanilla"@ {
        game
    } else {
        let words = split_ws(choice);
        let ver = if words.len() > 1 {
            words[1]
        } else {
            ""@
        };
        if spec_starts_with(choice, "Fabric"@) {
            spec_fabric_version_id(ver, game)
        } else {
            spec_forge_version_id(ver, spec_starts_with(choice, "NeoForge"@))
        }
    }
}

pub fn choice_version_id(choice: &str, game_version: &str) -> (r: String)
    ensures
        r@ == spec_choice_version_id(choice@, game_version@),
{
    if str_eq(choice, "Vanilla") {
        return String::from_str(game_version);
    }
    let words = split_whitespace(choice);
    let ver = if words.len() > 1 {
        words[1].clone()
    } else {
        String::new()
    };
    proof {
        reveal_strlit("");
        if words@.len() > 1 {
            assert(strs_view(words@)[1] == words@[1]@);
        }
    }
    if starts_with(choice, "Fabric") {
        fabric_version_id(ver.as_str(), game_version)
    } else {
        forge_version_id(ver.as_str(), starts_with(choice, "NeoForge"))
    }
}

/// The mod loaders an instance can be set up with.
#[derive(PartialEq, Eq, Structural, Clone, Copy, Debug)]
pub enum LoaderKind {
    Fabric,
    Forge,
    NeoForge,
}

/// The loader a name asks for, whatever its case; other names are refused.
pub fn parse_loader(name: &str) -> (r: Result<LoaderKind, String>)
    ensures
        spec_to_lowercase(name@) == "fabric"@ ==> r == Ok::<LoaderKind, String>(LoaderKind::Fabric),
        spec_to_lowercase(name@) == "forge"@ ==> r == Ok::<LoaderKind, String>(LoaderKind::Forge),
        spec_to_lowercase(name@) == "neoforge"@ ==> r == Ok::<LoaderKind, String>(
            LoaderKind::NeoForge,
        ),
        !(spec_to_lowercase(name@) == "fabric"@ || spec_to_lowercase(name@) == "forge"@
            || spec_to_lowercase(name@) == "neoforge"@) ==> (r matches Err(e) && e@
            == "Unsupported mod loader '"@ + name@ + "'. Supported: fabric, forge, neoforge"@),
{
    proof {
        reveal_strlit("fabric");
        reveal_strlit("forge");
        reveal_strlit("neoforge");
        assert("fabric"@.len() != "forge"@.len());
        assert("fabric"@.len() != "neoforge"@.len());
        assert("forge"@.len() != "neoforge"@.len());
    }
    let lower = to_lowercase(name);
    if str_eq(lower.as_str(), "fabric") {
        Ok(LoaderKind::Fabric)
    } else if str_eq(lower.as_str(), "forge") {
        Ok(LoaderKind::Forge)
    } else if str_eq(lower.as_str(), "neoforge") {
        Ok(LoaderKind::NeoForge)
    } else {
        let s = concat("Unsupported mod loader '", name);
        Err(concat(s.as_str(), "'. Supported: fabric, forge, neoforge"))
    }
}

/// The Fabric loader of a new instance: the one asked for, if the game
/// version has it; else the first stable one; else the first.
pub fn select_fabric_loader(
    loaders: &Vec<FabricLoaderEntry>,
    requested: Option<String>,
    game_version: &str,
) -> (r: Result<String, String>)
    ensures
        match requested {
            Some(v) => if exists|k: int|
                0 <= k < loaders@.len() && (#[trigger] loaders@[k]).version@ == v@ {
                r matches Ok(s) && s@ == v@
            } else {
                r matches Err(e) && e@ == "Fabric loader version '"@ + v@ + "' not found for Minecraft "@
                    + game_version@ + "."@
            },
            None => if loaders@.len() == 0 {
                r matches Err(e) && e@ == "No Fabric loaders found for Minecraft "@ + game_version@
                    + "."@
            } else {
                r matches Ok(s) && exists|k: int|
                    0 <= k < loaders@.len() && s@ == (#[trigger] loaders@[k]).version@ && (
                    loaders@[k].stable || (k == 0 && forall|j: int|
                        0 <= j < loaders@.len() ==> !(#[trigger] loaders@[j]).stable)) && forall|
                        j: int,
                    | 0 <= j < k ==> !(#[trigger] loaders@[j]).stable
            },
        },
{
    let n = loaders.len();
    match requested {
        Some(v) => {
            for i in 0..n
                invariant
                    n == loaders@.len(),
                    requested == Some(v),
                    forall|j: int| 0 <= j < i ==> (#[trigger] loaders@[j]).version@ != v@,
            {
                if loaders[i].version == v {
                    assert(loaders@[i as int].version@ == v@);
                    return Ok(v);
                }
            }
            let s = concat("Fabric loader version '", v.as_str());
            let s = concat(s.as_str(), "' not found for Minecraft ");
            let s = concat(s.as_str(), game_version);
            Err(concat(s.as_str(), "."))
        },
        None => {
            for i in 0..n
                invariant
                    n == loaders@.len(),
                    requested is None,
                    forall|j: int| 0 <= j < i ==> !(#[trigger] loaders@[j]).stable,
            {
                if loaders[i].stable {
                    assert(loaders@[i as int].stable);
                    return Ok(loaders[i].version.clone());
                }
            }
            if n > 0 {
                Ok(loaders[0].version.clone())
            } else {
                let s = concat("No Fabric loaders found for Minecraft ", game_version);
                Err(concat(s.as_str(), "."))
            }
        },
    }
}

/// "Forge" or "NeoForge".
pub open spec fn spec_loader_name(neoforge: bool) -> Seq<char> {
    if neoforge {
        "NeoForge"@
    } else {
        "Forge"@
    }
}

/// The Forge or NeoForge version of a new instance: among the index entries
/// that target the game version, the one asked for, else the first
/// recommended one, else the first.
pub fn select_forge_version(
    index: &Vec<LoaderIndexEntry>,
    requested: Option<String>,
    game_version: &str,
    neoforge: bool,
) -> (r: Result<String, String>)
    ensures
        !(exists|k: int| 0 <= k < index@.len() && spec_targets(#[trigger] index@[k], game_version@))
            ==> (r matches Err(e) && e@ == "No "@ + spec_loader_name(neoforge)
            + " versions found matching Minecraft version "@ + game_version@ + "."@),
        (exists|k: int| 0 <= k < index@.len() && spec_targets(#[trigger] index@[k], game_version@))
            ==> match requested {
            Some(v) => if exists|k: int|
                0 <= k < index@.len() && spec_targets(#[trigger] index@[k], game_version@)
                    && index@[k].version@ == v@ {
                r matches Ok(s) && s@ == v@
            } else {
                r matches Err(e) && e@ == spec_loader_name(neoforge) + " version '"@ + v@
                    + "' not found/supported for Minecraft "@ + game_version@ + "."@
            },
            None => r matches Ok(s) && exists|k: int|
                0 <= k < index@.len() && spec_targets(#[trigger] index@[k], game_version@)
                    && s@ == index@[k].version@ && (index@[k].recommended || ((forall|j: int|
                    0 <= j < k ==> !spec_targets(#[trigger] index@[j], game_version@)) && (forall|
                    j: int,
                | 0 <= j < index@.len() && spec_targets(#[trigger] index@[j], game_version@)
                    ==> !index@[j].recommended))) && forall|j: int|
                    0 <= j < k && spec_targets(#[trigger] index@[j], game_version@)
                        ==> !index@[j].recommended,
        },
{
    let n = index.len();
    let mut first: Option<usize> = None;
    let mut recommended: Option<usize> = None;
    let mut found_requested = false;
    for i in 0..n
        invariant
            n == index@.len(),
            first matches Some(f) ==> f < i && spec_targets(index@[f as int], game_version@)
                && forall|j: int| 0 <= j < f ==> !spec_targets(#[trigger] index@[j], game_version@),
            first is None ==> forall|j: int|
                0 <= j < i ==> !spec_targets(#[trigger] index@[j], game_version@),
            recommended matches Some(f) ==> f < i && spec_targets(index@[f as int], game_version@)
                && index@[f as int].recommended && forall|j: int|
                0 <= j < f && spec_targets(#[trigger] index@[j], game_version@)
                    ==> !index@[j].recommended,
            recommended is None ==> forall|j: int|
                0 <= j < i && spec_targets(#[trigger] index@[j], game_version@)
                    ==> !index@[j].recommended,
            found_requested == (requested matches Some(v) && exists|k: int|
                0 <= k < i && spec_targets(#[trigger] index@[k], game_version@)
                    && index@[k].version@ == v@),
    {
        let e = &index[i];
        if e.targets(game_version) {
            if first.is_none() {
                first = Some(i);
            }
            if e.recommended && recommended.is_none() {
                recommended = Some(i);
            }
            if let Some(v) = &requested {
                if e.version == *v {
                    found_requested = true;
                }
            }
        }
    }
    let name = if neoforge {
        "NeoForge"
    } else {
        "Forge"
    };
    match first {
        None => {
            let s = concat("No ", name);
            let s = concat(s.as_str(), " versions found matching Minecraft version ");
            let s = concat(s.as_str(), game_version);
            Err(concat(s.as_str(), "."))
        },
        Some(f) => match requested {
            Some(v) => {
                if found_requested {
                    Ok(v)
                } else {
                    let s = concat(name, " version '");
                    let s = concat(s.as_str(), v.as_str());
                    let s = concat(s.as_str(), "' not found/supported for Minecraft ");
                    let s = concat(s.as_str(), game_version);
                    Err(concat(s.as_str(), "."))
                }
            },
            None => match recommended {
                Some(k) => Ok(index[k].version.clone()),
                None => Ok(index[f].version.clone()),
            },
        },
    }
}

/// A Fabric version id splits back into its loader and game versions, as
/// long as the loader version has no '-'.
pub proof fn lemma_fabric_id_roundtrip(loader: Seq<char>, game: Seq<char>)
    requires
        forall|i: int| 0 <= i < loader.len() ==> loader[i] != '-',
    ensures
        ({
            let id = spec_fabric_version_id(loader, game);
            let rest = id.skip(fabric_prefix().len() as int);
            &&& spec_starts_with(id, fabric_prefix())
            &&& find_char(rest, '-') == loader.len()
            &&& rest.take(find_char(rest, '-')) == loader
            &&& rest.skip(find_char(rest, '-') + 1) == game
        }),
{
    reveal_strlit("fabric-loader-");
    reveal_strlit("-");
    let id = spec_fabric_version_id(loader, game);
    let p = fabric_prefix();
    assert(id.subrange(0, p.len() as int) =~= p);
    let rest = id.skip(p.len() as int);
    assert(rest =~= loader + "-"@ + game);
    assert forall|j: int| 0 <= j < loader.len() implies rest[j] != '-' by {
        assert(rest[j] == loader[j]);
    }
    assert(rest[loader.len() as int] == '-');
    crate::text::lemma_find_char_is(rest, '-', loader.len() as int);
    assert(rest.take(loader.len() as int) =~= loader);
    assert(rest.skip(loader.len() as int + 1) =~= game);
}

/// The words of "<word> <v><tail>": the word, then `v`, then the words of
/// the tail when it starts with a space.
proof fn lemma_label_words(word: Seq<char>, v: Seq<char>, tail: Seq<char>)
    requires
        word.len() > 0,
        v.len() > 0,
        forall|i: int| 0 <= i < word.len() ==> !spec_is_whitespace(#[trigger] word[i]),
        forall|i: int| 0 <= i < v.len() ==> !spec_is_whitespace(#[trigger] v[i]),
        tail.len() == 0 || spec_is_whitespace(tail[0]),
    ensures
        split_ws(word + seq![' '] + v + tail).len() >= 2,
        split_ws(word + seq![' '] + v + tail)[0] == word,
        split_ws(word + seq![' '] + v + tail)[1] == v,
{
    let label = word + seq![' '] + v + tail;
    assert(label =~= word + (seq![' '] + (v + tail)));
    lemma_split_ws_word(word, seq![' '] + (v + tail), seq![]);
    assert(Seq::<char>::empty() + word =~= word);
    assert(spec_is_whitespace(' '));
    lemma_split_ws_space(' ', v + tail, word);
    lemma_split_ws_word(v, tail, seq![]);
    assert(Seq::<char>::empty() + v =~= v);
    let rest = split_ws_from(tail, v);
    if tail.len() == 0 {
        assert(rest =~= seq![v]);
    } else {
        lemma_split_ws_space(tail[0], tail.skip(1), v);
        assert(tail =~= seq![tail[0]] + tail.skip(1));
    }
    assert(rest.len() >= 1 && rest[0] == v);
    assert(split_ws(label) =~= seq![word] + rest);
}

/// Choosing a Fabric loader from the offered labels sets the instance up
/// with that loader's version id, as long as the loader version is one
/// word.
pub proof fn lemma_fabric_choice_roundtrip(v: Seq<char>, stable: bool, game: Seq<char>)
    requires
        v.len() > 0,
        forall|i: int| 0 <= i < v.len() ==> !spec_is_whitespace(#[trigger] v[i]),
    ensures
        spec_choice_version_id(spec_fabric_label(v, stable), game) == spec_fabric_version_id(v, game),
{
    reveal_strlit("Fabric ");
    reveal_strlit(" (stable)");
    reveal_strlit("Vanilla");
    reveal_strlit("Fabric");
    let word = "Fabric"@;
    assert forall|i: int| 0 <= i < word.len() implies !spec_is_whitespace(#[trigger] word[i]) by {}
    let tail = if stable { " (stable)"@ } else { Seq::<char>::empty() };
    let label = spec_fabric_label(v, stable);
    assert(label =~= word + seq![' '] + v + tail);
    lemma_label_words(word, v, tail);
    assert(label[0] != 'V');
    assert(label.subrange(0, 6) =~= word);
}

/// Choosing a Forge or NeoForge version from the offered labels sets the
/// instance up with that version's id, as long as the version is one word.
pub proof fn lemma_forge_choice_roundtrip(v: Seq<char>, recommended: bool, neoforge: bool, game: Seq<char>)
    requires
        v.len() > 0,
        forall|i: int| 0 <= i < v.len() ==> !spec_is_whitespace(#[trigger] v[i]),
    ensures
        spec_choice_version_id(spec_forge_label(v, recommended, neoforge), game)
            == spec_forge_version_id(v, neoforge),
{
    reveal_strlit("Forge ");
    reveal_strlit("NeoForge ");
    reveal_strlit(" (recommended)");
    reveal_strlit("");
    reveal_strlit("Vanilla");
    reveal_strlit("Fabric");
    reveal_strlit("NeoForge");
    reveal_strlit("Forge");
    let word = if neoforge { "NeoForge"@ } else { "Forge"@ };
    assert forall|i: int| 0 <= i < word.len() implies !spec_is_whitespace(#[trigger] word[i]) by {}
    let tail = if recommended { " (recommended)"@ } else { Seq::<char>::empty() };
    let label = spec_forge_label(v, recommended, neoforge);
    assert(label =~= word + seq![' '] + v + tail);
    lemma_label_words(word, v, tail);
    assert(label[0] != 'V');
    assert(label[1] != 'a');
    if neoforge {
        assert(label.subrange(0, 8) =~= "NeoForge"@);
    } else {
        if spec_starts_with(label, "NeoForge"@) {
            assert(label.subrange(0, 8)[0] == label[0]);
            assert(label[0] == 'F');
        }
    }
    if spec_starts_with(label, "Fabric"@) {
        assert(label.subrange(0, 6)[1] == label[1]);
        assert(label[1] == 'o' || label[1] == 'e');
    }
}

/// An index entry targets a game version exactly when one of its
/// requirements names "net.minecraft" at that very version string: an entry
/// for "1.20.1" does not target "1.20".
pub proof fn lemma_targets_exact_version(e: LoaderIndexEntry, game: Seq<char>)
    ensures
        spec_targets(e, game) <==> exists|k: int|
            0 <= k < e.requires@.len() && (#[trigger] e.requires@[k]).uid@ == "net.minecraft"@
                && e.requires@[k].equals@ =~= game,
        (forall|k: int| 0 <= k < e.requires@.len() ==> (#[trigger] e.requires@[k]).equals@.len() != game.len())
            ==> !spec_targets(e, game),
{
}

/// Without a release or snapshot flag the type of an entry never excludes
/// it: the entry is listed exactly when the search (if any) occurs in its
/// lower-case id.  With only one flag, only entries of that type are listed.
pub proof fn lemma_remote_type_filter(
    kind: Seq<char>,
    id_lower: Seq<char>,
    release: bool,
    snapshot: bool,
    search_lower: Option<Seq<char>>,
)
    ensures
        !release && !snapshot ==> (spec_remote_matches(kind, id_lower, release, snapshot, search_lower)
            <==> match search_lower {
            Some(q) => exists|i: int| crate::text::occurs_at(id_lower, q, i),
            None => true,
        }),
        release && !snapshot && spec_remote_matches(kind, id_lower, release, snapshot, search_lower)
            ==> kind == "release"@,
        !release && snapshot && spec_remote_matches(kind, id_lower, release, snapshot, search_lower)
            ==> kind == "snapshot"@,
{
}

} // verus!
