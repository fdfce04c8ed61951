//! The files a game version needs on disk, where each one goes and where it
//! is fetched from: the allowed library artifacts, the client jar, the asset
//! index, and the asset objects it lists.
use vstd::prelude::*;
use crate::api::{Artifact, AssetIndex, AssetObject, Library, Rule, VersionDetails};
use crate::instance::{hex_lower, sha1_digest, spec_hex_lower, spec_sha1_digest};
use crate::launcher::{Launcher, join_all, library_entries};
use crate::platform::{Platform, join_path, spec_join_path};
use crate::text::{chars_of, concat, str_eq, string_from_char_range};

verus! {

/// One file to fetch: its URL, its place on disk, and the SHA-1 and size it
/// must have.
pub struct DownloadTask {
    pub url: String,
    pub path: String,
    pub sha1: String,
    pub size: u64,
}

/// A task as plain values: (url, path, sha1, size).
pub open spec fn task_view(t: DownloadTask) -> (Seq<char>, Seq<char>, Seq<char>, u64) {
    (t.url@, t.path@, t.sha1@, t.size)
}

pub open spec fn tasks_view(ts: Seq<DownloadTask>) -> Seq<(Seq<char>, Seq<char>, Seq<char>, u64)> {
    ts.map_values(|t: DownloadTask| task_view(t))
}

/// The task that fetches an artifact to `path`.
pub open spec fn artifact_task(a: Artifact, path: Seq<char>) -> (Seq<char>, Seq<char>, Seq<char>, u64) {
    (a.url@, path, a.sha1@, a.size)
}

/// The library artifacts to fetch: the artifact of each library that has one
/// and whose rules (if any) allow the platform, under `lib_dir` at the
/// artifact's path — the files the class path names.
pub open spec fn library_tasks(libs: Seq<Library>, lib_dir: Seq<char>, p: Platform) -> Seq<
    (Seq<char>, Seq<char>, Seq<char>, u64),
>
    decreases libs.len(),
{
    if libs.len() == 0 {
        seq![]
    } else {
        let rest = library_tasks(libs.drop_last(), lib_dir, p);
        let lib = libs.last();
        let allowed = match lib.rules {
            Some(rules) => Rule::spec_evaluate(rules@, p),
            None => true,
        };
        if allowed && lib.downloads.artifact is Some {
            let art = lib.downloads.artifact->0;
            rest.push(artifact_task(art, spec_join_path(lib_dir, art.path@, p.spec_dir_separator())))
        } else {
            rest
        }
    }
}

/// The files of a version: its libraries, then the client jar at
/// `versions/<id>/<id>.jar`, then the asset index at
/// `assets/indexes/<index id>.json`.
pub open spec fn spec_version_tasks(game_dir: Seq<char>, details: VersionDetails, p: Platform) -> Seq<
    (Seq<char>, Seq<char>, Seq<char>, u64),
> {
    let sep = p.spec_dir_separator();
    let idx = details.asset_index;
    library_tasks(details.libraries@, spec_join_path(game_dir, "libraries"@, sep), p).push(
        artifact_task(
            details.downloads.client,
            join_all(game_dir, seq!["versions"@, details.id@, details.id@ + ".jar"@], sep),
        ),
    ).push(
        (
            idx.url@,
            join_all(game_dir, seq!["assets"@, "indexes"@, idx.id@ + ".json"@], sep),
            idx.sha1@,
            idx.size,
        ),
    )
}

/// The files to fetch for a version.
pub fn version_downloads(game_dir: &str, details: &VersionDetails, platform: &Platform) -> (r: Vec<
    DownloadTask,
>)
    ensures
        tasks_view(r@) == spec_version_tasks(game_dir@, *details, *platform),
{
    let ghost sep = platform.spec_dir_separator();
    let libraries_dir = join_path(game_dir, "libraries", platform);
    let mut out: Vec<DownloadTask> = Vec::new();
    let n = details.libraries.len();
    for i in 0..n
        invariant
            n == details.libraries@.len(),
            sep == platform.spec_dir_separator(),
            libraries_dir@ == spec_join_path(game_dir@, "libraries"@, sep),
            tasks_view(out@) == library_tasks(details.libraries@.take(i as int), libraries_dir@, *platform),
    {
        let lib = &details.libraries[i];
        assert(details.libraries@.take(i + 1).drop_last() =~= details.libraries@.take(i as int));
        assert(details.libraries@.take(i + 1).last() == details.libraries@[i as int]);
        let allowed = match &lib.rules {
            Some(rules) => Rule::evaluate(rules.as_slice(), platform),
            None => true,
        };
        if allowed {
            if let Some(art) = &lib.downloads.artifact {
                let ghost before = out@;
                out.push(
                    DownloadTask {
                        url: art.url.clone(),
                        path: join_path(libraries_dir.as_str(), art.path.as_str(), platform),
                        sha1: art.sha1.clone(),
                        size: art.size,
                    },
                );
                assert(tasks_view(out@) =~= tasks_view(before).push(task_view(out@.last())));
            }
        }
    }
    assert(details.libraries@.take(n as int) =~= details.libraries@);

    let versions_dir = join_path(game_dir, "versions", platform);
    let version_dir = join_path(versions_dir.as_str(), details.id.as_str(), platform);
    let jar_name = concat(details.id.as_str(), ".jar");
    let client = &details.downloads.client;
    let ghost before = out@;
    out.push(
        DownloadTask {
            url: client.url.clone(),
            path: join_path(version_dir.as_str(), jar_name.as_str(), platform),
            sha1: client.sha1.clone(),
            size: client.size,
        },
    );
    proof {
        let g = game_dir@;
        let parts = seq!["versions"@, details.id@, details.id@ + ".jar"@];
        assert(parts.drop_last().drop_last() =~= seq!["versions"@]);
        assert(seq!["versions"@].drop_last() =~= Seq::<Seq<char>>::empty());
        assert(join_all(g, Seq::<Seq<char>>::empty(), sep) == g);
        assert(join_all(g, seq!["versions"@], sep) == versions_dir@);
        assert(join_all(g, parts.drop_last(), sep) == version_dir@);
        assert(tasks_view(out@) =~= tasks_view(before).push(task_view(out@.last())));
    }

    let assets_dir = join_path(game_dir, "assets", platform);
    let indexes_dir = join_path(assets_dir.as_str(), "indexes", platform);
    let index_name = concat(details.asset_index.id.as_str(), ".json");
    let idx = &details.asset_index;
    let ghost before2 = out@;
    out.push(
        DownloadTask {
            url: idx.url.clone(),
            path: join_path(indexes_dir.as_str(), index_name.as_str(), platform),
            sha1: idx.sha1.clone(),
            size: idx.size,
        },
    );
    proof {
        let g = game_dir@;
        let parts = seq!["assets"@, "indexes"@, idx.id@ + ".json"@];
        assert(parts.drop_last().drop_last() =~= seq!["assets"@]);
        assert(seq!["assets"@].drop_last() =~= Seq::<Seq<char>>::empty());
        assert(join_all(g, Seq::<Seq<char>>::empty(), sep) == g);
        assert(join_all(g, seq!["assets"@], sep) == assets_dir@);
        assert(join_all(g, parts.drop_last(), sep) == indexes_dir@);
        assert(tasks_view(out@) =~= tasks_view(before2).push(task_view(out@.last())));
    }
    out
}

/// Fetched or stored content is the file a task names: no digest is
/// expected, or the lower-case hexadecimal SHA-1 of the bytes is the
/// expected one.
pub fn content_matches(bytes: &[u8], sha1: &str) -> (r: bool)
    ensures
        r == (sha1@.len() == 0 || spec_hex_lower(spec_sha1_digest(bytes@)) == sha1@),
{
    if sha1.is_empty() {
        return true;
    }
    let digest = sha1_digest(bytes);
    let hex = hex_lower(digest.as_slice());
    str_eq(hex.as_str(), sha1)
}

/// The first two characters of an object's hash name its folder (the whole
/// hash when it is shorter).
pub open spec fn hash_prefix(hash: Seq<char>) -> Seq<char> {
    if hash.len() >= 2 {
        hash.take(2)
    } else {
        hash
    }
}

/// An asset object is fetched from the resources server by its hash and
/// stored at `assets/objects/<first two hash characters>/<hash>`.
pub open spec fn spec_asset_task(game_dir: Seq<char>, obj: AssetObject, p: Platform) -> (
    Seq<char>,
    Seq<char>,
    Seq<char>,
    u64,
) {
    let pre = hash_prefix(obj.hash@);
    (
        "https://resources.download.minecraft.net/"@ + pre + "/"@ + obj.hash@,
        join_all(game_dir, seq!["assets"@, "objects"@, pre, obj.hash@], p.spec_dir_separator()),
        obj.hash@,
        obj.size,
    )
}

/// The task of one asset object.
pub fn asset_download(game_dir: &str, obj: &AssetObject, platform: &Platform) -> (r: DownloadTask)
    ensures
        task_view(r) == spec_asset_task(game_dir@, *obj, *platform),
{
    let cs = chars_of(obj.hash.as_str());
    let pre = if cs.len() >= 2 {
        string_from_char_range(cs.as_slice(), 0, 2)
    } else {
        obj.hash.clone()
    };
    proof {
        if cs@.len() >= 2 {
            assert(cs@.subrange(0, 2) =~= obj.hash@.take(2));
        }
    }
    let u = concat("https://resources.download.minecraft.net/", pre.as_str());
    let u = concat(u.as_str(), "/");
    let url = concat(u.as_str(), obj.hash.as_str());
    let assets_dir = join_path(game_dir, "assets", platform);
    let objects_dir = join_path(assets_dir.as_str(), "objects", platform);
    let pre_dir = join_path(objects_dir.as_str(), pre.as_str(), platform);
    let path = join_path(pre_dir.as_str(), obj.hash.as_str(), platform);
    proof {
        let g = game_dir@;
        let sep = platform.spec_dir_separator();
        let parts = seq!["assets"@, "objects"@, pre@, obj.hash@];
        assert(parts.drop_last().drop_last().drop_last() =~= seq!["assets"@]);
        assert(seq!["assets"@].drop_last() =~= Seq::<Seq<char>>::empty());
        assert(join_all(g, Seq::<Seq<char>>::empty(), sep) == g);
        assert(join_all(g, seq!["assets"@], sep) == assets_dir@);
        assert(join_all(g, parts.drop_last().drop_last(), sep) == objects_dir@);
        assert(join_all(g, parts.drop_last(), sep) == pre_dir@);
    }
    DownloadTask { url, path, sha1: obj.hash.clone(), size: obj.size }
}

/// The tasks of all objects of an asset index, in its order.
pub fn asset_downloads(game_dir: &str, index: &AssetIndex, platform: &Platform) -> (r: Vec<
    DownloadTask,
>)
    ensures
        tasks_view(r@) == index.objects@.map_values(
            |e: (String, AssetObject)| spec_asset_task(game_dir@, e.1, *platform),
        ),
{
    let ghost f = |e: (String, AssetObject)| spec_asset_task(game_dir@, e.1, *platform);
    let mut out: Vec<DownloadTask> = Vec::new();
    let n = index.objects.len();
    for i in 0..n
        invariant
            n == index.objects@.len(),
            f == (|e: (String, AssetObject)| spec_asset_task(game_dir@, e.1, *platform)),
            tasks_view(out@) == index.objects@.take(i as int).map_values(f),
    {
        let ghost before = out@;
        out.push(asset_download(game_dir, &index.objects[i].1, platform));
        assert(index.objects@.take(i + 1).map_values(f) =~= index.objects@.take(i as int).map_values(
            f,
        ).push(f(index.objects@[i as int])));
        assert(tasks_view(out@) =~= tasks_view(before).push(task_view(out@.last())));
    }
    assert(index.objects@.take(n as int) =~= index.objects@);
    out
}

/// The library files a download fetches are the library entries of the
/// class path, in the same order.
pub proof fn lemma_library_tasks_are_classpath_entries(
    libs: Seq<Library>,
    lib_dir: Seq<char>,
    p: Platform,
)
    ensures
        library_tasks(libs, lib_dir, p).map_values(
            |t: (Seq<char>, Seq<char>, Seq<char>, u64)| t.1,
        ) == library_entries(libs, lib_dir, p),
    decreases libs.len(),
{
    let f = |t: (Seq<char>, Seq<char>, Seq<char>, u64)| t.1;
    if libs.len() > 0 {
        lemma_library_tasks_are_classpath_entries(libs.drop_last(), lib_dir, p);
        let rest = library_tasks(libs.drop_last(), lib_dir, p);
        let lib = libs.last();
        let allowed = match lib.rules {
            Some(rules) => Rule::spec_evaluate(rules@, p),
            None => true,
        };
        if allowed && lib.downloads.artifact is Some {
            let art = lib.downloads.artifact->0;
            let t = artifact_task(art, spec_join_path(lib_dir, art.path@, p.spec_dir_separator()));
            assert(rest.push(t).map_values(f) =~= rest.map_values(f).push(f(t)));
        }
    } else {
        assert(library_tasks(libs, lib_dir, p).map_values(f) =~= seq![]);
    }
}

/// Every file the launch class path names is among the files a download of
/// the version fetches: the paths of all tasks but the asset index are the
/// class-path entries, in order.
pub proof fn lemma_classpath_files_are_downloaded(
    launcher: Launcher,
    details: VersionDetails,
    p: Platform,
)
    ensures
        spec_version_tasks(launcher.spec_config().game_dir@, details, p).drop_last().map_values(
            |t: (Seq<char>, Seq<char>, Seq<char>, u64)| t.1,
        ) == launcher.spec_classpath_entries(details, p),
{
    let f = |t: (Seq<char>, Seq<char>, Seq<char>, u64)| t.1;
    let g = launcher.spec_config().game_dir@;
    let sep = p.spec_dir_separator();
    let lib_dir = spec_join_path(g, "libraries"@, sep);
    lemma_library_tasks_are_classpath_entries(details.libraries@, lib_dir, p);
    let libs = library_tasks(details.libraries@, lib_dir, p);
    let client = artifact_task(
        details.downloads.client,
        join_all(g, seq!["versions"@, details.id@, details.id@ + ".jar"@], sep),
    );
    let all = spec_version_tasks(g, details, p);
    assert(all.drop_last() =~= libs.push(client));
    assert(libs.push(client).map_values(f) =~= libs.map_values(f).push(f(client)));
}

} // verus!
