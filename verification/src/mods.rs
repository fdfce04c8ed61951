//! Choosing mods and modpacks from Modrinth search results: compatible
//! versions, the file to download, required dependencies, updates.
use vstd::prelude::*;
use crate::text::{
    concat, ends_with, spec_ends_with, spec_starts_with, spec_to_lowercase, spec_trim,
    starts_with, str_eq, to_lowercase, trim, split_char, split_on, strs_view,
};

verus! {

/// A file of a Modrinth version.
pub struct ModrinthFile {
    pub url: String,
    pub filename: String,
    pub primary: bool,
}

/// A dependency of a Modrinth version.
pub struct ModrinthDependency {
    pub project_id: Option<String>,
    pub dependency_type: String,
}

/// A published version of a Modrinth project.
pub struct ModrinthVersion {
    pub name: String,
    pub version_number: String,
    pub game_versions: Vec<String>,
    pub loaders: Vec<String>,
    pub files: Vec<ModrinthFile>,
    pub dependencies: Vec<ModrinthDependency>,
}

/// A Modrinth search result.
pub struct ModrinthSearchHit {
    pub project_id: String,
    pub title: String,
    pub description: String,
    pub downloads: u64,
}

/// The version supports the game version, and (when a loader is given) a
/// loader whose lower-case name is the loader's.
pub open spec fn spec_compatible(v: ModrinthVersion, game: Seq<char>, loader: Option<Seq<char>>) -> bool {
    (exists|k: int| 0 <= k < v.game_versions@.len() && (#[trigger] v.game_versions@[k])@ == game)
        && match loader {
        Some(l) => exists|k: int|
            0 <= k < v.loaders@.len() && spec_to_lowercase((#[trigger] v.loaders@[k])@)
                == spec_to_lowercase(l),
        None => true,
    }
}

impl ModrinthVersion {
    /// Whether this version runs on the game version with the loader.
    pub fn is_compatible(&self, game_version: &str, loader: Option<&str>) -> (r: bool)
        ensures
            r == spec_compatible(
                *self,
                game_version@,
                match loader {
                    Some(l) => Some(l@),
                    None => None,
                },
            ),
    {
        let mut game_ok = false;
        let n = self.game_versions.len();
        for k in 0..n
            invariant
                n == self.game_versions@.len(),
                game_ok == exists|j: int|
                    0 <= j < k && (#[trigger] self.game_versions@[j])@ == game_version@,
        {
            if str_eq(self.game_versions[k].as_str(), game_version) {
                game_ok = true;
            }
        }
        if !game_ok {
            return false;
        }
        match loader {
            None => true,
            Some(l) => {
                let want = to_lowercase(l);
                let m = self.loaders.len();
                for k in 0..m
                    invariant
                        m == self.loaders@.len(),
                        loader == Some(l),
                        exists|j: int|
                            0 <= j < self.game_versions@.len() && (#[trigger] self.game_versions@[j])@
                                == game_version@,
                        want@ == spec_to_lowercase(l@),
                        forall|j: int|
                            0 <= j < k ==> spec_to_lowercase((#[trigger] self.loaders@[j])@)
                                != want@,
                {
                    let have = to_lowercase(self.loaders[k].as_str());
                    if have == want {
                        assert(spec_to_lowercase(self.loaders@[k as int]@) == spec_to_lowercase(l@));
                        return true;
                    }
                }
                false
            },
        }
    }
}

/// The first version of the list that is compatible, if any.
pub fn first_compatible(
    versions: &Vec<ModrinthVersion>,
    game_version: &str,
    loader: Option<&str>,
) -> (r: Option<usize>)
    ensures
        match r {
            Some(i) => i < versions@.len() && spec_compatible(
                versions@[i as int],
                game_version@,
                match loader {
                    Some(l) => Some(l@),
                    None => None,
                },
            ) && forall|j: int|
                0 <= j < i ==> !spec_compatible(
                    #[trigger] versions@[j],
                    game_version@,
                    match loader {
                        Some(l) => Some(l@),
                        None => None,
                    },
                ),
            None => forall|j: int|
                0 <= j < versions@.len() ==> !spec_compatible(
                    #[trigger] versions@[j],
                    game_version@,
                    match loader {
                        Some(l) => Some(l@),
                        None => None,
                    },
                ),
        },
{
    let n = versions.len();
    for i in 0..n
        invariant
            n == versions@.len(),
            forall|j: int|
                0 <= j < i ==> !spec_compatible(
                    #[trigger] versions@[j],
                    game_version@,
                    match loader {
                        Some(l) => Some(l@),
                        None => None,
                    },
                ),
    {
        if versions[i].is_compatible(game_version, loader) {
            return Some(i);
        }
    }
    None
}

/// The file is primary or has the wanted extension.
pub open spec fn file_fits(f: ModrinthFile, extension: Seq<char>) -> bool {
    f.primary || spec_ends_with(f.filename@, extension)
}

/// The file to download from a version: the first that is primary or has
/// the wanted extension; for mods, failing that, the first file.
pub fn pick_file(files: &Vec<ModrinthFile>, extension: &str, fall_back_to_first: bool) -> (r:
    Option<usize>)
    ensures
        (exists|j: int| 0 <= j < files@.len() && file_fits(#[trigger] files@[j], extension@))
            ==> (r matches Some(i) && i < files@.len() && file_fits(files@[i as int], extension@)
            && (forall|j: int| 0 <= j < i ==> !file_fits(#[trigger] files@[j], extension@))),
        !(exists|j: int| 0 <= j < files@.len() && file_fits(#[trigger] files@[j], extension@))
            ==> r == (if fall_back_to_first && files@.len() > 0 {
            Some(0usize)
        } else {
            None
        }),
{
    let n = files.len();
    for i in 0..n
        invariant
            n == files@.len(),
            forall|j: int| 0 <= j < i ==> !file_fits(#[trigger] files@[j], extension@),
    {
        if files[i].primary || ends_with(files[i].filename.as_str(), extension) {
            assert(file_fits(files@[i as int], extension@));
            return Some(i);
        }
    }
    if fall_back_to_first && n > 0 {
        Some(0)
    } else {
        None
    }
}

/// The required dependencies not installed yet: (project id) of each
/// dependency of type "required" that names a project outside `installed`.
pub open spec fn spec_needed_dep(d: ModrinthDependency, installed: Seq<Seq<char>>) -> bool {
    d.dependency_type@ == "required"@ && d.project_id is Some && !installed.contains(
        d.project_id->0@,
    )
}

pub fn required_dependencies(v: &ModrinthVersion, installed: &Vec<String>) -> (r: Vec<String>)
    ensures
        crate::text::strs_view(r@) == v.dependencies@.filter(
            |d: ModrinthDependency| spec_needed_dep(d, crate::text::strs_view(installed@)),
        ).map_values(|d: ModrinthDependency| d.project_id->0@),
{
    let ghost pred = |d: ModrinthDependency| spec_needed_dep(d, crate::text::strs_view(installed@));
    let ghost f = |d: ModrinthDependency| d.project_id->0@;
    let mut out: Vec<String> = Vec::new();
    let n = v.dependencies.len();
    for i in 0..n
        invariant
            n == v.dependencies@.len(),
            pred == (|d: ModrinthDependency| spec_needed_dep(d, crate::text::strs_view(installed@))),
            f == (|d: ModrinthDependency| d.project_id->0@),
            crate::text::strs_view(out@) == v.dependencies@.take(i as int).filter(pred).map_values(f),
    {
        let d = &v.dependencies[i];
        assert(v.dependencies@.take(i + 1).drop_last() =~= v.dependencies@.take(i as int));
        assert(v.dependencies@.take(i + 1).last() == *d);
        reveal_with_fuel(Seq::filter, 1);
        if str_eq(d.dependency_type.as_str(), "required") {
            if let Some(pid) = &d.project_id {
                let mut seen = false;
                let m = installed.len();
                for j in 0..m
                    invariant
                        m == installed@.len(),
                        seen == exists|k: int| 0 <= k < j && (#[trigger] installed@[k])@ == pid@,
                {
                    if installed[j] == *pid {
                        seen = true;
                    }
                }
                proof {
                    let iv = crate::text::strs_view(installed@);
                    if seen {
                        let k = choose|k: int| 0 <= k < m && (#[trigger] installed@[k])@ == pid@;
                        assert(iv[k] == pid@);
                    } else {
                        assert forall|k: int| 0 <= k < iv.len() implies iv[k] != pid@ by {
                            assert(iv[k] == installed@[k]@);
                        }
                    }
                }
                if !seen {
                    let ghost before = out@;
                    out.push(pid.clone());
                    assert(crate::text::strs_view(out@) =~= crate::text::strs_view(before).push(pid@));
                }
            }
        }
        let ghost fl = v.dependencies@.take(i + 1).filter(pred);
        assert(fl.map_values(f) =~= (if pred(*d) {
            v.dependencies@.take(i as int).filter(pred).push(*d)
        } else {
            v.dependencies@.take(i as int).filter(pred)
        }).map_values(f));
    }
    assert(v.dependencies@.take(n as int) =~= v.dependencies@);
    out
}

/// The loader argument as a plain value.
pub open spec fn loader_view(loader: Option<&str>) -> Option<Seq<char>> {
    match loader {
        Some(l) => Some(l@),
        None => None,
    }
}

/// `i` is the first compatible version of the list.
pub open spec fn is_first_compatible(
    versions: Seq<ModrinthVersion>,
    i: int,
    game: Seq<char>,
    loader: Option<Seq<char>>,
) -> bool {
    &&& 0 <= i < versions.len()
    &&& spec_compatible(versions[i], game, loader)
    &&& forall|j: int| 0 <= j < i ==> !spec_compatible(#[trigger] versions[j], game, loader)
}

/// `f` is the file a mod install downloads: the first primary or ".jar"
/// file, else the first file.
pub open spec fn is_picked_mod_file(files: Seq<ModrinthFile>, f: int) -> bool {
    &&& 0 <= f < files.len()
    &&& (exists|j: int| 0 <= j < files.len() && file_fits(#[trigger] files[j], ".jar"@)) ==> (
    file_fits(files[f], ".jar"@) && forall|j: int|
        0 <= j < f ==> !file_fits(#[trigger] files[j], ".jar"@))
    &&& !(exists|j: int| 0 <= j < files.len() && file_fits(#[trigger] files[j], ".jar"@)) ==> f
        == 0
}

/// The version and the file that installing a mod downloads: the first
/// compatible version and its file; refused when no version is compatible
/// or that version has no file.
pub fn resolve_mod_download(
    versions: &Vec<ModrinthVersion>,
    project: &str,
    game_version: &str,
    loader: Option<&str>,
) -> (r: Result<(usize, usize), String>)
    ensures
        (forall|j: int|
            0 <= j < versions@.len() ==> !spec_compatible(
                #[trigger] versions@[j],
                game_version@,
                loader_view(loader),
            )) ==> (r matches Err(e) && e@ == "No compatible version of mod '"@ + project@
            + "' found for Minecraft "@ + game_version@ + " and loader '"@ + (match loader {
            Some(l) => l@,
            None => "vanilla"@,
        }) + "'."@),
        forall|i: int|
            is_first_compatible(versions@, i, game_version@, loader_view(loader)) ==> (if versions@[i].files@.len()
                == 0 {
                r matches Err(e) && e@ == "No file found in version "@ + versions@[i].name@
                    + " for mod "@ + project@
            } else {
                r matches Ok((k, f)) && k == i && is_picked_mod_file(versions@[i].files@, f as int)
            }),
{
    match first_compatible(versions, game_version, loader) {
        None => {
            let l = match loader {
                Some(l) => l,
                None => "vanilla",
            };
            let s = concat("No compatible version of mod '", project);
            let s = concat(s.as_str(), "' found for Minecraft ");
            let s = concat(s.as_str(), game_version);
            let s = concat(s.as_str(), " and loader '");
            let s = concat(s.as_str(), l);
            Err(concat(s.as_str(), "'."))
        },
        Some(i) => {
            proof {
                assert forall|k: int|
                    is_first_compatible(versions@, k, game_version@, loader_view(loader)) implies k
                    == i by {
                    if k < i {
                        assert(!spec_compatible(versions@[k], game_version@, loader_view(loader)));
                    } else if k > i {
                        assert(!spec_compatible(versions@[i as int], game_version@, loader_view(loader)));
                    }
                }
            }
            let v = &versions[i];
            match pick_file(&v.files, ".jar", true) {
                Some(f) => Ok((i, f)),
                None => {
                    let s = concat("No file found in version ", v.name.as_str());
                    let s = concat(s.as_str(), " for mod ");
                    Err(concat(s.as_str(), project))
                },
            }
        },
    }
}

/// The update of an installed mod: the first compatible version, when its
/// version number differs from the installed one.
pub fn update_target(
    versions: &Vec<ModrinthVersion>,
    installed_version: &str,
    game_version: &str,
    loader: Option<&str>,
) -> (r: Option<usize>)
    ensures
        match r {
            Some(i) => is_first_compatible(versions@, i as int, game_version@, loader_view(loader))
                && versions@[i as int].version_number@ != installed_version@,
            None => forall|i: int|
                is_first_compatible(versions@, i, game_version@, loader_view(loader))
                    ==> versions@[i].version_number@ == installed_version@,
        },
{
    match first_compatible(versions, game_version, loader) {
        None => None,
        Some(i) => {
            proof {
                assert forall|k: int|
                    is_first_compatible(versions@, k, game_version@, loader_view(loader)) implies k
                    == i by {
                    if k < i {
                        assert(!spec_compatible(versions@[k], game_version@, loader_view(loader)));
                    } else if k > i {
                        assert(!spec_compatible(versions@[i as int], game_version@, loader_view(loader)));
                    }
                }
            }
            if str_eq(versions[i].version_number.as_str(), installed_version) {
                None
            } else {
                Some(i)
            }
        },
    }
}

/// The project and version ids in a Modrinth download URL
/// (`https://cdn.modrinth.com/data/<project>/versions/<version>/<file>`):
/// its fifth and seventh '/'-separated fields.
pub fn modrinth_file_ids(url: &str) -> (r: Option<(String, String)>)
    ensures
        split_on(url@, '/').len() > 6 ==> (r matches Some((p, v)) && p@ == split_on(url@, '/')[4]
            && v@ == split_on(url@, '/')[6]),
        split_on(url@, '/').len() <= 6 ==> r is None,
{
    let parts = split_char(url, '/');
    if parts.len() > 6 {
        assert(strs_view(parts@)[4] == parts@[4]@);
        assert(strs_view(parts@)[6] == parts@[6]@);
        Some((parts[4].clone(), parts[6].clone()))
    } else {
        None
    }
}

/// A search result's description as the result tables print it: cut to
/// its first 37 bytes and "..." when longer than 40 bytes.
pub fn search_description(desc: &str) -> (r: String)
    requires
        vstd::utf8::encode_utf8(desc@).len() > 40 ==> vstd::utf8::is_char_boundary(vstd::utf8::encode_utf8(desc@), 37),
    ensures
        vstd::utf8::encode_utf8(desc@).len() <= 40 ==> r@ == desc@,
        vstd::utf8::encode_utf8(desc@).len() > 40 ==> r@ == vstd::utf8::decode_utf8(
            vstd::utf8::encode_utf8(desc@).subrange(0, 37),
        ) + "..."@,
{
    if desc.as_bytes().len() > 40 {
        let (head, _tail) = desc.split_at(37);
        proof {
            broadcast use vstd::utf8::encode_utf8_decode_utf8;
        }
        concat(head, "...")
    } else {
        String::from_str(desc)
    }
}

/// The answer to "Apply all updates? [Y/n]": yes when empty or starting
/// with 'y' (ignoring surrounding whitespace and case).
pub fn confirms_yes(input: &str) -> (r: bool)
    ensures
        r == (spec_trim(input@).len() == 0 || spec_starts_with(
            spec_to_lowercase(spec_trim(input@)),
            "y"@,
        )),
{
    let t = trim(input);
    if t.as_str().is_empty() {
        return true;
    }
    let l = to_lowercase(t.as_str());
    starts_with(l.as_str(), "y")
}

/// The work list of a mod installation with its dependencies: the project
/// names already installed (ids and slugs), the projects still to visit (the
/// next one last), and how many projects were handed out.  Dependencies of a
/// project are visited, in their order and each with its own dependencies,
/// before the projects that were waiting.
pub struct ModInstallPlan {
    pub installed: Vec<String>,
    pub pending: Vec<String>,
    pub handed_out: usize,
    pub with_dependencies: bool,
}

/// The next project to install from `pending` (taken from its end), skipping
/// those already installed, and what is left to visit.
pub open spec fn spec_next_project(installed: Seq<Seq<char>>, pending: Seq<Seq<char>>) -> (
    Option<Seq<char>>,
    Seq<Seq<char>>,
)
    decreases pending.len(),
{
    if pending.len() == 0 {
        (None, pending)
    } else if installed.contains(pending.last()) {
        spec_next_project(installed, pending.drop_last())
    } else {
        (Some(pending.last()), pending.drop_last())
    }
}

fn contains_str(list: &Vec<String>, s: &str) -> (r: bool)
    ensures
        r == strs_view(list@).contains(s@),
{
    let n = list.len();
    for i in 0..n
        invariant
            n == list@.len(),
            forall|k: int| 0 <= k < i ==> strs_view(list@)[k] != s@,
    {
        if str_eq(list[i].as_str(), s) {
            assert(strs_view(list@)[i as int] == s@);
            return true;
        }
    }
    false
}

fn push_string(dst: &mut Vec<String>, x: String)
    ensures
        strs_view(final(dst)@) == strs_view(old(dst)@).push(x@),
{
    let ghost before = strs_view(dst@);
    dst.push(x);
    assert(strs_view(dst@) =~= before.push(x@));
}

fn append_strings(dst: &mut Vec<String>, src: &Vec<String>)
    ensures
        strs_view(final(dst)@) == strs_view(old(dst)@) + strs_view(src@),
{
    let ghost before = strs_view(dst@);
    let n = src.len();
    for i in 0..n
        invariant
            n == src@.len(),
            strs_view(dst@) == before + strs_view(src@).take(i as int),
    {
        assert(strs_view(src@).take(i + 1) =~= strs_view(src@).take(i as int).push(src@[i as int]@));
        push_string(dst, src[i].clone());
        assert(strs_view(dst@) =~= before + strs_view(src@).take(i + 1));
    }
    assert(strs_view(src@).take(n as int) =~= strs_view(src@));
}

fn append_reversed(dst: &mut Vec<String>, src: &Vec<String>)
    ensures
        strs_view(final(dst)@) == strs_view(old(dst)@) + strs_view(src@).reverse(),
{
    let ghost before = strs_view(dst@);
    let ghost d = strs_view(src@);
    let m = src.len();
    let mut j = m;
    while j > 0
        invariant
            m == src@.len(),
            d == strs_view(src@),
            j <= m,
            strs_view(dst@) == before + d.subrange(j as int, m as int).reverse(),
        decreases j,
    {
        j = j - 1;
        assert(d.subrange(j as int, m as int).reverse() =~= d.subrange(j + 1, m as int).reverse().push(d[j as int]));
        push_string(dst, src[j].clone());
        assert(strs_view(dst@) =~= before + d.subrange(j as int, m as int).reverse());
    }
    assert(d.subrange(0, m as int) =~= d);
}

impl ModInstallPlan {
    /// The plan for installing `project`, with `installed` already present.
    pub fn new(project: String, installed: Vec<String>, with_dependencies: bool) -> (r: ModInstallPlan)
        ensures
            strs_view(r.installed@) == strs_view(installed@),
            strs_view(r.pending@) == seq![project@],
            r.handed_out == 0,
            r.with_dependencies == with_dependencies,
    {
        let mut pending = Vec::new();
        pending.push(project);
        proof {
            assert(strs_view(pending@) =~= seq![pending@[0]@]);
        }
        ModInstallPlan { installed, pending, handed_out: 0, with_dependencies }
    }

    /// The next project to install, or `None` when the work is done.
    pub fn next_project(&mut self) -> (r: Option<String>)
        requires
            old(self).handed_out < usize::MAX,
        ensures
            ({
                let want = spec_next_project(strs_view(old(self).installed@), strs_view(old(self).pending@));
                &&& strs_view(final(self).pending@) == want.1
                &&& match r {
                    Some(p) => want.0 == Some(p@),
                    None => want.0 is None,
                }
            }),
            strs_view(final(self).installed@) == strs_view(old(self).installed@),
            final(self).with_dependencies == old(self).with_dependencies,
            final(self).handed_out == old(self).handed_out + (if r is Some { 1int } else { 0int }),
    {
        loop
            invariant
                self.installed == old(self).installed,
                self.with_dependencies == old(self).with_dependencies,
                self.handed_out == old(self).handed_out,
                old(self).handed_out < usize::MAX,
                spec_next_project(strs_view(self.installed@), strs_view(self.pending@))
                    == spec_next_project(strs_view(old(self).installed@), strs_view(old(self).pending@)),
            decreases self.pending@.len(),
        {
            let ghost before = self.pending@;
            match self.pending.pop() {
                None => {
                    assert(strs_view(before).len() == 0);
                    return None;
                },
                Some(p) => {
                    assert(strs_view(self.pending@) =~= strs_view(before).drop_last());
                    assert(strs_view(before).last() == p@);
                    if !contains_str(&self.installed, p.as_str()) {
                        self.handed_out = self.handed_out + 1;
                        return Some(p);
                    }
                },
            }
        }
    }

    /// `project` was installed; `aliases` are its other names (id and slug)
    /// and `dependencies` its required ones, which are visited next unless
    /// dependencies are left out.
    pub fn record_installed(&mut self, project: String, aliases: Vec<String>, dependencies: Vec<String>)
        ensures
            strs_view(final(self).installed@) == strs_view(old(self).installed@).push(project@) + strs_view(aliases@),
            strs_view(final(self).pending@) == if old(self).with_dependencies {
                strs_view(old(self).pending@) + strs_view(dependencies@).reverse()
            } else {
                strs_view(old(self).pending@)
            },
            final(self).handed_out == old(self).handed_out,
            final(self).with_dependencies == old(self).with_dependencies,
    {
        push_string(&mut self.installed, project);
        append_strings(&mut self.installed, &aliases);
        if self.with_dependencies {
            append_reversed(&mut self.pending, &dependencies);
        }
    }

    /// Installing the last handed-out project failed with `error`: the
    /// installation as a whole fails when that project was the one asked
    /// for; a dependency's failure is only reported.
    pub fn failure_outcome(&self, error: String) -> (r: Option<String>)
        ensures
            self.handed_out == 1 ==> r == Some(error),
            self.handed_out != 1 ==> r is None,
    {
        if self.handed_out == 1 {
            Some(error)
        } else {
            None
        }
    }
}

/// A project that is already installed is never handed out again.
pub proof fn lemma_installed_never_handed_out(installed: Seq<Seq<char>>, pending: Seq<Seq<char>>)
    ensures
        spec_next_project(installed, pending).0 matches Some(p) ==> !installed.contains(p),
        spec_next_project(installed, pending).1.len() <= pending.len(),
    decreases pending.len(),
{
    if pending.len() > 0 && installed.contains(pending.last()) {
        lemma_installed_never_handed_out(installed, pending.drop_last());
    }
}

/// The next project is the last pending one that is not installed yet: the
/// plan stops only when every pending project is installed, and what is left
/// to visit are the projects before the one handed out.
pub proof fn lemma_next_project_skips_only_installed(installed: Seq<Seq<char>>, pending: Seq<Seq<char>>)
    ensures
        (spec_next_project(installed, pending).0 is None) <==> (forall|i: int|
            0 <= i < pending.len() ==> installed.contains(#[trigger] pending[i])),
        spec_next_project(installed, pending).0 matches Some(p) ==> exists|j: int|
            0 <= j < pending.len() && pending[j] == p && !installed.contains(p)
                && spec_next_project(installed, pending).1 == pending.take(j)
                && (forall|i: int| j < i < pending.len() ==> installed.contains(#[trigger] pending[i])),
    decreases pending.len(),
{
    if pending.len() > 0 {
        let d = pending.drop_last();
        lemma_next_project_skips_only_installed(installed, d);
        let last = pending.len() - 1;
        assert(pending[last] == pending.last());
        if installed.contains(pending.last()) {
            assert forall|i: int| 0 <= i < d.len() implies d[i] == pending[i] by {}
            if spec_next_project(installed, pending).0 is Some {
                let p = spec_next_project(installed, pending).0->0;
                let j = choose|j: int|
                    0 <= j < d.len() && d[j] == p && !installed.contains(p)
                        && spec_next_project(installed, d).1 == d.take(j)
                        && (forall|i: int| j < i < d.len() ==> installed.contains(#[trigger] d[i]));
                assert(d.take(j) =~= pending.take(j));
                assert forall|i: int| j < i < pending.len() implies installed.contains(#[trigger] pending[i]) by {
                    if i < d.len() {
                        assert(d[i] == pending[i]);
                    }
                }
            }
            if forall|i: int| 0 <= i < d.len() ==> installed.contains(#[trigger] d[i]) {
                assert forall|i: int| 0 <= i < pending.len() implies installed.contains(#[trigger] pending[i]) by {
                    if i < d.len() {
                        assert(d[i] == pending[i]);
                    }
                }
            }
        } else {
            assert(d =~= pending.take(last));
        }
    }
}

} // verus!
