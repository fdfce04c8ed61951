//! Decisions of the terminal interface: tab order, list selection, the game
//! log viewer, and the file names the asset and mod managers produce.
use vstd::prelude::*;
use crate::text::{
    concat, contains, ends_with, replace, replace_all, spec_contains, spec_ends_with,
    spec_to_lowercase, str_eq, to_lowercase, chars_of, string_from_char_range,
};

verus! {

/// The tabs of the main screen.
#[derive(PartialEq, Eq, Structural, Clone, Copy, Debug)]
pub enum Tab {
    Dashboard,
    Instances,
    Accounts,
    Settings,
}

impl Tab {
    pub open spec fn spec_next(self) -> Tab {
        match self {
            Tab::Dashboard => Tab::Instances,
            Tab::Instances => Tab::Accounts,
            Tab::Accounts => Tab::Settings,
            Tab::Settings => Tab::Dashboard,
        }
    }

    /// The tab that Tab switches to.
    pub fn next(self) -> (r: Tab)
        ensures
            r == self.spec_next(),
    {
        match self {
            Tab::Dashboard => Tab::Instances,
            Tab::Instances => Tab::Accounts,
            Tab::Accounts => Tab::Settings,
            Tab::Settings => Tab::Dashboard,
        }
    }
}

/// Pressing Tab four times comes back to the same tab.
pub proof fn lemma_tab_cycle(t: Tab)
    ensures
        t.spec_next().spec_next().spec_next().spec_next() == t,
{
}

/// Up in a list: one entry up, unless at the top; no selection counts as
/// the top.
pub open spec fn spec_select_up(sel: Option<usize>) -> Option<usize> {
    let s = match sel {
        Some(s) => s,
        None => 0,
    };
    if s > 0 {
        Some((s - 1) as usize)
    } else {
        sel
    }
}

pub fn select_up(sel: Option<usize>) -> (r: Option<usize>)
    ensures
        r == spec_select_up(sel),
{
    let s = match sel {
        Some(s) => s,
        None => 0,
    };
    if s > 0 {
        Some(s - 1)
    } else {
        sel
    }
}

/// Down in a list of `len` entries: one entry down, unless at the bottom;
/// no selection counts as the top.
pub open spec fn spec_select_down(sel: Option<usize>, len: usize) -> Option<usize> {
    let s = match sel {
        Some(s) => s,
        None => 0,
    };
    if s + 1 < len {
        Some((s + 1) as usize)
    } else {
        sel
    }
}

pub fn select_down(sel: Option<usize>, len: usize) -> (r: Option<usize>)
    ensures
        r == spec_select_down(sel, len),
{
    let s = match sel {
        Some(s) => s,
        None => 0,
    };
    if s < len && s + 1 < len {
        Some(s + 1)
    } else {
        sel
    }
}

/// Moving down and then up returns to the entry one started from.
pub proof fn lemma_down_then_up(s: usize, len: usize)
    requires
        s + 1 < len,
    ensures
        spec_select_up(spec_select_down(Some(s), len)) == Some(s),
{
}

/// Up and down keep a selection inside the list.
pub proof fn lemma_selection_stays_in_list(sel: Option<usize>, len: usize)
    requires
        sel matches Some(s) ==> s < len,
    ensures
        spec_select_up(sel) matches Some(s) ==> s < len,
        spec_select_down(sel, len) matches Some(s) ==> s < len,
{
}

/// The asset category above (wrapping from the first to the fourth).
pub fn category_up(c: usize) -> (r: usize)
    ensures
        r == (if c > 0 {
            c - 1
        } else {
            3
        }),
{
    if c > 0 {
        c - 1
    } else {
        3
    }
}

/// The asset category below (wrapping from the fourth to the first).
pub fn category_down(c: usize) -> (r: usize)
    ensures
        r == (if c < 3 {
            c + 1
        } else {
            0
        }),
{
    if c < 3 {
        c + 1
    } else {
        0
    }
}

/// The selection after a list was rebuilt with `len` entries: none for an
/// empty list, otherwise the old one (the top if there was none) moved onto
/// the last entry if it is past it.
pub open spec fn spec_clamp_selection(sel: Option<usize>, len: usize) -> Option<usize> {
    if len == 0 {
        None
    } else {
        let s = match sel {
            Some(s) => s,
            None => 0,
        };
        Some(if s < len - 1 { s } else { (len - 1) as usize })
    }
}

pub fn clamp_selection(sel: Option<usize>, len: usize) -> (r: Option<usize>)
    ensures
        r == spec_clamp_selection(sel, len),
        r matches Some(s) ==> s < len,
{
    if len == 0 {
        None
    } else {
        let s = match sel {
            Some(s) => s,
            None => 0,
        };
        Some(if s < len - 1 { s } else { len - 1 })
    }
}

/// The instance highlighted when the instance list is (re)loaded: the
/// active instance if it is listed, else the first instance; an empty list
/// keeps the current selection.
pub fn initial_instance_selection(
    ids: &Vec<String>,
    active: &Option<String>,
    current: Option<usize>,
) -> (r: Option<usize>)
    ensures
        ids@.len() == 0 && !(active matches Some(a) && exists|k: int|
            0 <= k < ids@.len() && (#[trigger] ids@[k])@ == a@) ==> r == current,
        (active matches Some(a) && exists|k: int| 0 <= k < ids@.len() && (#[trigger] ids@[k])@ == a@)
            ==> (r matches Some(k) && k < ids@.len() && ids@[k as int]@ == active->0@ && forall|
            j: int,
        | 0 <= j < k ==> (#[trigger] ids@[j])@ != active->0@),
        ids@.len() > 0 && !(active matches Some(a) && exists|k: int|
            0 <= k < ids@.len() && (#[trigger] ids@[k])@ == a@) ==> r == Some(0usize),
{
    if let Some(a) = active {
        let n = ids.len();
        for i in 0..n
            invariant
                n == ids@.len(),
                *active == Some(*a),
                forall|j: int| 0 <= j < i ==> (#[trigger] ids@[j])@ != a@,
        {
            if ids[i] == *a {
                return Some(i);
            }
        }
    }
    if ids.len() > 0 {
        Some(0)
    } else {
        current
    }
}

/// How a game log line is coloured.
#[derive(PartialEq, Eq, Structural, Clone, Copy, Debug)]
pub enum LogSeverity {
    Error,
    Warning,
    Info,
    Plain,
}

pub open spec fn spec_log_severity(line: Seq<char>) -> LogSeverity {
    if spec_contains(line, "[ERROR]"@) || spec_contains(line, "[stderr]"@) || spec_contains(
        line,
        "Error"@,
    ) || spec_contains(line, "Exception"@) {
        LogSeverity::Error
    } else if spec_contains(line, "[WARN]"@) || spec_contains(line, "Warning"@) {
        LogSeverity::Warning
    } else if spec_contains(line, "[INFO]"@) {
        LogSeverity::Info
    } else {
        LogSeverity::Plain
    }
}

/// The colour class of a game log line.
pub fn log_severity(line: &str) -> (r: LogSeverity)
    ensures
        r == spec_log_severity(line@),
{
    if contains(line, "[ERROR]") || contains(line, "[stderr]") || contains(line, "Error")
        || contains(line, "Exception") {
        LogSeverity::Error
    } else if contains(line, "[WARN]") || contains(line, "Warning") {
        LogSeverity::Warning
    } else if contains(line, "[INFO]") {
        LogSeverity::Info
    } else {
        LogSeverity::Plain
    }
}

/// Keys of the game log viewer.
#[derive(PartialEq, Eq, Structural, Clone, Copy, Debug)]
pub enum LogKey {
    Up,
    Down,
    PageUp,
    PageDown,
    End,
}

/// The game session screen: the log lines so far, where the view is, and
/// how the game ended (once it has).
pub struct LogViewer {
    pub logs: Vec<String>,
    pub scroll_offset: usize,
    pub auto_scroll: bool,
    pub status: Option<Result<(), String>>,
}

impl LogViewer {
    /// A session that has just started: no lines, following the tail.
    pub fn new() -> (r: LogViewer)
        ensures
            r.logs@.len() == 0,
            r.scroll_offset == 0,
            r.auto_scroll,
            r.status is None,
    {
        LogViewer { logs: Vec::new(), scroll_offset: 0, auto_scroll: true, status: None }
    }

    /// A new log line; when following the tail the view moves with it.
    pub fn push_line(&mut self, line: String)
        ensures
            final(self).logs@ == old(self).logs@.push(line),
            final(self).auto_scroll == old(self).auto_scroll,
            final(self).status == old(self).status,
            final(self).scroll_offset == (if old(self).auto_scroll {
                final(self).logs@.len() as usize
            } else {
                old(self).scroll_offset
            }),
    {
        self.logs.push(line);
        if self.auto_scroll {
            self.scroll_offset = self.logs.len();
        }
    }

    /// A scrolling key: Up/Down/PageUp/PageDown leave the tail and move by
    /// one or fifteen lines within the log; End follows the tail again.
    pub fn on_key(&mut self, key: LogKey)
        ensures
            final(self).logs == old(self).logs,
            final(self).status == old(self).status,
            final(self).auto_scroll == (key == LogKey::End),
            final(self).scroll_offset == (match key {
                LogKey::Up => if old(self).scroll_offset > 0 {
                    (old(self).scroll_offset - 1) as usize
                } else {
                    old(self).scroll_offset
                },
                LogKey::Down => if old(self).scroll_offset + 1 < old(self).logs@.len() {
                    (old(self).scroll_offset + 1) as usize
                } else {
                    old(self).scroll_offset
                },
                LogKey::PageUp => if old(self).scroll_offset > 15 {
                    (old(self).scroll_offset - 15) as usize
                } else {
                    0
                },
                LogKey::PageDown => if old(self).scroll_offset + 15 < old(self).logs@.len() {
                    (old(self).scroll_offset + 15) as usize
                } else if old(self).logs@.len() > 0 {
                    (old(self).logs@.len() - 1) as usize
                } else {
                    old(self).scroll_offset
                },
                LogKey::End => if old(self).logs@.len() > 0 {
                    (old(self).logs@.len() - 1) as usize
                } else {
                    old(self).scroll_offset
                },
            }),
    {
        let len = self.logs.len();
        match key {
            LogKey::Up => {
                self.auto_scroll = false;
                if self.scroll_offset > 0 {
                    self.scroll_offset = self.scroll_offset - 1;
                }
            },
            LogKey::Down => {
                self.auto_scroll = false;
                if self.scroll_offset < len && self.scroll_offset + 1 < len {
                    self.scroll_offset = self.scroll_offset + 1;
                }
            },
            LogKey::PageUp => {
                self.auto_scroll = false;
                if self.scroll_offset > 15 {
                    self.scroll_offset = self.scroll_offset - 15;
                } else {
                    self.scroll_offset = 0;
                }
            },
            LogKey::PageDown => {
                self.auto_scroll = false;
                if self.scroll_offset < len && 15 < len - self.scroll_offset {
                    self.scroll_offset = self.scroll_offset + 15;
                } else if len > 0 {
                    self.scroll_offset = len - 1;
                }
            },
            LogKey::End => {
                self.auto_scroll = true;
                if len > 0 {
                    self.scroll_offset = len - 1;
                }
            },
        }
    }

    /// The screen may be left once the game has ended.
    pub fn can_close(&self) -> (r: bool)
        ensures
            r == self.status is Some,
    {
        self.status.is_some()
    }

    /// The lines shown in a pane of `height` rows: the last lines when
    /// following the tail, else from the scroll position (kept inside the log).
    pub open spec fn spec_window(self, height: usize) -> (int, int) {
        let len = self.logs@.len();
        let start: int = if self.auto_scroll {
            if len > height {
                len - height
            } else {
                0
            }
        } else {
            let last: int = if len > 0 {
                len - 1
            } else {
                0
            };
            if self.scroll_offset < last {
                self.scroll_offset as int
            } else {
                last
            }
        };
        let end: int = if start + height < len {
            start + height
        } else {
            len as int
        };
        (start, end)
    }

    pub fn window(&self, height: usize) -> (r: (usize, usize))
        ensures
            (r.0 as int, r.1 as int) == self.spec_window(height),
            r.0 <= self.logs@.len(),
            r.1 <= self.logs@.len(),
    {
        let len = self.logs.len();
        let start = if self.auto_scroll {
            if len > height {
                len - height
            } else {
                0
            }
        } else {
            let last = if len > 0 {
                len - 1
            } else {
                0
            };
            if self.scroll_offset < last {
                self.scroll_offset
            } else {
                last
            }
        };
        let end = if start < len && height < len - start {
            start + height
        } else {
            len
        };
        (start, end)
    }
}

/// The shown window never reaches past the log, and never holds more lines
/// than the pane has rows.
pub proof fn lemma_window_fits(v: LogViewer, height: usize)
    ensures
        v.spec_window(height).0 <= v.spec_window(height).1 || v.logs@.len() == 0,
        v.spec_window(height).1 <= v.logs@.len(),
        v.spec_window(height).1 - v.spec_window(height).0 <= height,
{
}

/// The file name a manager's enable/disable toggle gives a file: an enabled
/// file gets ".disabled" appended; a disabled one loses that suffix.
pub open spec fn spec_toggled_file(name: Seq<char>, enabled: bool) -> Seq<char> {
    if enabled {
        name + ".disabled"@
    } else if spec_ends_with(name, ".disabled"@) {
        name.take(name.len() - 9)
    } else {
        name
    }
}

pub fn toggled_file_name(name: &str, enabled: bool) -> (r: String)
    ensures
        r@ == spec_toggled_file(name@, enabled),
{
    proof {
        reveal_strlit(".disabled");
    }
    if enabled {
        concat(name, ".disabled")
    } else if ends_with(name, ".disabled") {
        let cs = chars_of(name);
        string_from_char_range(cs.as_slice(), 0, cs.len() - 9)
    } else {
        String::from_str(name)
    }
}

/// Disabling a file and enabling it again gives back its name.
pub proof fn lemma_toggle_roundtrip(name: Seq<char>)
    ensures
        spec_toggled_file(spec_toggled_file(name, true), false) == name,
{
    reveal_strlit(".disabled");
    let t = name + ".disabled"@;
    assert(t.subrange(t.len() - 9, t.len() as int) =~= ".disabled"@);
    assert(t.take(t.len() - 9) =~= name);
}

/// The extension of a file name, as `Path::extension` gives it for a name
/// without separators: the text after the final '.', none when there is no
/// '.' or the only one starts the name (or for "..").
pub open spec fn spec_extension(name: Seq<char>) -> Option<Seq<char>> {
    let k = last_dot(name);
    if name == ".."@ || k <= 0 {
        None
    } else {
        Some(name.skip(k + 1))
    }
}

/// Index of the last '.', or -1.
pub open spec fn last_dot(name: Seq<char>) -> int
    decreases name.len(),
{
    if name.len() == 0 {
        -1
    } else if name.last() == '.' {
        name.len() - 1
    } else {
        last_dot(name.drop_last())
    }
}

proof fn lemma_last_dot(name: Seq<char>)
    ensures
        -1 <= last_dot(name) < name.len(),
        last_dot(name) >= 0 ==> name[last_dot(name)] == '.',
    decreases name.len(),
{
    if name.len() > 0 && name.last() != '.' {
        lemma_last_dot(name.drop_last());
    }
}

pub fn extension(name: &str) -> (r: Option<String>)
    ensures
        match r {
            Some(e) => spec_extension(name@) == Some(e@),
            None => spec_extension(name@) is None,
        },
{
    if str_eq(name, "..") {
        return None;
    }
    let cs = chars_of(name);
    let mut i: usize = cs.len();
    proof {
        lemma_last_dot(name@);
    }
    assert(name@.take(i as int) =~= name@);
    while i > 0 && cs[i - 1] != '.'
        invariant
            cs@ == name@,
            i <= cs@.len(),
            last_dot(name@) == last_dot(name@.take(i as int)),
        decreases i,
    {
        assert(name@.take(i as int).drop_last() =~= name@.take(i - 1));
        i = i - 1;
    }
    assert(name@.take(name@.len() as int) =~= name@);
    if i == 0 {
        return None;
    }
    assert(name@.take(i as int).last() == '.');
    if i == 1 {
        return None;
    }
    Some(string_from_char_range(cs.as_slice(), i, cs.len()))
}

/// The file name a rename gives a resource or shader pack: the new name,
/// the old extension (or "zip"), and ".disabled" again for a disabled pack.
pub open spec fn spec_renamed_pack(old: Seq<char>, new_name: Seq<char>) -> Seq<char> {
    let disabled = spec_ends_with(old, ".disabled"@);
    let base = if disabled {
        old.take(old.len() - 9)
    } else {
        old
    };
    let ext = match spec_extension(base) {
        Some(e) => e,
        None => "zip"@,
    };
    new_name + "."@ + ext + if disabled {
        ".disabled"@
    } else {
        ""@
    }
}

pub fn renamed_pack_file_name(old: &str, new_name: &str) -> (r: String)
    ensures
        r@ == spec_renamed_pack(old@, new_name@),
{
    proof {
        reveal_strlit(".disabled");
        reveal_strlit("");
    }
    let disabled = ends_with(old, ".disabled");
    let base = if disabled {
        let cs = chars_of(old);
        string_from_char_range(cs.as_slice(), 0, cs.len() - 9)
    } else {
        String::from_str(old)
    };
    let ext = match extension(base.as_str()) {
        Some(e) => e,
        None => String::from_str("zip"),
    };
    let s = concat(new_name, ".");
    let s = concat(s.as_str(), ext.as_str());
    if disabled {
        concat(s.as_str(), ".disabled")
    } else {
        concat(s.as_str(), "")
    }
}

/// The instance id suggested for a modpack: its title in lower case with
/// spaces turned into '-'.
pub fn modpack_default_id(title: &str) -> (r: String)
    ensures
        r@ == replace_all(spec_to_lowercase(title@), " "@, "-"@),
{
    let lower = to_lowercase(title);
    replace(lower.as_str(), " ", "-")
}

/// What an asset search looks for; datapacks go into a world.
pub enum AssetSearchType {
    Mod,
    Shader,
    ResourcePack,
    Datapack { world_name: String },
}

impl AssetSearchType {
    /// The Modrinth project type searched for.
    pub fn project_type(&self) -> (r: &'static str)
        ensures
            r@ == (match self {
                AssetSearchType::Mod => "mod"@,
                AssetSearchType::Shader => "shader"@,
                AssetSearchType::ResourcePack => "resourcepack"@,
                AssetSearchType::Datapack { .. } => "datapack"@,
            }),
    {
        match self {
            AssetSearchType::Mod => "mod",
            AssetSearchType::Shader => "shader",
            AssetSearchType::ResourcePack => "resourcepack",
            AssetSearchType::Datapack { .. } => "datapack",
        }
    }

    /// The name an install reports ("Mod installed successfully!").
    pub fn installed_name(&self) -> (r: &'static str)
        ensures
            r@ == (match self {
                AssetSearchType::Mod => "Mod"@,
                AssetSearchType::Shader => "Shader pack"@,
                AssetSearchType::ResourcePack => "Resource pack"@,
                AssetSearchType::Datapack { .. } => "Datapack"@,
            }),
    {
        match self {
            AssetSearchType::Mod => "Mod",
            AssetSearchType::Shader => "Shader pack",
            AssetSearchType::ResourcePack => "Resource pack",
            AssetSearchType::Datapack { .. } => "Datapack",
        }
    }

    /// The heading of the search screens.
    pub fn title(&self) -> (r: &'static str)
        ensures
            r@ == (match self {
                AssetSearchType::Mod => "Mods"@,
                AssetSearchType::Shader => "Shaders"@,
                AssetSearchType::ResourcePack => "Resource Packs"@,
                AssetSearchType::Datapack { .. } => "Datapacks"@,
            }),
    {
        match self {
            AssetSearchType::Mod => "Mods",
            AssetSearchType::Shader => "Shaders",
            AssetSearchType::ResourcePack => "Resource Packs",
            AssetSearchType::Datapack { .. } => "Datapacks",
        }
    }

    /// The loader that search and compatibility checks use: only mods
    /// depend on the instance's loader.
    pub fn loader_filter(&self, loader: Option<String>) -> (r: Option<String>)
        ensures
            r == (match self {
                AssetSearchType::Mod => loader,
                _ => None,
            }),
    {
        match self {
            AssetSearchType::Mod => loader,
            _ => None,
        }
    }
}

/// What the launch button says: ready when an instance and an account are
/// active.
pub fn launch_ready(active_instance: &Option<String>, active_account: &Option<String>) -> (r: bool)
    ensures
        r == (active_instance is Some && active_account is Some),
{
    active_instance.is_some() && active_account.is_some()
}

/// "Pre & Post Hooks active", "Pre Hook active", "Post Hook active" or "None".
pub fn hooks_status(pre_launch: &Option<String>, post_exit: &Option<String>) -> (r: &'static str)
    ensures
        r@ == (match (pre_launch, post_exit) {
            (Some(_), Some(_)) => "Pre & Post Hooks active"@,
            (Some(_), None) => "Pre Hook active"@,
            (None, Some(_)) => "Post Hook active"@,
            (None, None) => "None"@,
        }),
{
    match (pre_launch, post_exit) {
        (Some(_), Some(_)) => "Pre & Post Hooks active",
        (Some(_), None) => "Pre Hook active",
        (None, Some(_)) => "Post Hook active",
        (None, None) => "None",
    }
}

} // verus!
