//! The terminal interface as a state machine: which screen is open, what a
//! key press does there, and what a finished background job leads to.
//!
//! The screens hold only positions and flags; the lists they show (backups,
//! mods, worlds, search hits, ...) are kept by the caller, which reports
//! their lengths.  A step returns the next screen and the work to perform;
//! the caller performs it and reports back with an event.
use vstd::prelude::*;
use crate::text::{chars_of, spec_trim, string_from_chars, trim};
use crate::ui::{
    category_down, category_up, select_down, select_up, spec_select_down, spec_select_up, spec_clamp_selection,
    clamp_selection, LogKey, Tab,
};

verus! {

/// A key press, as far as the interface tells keys apart.
#[derive(PartialEq, Eq, Structural, Clone, Copy, Debug)]
pub enum UiKey {
    Char(char),
    Enter,
    Esc,
    Backspace,
    Tab,
    Up,
    Down,
    PageUp,
    PageDown,
    End,
    F1,
    F2,
    Other,
}

/// What a project search looks for.
#[derive(PartialEq, Eq, Structural, Clone, Copy, Debug)]
pub enum SearchKind {
    Mod,
    Shader,
    ResourcePack,
    Datapack,
}

/// The asset lists whose entries can be renamed, toggled or deleted.
#[derive(PartialEq, Eq, Structural, Clone, Copy, Debug)]
pub enum AssetKind {
    World,
    ResourcePack,
    Shader,
}

/// The screen that is open.  `instance` is the position of the instance the
/// screen works on; `category` counts worlds, resource packs, shader packs
/// and screenshots from 0.
#[derive(PartialEq, Eq, Structural, Clone, Copy, Debug)]
pub enum UiState {
    Normal,
    AddOfflineAccount,
    AddMicrosoftAccount,
    EditingSetting { field: usize },
    SelectInstanceFieldToEdit { instance: usize },
    EditingInstanceSetting { instance: usize, field: usize },
    GameRunning,
    Downloading,
    CreatingInstanceName,
    CreatingInstanceVersion,
    SyncingInstanceMods,
    BackupsMenu { instance: usize },
    ChoosingModLoader,
    ModManager { instance: usize },
    ImportingModpackPath,
    ImportingModpackId,
    ImportingModpackProgress,
    ModpackMenu { option: usize },
    SearchingModpackQuery,
    SearchingModpackLoading,
    SearchingModpackResults,
    SearchingModpackVersionsLoading,
    SearchingModpackVersions,
    SearchingModpackConfirmId,
    ExportingModpackPath { instance: usize },
    SearchingModQuery { instance: usize, kind: SearchKind },
    SearchingModLoading { instance: usize, kind: SearchKind },
    SearchingModResults { instance: usize, kind: SearchKind },
    SearchingModVersionsLoading { instance: usize, kind: SearchKind },
    SearchingModVersions { instance: usize, kind: SearchKind },
    InstallingModProgress { instance: usize, kind: SearchKind },
    AssetManager { instance: usize, category: usize },
    WorldManager { instance: usize, confirm_delete: bool },
    PromptWorldNameForDatapack { instance: usize },
    ResourcePackManager { instance: usize },
    ShaderPackManager { instance: usize },
    InstallingShaderSupport { instance: usize },
    ScreenshotManager { instance: usize, confirm_delete: bool },
    PromptRenameAsset { instance: usize, kind: AssetKind },
}

/// The work a step asks for.  Text arguments are in `UiModel::entered`;
/// `index`, `hit`, `version` and `option` are positions in the list that
/// the screen shows.
#[derive(PartialEq, Eq, Structural, Clone, Copy, Debug)]
pub enum UiAction {
    Nothing,
    Quit,
    ClearStatus,
    Launch,
    AddOfflineAccount,
    StartMicrosoftLogin,
    CancelMicrosoftLogin,
    SelectAccount { index: usize },
    RemoveAccount { index: usize },
    LoadSetting { field: usize },
    SaveSetting { field: usize },
    ActivateInstance { index: usize },
    DeleteInstance { index: usize },
    SyncInstance { index: usize },
    ListBackups { instance: usize },
    ListMods { instance: usize },
    OpenAssetManager { instance: usize },
    LoadInstanceField { instance: usize, field: usize },
    SaveInstanceField { instance: usize, field: usize },
    PrepareVersions,
    RefilterVersions,
    FetchLoaders { version: usize },
    CreateVanillaInstance,
    InstallLoader { option: usize },
    CreateBackup { instance: usize },
    RestoreBackup { instance: usize, index: usize },
    CheckModpackFile,
    ImportModpack,
    SearchModpacks,
    FetchModpackVersions { hit: usize },
    PickModpackVersion { version: usize },
    DownloadModpack,
    ExportModpack { instance: usize },
    ToggleMod { instance: usize, index: usize },
    DeleteMod { instance: usize, index: usize },
    ListAssets { instance: usize, category: usize },
    SearchAssets { instance: usize, kind: SearchKind },
    FetchAssetVersions { instance: usize, kind: SearchKind, hit: usize },
    InstallAsset { instance: usize, kind: SearchKind, version: usize },
    PickDatapackWorld { instance: usize, index: usize },
    NameDatapackWorld { instance: usize },
    DeleteWorld { instance: usize, index: usize },
    BackupWorld { instance: usize, index: usize },
    DeleteScreenshot { instance: usize, index: usize },
    BeginRename { instance: usize, kind: AssetKind, index: usize },
    Rename { instance: usize, kind: AssetKind },
    ToggleAsset { instance: usize, kind: AssetKind, index: usize },
    DeleteAsset { instance: usize, kind: AssetKind, index: usize },
    InstallShaderSupport { instance: usize },
    ScrollLog { key: LogKey },
    CloseGameLog,
}

/// What the caller reports back: a list was (re)loaded with `len` entries,
/// the pending job finished or failed, a download or a game session began.
#[derive(PartialEq, Eq, Structural, Clone, Copy, Debug)]
pub enum UiEvent {
    Loaded { len: usize },
    Finished,
    Failed,
    DownloadStarted,
    GameStarted,
}

/// Positions, counts and flags of the interface, and the text being typed.
pub struct UiModel {
    pub tab: Tab,
    /// The text of the open prompt (or of the version search).
    pub input: Vec<char>,
    /// The trimmed text of the last prompt that was submitted.
    pub entered: Vec<char>,
    pub instance_sel: Option<usize>,
    pub instance_count: usize,
    pub account_sel: Option<usize>,
    pub account_count: usize,
    pub settings_sel: Option<usize>,
    pub version_sel: Option<usize>,
    pub version_count: usize,
    /// Selection and length of the list the open screen shows.
    pub list_sel: Option<usize>,
    pub list_len: usize,
    pub filter_releases: bool,
    pub filter_snapshots: bool,
    pub shader_support: bool,
    pub game_finished: bool,
}

#[verifier::ext_equal]
pub ghost struct UiModelView {
    pub tab: Tab,
    pub input: Seq<char>,
    pub entered: Seq<char>,
    pub instance_sel: Option<usize>,
    pub instance_count: usize,
    pub account_sel: Option<usize>,
    pub account_count: usize,
    pub settings_sel: Option<usize>,
    pub version_sel: Option<usize>,
    pub version_count: usize,
    pub list_sel: Option<usize>,
    pub list_len: usize,
    pub filter_releases: bool,
    pub filter_snapshots: bool,
    pub shader_support: bool,
    pub game_finished: bool,
}

impl View for UiModel {
    type V = UiModelView;

    open spec fn view(&self) -> UiModelView {
        UiModelView {
            tab: self.tab,
            input: self.input@,
            entered: self.entered@,
            instance_sel: self.instance_sel,
            instance_count: self.instance_count,
            account_sel: self.account_sel,
            account_count: self.account_count,
            settings_sel: self.settings_sel,
            version_sel: self.version_sel,
            version_count: self.version_count,
            list_sel: self.list_sel,
            list_len: self.list_len,
            filter_releases: self.filter_releases,
            filter_snapshots: self.filter_snapshots,
            shader_support: self.shader_support,
            game_finished: self.game_finished,
        }
    }
}

/// `sel` points into a list of `len` entries.
pub open spec fn valid(sel: Option<usize>, len: usize) -> bool {
    sel matches Some(i) && i < len
}

pub open spec fn sel_or_top(sel: Option<usize>) -> usize {
    match sel {
        Some(i) => i,
        None => 0,
    }
}

fn valid_index(sel: Option<usize>, len: usize) -> (r: Option<usize>)
    ensures
        r == (if valid(sel, len) { sel } else { None::<usize> }),
{
    match sel {
        Some(i) => if i < len { Some(i) } else { None },
        None => None,
    }
}

impl UiModelView {
    /// Typing into the prompt: a character is appended, Backspace removes
    /// the last one, other keys leave the text alone.
    pub open spec fn edit(self, k: UiKey) -> UiModelView {
        match k {
            UiKey::Char(c) => UiModelView { input: self.input.push(c), ..self },
            UiKey::Backspace => if self.input.len() > 0 {
                UiModelView { input: self.input.subrange(0, self.input.len() - 1), ..self }
            } else {
                self
            },
            _ => self,
        }
    }

    pub open spec fn cleared(self) -> UiModelView {
        UiModelView { input: seq![], ..self }
    }

    pub open spec fn submitted(self) -> UiModelView {
        UiModelView { entered: spec_trim(self.input), ..self }
    }

    pub open spec fn has_text(self) -> bool {
        spec_trim(self.input).len() > 0
    }

    /// A list screen that was just opened: nothing listed until it loads.
    pub open spec fn unlisted(self) -> UiModelView {
        UiModelView { list_sel: None, list_len: 0, ..self }
    }

    pub open spec fn listed(self, len: usize) -> UiModelView {
        UiModelView { list_sel: if len > 0 { Some(0usize) } else { None }, list_len: len, ..self }
    }

    pub open spec fn list_up(self) -> UiModelView {
        UiModelView { list_sel: spec_select_up(self.list_sel), ..self }
    }

    pub open spec fn list_down(self) -> UiModelView {
        UiModelView { list_sel: spec_select_down(self.list_sel, self.list_len), ..self }
    }
}

impl UiModel {
    /// The interface as it starts: the dashboard, nothing typed, both
    /// version filters on.
    pub fn new(instance_count: usize, account_count: usize) -> (r: UiModel)
        ensures
            r@ == (UiModelView {
                tab: Tab::Dashboard,
                input: seq![],
                entered: seq![],
                instance_sel: None,
                instance_count,
                account_sel: None,
                account_count,
                settings_sel: None,
                version_sel: None,
                version_count: 0,
                list_sel: None,
                list_len: 0,
                filter_releases: true,
                filter_snapshots: true,
                shader_support: false,
                game_finished: false,
            }),
    {
        UiModel {
            tab: Tab::Dashboard,
            input: Vec::new(),
            entered: Vec::new(),
            instance_sel: None,
            instance_count,
            account_sel: None,
            account_count,
            settings_sel: None,
            version_sel: None,
            version_count: 0,
            list_sel: None,
            list_len: 0,
            filter_releases: true,
            filter_snapshots: true,
            shader_support: false,
            game_finished: false,
        }
    }

    /// The text of the open prompt, as a string.
    pub fn input_text(&self) -> (r: String)
        ensures
            r@ == self.input@,
    {
        string_from_chars(self.input.as_slice())
    }

    /// The text that the last submitted prompt carried.
    pub fn entered_text(&self) -> (r: String)
        ensures
            r@ == self.entered@,
    {
        string_from_chars(self.entered.as_slice())
    }

    /// Puts `text` into the open prompt (a default the user may edit).
    pub fn set_input(&mut self, text: &str)
        ensures
            final(self)@ =~= (UiModelView { input: text@, ..old(self)@ }),
    {
        self.input = chars_of(text);
    }

    /// The instance list was reloaded with `len` entries: the selection is
    /// kept inside it.
    pub fn instances_changed(&mut self, len: usize)
        ensures
            final(self)@ =~= (UiModelView {
                instance_count: len,
                instance_sel: spec_clamp_selection(old(self)@.instance_sel, len),
                ..old(self)@
            }),
    {
        self.instance_count = len;
        self.instance_sel = clamp_selection(self.instance_sel, len);
    }

    /// The account list changed to `len` entries: the selection is kept
    /// inside it, and cleared when the list is empty.
    pub fn accounts_changed(&mut self, len: usize)
        ensures
            final(self)@ =~= (UiModelView {
                account_count: len,
                account_sel: spec_clamp_selection(old(self)@.account_sel, len),
                ..old(self)@
            }),
    {
        self.account_count = len;
        self.account_sel = clamp_selection(self.account_sel, len);
    }

    /// The version list was filtered anew to `len` entries.
    pub fn versions_changed(&mut self, len: usize)
        ensures
            final(self)@ =~= (UiModelView {
                version_count: len,
                version_sel: spec_clamp_selection(old(self)@.version_sel, len),
                ..old(self)@
            }),
    {
        self.version_count = len;
        self.version_sel = clamp_selection(self.version_sel, len);
    }

    /// The shown list changed to `len` entries after an entry was removed
    /// or renamed: the selection is kept inside it.
    pub fn list_changed(&mut self, len: usize)
        ensures
            final(self)@ =~= (UiModelView {
                list_len: len,
                list_sel: spec_clamp_selection(old(self)@.list_sel, len),
                ..old(self)@
            }),
    {
        self.list_len = len;
        self.list_sel = clamp_selection(self.list_sel, len);
    }

    /// Whether the open shader list belongs to an instance that already has
    /// shader support.
    pub fn set_shader_support(&mut self, yes: bool)
        ensures
            final(self)@ =~= (UiModelView { shader_support: yes, ..old(self)@ }),
    {
        self.shader_support = yes;
    }

    fn edit(&mut self, k: UiKey)
        ensures
            final(self)@ =~= old(self)@.edit(k),
    {
        match k {
            UiKey::Char(c) => {
                self.input.push(c);
            },
            UiKey::Backspace => {
                let _ = self.input.pop();
            },
            _ => {},
        }
    }

    fn clear_input(&mut self)
        ensures
            final(self)@ =~= old(self)@.cleared(),
    {
        self.input.clear();
    }

    fn trimmed_input(&self) -> (r: Vec<char>)
        ensures
            r@ == spec_trim(self.input@),
    {
        let s = string_from_chars(self.input.as_slice());
        let t = trim(s.as_str());
        chars_of(t.as_str())
    }

    fn submit(&mut self)
        ensures
            final(self)@ =~= old(self)@.submitted(),
    {
        self.entered = self.trimmed_input();
    }

    fn unlist(&mut self)
        ensures
            final(self)@ =~= old(self)@.unlisted(),
    {
        self.list_sel = None;
        self.list_len = 0;
    }

    fn list(&mut self, len: usize)
        ensures
            final(self)@ =~= old(self)@.listed(len),
    {
        self.list_sel = if len > 0 { Some(0) } else { None };
        self.list_len = len;
    }

    fn list_up(&mut self)
        ensures
            final(self)@ =~= old(self)@.list_up(),
    {
        self.list_sel = select_up(self.list_sel);
    }

    fn list_down(&mut self)
        ensures
            final(self)@ =~= old(self)@.list_down(),
    {
        self.list_sel = select_down(self.list_sel, self.list_len);
    }
}


/// The result of a step: the next screen, the work to do, the new model.
pub type Step = (UiState, UiAction, UiModelView);

/// The screen that lists the assets a search of `kind` installs into.
pub open spec fn manager_of(instance: usize, kind: SearchKind) -> UiState {
    match kind {
        SearchKind::Mod => UiState::ModManager { instance },
        SearchKind::Shader => UiState::ShaderPackManager { instance },
        SearchKind::ResourcePack => UiState::ResourcePackManager { instance },
        SearchKind::Datapack => UiState::WorldManager { instance, confirm_delete: false },
    }
}

/// The loading of the list that `manager_of(instance, kind)` shows.
pub open spec fn relist_of(instance: usize, kind: SearchKind) -> UiAction {
    match kind {
        SearchKind::Mod => UiAction::ListMods { instance },
        SearchKind::Shader => UiAction::ListAssets { instance, category: 2 },
        SearchKind::ResourcePack => UiAction::ListAssets { instance, category: 1 },
        SearchKind::Datapack => UiAction::ListAssets { instance, category: 0 },
    }
}

/// The list screen an asset of `kind` belongs to, and its category.
pub open spec fn asset_screen(instance: usize, kind: AssetKind) -> UiState {
    match kind {
        AssetKind::World => UiState::WorldManager { instance, confirm_delete: false },
        AssetKind::ResourcePack => UiState::ResourcePackManager { instance },
        AssetKind::Shader => UiState::ShaderPackManager { instance },
    }
}

pub open spec fn asset_category(kind: AssetKind) -> usize {
    match kind {
        AssetKind::World => 0,
        AssetKind::ResourcePack => 1,
        AssetKind::Shader => 2,
    }
}

/// A text prompt: Char and Backspace edit, other keys do nothing.
pub open spec fn typing(s: UiState, m: UiModelView, k: UiKey) -> Step {
    (s, UiAction::Nothing, m.edit(k))
}

/// `k` is the letter key `lower` or `upper`.
pub open spec fn letter(k: UiKey, lower: char, upper: char) -> bool {
    k == UiKey::Char(lower) || k == UiKey::Char(upper)
}

fn is_letter(k: UiKey, lower: char, upper: char) -> (r: bool)
    ensures
        r == letter(k, lower, upper),
{
    k == UiKey::Char(lower) || k == UiKey::Char(upper)
}

/// Keys on the main screen.
pub open spec fn spec_key_normal(m: UiModelView, k: UiKey) -> Step {
    let dash = m.tab == Tab::Dashboard;
    if k == UiKey::Char('q') {
        (UiState::Normal, UiAction::Quit, m)
    } else if k == UiKey::Tab {
        (UiState::Normal, UiAction::ClearStatus, UiModelView { tab: m.tab.spec_next(), ..m })
    } else if dash && letter(k, 'd', 'D') {
        (UiState::Normal, UiAction::Nothing, m)
    } else if dash && letter(k, 'i', 'I') {
        (UiState::Normal, UiAction::Nothing, UiModelView { tab: Tab::Instances, ..m })
    } else if dash && letter(k, 'a', 'A') {
        (UiState::Normal, UiAction::Nothing, UiModelView { tab: Tab::Accounts, ..m })
    } else if dash && letter(k, 's', 'S') {
        (UiState::Normal, UiAction::Nothing, UiModelView { tab: Tab::Settings, ..m })
    } else if dash && (k == UiKey::Enter || letter(k, 'l', 'L')) {
        (UiState::Normal, UiAction::Launch, m)
    } else {
        match m.tab {
            Tab::Dashboard => (UiState::Normal, UiAction::Nothing, m),
            Tab::Instances => spec_key_instances(m, k),
            Tab::Accounts => spec_key_accounts(m, k),
            Tab::Settings => spec_key_settings(m, k),
        }
    }
}

/// Keys on the instances tab.
pub open spec fn spec_key_instances(m: UiModelView, k: UiKey) -> Step {
    let ok = valid(m.instance_sel, m.instance_count);
    let some = m.instance_sel is Some;
    let i = sel_or_top(m.instance_sel);
    if k == UiKey::Up {
        (UiState::Normal, UiAction::Nothing, UiModelView { instance_sel: spec_select_up(m.instance_sel), ..m })
    } else if k == UiKey::Down {
        (UiState::Normal, UiAction::Nothing,
            UiModelView { instance_sel: spec_select_down(m.instance_sel, m.instance_count), ..m })
    } else if k == UiKey::Enter {
        (UiState::Normal, if ok { UiAction::ActivateInstance { index: i } } else { UiAction::Nothing }, m)
    } else if letter(k, 'n', 'N') {
        (UiState::CreatingInstanceName, UiAction::Nothing, m.cleared())
    } else if letter(k, 'e', 'E') && some {
        (UiState::SelectInstanceFieldToEdit { instance: i }, UiAction::Nothing, m)
    } else if letter(k, 'd', 'D') && ok {
        (UiState::Normal, UiAction::DeleteInstance { index: i }, m)
    } else if letter(k, 's', 'S') && ok {
        (UiState::SyncingInstanceMods, UiAction::SyncInstance { index: i }, m)
    } else if letter(k, 'b', 'B') && ok {
        (UiState::BackupsMenu { instance: i }, UiAction::ListBackups { instance: i }, m.unlisted())
    } else if letter(k, 'm', 'M') && ok {
        (UiState::ModManager { instance: i }, UiAction::ListMods { instance: i }, m.unlisted())
    } else if letter(k, 'p', 'P') {
        (UiState::ModpackMenu { option: 0 }, UiAction::Nothing, m)
    } else if letter(k, 'x', 'X') && some {
        (UiState::ExportingModpackPath { instance: i }, UiAction::Nothing, m.cleared())
    } else if letter(k, 'a', 'A') && ok {
        (UiState::AssetManager { instance: i, category: 0 }, UiAction::OpenAssetManager { instance: i }, m)
    } else {
        (UiState::Normal, UiAction::Nothing, m)
    }
}

/// Keys on the accounts tab.
pub open spec fn spec_key_accounts(m: UiModelView, k: UiKey) -> Step {
    let ok = valid(m.account_sel, m.account_count);
    let i = sel_or_top(m.account_sel);
    if k == UiKey::Up {
        (UiState::Normal, UiAction::Nothing, UiModelView { account_sel: spec_select_up(m.account_sel), ..m })
    } else if k == UiKey::Down {
        (UiState::Normal, UiAction::Nothing,
            UiModelView { account_sel: spec_select_down(m.account_sel, m.account_count), ..m })
    } else if k == UiKey::Enter {
        (UiState::Normal, if ok { UiAction::SelectAccount { index: i } } else { UiAction::Nothing }, m)
    } else if letter(k, 'o', 'O') {
        (UiState::AddOfflineAccount, UiAction::ClearStatus, m)
    } else if letter(k, 'a', 'A') {
        (UiState::AddMicrosoftAccount, UiAction::StartMicrosoftLogin, m)
    } else if letter(k, 'x', 'X') && ok {
        (UiState::Normal, UiAction::RemoveAccount { index: i }, m)
    } else {
        (UiState::Normal, UiAction::Nothing, m)
    }
}

/// Keys on the settings tab: three fields, Enter edits the selected one.
pub open spec fn spec_key_settings(m: UiModelView, k: UiKey) -> Step {
    let i = sel_or_top(m.settings_sel);
    if k == UiKey::Up {
        (UiState::Normal, UiAction::Nothing, UiModelView { settings_sel: spec_select_up(m.settings_sel), ..m })
    } else if k == UiKey::Down {
        (UiState::Normal, UiAction::Nothing,
            UiModelView { settings_sel: spec_select_down(m.settings_sel, 3), ..m })
    } else if k == UiKey::Enter {
        (UiState::EditingSetting { field: i }, UiAction::LoadSetting { field: i }, m)
    } else {
        (UiState::Normal, UiAction::Nothing, m)
    }
}

/// Keys on the open screen.
pub open spec fn spec_on_key(m: UiModelView, s: UiState, k: UiKey) -> Step {
    match s {
        UiState::Normal => spec_key_normal(m, k),
        UiState::AddOfflineAccount => spec_key_offline(m, k),
        UiState::AddMicrosoftAccount => if k == UiKey::Esc {
            (UiState::Normal, UiAction::CancelMicrosoftLogin, m)
        } else {
            (s, UiAction::Nothing, m)
        },
        UiState::EditingSetting { field } => if k == UiKey::Esc {
            (UiState::Normal, UiAction::Nothing, m)
        } else if k == UiKey::Enter {
            (UiState::Normal, UiAction::SaveSetting { field }, m.submitted())
        } else {
            typing(s, m, k)
        },
        UiState::SelectInstanceFieldToEdit { instance } => if k == UiKey::Esc {
            (UiState::Normal, UiAction::Nothing, m)
        } else if k == UiKey::Char('1') {
            (UiState::EditingInstanceSetting { instance, field: 1 },
                UiAction::LoadInstanceField { instance, field: 1 }, m)
        } else if k == UiKey::Char('2') {
            (UiState::EditingInstanceSetting { instance, field: 2 },
                UiAction::LoadInstanceField { instance, field: 2 }, m)
        } else {
            (s, UiAction::Nothing, m)
        },
        UiState::EditingInstanceSetting { instance, field } => if k == UiKey::Esc {
            (UiState::SelectInstanceFieldToEdit { instance }, UiAction::Nothing, m)
        } else if k == UiKey::Enter {
            (UiState::Normal, UiAction::SaveInstanceField { instance, field }, m.submitted())
        } else {
            typing(s, m, k)
        },
        UiState::GameRunning => spec_key_game(m, k),
        UiState::CreatingInstanceName => if k == UiKey::Esc {
            (UiState::Normal, UiAction::Nothing, m.cleared())
        } else if k == UiKey::Enter {
            if m.has_text() {
                (UiState::CreatingInstanceVersion, UiAction::PrepareVersions,
                    UiModelView { version_sel: Some(0usize), ..m.submitted().cleared() })
            } else {
                (s, UiAction::Nothing, m)
            }
        } else {
            typing(s, m, k)
        },
        UiState::CreatingInstanceVersion => spec_key_version(m, k),
        UiState::BackupsMenu { instance } => spec_key_backups(m, instance, k),
        UiState::ChoosingModLoader => spec_key_loader(m, k),
        UiState::ModManager { instance } => spec_key_mods(m, instance, k),
        UiState::ImportingModpackPath => if k == UiKey::Esc {
            (UiState::Normal, UiAction::Nothing, m.cleared())
        } else if k == UiKey::Enter {
            (s, UiAction::CheckModpackFile, m.submitted())
        } else {
            typing(s, m, k)
        },
        UiState::ImportingModpackId => spec_prompt(m, k, s, UiState::Normal,
            UiState::ImportingModpackProgress, UiAction::ImportModpack, true),
        UiState::ModpackMenu { option } => spec_key_modpack_menu(m, option, k),
        UiState::SearchingModpackQuery => spec_prompt(m, k, s, UiState::ModpackMenu { option: 0 },
            UiState::SearchingModpackLoading, UiAction::SearchModpacks, false),
        UiState::SearchingModpackResults => spec_key_modpack_results(m, k),
        UiState::SearchingModpackVersions => spec_key_modpack_versions(m, k),
        UiState::SearchingModpackConfirmId => spec_prompt(m, k, s, UiState::Normal,
            UiState::ImportingModpackProgress, UiAction::DownloadModpack, true),
        UiState::ExportingModpackPath { instance } => spec_prompt(m, k, s, UiState::Normal,
            UiState::Normal, UiAction::ExportModpack { instance }, true),
        UiState::SearchingModQuery { instance, kind } => if k == UiKey::Esc {
            (manager_of(instance, kind), relist_of(instance, kind), m.cleared().unlisted())
        } else {
            spec_prompt(m, k, s, s, UiState::SearchingModLoading { instance, kind },
                UiAction::SearchAssets { instance, kind }, false)
        },
        UiState::SearchingModResults { instance, kind } => spec_key_mod_results(m, instance, kind, k),
        UiState::SearchingModVersions { instance, kind } => spec_key_mod_versions(m, instance, kind, k),
        UiState::AssetManager { instance, category } => spec_key_assets(m, instance, category, k),
        UiState::WorldManager { instance, confirm_delete } => spec_key_worlds(m, instance, confirm_delete, k),
        UiState::PromptWorldNameForDatapack { instance } => if k == UiKey::Esc {
            (UiState::WorldManager { instance, confirm_delete: false },
                UiAction::ListAssets { instance, category: 0 }, m.unlisted())
        } else {
            spec_prompt(m, k, s, s, UiState::SearchingModQuery { instance, kind: SearchKind::Datapack },
                UiAction::NameDatapackWorld { instance }, true)
        },
        UiState::ResourcePackManager { instance } => spec_key_packs(m, instance, AssetKind::ResourcePack, k),
        UiState::ShaderPackManager { instance } => spec_key_packs(m, instance, AssetKind::Shader, k),
        UiState::ScreenshotManager { instance, confirm_delete } =>
            spec_key_screenshots(m, instance, confirm_delete, k),
        UiState::PromptRenameAsset { instance, kind } => if k == UiKey::Esc {
            (asset_screen(instance, kind), UiAction::ListAssets { instance, category: asset_category(kind) },
                m.unlisted())
        } else {
            spec_prompt(m, k, s, s, asset_screen(instance, kind), UiAction::Rename { instance, kind }, false)
        },
        _ => (s, UiAction::Nothing, m),
    }
}

/// A prompt that submits its trimmed text: Esc goes to `back` and empties
/// the prompt; Enter with some text goes to `next` asking for `act` (the
/// prompt emptied when `clear`); Enter with blank text does nothing.
pub open spec fn spec_prompt(
    m: UiModelView,
    k: UiKey,
    s: UiState,
    back: UiState,
    next: UiState,
    act: UiAction,
    clear: bool,
) -> Step {
    if k == UiKey::Esc {
        (back, UiAction::Nothing, m.cleared())
    } else if k == UiKey::Enter {
        if m.has_text() {
            (next, act, if clear { m.submitted().cleared() } else { m.submitted() })
        } else {
            (s, UiAction::Nothing, m)
        }
    } else {
        typing(s, m, k)
    }
}

/// The offline-account prompt: Enter with a name adds the account and shows
/// the accounts tab; the prompt is emptied either way.
pub open spec fn spec_key_offline(m: UiModelView, k: UiKey) -> Step {
    if k == UiKey::Esc {
        (UiState::Normal, UiAction::Nothing, m.cleared())
    } else if k == UiKey::Enter {
        if m.has_text() {
            (UiState::Normal, UiAction::AddOfflineAccount,
                UiModelView { tab: Tab::Accounts, ..m.submitted().cleared() })
        } else {
            (UiState::AddOfflineAccount, UiAction::Nothing, m.cleared())
        }
    } else {
        typing(UiState::AddOfflineAccount, m, k)
    }
}

/// The game session: scrolling keys go to the log viewer; Esc closes it
/// once the game has ended.
pub open spec fn spec_key_game(m: UiModelView, k: UiKey) -> Step {
    let s = UiState::GameRunning;
    if k == UiKey::Esc {
        if m.game_finished { (UiState::Normal, UiAction::CloseGameLog, m) } else { (s, UiAction::Nothing, m) }
    } else if k == UiKey::Up {
        (s, UiAction::ScrollLog { key: LogKey::Up }, m)
    } else if k == UiKey::Down {
        (s, UiAction::ScrollLog { key: LogKey::Down }, m)
    } else if k == UiKey::PageUp {
        (s, UiAction::ScrollLog { key: LogKey::PageUp }, m)
    } else if k == UiKey::PageDown {
        (s, UiAction::ScrollLog { key: LogKey::PageDown }, m)
    } else if k == UiKey::End {
        (s, UiAction::ScrollLog { key: LogKey::End }, m)
    } else {
        (s, UiAction::Nothing, m)
    }
}

/// Choosing the game version of a new instance: F1 and F2 switch the
/// release and snapshot filters, typing narrows the list, Enter picks.
pub open spec fn spec_key_version(m: UiModelView, k: UiKey) -> Step {
    let s = UiState::CreatingInstanceVersion;
    if k == UiKey::Esc {
        (UiState::Normal, UiAction::Nothing, m.cleared())
    } else if k == UiKey::F1 {
        (s, UiAction::RefilterVersions, UiModelView { filter_releases: !m.filter_releases, ..m })
    } else if k == UiKey::F2 {
        (s, UiAction::RefilterVersions, UiModelView { filter_snapshots: !m.filter_snapshots, ..m })
    } else if k == UiKey::Up {
        (s, UiAction::Nothing, UiModelView { version_sel: spec_select_up(m.version_sel), ..m })
    } else if k == UiKey::Down {
        (s, UiAction::Nothing, UiModelView { version_sel: spec_select_down(m.version_sel, m.version_count), ..m })
    } else if k is Char || k == UiKey::Backspace {
        (s, UiAction::RefilterVersions, m.edit(k))
    } else if k == UiKey::Enter && valid(m.version_sel, m.version_count) {
        (s, UiAction::FetchLoaders { version: sel_or_top(m.version_sel) }, m)
    } else {
        (s, UiAction::Nothing, m)
    }
}

/// Up and Down move in the shown list (also `k` and `j` where `vim`).
pub open spec fn spec_list_move(m: UiModelView, k: UiKey, vim: bool) -> Option<UiModelView> {
    if k == UiKey::Up || (vim && k == UiKey::Char('k')) {
        Some(m.list_up())
    } else if k == UiKey::Down || (vim && k == UiKey::Char('j')) {
        Some(m.list_down())
    } else {
        None
    }
}

pub open spec fn list_index(m: UiModelView) -> usize {
    sel_or_top(m.list_sel)
}

pub open spec fn spec_key_backups(m: UiModelView, instance: usize, k: UiKey) -> Step {
    let s = UiState::BackupsMenu { instance };
    if k == UiKey::Esc {
        (UiState::Normal, UiAction::Nothing, m)
    } else if spec_list_move(m, k, false) is Some {
        (s, UiAction::Nothing, spec_list_move(m, k, false).unwrap())
    } else if letter(k, 'b', 'B') {
        (s, UiAction::CreateBackup { instance }, m)
    } else if k == UiKey::Enter && valid(m.list_sel, m.list_len) {
        (s, UiAction::RestoreBackup { instance, index: list_index(m) }, m)
    } else {
        (s, UiAction::Nothing, m)
    }
}

pub open spec fn spec_key_loader(m: UiModelView, k: UiKey) -> Step {
    let s = UiState::ChoosingModLoader;
    if k == UiKey::Esc {
        (UiState::Normal, UiAction::CreateVanillaInstance, m.cleared())
    } else if spec_list_move(m, k, false) is Some {
        (s, UiAction::Nothing, spec_list_move(m, k, false).unwrap())
    } else if k == UiKey::Enter && valid(m.list_sel, m.list_len) {
        (s, UiAction::InstallLoader { option: list_index(m) }, m)
    } else {
        (s, UiAction::Nothing, m)
    }
}

pub open spec fn spec_key_mods(m: UiModelView, instance: usize, k: UiKey) -> Step {
    let s = UiState::ModManager { instance };
    let ok = valid(m.list_sel, m.list_len);
    if k == UiKey::Esc {
        (UiState::Normal, UiAction::Nothing, m)
    } else if spec_list_move(m, k, false) is Some {
        (s, UiAction::Nothing, spec_list_move(m, k, false).unwrap())
    } else if (k == UiKey::Enter || k == UiKey::Char(' ')) && ok {
        (s, UiAction::ToggleMod { instance, index: list_index(m) }, m)
    } else if k == UiKey::Char('a') {
        (UiState::SearchingModQuery { instance, kind: SearchKind::Mod }, UiAction::Nothing, m.cleared())
    } else if (k == UiKey::Char('d') || k == UiKey::Backspace) && ok {
        (s, UiAction::DeleteMod { instance, index: list_index(m) }, m)
    } else {
        (s, UiAction::Nothing, m)
    }
}

/// The modpack menu: search Modrinth (0) or import a file (1).
pub open spec fn spec_key_modpack_menu(m: UiModelView, option: usize, k: UiKey) -> Step {
    if k == UiKey::Esc {
        (UiState::Normal, UiAction::Nothing, m)
    } else if k == UiKey::Up || k == UiKey::Char('k') {
        (UiState::ModpackMenu { option: if option > 0 { (option - 1) as usize } else { option } },
            UiAction::Nothing, m)
    } else if k == UiKey::Down || k == UiKey::Char('j') {
        (UiState::ModpackMenu { option: if option < 1 { (option + 1) as usize } else { option } },
            UiAction::Nothing, m)
    } else if k == UiKey::Enter {
        (if option == 0 { UiState::SearchingModpackQuery } else { UiState::ImportingModpackPath },
            UiAction::Nothing, m.cleared())
    } else {
        (UiState::ModpackMenu { option }, UiAction::Nothing, m)
    }
}

pub open spec fn spec_key_modpack_results(m: UiModelView, k: UiKey) -> Step {
    let s = UiState::SearchingModpackResults;
    if k == UiKey::Esc {
        (UiState::SearchingModpackQuery, UiAction::Nothing, UiModelView { input: m.entered, ..m })
    } else if spec_list_move(m, k, true) is Some {
        (s, UiAction::Nothing, spec_list_move(m, k, true).unwrap())
    } else if k == UiKey::Enter && valid(m.list_sel, m.list_len) {
        (UiState::SearchingModpackVersionsLoading, UiAction::FetchModpackVersions { hit: list_index(m) }, m)
    } else {
        (s, UiAction::Nothing, m)
    }
}

pub open spec fn spec_key_modpack_versions(m: UiModelView, k: UiKey) -> Step {
    let s = UiState::SearchingModpackVersions;
    if k == UiKey::Esc {
        (UiState::Normal, UiAction::Nothing, m)
    } else if spec_list_move(m, k, true) is Some {
        (s, UiAction::Nothing, spec_list_move(m, k, true).unwrap())
    } else if k == UiKey::Enter && valid(m.list_sel, m.list_len) {
        (s, UiAction::PickModpackVersion { version: list_index(m) }, m)
    } else {
        (s, UiAction::Nothing, m)
    }
}

pub open spec fn spec_key_mod_results(m: UiModelView, instance: usize, kind: SearchKind, k: UiKey) -> Step {
    let s = UiState::SearchingModResults { instance, kind };
    if k == UiKey::Esc {
        (UiState::SearchingModQuery { instance, kind }, UiAction::Nothing, UiModelView { input: m.entered, ..m })
    } else if spec_list_move(m, k, true) is Some {
        (s, UiAction::Nothing, spec_list_move(m, k, true).unwrap())
    } else if k == UiKey::Enter && valid(m.list_sel, m.list_len) {
        (UiState::SearchingModVersionsLoading { instance, kind },
            UiAction::FetchAssetVersions { instance, kind, hit: list_index(m) }, m)
    } else {
        (s, UiAction::Nothing, m)
    }
}

pub open spec fn spec_key_mod_versions(m: UiModelView, instance: usize, kind: SearchKind, k: UiKey) -> Step {
    let s = UiState::SearchingModVersions { instance, kind };
    if k == UiKey::Esc {
        (UiState::SearchingModLoading { instance, kind }, UiAction::SearchAssets { instance, kind }, m)
    } else if spec_list_move(m, k, true) is Some {
        (s, UiAction::Nothing, spec_list_move(m, k, true).unwrap())
    } else if k == UiKey::Enter && valid(m.list_sel, m.list_len) {
        (UiState::InstallingModProgress { instance, kind },
            UiAction::InstallAsset { instance, kind, version: list_index(m) }, m)
    } else {
        (s, UiAction::Nothing, m)
    }
}

/// The four asset categories, cycling; Enter opens the chosen list.
pub open spec fn spec_key_assets(m: UiModelView, instance: usize, category: usize, k: UiKey) -> Step {
    if k == UiKey::Esc {
        (UiState::Normal, UiAction::Nothing, m)
    } else if k == UiKey::Up || k == UiKey::Char('k') {
        (UiState::AssetManager { instance, category: if category > 0 { (category - 1) as usize } else { 3 } },
            UiAction::Nothing, m)
    } else if k == UiKey::Down || k == UiKey::Char('j') {
        (UiState::AssetManager { instance, category: if category < 3 { (category + 1) as usize } else { 0 } },
            UiAction::Nothing, m)
    } else if k == UiKey::Enter && category < 4 {
        (if category == 0 {
            UiState::WorldManager { instance, confirm_delete: false }
        } else if category == 1 {
            UiState::ResourcePackManager { instance }
        } else if category == 2 {
            UiState::ShaderPackManager { instance }
        } else {
            UiState::ScreenshotManager { instance, confirm_delete: false }
        }, UiAction::ListAssets { instance, category }, m.unlisted())
    } else {
        (UiState::AssetManager { instance, category }, UiAction::Nothing, m)
    }
}

/// The world list.  `d` asks for confirmation, which `y` gives and any
/// other key withdraws.
pub open spec fn spec_key_worlds(m: UiModelView, instance: usize, confirm: bool, k: UiKey) -> Step {
    let s = UiState::WorldManager { instance, confirm_delete: false };
    let ok = valid(m.list_sel, m.list_len);
    let i = list_index(m);
    if confirm {
        (s, if letter(k, 'y', 'Y') && ok { UiAction::DeleteWorld { instance, index: i } } else { UiAction::Nothing }, m)
    } else if k == UiKey::Esc {
        (UiState::AssetManager { instance, category: 0 }, UiAction::OpenAssetManager { instance }, m)
    } else if spec_list_move(m, k, false) is Some {
        (s, UiAction::Nothing, spec_list_move(m, k, false).unwrap())
    } else if letter(k, 'd', 'D') && ok {
        (UiState::WorldManager { instance, confirm_delete: true }, UiAction::Nothing, m)
    } else if letter(k, 'a', 'A') && ok {
        (UiState::SearchingModQuery { instance, kind: SearchKind::Datapack },
            UiAction::PickDatapackWorld { instance, index: i }, m.cleared())
    } else if letter(k, 'p', 'P') {
        (UiState::PromptWorldNameForDatapack { instance }, UiAction::Nothing, m.cleared())
    } else if letter(k, 'b', 'B') && ok {
        (s, UiAction::BackupWorld { instance, index: i }, m)
    } else if letter(k, 'r', 'R') && ok {
        (UiState::PromptRenameAsset { instance, kind: AssetKind::World },
            UiAction::BeginRename { instance, kind: AssetKind::World, index: i }, m)
    } else {
        (s, UiAction::Nothing, m)
    }
}

/// The resource pack and shader pack lists.
pub open spec fn spec_key_packs(m: UiModelView, instance: usize, kind: AssetKind, k: UiKey) -> Step {
    let s = asset_screen(instance, kind);
    let ok = valid(m.list_sel, m.list_len);
    let i = list_index(m);
    let search = if kind == AssetKind::Shader { SearchKind::Shader } else { SearchKind::ResourcePack };
    if k == UiKey::Esc {
        (UiState::AssetManager { instance, category: asset_category(kind) },
            UiAction::OpenAssetManager { instance }, m)
    } else if spec_list_move(m, k, false) is Some {
        (s, UiAction::Nothing, spec_list_move(m, k, false).unwrap())
    } else if (k == UiKey::Enter || k == UiKey::Char(' ')) && ok {
        (s, UiAction::ToggleAsset { instance, kind, index: i }, m)
    } else if kind == AssetKind::Shader && letter(k, 'i', 'I') && !m.shader_support {
        (UiState::InstallingShaderSupport { instance }, UiAction::InstallShaderSupport { instance }, m)
    } else if k == UiKey::Char('a') {
        (UiState::SearchingModQuery { instance, kind: search }, UiAction::Nothing, m.cleared())
    } else if letter(k, 'r', 'R') && ok {
        (UiState::PromptRenameAsset { instance, kind }, UiAction::BeginRename { instance, kind, index: i }, m)
    } else if (k == UiKey::Char('d') || k == UiKey::Backspace) && ok {
        (s, UiAction::DeleteAsset { instance, kind, index: i }, m)
    } else {
        (s, UiAction::Nothing, m)
    }
}

pub open spec fn spec_key_screenshots(m: UiModelView, instance: usize, confirm: bool, k: UiKey) -> Step {
    let s = UiState::ScreenshotManager { instance, confirm_delete: false };
    let ok = valid(m.list_sel, m.list_len);
    if confirm {
        (s, if letter(k, 'y', 'Y') && ok {
            UiAction::DeleteScreenshot { instance, index: list_index(m) }
        } else {
            UiAction::Nothing
        }, m)
    } else if k == UiKey::Esc {
        (UiState::AssetManager { instance, category: 3 }, UiAction::OpenAssetManager { instance }, m)
    } else if spec_list_move(m, k, false) is Some {
        (s, UiAction::Nothing, spec_list_move(m, k, false).unwrap())
    } else if letter(k, 'd', 'D') && ok {
        (UiState::ScreenshotManager { instance, confirm_delete: true }, UiAction::Nothing, m)
    } else {
        (s, UiAction::Nothing, m)
    }
}

/// What a report from the caller leads to.
pub open spec fn spec_on_event(m: UiModelView, s: UiState, e: UiEvent) -> Step {
    match e {
        UiEvent::DownloadStarted => (UiState::Downloading, UiAction::Nothing, m),
        UiEvent::GameStarted => (UiState::GameRunning, UiAction::Nothing, UiModelView { game_finished: false, ..m }),
        UiEvent::Loaded { len } => {
            let l = m.listed(len);
            match s {
                UiState::SearchingModpackLoading => (UiState::SearchingModpackResults, UiAction::Nothing, l),
                UiState::SearchingModpackVersionsLoading => (UiState::SearchingModpackVersions, UiAction::Nothing, l),
                UiState::SearchingModLoading { instance, kind } =>
                    (UiState::SearchingModResults { instance, kind }, UiAction::Nothing, l),
                UiState::SearchingModVersionsLoading { instance, kind } => if len == 0 {
                    (UiState::SearchingModQuery { instance, kind }, UiAction::Nothing, l)
                } else {
                    (UiState::SearchingModVersions { instance, kind }, UiAction::Nothing, l)
                },
                UiState::CreatingInstanceVersion => (UiState::ChoosingModLoader, UiAction::Nothing, l.cleared()),
                _ => (s, UiAction::Nothing, l),
            }
        },
        UiEvent::Finished => match s {
            UiState::AddMicrosoftAccount => (UiState::Normal, UiAction::Nothing, UiModelView { tab: Tab::Accounts, ..m }),
            UiState::Downloading | UiState::SyncingInstanceMods | UiState::ImportingModpackProgress
            | UiState::BackupsMenu { .. } | UiState::ChoosingModLoader => (UiState::Normal, UiAction::Nothing, m),
            UiState::InstallingModProgress { instance, kind } =>
                (manager_of(instance, kind), relist_of(instance, kind), m.unlisted()),
            UiState::InstallingShaderSupport { instance } =>
                (UiState::ShaderPackManager { instance }, UiAction::ListAssets { instance, category: 2 }, m.unlisted()),
            UiState::ImportingModpackPath => (UiState::ImportingModpackId, UiAction::Nothing, m.cleared()),
            UiState::SearchingModpackVersions => (UiState::SearchingModpackConfirmId, UiAction::Nothing, m),
            UiState::GameRunning => (s, UiAction::Nothing, UiModelView { game_finished: true, ..m }),
            _ => (s, UiAction::Nothing, m),
        },
        UiEvent::Failed => match s {
            UiState::AddMicrosoftAccount | UiState::Downloading | UiState::SyncingInstanceMods
            | UiState::ImportingModpackProgress | UiState::SearchingModpackVersionsLoading
            | UiState::SearchingModVersionsLoading { .. } => (UiState::Normal, UiAction::Nothing, m),
            UiState::SearchingModpackLoading => (UiState::SearchingModpackQuery, UiAction::Nothing, m),
            UiState::SearchingModLoading { instance, kind } =>
                (UiState::SearchingModQuery { instance, kind }, UiAction::Nothing, m),
            UiState::InstallingModProgress { instance, kind } =>
                (manager_of(instance, kind), relist_of(instance, kind), m.unlisted()),
            UiState::InstallingShaderSupport { instance } =>
                (UiState::ShaderPackManager { instance }, UiAction::ListAssets { instance, category: 2 }, m.unlisted()),
            UiState::GameRunning => (s, UiAction::Nothing, UiModelView { game_finished: true, ..m }),
            _ => (s, UiAction::Nothing, m),
        },
    }
}

/// `r` and `after` are the outcome `want` describes.
pub open spec fn stepped(r: (UiState, UiAction), after: UiModelView, want: Step) -> bool {
    r.0 == want.0 && r.1 == want.1 && after =~= want.2
}

impl UiModel {
    fn restore_query(&mut self)
        ensures
            final(self)@ =~= (UiModelView { input: old(self)@.entered, ..old(self)@ }),
    {
        let s = string_from_chars(self.entered.as_slice());
        self.input = chars_of(s.as_str());
    }

    fn list_move(&mut self, k: UiKey, vim: bool) -> (moved: bool)
        ensures
            moved == spec_list_move(old(self)@, k, vim) is Some,
            moved ==> final(self)@ =~= spec_list_move(old(self)@, k, vim).unwrap(),
            !moved ==> final(self)@ =~= old(self)@,
    {
        if k == UiKey::Up || (vim && k == UiKey::Char('k')) {
            self.list_up();
            true
        } else if k == UiKey::Down || (vim && k == UiKey::Char('j')) {
            self.list_down();
            true
        } else {
            false
        }
    }

    fn list_valid(&self) -> (r: Option<usize>)
        ensures
            r == (if valid(self.list_sel, self.list_len) { Some(list_index(self@)) } else { None::<usize> }),
    {
        valid_index(self.list_sel, self.list_len)
    }

    fn prompt(&mut self, k: UiKey, s: UiState, back: UiState, next: UiState, act: UiAction, clear: bool)
        -> (r: (UiState, UiAction))
        ensures
            stepped(r, final(self)@, spec_prompt(old(self)@, k, s, back, next, act, clear)),
    {
        if k == UiKey::Esc {
            self.clear_input();
            (back, UiAction::Nothing)
        } else if k == UiKey::Enter {
            let t = self.trimmed_input();
            if t.len() > 0 {
                self.entered = t;
                if clear {
                    self.clear_input();
                }
                (next, act)
            } else {
                (s, UiAction::Nothing)
            }
        } else {
            self.edit(k);
            (s, UiAction::Nothing)
        }
    }
}

impl UiModel {
    fn key_normal(&mut self, k: UiKey) -> (r: (UiState, UiAction))
        ensures
            stepped(r, final(self)@, spec_key_normal(old(self)@, k)),
    {
        let dash = self.tab == Tab::Dashboard;
        if k == UiKey::Char('q') {
            (UiState::Normal, UiAction::Quit)
        } else if k == UiKey::Tab {
            self.tab = self.tab.next();
            (UiState::Normal, UiAction::ClearStatus)
        } else if dash && is_letter(k, 'd', 'D') {
            (UiState::Normal, UiAction::Nothing)
        } else if dash && is_letter(k, 'i', 'I') {
            self.tab = Tab::Instances;
            (UiState::Normal, UiAction::Nothing)
        } else if dash && is_letter(k, 'a', 'A') {
            self.tab = Tab::Accounts;
            (UiState::Normal, UiAction::Nothing)
        } else if dash && is_letter(k, 's', 'S') {
            self.tab = Tab::Settings;
            (UiState::Normal, UiAction::Nothing)
        } else if dash && (k == UiKey::Enter || is_letter(k, 'l', 'L')) {
            (UiState::Normal, UiAction::Launch)
        } else {
            match self.tab {
                Tab::Dashboard => (UiState::Normal, UiAction::Nothing),
                Tab::Instances => self.key_instances(k),
                Tab::Accounts => self.key_accounts(k),
                Tab::Settings => self.key_settings(k),
            }
        }
    }

    fn key_instances(&mut self, k: UiKey) -> (r: (UiState, UiAction))
        ensures
            stepped(r, final(self)@, spec_key_instances(old(self)@, k)),
    {
        let ok = valid_index(self.instance_sel, self.instance_count).is_some();
        let some = self.instance_sel.is_some();
        let i = match self.instance_sel { Some(i) => i, None => 0 };
        if k == UiKey::Up {
            self.instance_sel = select_up(self.instance_sel);
            (UiState::Normal, UiAction::Nothing)
        } else if k == UiKey::Down {
            self.instance_sel = select_down(self.instance_sel, self.instance_count);
            (UiState::Normal, UiAction::Nothing)
        } else if k == UiKey::Enter {
            (UiState::Normal, if ok { UiAction::ActivateInstance { index: i } } else { UiAction::Nothing })
        } else if is_letter(k, 'n', 'N') {
            self.clear_input();
            (UiState::CreatingInstanceName, UiAction::Nothing)
        } else if is_letter(k, 'e', 'E') && some {
            (UiState::SelectInstanceFieldToEdit { instance: i }, UiAction::Nothing)
        } else if is_letter(k, 'd', 'D') && ok {
            (UiState::Normal, UiAction::DeleteInstance { index: i })
        } else if is_letter(k, 's', 'S') && ok {
            (UiState::SyncingInstanceMods, UiAction::SyncInstance { index: i })
        } else if is_letter(k, 'b', 'B') && ok {
            self.unlist();
            (UiState::BackupsMenu { instance: i }, UiAction::ListBackups { instance: i })
        } else if is_letter(k, 'm', 'M') && ok {
            self.unlist();
            (UiState::ModManager { instance: i }, UiAction::ListMods { instance: i })
        } else if is_letter(k, 'p', 'P') {
            (UiState::ModpackMenu { option: 0 }, UiAction::Nothing)
        } else if is_letter(k, 'x', 'X') && some {
            self.clear_input();
            (UiState::ExportingModpackPath { instance: i }, UiAction::Nothing)
        } else if is_letter(k, 'a', 'A') && ok {
            (UiState::AssetManager { instance: i, category: 0 }, UiAction::OpenAssetManager { instance: i })
        } else {
            (UiState::Normal, UiAction::Nothing)
        }
    }

    fn key_accounts(&mut self, k: UiKey) -> (r: (UiState, UiAction))
        ensures
            stepped(r, final(self)@, spec_key_accounts(old(self)@, k)),
    {
        let ok = valid_index(self.account_sel, self.account_count).is_some();
        let i = match self.account_sel { Some(i) => i, None => 0 };
        if k == UiKey::Up {
            self.account_sel = select_up(self.account_sel);
            (UiState::Normal, UiAction::Nothing)
        } else if k == UiKey::Down {
            self.account_sel = select_down(self.account_sel, self.account_count);
            (UiState::Normal, UiAction::Nothing)
        } else if k == UiKey::Enter {
            (UiState::Normal, if ok { UiAction::SelectAccount { index: i } } else { UiAction::Nothing })
        } else if is_letter(k, 'o', 'O') {
            (UiState::AddOfflineAccount, UiAction::ClearStatus)
        } else if is_letter(k, 'a', 'A') {
            (UiState::AddMicrosoftAccount, UiAction::StartMicrosoftLogin)
        } else if is_letter(k, 'x', 'X') && ok {
            (UiState::Normal, UiAction::RemoveAccount { index: i })
        } else {
            (UiState::Normal, UiAction::Nothing)
        }
    }

    fn key_settings(&mut self, k: UiKey) -> (r: (UiState, UiAction))
        ensures
            stepped(r, final(self)@, spec_key_settings(old(self)@, k)),
    {
        let i = match self.settings_sel { Some(i) => i, None => 0 };
        if k == UiKey::Up {
            self.settings_sel = select_up(self.settings_sel);
            (UiState::Normal, UiAction::Nothing)
        } else if k == UiKey::Down {
            self.settings_sel = select_down(self.settings_sel, 3);
            (UiState::Normal, UiAction::Nothing)
        } else if k == UiKey::Enter {
            (UiState::EditingSetting { field: i }, UiAction::LoadSetting { field: i })
        } else {
            (UiState::Normal, UiAction::Nothing)
        }
    }

    fn key_offline(&mut self, k: UiKey) -> (r: (UiState, UiAction))
        ensures
            stepped(r, final(self)@, spec_key_offline(old(self)@, k)),
    {
        if k == UiKey::Esc {
            self.clear_input();
            (UiState::Normal, UiAction::Nothing)
        } else if k == UiKey::Enter {
            let t = self.trimmed_input();
            if t.len() > 0 {
                self.entered = t;
                self.clear_input();
                self.tab = Tab::Accounts;
                (UiState::Normal, UiAction::AddOfflineAccount)
            } else {
                self.clear_input();
                (UiState::AddOfflineAccount, UiAction::Nothing)
            }
        } else {
            self.edit(k);
            (UiState::AddOfflineAccount, UiAction::Nothing)
        }
    }

    fn key_game(&mut self, k: UiKey) -> (r: (UiState, UiAction))
        ensures
            stepped(r, final(self)@, spec_key_game(old(self)@, k)),
    {
        let s = UiState::GameRunning;
        if k == UiKey::Esc {
            if self.game_finished { (UiState::Normal, UiAction::CloseGameLog) } else { (s, UiAction::Nothing) }
        } else if k == UiKey::Up {
            (s, UiAction::ScrollLog { key: LogKey::Up })
        } else if k == UiKey::Down {
            (s, UiAction::ScrollLog { key: LogKey::Down })
        } else if k == UiKey::PageUp {
            (s, UiAction::ScrollLog { key: LogKey::PageUp })
        } else if k == UiKey::PageDown {
            (s, UiAction::ScrollLog { key: LogKey::PageDown })
        } else if k == UiKey::End {
            (s, UiAction::ScrollLog { key: LogKey::End })
        } else {
            (s, UiAction::Nothing)
        }
    }

    fn key_version(&mut self, k: UiKey) -> (r: (UiState, UiAction))
        ensures
            stepped(r, final(self)@, spec_key_version(old(self)@, k)),
    {
        let s = UiState::CreatingInstanceVersion;
        let is_char = match k { UiKey::Char(_) => true, _ => false };
        if k == UiKey::Esc {
            self.clear_input();
            (UiState::Normal, UiAction::Nothing)
        } else if k == UiKey::F1 {
            self.filter_releases = !self.filter_releases;
            (s, UiAction::RefilterVersions)
        } else if k == UiKey::F2 {
            self.filter_snapshots = !self.filter_snapshots;
            (s, UiAction::RefilterVersions)
        } else if k == UiKey::Up {
            self.version_sel = select_up(self.version_sel);
            (s, UiAction::Nothing)
        } else if k == UiKey::Down {
            self.version_sel = select_down(self.version_sel, self.version_count);
            (s, UiAction::Nothing)
        } else if is_char || k == UiKey::Backspace {
            self.edit(k);
            (s, UiAction::RefilterVersions)
        } else if k == UiKey::Enter {
            match valid_index(self.version_sel, self.version_count) {
                Some(i) => (s, UiAction::FetchLoaders { version: i }),
                None => (s, UiAction::Nothing),
            }
        } else {
            (s, UiAction::Nothing)
        }
    }

    fn key_backups(&mut self, instance: usize, k: UiKey) -> (r: (UiState, UiAction))
        ensures
            stepped(r, final(self)@, spec_key_backups(old(self)@, instance, k)),
    {
        let s = UiState::BackupsMenu { instance };
        if k == UiKey::Esc {
            (UiState::Normal, UiAction::Nothing)
        } else if self.list_move(k, false) {
            (s, UiAction::Nothing)
        } else if is_letter(k, 'b', 'B') {
            (s, UiAction::CreateBackup { instance })
        } else if k == UiKey::Enter {
            match self.list_valid() {
                Some(i) => (s, UiAction::RestoreBackup { instance, index: i }),
                None => (s, UiAction::Nothing),
            }
        } else {
            (s, UiAction::Nothing)
        }
    }

    fn key_loader(&mut self, k: UiKey) -> (r: (UiState, UiAction))
        ensures
            stepped(r, final(self)@, spec_key_loader(old(self)@, k)),
    {
        let s = UiState::ChoosingModLoader;
        if k == UiKey::Esc {
            self.clear_input();
            (UiState::Normal, UiAction::CreateVanillaInstance)
        } else if self.list_move(k, false) {
            (s, UiAction::Nothing)
        } else if k == UiKey::Enter {
            match self.list_valid() {
                Some(i) => (s, UiAction::InstallLoader { option: i }),
                None => (s, UiAction::Nothing),
            }
        } else {
            (s, UiAction::Nothing)
        }
    }

    fn key_mods(&mut self, instance: usize, k: UiKey) -> (r: (UiState, UiAction))
        ensures
            stepped(r, final(self)@, spec_key_mods(old(self)@, instance, k)),
    {
        let s = UiState::ModManager { instance };
        let sel = self.list_valid();
        if k == UiKey::Esc {
            (UiState::Normal, UiAction::Nothing)
        } else if self.list_move(k, false) {
            (s, UiAction::Nothing)
        } else if (k == UiKey::Enter || k == UiKey::Char(' ')) && sel.is_some() {
            (s, UiAction::ToggleMod { instance, index: sel.unwrap() })
        } else if k == UiKey::Char('a') {
            self.clear_input();
            (UiState::SearchingModQuery { instance, kind: SearchKind::Mod }, UiAction::Nothing)
        } else if (k == UiKey::Char('d') || k == UiKey::Backspace) && sel.is_some() {
            (s, UiAction::DeleteMod { instance, index: sel.unwrap() })
        } else {
            (s, UiAction::Nothing)
        }
    }

    fn key_modpack_menu(&mut self, option: usize, k: UiKey) -> (r: (UiState, UiAction))
        ensures
            stepped(r, final(self)@, spec_key_modpack_menu(old(self)@, option, k)),
    {
        if k == UiKey::Esc {
            (UiState::Normal, UiAction::Nothing)
        } else if k == UiKey::Up || k == UiKey::Char('k') {
            (UiState::ModpackMenu { option: if option > 0 { option - 1 } else { option } }, UiAction::Nothing)
        } else if k == UiKey::Down || k == UiKey::Char('j') {
            (UiState::ModpackMenu { option: if option < 1 { option + 1 } else { option } }, UiAction::Nothing)
        } else if k == UiKey::Enter {
            self.clear_input();
            (if option == 0 { UiState::SearchingModpackQuery } else { UiState::ImportingModpackPath },
                UiAction::Nothing)
        } else {
            (UiState::ModpackMenu { option }, UiAction::Nothing)
        }
    }

    fn key_modpack_results(&mut self, k: UiKey) -> (r: (UiState, UiAction))
        ensures
            stepped(r, final(self)@, spec_key_modpack_results(old(self)@, k)),
    {
        let s = UiState::SearchingModpackResults;
        if k == UiKey::Esc {
            self.restore_query();
            (UiState::SearchingModpackQuery, UiAction::Nothing)
        } else if self.list_move(k, true) {
            (s, UiAction::Nothing)
        } else if k == UiKey::Enter {
            match self.list_valid() {
                Some(i) => (UiState::SearchingModpackVersionsLoading, UiAction::FetchModpackVersions { hit: i }),
                None => (s, UiAction::Nothing),
            }
        } else {
            (s, UiAction::Nothing)
        }
    }

    fn key_modpack_versions(&mut self, k: UiKey) -> (r: (UiState, UiAction))
        ensures
            stepped(r, final(self)@, spec_key_modpack_versions(old(self)@, k)),
    {
        let s = UiState::SearchingModpackVersions;
        if k == UiKey::Esc {
            (UiState::Normal, UiAction::Nothing)
        } else if self.list_move(k, true) {
            (s, UiAction::Nothing)
        } else if k == UiKey::Enter {
            match self.list_valid() {
                Some(i) => (s, UiAction::PickModpackVersion { version: i }),
                None => (s, UiAction::Nothing),
            }
        } else {
            (s, UiAction::Nothing)
        }
    }

    fn key_mod_results(&mut self, instance: usize, kind: SearchKind, k: UiKey) -> (r: (UiState, UiAction))
        ensures
            stepped(r, final(self)@, spec_key_mod_results(old(self)@, instance, kind, k)),
    {
        let s = UiState::SearchingModResults { instance, kind };
        if k == UiKey::Esc {
            self.restore_query();
            (UiState::SearchingModQuery { instance, kind }, UiAction::Nothing)
        } else if self.list_move(k, true) {
            (s, UiAction::Nothing)
        } else if k == UiKey::Enter {
            match self.list_valid() {
                Some(i) => (UiState::SearchingModVersionsLoading { instance, kind },
                    UiAction::FetchAssetVersions { instance, kind, hit: i }),
                None => (s, UiAction::Nothing),
            }
        } else {
            (s, UiAction::Nothing)
        }
    }

    fn key_mod_versions(&mut self, instance: usize, kind: SearchKind, k: UiKey) -> (r: (UiState, UiAction))
        ensures
            stepped(r, final(self)@, spec_key_mod_versions(old(self)@, instance, kind, k)),
    {
        let s = UiState::SearchingModVersions { instance, kind };
        if k == UiKey::Esc {
            (UiState::SearchingModLoading { instance, kind }, UiAction::SearchAssets { instance, kind })
        } else if self.list_move(k, true) {
            (s, UiAction::Nothing)
        } else if k == UiKey::Enter {
            match self.list_valid() {
                Some(i) => (UiState::InstallingModProgress { instance, kind },
                    UiAction::InstallAsset { instance, kind, version: i }),
                None => (s, UiAction::Nothing),
            }
        } else {
            (s, UiAction::Nothing)
        }
    }

    fn key_assets(&mut self, instance: usize, category: usize, k: UiKey) -> (r: (UiState, UiAction))
        ensures
            stepped(r, final(self)@, spec_key_assets(old(self)@, instance, category, k)),
    {
        if k == UiKey::Esc {
            (UiState::Normal, UiAction::Nothing)
        } else if k == UiKey::Up || k == UiKey::Char('k') {
            (UiState::AssetManager { instance, category: category_up(category) }, UiAction::Nothing)
        } else if k == UiKey::Down || k == UiKey::Char('j') {
            (UiState::AssetManager { instance, category: category_down(category) }, UiAction::Nothing)
        } else if k == UiKey::Enter && category < 4 {
            self.unlist();
            (if category == 0 {
                UiState::WorldManager { instance, confirm_delete: false }
            } else if category == 1 {
                UiState::ResourcePackManager { instance }
            } else if category == 2 {
                UiState::ShaderPackManager { instance }
            } else {
                UiState::ScreenshotManager { instance, confirm_delete: false }
            }, UiAction::ListAssets { instance, category })
        } else {
            (UiState::AssetManager { instance, category }, UiAction::Nothing)
        }
    }

    fn key_worlds(&mut self, instance: usize, confirm: bool, k: UiKey) -> (r: (UiState, UiAction))
        ensures
            stepped(r, final(self)@, spec_key_worlds(old(self)@, instance, confirm, k)),
    {
        let s = UiState::WorldManager { instance, confirm_delete: false };
        let sel = self.list_valid();
        let ok = sel.is_some();
        let i = match self.list_sel { Some(i) => i, None => 0 };
        if confirm {
            (s, if is_letter(k, 'y', 'Y') && ok { UiAction::DeleteWorld { instance, index: i } } else { UiAction::Nothing })
        } else if k == UiKey::Esc {
            (UiState::AssetManager { instance, category: 0 }, UiAction::OpenAssetManager { instance })
        } else if self.list_move(k, false) {
            (s, UiAction::Nothing)
        } else if is_letter(k, 'd', 'D') && ok {
            (UiState::WorldManager { instance, confirm_delete: true }, UiAction::Nothing)
        } else if is_letter(k, 'a', 'A') && ok {
            self.clear_input();
            (UiState::SearchingModQuery { instance, kind: SearchKind::Datapack },
                UiAction::PickDatapackWorld { instance, index: i })
        } else if is_letter(k, 'p', 'P') {
            self.clear_input();
            (UiState::PromptWorldNameForDatapack { instance }, UiAction::Nothing)
        } else if is_letter(k, 'b', 'B') && ok {
            (s, UiAction::BackupWorld { instance, index: i })
        } else if is_letter(k, 'r', 'R') && ok {
            (UiState::PromptRenameAsset { instance, kind: AssetKind::World },
                UiAction::BeginRename { instance, kind: AssetKind::World, index: i })
        } else {
            (s, UiAction::Nothing)
        }
    }

    fn key_packs(&mut self, instance: usize, kind: AssetKind, k: UiKey) -> (r: (UiState, UiAction))
        ensures
            stepped(r, final(self)@, spec_key_packs(old(self)@, instance, kind, k)),
    {
        let s = match kind {
            AssetKind::World => UiState::WorldManager { instance, confirm_delete: false },
            AssetKind::ResourcePack => UiState::ResourcePackManager { instance },
            AssetKind::Shader => UiState::ShaderPackManager { instance },
        };
        let category: usize = match kind {
            AssetKind::World => 0,
            AssetKind::ResourcePack => 1,
            AssetKind::Shader => 2,
        };
        let sel = self.list_valid();
        let ok = sel.is_some();
        let i = match self.list_sel { Some(i) => i, None => 0 };
        let search = if kind == AssetKind::Shader { SearchKind::Shader } else { SearchKind::ResourcePack };
        if k == UiKey::Esc {
            (UiState::AssetManager { instance, category }, UiAction::OpenAssetManager { instance })
        } else if self.list_move(k, false) {
            (s, UiAction::Nothing)
        } else if (k == UiKey::Enter || k == UiKey::Char(' ')) && ok {
            (s, UiAction::ToggleAsset { instance, kind, index: i })
        } else if kind == AssetKind::Shader && is_letter(k, 'i', 'I') && !self.shader_support {
            (UiState::InstallingShaderSupport { instance }, UiAction::InstallShaderSupport { instance })
        } else if k == UiKey::Char('a') {
            self.clear_input();
            (UiState::SearchingModQuery { instance, kind: search }, UiAction::Nothing)
        } else if is_letter(k, 'r', 'R') && ok {
            (UiState::PromptRenameAsset { instance, kind }, UiAction::BeginRename { instance, kind, index: i })
        } else if (k == UiKey::Char('d') || k == UiKey::Backspace) && ok {
            (s, UiAction::DeleteAsset { instance, kind, index: i })
        } else {
            (s, UiAction::Nothing)
        }
    }

    fn key_screenshots(&mut self, instance: usize, confirm: bool, k: UiKey) -> (r: (UiState, UiAction))
        ensures
            stepped(r, final(self)@, spec_key_screenshots(old(self)@, instance, confirm, k)),
    {
        let s = UiState::ScreenshotManager { instance, confirm_delete: false };
        let sel = self.list_valid();
        let ok = sel.is_some();
        let i = match self.list_sel { Some(i) => i, None => 0 };
        if confirm {
            (s, if is_letter(k, 'y', 'Y') && ok {
                UiAction::DeleteScreenshot { instance, index: i }
            } else {
                UiAction::Nothing
            })
        } else if k == UiKey::Esc {
            (UiState::AssetManager { instance, category: 3 }, UiAction::OpenAssetManager { instance })
        } else if self.list_move(k, false) {
            (s, UiAction::Nothing)
        } else if is_letter(k, 'd', 'D') && ok {
            (UiState::ScreenshotManager { instance, confirm_delete: true }, UiAction::Nothing)
        } else {
            (s, UiAction::Nothing)
        }
    }
}

/// One key press on screen `state`: the next screen, the work to perform,
/// and the model updated as `spec_on_key` says.
pub fn on_key(model: &mut UiModel, state: UiState, key: UiKey) -> (r: (UiState, UiAction))
    ensures
        stepped(r, final(model)@, spec_on_key(old(model)@, state, key)),
{
    let k = key;
    match state {
        UiState::Normal => model.key_normal(k),
        UiState::AddOfflineAccount => model.key_offline(k),
        UiState::AddMicrosoftAccount => if k == UiKey::Esc {
            (UiState::Normal, UiAction::CancelMicrosoftLogin)
        } else {
            (state, UiAction::Nothing)
        },
        UiState::EditingSetting { field } => if k == UiKey::Esc {
            (UiState::Normal, UiAction::Nothing)
        } else if k == UiKey::Enter {
            model.submit();
            (UiState::Normal, UiAction::SaveSetting { field })
        } else {
            model.edit(k);
            (state, UiAction::Nothing)
        },
        UiState::SelectInstanceFieldToEdit { instance } => if k == UiKey::Esc {
            (UiState::Normal, UiAction::Nothing)
        } else if k == UiKey::Char('1') {
            (UiState::EditingInstanceSetting { instance, field: 1 }, UiAction::LoadInstanceField { instance, field: 1 })
        } else if k == UiKey::Char('2') {
            (UiState::EditingInstanceSetting { instance, field: 2 }, UiAction::LoadInstanceField { instance, field: 2 })
        } else {
            (state, UiAction::Nothing)
        },
        UiState::EditingInstanceSetting { instance, field } => if k == UiKey::Esc {
            (UiState::SelectInstanceFieldToEdit { instance }, UiAction::Nothing)
        } else if k == UiKey::Enter {
            model.submit();
            (UiState::Normal, UiAction::SaveInstanceField { instance, field })
        } else {
            model.edit(k);
            (state, UiAction::Nothing)
        },
        UiState::GameRunning => model.key_game(k),
        UiState::CreatingInstanceName => if k == UiKey::Esc {
            model.clear_input();
            (UiState::Normal, UiAction::Nothing)
        } else if k == UiKey::Enter {
            let t = model.trimmed_input();
            if t.len() > 0 {
                model.entered = t;
                model.clear_input();
                model.version_sel = Some(0);
                (UiState::CreatingInstanceVersion, UiAction::PrepareVersions)
            } else {
                (state, UiAction::Nothing)
            }
        } else {
            model.edit(k);
            (state, UiAction::Nothing)
        },
        UiState::CreatingInstanceVersion => model.key_version(k),
        UiState::BackupsMenu { instance } => model.key_backups(instance, k),
        UiState::ChoosingModLoader => model.key_loader(k),
        UiState::ModManager { instance } => model.key_mods(instance, k),
        UiState::ImportingModpackPath => if k == UiKey::Esc {
            model.clear_input();
            (UiState::Normal, UiAction::Nothing)
        } else if k == UiKey::Enter {
            model.submit();
            (state, UiAction::CheckModpackFile)
        } else {
            model.edit(k);
            (state, UiAction::Nothing)
        },
        UiState::ImportingModpackId => model.prompt(k, state, UiState::Normal,
            UiState::ImportingModpackProgress, UiAction::ImportModpack, true),
        UiState::ModpackMenu { option } => model.key_modpack_menu(option, k),
        UiState::SearchingModpackQuery => model.prompt(k, state, UiState::ModpackMenu { option: 0 },
            UiState::SearchingModpackLoading, UiAction::SearchModpacks, false),
        UiState::SearchingModpackResults => model.key_modpack_results(k),
        UiState::SearchingModpackVersions => model.key_modpack_versions(k),
        UiState::SearchingModpackConfirmId => model.prompt(k, state, UiState::Normal,
            UiState::ImportingModpackProgress, UiAction::DownloadModpack, true),
        UiState::ExportingModpackPath { instance } => model.prompt(k, state, UiState::Normal,
            UiState::Normal, UiAction::ExportModpack { instance }, true),
        UiState::SearchingModQuery { instance, kind } => if k == UiKey::Esc {
            model.clear_input();
            model.unlist();
            let back = match kind {
                SearchKind::Mod => UiState::ModManager { instance },
                SearchKind::Shader => UiState::ShaderPackManager { instance },
                SearchKind::ResourcePack => UiState::ResourcePackManager { instance },
                SearchKind::Datapack => UiState::WorldManager { instance, confirm_delete: false },
            };
            let relist = match kind {
                SearchKind::Mod => UiAction::ListMods { instance },
                SearchKind::Shader => UiAction::ListAssets { instance, category: 2 },
                SearchKind::ResourcePack => UiAction::ListAssets { instance, category: 1 },
                SearchKind::Datapack => UiAction::ListAssets { instance, category: 0 },
            };
            (back, relist)
        } else {
            model.prompt(k, state, state, UiState::SearchingModLoading { instance, kind },
                UiAction::SearchAssets { instance, kind }, false)
        },
        UiState::SearchingModResults { instance, kind } => model.key_mod_results(instance, kind, k),
        UiState::SearchingModVersions { instance, kind } => model.key_mod_versions(instance, kind, k),
        UiState::AssetManager { instance, category } => model.key_assets(instance, category, k),
        UiState::WorldManager { instance, confirm_delete } => model.key_worlds(instance, confirm_delete, k),
        UiState::PromptWorldNameForDatapack { instance } => if k == UiKey::Esc {
            model.unlist();
            (UiState::WorldManager { instance, confirm_delete: false }, UiAction::ListAssets { instance, category: 0 })
        } else {
            model.prompt(k, state, state, UiState::SearchingModQuery { instance, kind: SearchKind::Datapack },
                UiAction::NameDatapackWorld { instance }, true)
        },
        UiState::ResourcePackManager { instance } => model.key_packs(instance, AssetKind::ResourcePack, k),
        UiState::ShaderPackManager { instance } => model.key_packs(instance, AssetKind::Shader, k),
        UiState::ScreenshotManager { instance, confirm_delete } => model.key_screenshots(instance, confirm_delete, k),
        UiState::PromptRenameAsset { instance, kind } => {
            let screen = match kind {
                AssetKind::World => UiState::WorldManager { instance, confirm_delete: false },
                AssetKind::ResourcePack => UiState::ResourcePackManager { instance },
                AssetKind::Shader => UiState::ShaderPackManager { instance },
            };
            if k == UiKey::Esc {
                let category: usize = match kind {
                    AssetKind::World => 0,
                    AssetKind::ResourcePack => 1,
                    AssetKind::Shader => 2,
                };
                model.unlist();
                (screen, UiAction::ListAssets { instance, category })
            } else {
                model.prompt(k, state, state, screen, UiAction::Rename { instance, kind }, false)
            }
        },
        _ => (state, UiAction::Nothing),
    }
}

/// A report from the caller on screen `state`: the next screen, follow-up
/// work, and the model updated as `spec_on_event` says.
pub fn on_event(model: &mut UiModel, state: UiState, event: UiEvent) -> (r: (UiState, UiAction))
    ensures
        stepped(r, final(model)@, spec_on_event(old(model)@, state, event)),
{
    match event {
        UiEvent::DownloadStarted => (UiState::Downloading, UiAction::Nothing),
        UiEvent::GameStarted => {
            model.game_finished = false;
            (UiState::GameRunning, UiAction::Nothing)
        },
        UiEvent::Loaded { len } => {
            model.list(len);
            match state {
                UiState::SearchingModpackLoading => (UiState::SearchingModpackResults, UiAction::Nothing),
                UiState::SearchingModpackVersionsLoading => (UiState::SearchingModpackVersions, UiAction::Nothing),
                UiState::SearchingModLoading { instance, kind } =>
                    (UiState::SearchingModResults { instance, kind }, UiAction::Nothing),
                UiState::SearchingModVersionsLoading { instance, kind } => if len == 0 {
                    (UiState::SearchingModQuery { instance, kind }, UiAction::Nothing)
                } else {
                    (UiState::SearchingModVersions { instance, kind }, UiAction::Nothing)
                },
                UiState::CreatingInstanceVersion => {
                    model.clear_input();
                    (UiState::ChoosingModLoader, UiAction::Nothing)
                },
                _ => (state, UiAction::Nothing),
            }
        },
        UiEvent::Finished => match state {
            UiState::AddMicrosoftAccount => {
                model.tab = Tab::Accounts;
                (UiState::Normal, UiAction::Nothing)
            },
            UiState::Downloading | UiState::SyncingInstanceMods | UiState::ImportingModpackProgress
            | UiState::BackupsMenu { .. } | UiState::ChoosingModLoader => (UiState::Normal, UiAction::Nothing),
            UiState::InstallingModProgress { instance, kind } => {
                model.unlist();
                after_install(instance, kind)
            },
            UiState::InstallingShaderSupport { instance } => {
                model.unlist();
                (UiState::ShaderPackManager { instance }, UiAction::ListAssets { instance, category: 2 })
            },
            UiState::ImportingModpackPath => {
                model.clear_input();
                (UiState::ImportingModpackId, UiAction::Nothing)
            },
            UiState::SearchingModpackVersions => (UiState::SearchingModpackConfirmId, UiAction::Nothing),
            UiState::GameRunning => {
                model.game_finished = true;
                (state, UiAction::Nothing)
            },
            _ => (state, UiAction::Nothing),
        },
        UiEvent::Failed => match state {
            UiState::AddMicrosoftAccount | UiState::Downloading | UiState::SyncingInstanceMods
            | UiState::ImportingModpackProgress | UiState::SearchingModpackVersionsLoading
            | UiState::SearchingModVersionsLoading { .. } => (UiState::Normal, UiAction::Nothing),
            UiState::SearchingModpackLoading => (UiState::SearchingModpackQuery, UiAction::Nothing),
            UiState::SearchingModLoading { instance, kind } =>
                (UiState::SearchingModQuery { instance, kind }, UiAction::Nothing),
            UiState::InstallingModProgress { instance, kind } => {
                model.unlist();
                after_install(instance, kind)
            },
            UiState::InstallingShaderSupport { instance } => {
                model.unlist();
                (UiState::ShaderPackManager { instance }, UiAction::ListAssets { instance, category: 2 })
            },
            UiState::GameRunning => {
                model.game_finished = true;
                (state, UiAction::Nothing)
            },
            _ => (state, UiAction::Nothing),
        },
    }
}

fn after_install(instance: usize, kind: SearchKind) -> (r: (UiState, UiAction))
    ensures
        r == (manager_of(instance, kind), relist_of(instance, kind)),
{
    match kind {
        SearchKind::Mod => (UiState::ModManager { instance }, UiAction::ListMods { instance }),
        SearchKind::Shader => (UiState::ShaderPackManager { instance }, UiAction::ListAssets { instance, category: 2 }),
        SearchKind::ResourcePack =>
            (UiState::ResourcePackManager { instance }, UiAction::ListAssets { instance, category: 1 }),
        SearchKind::Datapack =>
            (UiState::WorldManager { instance, confirm_delete: false }, UiAction::ListAssets { instance, category: 0 }),
    }
}

/// Every selection points into its list (or there is none).
pub open spec fn selections_in_range(m: UiModelView) -> bool {
    &&& (m.instance_sel matches Some(i) ==> i < m.instance_count)
    &&& (m.account_sel matches Some(i) ==> i < m.account_count)
    &&& (m.settings_sel matches Some(i) ==> i < 3)
    &&& (m.version_sel matches Some(i) ==> i < m.version_count)
    &&& (m.list_sel matches Some(i) ==> i < m.list_len)
}

/// The screens on which a job runs or a list loads: keys do nothing there.
pub open spec fn is_busy(s: UiState) -> bool {
    s is Downloading || s is SyncingInstanceMods || s is ImportingModpackProgress
        || s is InstallingModProgress || s is InstallingShaderSupport || s is SearchingModpackLoading
        || s is SearchingModpackVersionsLoading || s is SearchingModLoading || s is SearchingModVersionsLoading
}

/// No key moves a selection out of its list.
pub proof fn lemma_keys_keep_selections_in_range(m: UiModelView, s: UiState, k: UiKey)
    requires
        selections_in_range(m),
        s is CreatingInstanceName ==> m.version_count > 0,
    ensures
        selections_in_range(spec_on_key(m, s, k).2),
{
    match s {
        UiState::Normal => range_normal(m, k),
        UiState::CreatingInstanceVersion => range_version(m, k),
        UiState::BackupsMenu { instance } => range_lists_a(m, s, k),
        UiState::ChoosingModLoader => range_lists_a(m, s, k),
        UiState::ModManager { instance } => range_lists_a(m, s, k),
        UiState::SearchingModpackResults => range_lists_b(m, s, k),
        UiState::SearchingModpackVersions => range_lists_b(m, s, k),
        UiState::SearchingModResults { instance, kind } => range_lists_b(m, s, k),
        UiState::SearchingModVersions { instance, kind } => range_lists_b(m, s, k),
        UiState::WorldManager { instance, confirm_delete } => range_lists_c(m, s, k),
        UiState::ResourcePackManager { instance } => range_lists_c(m, s, k),
        UiState::ShaderPackManager { instance } => range_lists_c(m, s, k),
        UiState::ScreenshotManager { instance, confirm_delete } => range_lists_c(m, s, k),
        _ => range_rest(m, s, k),
    }
}

proof fn range_normal(m: UiModelView, k: UiKey)
    requires
        selections_in_range(m),
    ensures
        selections_in_range(spec_key_normal(m, k).2),
{
    match m.tab {
        Tab::Dashboard => {},
        Tab::Instances => assert(selections_in_range(spec_key_instances(m, k).2)),
        Tab::Accounts => assert(selections_in_range(spec_key_accounts(m, k).2)),
        Tab::Settings => assert(selections_in_range(spec_key_settings(m, k).2)),
    }
}

proof fn range_version(m: UiModelView, k: UiKey)
    requires
        selections_in_range(m),
    ensures
        selections_in_range(spec_key_version(m, k).2),
{
}

proof fn range_lists_a(m: UiModelView, s: UiState, k: UiKey)
    requires
        selections_in_range(m),
        s is BackupsMenu || s is ChoosingModLoader || s is ModManager,
    ensures
        selections_in_range(spec_on_key(m, s, k).2),
{
}

proof fn range_lists_b(m: UiModelView, s: UiState, k: UiKey)
    requires
        selections_in_range(m),
        s is SearchingModpackResults || s is SearchingModpackVersions || s is SearchingModResults
            || s is SearchingModVersions,
    ensures
        selections_in_range(spec_on_key(m, s, k).2),
{
}

proof fn range_lists_c(m: UiModelView, s: UiState, k: UiKey)
    requires
        selections_in_range(m),
        s is WorldManager || s is ResourcePackManager || s is ShaderPackManager || s is ScreenshotManager,
    ensures
        selections_in_range(spec_on_key(m, s, k).2),
{
}

proof fn range_rest(m: UiModelView, s: UiState, k: UiKey)
    requires
        selections_in_range(m),
        s is CreatingInstanceName ==> m.version_count > 0,
        !(s is Normal || s is CreatingInstanceVersion || s is BackupsMenu || s is ChoosingModLoader
            || s is ModManager || s is SearchingModpackResults || s is SearchingModpackVersions
            || s is SearchingModResults || s is SearchingModVersions || s is WorldManager
            || s is ResourcePackManager || s is ShaderPackManager || s is ScreenshotManager),
    ensures
        selections_in_range(spec_on_key(m, s, k).2),
{
}

/// Reports keep every selection inside its list as well.
pub proof fn lemma_events_keep_selections_in_range(m: UiModelView, s: UiState, e: UiEvent)
    requires
        selections_in_range(m),
    ensures
        selections_in_range(spec_on_event(m, s, e).2),
{
}

/// While a job runs or a list loads, keys change nothing and ask for
/// nothing.
pub proof fn lemma_busy_screens_ignore_keys(m: UiModelView, s: UiState, k: UiKey)
    requires
        is_busy(s),
    ensures
        spec_on_key(m, s, k) == (s, UiAction::Nothing, m),
{
}

/// On a text prompt, typing a character and then Backspace leaves the
/// screen and the model as they were.
pub proof fn lemma_backspace_undoes_typing(m: UiModelView, s: UiState, c: char)
    requires
        s is AddOfflineAccount || s is EditingSetting || s is EditingInstanceSetting
            || s is CreatingInstanceName || s is ImportingModpackPath || s is ImportingModpackId
            || s is SearchingModpackQuery || s is SearchingModpackConfirmId || s is ExportingModpackPath
            || s is SearchingModQuery || s is PromptWorldNameForDatapack || s is PromptRenameAsset,
    ensures
        ({
            let first = spec_on_key(m, s, UiKey::Char(c));
            let second = spec_on_key(first.2, first.0, UiKey::Backspace);
            first.0 == s && first.1 == UiAction::Nothing && second.0 == s && second.2 == m
        }),
{
    let first = spec_on_key(m, s, UiKey::Char(c));
    assert(first.2.input.subrange(0, first.2.input.len() - 1) =~= m.input);
    assert(spec_on_key(first.2, first.0, UiKey::Backspace).2 =~= m);
}

/// Pressing Tab four times on the main screen shows the tab one started
/// from.
pub proof fn lemma_four_tabs_return(m: UiModelView)
    ensures
        ({
            let a = spec_on_key(m, UiState::Normal, UiKey::Tab);
            let b = spec_on_key(a.2, a.0, UiKey::Tab);
            let c = spec_on_key(b.2, b.0, UiKey::Tab);
            let d = spec_on_key(c.2, c.0, UiKey::Tab);
            d.0 == UiState::Normal && d.2 == m
        }),
{
    let a = spec_on_key(m, UiState::Normal, UiKey::Tab);
    let b = spec_on_key(a.2, a.0, UiKey::Tab);
    let c = spec_on_key(b.2, b.0, UiKey::Tab);
    let d = spec_on_key(c.2, c.0, UiKey::Tab);
    assert(d.2 =~= m);
}

/// A finished sign-in returns to the main screen and shows the accounts.
pub proof fn lemma_signin_shows_accounts(m: UiModelView)
    ensures
        spec_on_event(m, UiState::AddMicrosoftAccount, UiEvent::Finished).0 == UiState::Normal,
        spec_on_event(m, UiState::AddMicrosoftAccount, UiEvent::Finished).2.tab == Tab::Accounts,
{
}

/// On the accounts tab the keys that act on an account act on the selected
/// one: Enter selects it, 'x' removes it; the screen stays on the main
/// screen and the model is unchanged.
pub proof fn lemma_account_keys_use_selection(m: UiModelView, i: usize)
    requires
        m.tab == Tab::Accounts,
        m.account_sel == Some(i),
        i < m.account_count,
    ensures
        spec_on_key(m, UiState::Normal, UiKey::Char('x')) == (UiState::Normal, (UiAction::RemoveAccount { index: i }), m),
        spec_on_key(m, UiState::Normal, UiKey::Char('X')) == (UiState::Normal, (UiAction::RemoveAccount { index: i }), m),
        spec_on_key(m, UiState::Normal, UiKey::Enter) == (UiState::Normal, (UiAction::SelectAccount { index: i }), m),
{
}

/// Without a selection inside the list, 'x' and Enter on the accounts tab
/// remove or select nothing.
pub proof fn lemma_account_keys_need_selection(m: UiModelView)
    requires
        m.tab == Tab::Accounts,
        !(m.account_sel matches Some(i) && i < m.account_count),
    ensures
        spec_on_key(m, UiState::Normal, UiKey::Char('x')).1 == UiAction::Nothing,
        spec_on_key(m, UiState::Normal, UiKey::Enter).1 == UiAction::Nothing,
{
}

/// On the instances tab the keys that act on an instance act on the
/// selected one.
pub proof fn lemma_instance_keys_use_selection(m: UiModelView, i: usize)
    requires
        m.tab == Tab::Instances,
        m.instance_sel == Some(i),
        i < m.instance_count,
    ensures
        spec_on_key(m, UiState::Normal, UiKey::Enter).1 == (UiAction::ActivateInstance { index: i }),
        spec_on_key(m, UiState::Normal, UiKey::Char('d')).1 == (UiAction::DeleteInstance { index: i }),
        spec_on_key(m, UiState::Normal, UiKey::Char('s')).1 == (UiAction::SyncInstance { index: i }),
        spec_on_key(m, UiState::Normal, UiKey::Char('b')).0 == (UiState::BackupsMenu { instance: i }),
        spec_on_key(m, UiState::Normal, UiKey::Char('m')).0 == (UiState::ModManager { instance: i }),
        spec_on_key(m, UiState::Normal, UiKey::Char('e')).0 == (UiState::SelectInstanceFieldToEdit { instance: i }),
        spec_on_key(m, UiState::Normal, UiKey::Char('x')).0 == (UiState::ExportingModpackPath { instance: i }),
        spec_on_key(m, UiState::Normal, UiKey::Char('a')).0 == (UiState::AssetManager { instance: i, category: 0 }),
{
}

/// On a list screen the entry an action names is the selected entry.
pub proof fn lemma_list_actions_use_selection(m: UiModelView, instance: usize, i: usize)
    requires
        m.list_sel == Some(i),
        i < m.list_len,
    ensures
        spec_on_key(m, (UiState::BackupsMenu { instance }), UiKey::Enter).1
            == (UiAction::RestoreBackup { instance, index: i }),
        spec_on_key(m, UiState::ChoosingModLoader, UiKey::Enter).1 == (UiAction::InstallLoader { option: i }),
        spec_on_key(m, (UiState::ModManager { instance }), UiKey::Enter).1 == (UiAction::ToggleMod { instance, index: i }),
        spec_on_key(m, (UiState::ModManager { instance }), UiKey::Char('d')).1 == (UiAction::DeleteMod { instance, index: i }),
        spec_on_key(m, (UiState::ResourcePackManager { instance }), UiKey::Char('d')).1
            == (UiAction::DeleteAsset { instance, kind: AssetKind::ResourcePack, index: i }),
        spec_on_key(m, (UiState::WorldManager { instance, confirm_delete: true }), UiKey::Char('y')).1
            == (UiAction::DeleteWorld { instance, index: i }),
        spec_on_key(m, (UiState::ScreenshotManager { instance, confirm_delete: true }), UiKey::Char('y')).1
            == (UiAction::DeleteScreenshot { instance, index: i }),
        spec_on_key(m, UiState::SearchingModpackResults, UiKey::Enter).1 == (UiAction::FetchModpackVersions { hit: i }),
{
}

} // verus!
