//! Progress of background work (downloads, mod syncs, imports, installs) as
//! the interface shows it: a state that each progress report updates.
use vstd::prelude::*;
use crate::text::{concat, decimal, spec_decimal};

verus! {

/// A report from background work.
pub enum ProgressUpdate {
    Started { total: usize, message: String },
    Progress { completed: usize, total: usize, current_file: String },
    Message(String),
    Finished,
    Error(String),
}

/// Which kind of work a progress view follows; it decides what goes into
/// the log.
#[derive(PartialEq, Eq, Structural, Clone, Copy, Debug)]
pub enum ProgressKind {
    /// Game files: "Task: ..." on start, "[c/t] Downloaded f" every 10 files.
    Download,
    /// Mods of an instance: "Sync: ..." on start, "[c/t] Synced f" every 5.
    Sync,
    /// A modpack: "Import: ..." on start, "[c/t] Imported f" every 5.
    Import,
    /// One mod or pack: nothing is logged.
    ModInstall,
    /// Shader support: start and messages logged, "Installing: f" per file.
    ShaderInstall,
}

/// What the work has come to after a report.
pub enum ProgressOutcome {
    Running,
    Finished,
    Failed(String),
}

/// Counters, current file, last message and log lines of running work.
pub struct ProgressView {
    pub completed: usize,
    pub total: usize,
    pub current_file: String,
    pub message: String,
    pub logs: Vec<String>,
}

/// "[c/t] " followed by `verb` and the file.
pub open spec fn spec_progress_line(c: usize, t: usize, verb: Seq<char>, f: Seq<char>) -> Seq<char> {
    "["@ + spec_decimal(c as nat) + "/"@ + spec_decimal(t as nat) + "] "@ + verb + " "@ + f
}

fn progress_line(c: usize, t: usize, verb: &str, f: &str) -> (r: String)
    ensures
        r@ == spec_progress_line(c, t, verb@, f@),
{
    let cs = decimal(c);
    let ts = decimal(t);
    let s = concat("[", cs.as_str());
    let s = concat(s.as_str(), "/");
    let s = concat(s.as_str(), ts.as_str());
    let s = concat(s.as_str(), "] ");
    let s = concat(s.as_str(), verb);
    let s = concat(s.as_str(), " ");
    concat(s.as_str(), f)
}

impl ProgressKind {
    /// The prefix of the log line of a start report, if it is logged.
    pub open spec fn spec_start_prefix(self) -> Option<Seq<char>> {
        match self {
            ProgressKind::Download => Some("Task: "@),
            ProgressKind::Sync => Some("Sync: "@),
            ProgressKind::Import => Some("Import: "@),
            ProgressKind::ModInstall => None,
            ProgressKind::ShaderInstall => Some(""@),
        }
    }

    /// The log line of a progress report, if it is logged.
    pub open spec fn spec_progress_log(self, c: usize, t: usize, f: Seq<char>) -> Option<Seq<char>> {
        match self {
            ProgressKind::Download => if c % 10 == 0 || c == t {
                Some(spec_progress_line(c, t, "Downloaded"@, f))
            } else {
                None
            },
            ProgressKind::Sync => if c % 5 == 0 || c == t {
                Some(spec_progress_line(c, t, "Synced"@, f))
            } else {
                None
            },
            ProgressKind::Import => if c % 5 == 0 || c == t {
                Some(spec_progress_line(c, t, "Imported"@, f))
            } else {
                None
            },
            ProgressKind::ModInstall => None,
            ProgressKind::ShaderInstall => Some("Installing: "@ + f),
        }
    }

    /// Whether free-form messages are logged.
    pub open spec fn spec_logs_messages(self) -> bool {
        self != ProgressKind::ModInstall
    }
}

impl ProgressView {
    /// Work that has not reported yet: 0 of 100 done.
    pub fn new(message: String) -> (r: ProgressView)
        ensures
            r.completed == 0,
            r.total == 100,
            r.current_file@.len() == 0,
            r.message == message,
            r.logs@.len() == 0,
    {
        ProgressView {
            completed: 0,
            total: 100,
            current_file: String::new(),
            message,
            logs: Vec::new(),
        }
    }

    /// Takes one report into the view and says where the work stands.
    pub fn apply(&mut self, update: ProgressUpdate, kind: ProgressKind) -> (r: ProgressOutcome)
        ensures
            match update {
                ProgressUpdate::Started { total, message } => {
                    &&& r is Running
                    &&& final(self).total == total
                    &&& final(self).completed == 0
                    &&& final(self).message == message
                    &&& final(self).current_file == old(self).current_file
                    &&& final(self).logs@.len() == old(self).logs@.len() + (if kind.spec_start_prefix() is Some {
                        1int
                    } else {
                        0
                    })
                    &&& forall|i: int| 0 <= i < old(self).logs@.len() ==> final(self).logs@[i] == old(self).logs@[i]
                    &&& kind.spec_start_prefix() matches Some(p) ==> final(self).logs@.last()@ == p + message@
                },
                ProgressUpdate::Progress { completed, total, current_file } => {
                    &&& r is Running
                    &&& final(self).total == total
                    &&& final(self).completed == completed
                    &&& final(self).current_file == current_file
                    &&& final(self).message == old(self).message
                    &&& final(self).logs@.len() == old(self).logs@.len() + (if kind.spec_progress_log(completed, total, current_file@) is Some {
                        1int
                    } else {
                        0
                    })
                    &&& forall|i: int| 0 <= i < old(self).logs@.len() ==> final(self).logs@[i] == old(self).logs@[i]
                    &&& kind.spec_progress_log(completed, total, current_file@) matches Some(l) ==> final(self).logs@.last()@ == l
                },
                ProgressUpdate::Message(msg) => {
                    &&& r is Running
                    &&& final(self).message == msg
                    &&& final(self).total == old(self).total
                    &&& final(self).completed == old(self).completed
                    &&& final(self).current_file == old(self).current_file
                    &&& final(self).logs@.len() == old(self).logs@.len() + (if kind.spec_logs_messages() {
                        1int
                    } else {
                        0
                    })
                    &&& forall|i: int| 0 <= i < old(self).logs@.len() ==> final(self).logs@[i] == old(self).logs@[i]
                    &&& kind.spec_logs_messages() ==> final(self).logs@.last()@ == msg@
                },
                ProgressUpdate::Finished => {
                    &&& r is Finished
                    &&& *final(self) == *old(self)
                },
                ProgressUpdate::Error(e) => {
                    &&& r == ProgressOutcome::Failed(e)
                    &&& *final(self) == *old(self)
                },
            },
    {
        match update {
            ProgressUpdate::Started { total, message } => {
                self.total = total;
                self.completed = 0;
                let line = match kind {
                    ProgressKind::Download => Some(concat("Task: ", message.as_str())),
                    ProgressKind::Sync => Some(concat("Sync: ", message.as_str())),
                    ProgressKind::Import => Some(concat("Import: ", message.as_str())),
                    ProgressKind::ModInstall => None,
                    ProgressKind::ShaderInstall => Some(concat("", message.as_str())),
                };
                if let Some(l) = line {
                    self.logs.push(l);
                }
                self.message = message;
                ProgressOutcome::Running
            },
            ProgressUpdate::Progress { completed, total, current_file } => {
                self.completed = completed;
                self.total = total;
                let line = match kind {
                    ProgressKind::Download => if completed % 10 == 0 || completed == total {
                        Some(progress_line(completed, total, "Downloaded", current_file.as_str()))
                    } else {
                        None
                    },
                    ProgressKind::Sync => if completed % 5 == 0 || completed == total {
                        Some(progress_line(completed, total, "Synced", current_file.as_str()))
                    } else {
                        None
                    },
                    ProgressKind::Import => if completed % 5 == 0 || completed == total {
                        Some(progress_line(completed, total, "Imported", current_file.as_str()))
                    } else {
                        None
                    },
                    ProgressKind::ModInstall => None,
                    ProgressKind::ShaderInstall => Some(
                        concat("Installing: ", current_file.as_str()),
                    ),
                };
                if let Some(l) = line {
                    self.logs.push(l);
                }
                self.current_file = current_file;
                ProgressOutcome::Running
            },
            ProgressUpdate::Message(msg) => {
                if kind != ProgressKind::ModInstall {
                    self.logs.push(msg.clone());
                }
                self.message = msg;
                ProgressOutcome::Running
            },
            ProgressUpdate::Finished => ProgressOutcome::Finished,
            ProgressUpdate::Error(e) => ProgressOutcome::Failed(e),
        }
    }
}

/// The status line shown when work of this kind has ended; `subject` is the
/// version id of a download and the asset name ("Mod", "Shader pack", ...)
/// of an install.
pub open spec fn spec_completion_message(
    kind: ProgressKind,
    subject: Seq<char>,
    subject_lower: Seq<char>,
    error: Option<Seq<char>>,
) -> Seq<char> {
    match error {
        None => match kind {
            ProgressKind::Download => "Successfully downloaded Minecraft version "@ + subject + "!"@,
            ProgressKind::Sync => "Mods synchronized successfully!"@,
            ProgressKind::Import => "Modpack imported successfully!"@,
            ProgressKind::ModInstall => subject + " installed successfully!"@,
            ProgressKind::ShaderInstall => "Shader support enabled successfully!"@,
        },
        Some(e) => match kind {
            ProgressKind::Download => "Download failed: "@ + e,
            ProgressKind::Sync => "Mod sync failed: "@ + e,
            ProgressKind::Import => "Import failed: "@ + e,
            ProgressKind::ModInstall => "Failed to install "@ + subject_lower + ": "@ + e,
            ProgressKind::ShaderInstall => "Failed to install shader support: "@ + e,
        },
    }
}

/// The status line for ended work; `subject_lower` is `subject` in lower case.
pub fn completion_message(
    kind: ProgressKind,
    subject: &str,
    subject_lower: &str,
    error: Option<&str>,
) -> (r: String)
    ensures
        r@ == spec_completion_message(
            kind,
            subject@,
            subject_lower@,
            match error {
                Some(e) => Some(e@),
                None => None,
            },
        ),
{
    match error {
        None => match kind {
            ProgressKind::Download => {
                let s = concat("Successfully downloaded Minecraft version ", subject);
                concat(s.as_str(), "!")
            },
            ProgressKind::Sync => String::from_str("Mods synchronized successfully!"),
            ProgressKind::Import => String::from_str("Modpack imported successfully!"),
            ProgressKind::ModInstall => concat(subject, " installed successfully!"),
            ProgressKind::ShaderInstall => String::from_str("Shader support enabled successfully!"),
        },
        Some(e) => match kind {
            ProgressKind::Download => concat("Download failed: ", e),
            ProgressKind::Sync => concat("Mod sync failed: ", e),
            ProgressKind::Import => concat("Import failed: ", e),
            ProgressKind::ModInstall => {
                let s = concat("Failed to install ", subject_lower);
                let s = concat(s.as_str(), ": ");
                concat(s.as_str(), e)
            },
            ProgressKind::ShaderInstall => concat("Failed to install shader support: ", e),
        },
    }
}

} // verus!
