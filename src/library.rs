//! Presence check of the two helper executables (yt-dlp and ffmpeg), the
//! library directory that holds them, and the round that installs the missing ones.
use vstd::prelude::*;

verus! {

/// Which helper executables are missing from the library directory.
#[derive(Debug, Clone, Copy, PartialEq, Eq, Structural)]
pub enum YtdlpLibrary {
    Ffmpeg,
    Ytdlp,
    Both,
}

impl YtdlpLibrary {
    /// The requirement names ffmpeg as missing.
    pub open spec fn names_ffmpeg(self) -> bool {
        self == YtdlpLibrary::Ffmpeg || self == YtdlpLibrary::Both
    }

    /// The requirement names yt-dlp as missing.
    pub open spec fn names_ytdlp(self) -> bool {
        self == YtdlpLibrary::Ytdlp || self == YtdlpLibrary::Both
    }
}

/// The requirement that matches the set of missing executables: `None` when
/// both are present.
pub open spec fn requirement_for(ffmpeg_installed: bool, ytdlp_installed: bool) -> Option<YtdlpLibrary> {
    match (ffmpeg_installed, ytdlp_installed) {
        (true, true) => None,
        (false, true) => Some(YtdlpLibrary::Ffmpeg),
        (true, false) => Some(YtdlpLibrary::Ytdlp),
        (false, false) => Some(YtdlpLibrary::Both),
    }
}

/// Classifies the outcome of the two existence checks.
///
/// The result is `None` exactly when both executables are present; otherwise
/// it names precisely the missing ones, with the combined variant when both
/// are missing.
pub fn classify_libraries(ffmpeg_installed: bool, ytdlp_installed: bool) -> (r: Option<YtdlpLibrary>)
    ensures
        r == requirement_for(ffmpeg_installed, ytdlp_installed),
        r.is_none() <==> (ffmpeg_installed && ytdlp_installed),
        r matches Some(lib) ==> (lib.names_ffmpeg() == !ffmpeg_installed
            && lib.names_ytdlp() == !ytdlp_installed),
{
    match (ffmpeg_installed, ytdlp_installed) {
        (true, true) => None,
        (false, true) => Some(YtdlpLibrary::Ffmpeg),
        (true, false) => Some(YtdlpLibrary::Ytdlp),
        (false, false) => Some(YtdlpLibrary::Both),
    }
}

/// Directory, relative to the working directory, that holds the executables.
pub const LIBRARY_DIR: &'static str = "yt-dlp-libs";

/// One of the two helper executables.
#[derive(Debug, Clone, Copy, PartialEq, Eq, Structural)]
pub enum Binary {
    Ffmpeg,
    Ytdlp,
}

/// Platform family, which decides the executables' file suffix.
#[derive(Debug, Clone, Copy, PartialEq, Eq, Structural)]
pub enum Platform {
    Windows,
    Posix,
}

pub open spec fn base_name(binary: Binary) -> Seq<char> {
    match binary {
        Binary::Ffmpeg => "ffmpeg"@,
        Binary::Ytdlp => "yt-dlp"@,
    }
}

pub open spec fn exe_suffix(platform: Platform) -> Seq<char> {
    match platform {
        Platform::Windows => ".exe"@,
        Platform::Posix => Seq::empty(),
    }
}

/// Where an executable is expected: `yt-dlp-libs/<name>[.exe]`.
pub open spec fn binary_path(binary: Binary, platform: Platform) -> Seq<char> {
    LIBRARY_DIR@ + "/"@ + base_name(binary) + exe_suffix(platform)
}

/// Builds the expected path of `binary` on `platform`.
pub fn library_path(binary: Binary, platform: Platform) -> (r: String)
    ensures
        r@ == binary_path(binary, platform),
{
    let mut path = String::from_str(LIBRARY_DIR);
    path.append("/");
    match binary {
        Binary::Ffmpeg => path.append("ffmpeg"),
        Binary::Ytdlp => path.append("yt-dlp"),
    }
    match platform {
        Platform::Windows => path.append(".exe"),
        Platform::Posix => {
            assert(path@ + Seq::<char>::empty() =~= path@);
        },
    }
    path
}

/// What the directory-ensure step does to the library directory.
#[derive(Debug, Clone, Copy, PartialEq, Eq, Structural)]
pub enum DirAction {
    Create,
    Keep,
}

pub open spec fn dir_action_for(present: bool) -> DirAction {
    if present {
        DirAction::Keep
    } else {
        DirAction::Create
    }
}

/// Whether the directory exists once `action` has been carried out.
pub open spec fn exists_after(present: bool, action: DirAction) -> bool {
    present || action == DirAction::Create
}

/// Decides the directory-ensure step: create the directory only when absent.
pub fn dir_action(present: bool) -> (r: DirAction)
    ensures
        r == dir_action_for(present),
{
    if present {
        DirAction::Keep
    } else {
        DirAction::Create
    }
}

/// Ensuring the directory twice in a row is the same as ensuring it once: the
/// first step leaves it present, so the second creates nothing and cannot fail
/// on a directory that already exists.
pub proof fn lemma_ensure_dir_idempotent(present: bool)
    ensures
        exists_after(present, dir_action_for(present)),
        dir_action_for(exists_after(present, dir_action_for(present))) == DirAction::Keep,
        exists_after(exists_after(present, dir_action_for(present)), DirAction::Keep),
{
}

/// The executables to install for a requirement, in installation order: one
/// round covers every missing executable, each once.
pub open spec fn install_plan(req: Option<YtdlpLibrary>) -> Seq<Binary> {
    match req {
        None => Seq::empty(),
        Some(YtdlpLibrary::Ffmpeg) => seq![Binary::Ffmpeg],
        Some(YtdlpLibrary::Ytdlp) => seq![Binary::Ytdlp],
        Some(YtdlpLibrary::Both) => seq![Binary::Ffmpeg, Binary::Ytdlp],
    }
}

/// Lists the executables to install for `req`.
pub fn install_steps(req: Option<YtdlpLibrary>) -> (r: Vec<Binary>)
    ensures
        r@ == install_plan(req),
{
    let mut steps: Vec<Binary> = Vec::new();
    match req {
        None => {},
        Some(YtdlpLibrary::Ffmpeg) => steps.push(Binary::Ffmpeg),
        Some(YtdlpLibrary::Ytdlp) => steps.push(Binary::Ytdlp),
        Some(YtdlpLibrary::Both) => {
            steps.push(Binary::Ffmpeg);
            steps.push(Binary::Ytdlp);
        },
    }
    assert(steps@ =~= install_plan(req));
    steps
}

/// Presence of (ffmpeg, yt-dlp) after every executable of `plan` was installed.
pub open spec fn presence_after(ffmpeg_installed: bool, ytdlp_installed: bool, plan: Seq<Binary>) -> (bool, bool) {
    (ffmpeg_installed || plan.contains(Binary::Ffmpeg), ytdlp_installed || plan.contains(Binary::Ytdlp))
}

/// The plan for a classified requirement names each missing executable exactly
/// once and no present one; it is empty exactly when nothing is missing; and
/// once it has run, a new check finds nothing missing.
pub proof fn lemma_plan_covers_missing(ffmpeg_installed: bool, ytdlp_installed: bool)
    ensures
        ({
            let plan = install_plan(requirement_for(ffmpeg_installed, ytdlp_installed));
            &&& plan.contains(Binary::Ffmpeg) <==> !ffmpeg_installed
            &&& plan.contains(Binary::Ytdlp) <==> !ytdlp_installed
            &&& plan.no_duplicates()
            &&& (plan.len() == 0 <==> (ffmpeg_installed && ytdlp_installed))
            &&& requirement_for(
                presence_after(ffmpeg_installed, ytdlp_installed, plan).0,
                presence_after(ffmpeg_installed, ytdlp_installed, plan).1,
            ) == None::<YtdlpLibrary>
        }),
{
    let plan = install_plan(requirement_for(ffmpeg_installed, ytdlp_installed));
    if !ffmpeg_installed && !ytdlp_installed {
        assert(plan[0] == Binary::Ffmpeg);
        assert(plan[1] == Binary::Ytdlp);
    } else if !ffmpeg_installed {
        assert(plan[0] == Binary::Ffmpeg);
    } else if !ytdlp_installed {
        assert(plan[0] == Binary::Ytdlp);
    }
}

/// Where an installation round stands.
#[derive(Debug, Clone, Copy, PartialEq, Eq, Structural)]
pub enum InstallStatus {
    Pending,
    Installed,
    Failed,
}

/// One installation round: the executables to fetch, how many have been
/// fetched, and whether a fetch failed. The first failure ends the round.
pub struct InstallRun {
    pub steps: Vec<Binary>,
    pub done: usize,
    pub failed: bool,
}

impl InstallRun {
    pub open spec fn wf(&self) -> bool {
        self.done <= self.steps@.len()
    }

    pub open spec fn status_spec(&self) -> InstallStatus {
        if self.failed {
            InstallStatus::Failed
        } else if self.done == self.steps@.len() {
            InstallStatus::Installed
        } else {
            InstallStatus::Pending
        }
    }

    /// Starts the round for a requirement produced by the presence check.
    pub fn new(req: Option<YtdlpLibrary>) -> (r: InstallRun)
        ensures
            r.wf(),
            r.steps@ == install_plan(req),
            r.done == 0,
            !r.failed,
    {
        InstallRun { steps: install_steps(req), done: 0, failed: false }
    }

    /// The executable to fetch next, or `None` once the round is over.
    pub fn next_binary(&self) -> (r: Option<Binary>)
        requires
            self.wf(),
        ensures
            r == (if self.status_spec() == InstallStatus::Pending {
                Some(self.steps@[self.done as int])
            } else {
                None
            }),
    {
        if self.failed || self.done == self.steps.len() {
            None
        } else {
            Some(self.steps[self.done])
        }
    }

    /// Records the outcome of fetching the executable that `next_binary` gave.
    pub fn record(&mut self, succeeded: bool)
        requires
            old(self).wf(),
            old(self).status_spec() == InstallStatus::Pending,
        ensures
            final(self).wf(),
            final(self).steps@ == old(self).steps@,
            final(self).done == (if succeeded { old(self).done + 1 } else { old(self).done as int }),
            final(self).failed == !succeeded,
    {
        if succeeded {
            let n = self.steps.len();
            assert(self.done < n);
            self.done = self.done + 1;
        } else {
            self.failed = true;
        }
    }

    /// Installed once every step succeeded, failed after a failed step,
    /// pending otherwise.
    pub fn status(&self) -> (r: InstallStatus)
        ensures
            r == self.status_spec(),
    {
        if self.failed {
            InstallStatus::Failed
        } else if self.done == self.steps.len() {
            InstallStatus::Installed
        } else {
            InstallStatus::Pending
        }
    }
}

} // verus!
