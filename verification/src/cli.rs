//! The command line of the tool as plain data: global flags, the subcommand
//! and its arguments. Reading `argv` into these values happens in the binary.
use vstd::prelude::*;

verus! {

/// The global flags and the chosen subcommand.
pub struct Cli {
    pub json: bool,
    pub quiet: bool,
    pub yes: bool,
    pub dry_run: bool,
    pub config: Option<String>,
    pub command: Commands,
}

/// The subcommands.
pub enum Commands {
    /// Create a new sandbox VM from a template.
    Create(CloneArgs),
    /// Create, start, and show a sandbox VM.
    Run(CloneArgs),
    /// Create a boilerplate config file.
    Init(InitArgs),
    /// List managed or filtered VMs.
    Ls(ListArgs),
    /// Inspect details for a VM.
    Inspect(NameArgs),
    /// Start a VM.
    Start(NameArgs),
    /// Stop a VM.
    Stop(NameArgs),
    /// Show a VM in the UTM app.
    Show(NameArgs),
    /// Remove a single VM.
    Rm(DeleteArgs),
    /// Remove multiple VMs by filters.
    Prune(DeleteAllArgs),
}

/// Arguments of `create` and `run`.
pub struct CloneArgs {
    pub os_type: OsType,
    pub name: Option<String>,
    pub name_exact: bool,
    pub name_template: Option<String>,
    pub prefix: Option<String>,
    pub template: Option<String>,
}

/// Arguments of `ls`.
pub struct ListArgs {
    pub prefix: Option<String>,
    pub os: Option<OsType>,
}

/// Arguments of the commands that name one VM.
pub struct NameArgs {
    pub name: String,
}

/// Arguments of `rm`.
pub struct DeleteArgs {
    pub name: String,
    pub force: bool,
}

/// Arguments of `prune`.
pub struct DeleteAllArgs {
    pub prefix: Option<String>,
    pub os: Option<OsType>,
    pub older_than: Option<String>,
}

/// Arguments of `init`.
pub struct InitArgs {
    pub force: bool,
}

/// The guest operating systems a sandbox can be made for.
#[derive(Copy, Clone, Debug, PartialEq, Eq, Structural)]
pub enum OsType {
    Linux,
    Macos,
}

/// The name by which an OS is written in names, state and filters.
pub open spec fn os_name(os: OsType) -> Seq<char> {
    match os {
        OsType::Linux => seq!['l', 'i', 'n', 'u', 'x'],
        OsType::Macos => seq!['m', 'a', 'c', 'o', 's'],
    }
}

impl OsType {
    /// The lower-case name of the OS.
    pub fn as_str(&self) -> (r: &'static str)
        ensures
            r@ == os_name(*self),
    {
        match self {
            Self::Linux => {
                let r = "linux";
                proof {
                    reveal_strlit("linux");
                }
                r
            },
            Self::Macos => {
                let r = "macos";
                proof {
                    reveal_strlit("macos");
                }
                r
            },
        }
    }
}

} // verus!
