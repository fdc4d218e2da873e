use vstd::prelude::*;

use crate::project::ProjectName;

verus! {

/// `std::path::PathBuf`, carried as an opaque value.
#[verifier::external_type_specification]
#[verifier::external_body]
pub struct ExPathBuf(std::path::PathBuf);

/// Default number of idle minutes before a project is put to sleep.
pub const IDLE_MINUTES: u64 = 30;

/// The web (or bot) frameworks a new project can be initialised with.
#[derive(Clone, Copy, Debug, PartialEq, Eq, Structural)]
pub enum Framework {
    ActixWeb,
    Axum,
    Rocket,
    Tide,
    Tower,
    Poem,
    Salvo,
    Serenity,
    Poise,
    Warp,
    Thruster,
    NoFramework,
}

/// The order in which the framework flags of `InitArgs` are consulted.
pub open spec fn framework_priority() -> Seq<Framework> {
    seq![
        Framework::ActixWeb,
        Framework::Axum,
        Framework::Rocket,
        Framework::Tide,
        Framework::Tower,
        Framework::Poem,
        Framework::Salvo,
        Framework::Poise,
        Framework::Serenity,
        Framework::Warp,
        Framework::Thruster,
        Framework::NoFramework,
    ]
}

impl Framework {
    /// Every framework, in declaration order.
    pub fn all() -> (r: Vec<Framework>)
        ensures
            r@ == seq![
                Framework::ActixWeb,
                Framework::Axum,
                Framework::Rocket,
                Framework::Tide,
                Framework::Tower,
                Framework::Poem,
                Framework::Salvo,
                Framework::Serenity,
                Framework::Poise,
                Framework::Warp,
                Framework::Thruster,
                Framework::NoFramework,
            ],
            forall|f: Framework| r@.contains(f),
            forall|i: int, j: int| 0 <= i < j < r@.len() ==> r@[i] != r@[j],
    {
        let r = vec![
            Framework::ActixWeb,
            Framework::Axum,
            Framework::Rocket,
            Framework::Tide,
            Framework::Tower,
            Framework::Poem,
            Framework::Salvo,
            Framework::Serenity,
            Framework::Poise,
            Framework::Warp,
            Framework::Thruster,
            Framework::NoFramework,
        ];
        assert forall|f: Framework| r@.contains(f) by {
            match f {
                Framework::ActixWeb => assert(r@[0] == f),
                Framework::Axum => assert(r@[1] == f),
                Framework::Rocket => assert(r@[2] == f),
                Framework::Tide => assert(r@[3] == f),
                Framework::Tower => assert(r@[4] == f),
                Framework::Poem => assert(r@[5] == f),
                Framework::Salvo => assert(r@[6] == f),
                Framework::Serenity => assert(r@[7] == f),
                Framework::Poise => assert(r@[8] == f),
                Framework::Warp => assert(r@[9] == f),
                Framework::Thruster => assert(r@[10] == f),
                Framework::NoFramework => assert(r@[11] == f),
            }
        }
        r
    }

    /// The name of the framework as written on the command line.
    pub fn name(&self) -> (r: &'static str)
        ensures
            r@ == self.name_spec(),
    {
        match self {
            Framework::ActixWeb => "actix-web",
            Framework::Axum => "axum",
            Framework::Rocket => "rocket",
            Framework::Tide => "tide",
            Framework::Tower => "tower",
            Framework::Poem => "poem",
            Framework::Salvo => "salvo",
            Framework::Serenity => "serenity",
            Framework::Poise => "poise",
            Framework::Warp => "warp",
            Framework::Thruster => "thruster",
            Framework::NoFramework => "none",
        }
    }

    pub open spec fn name_spec(&self) -> Seq<char> {
        match self {
            Framework::ActixWeb => "actix-web"@,
            Framework::Axum => "axum"@,
            Framework::Rocket => "rocket"@,
            Framework::Tide => "tide"@,
            Framework::Tower => "tower"@,
            Framework::Poem => "poem"@,
            Framework::Salvo => "salvo"@,
            Framework::Serenity => "serenity"@,
            Framework::Poise => "poise"@,
            Framework::Warp => "warp"@,
            Framework::Thruster => "thruster"@,
            Framework::NoFramework => "none"@,
        }
    }
}

/// Arguments for logging in to the platform.
#[derive(Clone, Debug)]
pub struct LoginArgs {
    /// API key for the platform.
    pub api_key: Option<String>,
}

/// Arguments of the `deploy` command.
#[derive(Clone, Copy, Debug, PartialEq, Eq, Structural)]
pub struct DeployArgs {
    /// Allow dirty working directories to be packaged.
    pub allow_dirty: bool,
    /// Skip the pre-deploy tests.
    pub no_test: bool,
}

/// Arguments of the `run` command.
#[derive(Clone, Copy, Debug, PartialEq, Eq, Structural)]
pub struct RunArgs {
    /// Port to start the service on.
    pub port: u16,
    /// Listen on every interface instead of localhost.
    pub external: bool,
    /// Build in release mode.
    pub release: bool,
}

/// Subcommands that manage a project environment.
#[derive(Clone, Debug)]
pub enum ProjectCommand {
    /// Create an environment for this project.
    New {
        /// Minutes of inactivity before the project idles; 0 means never.
        idle_minutes: u64,
    },
    /// List the projects of the calling account.
    List {
        /// Only projects in this status.
        filter: Option<String>,
    },
    /// Remove this project environment.
    Rm,
    /// Show the status of this project's environment.
    Status {
        /// Follow the status.
        follow: bool,
    },
}

/// Arguments of the `init` command.
#[derive(Debug)]
pub struct InitArgs {
    pub actix_web: bool,
    pub axum: bool,
    pub rocket: bool,
    pub tide: bool,
    pub tower: bool,
    pub poem: bool,
    pub salvo: bool,
    pub serenity: bool,
    pub poise: bool,
    pub warp: bool,
    pub thruster: bool,
    pub no_framework: bool,
    /// Whether to create the environment for this project on the platform.
    pub new: bool,
    pub login_args: LoginArgs,
    /// Path to initialise the new project in.
    pub path: std::path::PathBuf,
}

impl InitArgs {
    /// The framework flags, in the order of `framework_priority`.
    pub open spec fn flags(&self) -> Seq<bool> {
        seq![
            self.actix_web,
            self.axum,
            self.rocket,
            self.tide,
            self.tower,
            self.poem,
            self.salvo,
            self.poise,
            self.serenity,
            self.warp,
            self.thruster,
            self.no_framework,
        ]
    }

    /// The framework whose flag is set, the first in `framework_priority`
    /// where several are.
    pub fn framework(&self) -> (r: Option<Framework>)
        ensures
            r is None <==> forall|i: int| 0 <= i < 12 ==> !self.flags()[i],
            r matches Some(f) ==> exists|i: int|
                0 <= i < 12 && self.flags()[i] && framework_priority()[i] == f
                    && forall|j: int| 0 <= j < i ==> !self.flags()[j],
    {
        let r = if self.actix_web {
            Some(Framework::ActixWeb)
        } else if self.axum {
            Some(Framework::Axum)
        } else if self.rocket {
            Some(Framework::Rocket)
        } else if self.tide {
            Some(Framework::Tide)
        } else if self.tower {
            Some(Framework::Tower)
        } else if self.poem {
            Some(Framework::Poem)
        } else if self.salvo {
            Some(Framework::Salvo)
        } else if self.poise {
            Some(Framework::Poise)
        } else if self.serenity {
            Some(Framework::Serenity)
        } else if self.warp {
            Some(Framework::Warp)
        } else if self.thruster {
            Some(Framework::Thruster)
        } else if self.no_framework {
            Some(Framework::NoFramework)
        } else {
            None
        };
        proof {
            let fl = self.flags();
            let pr = framework_priority();
            if let Some(f) = r {
                let i: int = if self.actix_web { 0 } else if self.axum { 1 } else if self.rocket { 2 }
                    else if self.tide { 3 } else if self.tower { 4 } else if self.poem { 5 }
                    else if self.salvo { 6 } else if self.poise { 7 } else if self.serenity { 8 }
                    else if self.warp { 9 } else if self.thruster { 10 } else { 11 };
                assert(fl[i] && pr[i] == f);
                assert forall|j: int| 0 <= j < i implies !fl[j] by {}
            }
        }
        r
    }
}

/// Shells that completions can be generated for.
#[derive(Clone, Copy, Debug, PartialEq, Eq, Structural)]
pub enum Shell {
    Bash,
    Elvish,
    Fish,
    PowerShell,
    Zsh,
}

/// Arguments shared by the subcommands that deal with a project.
#[derive(Debug)]
pub struct ProjectArgs {
    /// The working directory.
    pub working_directory: std::path::PathBuf,
    /// The name of the project, overriding the crate's name.
    pub name: Option<ProjectName>,
}

/// Subcommands that manage the deployments of a service.
#[derive(Clone, Copy, Debug, PartialEq, Eq, Structural)]
pub enum DeploymentCommand {
    /// List all the deployments of the service.
    List,
    /// Show the status of a deployment.
    Status {
        /// Id of the deployment.
        id: u128,
    },
}

/// The subcommands of the command-line tool.
#[derive(Debug)]
pub enum Command {
    /// Deploy a service.
    Deploy(DeployArgs),
    /// Manage the deployments of a service.
    Deployment(DeploymentCommand),
    /// Create a new service.
    Init(InitArgs),
    /// Generate shell completions.
    Generate {
        /// Which shell.
        shell: Shell,
        /// Output file; standard output where absent.
        output: Option<std::path::PathBuf>,
    },
    /// Show the status of the service.
    Status,
    /// Show the logs of a deployment.
    Logs {
        /// Deployment id; the running deployment where absent.
        id: Option<u128>,
        /// Follow the log output.
        follow: bool,
    },
    /// Remove the artifacts the build generated.
    Clean,
    /// Stop the service.
    Stop,
    /// Manage the secrets of the service.
    Secrets,
    /// Log in to the platform.
    Login(LoginArgs),
    /// Log out of the platform.
    Logout,
    /// Run the service locally.
    Run(RunArgs),
    /// Open an issue and give feedback.
    Feedback,
    /// Manage a project.
    Project(ProjectCommand),
}

/// The arguments of the command-line tool.
#[derive(Debug)]
pub struct Args {
    /// Run the command against the API at this URL.
    pub api_url: Option<String>,
    pub project_args: ProjectArgs,
    pub cmd: Command,
}

} // verus!
