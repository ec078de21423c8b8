//! A facade over the `helm` command-line binary.
//!
//! The crate covers the two layers that carry the design: request builders,
//! which turn a typed operation request into the exact argument vector for
//! one `helm` invocation, and the operation client, which interprets captured
//! output (exit state, stderr, decoded records) as typed results or typed
//! errors.  Running the subprocess itself, and decoding its JSON stdout into
//! records, is the embedding shell's part: the library hands it argument
//! vectors and takes plain captured values back.

pub mod chart;
pub mod chart_export_arg;
pub mod chart_pull_arg;
pub mod error;
pub mod export_arg;
pub mod get_installed_arg;
pub mod helm_client;
pub mod installed_chart;
pub mod pull_arg;
pub mod repo_add_optionals;
pub mod registry_login_arg;
pub mod text;
pub mod install_arg;
pub mod tokens;
pub mod uninstall_arg;

pub use chart::Chart;
pub use chart_export_arg::ChartExportArg;
pub use chart_pull_arg::ChartPullArg;
pub use error::HelmError;
pub use export_arg::ExportArg;
pub use get_installed_arg::GetInstalledArg;
pub use helm_client::HelmClient;
pub use helm_client::UninstallStep;
pub use helm_client::check_helm_stderr;
pub use helm_client::sanitize_helm_version_string;
pub use install_arg::InstallArg;
pub use installed_chart::InstalledChart;
pub use pull_arg::PullArg;
pub use repo_add_optionals::RepoAddArg;
pub use registry_login_arg::RegistryLoginArg;
pub use uninstall_arg::UninstallArg;
