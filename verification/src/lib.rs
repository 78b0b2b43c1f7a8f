//! Resolution of installation directories, of package manifests into install
//! entries, and of the decisions taken while installing and uninstalling.

pub mod text;
pub mod path;
pub mod dirs_config;
pub mod placeholder;
pub mod dirs;
pub mod templating;
pub mod install_spec;
pub mod project;
pub mod install_target;
pub mod install;
pub mod icon;
pub mod package;
pub mod package_info;
pub mod utils;
pub mod install_cmd;
pub mod uninstall;
pub mod effects;
pub mod tarball_cmd;
pub mod generate_rpm_files;
