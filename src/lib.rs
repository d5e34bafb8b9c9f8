//! Decisions, formats and checks of a tool that manages Docker based
//! development environments: the `key=value` settings file, the
//! configuration it holds, the `docker` / `docker-compose` invocations of
//! each command and how their outcomes are read, the `docker-compose ps`
//! table, input validation and the bilingual messages.

pub mod cli;
pub mod config;
pub mod docker;
pub mod env_file;
pub mod error;
pub mod i18n;
pub mod lifecycle;
pub mod status;
pub mod text;
pub mod utils;
pub mod validation;
