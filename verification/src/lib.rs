//! A guard library for a cluster-management CLI wrapper: it decides which
//! cluster context, namespace and subcommand an invocation of the wrapped
//! CLI would act on.  The persisted configuration document is parsed into
//! [`kubeconfig::KubeConfig`], the raw argument vector is scanned for the
//! recognized override flags, and the two are reconciled into a
//! [`metadata::KubectlMetadata`] triple, with explicit errors for a missing
//! context entry or a missing subcommand.

pub mod document;
pub mod error;
pub mod kubeconfig;
pub mod metadata;
pub mod opts;
pub mod parse_option;
pub mod strings;
pub mod yaml;
