//! The fatal error kinds of the library.  Every error surfaces unchanged to
//! the invocation boundary; the library never recovers from any of them.

use vstd::prelude::*;

verus! {

/// What can go wrong while loading the configuration or resolving the
/// command metadata.
#[derive(Debug)]
pub enum Error {
    /// The configuration file could not be read; carries the reader's message.
    KubeconfigIo(String),
    /// The configuration document is not syntactically valid YAML.
    KubeconfigParse(yaml_rust2::ScanError),
    /// The configuration document lacks a required field.
    MalformedKubeconfig,
    /// The effective context name has no entry in the configuration.
    CurrentContextNotFound(String),
    /// The argument vector holds no subcommand token.
    NoCommandSpecified,
}

} // verus!
