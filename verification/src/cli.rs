//! Validated command-line arguments, as plain data.
//!
//! The argument parser itself is an external collaborator; it hands the
//! library values of these types.  Each value is immutable once constructed
//! and is consumed by a single command invocation.

use vstd::prelude::*;

verus! {

/// One invocation of the client: exactly one subcommand.
pub struct Cli {
    pub commands: Commands,
}

/// The subcommands the client offers.
pub enum Commands {
    /// Store a local file or a remote resource in the vault.
    Upload(UploadArgs),
    /// Retrieve the content of a stored file.
    Download(DownloadArgs),
    /// Show the stored metadata of a file addressed by its token.
    Info { token: String },
    /// Remove a file addressed by its token.
    Delete { token: String },
}

/// Arguments of the upload subcommand.
///
/// Exactly one of `file` and `url` must be set; the request builder
/// rejects any other combination.
pub struct UploadArgs {
    /// Path of a local file to store.
    pub file: Option<String>,
    /// Remote resource for the vault to fetch and store.
    pub url: Option<String>,
    /// Requested lifetime of the stored file.
    pub expires: Option<String>,
    /// Whether the stored file's name is hidden from its URL.
    pub hide_filename: bool,
    /// Password that protects later downloads of the file.
    pub password: Option<String>,
}

/// Arguments of the download subcommand.
///
/// Exactly one of `url` (a direct resource URL) and `token` (a
/// vault-assigned identifier) must be set.
pub struct DownloadArgs {
    /// Direct URL of the resource to fetch.
    pub url: Option<String>,
    /// Vault-assigned token of the file to fetch.
    pub token: Option<String>,
    /// Where to store the fetched content: an existing directory or an
    /// exact file path.  Defaults to the current working directory.
    pub output: Option<String>,
    /// Password of a protected file.
    pub password: Option<String>,
}

} // verus!
