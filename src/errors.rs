//! The library's error types.
use vstd::prelude::*;

verus! {

/// `std::io::Error`, carried through unchanged from the caller's file work.
#[verifier::external_type_specification]
#[verifier::external_body]
pub struct ExIoError(std::io::Error);

/// `dialoguer::Error`, carried through unchanged from a failed prompt.
#[verifier::external_type_specification]
#[verifier::external_body]
pub struct ExDialogError(dialoguer::Error);

/// Why an install could not go on.
#[derive(Debug)]
pub enum InitError {
    NotInGitRepo,
    InvalidCategory(String),
    Io(std::io::Error),
}

/// Why an uninstall could not go on.
#[derive(Debug)]
pub enum UninstallError {
    NotInGitRepo,
    Io(std::io::Error),
    Dialog(dialoguer::Error),
    Cancelled,
}

/// Why a self-upgrade could not go on.
#[derive(Debug)]
pub enum UpgradeError {
    CheckFailed(String),
    DownloadFailed(String),
    ApplyFailed(String),
    Cancelled,
}

/// Why talking to the release feed failed.
#[derive(Debug)]
pub enum GithubError {
    Request(String),
    NotFound,
    AssetNotFound(String),
}

} // verus!
