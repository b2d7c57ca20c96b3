//! The Greengrass IPC connection parameters that the nucleus hands a component.
//!
//! When the nucleus launches a component, it injects two environment variables into the process:
//!
//! - `AWS_GG_NUCLEUS_DOMAIN_SOCKET_FILEPATH_FOR_COMPONENT`: the path of the Unix domain socket
//!   the nucleus's IPC server listens on.
//! - `SVCUID`: the per-component authentication token, sent in the `Connect` handshake so the
//!   nucleus can identify and authorize this component.

use crate::error::Error;
use std::path::PathBuf;
use vstd::prelude::*;

verus! {

/// A filesystem path (`std::path::PathBuf`), carried through unchanged.
#[verifier::external_type_specification]
#[verifier::external_body]
pub struct ExPathBuf(std::path::PathBuf);

/// Cloning a path (`<PathBuf as Clone>::clone`) gives an equal path.
pub assume_specification[ <std::path::PathBuf as Clone>::clone ](p: &std::path::PathBuf) -> (r:
    std::path::PathBuf)
    ensures
        r == *p,
;

/// Environment variable holding the IPC socket path.
pub const SOCKET_PATH_ENV: &'static str = "AWS_GG_NUCLEUS_DOMAIN_SOCKET_FILEPATH_FOR_COMPONENT";

/// Environment variable holding the component auth token.
pub const AUTH_TOKEN_ENV: &'static str = "SVCUID";

/// The connection parameters needed to reach and authenticate with the nucleus IPC server.
#[derive(Debug)]
pub struct IpcEnv {
    /// Path to the nucleus IPC Unix domain socket.
    pub socket_path: PathBuf,
    /// The `SVCUID` auth token for this component.
    pub auth_token: String,
}

impl Clone for IpcEnv {
    fn clone(&self) -> (r: Self)
        ensures
            r.socket_path == self.socket_path,
            r.auth_token@ == self.auth_token@,
    {
        IpcEnv { socket_path: self.socket_path.clone(), auth_token: self.auth_token.clone() }
    }
}

impl IpcEnv {
    /// Builds [`IpcEnv`] from the values of the two environment variables (`None` for a
    /// variable that is unset or, for the token, not valid Unicode).
    ///
    /// Returns [`Error::NotUnderGreengrass`] naming the first variable that is missing (the
    /// socket path is looked at first), and also when the token is empty, which lets a caller
    /// detect "not running under Greengrass" and fall back gracefully.
    pub fn from_vars(socket_path: Option<PathBuf>, auth_token: Option<String>) -> (r: Result<
        IpcEnv,
        Error,
    >)
        ensures
            socket_path is None ==> (r matches Err(Error::NotUnderGreengrass(v))
                && v == SOCKET_PATH_ENV),
            socket_path is Some && (auth_token is None || auth_token->0@.len() == 0) ==> (
            r matches Err(Error::NotUnderGreengrass(v)) && v == AUTH_TOKEN_ENV),
            socket_path is Some && auth_token is Some && auth_token->0@.len() > 0 ==> (
            r matches Ok(env) && env.socket_path == socket_path->0 && env.auth_token@
                == auth_token->0@),
    {
        let socket_path = match socket_path {
            Some(p) => p,
            None => {
                return Err(Error::NotUnderGreengrass(SOCKET_PATH_ENV));
            },
        };
        let auth_token = match auth_token {
            Some(t) => t,
            None => {
                return Err(Error::NotUnderGreengrass(AUTH_TOKEN_ENV));
            },
        };
        if auth_token.as_str().is_empty() {
            return Err(Error::NotUnderGreengrass(AUTH_TOKEN_ENV));
        }
        Ok(IpcEnv { socket_path, auth_token })
    }
}

} // verus!
