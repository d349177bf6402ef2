//! The user's home directory, as the system tells it.

use std::path::PathBuf;

use vstd::prelude::*;

use crate::keys::home_dir;

verus! {

/// The home directory of the user, if there is one. A value comes only from
/// looking the directory up, so what is stated of one is stated of the user's own
/// home directory, never of a directory of the library's choosing.
pub struct UserHome {
    home: Option<PathBuf>,
}

impl View for UserHome {
    type V = Option<PathBuf>;

    closed spec fn view(&self) -> Option<PathBuf> {
        self.home
    }
}

/// Looks the home directory of the user up. Which directory it is, and whether
/// there is one, the environment decides.
pub fn user_home() -> UserHome {
    UserHome { home: home_dir() }
}

impl UserHome {
    /// The directory that was found.
    pub fn path(&self) -> (path: &Option<PathBuf>)
        ensures
            *path == self@,
    {
        &self.home
    }

    /// The directory that was found.
    pub fn into_path(self) -> (path: Option<PathBuf>)
        ensures
            path == self@,
    {
        self.home
    }
}

} // verus!
