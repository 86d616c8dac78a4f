//! Settings for the local manager connection: the access mode of its socket
//! or pipe, and the candidate paths a client tries.

use vstd::prelude::*;

verus! {

/// Level of access control to the unix socket or windows pipe.
#[derive(Copy, Clone, Debug, PartialEq, Eq, Structural)]
pub enum AccessControl {
    /// Read and write for the owner alone.
    Owner,
    /// Read and write for the owner and group.
    Group,
    /// Read and write for owner, group, and anyone else.
    Anyone,
}

impl AccessControl {
    /// Converts into a unix file permission octal.
    pub fn into_mode(self) -> (r: u32)
        ensures
            self == AccessControl::Owner ==> r == 0o600,
            self == AccessControl::Group ==> r == 0o660,
            self == AccessControl::Anyone ==> r == 0o666,
    {
        match self {
            AccessControl::Owner => 0o600,
            AccessControl::Group => 0o660,
            AccessControl::Anyone => 0o666,
        }
    }
}

impl Default for AccessControl {
    /// Defaults to owner-only permissions.
    fn default() -> (r: AccessControl)
        ensures
            r == AccessControl::Owner,
    {
        AccessControl::Owner
    }
}

/// Common networking configuration: overrides for the manager's unix socket
/// path and windows pipe name.
#[derive(Clone, Debug, PartialEq, Eq, Default)]
pub struct NetworkSettings {
    /// Override the path to the unix socket used by the manager.
    pub unix_socket: Option<String>,
    /// Override the name of the local named windows pipe used by the
    /// manager.
    pub windows_pipe: Option<String>,
}

impl NetworkSettings {
    /// Merges these settings with `other`; these take priority.
    pub fn merge(&mut self, other: NetworkSettings)
        ensures
            final(self).unix_socket == (if old(self).unix_socket is Some {
                old(self).unix_socket
            } else {
                other.unix_socket
            }),
            final(self).windows_pipe == (if old(self).windows_pipe is Some {
                old(self).windows_pipe
            } else {
                other.windows_pipe
            }),
    {
        if self.unix_socket.is_none() {
            self.unix_socket = other.unix_socket;
        }
        if self.windows_pipe.is_none() {
            self.windows_pipe = other.windows_pipe;
        }
    }

    /// The configured unix socket path, if any.
    pub fn as_unix_socket_opt(&self) -> (r: Option<&str>)
        ensures
            match r {
                Option::Some(p) => self.unix_socket matches Option::Some(s) && p@ == s@,
                Option::None => self.unix_socket is None,
            },
    {
        match &self.unix_socket {
            Option::Some(s) => Option::Some(s.as_str()),
            Option::None => Option::None,
        }
    }

    /// The configured windows pipe name, if any.
    pub fn as_windows_pipe_opt(&self) -> (r: Option<&str>)
        ensures
            match r {
                Option::Some(p) => self.windows_pipe matches Option::Some(s) && p@ == s@,
                Option::None => self.windows_pipe is None,
            },
    {
        match &self.windows_pipe {
            Option::Some(s) => Option::Some(s.as_str()),
            Option::None => Option::None,
        }
    }

    /// The candidate unix socket paths: the configured one alone, or the
    /// given user and global defaults in that order.
    pub fn to_unix_socket_path_candidates(&self, user_default: &str, global_default: &str) -> (r:
        Vec<String>)
        ensures
            self.unix_socket matches Option::Some(p) ==> r.deep_view() =~= seq![p@],
            self.unix_socket is None ==> r.deep_view() =~= seq![user_default@, global_default@],
    {
        let mut r: Vec<String> = Vec::new();
        match &self.unix_socket {
            Option::Some(p) => {
                r.push(p.clone());
            },
            Option::None => {
                r.push(user_default.to_owned());
                r.push(global_default.to_owned());
            },
        }
        r
    }

    /// The candidate windows pipe names: the configured one alone, or the
    /// given user and global defaults in that order.
    pub fn to_windows_pipe_name_candidates(&self, user_default: &str, global_default: &str) -> (r:
        Vec<String>)
        ensures
            self.windows_pipe matches Option::Some(p) ==> r.deep_view() =~= seq![p@],
            self.windows_pipe is None ==> r.deep_view() =~= seq![user_default@, global_default@],
    {
        let mut r: Vec<String> = Vec::new();
        match &self.windows_pipe {
            Option::Some(p) => {
                r.push(p.clone());
            },
            Option::None => {
                r.push(user_default.to_owned());
                r.push(global_default.to_owned());
            },
        }
        r
    }
}

} // verus!
