//! The directory in which the gateway keeps its files, and the rule by which
//! it is chosen.

use vstd::prelude::*;
use vstd::string::*;

verus! {

/// What the file system says of a path that is proposed as the directory.
#[derive(Debug, Clone, Copy, PartialEq, Eq, Structural)]
pub struct DirProbe {
    /// Whether something exists at the path.
    pub exists: bool,
    /// Whether a directory exists at the path.
    pub is_dir: bool,
    /// Whether the path has a parent.
    pub has_parent: bool,
    /// Whether the parent is an existing directory.
    pub parent_is_dir: bool,
    /// Whether the parent is the empty path, which stands for the working
    /// directory.
    pub parent_is_empty: bool,
}

/// What the environment proposes as the directory.
#[derive(Debug)]
pub enum EnvRequest {
    /// The variable is not set.
    NotSet,
    /// The variable is set and its value cannot be read as text.
    Unreadable,
    /// The variable names this path.
    Named { path: String, probe: DirProbe },
}

/// Why no directory could be chosen.
#[derive(Debug, Clone, Copy, PartialEq, Eq, Structural)]
pub enum EnvError {
    /// The user has no home directory, so there is no default directory.
    HomeNotFound,
}

impl EnvError {
    /// The error in words.
    pub fn message(&self) -> (r: String)
        ensures
            r@ == "无法找到用户主目录，无法确定默认配置路径。"@,
    {
        String::from_str("无法找到用户主目录，无法确定默认配置路径。")
    }
}

/// The directory in which the gateway keeps its files.
#[derive(Debug, Clone)]
pub struct NetDiskEnv {
    pub config_dir: String,
}

/// Whether a proposed path can serve: a path at which nothing exists can if
/// it could be created, that is if its parent is a directory, is the working
/// directory, or is missing altogether; a path at which something exists can
/// if that is a directory.
pub open spec fn usable(probe: DirProbe) -> bool {
    if !probe.exists {
        !probe.has_parent || probe.parent_is_dir || probe.parent_is_empty
    } else {
        probe.is_dir
    }
}

/// The directory that is chosen: the one that the environment proposes if it
/// is usable, else the default. Without a default there is no choice, even
/// where the environment proposes a usable path.
pub open spec fn chosen_dir(default_dir: Option<Seq<char>>, requested: EnvRequest) -> Result<
    Seq<char>,
    EnvError,
> {
    match default_dir {
        None => Err(EnvError::HomeNotFound),
        Some(default) => match requested {
            EnvRequest::Named { path, probe } => if usable(probe) {
                Ok(path@)
            } else {
                Ok(default)
            },
            _ => Ok(default),
        },
    }
}

impl NetDiskEnv {
    /// Chooses the directory. `default_dir` is the directory below the
    /// user's home, or `None` where the user has no home.
    pub fn new(default_dir: Option<String>, requested: EnvRequest) -> (r: Result<
        NetDiskEnv,
        EnvError,
    >)
        ensures
            match r {
                Ok(env) => Ok(env.config_dir@),
                Err(e) => Err(e),
            } == chosen_dir(default_dir.deep_view(), requested),
    {
        let default = match default_dir {
            Some(d) => d,
            None => {
                return Err(EnvError::HomeNotFound);
            },
        };
        let final_path = match requested {
            EnvRequest::Named { path, probe } => {
                if NetDiskEnv::is_valid_and_writable(&probe) {
                    path
                } else {
                    default
                }
            },
            _ => default,
        };
        Ok(NetDiskEnv { config_dir: final_path })
    }

    /// Decides whether a proposed path can serve.
    pub fn is_valid_and_writable(probe: &DirProbe) -> (r: bool)
        ensures
            r == usable(*probe),
    {
        if !probe.exists {
            if probe.has_parent {
                return probe.parent_is_dir || probe.parent_is_empty;
            }
            return true;
        }
        if !probe.is_dir {
            return false;
        }
        true
    }
}

} // verus!
