//! Configuration file locations, resolved from the XDG base directories.

use vstd::prelude::*;
use vstd::string::StrSliceExecFns;
use vstd::string::StringExecFns;

verus! {

#[derive(Clone, Copy, Debug, PartialEq, Eq, Structural)]
pub enum ConfigPathError {
    MissingHomeDirectory,
}

/// The configuration file path for an application directory and file name:
/// under `XDG_CONFIG_HOME` when that is set and non-empty, else under
/// `HOME/.config`; an error when neither is available.
pub open spec fn spec_app_config_path(
    app_dir: Seq<char>,
    file_name: Seq<char>,
    xdg_config_home: Option<Seq<char>>,
    home: Option<Seq<char>>,
) -> Option<Seq<char>> {
    let root: Option<Seq<char>> = match xdg_config_home {
        Some(x) => if x.len() > 0 {
            Some(x)
        } else {
            match home {
                Some(h) => Some(h + "/.config"@),
                None => None,
            }
        },
        None => match home {
            Some(h) => Some(h + "/.config"@),
            None => None,
        },
    };
    match root {
        Some(r) => Some(r + "/"@ + app_dir + "/"@ + file_name),
        None => None,
    }
}

pub fn app_config_path(
    app_dir: &str,
    file_name: &str,
    xdg_config_home: Option<&str>,
    home: Option<&str>,
) -> (r: Result<String, ConfigPathError>)
    ensures
        ({
            match spec_app_config_path(
                app_dir@,
                file_name@,
                match xdg_config_home {
                    Some(x) => Some(x@),
                    None => None,
                },
                match home {
                    Some(h) => Some(h@),
                    None => None,
                },
            ) {
                Some(p) => r matches Ok(v) && v@ == p,
                None => r == Err::<String, ConfigPathError>(ConfigPathError::MissingHomeDirectory),
            }
        }),
{
    let mut root: String;
    match xdg_config_home {
        Some(x) => {
            if x.unicode_len() > 0 {
                root = x.to_owned();
            } else {
                match home {
                    Some(h) => {
                        root = h.to_owned();
                        root.append("/.config");
                    },
                    None => {
                        return Err(ConfigPathError::MissingHomeDirectory);
                    },
                }
            }
        },
        None => {
            match home {
                Some(h) => {
                    root = h.to_owned();
                    root.append("/.config");
                },
                None => {
                    return Err(ConfigPathError::MissingHomeDirectory);
                },
            }
        },
    }
    root.append("/");
    root.append(app_dir);
    root.append("/");
    root.append(file_name);
    Ok(root)
}

} // verus!
