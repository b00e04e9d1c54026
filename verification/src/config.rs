//! The configuration the operations receive: defaults, and the merge of
//! settings read from the persisted configuration file.  Reading and
//! writing the file itself is the caller's business; the settings arrive
//! here as plain key/value pairs.

use vstd::prelude::*;

use crate::error::{ApiError, ApiErrorKind};
use crate::mc_info::{LOADER, VT};
use crate::text::{lower_seq, str_eq};

verus! {

/// The configuration keys are pairwise distinct.
proof fn lemma_config_keys()
    ensures
        "release_type"@.len() == 12,
        "loader"@.len() == 6,
        "download_path"@.len() == 13,
        "pack_path"@.len() == 9,
        "mc_ver"@.len() == 6,
        "staging"@.len() == 7,
        "install_path"@.len() == 12,
        "loader"@ != "mc_ver"@,
        "release_type"@ != "install_path"@,
{
    reveal_strlit("release_type");
    reveal_strlit("loader");
    reveal_strlit("download_path");
    reveal_strlit("pack_path");
    reveal_strlit("mc_ver");
    reveal_strlit("staging");
    reveal_strlit("install_path");
    assert("loader"@[0] != "mc_ver"@[0]);
    assert("release_type"@[0] != "install_path"@[0]);
}

/// One value of the configuration file: a text setting or a number.
#[derive(Clone, Debug)]
pub enum ConfigValue {
    Text(String),
    Number(usize),
}

/// The fully resolved configuration every operation receives.
#[derive(Clone, Debug)]
pub struct Configuration {
    pub release_type: VT,
    pub loader: LOADER,
    pub download_path: String,
    pub pack_path: String,
    pub mc_ver: String,
    pub staging: usize,
    pub install_path: Option<String>,
}

impl Configuration {
    /// The default configuration, rooted at the given home directory.
    pub fn defaults(home: &str) -> (c: Configuration)
        ensures
            c.release_type == VT::RELEASE,
            c.loader == LOADER::FABRIC,
            c.download_path@ == home@ + "/Downloads"@,
            c.pack_path@ == home@ + "/.config/modrinth-apitool/packs"@,
            c.mc_ver@ == "latest"@,
            c.staging == 0,
            c.install_path is None,
    {
        let mut download_path = String::from_str(home);
        download_path.append("/Downloads");
        let mut pack_path = String::from_str(home);
        pack_path.append("/.config/modrinth-apitool/packs");
        let mut mc_ver = String::new();
        mc_ver.append("latest");
        Configuration {
            release_type: VT::RELEASE,
            loader: LOADER::FABRIC,
            download_path,
            pack_path,
            mc_ver,
            staging: 0,
            install_path: None,
        }
    }

    /// Merges one setting of the configuration file into this
    /// configuration.  Returns whether the key was known; a known key
    /// with an unusable value is an `InvalidData` error, and the
    /// configuration is then left unchanged.
    pub fn apply_setting(&mut self, key: &str, value: &ConfigValue) -> (r: Result<
        bool,
        ApiError,
    >)
        ensures
            r == Ok::<bool, ApiError>(false) ==> *final(self) == *old(self) && key@
                != "release_type"@ && key@ != "loader"@ && key@ != "download_path"@ && key@
                != "pack_path"@ && key@ != "mc_ver"@ && key@ != "staging"@ && key@
                != "install_path"@,
            r is Err ==> *final(self) == *old(self) && r->Err_0.kind == ApiErrorKind::InvalidData,
            key@ == "release_type"@ ==> match *value {
                ConfigValue::Text(ref t) => {
                    &&& (r is Ok <==> (lower_seq(t@) == "release"@ || lower_seq(t@) == "beta"@
                        || lower_seq(t@) == "alpha"@))
                    &&& r is Ok ==> *final(self) == (Configuration {
                        release_type: final(self).release_type,
                        ..*old(self)
                    })
                    &&& lower_seq(t@) == "release"@ ==> final(self).release_type == VT::RELEASE
                    &&& lower_seq(t@) == "beta"@ ==> final(self).release_type == VT::BETA
                    &&& lower_seq(t@) == "alpha"@ ==> final(self).release_type == VT::ALPHA
                },
                ConfigValue::Number(_) => r is Err,
            },
            key@ == "loader"@ ==> match *value {
                ConfigValue::Text(ref t) => {
                    &&& (r is Ok <==> (lower_seq(t@) == "fabric"@ || lower_seq(t@) == "quilt"@
                        || lower_seq(t@) == "neoforge"@ || lower_seq(t@) == "forge"@))
                    &&& r is Ok ==> *final(self) == (Configuration {
                        loader: final(self).loader,
                        ..*old(self)
                    })
                    &&& lower_seq(t@) == "fabric"@ ==> final(self).loader == LOADER::FABRIC
                    &&& lower_seq(t@) == "quilt"@ ==> final(self).loader == LOADER::QUILT
                    &&& lower_seq(t@) == "neoforge"@ ==> final(self).loader == LOADER::NEOFORGE
                    &&& lower_seq(t@) == "forge"@ ==> final(self).loader == LOADER::FORGE
                },
                ConfigValue::Number(_) => r is Err,
            },
            key@ == "download_path"@ ==> match *value {
                ConfigValue::Text(ref t) => r == Ok::<bool, ApiError>(true) && final(self).download_path@ == t@ && *final(self) == (Configuration {
                    download_path: final(self).download_path,
                    ..*old(self)
                }),
                ConfigValue::Number(_) => r is Err,
            },
            key@ == "pack_path"@ ==> match *value {
                ConfigValue::Text(ref t) => r == Ok::<bool, ApiError>(true) && final(self).pack_path@ == t@ && *final(self) == (Configuration {
                    pack_path: final(self).pack_path,
                    ..*old(self)
                }),
                ConfigValue::Number(_) => r is Err,
            },
            key@ == "mc_ver"@ ==> match *value {
                ConfigValue::Text(ref t) => r == Ok::<bool, ApiError>(true) && final(self).mc_ver@ == t@ && *final(self) == (Configuration {
                    mc_ver: final(self).mc_ver,
                    ..*old(self)
                }),
                ConfigValue::Number(_) => r is Err,
            },
            key@ == "install_path"@ ==> match *value {
                ConfigValue::Text(ref t) => r == Ok::<bool, ApiError>(true) && (final(self).install_path matches Some(p) && p@ == t@) && *final(self) == (Configuration {
                    install_path: final(self).install_path,
                    ..*old(self)
                }),
                ConfigValue::Number(_) => r is Err,
            },
            key@ == "staging"@ ==> match *value {
                ConfigValue::Number(n) => r == Ok::<bool, ApiError>(true) && final(self).staging
                    == n && *final(self) == (Configuration {
                    staging: final(self).staging,
                    ..*old(self)
                }),
                ConfigValue::Text(_) => r is Err,
            },
    {
        proof {
            lemma_config_keys();
        }
        if str_eq(key, "release_type") {
            match value {
                ConfigValue::Text(t) => match VT::from_str(t.as_str()) {
                    Ok(vt) => {
                        self.release_type = vt;
                        Ok(true)
                    },
                    Err(_) => Err(ApiError::invalid_data()),
                },
                _ => Err(ApiError::invalid_data()),
            }
        } else if str_eq(key, "loader") {
            match value {
                ConfigValue::Text(t) => match LOADER::from_str(t.as_str()) {
                    Ok(l) => {
                        self.loader = l;
                        Ok(true)
                    },
                    Err(_) => Err(ApiError::invalid_data()),
                },
                _ => Err(ApiError::invalid_data()),
            }
        } else if str_eq(key, "download_path") {
            match value {
                ConfigValue::Text(t) => {
                    self.download_path = t.clone();
                    Ok(true)
                },
                _ => Err(ApiError::invalid_data()),
            }
        } else if str_eq(key, "pack_path") {
            match value {
                ConfigValue::Text(t) => {
                    self.pack_path = t.clone();
                    Ok(true)
                },
                _ => Err(ApiError::invalid_data()),
            }
        } else if str_eq(key, "mc_ver") {
            match value {
                ConfigValue::Text(t) => {
                    self.mc_ver = t.clone();
                    Ok(true)
                },
                _ => Err(ApiError::invalid_data()),
            }
        } else if str_eq(key, "install_path") {
            match value {
                ConfigValue::Text(t) => {
                    self.install_path = Some(t.clone());
                    Ok(true)
                },
                _ => Err(ApiError::invalid_data()),
            }
        } else if str_eq(key, "staging") {
            match value {
                ConfigValue::Number(n) => {
                    self.staging = *n;
                    Ok(true)
                },
                _ => Err(ApiError::invalid_data()),
            }
        } else {
            Ok(false)
        }
    }
}

} // verus!
