//! Settings read from git's configuration and from the environment.
use vstd::prelude::*;
use crate::error::QSyncError;

verus! {

/// The git configuration key naming the VM that bundles are imported from.
pub const SOURCE_VM_KEY: &'static str = "qsync.source-vm";

/// The transfer utility used where no override is given.
pub const DEFAULT_QVM_MOVE_PATH: &'static str = "/usr/bin/qvm-move";

/// A configuration value as this tool reads it: an empty value counts as unset.
pub open spec fn effective_value(raw: Option<Seq<char>>) -> Option<Seq<char>> {
    match raw {
        Some(v) => if v.len() == 0 { None } else { Some(v) },
        None => None,
    }
}

/// The per-repository settings of the tool.
#[derive(Debug, Clone)]
pub struct Config {
    pub source_vm: Option<String>,
}

impl Config {
    /// Builds the settings from the raw value of `qsync.source-vm`, as the
    /// caller read it from git's configuration (`None` where it is unset).
    pub fn load(raw_source_vm: Option<String>) -> (c: Config)
        ensures
            c.source_vm.deep_view() == effective_value(raw_source_vm.deep_view()),
    {
        match raw_source_vm {
            Some(v) => {
                if v.as_str().unicode_len() == 0 {
                    Config { source_vm: None }
                } else {
                    Config { source_vm: Some(v) }
                }
            },
            None => Config { source_vm: None },
        }
    }

    /// The source VM, or the error that names the missing key.
    pub fn get_source_vm(&self) -> (r: Result<String, QSyncError>)
        ensures
            match (r, self.source_vm) {
                (Ok(v), Some(s)) => v@ == s@,
                (Err(QSyncError::ConfigMissing { key }), None) => key@ == SOURCE_VM_KEY@,
                _ => false,
            },
    {
        match &self.source_vm {
            Some(s) => Ok(s.clone()),
            None => Err(QSyncError::ConfigMissing { key: String::from_str(SOURCE_VM_KEY) }),
        }
    }
}

/// Settings taken from the environment.
#[derive(Debug, Clone)]
pub struct SystemConfig {
    pub qvm_move_path: String,
}

impl SystemConfig {
    /// Builds the settings from the value of `QVM_MOVE_PATH` as the caller
    /// read it from the environment; without one the well-known path is used.
    pub fn from_env(qvm_move_path_var: Option<String>) -> (c: SystemConfig)
        ensures
            c.qvm_move_path@ == match qvm_move_path_var.deep_view() {
                Some(p) => p,
                None => DEFAULT_QVM_MOVE_PATH@,
            },
    {
        match qvm_move_path_var {
            Some(p) => SystemConfig { qvm_move_path: p },
            None => SystemConfig { qvm_move_path: String::from_str(DEFAULT_QVM_MOVE_PATH) },
        }
    }
}

} // verus!
