//! The concrete settings service: a validated key/value store.

use crate::settings::api::v1::SettingsApi;
use crate::settings::error::ServiceError;
use crate::settings::snapshot::SettingsSnapshot;
use crate::settings::types::{defaults, defaults_map, validate};
use vstd::prelude::*;

verus! {

/// The settings service. Holds all settings, starting from [`defaults`].
#[derive(Debug)]
pub struct SettingsService {
    values: SettingsSnapshot,
}

impl SettingsService {
    /// Create a settings service pre-loaded with the default values.
    pub fn new() -> (r: Self)
        ensures
            r.values() == defaults_map(),
    {
        SettingsService { values: defaults() }
    }
}

impl Default for SettingsService {
    fn default() -> (r: Self)
        ensures
            r.values() == defaults_map(),
    {
        SettingsService::new()
    }
}

impl SettingsApi for SettingsService {
    closed spec fn values(&self) -> Map<Seq<char>, Seq<char>> {
        self.values@
    }

    fn set(&mut self, key: &str, value: &str) -> (r: Result<String, ServiceError>) {
        // Validate first; the value is normalized on success.
        let normalized = validate(key, value)?;
        self.values.insert(key.to_string(), normalized.clone());
        Ok(normalized)
    }

    fn get(&self, key: &str) -> (r: Result<Option<String>, ServiceError>) {
        match self.values.get(key) {
            Some(v) => Ok(Some(v.clone())),
            None => Ok(None),
        }
    }

    fn snapshot(&self) -> (r: Result<SettingsSnapshot, ServiceError>) {
        Ok(self.values.clone())
    }
}

} // verus!
