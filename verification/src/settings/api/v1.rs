//! Version 1 of the settings service API.

use crate::settings::error::ServiceError;
use crate::settings::snapshot::SettingsSnapshot;
use crate::settings::types::{after_set, validated};
use vstd::prelude::*;

verus! {

/// The settings contract. The state is the map of all settings
/// ([`SettingsApi::values`]).
pub trait SettingsApi {
    /// All settings, key to value.
    spec fn values(&self) -> Map<Seq<char>, Seq<char>>;

    /// Set `key` to `value`, returning the normalized value actually stored.
    ///
    /// # Errors
    /// [`ServiceError::UnknownKey`] or [`ServiceError::InvalidValue`] if the
    /// key or value is not accepted; the settings are then unchanged.
    fn set(&mut self, key: &str, value: &str) -> (r: Result<String, ServiceError>)
        ensures
            validated(key@, value@, r),
            final(self).values() == after_set(old(self).values(), key@, value@),
    ;

    /// Read a single setting's value, if the key exists.
    fn get(&self, key: &str) -> (r: Result<Option<String>, ServiceError>)
        ensures
            r matches Ok(found) && match found {
                Some(v) => self.values().contains_key(key@) && self.values()[key@] == v@,
                None => !self.values().contains_key(key@),
            },
    ;

    /// Read a snapshot of all settings.
    fn snapshot(&self) -> (r: Result<SettingsSnapshot, ServiceError>)
        ensures
            r matches Ok(s) && s@ == self.values(),
    ;
}

} // verus!
