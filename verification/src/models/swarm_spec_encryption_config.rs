//! Parameters related to encryption-at-rest.

use vstd::prelude::*;

verus! {

#[derive(Clone, Debug, PartialEq)]
pub struct SwarmSpecEncryptionConfig {
    pub auto_lock_managers: Option<bool>,
}

impl SwarmSpecEncryptionConfig {
    /// A value with every field unset.
    pub fn new() -> (r: SwarmSpecEncryptionConfig)
        ensures
            r == (SwarmSpecEncryptionConfig { auto_lock_managers: None }),
    {
        SwarmSpecEncryptionConfig { auto_lock_managers: None }
    }

    /// Sets the `auto_lock_managers` field, leaving the rest unchanged.
    pub fn set_auto_lock_managers(&mut self, auto_lock_managers: bool)
        ensures
            *final(self) == (SwarmSpecEncryptionConfig { auto_lock_managers: Some(auto_lock_managers), ..*old(self) }),
    {
        self.auto_lock_managers = Some(auto_lock_managers);
    }

    /// The builder form of `set_auto_lock_managers`.
    pub fn with_auto_lock_managers(self, auto_lock_managers: bool) -> (r: SwarmSpecEncryptionConfig)
        ensures
            r == (SwarmSpecEncryptionConfig { auto_lock_managers: Some(auto_lock_managers), ..self }),
    {
        SwarmSpecEncryptionConfig { auto_lock_managers: Some(auto_lock_managers), ..self }
    }

    /// The `auto_lock_managers` field, if set.
    pub fn auto_lock_managers(&self) -> (r: Option<&bool>)
        ensures
            match r {
                Some(v) => self.auto_lock_managers == Some(*v),
                None => self.auto_lock_managers is None,
            },
    {
        match &self.auto_lock_managers {
            Some(v) => Some(v),
            None => None,
        }
    }

    /// Clears the `auto_lock_managers` field, leaving the rest unchanged.
    pub fn reset_auto_lock_managers(&mut self)
        ensures
            *final(self) == (SwarmSpecEncryptionConfig { auto_lock_managers: None, ..*old(self) }),
    {
        self.auto_lock_managers = None;
    }
}

} // verus!
