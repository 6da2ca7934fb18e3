//! The specification of a secret: its name, metadata and payload.

use vstd::prelude::*;
use crate::models::driver::Driver;
use std::collections::HashMap;

verus! {

#[derive(Clone, Debug, PartialEq)]
pub struct SecretSpec {
    pub name: Option<String>,
    pub labels: Option<HashMap<String, String>>,
    pub data: Option<String>,
    pub driver: Option<Driver>,
    pub templating: Option<Driver>,
}

impl SecretSpec {
    /// A value with every field unset.
    pub fn new() -> (r: SecretSpec)
        ensures
            r == (SecretSpec { name: None, labels: None, data: None, driver: None, templating: None }),
    {
        SecretSpec { name: None, labels: None, data: None, driver: None, templating: None }
    }

    /// Sets the `name` field, leaving the rest unchanged.
    pub fn set_name(&mut self, name: String)
        ensures
            *final(self) == (SecretSpec { name: Some(name), ..*old(self) }),
    {
        self.name = Some(name);
    }

    /// The builder form of `set_name`.
    pub fn with_name(self, name: String) -> (r: SecretSpec)
        ensures
            r == (SecretSpec { name: Some(name), ..self }),
    {
        SecretSpec { name: Some(name), ..self }
    }

    /// The `name` field, if set.
    pub fn name(&self) -> (r: Option<&String>)
        ensures
            match r {
                Some(v) => self.name == Some(*v),
                None => self.name is None,
            },
    {
        match &self.name {
            Some(v) => Some(v),
            None => None,
        }
    }

    /// Clears the `name` field, leaving the rest unchanged.
    pub fn reset_name(&mut self)
        ensures
            *final(self) == (SecretSpec { name: None, ..*old(self) }),
    {
        self.name = None;
    }

    /// Sets the `labels` field, leaving the rest unchanged.
    pub fn set_labels(&mut self, labels: HashMap<String, String>)
        ensures
            *final(self) == (SecretSpec { labels: Some(labels), ..*old(self) }),
    {
        self.labels = Some(labels);
    }

    /// The builder form of `set_labels`.
    pub fn with_labels(self, labels: HashMap<String, String>) -> (r: SecretSpec)
        ensures
            r == (SecretSpec { labels: Some(labels), ..self }),
    {
        SecretSpec { labels: Some(labels), ..self }
    }

    /// The `labels` field, if set.
    pub fn labels(&self) -> (r: Option<&HashMap<String, String>>)
        ensures
            match r {
                Some(v) => self.labels == Some(*v),
                None => self.labels is None,
            },
    {
        match &self.labels {
            Some(v) => Some(v),
            None => None,
        }
    }

    /// Clears the `labels` field, leaving the rest unchanged.
    pub fn reset_labels(&mut self)
        ensures
            *final(self) == (SecretSpec { labels: None, ..*old(self) }),
    {
        self.labels = None;
    }

    /// Sets the `data` field, leaving the rest unchanged.
    pub fn set_data(&mut self, data: String)
        ensures
            *final(self) == (SecretSpec { data: Some(data), ..*old(self) }),
    {
        self.data = Some(data);
    }

    /// The builder form of `set_data`.
    pub fn with_data(self, data: String) -> (r: SecretSpec)
        ensures
            r == (SecretSpec { data: Some(data), ..self }),
    {
        SecretSpec { data: Some(data), ..self }
    }

    /// The `data` field, if set.
    pub fn data(&self) -> (r: Option<&String>)
        ensures
            match r {
                Some(v) => self.data == Some(*v),
                None => self.data is None,
            },
    {
        match &self.data {
            Some(v) => Some(v),
            None => None,
        }
    }

    /// Clears the `data` field, leaving the rest unchanged.
    pub fn reset_data(&mut self)
        ensures
            *final(self) == (SecretSpec { data: None, ..*old(self) }),
    {
        self.data = None;
    }

    /// Sets the `driver` field, leaving the rest unchanged.
    pub fn set_driver(&mut self, driver: Driver)
        ensures
            *final(self) == (SecretSpec { driver: Some(driver), ..*old(self) }),
    {
        self.driver = Some(driver);
    }

    /// The builder form of `set_driver`.
    pub fn with_driver(self, driver: Driver) -> (r: SecretSpec)
        ensures
            r == (SecretSpec { driver: Some(driver), ..self }),
    {
        SecretSpec { driver: Some(driver), ..self }
    }

    /// The `driver` field, if set.
    pub fn driver(&self) -> (r: Option<&Driver>)
        ensures
            match r {
                Some(v) => self.driver == Some(*v),
                None => self.driver is None,
            },
    {
        match &self.driver {
            Some(v) => Some(v),
            None => None,
        }
    }

    /// Clears the `driver` field, leaving the rest unchanged.
    pub fn reset_driver(&mut self)
        ensures
            *final(self) == (SecretSpec { driver: None, ..*old(self) }),
    {
        self.driver = None;
    }

    /// Sets the `templating` field, leaving the rest unchanged.
    pub fn set_templating(&mut self, templating: Driver)
        ensures
            *final(self) == (SecretSpec { templating: Some(templating), ..*old(self) }),
    {
        self.templating = Some(templating);
    }

    /// The builder form of `set_templating`.
    pub fn with_templating(self, templating: Driver) -> (r: SecretSpec)
        ensures
            r == (SecretSpec { templating: Some(templating), ..self }),
    {
        SecretSpec { templating: Some(templating), ..self }
    }

    /// The `templating` field, if set.
    pub fn templating(&self) -> (r: Option<&Driver>)
        ensures
            match r {
                Some(v) => self.templating == Some(*v),
                None => self.templating is None,
            },
    {
        match &self.templating {
            Some(v) => Some(v),
            None => None,
        }
    }

    /// Clears the `templating` field, leaving the rest unchanged.
    pub fn reset_templating(&mut self)
        ensures
            *final(self) == (SecretSpec { templating: None, ..*old(self) }),
    {
        self.templating = None;
    }
}

} // verus!
