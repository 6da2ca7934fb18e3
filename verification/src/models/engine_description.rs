//! Information about an engine, as a swarm node reports it.

use vstd::prelude::*;
use crate::models::engine_description_plugins::EngineDescriptionPlugins;
use std::collections::HashMap;

verus! {

#[derive(Clone, Debug, PartialEq)]
pub struct EngineDescription {
    pub engine_version: Option<String>,
    pub labels: Option<HashMap<String, String>>,
    pub plugins: Option<Vec<EngineDescriptionPlugins>>,
}

impl EngineDescription {
    /// A value with every field unset.
    pub fn new() -> (r: EngineDescription)
        ensures
            r == (EngineDescription { engine_version: None, labels: None, plugins: None }),
    {
        EngineDescription { engine_version: None, labels: None, plugins: None }
    }

    /// Sets the `engine_version` field, leaving the rest unchanged.
    pub fn set_engine_version(&mut self, engine_version: String)
        ensures
            *final(self) == (EngineDescription { engine_version: Some(engine_version), ..*old(self) }),
    {
        self.engine_version = Some(engine_version);
    }

    /// The builder form of `set_engine_version`.
    pub fn with_engine_version(self, engine_version: String) -> (r: EngineDescription)
        ensures
            r == (EngineDescription { engine_version: Some(engine_version), ..self }),
    {
        EngineDescription { engine_version: Some(engine_version), ..self }
    }

    /// The `engine_version` field, if set.
    pub fn engine_version(&self) -> (r: Option<&String>)
        ensures
            match r {
                Some(v) => self.engine_version == Some(*v),
                None => self.engine_version is None,
            },
    {
        match &self.engine_version {
            Some(v) => Some(v),
            None => None,
        }
    }

    /// Clears the `engine_version` field, leaving the rest unchanged.
    pub fn reset_engine_version(&mut self)
        ensures
            *final(self) == (EngineDescription { engine_version: None, ..*old(self) }),
    {
        self.engine_version = None;
    }

    /// Sets the `labels` field, leaving the rest unchanged.
    pub fn set_labels(&mut self, labels: HashMap<String, String>)
        ensures
            *final(self) == (EngineDescription { labels: Some(labels), ..*old(self) }),
    {
        self.labels = Some(labels);
    }

    /// The builder form of `set_labels`.
    pub fn with_labels(self, labels: HashMap<String, String>) -> (r: EngineDescription)
        ensures
            r == (EngineDescription { labels: Some(labels), ..self }),
    {
        EngineDescription { labels: Some(labels), ..self }
    }

    /// The `labels` field, if set.
    pub fn labels(&self) -> (r: Option<&HashMap<String, String>>)
        ensures
            match r {
                Some(v) => self.labels == Some(*v),
                None => self.labels is None,
            },
    {
        match &self.labels {
            Some(v) => Some(v),
            None => None,
        }
    }

    /// Clears the `labels` field, leaving the rest unchanged.
    pub fn reset_labels(&mut self)
        ensures
            *final(self) == (EngineDescription { labels: None, ..*old(self) }),
    {
        self.labels = None;
    }

    /// Sets the `plugins` field, leaving the rest unchanged.
    pub fn set_plugins(&mut self, plugins: Vec<EngineDescriptionPlugins>)
        ensures
            *final(self) == (EngineDescription { plugins: Some(plugins), ..*old(self) }),
    {
        self.plugins = Some(plugins);
    }

    /// The builder form of `set_plugins`.
    pub fn with_plugins(self, plugins: Vec<EngineDescriptionPlugins>) -> (r: EngineDescription)
        ensures
            r == (EngineDescription { plugins: Some(plugins), ..self }),
    {
        EngineDescription { plugins: Some(plugins), ..self }
    }

    /// The `plugins` field, if set.
    pub fn plugins(&self) -> (r: Option<&Vec<EngineDescriptionPlugins>>)
        ensures
            match r {
                Some(v) => self.plugins == Some(*v),
                None => self.plugins is None,
            },
    {
        match &self.plugins {
            Some(v) => Some(v),
            None => None,
        }
    }

    /// Clears the `plugins` field, leaving the rest unchanged.
    pub fn reset_plugins(&mut self)
        ensures
            *final(self) == (EngineDescription { plugins: None, ..*old(self) }),
    {
        self.plugins = None;
    }
}

} // verus!
