//! The platform descriptions a distribution-inspect response lists.

use vstd::prelude::*;

verus! {

#[allow(non_snake_case)]
#[derive(Clone, Debug, PartialEq)]
pub struct DistributionInspectResponsePlatforms {
    pub architecture: Option<String>,
    pub OS: Option<String>,
    pub os_version: Option<String>,
    pub os_features: Option<Vec<String>>,
    pub variant: Option<String>,
    pub features: Option<Vec<String>>,
}

impl DistributionInspectResponsePlatforms {
    /// A value with every field unset.
    pub fn new() -> (r: DistributionInspectResponsePlatforms)
        ensures
            r == (DistributionInspectResponsePlatforms { architecture: None, OS: None, os_version: None, os_features: None, variant: None, features: None }),
    {
        DistributionInspectResponsePlatforms { architecture: None, OS: None, os_version: None, os_features: None, variant: None, features: None }
    }

    /// Sets the `architecture` field, leaving the rest unchanged.
    pub fn set_architecture(&mut self, architecture: String)
        ensures
            *final(self) == (DistributionInspectResponsePlatforms { architecture: Some(architecture), ..*old(self) }),
    {
        self.architecture = Some(architecture);
    }

    /// The builder form of `set_architecture`.
    pub fn with_architecture(self, architecture: String) -> (r: DistributionInspectResponsePlatforms)
        ensures
            r == (DistributionInspectResponsePlatforms { architecture: Some(architecture), ..self }),
    {
        DistributionInspectResponsePlatforms { architecture: Some(architecture), ..self }
    }

    /// The `architecture` field, if set.
    pub fn architecture(&self) -> (r: Option<&String>)
        ensures
            match r {
                Some(v) => self.architecture == Some(*v),
                None => self.architecture is None,
            },
    {
        match &self.architecture {
            Some(v) => Some(v),
            None => None,
        }
    }

    /// Clears the `architecture` field, leaving the rest unchanged.
    pub fn reset_architecture(&mut self)
        ensures
            *final(self) == (DistributionInspectResponsePlatforms { architecture: None, ..*old(self) }),
    {
        self.architecture = None;
    }

    #[allow(non_snake_case)]
    /// Sets the `OS` field, leaving the rest unchanged.
    pub fn set_OS(&mut self, OS: String)
        ensures
            *final(self) == (DistributionInspectResponsePlatforms { OS: Some(OS), ..*old(self) }),
    {
        self.OS = Some(OS);
    }

    #[allow(non_snake_case)]
    /// The builder form of `set_OS`.
    pub fn with_OS(self, OS: String) -> (r: DistributionInspectResponsePlatforms)
        ensures
            r == (DistributionInspectResponsePlatforms { OS: Some(OS), ..self }),
    {
        DistributionInspectResponsePlatforms { OS: Some(OS), ..self }
    }

    #[allow(non_snake_case)]
    /// The `OS` field, if set.
    pub fn OS(&self) -> (r: Option<&String>)
        ensures
            match r {
                Some(v) => self.OS == Some(*v),
                None => self.OS is None,
            },
    {
        match &self.OS {
            Some(v) => Some(v),
            None => None,
        }
    }

    #[allow(non_snake_case)]
    /// Clears the `OS` field, leaving the rest unchanged.
    pub fn reset_OS(&mut self)
        ensures
            *final(self) == (DistributionInspectResponsePlatforms { OS: None, ..*old(self) }),
    {
        self.OS = None;
    }

    /// Sets the `os_version` field, leaving the rest unchanged.
    pub fn set_os_version(&mut self, os_version: String)
        ensures
            *final(self) == (DistributionInspectResponsePlatforms { os_version: Some(os_version), ..*old(self) }),
    {
        self.os_version = Some(os_version);
    }

    /// The builder form of `set_os_version`.
    pub fn with_os_version(self, os_version: String) -> (r: DistributionInspectResponsePlatforms)
        ensures
            r == (DistributionInspectResponsePlatforms { os_version: Some(os_version), ..self }),
    {
        DistributionInspectResponsePlatforms { os_version: Some(os_version), ..self }
    }

    /// The `os_version` field, if set.
    pub fn os_version(&self) -> (r: Option<&String>)
        ensures
            match r {
                Some(v) => self.os_version == Some(*v),
                None => self.os_version is None,
            },
    {
        match &self.os_version {
            Some(v) => Some(v),
            None => None,
        }
    }

    /// Clears the `os_version` field, leaving the rest unchanged.
    pub fn reset_os_version(&mut self)
        ensures
            *final(self) == (DistributionInspectResponsePlatforms { os_version: None, ..*old(self) }),
    {
        self.os_version = None;
    }

    /// Sets the `os_features` field, leaving the rest unchanged.
    pub fn set_os_features(&mut self, os_features: Vec<String>)
        ensures
            *final(self) == (DistributionInspectResponsePlatforms { os_features: Some(os_features), ..*old(self) }),
    {
        self.os_features = Some(os_features);
    }

    /// The builder form of `set_os_features`.
    pub fn with_os_features(self, os_features: Vec<String>) -> (r: DistributionInspectResponsePlatforms)
        ensures
            r == (DistributionInspectResponsePlatforms { os_features: Some(os_features), ..self }),
    {
        DistributionInspectResponsePlatforms { os_features: Some(os_features), ..self }
    }

    /// The `os_features` field, if set.
    pub fn os_features(&self) -> (r: Option<&Vec<String>>)
        ensures
            match r {
                Some(v) => self.os_features == Some(*v),
                None => self.os_features is None,
            },
    {
        match &self.os_features {
            Some(v) => Some(v),
            None => None,
        }
    }

    /// Clears the `os_features` field, leaving the rest unchanged.
    pub fn reset_os_features(&mut self)
        ensures
            *final(self) == (DistributionInspectResponsePlatforms { os_features: None, ..*old(self) }),
    {
        self.os_features = None;
    }

    /// Sets the `variant` field, leaving the rest unchanged.
    pub fn set_variant(&mut self, variant: String)
        ensures
            *final(self) == (DistributionInspectResponsePlatforms { variant: Some(variant), ..*old(self) }),
    {
        self.variant = Some(variant);
    }

    /// The builder form of `set_variant`.
    pub fn with_variant(self, variant: String) -> (r: DistributionInspectResponsePlatforms)
        ensures
            r == (DistributionInspectResponsePlatforms { variant: Some(variant), ..self }),
    {
        DistributionInspectResponsePlatforms { variant: Some(variant), ..self }
    }

    /// The `variant` field, if set.
    pub fn variant(&self) -> (r: Option<&String>)
        ensures
            match r {
                Some(v) => self.variant == Some(*v),
                None => self.variant is None,
            },
    {
        match &self.variant {
            Some(v) => Some(v),
            None => None,
        }
    }

    /// Clears the `variant` field, leaving the rest unchanged.
    pub fn reset_variant(&mut self)
        ensures
            *final(self) == (DistributionInspectResponsePlatforms { variant: None, ..*old(self) }),
    {
        self.variant = None;
    }

    /// Sets the `features` field, leaving the rest unchanged.
    pub fn set_features(&mut self, features: Vec<String>)
        ensures
            *final(self) == (DistributionInspectResponsePlatforms { features: Some(features), ..*old(self) }),
    {
        self.features = Some(features);
    }

    /// The builder form of `set_features`.
    pub fn with_features(self, features: Vec<String>) -> (r: DistributionInspectResponsePlatforms)
        ensures
            r == (DistributionInspectResponsePlatforms { features: Some(features), ..self }),
    {
        DistributionInspectResponsePlatforms { features: Some(features), ..self }
    }

    /// The `features` field, if set.
    pub fn features(&self) -> (r: Option<&Vec<String>>)
        ensures
            match r {
                Some(v) => self.features == Some(*v),
                None => self.features is None,
            },
    {
        match &self.features {
            Some(v) => Some(v),
            None => None,
        }
    }

    /// Clears the `features` field, leaving the rest unchanged.
    pub fn reset_features(&mut self)
        ensures
            *final(self) == (DistributionInspectResponsePlatforms { features: None, ..*old(self) }),
    {
        self.features = None;
    }
}

} // verus!
