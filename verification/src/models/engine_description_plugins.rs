//! One plugin of an engine description.

use vstd::prelude::*;

verus! {

#[derive(Clone, Debug, PartialEq)]
pub struct EngineDescriptionPlugins {
    pub plugin_type: Option<String>,
    pub name: Option<String>,
}

} // verus!
