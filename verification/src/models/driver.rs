//! A driver by name, with its driver-specific options.

use vstd::prelude::*;

use std::collections::HashMap;

verus! {

#[derive(Clone, Debug, PartialEq)]
pub struct Driver {
    pub name: String,
    pub options: Option<HashMap<String, String>>,
}

} // verus!
