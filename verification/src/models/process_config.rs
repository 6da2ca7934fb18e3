//! The process configuration an exec-inspect response embeds.

use vstd::prelude::*;

verus! {

#[derive(Clone, Debug, PartialEq)]
pub struct ProcessConfig {
    pub privileged: Option<bool>,
    pub user: Option<String>,
    pub tty: Option<bool>,
    pub entrypoint: Option<String>,
    pub arguments: Option<Vec<String>>,
}

} // verus!
