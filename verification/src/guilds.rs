//! Guild metadata as the platform's API lists it for the current user.

use vstd::prelude::*;

verus! {

/// One guild (server) the user belongs to.
#[derive(Debug, Clone)]
pub struct Guild {
    pub id: String,
    pub name: String,
    pub icon: Option<String>,
    pub owner: bool,
    pub permissions: String,
    pub features: Vec<String>,
}

} // verus!
