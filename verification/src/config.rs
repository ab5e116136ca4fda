//! Deployment configuration: two named profiles with the connection
//! parameters the persistence collaborator needs, and the switch that
//! picks between them. Loading the file itself is the process shell's
//! business; the logic here only inspects plain values.

use vstd::prelude::*;
use vstd::string::StringExecFns;

verus! {

/// Connection parameters of the development profile.
#[derive(Debug, Clone)]
pub struct Dev {
    pub addr: String,
    pub username: String,
    pub password: String,
    pub dbname: String,
}

/// Connection parameters of the production profile.
#[derive(Debug, Clone)]
pub struct Prod {
    pub addr: String,
    pub username: String,
    pub password: String,
    pub dbname: String,
}

/// The whole configuration: which environment is selected, and both
/// profiles' parameters.
#[derive(Debug, Clone)]
pub struct Config {
    pub env: String,
    pub dev: Dev,
    pub prod: Prod,
}

impl Config {
    /// Whether the production profile is selected.
    pub fn is_prod_env(&self) -> (r: bool)
        ensures
            r == (self.env@ == "prod"@),
    {
        let p: String = String::from_str("prod");
        self.env == p
    }
}

} // verus!
