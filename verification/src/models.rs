//! Per-user game statistics.

use std::collections::HashMap;
use vstd::prelude::*;

verus! {

/// The statistics of one user.
#[derive(Debug)]
pub struct DarkSoulsUsers {
    deaths: u32,
}

impl DarkSoulsUsers {
    /// Statistics with the given number of deaths.
    pub fn new(deaths: u32) -> (user: DarkSoulsUsers)
        ensures
            user.death_count() == deaths,
    {
        DarkSoulsUsers { deaths }
    }

    /// The number of deaths, as a spec value.
    pub closed spec fn death_count(&self) -> u32 {
        self.deaths
    }

    /// The number of deaths.
    pub fn deaths(&self) -> (deaths: u32)
        ensures
            deaths == self.death_count(),
    {
        self.deaths
    }
}

/// The statistics of all users, by user name.
#[derive(Debug)]
pub struct DarkSoulsData {
    pub users: HashMap<String, DarkSoulsUsers>,
}

} // verus!
