//! The service's whole configuration.
use vstd::prelude::*;

use crate::{discord, moonraker};

verus! {

/// The chat side's and the daemon side's settings together.
#[derive(Clone, Debug, PartialEq, Eq)]
pub struct Config {
    pub discord: discord::Config,
    pub moonraker: moonraker::Config,
}

} // verus!
