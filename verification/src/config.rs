use vstd::prelude::*;

verus! {

/// Settings of a client: whether it logs, how long a request may take (in
/// seconds), and whether it logs in detail.
#[derive(Debug, Clone, Copy)]
pub struct ApiAlertsConfig {
    pub logging: bool,
    pub timeout: u8,
    pub debug: bool,
}

impl ApiAlertsConfig {
    /// The default settings: logging on, a 30 second timeout, debug off.
    pub fn new_default_config() -> (c: Self)
        ensures
            c.logging,
            c.timeout == 30,
            !c.debug,
    {
        ApiAlertsConfig { logging: true, timeout: 30, debug: false }
    }
}

} // verus!
