use vstd::prelude::*;

use crate::source::LogSourcesConfig;
use crate::telegram::TelegramConfig;

verus! {

/// Whether a greeting is sent at start when the settings do not say: it is.
pub fn default_hello() -> (r: bool)
    ensures
        r,
{
    true
}

/// All settings of the program.
pub struct Config {
    pub hello_message: bool,
    pub telegram: TelegramConfig,
    pub sources: LogSourcesConfig,
}

} // verus!
