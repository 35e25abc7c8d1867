//! Switches that are read once when a run starts.

use vstd::prelude::*;
use crate::text::text_equals;

verus! {

/// The switches of a run.
#[derive(Debug, Clone, Copy, PartialEq, Eq, Structural)]
pub struct EnvFlag {
    /// Whether notices are sent to the webhooks.
    pub ft_webhook: bool,
}

/// What a switch's text means: only the word `true` switches on.
pub open spec fn switch_is_on(value: Option<Seq<char>>) -> bool {
    value == Some("true"@)
}

impl EnvFlag {
    /// The switches for the text found under `FT_WEBHOOK`, if any was found.
    pub fn load(value: Option<&str>) -> (out: EnvFlag)
        ensures
            out.ft_webhook == switch_is_on(
                match value {
                    Some(text) => Some(text@),
                    None => None,
                },
            ),
    {
        match value {
            Some(text) => EnvFlag { ft_webhook: text_equals(text, "true") },
            None => EnvFlag { ft_webhook: false },
        }
    }
}

impl Default for EnvFlag {
    /// All switches off.
    fn default() -> (out: Self)
        ensures
            !out.ft_webhook,
    {
        EnvFlag { ft_webhook: false }
    }
}

} // verus!
