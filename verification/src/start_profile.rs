use vstd::prelude::*;

use crate::text::str_equals;

verus! {

/// The start profiles offered when the program starts.
#[derive(Debug, Clone, Copy, PartialEq, Eq, Structural)]
pub enum StartProfile {
    /// Regular initialization.
    Regular,
    /// Boot without sending hooks.
    WithoutHooks,
    /// Add a new webhook client.
    AddWebhook,
    /// Remove a webhook client.
    RemoveWebhook,
    /// Run without hooks or file verification.
    WithoutHooksOrVerification,
    /// Test a webhook client.
    TestHook,
}

/// The profile that an answer selects, the answer taken with surrounding
/// whitespace already removed; `None` for any other answer.
pub open spec fn profile_of(answer: Seq<char>) -> Option<StartProfile> {
    if answer == "1"@ {
        Some(StartProfile::Regular)
    } else if answer == "2"@ {
        Some(StartProfile::WithoutHooks)
    } else if answer == "3"@ {
        Some(StartProfile::AddWebhook)
    } else if answer == "4"@ {
        Some(StartProfile::RemoveWebhook)
    } else if answer == "5"@ {
        Some(StartProfile::WithoutHooksOrVerification)
    } else if answer == "6"@ {
        Some(StartProfile::TestHook)
    } else {
        None
    }
}

/// Reads the chosen profile from the trimmed answer.
pub fn choose_profile(answer: &str) -> (res: Option<StartProfile>)
    ensures
        res == profile_of(answer@),
{
    if str_equals(answer, "1") {
        Some(StartProfile::Regular)
    } else if str_equals(answer, "2") {
        Some(StartProfile::WithoutHooks)
    } else if str_equals(answer, "3") {
        Some(StartProfile::AddWebhook)
    } else if str_equals(answer, "4") {
        Some(StartProfile::RemoveWebhook)
    } else if str_equals(answer, "5") {
        Some(StartProfile::WithoutHooksOrVerification)
    } else if str_equals(answer, "6") {
        Some(StartProfile::TestHook)
    } else {
        None
    }
}

impl StartProfile {
    /// Whether the news found afterwards is sent to the webhook clients: the
    /// regular profile and the two that edit the clients keep sending on (the
    /// latter end the program once the clients are edited); the others boot
    /// without hooks.
    pub fn sends_hooks(&self) -> (res: bool)
        ensures
            res == (*self == StartProfile::Regular || *self == StartProfile::AddWebhook
                || *self == StartProfile::RemoveWebhook),
    {
        match self {
            StartProfile::Regular => true,
            StartProfile::WithoutHooks => false,
            StartProfile::AddWebhook => true,
            StartProfile::RemoveWebhook => true,
            StartProfile::WithoutHooksOrVerification => false,
            StartProfile::TestHook => false,
        }
    }
}

}
