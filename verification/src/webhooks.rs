use vstd::prelude::*;

verus! {

/// How a webhook client selects the posts it receives.
#[derive(Debug, Clone, Copy, PartialEq, Eq, Structural)]
pub enum FilterType {
    /// Posts that mention one of the built-in keywords.
    Default,
    /// Every post that mentions none of the client's keywords.
    Blacklist,
    /// Only posts that mention one of the client's keywords.
    Whitelist,
}

/// One registered webhook client.
#[derive(Debug, Clone, PartialEq, Eq)]
pub struct Hooks {
    pub name: String,
    pub token: String,
    pub uid: u64,
    pub filter: FilterType,
    pub keywords: Vec<String>,
}

/// The set of webhook clients that receive posts.
#[derive(Debug, Clone, PartialEq, Eq)]
pub struct WebhookAuth {
    pub hooks: Vec<Hooks>,
}

impl WebhookAuth {
    /// Registers a new client after the existing ones.
    pub fn add_hook(&mut self, hook: Hooks)
        ensures
            final(self).hooks@ == old(self).hooks@.push(hook),
    {
        self.hooks.push(hook);
    }

    /// Removes the client at `index`; the clients after it move up by one.
    pub fn remove_hook(&mut self, index: usize) -> (removed: Hooks)
        requires
            index < old(self).hooks@.len(),
        ensures
            removed == old(self).hooks@[index as int],
            final(self).hooks@ == old(self).hooks@.remove(index as int),
    {
        self.hooks.remove(index)
    }
}

/// Registering a client and then removing the client at the last position
/// gives back the registered client and the clients that were there before.
pub proof fn law_remove_after_add(before: Seq<Hooks>, hook: Hooks)
    ensures
        before.push(hook).remove(before.len() as int) == before,
        before.push(hook)[before.len() as int] == hook,
{
    assert(before.push(hook).remove(before.len() as int) =~= before);
}

}
