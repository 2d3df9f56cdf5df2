//! Resolves whether invoking a named tool on a server requires the user's
//! confirmation, from a global allow flag and the server's optional policy.

use vstd::prelude::*;

verus! {

/// Per-server confirmation policy: an optional server-wide default and a
/// per-tool override table (tool name to required / not required).
///
/// The table stands for a mapping: its keys are meant to be distinct. Lookup
/// takes the first entry whose key matches, so duplicate keys cannot make it
/// ambiguous.
#[derive(Debug, Clone)]
pub struct ConfirmationPolicy {
    /// Whether tools without an explicit override need confirmation;
    /// `None` means the server sets no default.
    pub default_needs_confirmation: Option<bool>,
    /// Explicit per-tool overrides, keyed by tool name.
    pub tools: Vec<(String, bool)>,
}

/// The override recorded for `name`, if any: the first entry whose key is
/// `name`.
pub open spec fn override_lookup(entries: Seq<(String, bool)>, name: Seq<char>) -> Option<bool>
    decreases entries.len(),
{
    if entries.len() == 0 {
        None
    } else if entries[0].0@ == name {
        Some(entries[0].1)
    } else {
        override_lookup(entries.skip(1), name)
    }
}

/// The confirmation decision, in strict precedence order: the global allow
/// flag suppresses confirmation outright; otherwise an explicit per-tool
/// override wins; otherwise the server default applies; and where nothing is
/// configured, confirmation is required.
pub open spec fn requires_confirmation_spec(
    global_always_allow: bool,
    policy: Option<&ConfirmationPolicy>,
    tool_name: Seq<char>,
) -> bool {
    if global_always_allow {
        false
    } else {
        match policy {
            None => true,
            Some(p) => match override_lookup(p.tools@, tool_name) {
                Some(b) => b,
                None => match p.default_needs_confirmation {
                    Some(b) => b,
                    None => true,
                },
            },
        }
    }
}

impl ConfirmationPolicy {
    /// The explicit per-tool override for `tool_name`, if one is recorded.
    pub fn override_for(&self, tool_name: &String) -> (r: Option<bool>)
        ensures
            r == override_lookup(self.tools@, tool_name@),
    {
        let n: usize = self.tools.len();
        proof {
            assert(self.tools@.skip(0) =~= self.tools@);
        }
        for i in 0..n
            invariant
                n == self.tools.len(),
                override_lookup(self.tools@, tool_name@) == override_lookup(
                    self.tools@.skip(i as int),
                    tool_name@,
                ),
        {
            proof {
                assert(self.tools@.skip(i as int)[0] == self.tools@[i as int]);
            }
            if self.tools[i].0 == *tool_name {
                return Some(self.tools[i].1);
            }
            proof {
                assert(self.tools@.skip(i as int).skip(1) =~= self.tools@.skip(i + 1));
            }
        }
        proof {
            assert(self.tools@.skip(n as int) =~= Seq::<(String, bool)>::empty());
        }
        None
    }
}

/// Whether invoking `tool_name` requires confirmation, given the global
/// allow flag and the server's policy (absent when the server has none).
pub fn requires_confirmation(
    global_always_allow: bool,
    policy: Option<&ConfirmationPolicy>,
    tool_name: &String,
) -> (r: bool)
    ensures
        r == requires_confirmation_spec(global_always_allow, policy, tool_name@),
{
    if global_always_allow {
        return false;
    }
    match policy {
        None => true,
        Some(p) => match p.override_for(tool_name) {
            Some(b) => b,
            None => match p.default_needs_confirmation {
                Some(b) => b,
                None => true,
            },
        },
    }
}

/// Law: the global allow flag suppresses confirmation, whatever the policy
/// says of the tool.
pub proof fn lemma_global_allow_suppresses_confirmation(
    policy: Option<&ConfirmationPolicy>,
    tool_name: Seq<char>,
)
    ensures
        !requires_confirmation_spec(true, policy, tool_name),
{
}

/// Law: without the global allow flag, a server with no policy record
/// requires confirmation.
pub proof fn lemma_no_policy_requires_confirmation(tool_name: Seq<char>)
    ensures
        requires_confirmation_spec(false, None, tool_name),
{
}

/// Law: without the global allow flag, a policy with no override for the
/// tool and no server default requires confirmation.
pub proof fn lemma_unset_policy_requires_confirmation(
    policy: &ConfirmationPolicy,
    tool_name: Seq<char>,
)
    requires
        override_lookup(policy.tools@, tool_name) is None,
        policy.default_needs_confirmation is None,
    ensures
        requires_confirmation_spec(false, Some(policy), tool_name),
{
}

/// Law: an explicit per-tool override decides verbatim, in either direction,
/// whatever the server default says.
pub proof fn lemma_override_wins(
    policy: &ConfirmationPolicy,
    tool_name: Seq<char>,
    b: bool,
)
    requires
        override_lookup(policy.tools@, tool_name) == Some(b),
    ensures
        requires_confirmation_spec(false, Some(policy), tool_name) == b,
{
}

/// Law: without an override for the tool, a set server default decides.
pub proof fn lemma_server_default_applies(
    policy: &ConfirmationPolicy,
    tool_name: Seq<char>,
    b: bool,
)
    requires
        override_lookup(policy.tools@, tool_name) is None,
        policy.default_needs_confirmation == Some(b),
    ensures
        requires_confirmation_spec(false, Some(policy), tool_name) == b,
{
}

} // verus!
