//! Which process is logging, for the rotated log files.
use vstd::prelude::*;

verus! {

/// Which process is logging. They are separate processes writing
/// concurrently, so they get separate files rather than interleaving into one.
#[derive(Clone, Copy, Debug, PartialEq, Eq, Structural)]
pub enum Role {
    Main,
    Highlighter,
}

/// The file-name prefix of a role's log files.
pub open spec fn prefix_of(role: Role) -> Seq<char> {
    match role {
        Role::Main => "harper"@,
        Role::Highlighter => "harper-highlighter"@,
    }
}

impl Role {
    /// The file-name prefix of this role's log files.
    pub fn filename_prefix(self) -> (prefix: &'static str)
        ensures
            prefix@ == prefix_of(self),
    {
        match self {
            Role::Main => "harper",
            Role::Highlighter => "harper-highlighter",
        }
    }
}

/// The two processes never write to the same files.
pub proof fn lemma_roles_write_to_separate_files()
    ensures
        prefix_of(Role::Main) != prefix_of(Role::Highlighter),
{
    reveal_strlit("harper");
    reveal_strlit("harper-highlighter");
    assert(prefix_of(Role::Main).len() != prefix_of(Role::Highlighter).len());
}

} // verus!
