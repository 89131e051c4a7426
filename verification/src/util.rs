//! Small helpers shared by the commands.

use vstd::prelude::*;

verus! {

/// The name a user is addressed by: the guild nickname when one is set,
/// else the global display name, else the account name.
pub fn get_name(nickname: Option<String>, global_name: Option<String>, username: String) -> (r:
    String)
    ensures
        match nickname {
            Some(nick) => r == nick,
            None => match global_name {
                Some(global) => r == global,
                None => r == username,
            },
        },
{
    match nickname {
        Some(nick) => nick,
        None => match global_name {
            Some(global) => global,
            None => username,
        },
    }
}

} // verus!
