//! Reaction commands: each one carries flavour message templates loaded
//! at startup, and a reply picks one template for the right target at
//! random and substitutes the mentions in. Fetching the accompanying
//! image is an HTTP call and stays outside the library.

use crate::random::pick_index;
use crate::text::{replace_all, spec_replaced};
use vstd::prelude::*;

verus! {

/// The configuration of one reaction command: its name, its description,
/// and its message templates. A command without targeted and bot-directed
/// templates cannot be aimed at anyone.
#[derive(Debug)]
pub struct ActionCommandData {
    pub kind: String,
    pub description: String,
    pub targeted_messages: Option<Vec<String>>,
    pub lonely_messages: Vec<String>,
    pub nano_messages: Option<Vec<String>>,
}

/// Who the invoking user aimed the reaction at.
#[derive(Clone, Copy, Debug, PartialEq, Eq, Structural)]
pub enum ActionTarget {
    /// No target given, or the user targeted themselves.
    Alone,
    /// The bot itself.
    AtBot,
    /// Another user.
    AtUser,
}

/// Why a reaction produced no message.
#[derive(Clone, Copy, Debug, PartialEq, Eq, Structural)]
pub enum ActionError {
    /// A target was passed to a command that takes none.
    NotTargetable,
}

impl ActionCommandData {
    /// A reaction can be aimed at someone only when it has both targeted
    /// and bot-directed templates.
    pub open spec fn spec_targetable(&self) -> bool {
        self.targeted_messages is Some && self.nano_messages is Some
    }

    pub fn targetable(&self) -> (b: bool)
        ensures
            b == self.spec_targetable(),
    {
        self.targeted_messages.is_some() && self.nano_messages.is_some()
    }

    /// Builds the reply text: one of the command's templates for the
    /// given target, chosen at random, with `<user>` replaced by the
    /// invoking user's mention and, for an aimed reaction, `<target>` by
    /// the target's. Aiming a command that is not targetable is refused.
    pub fn action_message(
        &self,
        target: ActionTarget,
        user_mention: &str,
        target_mention: &str,
    ) -> (r: Result<String, ActionError>)
        requires
            target is Alone ==> self.lonely_messages@.len() > 0,
            (target is AtBot && self.spec_targetable()) ==> (self.nano_messages->0)@.len() > 0,
            (target is AtUser && self.spec_targetable()) ==> (self.targeted_messages->0)@.len()
                > 0,
        ensures
            target is Alone ==> (r matches Ok(msg) && exists|i: int|
                0 <= i < self.lonely_messages@.len() && msg@ == spec_replaced(
                    (#[trigger] self.lonely_messages@[i])@,
                    "<user>"@,
                    user_mention@,
                )),
            (!(target is Alone) && !self.spec_targetable()) ==> r == Err::<
                String,
                ActionError,
            >(ActionError::NotTargetable),
            (target is AtBot && self.spec_targetable()) ==> (r matches Ok(msg) && exists|i: int|
                0 <= i < (self.nano_messages->0)@.len() && msg@ == spec_replaced(
                    spec_replaced(
                        (#[trigger] (self.nano_messages->0)@[i])@,
                        "<user>"@,
                        user_mention@,
                    ),
                    "<target>"@,
                    target_mention@,
                )),
            (target is AtUser && self.spec_targetable()) ==> (r matches Ok(msg) && exists|i: int|
                0 <= i < (self.targeted_messages->0)@.len() && msg@ == spec_replaced(
                    spec_replaced(
                        (#[trigger] (self.targeted_messages->0)@[i])@,
                        "<user>"@,
                        user_mention@,
                    ),
                    "<target>"@,
                    target_mention@,
                )),
    {
        match target {
            ActionTarget::Alone => {
                let i = pick_index(self.lonely_messages.len());
                Ok(replace_all(self.lonely_messages[i].as_str(), "<user>", user_mention))
            },
            ActionTarget::AtBot => {
                match (&self.targeted_messages, &self.nano_messages) {
                    (Some(_), Some(templates)) => {
                        let i = pick_index(templates.len());
                        let once = replace_all(templates[i].as_str(), "<user>", user_mention);
                        Ok(replace_all(once.as_str(), "<target>", target_mention))
                    },
                    _ => Err(ActionError::NotTargetable),
                }
            },
            ActionTarget::AtUser => {
                match (&self.targeted_messages, &self.nano_messages) {
                    (Some(templates), Some(_)) => {
                        let i = pick_index(templates.len());
                        let once = replace_all(templates[i].as_str(), "<user>", user_mention);
                        Ok(replace_all(once.as_str(), "<target>", target_mention))
                    },
                    _ => Err(ActionError::NotTargetable),
                }
            },
        }
    }
}

} // verus!
