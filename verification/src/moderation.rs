//! The kinds of moderation action.

use crate::text::same_text;
use vstd::prelude::*;

verus! {

/// What a moderator did.
#[derive(Clone, Copy, Debug, PartialEq, Eq, Structural)]
pub enum ActionTypes {
    Ban,
    Kick,
    Mute,
    Warn,
    Unban,
    Unmute,
    Unknown,
}

impl ActionTypes {
    /// The name under which the action is stored.
    pub open spec fn spec_as_str(self) -> Seq<char> {
        match self {
            ActionTypes::Ban => "ban"@,
            ActionTypes::Kick => "kick"@,
            ActionTypes::Mute => "mute"@,
            ActionTypes::Warn => "warn"@,
            ActionTypes::Unban => "unban"@,
            ActionTypes::Unmute => "unmute"@,
            ActionTypes::Unknown => "unknown"@,
        }
    }

    /// The name under which the action is stored.
    pub fn as_str(&self) -> (name: &'static str)
        ensures
            name@ == self.spec_as_str(),
    {
        match *self {
            ActionTypes::Ban => "ban",
            ActionTypes::Kick => "kick",
            ActionTypes::Mute => "mute",
            ActionTypes::Warn => "warn",
            ActionTypes::Unban => "unban",
            ActionTypes::Unmute => "unmute",
            ActionTypes::Unknown => "unknown",
        }
    }

    /// The action that is stored under a name; any name that is not one
    /// of the six known ones is `Unknown`.
    pub open spec fn spec_from_name(name: Seq<char>) -> ActionTypes {
        if name == "ban"@ {
            ActionTypes::Ban
        } else if name == "kick"@ {
            ActionTypes::Kick
        } else if name == "mute"@ {
            ActionTypes::Mute
        } else if name == "warn"@ {
            ActionTypes::Warn
        } else if name == "unban"@ {
            ActionTypes::Unban
        } else if name == "unmute"@ {
            ActionTypes::Unmute
        } else {
            ActionTypes::Unknown
        }
    }

    /// Reads an action from the name under which it is stored.
    pub fn from_name(name: &str) -> (action: ActionTypes)
        ensures
            action == Self::spec_from_name(name@),
    {
        if same_text(name, "ban") {
            ActionTypes::Ban
        } else if same_text(name, "kick") {
            ActionTypes::Kick
        } else if same_text(name, "mute") {
            ActionTypes::Mute
        } else if same_text(name, "warn") {
            ActionTypes::Warn
        } else if same_text(name, "unban") {
            ActionTypes::Unban
        } else if same_text(name, "unmute") {
            ActionTypes::Unmute
        } else {
            ActionTypes::Unknown
        }
    }

    /// The action that ends this one when its time is up: a ban is lifted
    /// by an unban and a mute by an unmute; no other action runs out.
    pub fn lifted_by(&self) -> (lift: Option<ActionTypes>)
        ensures
            lift == match *self {
                ActionTypes::Ban => Some(ActionTypes::Unban),
                ActionTypes::Mute => Some(ActionTypes::Unmute),
                _ => None,
            },
    {
        match *self {
            ActionTypes::Ban => Some(ActionTypes::Unban),
            ActionTypes::Mute => Some(ActionTypes::Unmute),
            _ => None,
        }
    }

    /// An action is read back from its own name.
    pub proof fn lemma_name_round_trip(self)
        ensures
            Self::spec_from_name(self.spec_as_str()) == self,
    {
        reveal_strlit("ban");
        reveal_strlit("kick");
        reveal_strlit("mute");
        reveal_strlit("warn");
        reveal_strlit("unban");
        reveal_strlit("unmute");
        reveal_strlit("unknown");
        match self {
            ActionTypes::Ban => {},
            ActionTypes::Kick => {
                assert("kick"@[0] != "ban"@[0]);
            },
            ActionTypes::Mute => {
                assert("mute"@[0] != "ban"@[0]);
                assert("mute"@[0] != "kick"@[0]);
            },
            ActionTypes::Warn => {
                assert("warn"@[0] != "ban"@[0]);
                assert("warn"@[0] != "kick"@[0]);
                assert("warn"@[0] != "mute"@[0]);
            },
            ActionTypes::Unban => {
                assert("unban"@[0] != "ban"@[0]);
                assert("unban"@[0] != "kick"@[0]);
                assert("unban"@[0] != "mute"@[0]);
                assert("unban"@[0] != "warn"@[0]);
            },
            ActionTypes::Unmute => {
                assert("unmute"@[0] != "ban"@[0]);
                assert("unmute"@[0] != "kick"@[0]);
                assert("unmute"@[0] != "mute"@[0]);
                assert("unmute"@[0] != "warn"@[0]);
                assert("unmute"@[2] != "unban"@[2]);
            },
            ActionTypes::Unknown => {
                assert("unknown"@[0] != "ban"@[0]);
                assert("unknown"@[0] != "kick"@[0]);
                assert("unknown"@[0] != "mute"@[0]);
                assert("unknown"@[0] != "warn"@[0]);
                assert("unknown"@.len() != "unban"@.len());
                assert("unknown"@.len() != "unmute"@.len());
            },
        }
    }
}

} // verus!
