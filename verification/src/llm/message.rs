use vstd::prelude::*;
use crate::text::same_text;

verus! {

/// Who speaks in a turn of the conversation.
#[derive(Clone, Copy, Debug, PartialEq, Eq, Structural)]
pub enum Role {
    /// A standing instruction. Turns of this role are never evicted.
    System,
    /// Something the person at the keyboard said.
    User,
    /// Something the model answered.
    Assistant,
}

impl Role {
    /// The name under which the role travels in a request.
    pub open spec fn name(self) -> Seq<char> {
        match self {
            Role::System => "system"@,
            Role::User => "user"@,
            Role::Assistant => "assistant"@,
        }
    }

    /// The name under which the role travels in a request.
    pub fn as_str(&self) -> (name: &'static str)
        ensures
            name@ == self.name(),
    {
        match self {
            Role::System => "system",
            Role::User => "user",
            Role::Assistant => "assistant",
        }
    }

    /// The role that travels under `name`, if there is one.
    pub fn from_name(name: &str) -> (role: Option<Role>)
        ensures
            match role {
                Some(role) => name@ == role.name(),
                None => forall|role: Role| name@ != role.name(),
            },
    {
        if same_text(name, Role::System.as_str()) {
            Some(Role::System)
        } else if same_text(name, Role::User.as_str()) {
            Some(Role::User)
        } else if same_text(name, Role::Assistant.as_str()) {
            Some(Role::Assistant)
        } else {
            None
        }
    }
}

/// No two roles travel under the same name, so a name tells its role.
pub proof fn lemma_names_tell_roles_apart(a: Role, b: Role)
    ensures
        a.name() == b.name() ==> a == b,
{
    reveal_strlit("system");
    reveal_strlit("user");
    reveal_strlit("assistant");
    assert(Role::System.name().len() == 6);
    assert(Role::User.name().len() == 4);
    assert(Role::Assistant.name().len() == 9);
}

/// What a message says, as a mathematical value: the model of [`ChatMessage`].
#[verifier::ext_equal]
pub struct Turn {
    pub role: Role,
    pub content: Seq<char>,
}

impl Turn {
    /// A turn is protected when it is a standing instruction.
    pub open spec fn is_protected(self) -> bool {
        self.role == Role::System
    }
}

/// One role-tagged message of a conversation.
#[derive(Debug, PartialEq, Eq)]
pub struct ChatMessage {
    pub role: Role,
    pub content: String,
}

impl View for ChatMessage {
    type V = Turn;

    open spec fn view(&self) -> Turn {
        Turn { role: self.role, content: self.content@ }
    }
}

impl DeepView for ChatMessage {
    type V = Turn;

    open spec fn deep_view(&self) -> Turn {
        self@
    }
}

impl Clone for ChatMessage {
    fn clone(&self) -> (copy: Self)
        ensures
            copy == *self,
    {
        ChatMessage { role: self.role, content: self.content.clone() }
    }
}

impl ChatMessage {
    /// A message spoken by the user.
    pub fn user(content: String) -> (message: Self)
        ensures
            message.role == Role::User,
            message.content == content,
    {
        ChatMessage { role: Role::User, content }
    }

    /// A message spoken by the model.
    pub fn assistant(content: String) -> (message: Self)
        ensures
            message.role == Role::Assistant,
            message.content == content,
    {
        ChatMessage { role: Role::Assistant, content }
    }

    /// A standing instruction.
    pub fn system(content: String) -> (message: Self)
        ensures
            message.role == Role::System,
            message.content == content,
    {
        ChatMessage { role: Role::System, content }
    }

    /// Whether eviction passes this message by.
    pub fn is_protected(&self) -> (protected: bool)
        ensures
            protected == self@.is_protected(),
    {
        self.role == Role::System
    }
}

} // verus!
