use vstd::prelude::*;

verus! {

/// Who wrote a message of a conversation.
#[derive(Debug, Clone, Copy, PartialEq, Eq, Structural)]
pub enum Role {
    User,
    Assistant,
    System,
    Tool,
}

/// The lower-case name under which a role travels on the wire.
pub open spec fn role_name(role: Role) -> Seq<char> {
    match role {
        Role::User => "user"@,
        Role::Assistant => "assistant"@,
        Role::System => "system"@,
        Role::Tool => "tool"@,
    }
}

impl Role {
    /// The role's lower-case wire name (what `Display` would print).
    pub fn to_string(&self) -> (name: String)
        ensures
            name@ == role_name(*self),
    {
        match self {
            Role::User => String::from_str("user"),
            Role::Assistant => String::from_str("assistant"),
            Role::System => String::from_str("system"),
            Role::Tool => String::from_str("tool"),
        }
    }

    /// The role whose lower-case wire name is `name`.
    pub fn from_name(name: &str) -> (role: Option<Role>)
        ensures
            role == role_named(name@),
    {
        let name = name.to_string();
        if name == String::from_str("user") {
            Some(Role::User)
        } else if name == String::from_str("assistant") {
            Some(Role::Assistant)
        } else if name == String::from_str("system") {
            Some(Role::System)
        } else if name == String::from_str("tool") {
            Some(Role::Tool)
        } else {
            None
        }
    }
}

/// The role whose wire name is `name`, if any.
pub open spec fn role_named(name: Seq<char>) -> Option<Role> {
    if name == "user"@ {
        Some(Role::User)
    } else if name == "assistant"@ {
        Some(Role::Assistant)
    } else if name == "system"@ {
        Some(Role::System)
    } else if name == "tool"@ {
        Some(Role::Tool)
    } else {
        None
    }
}

/// Reading a role's wire name gives the role back.
pub proof fn lemma_role_name_round_trip(role: Role)
    ensures
        role_named(role_name(role)) == Some(role),
{
    reveal_strlit("user");
    reveal_strlit("assistant");
    reveal_strlit("system");
    reveal_strlit("tool");
    assert("user"@.len() == 4 && "assistant"@.len() == 9 && "system"@.len() == 6);
    assert("tool"@.len() == 4 && "user"@[0] != "tool"@[0]);
    assert("tool"@ != "user"@);
}

/// One message of a conversation.
#[derive(Debug, PartialEq)]
pub struct ChatMessage {
    pub role: Role,
    pub content: String,
    /// The id of the tool call that a `Tool` message answers; absent otherwise.
    pub tool_call_id: Option<String>,
}

/// A copy of an optional string.
fn copy_opt_string(s: &Option<String>) -> (copy: Option<String>)
    ensures
        copy == *s,
{
    match s {
        Some(text) => Some(text.clone()),
        None => None,
    }
}

impl Clone for ChatMessage {
    fn clone(&self) -> (copy: Self)
        ensures
            copy == *self,
    {
        ChatMessage {
            role: self.role,
            content: self.content.clone(),
            tool_call_id: copy_opt_string(&self.tool_call_id),
        }
    }
}

impl ChatMessage {
    /// A plain message with the given role and content.
    pub open spec fn spec_plain(self, role: Role, content: Seq<char>) -> bool {
        &&& self.role == role
        &&& self.content@ == content
        &&& self.tool_call_id is None
    }

    pub fn user(content: &str) -> (message: Self)
        ensures
            message.spec_plain(Role::User, content@),
    {
        ChatMessage { role: Role::User, content: content.to_string(), tool_call_id: None }
    }

    pub fn assistant(content: &str) -> (message: Self)
        ensures
            message.spec_plain(Role::Assistant, content@),
    {
        ChatMessage { role: Role::Assistant, content: content.to_string(), tool_call_id: None }
    }

    pub fn system(content: &str) -> (message: Self)
        ensures
            message.spec_plain(Role::System, content@),
    {
        ChatMessage { role: Role::System, content: content.to_string(), tool_call_id: None }
    }

    /// The answer to the tool call `call_id`, carrying the tool's output.
    pub fn tool(call_id: &str, content: &str) -> (message: Self)
        ensures
            message.role == Role::Tool,
            message.content@ == content@,
            message.tool_call_id matches Some(id) && id@ == call_id@,
    {
        ChatMessage {
            role: Role::Tool,
            content: content.to_string(),
            tool_call_id: Some(call_id.to_string()),
        }
    }
}

} // verus!
