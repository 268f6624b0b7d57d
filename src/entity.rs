use crate::text::{i64_text, int_text};
use vstd::prelude::*;
use vstd::string::*;

verus! {

/// Who sent a message: an id, a display name and a role. The role drives
/// all routing.
#[derive(Debug, Clone, PartialEq, Eq, Hash)]
pub struct EntityId {
    pub id: String,
    pub name: String,
    pub role: Role,
}

#[derive(Debug, Clone, Copy, PartialEq, Eq, Structural, Hash)]
pub enum Role {
    System,
    User,
    Agent,
}

impl EntityId {
    pub fn new(id: String, name: String, role: Role) -> (r: Self)
        ensures
            r.id == id,
            r.name == name,
            r.role == role,
    {
        EntityId { id, name, role }
    }

    /// The system itself.
    pub fn system() -> (r: Self)
        ensures
            r.id@ == "system"@,
            r.name@ == "System"@,
            r.role == Role::System,
    {
        EntityId { id: String::from_str("system"), name: String::from_str("System"), role: Role::System }
    }

    /// The name, then the id in parentheses.
    pub fn to_string(&self) -> (r: String)
        ensures
            r@ == self.name@ + " ("@ + self.id@ + ")"@,
    {
        self.name.clone().concat(" (").concat(self.id.as_str()).concat(")")
    }

    /// A field-by-field copy.
    pub fn copy(&self) -> (r: Self)
        ensures
            r == *self,
    {
        EntityId { id: self.id.clone(), name: self.name.clone(), role: self.role }
    }
}

/// A participant of the system.
#[derive(Debug, Clone)]
pub enum Entity {
    System,
    User(TelegramUser),
    Agent(AgentEntity),
}

/// A person who writes through the chat front-end.
#[derive(Debug, Clone)]
pub struct TelegramUser {
    pub id: i64,
    pub username: Option<String>,
    pub first_name: String,
}

/// The agent that works on one project.
#[derive(Debug, Clone)]
pub struct AgentEntity {
    pub project_name: String,
}

impl Entity {
    /// The identity under which this participant sends messages.
    pub fn id(&self) -> (r: EntityId)
        ensures
            match self {
                Entity::System => r.id@ == "system"@ && r.name@ == "System"@ && r.role
                    == Role::System,
                Entity::User(u) => r.id@ == "telegram:"@ + int_text(u.id as int) && r.name@ == (
                match u.username {
                    Some(n) => n@,
                    None => u.first_name@,
                }) && r.role == Role::User,
                Entity::Agent(a) => r.id@ == "agent:"@ + a.project_name@ && r.name@ == "Agent ("@
                    + a.project_name@ + ")"@ && r.role == Role::Agent,
            },
    {
        match self {
            Entity::System => EntityId::system(),
            Entity::User(u) => {
                let number = i64_text(u.id);
                let name = match &u.username {
                    Some(n) => n.clone(),
                    None => u.first_name.clone(),
                };
                EntityId::new(String::from_str("telegram:").concat(number.as_str()), name, Role::User)
            },
            Entity::Agent(a) => EntityId::new(
                String::from_str("agent:").concat(a.project_name.as_str()),
                String::from_str("Agent (").concat(a.project_name.as_str()).concat(")"),
                Role::Agent,
            ),
        }
    }
}

} // verus!
