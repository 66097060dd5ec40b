//! The data model: requests, entities, chat messages and what is derived from them.

use std::collections::HashMap;
use vstd::prelude::*;

verus! {

/// A question for the gateway, answered in a given style.
#[derive(Debug, PartialEq, Eq)]
pub struct AskRequest {
    pub question: String,
    pub character_id: String,
    pub user_id: String,
    pub style: String,
    pub user_persona: String,
}

/// The gateway's answer to a question.
#[derive(Debug, PartialEq, Eq)]
pub struct AskResponse {
    pub answer: String,
}

/// A request to forget the conversation between a user and a character.
#[derive(Debug, PartialEq, Eq)]
pub struct ResetRequest {
    pub user_id: String,
    pub character_id: String,
}

/// A character of the collection, found by its identifier.
#[derive(Debug, Clone, PartialEq, Eq)]
pub struct Character {
    pub id: String,
    pub name: String,
    pub tagline: String,
    pub description: String,
    pub greeting: String,
    pub definition: String,
    pub tags: HashMap<String, Vec<String>>,
    pub img: String,
}

/// A user persona of the collection, found by its identifier.
#[derive(Debug, Clone, PartialEq, Eq)]
pub struct Persona {
    pub id: String,
    pub display_name: String,
    pub background: String,
    pub img: String,
}

/// The supervisor's one latch: set once the backend services were started.
#[derive(Debug, PartialEq, Eq)]
pub struct AppState {
    pub services_running: bool,
}

/// One message of a conversation.
#[derive(Debug, Clone, PartialEq, Eq)]
pub struct ChatMessage {
    pub role: String,
    pub content: String,
    pub timestamp: Option<String>,
}

/// A question for the gateway that carries the conversation so far.
#[derive(Debug, PartialEq, Eq)]
pub struct AskRequestForChat {
    pub question: String,
    pub character_id: String,
    pub user_id: String,
    pub model: String,
    pub memory: Vec<ChatMessage>,
}

/// A conversation as the list of recent chats shows it.
#[derive(Debug, Clone, PartialEq, Eq)]
pub struct RecentChat {
    pub character_id: String,
    pub persona_id: String,
    pub name: String,
    pub img: Option<String>,
    pub last_used: u64,
}

/// What a persona is, as plain text.
pub struct PersonaView {
    pub id: Seq<char>,
    pub display_name: Seq<char>,
    pub background: Seq<char>,
    pub img: Seq<char>,
}

impl View for Persona {
    type V = PersonaView;

    open spec fn view(&self) -> PersonaView {
        PersonaView {
            id: self.id@,
            display_name: self.display_name@,
            background: self.background@,
            img: self.img@,
        }
    }
}

/// What a character is, as plain text and a map of tags.
pub struct CharacterView {
    pub id: Seq<char>,
    pub name: Seq<char>,
    pub tagline: Seq<char>,
    pub description: Seq<char>,
    pub greeting: Seq<char>,
    pub definition: Seq<char>,
    pub tags: Map<Seq<char>, Seq<Seq<char>>>,
    pub img: Seq<char>,
}

impl View for Character {
    type V = CharacterView;

    open spec fn view(&self) -> CharacterView {
        CharacterView {
            id: self.id@,
            name: self.name@,
            tagline: self.tagline@,
            description: self.description@,
            greeting: self.greeting@,
            definition: self.definition@,
            tags: self.tags.deep_view(),
            img: self.img@,
        }
    }
}

/// What a chat message is, as plain text.
pub struct ChatMessageView {
    pub role: Seq<char>,
    pub content: Seq<char>,
    pub timestamp: Option<Seq<char>>,
}

impl View for ChatMessage {
    type V = ChatMessageView;

    open spec fn view(&self) -> ChatMessageView {
        ChatMessageView {
            role: self.role@,
            content: self.content@,
            timestamp: match self.timestamp {
                Some(text) => Some(text@),
                None => None,
            },
        }
    }
}

/// What a recent chat is, as plain text and a number.
pub struct RecentChatView {
    pub character_id: Seq<char>,
    pub persona_id: Seq<char>,
    pub name: Seq<char>,
    pub img: Option<Seq<char>>,
    pub last_used: u64,
}

impl View for RecentChat {
    type V = RecentChatView;

    open spec fn view(&self) -> RecentChatView {
        RecentChatView {
            character_id: self.character_id@,
            persona_id: self.persona_id@,
            name: self.name@,
            img: match self.img {
                Some(text) => Some(text@),
                None => None,
            },
            last_used: self.last_used,
        }
    }
}

} // verus!
