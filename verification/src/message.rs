//! Conversation message types: roles, request content (plain text or
//! multi-part), and the role-tagged messages that make up a request body.

use vstd::prelude::*;

verus! {

/// The role of the message author.
#[derive(Debug, Clone, Copy, PartialEq, Eq, Structural)]
pub enum Role {
    /// System message.
    System,
    /// User message.
    User,
    /// Assistant message.
    Assistant,
    /// Tool message.
    Tool,
}

/// An image attached to a request, as a data URL or remote URL.
#[derive(Debug, PartialEq, Eq)]
pub struct ImagePart {
    /// URL or base64-encoded data URL of the image.
    pub url: String,
    /// Detail level requested for the image.
    pub detail: Option<String>,
}

/// A file attached to a request.
#[derive(Debug, PartialEq, Eq)]
pub struct FilePart {
    /// Base64-encoded data URL with the file contents.
    pub file_data: String,
    /// Original file name, if known.
    pub filename: Option<String>,
}

/// One part of a multi-part request content.
#[derive(Debug, PartialEq, Eq)]
pub enum ContentPart {
    /// Plain text part.
    Text(String),
    /// Image part.
    Image(ImagePart),
    /// File part.
    File(FilePart),
}

/// Content of a request message: plain text, or an ordered sequence of parts.
#[derive(Debug, PartialEq, Eq)]
pub enum Content {
    /// Plain text content.
    Text(String),
    /// Multi-part content for multi-modal requests.
    ContentParts(Vec<ContentPart>),
}

/// Mathematical view of an optional string.
pub open spec fn opt_str_view(o: Option<String>) -> Option<Seq<char>> {
    match o {
        Some(s) => Some(s@),
        None => None,
    }
}

/// Mathematical view of a content part.
pub ghost enum ContentPartV {
    Text(Seq<char>),
    Image { url: Seq<char>, detail: Option<Seq<char>> },
    File { file_data: Seq<char>, filename: Option<Seq<char>> },
}

/// Mathematical view of a request content.
pub ghost enum ContentV {
    Text(Seq<char>),
    Parts(Seq<ContentPartV>),
}

impl View for ContentPart {
    type V = ContentPartV;

    open spec fn view(&self) -> ContentPartV {
        match self {
            ContentPart::Text(s) => ContentPartV::Text(s@),
            ContentPart::Image(i) => ContentPartV::Image {
                url: i.url@,
                detail: opt_str_view(i.detail),
            },
            ContentPart::File(f) => ContentPartV::File {
                file_data: f.file_data@,
                filename: opt_str_view(f.filename),
            },
        }
    }
}

/// View of a sequence of content parts, element by element.
pub open spec fn parts_view(s: Seq<ContentPart>) -> Seq<ContentPartV> {
    s.map_values(|p: ContentPart| p@)
}

/// Appending a part and then taking the view appends the part's view.
pub proof fn lemma_parts_view_push(s: Seq<ContentPart>, p: ContentPart)
    ensures
        parts_view(s.push(p)) =~= parts_view(s).push(p@),
{
}

impl View for Content {
    type V = ContentV;

    open spec fn view(&self) -> ContentV {
        match self {
            Content::Text(s) => ContentV::Text(s@),
            Content::ContentParts(parts) => ContentV::Parts(parts_view(parts@)),
        }
    }
}

/// Clone an optional string, keeping its view.
fn clone_opt_string(o: &Option<String>) -> (r: Option<String>)
    ensures
        opt_str_view(r) == opt_str_view(*o),
{
    match o {
        Some(s) => Some(s.clone()),
        None => None,
    }
}

impl Clone for ContentPart {
    fn clone(&self) -> (r: Self)
        ensures
            r@ == self@,
    {
        match self {
            ContentPart::Text(s) => ContentPart::Text(s.clone()),
            ContentPart::Image(i) => ContentPart::Image(ImagePart {
                url: i.url.clone(),
                detail: clone_opt_string(&i.detail),
            }),
            ContentPart::File(f) => ContentPart::File(FilePart {
                file_data: f.file_data.clone(),
                filename: clone_opt_string(&f.filename),
            }),
        }
    }
}

impl Clone for Content {
    fn clone(&self) -> (r: Self)
        ensures
            r@ == self@,
    {
        match self {
            Content::Text(s) => Content::Text(s.clone()),
            Content::ContentParts(parts) => {
                let mut copied: Vec<ContentPart> = Vec::new();
                let mut i: usize = 0;
                while i < parts.len()
                    invariant
                        i <= parts.len(),
                        parts_view(copied@) == parts_view(parts@.take(i as int)),
                    decreases parts.len() - i,
                {
                    let ghost prev = copied@;
                    copied.push(parts[i].clone());
                    proof {
                        lemma_parts_view_push(prev, copied@.last());
                        assert(copied@ =~= prev.push(copied@.last()));
                        assert(parts@.take(i + 1 as int) =~= parts@.take(i as int).push(
                            parts@[i as int],
                        ));
                        lemma_parts_view_push(parts@.take(i as int), parts@[i as int]);
                    }
                    i = i + 1;
                }
                proof {
                    assert(parts@.take(parts@.len() as int) =~= parts@);
                }
                Content::ContentParts(copied)
            },
        }
    }
}

/// View of a sequence of messages, element by element.
pub open spec fn messages_view(s: Seq<Message>) -> Seq<MessageV> {
    s.map_values(|m: Message| m@)
}

/// Appending a message and then taking the view appends the message's view.
pub proof fn lemma_messages_view_push(s: Seq<Message>, m: Message)
    ensures
        messages_view(s.push(m)) =~= messages_view(s).push(m@),
{
}

/// System message.
#[derive(Debug, PartialEq, Eq)]
pub struct SystemMessage {
    /// The contents of the message.
    pub content: String,
    /// An optional name for the participant.
    pub name: Option<String>,
}

/// User message.
#[derive(Debug, PartialEq, Eq)]
pub struct UserMessage {
    /// The contents of the message.
    pub content: Content,
    /// An optional name for the participant.
    pub name: Option<String>,
}

/// Assistant message.
#[derive(Debug, PartialEq, Eq)]
pub struct AssistantMessage {
    /// The contents of the message.
    pub content: Option<String>,
    /// An optional name for the participant.
    pub name: Option<String>,
    /// The refusal message by the assistant.
    pub refusal: Option<String>,
    /// Reasoning performed by the model, if reported.
    pub reasoning: Option<String>,
}

/// Tool message.
#[derive(Debug, PartialEq, Eq)]
pub struct ToolMessage {
    /// The contents of the message.
    pub content: String,
    /// Tool call that this message is responding to.
    pub tool_call_id: String,
}

/// Conversation message.
#[derive(Debug, PartialEq, Eq)]
pub enum Message {
    /// System message.
    System(SystemMessage),
    /// User message.
    User(UserMessage),
    /// Assistant message.
    Assistant(AssistantMessage),
    /// Tool message.
    Tool(ToolMessage),
}

/// Mathematical view of a conversation message.
pub ghost enum MessageV {
    System { content: Seq<char>, name: Option<Seq<char>> },
    User { content: ContentV, name: Option<Seq<char>> },
    Assistant {
        content: Option<Seq<char>>,
        name: Option<Seq<char>>,
        refusal: Option<Seq<char>>,
        reasoning: Option<Seq<char>>,
    },
    Tool { content: Seq<char>, tool_call_id: Seq<char> },
}

impl View for Message {
    type V = MessageV;

    open spec fn view(&self) -> MessageV {
        match self {
            Message::System(m) => MessageV::System {
                content: m.content@,
                name: opt_str_view(m.name),
            },
            Message::User(m) => MessageV::User { content: m.content@, name: opt_str_view(m.name) },
            Message::Assistant(m) => MessageV::Assistant {
                content: opt_str_view(m.content),
                name: opt_str_view(m.name),
                refusal: opt_str_view(m.refusal),
                reasoning: opt_str_view(m.reasoning),
            },
            Message::Tool(m) => MessageV::Tool {
                content: m.content@,
                tool_call_id: m.tool_call_id@,
            },
        }
    }
}

impl SystemMessage {
    /// Create a system message with the given contents and no participant name.
    pub fn new(content: String) -> (r: Self)
        ensures
            r.content@ == content@,
            r.name is None,
    {
        SystemMessage { content, name: None }
    }
}

impl UserMessage {
    /// Create a user message with the given contents and no participant name.
    pub fn new(content: Content) -> (r: Self)
        ensures
            r.content == content,
            r.name is None,
    {
        UserMessage { content, name: None }
    }

    /// Create a plain-text user message from a string slice.
    pub fn new_from_str(content: &str) -> (r: Self)
        ensures
            r.content@ == ContentV::Text(content@),
            r.name is None,
    {
        UserMessage { content: Content::Text(content.to_owned()), name: None }
    }
}

impl AssistantMessage {
    /// Create an assistant message with the given contents and nothing else.
    pub fn new(content: String) -> (r: Self)
        ensures
            r.content matches Some(c) && c@ == content@,
            r.name is None,
            r.refusal is None,
            r.reasoning is None,
    {
        AssistantMessage { content: Some(content), name: None, refusal: None, reasoning: None }
    }
}

impl From<SystemMessage> for Message {
    fn from(m: SystemMessage) -> (r: Message) {
        Message::System(m)
    }
}

impl vstd::std_specs::convert::FromSpecImpl<SystemMessage> for Message {
    open spec fn obeys_from_spec() -> bool {
        true
    }

    open spec fn from_spec(m: SystemMessage) -> Message {
        Message::System(m)
    }
}

impl From<UserMessage> for Message {
    fn from(m: UserMessage) -> (r: Message) {
        Message::User(m)
    }
}

impl vstd::std_specs::convert::FromSpecImpl<UserMessage> for Message {
    open spec fn obeys_from_spec() -> bool {
        true
    }

    open spec fn from_spec(m: UserMessage) -> Message {
        Message::User(m)
    }
}

impl From<AssistantMessage> for Message {
    fn from(m: AssistantMessage) -> (r: Message) {
        Message::Assistant(m)
    }
}

impl vstd::std_specs::convert::FromSpecImpl<AssistantMessage> for Message {
    open spec fn obeys_from_spec() -> bool {
        true
    }

    open spec fn from_spec(m: AssistantMessage) -> Message {
        Message::Assistant(m)
    }
}

impl From<ToolMessage> for Message {
    fn from(m: ToolMessage) -> (r: Message) {
        Message::Tool(m)
    }
}

impl vstd::std_specs::convert::FromSpecImpl<ToolMessage> for Message {
    open spec fn obeys_from_spec() -> bool {
        true
    }

    open spec fn from_spec(m: ToolMessage) -> Message {
        Message::Tool(m)
    }
}

/// Error when converting messages.
#[derive(Debug, PartialEq, Eq)]
pub enum Error {
    /// Missing mandatory field.
    MissingField(&'static str),
    /// Role of the flat message differs from the role asked for.
    RoleMismatch(Role, Role),
}

/// Flat message carrying the union of all role-specific fields; the shape in
/// which messages travel in request and response bodies.
#[derive(Debug, PartialEq, Eq)]
pub struct GenericMessage {
    /// The role of the message author.
    pub role: Role,
    /// The contents of the message.
    pub content: Option<String>,
    /// An optional name for the participant.
    pub name: Option<String>,
    /// The refusal message by the assistant.
    pub refusal: Option<String>,
    /// Reasoning performed by the model, if reported.
    pub reasoning: Option<String>,
    /// Tool call that this message is responding to.
    pub tool_call_id: Option<String>,
}


/// The system message read from a flat message: the role must match and
/// the contents must be present.
pub open spec fn system_of_generic(m: GenericMessage) -> Result<SystemMessage, Error> {
    if m.role != Role::System {
        Err(Error::RoleMismatch(Role::System, m.role))
    } else {
        match m.content {
            Some(c) => Ok(SystemMessage { content: c, name: m.name }),
            None => Err(Error::MissingField("content")),
        }
    }
}

/// The user message read from a flat message: the role must match and the
/// contents must be present; flat contents are always plain text.
pub open spec fn user_of_generic(m: GenericMessage) -> Result<UserMessage, Error> {
    if m.role != Role::User {
        Err(Error::RoleMismatch(Role::User, m.role))
    } else {
        match m.content {
            Some(c) => Ok(UserMessage { content: Content::Text(c), name: m.name }),
            None => Err(Error::MissingField("content")),
        }
    }
}

/// The assistant message read from a flat message: the role must match;
/// all of its fields are optional.
pub open spec fn assistant_of_generic(m: GenericMessage) -> Result<AssistantMessage, Error> {
    if m.role != Role::Assistant {
        Err(Error::RoleMismatch(Role::Assistant, m.role))
    } else {
        Ok(
            AssistantMessage {
                content: m.content,
                name: m.name,
                refusal: m.refusal,
                reasoning: m.reasoning,
            },
        )
    }
}

/// The tool message read from a flat message: the role must match, and the
/// contents and the tool call id must be present.
pub open spec fn tool_of_generic(m: GenericMessage) -> Result<ToolMessage, Error> {
    if m.role != Role::Tool {
        Err(Error::RoleMismatch(Role::Tool, m.role))
    } else {
        match m.content {
            Some(c) => match m.tool_call_id {
                Some(id) => Ok(ToolMessage { content: c, tool_call_id: id }),
                None => Err(Error::MissingField("tool_call_id")),
            },
            None => Err(Error::MissingField("content")),
        }
    }
}

/// The conversation message read from a flat message, by its role.
pub open spec fn message_of_generic(m: GenericMessage) -> Result<Message, Error> {
    match m.role {
        Role::System => match system_of_generic(m) {
            Ok(s) => Ok(Message::System(s)),
            Err(e) => Err(e),
        },
        Role::User => match user_of_generic(m) {
            Ok(u) => Ok(Message::User(u)),
            Err(e) => Err(e),
        },
        Role::Assistant => match assistant_of_generic(m) {
            Ok(a) => Ok(Message::Assistant(a)),
            Err(e) => Err(e),
        },
        Role::Tool => match tool_of_generic(m) {
            Ok(t) => Ok(Message::Tool(t)),
            Err(e) => Err(e),
        },
    }
}

impl SystemMessage {
    /// Read a system message out of a flat message, demanding the role and
    /// the contents.
    pub fn try_from(m: GenericMessage) -> (r: Result<Self, Error>)
        ensures
            r == system_of_generic(m),
    {
        if m.role == Role::System {
            match m.content {
                Some(content) => Ok(SystemMessage { content, name: m.name }),
                None => Err(Error::MissingField("content")),
            }
        } else {
            Err(Error::RoleMismatch(Role::System, m.role))
        }
    }
}

impl AssistantMessage {
    /// Read an assistant message out of a flat message, demanding the role.
    pub fn try_from(m: GenericMessage) -> (r: Result<Self, Error>)
        ensures
            r == assistant_of_generic(m),
    {
        if m.role == Role::Assistant {
            Ok(
                AssistantMessage {
                    content: m.content,
                    name: m.name,
                    refusal: m.refusal,
                    reasoning: m.reasoning,
                },
            )
        } else {
            Err(Error::RoleMismatch(Role::Assistant, m.role))
        }
    }
}

impl UserMessage {
    /// Read a user message out of a flat message, demanding the role and
    /// the contents.
    pub fn try_from(m: GenericMessage) -> (r: Result<Self, Error>)
        ensures
            r == user_of_generic(m),
    {
        if m.role == Role::User {
            match m.content {
                Some(content) => Ok(UserMessage { content: Content::Text(content), name: m.name }),
                None => Err(Error::MissingField("content")),
            }
        } else {
            Err(Error::RoleMismatch(Role::User, m.role))
        }
    }
}

impl ToolMessage {
    /// Read a tool message out of a flat message, demanding the role, the
    /// contents and the tool call id.
    pub fn try_from(m: GenericMessage) -> (r: Result<Self, Error>)
        ensures
            r == tool_of_generic(m),
    {
        if m.role == Role::Tool {
            match (m.content, m.tool_call_id) {
                (Some(content), Some(tool_call_id)) => Ok(ToolMessage { content, tool_call_id }),
                (None, _) => Err(Error::MissingField("content")),
                (Some(_), None) => Err(Error::MissingField("tool_call_id")),
            }
        } else {
            Err(Error::RoleMismatch(Role::Tool, m.role))
        }
    }
}

impl Message {
    /// Read a conversation message out of a flat message, dispatching on
    /// its role.
    pub fn try_from(m: GenericMessage) -> (r: Result<Self, Error>)
        ensures
            r == message_of_generic(m),
    {
        match m.role {
            Role::System => match SystemMessage::try_from(m) {
                Ok(s) => Ok(Message::System(s)),
                Err(e) => Err(e),
            },
            Role::User => match UserMessage::try_from(m) {
                Ok(u) => Ok(Message::User(u)),
                Err(e) => Err(e),
            },
            Role::Assistant => match AssistantMessage::try_from(m) {
                Ok(a) => Ok(Message::Assistant(a)),
                Err(e) => Err(e),
            },
            Role::Tool => match ToolMessage::try_from(m) {
                Ok(t) => Ok(Message::Tool(t)),
                Err(e) => Err(e),
            },
        }
    }
}

} // verus!
