//! The messages of a chat call.

use vstd::prelude::*;
use vstd::string::StringExecFns;

use crate::models::Role;
use crate::text::append_text;

verus! {

/// A message of a chat call.
#[derive(Debug, Clone, PartialEq, Eq)]
pub struct Message {
    /// The role of the sender.
    pub role: Role,
    /// The content of the message.
    pub content: MessageContent,
}

/// The content of a message: a text or the URL of an image.
#[derive(Debug, Clone, PartialEq, Eq)]
pub enum MessageContent {
    /// A text.
    Text { text: String },
    /// The URL of an image.
    ImageUrl { image_url: ImageUrl },
}

/// The URL of an image.
#[derive(Debug, Clone, PartialEq, Eq)]
pub struct ImageUrl {
    /// The URL.
    pub url: String,
}

/// The mathematical model of a [`MessageContent`].
pub enum ContentModel {
    /// A text, as its characters.
    Text(Seq<char>),
    /// The URL of an image, as its characters.
    ImageUrl(Seq<char>),
}

impl ContentModel {
    /// The text that the content displays.
    pub open spec fn display(self) -> Seq<char> {
        match self {
            ContentModel::Text(text) => "Text: "@ + text,
            ContentModel::ImageUrl(url) => "Image URL: "@ + url,
        }
    }
}

impl View for MessageContent {
    type V = ContentModel;

    open spec fn view(&self) -> ContentModel {
        match self {
            MessageContent::Text { text } => ContentModel::Text(text@),
            MessageContent::ImageUrl { image_url } => ContentModel::ImageUrl(image_url.url@),
        }
    }
}

impl View for Message {
    type V = (Role, ContentModel);

    open spec fn view(&self) -> (Role, ContentModel) {
        (self.role, self.content@)
    }
}

impl MessageContent {
    /// The text that the content displays: `Text: ` and the text, or `Image
    /// URL: ` and the URL.
    pub fn to_string(&self) -> (text: String)
        ensures
            text@ == self@.display(),
    {
        match self {
            MessageContent::Text { text } => append_text("Text: ", text.as_str()),
            MessageContent::ImageUrl { image_url } => append_text("Image URL: ", image_url.url.as_str()),
        }
    }
}

impl From<String> for MessageContent {
    fn from(text: String) -> (content: MessageContent) {
        MessageContent::Text { text }
    }
}

impl vstd::std_specs::convert::FromSpecImpl<String> for MessageContent {
    open spec fn obeys_from_spec() -> bool {
        true
    }

    open spec fn from_spec(text: String) -> MessageContent {
        MessageContent::Text { text }
    }
}

impl From<&str> for MessageContent {
    fn from(text: &str) -> (content: MessageContent)
        ensures
            content@ == ContentModel::Text(text@),
    {
        MessageContent::Text { text: String::from_str(text) }
    }
}

impl vstd::std_specs::convert::FromSpecImpl<&str> for MessageContent {
    open spec fn obeys_from_spec() -> bool {
        false
    }

    open spec fn from_spec(text: &str) -> MessageContent {
        choose|content: MessageContent| #[trigger] content.view() == ContentModel::Text(text@)
    }
}

impl From<(Role, String)> for Message {
    fn from(pair: (Role, String)) -> (message: Message) {
        Message { role: pair.0, content: MessageContent::Text { text: pair.1 } }
    }
}

impl vstd::std_specs::convert::FromSpecImpl<(Role, String)> for Message {
    open spec fn obeys_from_spec() -> bool {
        true
    }

    open spec fn from_spec(pair: (Role, String)) -> Message {
        Message { role: pair.0, content: MessageContent::Text { text: pair.1 } }
    }
}

impl From<(Role, &str)> for Message {
    fn from(pair: (Role, &str)) -> (message: Message)
        ensures
            message@ == (pair.0, ContentModel::Text(pair.1@)),
    {
        Message { role: pair.0, content: MessageContent::Text { text: String::from_str(pair.1) } }
    }
}

impl vstd::std_specs::convert::FromSpecImpl<(Role, &str)> for Message {
    open spec fn obeys_from_spec() -> bool {
        false
    }

    open spec fn from_spec(pair: (Role, &str)) -> Message {
        choose|message: Message| #[trigger] message.view() == (pair.0, ContentModel::Text(pair.1@))
    }
}

impl From<String> for Message {
    fn from(text: String) -> (message: Message) {
        Message { role: Role::User, content: MessageContent::Text { text } }
    }
}

impl vstd::std_specs::convert::FromSpecImpl<String> for Message {
    open spec fn obeys_from_spec() -> bool {
        true
    }

    open spec fn from_spec(text: String) -> Message {
        Message { role: Role::User, content: MessageContent::Text { text } }
    }
}

impl From<&str> for Message {
    fn from(text: &str) -> (message: Message)
        ensures
            message@ == (Role::User, ContentModel::Text(text@)),
    {
        Message { role: Role::User, content: MessageContent::Text { text: String::from_str(text) } }
    }
}

impl vstd::std_specs::convert::FromSpecImpl<&str> for Message {
    open spec fn obeys_from_spec() -> bool {
        false
    }

    open spec fn from_spec(text: &str) -> Message {
        choose|message: Message| #[trigger] message.view() == (Role::User, ContentModel::Text(text@))
    }
}

} // verus!
