use chat_gpt_lib_rs::client::chat_input::{ImageUrl, Message, MessageContent};
use chat_gpt_lib_rs::models::Role;

#[test]
fn test_message_struct() {
    let message = Message {
        role: Role::User,
        content: MessageContent::Text {
            text: "Hello, how can I help you?".into(),
        },
    };
    assert_eq!(message.role, Role::User);
    assert_eq!(
        message.content,
        MessageContent::Text {
            text: "Hello, how can I help you?".to_string(),
        }
    );
}

#[test]
fn message_from_text_is_a_user_message() {
    let message = Message::from("hi");
    assert_eq!(message.role, Role::User);
    assert_eq!(
        message.content,
        MessageContent::Text {
            text: "hi".to_string()
        }
    );
    let owned = Message::from("hi".to_string());
    assert_eq!(owned, message);
}

#[test]
fn message_from_role_and_text() {
    let message = Message::from((Role::System, "be brief"));
    assert_eq!(message.role, Role::System);
    assert_eq!(message.content, MessageContent::from("be brief"));
    let owned = Message::from((Role::System, "be brief".to_string()));
    assert_eq!(owned, message);
}

#[test]
fn content_displays_its_kind() {
    let text = MessageContent::from("hello".to_string());
    assert_eq!(text.to_string(), "Text: hello");
    let image = MessageContent::ImageUrl {
        image_url: ImageUrl {
            url: "https://x/cat.png".to_string(),
        },
    };
    assert_eq!(image.to_string(), "Image URL: https://x/cat.png");
}
