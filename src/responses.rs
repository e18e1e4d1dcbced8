//! Objects that the API sends back and that handlers read.
use crate::error::Error;
use vstd::prelude::*;

verus! {

/// A callback button press, with the payload `T` the button was made with.
#[derive(Debug)]
pub struct ButtonPressCallback<T> {
    /// The conversation message the button belongs to.
    pub conversation_message_id: i32,
    /// The identifier of this press, used to answer it.
    pub event_id: String,
    pub payload: T,
    /// The conversation the button was pressed in.
    pub peer_id: i32,
    /// The user who pressed the button.
    pub user_id: i32,
}

/// The status the server answers an event answer with.
#[derive(Debug)]
pub struct EventAnswer(pub i8);

impl EventAnswer {
    /// The status, where it is success (`1`); any other is an error.
    pub fn get_status(&self) -> (r: Result<i8, Error>)
        ensures
            self.0 == 1 ==> r == Ok::<i8, Error>(1),
            self.0 != 1 ==> r == Err::<i8, Error>(Error::EventAnswerUnkownStatus { status: self.0 }),
    {
        let status = self.0;
        if status == 1 {
            Ok(status)
        } else {
            Err(Error::EventAnswerUnkownStatus { status })
        }
    }
}

/// The result of sending a message to one peer.
#[derive(Debug)]
pub struct MessageSendResult {
    pub peer_id: i64,
    pub message_id: i32,
    pub conversation_message_id: i32,
    /// Why the message was not delivered, if it was not.
    pub error: Option<String>,
}

/// Where to upload a photo for a message.
#[derive(Debug)]
pub struct GetMessagesUploadServer {
    pub album_id: i32,
    pub upload_url: String,
    pub user_id: i64,
    pub group_id: u32,
}

/// What the upload server answers an uploaded photo with.
#[derive(Debug)]
pub struct UploadImage {
    pub hash: String,
    pub photo: String,
    pub server: i32,
}

/// What the client that sent a message can show.
#[derive(Debug)]
pub struct ClientInfo {
    /// The button actions it supports.
    pub button_actions: Vec<String>,
    pub keyboard: bool,
    pub inline_keyboard: bool,
    pub carousel: bool,
    pub lang_id: i32,
}

/// A service action in a conversation.
#[derive(Debug)]
pub struct Action {
    pub action_type: String,
    /// The user (or e-mail) the action concerns.
    pub member_id: Option<i64>,
    /// The conversation's name, for service messages.
    pub text: Option<String>,
    pub email: Option<String>,
    /// The conversation's cover.
    pub photo: Option<Photo>,
}

/// The cover of a conversation in three sizes.
#[derive(Debug)]
pub struct Photo {
    pub photo_50: String,
    pub photo_100: String,
    pub photo_200: String,
}

/// A member of a conversation.
#[derive(Debug)]
pub struct Member {
    pub member_id: i32,
    /// Who invited the member.
    pub invited_by: i32,
    /// When the member joined, in Unix time.
    pub join_date: u64,
    pub is_admin: bool,
    pub can_kick: bool,
}

/// The administrative restrictions of a conversation.
#[derive(Debug)]
pub struct ChatRestrictions {
    pub admins_promote_users: bool,
    pub only_admins_edit_info: bool,
    pub only_admins_edit_pin: bool,
    pub only_admins_invite: bool,
    pub only_admins_kick: bool,
}

/// A community taking part in a conversation.
#[derive(Debug)]
pub struct Group {
    pub id: i32,
    pub name: String,
    pub screen_name: String,
    pub is_closed: i32,
    pub group_type: String,
    pub photo_50: String,
    pub photo_100: String,
    pub photo_200: String,
}

} // verus!
