//! Core of a bot library for a long-poll event stream: the negotiated session
//! and its recovery rules, the route table that picks one handler per event,
//! the command filters, and the builders of outbound method queries.

mod error;
mod filter;
mod json;
mod keyboard;
mod query;
mod responses;
mod routing;
mod session;
mod transport;

pub use error::{Error, VkError, NO_MESSAGE};
pub use filter::{matchit, Filter};
pub use keyboard::{
    Button, Keyboard, KeyboardAction, KeyboardColor, OpenApp, OpenLink, Shape, ShowSnackbar,
};
pub use query::{EditMessage, SendMessage, SendMessageEventAnswer, MAX_COLUMNS, MAX_ROWS};
pub use responses::{
    Action, ButtonPressCallback, ChatRestrictions, ClientInfo, EventAnswer, GetMessagesUploadServer,
    Group, Member, MessageSendResult, Photo, UploadImage,
};
pub use routing::{
    message_text, ListenerMethod, Route, SafeVk, Target, Update, MESSAGE_NEW, TEXT_POINTER,
};
pub use session::{
    backoff_seconds, Event, LongPollResponse, LongPollSession, PollOutcome, Recovery, Step,
    MAX_BACKOFF,
};
pub use transport::{
    encode_query, image_mime_type, method_url, negotiation_query, GET_LONG_POLL_SERVER, VERSION, VK,
    WAIT_TIME,
};
