//! Keyboards attached to outgoing messages, their buttons, and the actions a
//! callback button can answer with.
use vstd::prelude::*;

verus! {

/// What a button does when pressed, with the payload `T` it sends back.
#[derive(Debug)]
pub enum KeyboardAction<T> {
    Text { button_type: String, label: String, payload: T },
    OpenLink { button_type: String, link: String, label: String, payload: T },
    Location { button_type: String, payload: T },
    VkPay { button_type: String, payload: T, hash: String },
    OpenApp {
        button_type: String,
        app_id: u32,
        owner_id: u32,
        payload: T,
        label: String,
        hash: String,
    },
    Callback { button_type: String, label: String, payload: T },
}

/// The colour of a text or callback button.
#[derive(Clone, Copy, Debug, PartialEq, Eq, Structural)]
pub enum KeyboardColor {
    Primary,
    Secondary,
    Negative,
    Positive,
}

/// A keyboard: its buttons and how it is shown.
#[derive(Debug)]
pub struct Keyboard<T> {
    pub one_time: bool,
    pub inline: bool,
    pub buttons: Vec<Button<T>>,
}

/// One button of a keyboard. Only text and callback buttons carry a colour.
#[derive(Debug)]
pub struct Button<T> {
    pub action: KeyboardAction<T>,
    pub color: Option<KeyboardColor>,
}

impl<T> Button<T> {
    /// A button with the given action and colour.
    pub fn new(action: KeyboardAction<T>, color: Option<KeyboardColor>) -> (r: Self)
        ensures
            r.action == action,
            r.color == color,
    {
        Button { action, color }
    }

    /// A button that sends `label` as a message.
    pub fn text(label: &str, payload: T, color: KeyboardColor) -> (r: Self)
        ensures
            r.action matches KeyboardAction::Text { button_type, label: l, payload: p }
                && button_type@ == "text"@ && l@ == label@ && p == payload,
            r.color == Some(color),
    {
        let button_type = String::from_str("text");
        Button::new(
            KeyboardAction::Text { button_type, label: String::from_str(label), payload },
            Some(color),
        )
    }

    /// A button that opens `link`.
    pub fn open_link(link: &str, label: &str, payload: T) -> (r: Self)
        ensures
            r.action matches KeyboardAction::OpenLink { button_type, link: k, label: l, payload: p }
                && button_type@ == "open_link"@ && k@ == link@ && l@ == label@ && p == payload,
            r.color is None,
    {
        let button_type = String::from_str("open_link");
        Button::new(
            KeyboardAction::OpenLink {
                button_type,
                link: String::from_str(link),
                label: String::from_str(label),
                payload,
            },
            None,
        )
    }

    /// A button that sends the user's location.
    pub fn location(payload: T) -> (r: Self)
        ensures
            r.action matches KeyboardAction::Location { button_type, payload: p }
                && button_type@ == "location"@ && p == payload,
            r.color is None,
    {
        let button_type = String::from_str("location");
        Button::new(KeyboardAction::Location { button_type, payload }, None)
    }

    /// A payment button; `hash` holds the payment parameters.
    pub fn vkpay(payload: T, hash: &str) -> (r: Self)
        ensures
            r.action matches KeyboardAction::VkPay { button_type, payload: p, hash: h }
                && button_type@ == "vkpay"@ && p == payload && h@ == hash@,
            r.color is None,
    {
        let button_type = String::from_str("vkpay");
        Button::new(
            KeyboardAction::VkPay { button_type, payload, hash: String::from_str(hash) },
            None,
        )
    }

    /// A button that opens a mini app.
    pub fn open_app(app_id: u32, owner_id: u32, payload: T, label: &str, hash: &str) -> (r: Self)
        ensures
            r.action matches KeyboardAction::OpenApp {
                button_type,
                app_id: a,
                owner_id: o,
                payload: p,
                label: l,
                hash: h,
            } && button_type@ == "open_app"@ && a == app_id && o == owner_id && p == payload
                && l@ == label@ && h@ == hash@,
            r.color is None,
    {
        let button_type = String::from_str("open_app");
        Button::new(
            KeyboardAction::OpenApp {
                button_type,
                app_id,
                owner_id,
                payload,
                label: String::from_str(label),
                hash: String::from_str(hash),
            },
            None,
        )
    }

    /// A button whose press is reported to the bot as a callback event.
    pub fn callback(label: &str, payload: T, color: KeyboardColor) -> (r: Self)
        ensures
            r.action matches KeyboardAction::Callback { button_type, label: l, payload: p }
                && button_type@ == "callback"@ && l@ == label@ && p == payload,
            r.color == Some(color),
    {
        let button_type = String::from_str("callback");
        Button::new(
            KeyboardAction::Callback { button_type, label: String::from_str(label), payload },
            Some(color),
        )
    }
}

/// An answer to a callback button: show a snackbar with `text`.
#[derive(Debug)]
pub struct ShowSnackbar {
    /// Always `show_snackbar`.
    pub event_type: &'static str,
    /// The text to show, at most 90 characters.
    pub text: String,
}

/// An answer to a callback button: open `link`.
#[derive(Debug)]
pub struct OpenLink {
    /// Always `open_link`.
    pub event_type: &'static str,
    pub link: String,
}

/// An answer to a callback button: open a mini app.
#[derive(Debug)]
pub struct OpenApp {
    /// Always `open_app`.
    pub event_type: &'static str,
    pub app_id: i32,
    /// The community the app is installed in, when opened in its context.
    pub owner_id: i32,
    /// The navigation hash, without the leading `#`.
    pub hash: String,
}

impl ShowSnackbar {
    /// A snackbar answer with `text`.
    pub fn new(text: &str) -> (r: Self)
        ensures
            r.event_type@ == "show_snackbar"@,
            r.text@ == text@,
    {
        ShowSnackbar { event_type: "show_snackbar", text: String::from_str(text) }
    }
}

impl OpenLink {
    /// An answer that opens `link`.
    pub fn new(link: &str) -> (r: Self)
        ensures
            r.event_type@ == "open_link"@,
            r.link@ == link@,
    {
        OpenLink { event_type: "open_link", link: String::from_str(link) }
    }
}

impl OpenApp {
    /// An answer that opens the given app.
    pub fn new(app_id: i32, owner_id: i32, hash: String) -> (r: Self)
        ensures
            r.event_type@ == "open_app"@,
            r.app_id == app_id,
            r.owner_id == owner_id,
            r.hash == hash,
    {
        OpenApp { event_type: "open_app", app_id, owner_id, hash }
    }
}

/// The dimensions of a keyboard layout: rows, then buttons per row.
#[derive(Debug)]
pub struct Shape(Vec<usize>);

impl View for Shape {
    type V = Seq<usize>;

    closed spec fn view(&self) -> Seq<usize> {
        self.0@
    }
}

impl Shape {
    /// The shape of a layout with `rows` rows of `columns` buttons.
    pub fn from_dims(rows: usize, columns: usize) -> (r: Self)
        ensures
            r@ == seq![rows, columns],
    {
        let mut dims: Vec<usize> = Vec::new();
        dims.push(rows);
        dims.push(columns);
        proof {
            assert(dims@ =~= seq![rows, columns]);
        }
        Shape(dims)
    }

    /// The dimensions, outermost first.
    pub fn dims(&self) -> (r: &[usize])
        ensures
            r@ == self@,
    {
        self.0.as_slice()
    }
}

} // verus!
