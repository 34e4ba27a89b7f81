//! What each screen shows.
//!
//! A view is a column of widgets, from top to bottom. It says what the widgets
//! hold and which messages they send; how they look is the caller's part.

pub mod login;
pub mod set_pin;
pub mod unlock;

use crate::message::{Message, MessageModel, Screen};
use crate::model::{option_view, seq_view};
use crate::state::{State, StateModel};
use crate::text::{decimal, decimal_text};
use login::{login_widgets, two_factor_widgets};
use set_pin::set_pin_widgets;
use unlock::unlock_widgets;
use vstd::prelude::*;
use vstd::string::*;
use vstd::utf8::encode_utf8;

verus! {

/// The fields that can be typed into.
#[derive(Debug, Clone, Copy, PartialEq, Eq, Structural)]
pub enum InputField {
    ServerUrl,
    Pin,
    PinConfirm,
    TwoFactor,
}

impl InputField {
    /// The message of a field that now holds `text`.
    pub open spec fn typed(self, text: Seq<char>) -> MessageModel {
        match self {
            InputField::ServerUrl => MessageModel::ServerUrlChanged(text),
            InputField::Pin => MessageModel::PinInput(text),
            InputField::PinConfirm => MessageModel::PinConfirmInput(text),
            InputField::TwoFactor => MessageModel::TwoFactorInput(text),
        }
    }

    /// The message of this field when it changes.
    pub fn message(self, text: String) -> (r: Message)
        ensures
            r@ == self.typed(text@),
    {
        match self {
            InputField::ServerUrl => Message::ServerUrlChanged(text),
            InputField::Pin => Message::PinInput(text),
            InputField::PinConfirm => Message::PinConfirmInput(text),
            InputField::TwoFactor => Message::TwoFactorInput(text),
        }
    }
}

/// One widget of a column.
pub enum Widget {
    /// A line of text in this size.
    Text { content: String, size: u32 },
    /// An error message.
    Error { content: String },
    /// A field that can be typed into.
    Input { placeholder: String, value: String, field: InputField },
    /// A button; without a message it is disabled.
    Button { label: String, on_press: Option<Message> },
}

/// View of a [`Widget`].
pub enum WidgetModel {
    Text { content: Seq<char>, size: u32 },
    Error { content: Seq<char> },
    Input { placeholder: Seq<char>, value: Seq<char>, field: InputField },
    Button { label: Seq<char>, on_press: Option<MessageModel> },
}

impl View for Widget {
    type V = WidgetModel;

    open spec fn view(&self) -> WidgetModel {
        match self {
            Widget::Text { content, size } => WidgetModel::Text { content: content@, size: *size },
            Widget::Error { content } => WidgetModel::Error { content: content@ },
            Widget::Input { placeholder, value, field } => WidgetModel::Input {
                placeholder: placeholder@,
                value: value@,
                field: *field,
            },
            Widget::Button { label, on_press } => WidgetModel::Button {
                label: label@,
                on_press: option_view(*on_press),
            },
        }
    }
}

/// A line of text.
pub open spec fn text_widget(content: Seq<char>, size: u32) -> WidgetModel {
    WidgetModel::Text { content, size }
}

pub(crate) fn text(content: &str, size: u32) -> (r: Widget)
    ensures
        r@ == text_widget(content@, size),
{
    Widget::Text { content: content.to_owned(), size }
}

/// A field.
pub open spec fn input_widget(
    placeholder: Seq<char>,
    value: Seq<char>,
    field: InputField,
) -> WidgetModel {
    WidgetModel::Input { placeholder, value, field }
}

pub(crate) fn input(placeholder: &str, value: &str, field: InputField) -> (r: Widget)
    ensures
        r@ == input_widget(placeholder@, value@, field),
{
    Widget::Input { placeholder: placeholder.to_owned(), value: value.to_owned(), field }
}

/// A button.
pub open spec fn button_widget(label: Seq<char>, on_press: Option<MessageModel>) -> WidgetModel {
    WidgetModel::Button { label, on_press }
}

pub(crate) fn button(label: &str, on_press: Option<Message>) -> (r: Widget)
    ensures
        r@ == button_widget(label@, option_view(on_press)),
{
    Widget::Button { label: label.to_owned(), on_press }
}

/// The line for an error, where there is one.
pub open spec fn error_line(error: Option<Seq<char>>) -> Seq<WidgetModel> {
    match error {
        Some(content) => seq![WidgetModel::Error { content }],
        None => seq![],
    }
}

pub(crate) fn push_error(widgets: &mut Vec<Widget>, error: Option<&str>)
    ensures
        seq_view(final(widgets)@) == seq_view(old(widgets)@) + error_line(option_view(error)),
{
    let ghost before = widgets@;
    if let Some(content) = error {
        widgets.push(Widget::Error { content: content.to_owned() });
    }
    proof {
        assert(seq_view(widgets@) =~= seq_view(before) + error_line(option_view(error)));
    }
}

/// The line of the main screen.
pub open spec fn main_label(cached_vault: Option<Seq<char>>) -> Seq<char> {
    match cached_vault {
        Some(json) => "Main — cached snapshot: "@ + decimal(encode_utf8(json).len()) + " bytes"@,
        None => "Main"@,
    }
}

/// What the main screen shows.
pub open spec fn main_widgets(cached_vault: Option<Seq<char>>) -> Seq<WidgetModel> {
    seq![text_widget(main_label(cached_vault), 24)]
}

/// Show the main screen.
pub fn main_view(cached_vault: Option<&str>) -> (r: Vec<Widget>)
    ensures
        seq_view(r@) == main_widgets(option_view(cached_vault)),
{
    let label: String = match cached_vault {
        Some(json) => {
            let mut label = "Main — cached snapshot: ".to_owned();
            let bytes: usize = json.as_bytes().len();
            label.append(decimal_text(bytes as u64).as_str());
            label.append(" bytes");
            label
        },
        None => "Main".to_owned(),
    };
    let mut widgets: Vec<Widget> = Vec::new();
    widgets.push(text(label.as_str(), 24));
    proof {
        assert(seq_view(widgets@) =~= main_widgets(option_view(cached_vault)));
    }
    widgets
}

/// What a state shows.
pub open spec fn shown(state: StateModel) -> Seq<WidgetModel> {
    match state.screen {
        Screen::Login => login_widgets(
            state.config.server_url,
            state.device_code,
            state.auth_busy,
            state.auth_error,
        ),
        Screen::DeviceCode => login_widgets(
            state.config.server_url,
            state.device_code,
            state.auth_busy,
            state.auth_error,
        ),
        Screen::TwoFa => two_factor_widgets(
            state.two_factor_input,
            state.auth_busy,
            state.auth_error,
        ),
        Screen::SetPin => set_pin_widgets(state.pin_input, state.pin_confirm, state.pin_error),
        Screen::Unlock => unlock_widgets(state.pin_input, state.pin_error),
        Screen::Main => main_widgets(state.cached_vault),
    }
}

fn borrowed(text: &Option<String>) -> (r: Option<&str>)
    ensures
        option_view(r) == option_view(*text),
{
    match text {
        Some(text) => Some(text.as_str()),
        None => None,
    }
}

/// Show the active screen.
pub fn view(state: &State) -> (r: Vec<Widget>)
    ensures
        seq_view(r@) == shown(state@),
{
    match state.screen {
        Screen::Login | Screen::DeviceCode => login::view(
            state.config.server_url.as_str(),
            &state.device_code,
            state.auth_busy,
            borrowed(&state.auth_error),
        ),
        Screen::TwoFa => login::two_factor_view(
            state.two_factor_input.as_str(),
            state.auth_busy,
            borrowed(&state.auth_error),
        ),
        Screen::SetPin => set_pin::view(
            state.pin_input.as_str(),
            state.pin_confirm.as_str(),
            borrowed(&state.pin_error),
        ),
        Screen::Unlock => unlock::view(state.pin_input.as_str(), borrowed(&state.pin_error)),
        Screen::Main => main_view(borrowed(&state.cached_vault)),
    }
}

/// The message that a widget sends when it is pressed.
pub open spec fn pressed(widget: WidgetModel) -> Option<MessageModel> {
    match widget {
        WidgetModel::Button { on_press, .. } => on_press,
        _ => None,
    }
}

/// Some widget of the column sends this message when it is pressed.
pub open spec fn offers(widgets: Seq<WidgetModel>, message: MessageModel) -> bool {
    exists|i: int|
        0 <= i < widgets.len() && pressed(#[trigger] widgets[i]) == Some(message)
}

// ---------------------------------------------------------------------
// Laws
// ---------------------------------------------------------------------

/// Each field sends its own message, with what was typed.
pub proof fn fields_send_what_was_typed(text: Seq<char>)
    ensures
        InputField::ServerUrl.typed(text) == MessageModel::ServerUrlChanged(text),
        InputField::Pin.typed(text) == MessageModel::PinInput(text),
        InputField::PinConfirm.typed(text) == MessageModel::PinConfirmInput(text),
        InputField::TwoFactor.typed(text) == MessageModel::TwoFactorInput(text),
{
}

/// A widget holds what it was made with.
pub proof fn widgets_hold_what_they_are_given(
    content: Seq<char>,
    size: u32,
    value: Seq<char>,
    field: InputField,
    on_press: Option<MessageModel>,
)
    ensures
        text_widget(content, size) == (WidgetModel::Text { content, size }),
        input_widget(content, value, field) == (WidgetModel::Input {
            placeholder: content,
            value,
            field,
        }),
        button_widget(content, on_press) == (WidgetModel::Button { label: content, on_press }),
        pressed(WidgetModel::Button { label: content, on_press }) == on_press,
        error_line(Some(content)) == seq![WidgetModel::Error { content }],
        error_line(None).len() == 0,
{
}

/// The main screen is one line, which tells the size of the snapshot in bytes
/// where there is one.
pub proof fn the_main_screen_tells_the_size(json: Seq<char>)
    ensures
        main_widgets(Some(json)) == seq![
            WidgetModel::Text {
                content: "Main — cached snapshot: "@ + decimal(encode_utf8(json).len())
                    + " bytes"@,
                size: 24,
            },
        ],
        main_widgets(None) == seq![WidgetModel::Text { content: "Main"@, size: 24 }],
{
}

/// Each screen shows its own column, of the fields of the state that belong to
/// it; a code that waits is shown on the login screen.
pub proof fn each_screen_shows_its_own(state: StateModel)
    ensures
        state.screen == Screen::Login || state.screen == Screen::DeviceCode ==> shown(state)
            == login_widgets(
            state.config.server_url,
            state.device_code,
            state.auth_busy,
            state.auth_error,
        ),
        state.screen == Screen::TwoFa ==> shown(state) == two_factor_widgets(
            state.two_factor_input,
            state.auth_busy,
            state.auth_error,
        ),
        state.screen == Screen::SetPin ==> shown(state) == set_pin_widgets(
            state.pin_input,
            state.pin_confirm,
            state.pin_error,
        ),
        state.screen == Screen::Unlock ==> shown(state) == unlock_widgets(
            state.pin_input,
            state.pin_error,
        ),
        state.screen == Screen::Main ==> shown(state) == main_widgets(state.cached_vault),
{
}

} // verus!
