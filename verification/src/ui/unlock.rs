//! The form that asks for the PIN.

use crate::message::{Message, MessageModel};
use crate::model::{option_view, seq_view};
use crate::pin::Pin;
use crate::ui::{
    button, button_widget, error_line, input, input_widget, offers, push_error, text, text_widget,
    InputField, Widget, WidgetModel,
};
use vstd::prelude::*;
use vstd::string::*;

verus! {

/// The form above its button.
pub open spec fn unlock_head(pin: Seq<char>, error: Option<Seq<char>>) -> Seq<WidgetModel> {
    seq![
        text_widget("Unlock your vault"@, 24),
        input_widget("Enter PIN"@, pin, InputField::Pin),
    ] + error_line(error)
}

/// What the form shows. It can be submitted once something was typed.
pub open spec fn unlock_widgets(pin: Seq<char>, error: Option<Seq<char>>) -> Seq<WidgetModel> {
    unlock_head(pin, error).push(
        button_widget(
            "Unlock"@,
            if pin.len() > 0 {
                Some(MessageModel::PinSubmitted(pin))
            } else {
                None
            },
        ),
    )
}

/// Show the form that asks for the PIN.
pub fn view(pin: &str, error: Option<&str>) -> (r: Vec<Widget>)
    ensures
        seq_view(r@) == unlock_widgets(pin@, option_view(error)),
{
    let mut widgets: Vec<Widget> = Vec::new();
    widgets.push(text("Unlock your vault", 24));
    widgets.push(input("Enter PIN", pin, InputField::Pin));
    proof {
        assert(seq_view(widgets@) + error_line(option_view(error)) =~= unlock_head(
            pin@,
            option_view(error),
        ));
    }
    push_error(&mut widgets, error);
    let submit: Option<Message> = if pin.unicode_len() > 0 {
        Some(Message::PinSubmitted(Pin::new(pin)))
    } else {
        None
    };
    widgets.push(button("Unlock", submit));
    proof {
        assert(seq_view(widgets@) =~= unlock_widgets(pin@, option_view(error)));
    }
    widgets
}

// ---------------------------------------------------------------------
// Laws
// ---------------------------------------------------------------------

/// The form submits exactly what stands in its field, if that is anything.
pub proof fn only_the_typed_pin_is_submitted(
    pin: Seq<char>,
    error: Option<Seq<char>>,
    submitted: Seq<char>,
)
    ensures
        offers(unlock_widgets(pin, error), MessageModel::PinSubmitted(submitted)) <==> (submitted
            == pin && pin.len() > 0),
{
    let widgets = unlock_widgets(pin, error);
    if submitted == pin && pin.len() > 0 {
        assert(widgets.last() == button_widget(
            "Unlock"@,
            Some(MessageModel::PinSubmitted(submitted)),
        ));
    }
}

/// The form shows what was typed, and the error, if there is one, above its
/// button.
pub proof fn the_unlock_form_shows_its_state(pin: Seq<char>, error: Option<Seq<char>>)
    ensures
        ({
            let widgets = unlock_widgets(pin, error);
            &&& widgets.len() == 3 + (if error is Some {
                1int
            } else {
                0int
            })
            &&& widgets[0] == (WidgetModel::Text { content: "Unlock your vault"@, size: 24 })
            &&& widgets[1] == (WidgetModel::Input {
                placeholder: "Enter PIN"@,
                value: pin,
                field: InputField::Pin,
            })
            &&& error matches Some(content) ==> widgets[2] == (WidgetModel::Error { content })
            &&& widgets.last() matches WidgetModel::Button { label, on_press } && label
                == "Unlock"@ && (on_press is Some <==> pin.len() > 0) && (on_press is Some
                ==> on_press == Some(MessageModel::PinSubmitted(pin)))
        }),
{
}

} // verus!
