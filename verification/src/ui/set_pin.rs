//! The form that sets the PIN.
//!
//! A PIN has at least four characters and is typed twice, so that a slip does
//! not lock the user out. The hint on its strength goes by the length alone:
//! the PIN protects the local cache and nothing else.

use crate::message::{Message, MessageModel};
use crate::model::{option_view, seq_view};
use crate::pin::Pin;
use crate::text::same_text;
use crate::ui::{
    button, button_widget, error_line, input, input_widget, offers, push_error, text, text_widget,
    InputField, Widget, WidgetModel,
};
use vstd::prelude::*;
use vstd::string::*;

verus! {

/// The fewest characters of a PIN.
pub const MIN_PIN_LEN: usize = 4;

/// The hint on the strength of a PIN with so many characters.
pub open spec fn hint(len: nat) -> Seq<char> {
    if len < 4 {
        "Too short — at least 4 characters"@
    } else if len < 8 {
        "Weak"@
    } else if len < 12 {
        "Fair"@
    } else {
        "Strong"@
    }
}

/// Coarse hint on the strength of a PIN, by its number of characters.
pub fn strength_hint(len: usize) -> (r: &'static str)
    ensures
        r@ == hint(len as nat),
{
    if len < 4 {
        "Too short — at least 4 characters"
    } else if len < 8 {
        "Weak"
    } else if len < 12 {
        "Fair"
    } else {
        "Strong"
    }
}

/// The form above its button.
pub open spec fn set_pin_head(
    pin: Seq<char>,
    confirm: Seq<char>,
    error: Option<Seq<char>>,
) -> Seq<WidgetModel> {
    seq![
        text_widget("Set a PIN to protect your vault cache"@, 24),
        text_widget(
            "This PIN unlocks your vault when the app restarts or after idle. It is not sent to the server."@,
            14,
        ),
        input_widget("Enter PIN (min 4 digits)"@, pin, InputField::Pin),
        text_widget(hint(pin.len()), 14),
        input_widget("Confirm PIN"@, confirm, InputField::PinConfirm),
    ] + error_line(error)
}

/// What the form shows. It can be submitted once the PIN is long enough and
/// both fields agree.
pub open spec fn set_pin_widgets(
    pin: Seq<char>,
    confirm: Seq<char>,
    error: Option<Seq<char>>,
) -> Seq<WidgetModel> {
    set_pin_head(pin, confirm, error).push(
        button_widget(
            "Set PIN"@,
            if pin.len() >= MIN_PIN_LEN && pin == confirm {
                Some(MessageModel::PinSet(pin))
            } else {
                None
            },
        ),
    )
}

/// Show the form that sets the PIN.
pub fn view(pin: &str, confirm: &str, error: Option<&str>) -> (r: Vec<Widget>)
    ensures
        seq_view(r@) == set_pin_widgets(pin@, confirm@, option_view(error)),
{
    let len: usize = pin.unicode_len();
    let mut widgets: Vec<Widget> = Vec::new();
    widgets.push(text("Set a PIN to protect your vault cache", 24));
    widgets.push(
        text(
            "This PIN unlocks your vault when the app restarts or after idle. It is not sent to the server.",
            14,
        ),
    );
    widgets.push(input("Enter PIN (min 4 digits)", pin, InputField::Pin));
    widgets.push(text(strength_hint(len), 14));
    widgets.push(input("Confirm PIN", confirm, InputField::PinConfirm));
    proof {
        assert(seq_view(widgets@) + error_line(option_view(error)) =~= set_pin_head(
            pin@,
            confirm@,
            option_view(error),
        ));
    }
    push_error(&mut widgets, error);
    let submit: Option<Message> = if len >= MIN_PIN_LEN && same_text(pin, confirm) {
        Some(Message::PinSet(Pin::new(pin)))
    } else {
        None
    };
    widgets.push(button("Set PIN", submit));
    proof {
        assert(seq_view(widgets@) =~= set_pin_widgets(pin@, confirm@, option_view(error)));
    }
    widgets
}

// ---------------------------------------------------------------------
// Laws
// ---------------------------------------------------------------------

/// The form sets a PIN exactly when that PIN stands in both fields and has at
/// least four characters.
pub proof fn only_a_confirmed_pin_is_set(
    pin: Seq<char>,
    confirm: Seq<char>,
    error: Option<Seq<char>>,
    chosen: Seq<char>,
)
    ensures
        offers(set_pin_widgets(pin, confirm, error), MessageModel::PinSet(chosen)) <==> (chosen
            == pin && chosen == confirm && chosen.len() >= 4),
{
    let widgets = set_pin_widgets(pin, confirm, error);
    if chosen == pin && chosen == confirm && chosen.len() >= 4 {
        assert(widgets.last() == button_widget("Set PIN"@, Some(MessageModel::PinSet(chosen))));
    }
}

/// Each hint has its range of lengths.
pub proof fn each_hint_has_its_range(len: nat)
    ensures
        len < 4 <==> hint(len) == "Too short — at least 4 characters"@,
        4 <= len < 8 <==> hint(len) == "Weak"@,
        8 <= len < 12 <==> hint(len) == "Fair"@,
        12 <= len <==> hint(len) == "Strong"@,
        MIN_PIN_LEN == 4,
{
    reveal_strlit("Too short — at least 4 characters");
    reveal_strlit("Weak");
    reveal_strlit("Fair");
    reveal_strlit("Strong");
    assert("Weak"@[0] != "Fair"@[0]);
    assert("Too short — at least 4 characters"@.len() == 33);
    assert("Strong"@.len() == 6);
    assert("Weak"@.len() == 4 && "Fair"@.len() == 4);
}

/// The form shows both fields with what stands in them, the hint for the first,
/// and the error, if there is one, above its button.
pub proof fn the_setup_form_shows_its_state(
    pin: Seq<char>,
    confirm: Seq<char>,
    error: Option<Seq<char>>,
)
    ensures
        ({
            let widgets = set_pin_widgets(pin, confirm, error);
            &&& widgets.len() == 6 + (if error is Some {
                1int
            } else {
                0int
            })
            &&& widgets[0] == (WidgetModel::Text {
                content: "Set a PIN to protect your vault cache"@,
                size: 24,
            })
            &&& widgets[1] == (WidgetModel::Text {
                content: "This PIN unlocks your vault when the app restarts or after idle. It is not sent to the server."@,
                size: 14,
            })
            &&& widgets[2] == (WidgetModel::Input {
                placeholder: "Enter PIN (min 4 digits)"@,
                value: pin,
                field: InputField::Pin,
            })
            &&& widgets[3] == (WidgetModel::Text { content: hint(pin.len()), size: 14 })
            &&& widgets[4] == (WidgetModel::Input {
                placeholder: "Confirm PIN"@,
                value: confirm,
                field: InputField::PinConfirm,
            })
            &&& error matches Some(content) ==> widgets[5] == (WidgetModel::Error { content })
            &&& widgets.last() matches WidgetModel::Button { label, on_press } && label
                == "Set PIN"@ && (on_press is Some <==> pin.len() >= 4 && pin == confirm) && (
            on_press is Some ==> on_press == Some(MessageModel::PinSet(pin)))
        }),
{
}

} // verus!
