use crate::model::TrainingSession;
use crate::render::{decimal, decimal_text};
use teloxide::types::InlineKeyboardButton;
use vstd::prelude::*;

verus! {

#[verifier::external_type_specification]
#[verifier::external_body]
pub struct ExInlineKeyboardButton(InlineKeyboardButton);

/// The button that teloxide builds to show `label` and send `data` back when pressed.
pub uninterp spec fn callback_button(label: Seq<char>, data: Seq<char>) -> InlineKeyboardButton;

/// Relies on teloxide's `InlineKeyboardButton::callback`, which builds the button from
/// its label and callback data alone.
#[verifier::external_body]
fn callback(label: String, data: String) -> (r: InlineKeyboardButton)
    ensures
        r == callback_button(label@, data@),
{
    InlineKeyboardButton::callback(label, data)
}

/// The label of a session's button: `{day}: {activity} @ {location}`.
pub open spec fn control_label(s: TrainingSession) -> Seq<char> {
    s.day@ + ": "@ + s.activity@ + " @ "@ + s.location@
}

/// The action token that a session's button sends: `checkin_{id}`.
pub open spec fn checkin_token(id: u8) -> Seq<char> {
    "checkin_"@ + decimal(id as nat)
}

impl TrainingSession {
    /// The label of this session's button.
    pub fn control_label(&self) -> (r: String)
        ensures
            r@ == control_label(*self),
    {
        let mut out = self.day.clone();
        out.append(": ");
        out.append(self.activity.as_str());
        out.append(" @ ");
        out.append(self.location.as_str());
        out
    }

    /// The action token of this session's button.
    pub fn control_token(&self) -> (r: String)
        ensures
            r@ == checkin_token(self.id),
    {
        let mut out = String::from_str("checkin_");
        let digits = decimal_text(self.id as usize);
        out.append(digits.as_str());
        out
    }

    /// The button that checks a user in to (or out of) this session.
    pub fn make_button(&self) -> (r: InlineKeyboardButton)
        ensures
            r == callback_button(control_label(*self), checkin_token(self.id)),
    {
        callback(self.control_label(), self.control_token())
    }
}

/// `rows` is the control layout of `sessions`: one row per session, in list order,
/// each holding that session's button alone.
pub open spec fn controls_match(rows: Seq<Vec<InlineKeyboardButton>>, sessions: Seq<TrainingSession>) -> bool {
    &&& rows.len() == sessions.len()
    &&& forall|i: int|
        0 <= i < sessions.len() ==> (#[trigger] rows[i])@ == seq![
            callback_button(control_label(sessions[i]), checkin_token(sessions[i].id)),
        ]
}

/// One row per session, in list order, each holding that session's button.
pub fn render_controls(sessions: &Vec<TrainingSession>) -> (r: Vec<Vec<InlineKeyboardButton>>)
    ensures
        controls_match(r@, sessions@),
{
    let mut rows: Vec<Vec<InlineKeyboardButton>> = Vec::new();
    let mut i: usize = 0;
    while i < sessions.len()
        invariant
            0 <= i <= sessions@.len(),
            rows@.len() == i,
            forall|j: int|
                0 <= j < i ==> (#[trigger] rows@[j])@ == seq![
                    callback_button(control_label(sessions@[j]), checkin_token(sessions@[j].id)),
                ],
        decreases sessions@.len() - i,
    {
        let mut row: Vec<InlineKeyboardButton> = Vec::new();
        row.push(sessions[i].make_button());
        rows.push(row);
        i += 1;
    }
    rows
}

} // verus!
