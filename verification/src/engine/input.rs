//! A line of text asked of the reader: it is taken only when the reader
//! commits it and the script finds it valid.

use vstd::prelude::*;
use vstd::string::*;
use crate::engine::surface::{Widget, WidgetContainer, WidgetView};

verus! {

/// The key code of the key that commits a line of input.
pub const ENTER_KEYCODE: u32 = 13;

/// What the reader is told when a committed line is found invalid.
pub const INVALID_INPUT_NOTICE: &'static str = "Invalid input!";

/// Whether a key event commits the line: the enter key, and not together
/// with shift.
pub open spec fn is_commit(key_code: u32, shift_key: bool) -> bool {
    key_code == 13 && !shift_key
}

/// Whether a key event commits the line: the enter key, and not together
/// with shift.
pub fn commits(key_code: u32, shift_key: bool) -> (commit: bool)
    ensures
        commit == is_commit(key_code, shift_key),
{
    key_code == ENTER_KEYCODE && !shift_key
}

/// The text of a failure of one of the script's callbacks for a line of
/// input. It names the operation and carries the text of the script's own
/// error.
pub open spec fn input_error_text(error: Seq<char>) -> Seq<char> {
    "[VMError:State::ask_input]: "@ + error
}

/// Renders the failure `error` of one of the script's callbacks for a line
/// of input.
pub fn input_error_message(error: &str) -> (text: String)
    ensures
        text@ == input_error_text(error@),
{
    let mut text = String::from_str("[VMError:State::ask_input]: ");
    text.append(error);
    text
}

/// What a key event did to a line of input.
#[derive(Debug, Clone, Copy, PartialEq, Eq)]
pub enum KeyOutcome {
    /// The event does not commit the line. Nothing happened.
    Ignored,
    /// The line was committed and found invalid. The reader is to be told,
    /// and the line stays on show for another attempt.
    Rejected,
    /// The line was committed, found valid and taken.
    Submitted,
}

impl KeyOutcome {
    /// What the reader is to be told after the event: that the input is
    /// invalid, after a rejection, and nothing otherwise.
    pub fn notice(&self) -> (notice: Option<&'static str>)
        ensures
            notice is Some <==> *self == KeyOutcome::Rejected,
            notice is Some ==> notice->0@ == "Invalid input!"@,
    {
        match self {
            KeyOutcome::Rejected => Some(INVALID_INPUT_NOTICE),
            _ => None,
        }
    }
}

/// What becomes of a committed text, given the validator's answer: the text
/// itself if the validator found it valid, nothing if it found it invalid,
/// and the validator's failure as the text to fail with.
pub open spec fn acceptance(
    valid: Result<bool, String>,
    input_value: String,
    taken: Result<Option<String>, String>,
) -> bool {
    match valid {
        Err(error) => taken is Err && taken->Err_0@ == input_error_text(error@),
        Ok(false) => taken == Ok::<Option<String>, String>(None),
        Ok(true) => taken == Ok::<Option<String>, String>(Some(input_value)),
    }
}

/// What a commit reports once the callback has answered for the text that
/// was taken: that the text was submitted, or the callback's failure as
/// the text to fail with.
pub open spec fn submission(answer: Result<(), String>, outcome: Result<KeyOutcome, String>) -> bool {
    match answer {
        Ok(_) => outcome == Ok::<KeyOutcome, String>(KeyOutcome::Submitted),
        Err(error) => outcome is Err && outcome->Err_0@ == input_error_text(error@),
    }
}

/// What a commit reports, given what the validator and, for a valid line,
/// the callback answered.
pub open spec fn commit_verdict(
    valid: Result<bool, String>,
    taken: Option<Result<(), String>>,
    outcome: Result<KeyOutcome, String>,
) -> bool {
    match valid {
        Err(error) => taken is None && outcome is Err && outcome->Err_0@ == input_error_text(
            error@,
        ),
        Ok(false) => taken is None && outcome == Ok::<KeyOutcome, String>(KeyOutcome::Rejected),
        Ok(true) => taken is Some && submission(taken->0, outcome),
    }
}

/// Takes a committed text on the validator's answer. A text found valid is
/// handed out, and all widgets go off show as it is: whoever receives the
/// text finds none of them left. A text found invalid is not handed out,
/// and neither is one on which the validator failed; everything on show
/// then stays as it was.
pub fn accept_input(
    element: &mut WidgetContainer,
    valid: Result<bool, String>,
    input_value: String,
) -> (taken: Result<Option<String>, String>)
    ensures
        acceptance(valid, input_value, taken),
        taken is Ok && taken->Ok_0 is Some ==> final(element)@ == Seq::<WidgetView>::empty(),
        !(taken is Ok && taken->Ok_0 is Some) ==> final(element)@ == old(element)@,
{
    match valid {
        Err(error) => Err(input_error_message(error.as_str())),
        Ok(false) => Ok(None),
        Ok(true) => {
            element.clear();
            Ok(Some(input_value))
        },
    }
}

/// Reports a commit whose text was taken, from what the callback answered.
pub fn submit_outcome(answer: Result<(), String>) -> (outcome: Result<KeyOutcome, String>)
    ensures
        submission(answer, outcome),
{
    match answer {
        Ok(()) => Ok(KeyOutcome::Submitted),
        Err(error) => Err(input_error_message(error.as_str())),
    }
}

/// A single line of input with the two callbacks of the script that asked
/// for it: one that says whether a text is valid, one that takes a valid
/// text. The second is also shown the widgets that are on show when it
/// runs.
pub struct LineInput<G, F> {
    /// The text that the line is first filled with.
    pub default_text: String,
    /// Says whether a text is valid.
    pub validator_callback: G,
    /// Takes the text that was committed and found valid.
    pub enter_callback: F,
}

impl<
    G: Fn(String) -> Result<bool, String>,
    F: Fn(String, &WidgetContainer) -> Result<(), String>,
> LineInput<G, F> {
    /// A line first filled with `text`.
    pub fn new(text: &str, validator_callback: G, enter_callback: F) -> (input: LineInput<G, F>)
        ensures
            input.default_text@ == text@,
            input.validator_callback == validator_callback,
            input.enter_callback == enter_callback,
    {
        LineInput { default_text: String::from_str(text), validator_callback, enter_callback }
    }

    /// Puts the line on show behind the widgets already in `element`.
    pub fn add_to(&self, element: &mut WidgetContainer)
        ensures
            final(element)@ == old(element)@.push(
                WidgetView::LineInput { default_text: self.default_text@ },
            ),
    {
        element.add(Widget::LineInput { default_text: self.default_text.clone() });
    }

    /// Handles a key event on the line, which holds `input_value` at that
    /// moment. An event that does not commit is ignored. On a commit the
    /// validator judges the text. A valid text is taken: first the widgets
    /// go off show, then the callback runs with the text and is shown the
    /// container as it then is, empty. An invalid text is rejected and
    /// everything stays as it was, ready for another attempt. A failure
    /// inside either callback comes back as the text to fail with.
    pub fn key_up(
        &self,
        element: &mut WidgetContainer,
        key_code: u32,
        shift_key: bool,
        input_value: String,
    ) -> (outcome: Result<KeyOutcome, String>)
        requires
            is_commit(key_code, shift_key) ==> call_requires(
                self.validator_callback,
                (input_value,),
            ),
            is_commit(key_code, shift_key) ==> forall|shown: WidgetContainer|
                shown@ == Seq::<WidgetView>::empty() ==> call_requires(
                    self.enter_callback,
                    (input_value, &shown),
                ),
        ensures
            !is_commit(key_code, shift_key) ==> outcome == Ok::<KeyOutcome, String>(
                KeyOutcome::Ignored,
            ) && final(element)@ == old(element)@,
            is_commit(key_code, shift_key) ==> exists|
                valid: Result<bool, String>,
                taken: Option<Result<(), String>>,
            |
                {
                    &&& call_ensures(self.validator_callback, (input_value,), valid)
                    &&& taken is Some ==> call_ensures(
                        self.enter_callback,
                        (input_value, &*final(element)),
                        taken->0,
                    )
                    &&& commit_verdict(valid, taken, outcome)
                    &&& taken is Some ==> final(element)@ == Seq::<WidgetView>::empty()
                    &&& taken is None ==> final(element)@ == old(element)@
                },
            outcome == Ok::<KeyOutcome, String>(KeyOutcome::Submitted) ==> final(element)@
                == Seq::<WidgetView>::empty(),
            outcome == Ok::<KeyOutcome, String>(KeyOutcome::Rejected) ==> final(element)@
                == old(element)@,
    {
        if !commits(key_code, shift_key) {
            return Ok(KeyOutcome::Ignored);
        }
        let valid = (self.validator_callback)(input_value.clone());
        let ghost judged = valid;
        match accept_input(element, valid, input_value) {
            Err(message) => {
                let outcome = Err(message);
                assert(commit_verdict(judged, None, outcome));
                outcome
            },
            Ok(None) => {
                assert(commit_verdict(judged, None, Ok(KeyOutcome::Rejected)));
                Ok(KeyOutcome::Rejected)
            },
            Ok(Some(text)) => {
                let answer = (self.enter_callback)(text, &*element);
                let ghost answered = answer;
                let outcome = submit_outcome(answer);
                assert(commit_verdict(judged, Some(answered), outcome));
                outcome
            },
        }
    }
}

} // verus!
