//! Choices put to the reader: a row of buttons of which exactly one may
//! ever take effect.

use vstd::prelude::*;
use vstd::string::*;
use crate::engine::surface::{Widget, WidgetContainer, WidgetView};

verus! {

/// One option of a choice, as the script describes it.
pub struct Button<P> {
    /// The text displayed for the button.
    pub text: String,
    /// Data that is handed to the script when this option is taken.
    pub on_activate_data: P,
}

impl<P> Button<P> {
    /// An option shown as `text` that stands for `on_activate_data`.
    pub fn new(text: String, on_activate_data: P) -> (button: Button<P>)
        ensures
            button.text == text,
            button.on_activate_data == on_activate_data,
    {
        Button { text, on_activate_data }
    }
}

/// One option of a choice, as it is shown.
pub struct DisplayButton {
    /// The text on the button.
    pub text: String,
    /// Which option of its choice the button stands for.
    pub index: usize,
}

impl DisplayButton {
    /// The button for option number `index`, showing `text`.
    pub fn new(text: &str, index: usize) -> (button: DisplayButton)
        ensures
            button.text@ == text@,
            button.index == index,
    {
        DisplayButton { text: String::from_str(text), index }
    }

    /// Puts the button on show behind the widgets already in `element`.
    pub fn add_to(&self, element: &mut WidgetContainer)
        ensures
            final(element)@ == old(element)@.push(
                WidgetView::Button { text: self.text@, index: self.index as nat },
            ),
    {
        element.add(Widget::Button { text: self.text.clone(), index: self.index });
    }
}

/// The buttons that show `options`, in the order of the options.
pub open spec fn button_views<P>(options: Seq<Button<P>>) -> Seq<WidgetView> {
    Seq::new(options.len(), |i: int| WidgetView::Button { text: options[i].text@, index: i as nat })
}

/// What activating option `index` hands out: the data of that option while
/// the options are live, nothing once they have been spent.
pub open spec fn fired_payload<P>(remaining: Seq<Button<P>>, index: int) -> Option<P> {
    if 0 <= index < remaining.len() {
        Some(remaining[index].on_activate_data)
    } else {
        None
    }
}

/// The options that are live after activating option `index`: none, if the
/// activation took effect.
pub open spec fn after_fire<P>(remaining: Seq<Button<P>>, index: int) -> Seq<Button<P>> {
    if 0 <= index < remaining.len() {
        Seq::empty()
    } else {
        remaining
    }
}

/// What a series of activations hands out, one after the other.
pub open spec fn outcomes<P>(remaining: Seq<Button<P>>, attempts: Seq<int>) -> Seq<Option<P>>
    decreases attempts.len(),
{
    if attempts.len() == 0 {
        Seq::empty()
    } else {
        seq![fired_payload(remaining, attempts[0])] + outcomes(
            after_fire(remaining, attempts[0]),
            attempts.drop_first(),
        )
    }
}

/// The text of a failure of the script's callback for a choice.
pub open spec fn choice_error_text(error: Seq<char>) -> Seq<char> {
    "[VMError:State::ask_choice]: "@ + error
}

/// Renders the failure `error` of the script's callback for a choice.
pub fn choice_error_message(error: &str) -> (text: String)
    ensures
        text@ == choice_error_text(error@),
{
    let mut text = String::from_str("[VMError:State::ask_choice]: ");
    text.append(error);
    text
}

/// What an activation that took effect reports, given the callback's
/// answer: that the callback ran, or the callback's failure as the text of
/// a failure of the choice.
pub open spec fn choice_verdict(answer: Result<(), String>, ran: Result<bool, String>) -> bool {
    match answer {
        Ok(_) => ran == Ok::<bool, String>(true),
        Err(error) => ran is Err && ran->Err_0@ == choice_error_text(error@),
    }
}

/// The options of one choice, shared by its buttons. It guards them: the
/// first activation takes its option and spends all the others with it.
pub struct ChoiceSession<P> {
    buttons: Vec<Button<P>>,
}

impl<P> ChoiceSession<P> {
    /// The options that can still be taken: all of them, or none.
    pub closed spec fn remaining(&self) -> Seq<Button<P>> {
        self.buttons@
    }

    /// The guard over `buttons`, all of them live.
    pub fn new(buttons: Vec<Button<P>>) -> (session: ChoiceSession<P>)
        ensures
            session.remaining() == buttons@,
    {
        ChoiceSession { buttons }
    }

    /// How many options can still be taken.
    pub fn len(&self) -> (n: usize)
        ensures
            n == self.remaining().len(),
    {
        self.buttons.len()
    }

    /// The text of option `index`, while the options are live.
    pub fn label(&self, index: usize) -> (text: Option<&str>)
        ensures
            text is Some <==> index < self.remaining().len(),
            text is Some ==> text->0@ == self.remaining()[index as int].text@,
    {
        if index < self.buttons.len() {
            Some(self.buttons[index].text.as_str())
        } else {
            None
        }
    }

    /// Activates option `index`. While the options are live this takes the
    /// data of that option, spends every option, and takes all widgets off
    /// show, so that whoever receives the data finds none of them left. Once
    /// the options are spent it does nothing.
    pub fn fire(&mut self, element: &mut WidgetContainer, index: usize) -> (fired: Option<P>)
        ensures
            fired == fired_payload(old(self).remaining(), index as int),
            final(self).remaining() == after_fire(old(self).remaining(), index as int),
            fired is Some ==> final(element)@ == Seq::<WidgetView>::empty(),
            fired is None ==> final(element)@ == old(element)@,
    {
        if index < self.buttons.len() {
            let button = self.buttons.swap_remove(index);
            self.buttons.clear();
            element.clear();
            Some(button.on_activate_data)
        } else {
            None
        }
    }

    /// Activates option `index` and, if that takes effect, hands its data
    /// to `callback`: first the widgets go, then the callback runs and is
    /// shown the container as it then is, empty. Returns whether the
    /// callback ran; its failure comes back as the text of a failure of the
    /// choice.
    pub fn activate<F>(&mut self, element: &mut WidgetContainer, index: usize, callback: F) -> (ran:
        Result<bool, String>) where F: FnOnce(P, &WidgetContainer) -> Result<(), String>
        requires
            index < old(self).remaining().len() ==> forall|shown: WidgetContainer|
                shown@ == Seq::<WidgetView>::empty() ==> call_requires(
                    callback,
                    (old(self).remaining()[index as int].on_activate_data, &shown),
                ),
        ensures
            final(self).remaining() == after_fire(old(self).remaining(), index as int),
            index >= old(self).remaining().len() ==> ran == Ok::<bool, String>(false)
                && final(element)@ == old(element)@,
            index < old(self).remaining().len() ==> final(element)@ == Seq::<WidgetView>::empty()
                && exists|answer: Result<(), String>|
                    call_ensures(
                        callback,
                        (old(self).remaining()[index as int].on_activate_data, &*final(element)),
                        answer,
                    ) && choice_verdict(answer, ran),
    {
        match self.fire(element, index) {
            None => Ok(false),
            Some(payload) => {
                let answer = callback(payload, &*element);
                let ghost seen = answer;
                let ran = choice_report(answer);
                assert(choice_verdict(seen, ran));
                ran
            },
        }
    }
}

/// Reports an activation that took effect, from what the callback
/// answered: that the callback ran, or its failure as the text of a failure
/// of the choice.
pub fn choice_report(answer: Result<(), String>) -> (ran: Result<bool, String>)
    ensures
        choice_verdict(answer, ran),
{
    match answer {
        Ok(()) => Ok(true),
        Err(error) => Err(choice_error_message(error.as_str())),
    }
}

/// Once the options are spent, no activation hands out anything.
pub proof fn lemma_spent_options_never_fire<P>(attempts: Seq<int>, i: int)
    requires
        0 <= i < attempts.len(),
    ensures
        outcomes(Seq::<Button<P>>::empty(), attempts).len() == attempts.len(),
        outcomes(Seq::<Button<P>>::empty(), attempts)[i] is None,
    decreases attempts.len(),
{
    let spent = Seq::<Button<P>>::empty();
    lemma_outcomes_len(spent, attempts);
    assert(after_fire(spent, attempts[0]) == spent);
    if i > 0 {
        lemma_spent_options_never_fire::<P>(attempts.drop_first(), i - 1);
    }
}

/// Every activation has its outcome.
pub proof fn lemma_outcomes_len<P>(remaining: Seq<Button<P>>, attempts: Seq<int>)
    ensures
        outcomes(remaining, attempts).len() == attempts.len(),
    decreases attempts.len(),
{
    if attempts.len() > 0 {
        lemma_outcomes_len(after_fire(remaining, attempts[0]), attempts.drop_first());
    }
}

/// However often and in whatever order the options of one choice are
/// activated, at most one activation hands out data.
pub proof fn lemma_fires_at_most_once<P>(options: Seq<Button<P>>, attempts: Seq<int>, i: int, j: int)
    requires
        0 <= i < j < attempts.len(),
    ensures
        outcomes(options, attempts).len() == attempts.len(),
        !(outcomes(options, attempts)[i] is Some && outcomes(options, attempts)[j] is Some),
    decreases attempts.len(),
{
    lemma_outcomes_len(options, attempts);
    let rest = attempts.drop_first();
    let next = after_fire(options, attempts[0]);
    lemma_outcomes_len(next, rest);
    if i == 0 {
        if fired_payload(options, attempts[0]) is Some {
            lemma_spent_options_never_fire::<P>(rest, j - 1);
        }
    } else {
        lemma_fires_at_most_once(next, rest, i - 1, j - 1);
    }
}

/// The first activation of an option that is on show takes effect, with
/// the data of exactly that option.
pub proof fn lemma_first_activation_fires<P>(options: Seq<Button<P>>, attempts: Seq<int>)
    requires
        attempts.len() > 0,
        0 <= attempts[0] < options.len(),
    ensures
        outcomes(options, attempts).len() == attempts.len(),
        outcomes(options, attempts)[0] == Some(options[attempts[0]].on_activate_data),
{
    lemma_outcomes_len(options, attempts);
}

} // verus!
