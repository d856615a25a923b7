//! The state of one narrative session: where the story stands, and the
//! surface it speaks through.

use vstd::prelude::*;
use vstd::string::*;
use crate::engine::choice::{Button, ChoiceSession, DisplayButton, button_views};
use crate::engine::input::LineInput;
use crate::engine::scenes::{Scenes, missing_scene_text, scene_error_message, scene_error_text};
use crate::engine::session::UserInfo;
use crate::engine::surface::{TextElement, WidgetContainer, WidgetView};

verus! {

/// Name of the namespace that the narrative operations are registered under.
pub const MODULE_NAME: &'static str = "Engine";

/// The state of a narrative session. It is handed, whole, to whichever
/// scene is being displayed: whoever holds it drives the story.
pub struct State {
    /// The name of the scene that the story stands in, if it stands in one.
    pub current_scene: Option<String>,
    /// The surface and the sources of the session.
    pub uinfo: UserInfo,
}

/// What going to a scene reports, given what the scene's display callback
/// answered: success, or the callback's failure under the scene's name.
pub open spec fn goto_verdict(
    scene_name: Seq<char>,
    answer: Result<(), String>,
    gone: Result<(), String>,
) -> bool {
    match answer {
        Ok(_) => gone == Ok::<(), String>(()),
        Err(error) => gone is Err && gone->Err_0@ == scene_error_text(scene_name, error@),
    }
}

impl State {
    /// The state of a session that has just started: in no scene yet.
    pub fn new(uinfo: UserInfo) -> (state: State)
        ensures
            state.current_scene is None,
            state.uinfo == uinfo,
    {
        State { current_scene: None, uinfo }
    }

    /// Goes to the scene `scene_name` of `scenes`, giving up the state to
    /// it: `enter` is called once, with the display callback of that scene
    /// and the state, and its failure comes back under the scene's name. If
    /// no scene has that name, nothing is called and the failure names the
    /// scene that is missing.
    pub fn goto<C, F>(self, scenes: &Scenes<C>, scene_name: String, enter: F) -> (gone: Result<
        (),
        String,
    >) where F: FnOnce(&C, State) -> Result<(), String>
        requires
            scenes@.contains_key(scene_name@) ==> call_requires(
                enter,
                (&scenes@[scene_name@].display_callback, self),
            ),
        ensures
            !scenes@.contains_key(scene_name@) ==> gone is Err && gone->Err_0@
                == missing_scene_text(scene_name@),
            scenes@.contains_key(scene_name@) ==> exists|answer: Result<(), String>|
                call_ensures(enter, (&scenes@[scene_name@].display_callback, self), answer)
                    && goto_verdict(scene_name@, answer, gone),
    {
        match scenes.resolve(scene_name.as_str()) {
            Err(missing) => Err(missing),
            Ok(scene) => {
                let answer = enter(&scene.display_callback, self);
                let ghost answered = answer;
                let gone = match answer {
                    Ok(()) => Ok(()),
                    Err(error) => Err(scene_error_message(scene_name.as_str(), error.as_str())),
                };
                assert(goto_verdict(scene_name@, answered, gone));
                gone
            },
        }
    }

    /// Puts a choice to the reader: one button per option, in the order of
    /// the options, behind the widgets already in `element`. Without
    /// options nothing is shown. The options come back under their guard,
    /// all of them live.
    pub fn ask_choice<P>(&self, element: &mut WidgetContainer, buttons: Vec<Button<P>>) -> (session:
        ChoiceSession<P>)
        ensures
            session.remaining() == buttons@,
            final(element)@ == old(element)@ + button_views(buttons@),
            buttons@.len() == 0 ==> final(element)@ == old(element)@,
    {
        let mut index: usize = 0;
        while index < buttons.len()
            invariant
                0 <= index <= buttons.len(),
                element@ == old(element)@ + button_views(buttons@).take(index as int),
            decreases buttons.len() - index,
        {
            let display_button = DisplayButton::new(buttons[index].text.as_str(), index);
            display_button.add_to(element);
            proof {
                let views = button_views(buttons@);
                assert(views.take(index + 1) =~= views.take(index as int).push(views[index as int]));
                assert(element@ =~= old(element)@ + views.take(index + 1));
            }
            index = index + 1;
        }
        proof {
            let views = button_views(buttons@);
            assert(views.take(buttons.len() as int) =~= views);
            if buttons@.len() == 0 {
                assert(old(element)@ + views =~= old(element)@);
            }
        }
        ChoiceSession::new(buttons)
    }

    /// Asks the reader for a line of text, first filled with
    /// `default_text`: the line is put on show behind the widgets already
    /// in `element`, and comes back with the callback that says whether a
    /// text is valid and the callback that takes a valid text.
    pub fn ask_input<G, F>(
        &self,
        element: &mut WidgetContainer,
        default_text: String,
        validator: G,
        callback: F,
    ) -> (input: LineInput<G, F>) where
        G: Fn(String) -> Result<bool, String>,
        F: Fn(String, &WidgetContainer) -> Result<(), String>,

        ensures
            input.default_text@ == default_text@,
            input.validator_callback == validator,
            input.enter_callback == callback,
            final(element)@ == old(element)@.push(
                WidgetView::LineInput { default_text: default_text@ },
            ),
    {
        let line_input_element = LineInput::new(default_text.as_str(), validator, callback);
        line_input_element.add_to(element);
        line_input_element
    }

    /// Shows `text` as the body.
    pub fn set_text(&mut self, text: &str)
        ensures
            final(self).uinfo.text_element@ == text@,
            old(self).body_changed_only(*final(self)),
    {
        self.uinfo.text_element.set_text(text);
    }

    /// Shows `text` behind what the body shows.
    pub fn append_text(&mut self, text: &str)
        ensures
            final(self).uinfo.text_element@ == old(self).uinfo.text_element@ + text@,
            old(self).body_changed_only(*final(self)),
    {
        self.uinfo.text_element.append_text(text);
    }

    /// Shows an empty body.
    pub fn clear_text(&mut self)
        ensures
            final(self).uinfo.text_element@ == Seq::<char>::empty(),
            old(self).body_changed_only(*final(self)),
    {
        self.uinfo.text_element.clear_text();
    }

    /// Shows `text` as the title.
    pub fn set_title(&mut self, text: &str)
        ensures
            final(self).uinfo.title_element@ == text@,
            old(self).title_changed_only(*final(self)),
    {
        self.uinfo.title_element.set_text(text);
    }

    /// Shows `text` behind what the title shows.
    pub fn append_title(&mut self, text: &str)
        ensures
            final(self).uinfo.title_element@ == old(self).uinfo.title_element@ + text@,
            old(self).title_changed_only(*final(self)),
    {
        self.uinfo.title_element.append_text(text);
    }

    /// Shows an empty title.
    pub fn clear_title(&mut self)
        ensures
            final(self).uinfo.title_element@ == Seq::<char>::empty(),
            old(self).title_changed_only(*final(self)),
    {
        self.uinfo.title_element.clear_text();
    }

    /// `after` is this state but for what its body shows.
    pub open spec fn body_changed_only(self, after: State) -> bool {
        &&& after.current_scene == self.current_scene
        &&& after.uinfo.title_element == self.uinfo.title_element
        &&& after.uinfo.sources == self.uinfo.sources
    }

    /// `after` is this state but for what its title shows.
    pub open spec fn title_changed_only(self, after: State) -> bool {
        &&& after.current_scene == self.current_scene
        &&& after.uinfo.text_element == self.uinfo.text_element
        &&& after.uinfo.sources == self.uinfo.sources
    }
}

} // verus!
