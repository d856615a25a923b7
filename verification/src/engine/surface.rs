//! The surface a story is shown on: two regions of plain text, and one
//! container for the widgets through which the reader answers.

use vstd::prelude::*;
use vstd::string::*;

verus! {

/// A region of plain text, such as the title or the body of the page.
pub struct TextElement {
    text: String,
}

impl View for TextElement {
    type V = Seq<char>;

    /// The text that the region shows.
    closed spec fn view(&self) -> Seq<char> {
        self.text@
    }
}

impl TextElement {
    /// A region that shows `text`.
    pub fn new(text: String) -> (element: TextElement)
        ensures
            element@ == text@,
    {
        TextElement { text }
    }

    /// The text that the region shows.
    pub fn text(&self) -> (text: &str)
        ensures
            text@ == self@,
    {
        self.text.as_str()
    }

    /// Shows `text` in place of what the region showed.
    pub fn set_text(&mut self, text: &str)
        ensures
            final(self)@ == text@,
    {
        self.text = String::from_str(text);
    }

    /// Shows nothing.
    pub fn clear_text(&mut self)
        ensures
            final(self)@ == Seq::<char>::empty(),
    {
        self.text = String::new();
    }

    /// Shows `text` behind what the region showed.
    pub fn append_text(&mut self, text: &str)
        ensures
            final(self)@ == old(self)@ + text@,
    {
        self.text.append(text);
    }
}

/// Appending one text and then another shows what appending the two texts
/// joined would show, whatever the region showed before; from an empty
/// region, that is the joined text itself.
pub proof fn lemma_append_text_joins(start: Seq<char>, a: Seq<char>, b: Seq<char>)
    ensures
        (start + a) + b == start + (a + b),
        (Seq::<char>::empty() + a) + b == a + b,
{
    assert((start + a) + b =~= start + (a + b));
    assert((Seq::<char>::empty() + a) + b =~= a + b);
}

/// What a widget looks like to the reader.
pub enum WidgetView {
    /// A button showing `text`; it is option number `index` of its choice.
    Button { text: Seq<char>, index: nat },
    /// A line of input, first filled with `default_text`.
    LineInput { default_text: Seq<char> },
}

/// A widget in the container.
#[derive(Debug, PartialEq)]
pub enum Widget {
    /// A button showing `text`; it is option number `index` of its choice.
    Button { text: String, index: usize },
    /// A line of input, first filled with `default_text`.
    LineInput { default_text: String },
}

impl View for Widget {
    type V = WidgetView;

    open spec fn view(&self) -> WidgetView {
        match self {
            Widget::Button { text, index } => WidgetView::Button {
                text: text@,
                index: *index as nat,
            },
            Widget::LineInput { default_text } => WidgetView::LineInput {
                default_text: default_text@,
            },
        }
    }
}

/// The container of the widgets that are on show, in the order in which
/// they were added.
pub struct WidgetContainer {
    widgets: Vec<Widget>,
}

impl View for WidgetContainer {
    type V = Seq<WidgetView>;

    /// The widgets on show, first added first.
    closed spec fn view(&self) -> Seq<WidgetView> {
        Seq::new(self.widgets@.len(), |i: int| self.widgets@[i]@)
    }
}

impl WidgetContainer {
    /// A container with no widget on show.
    pub fn new() -> (container: WidgetContainer)
        ensures
            container@ == Seq::<WidgetView>::empty(),
    {
        let container = WidgetContainer { widgets: Vec::new() };
        assert(container@ =~= Seq::<WidgetView>::empty());
        container
    }

    /// How many widgets are on show.
    pub fn len(&self) -> (n: usize)
        ensures
            n == self@.len(),
    {
        self.widgets.len()
    }

    /// Whether no widget is on show.
    pub fn is_empty(&self) -> (empty: bool)
        ensures
            empty == (self@.len() == 0),
    {
        self.widgets.len() == 0
    }

    /// The widget at position `i`, if there is one.
    pub fn get(&self, i: usize) -> (widget: Option<&Widget>)
        ensures
            widget is Some <==> i < self@.len(),
            widget is Some ==> widget->0@ == self@[i as int],
    {
        if i < self.widgets.len() {
            Some(&self.widgets[i])
        } else {
            None
        }
    }

    /// Puts `widget` on show behind those already there.
    pub fn add(&mut self, widget: Widget)
        ensures
            final(self)@ == old(self)@.push(widget@),
    {
        self.widgets.push(widget);
        assert(self@ =~= old(self)@.push(widget@));
    }

    /// Takes every widget off show.
    pub fn clear(&mut self)
        ensures
            final(self)@ == Seq::<WidgetView>::empty(),
    {
        self.widgets.clear();
        assert(self@ =~= Seq::<WidgetView>::empty());
    }
}

} // verus!
