//! The output that scripts print: collected in a buffer and drained by the
//! host once the script has returned.

use vstd::prelude::*;
use vstd::string::*;

verus! {

/// What scripts have printed and the host has not yet drained.
pub struct Output {
    text: String,
}

impl View for Output {
    type V = Seq<char>;

    /// Everything printed since the buffer was last drained.
    closed spec fn view(&self) -> Seq<char> {
        self.text@
    }
}

/// One printed line: the message followed by a line feed.
pub open spec fn line(message: Seq<char>) -> Seq<char> {
    message.push('\n')
}

/// Several lines, one after the other.
pub open spec fn lines(messages: Seq<Seq<char>>) -> Seq<char>
    decreases messages.len(),
{
    if messages.len() == 0 {
        Seq::<char>::empty()
    } else {
        lines(messages.drop_last()) + line(messages.last())
    }
}

impl Output {
    /// A buffer with nothing printed yet.
    pub fn new() -> (out: Output)
        ensures
            out@ == Seq::<char>::empty(),
    {
        Output { text: String::new() }
    }

    /// Whether nothing is waiting to be drained.
    pub fn is_empty(&self) -> (empty: bool)
        ensures
            empty == (self@.len() == 0),
    {
        self.text.as_str().is_empty()
    }
}

/// Appends `message` to the buffer as it is.
pub fn rune_print(out: &mut Output, message: &str)
    ensures
        final(out)@ == old(out)@ + message@,
{
    out.text.append(message);
}

/// Appends `message` and a line feed to the buffer.
pub fn rune_println(out: &mut Output, message: &str)
    ensures
        final(out)@ == old(out)@ + line(message@),
{
    out.text.append(message);
    out.text.append("\n");
    proof {
        reveal_strlit("\n");
        assert("\n"@ =~= seq!['\n']);
        assert(out@ =~= old(out)@ + line(message@));
    }
}

/// Appends the rendering of each value, one per line and in the order given.
pub fn rune_dbg(out: &mut Output, rendered: &Vec<String>)
    ensures
        final(out)@ == old(out)@ + lines(rendered.deep_view()),
{
    let mut i: usize = 0;
    while i < rendered.len()
        invariant
            0 <= i <= rendered.len(),
            out@ == old(out)@ + lines(rendered.deep_view().take(i as int)),
        decreases rendered.len() - i,
    {
        rune_println(out, rendered[i].as_str());
        proof {
            let all = rendered.deep_view();
            assert(all.take(i + 1).drop_last() =~= all.take(i as int));
            assert(all.take(i + 1).last() == rendered[i as int]@);
            assert(out@ =~= old(out)@ + lines(all.take(i + 1)));
        }
        i = i + 1;
    }
    proof {
        assert(rendered.deep_view().take(rendered.len() as int) =~= rendered.deep_view());
    }
}

/// Drains the buffer: hands out everything printed so far as one text and
/// leaves the buffer empty. A buffer can only hold text, so there always is
/// a text to hand out, if only an empty one.
pub fn drain_output(out: &mut Output) -> (text: Option<String>)
    ensures
        final(out)@ == Seq::<char>::empty(),
        text is Some,
        text->0@ == old(out)@,
{
    let mut taken = String::new();
    std::mem::swap(&mut out.text, &mut taken);
    Some(taken)
}

/// Drains the buffer for the host's log: everything printed so far, if
/// anything was printed. The buffer is left empty in any case.
pub fn drain_log(out: &mut Output) -> (text: Option<String>)
    ensures
        final(out)@ == Seq::<char>::empty(),
        text is Some <==> old(out)@.len() > 0,
        text is Some ==> text->0@ == old(out)@,
{
    let printed = !out.is_empty();
    let text = drain_output(out);
    if printed {
        text
    } else {
        None
    }
}

} // verus!
