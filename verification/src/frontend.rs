//! The state of the browser chat page: the messages sent so far and the text being typed.
use vstd::prelude::*;
use crate::text::{is_space, is_space_spec};

verus! {

/// What the page reacts to.
#[derive(Debug)]
pub enum Msg {
    SendMessage,
}

/// The messages sent so far, and the text in the input field.
#[derive(Debug)]
pub struct App {
    pub messages: Vec<String>,
    pub input_text: String,
}

/// `s` holds nothing but whitespace, so that `str::trim` leaves it empty.
pub open spec fn is_blank(s: Seq<char>) -> bool {
    forall|i: int| 0 <= i < s.len() ==> is_space_spec(#[trigger] s[i])
}

/// Whether `s` holds nothing but whitespace.
pub fn blank(s: &str) -> (r: bool)
    ensures
        r == is_blank(s@),
{
    let n = s.unicode_len();
    let mut i: usize = 0;
    while i < n
        invariant
            n == s@.len(),
            i <= n,
            forall|j: int| 0 <= j < i ==> is_space_spec(#[trigger] s@[j]),
        decreases n - i,
    {
        if !is_space(s.get_char(i)) {
            return false;
        }
        i = i + 1;
    }
    true
}

impl App {
    /// The page as it opens: no messages, nothing typed.
    pub fn create() -> (r: App)
        ensures
            r.messages@.len() == 0,
            r.input_text@ == Seq::<char>::empty(),
    {
        App { messages: Vec::new(), input_text: String::new() }
    }

    /// Sending: typed text that is not blank joins the messages and the input field is
    /// emptied; blank text is left as it is. The page is redrawn either way.
    pub fn update(&mut self, msg: Msg) -> (redraw: bool)
        ensures
            redraw,
            !is_blank(old(self).input_text@) ==> final(self).messages@ == old(self).messages@.push(old(self).input_text)
                && final(self).input_text@ == Seq::<char>::empty(),
            is_blank(old(self).input_text@) ==> final(self).messages@ == old(self).messages@
                && final(self).input_text == old(self).input_text,
    {
        match msg {
            Msg::SendMessage => {
                if !blank(self.input_text.as_str()) {
                    let text = self.input_text.clone();
                    self.messages.push(text);
                    self.input_text = String::new();
                }
                true
            },
        }
    }
}

} // verus!
