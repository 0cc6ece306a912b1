//! The message envelope: the unit of notifier output that crosses the
//! boundary between the worker and the host.

use vstd::prelude::*;

verus! {

/// An RGB color attached to one notifier event.
#[derive(Clone, Copy, PartialEq, Eq, Structural, Debug)]
pub struct Color(pub u8, pub u8, pub u8);

/// One unit of notifier output: an owned line of text and its display color.
///
/// An envelope is never shared: the worker owns it while producing it, the
/// delivery channel owns it next, and the host owns it after hand-off or
/// drain.
#[derive(Debug)]
pub struct Comment {
    pub text: String,
    pub color: Color,
}

impl View for Comment {
    type V = (Seq<char>, Color);

    open spec fn view(&self) -> (Seq<char>, Color) {
        (self.text@, self.color)
    }
}

/// The views of a sequence of envelopes, in order.
pub open spec fn views_of(s: Seq<Comment>) -> Seq<(Seq<char>, Color)> {
    s.map_values(|c: Comment| c@)
}

/// Releases an envelope previously handed to the host in push mode.
///
/// Ownership of the heap-allocated text buffer moves into this call and the
/// buffer is freed here; because the envelope is consumed by value, a second
/// release of the same envelope is impossible.
pub fn deallocate_message(message: Comment) {
    let _ = message;
}

} // verus!
