use vstd::prelude::*;

verus! {

/// A notification submitted by the application: an optional title and a
/// body.  Upon submission the bridge assigns it a token and tracks its
/// display state until the shell reports a final disposition.
#[derive(Clone, PartialEq, Eq, Debug)]
pub struct Notification {
    /// Optional title line.
    pub title: Option<String>,
    /// Body text.
    pub body: String,
}

impl Notification {
    /// A notification with the given body and no title.
    pub fn new(body: String) -> (n: Notification)
        ensures
            n == (Notification { title: None, body }),
    {
        Notification { title: None, body }
    }

    /// The same notification with a title.
    pub fn with_title(self, title: String) -> (n: Notification)
        ensures
            n == (Notification { title: Some(title), body: self.body }),
    {
        Notification { title: Some(title), body: self.body }
    }
}

} // verus!
