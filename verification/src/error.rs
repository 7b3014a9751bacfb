//! Errors: what went wrong, behind what was being done when it did.

use vstd::prelude::*;

use crate::text;

verus! {

/// An error: the messages from the outermost context down to the cause.
#[derive(Debug)]
pub struct Error {
    /// The messages.
    pub chain: Vec<String>,
}

impl View for Error {
    type V = Seq<Seq<char>>;

    open spec fn view(&self) -> Seq<Seq<char>> {
        text::texts(self.chain@)
    }
}

/// An error that is one message.
pub open spec fn message(head: Seq<char>) -> Seq<Seq<char>> {
    seq![head]
}

/// An error behind one more message.
pub open spec fn in_context(head: Seq<char>, err: Seq<Seq<char>>) -> Seq<Seq<char>> {
    seq![head] + err
}

/// The view of a result whose value has a view.
pub open spec fn result_view<T: View>(r: Result<T, Error>) -> Result<T::V, Seq<Seq<char>>> {
    match r {
        Ok(value) => Ok(value@),
        Err(err) => Err(err@),
    }
}

impl Error {
    /// An error that is one message.
    pub fn new(head: &str) -> (r: Error)
        ensures
            r@ == message(head@),
    {
        let r = Error { chain: vec![head.to_owned()] };
        assert(r@ =~= message(head@));
        r
    }

    /// Puts one more message before the others.
    pub fn context(self, head: &str) -> (r: Error)
        ensures
            r@ == in_context(head@, self@),
    {
        let ghost before = self@;
        let mut chain = self.chain;
        chain.insert(0, head.to_owned());
        let r = Error { chain };
        assert(r@ =~= in_context(head@, before));
        r
    }
}

/// A context stands before what it is the context of, and an error says nothing else than its message and
/// its contexts.
pub proof fn a_context_stands_first(context: Seq<char>, err: Seq<Seq<char>>, s: Seq<char>)
    ensures
        in_context(context, err).len() == err.len() + 1,
        in_context(context, err)[0] == context,
        in_context(context, err).skip(1) == err,
        message(s) == seq![s],
{
    assert(in_context(context, err).skip(1) =~= err);
}

} // verus!
