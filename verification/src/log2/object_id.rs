//! What a report is about.

use vstd::prelude::*;

use crate::http_common::Uri;

verus! {

/// The identity of an object: a name, a path of names, or a URI.
#[derive(Clone, Copy, Debug)]
pub struct ObjectId<T>(pub T);

impl<'a> ObjectId<&'a str> {
    /// The name.
    pub fn text(&self) -> (r: String)
        ensures
            r@ == self.0@,
    {
        self.0.to_owned()
    }
}

/// Two names, one below the other.
pub open spec fn path2(a: Seq<char>, b: Seq<char>) -> Seq<char> {
    a + "/"@ + b
}

/// Three names, one below the other.
pub open spec fn path3(a: Seq<char>, b: Seq<char>, c: Seq<char>) -> Seq<char> {
    a + "/"@ + b + "/"@ + c
}

impl<'a> ObjectId<(&'a str, &'a str)> {
    /// The names, with slashes between them.
    pub fn text(&self) -> (r: String)
        ensures
            r@ == path2(self.0.0@, self.0.1@),
    {
        let mut r = self.0.0.to_owned();
        r.append("/");
        r.append(self.0.1);
        r
    }
}

impl<'a> ObjectId<(&'a str, &'a str, &'a str)> {
    /// The names, with slashes between them.
    pub fn text(&self) -> (r: String)
        ensures
            r@ == path3(self.0.0@, self.0.1@, self.0.2@),
    {
        let mut r = self.0.0.to_owned();
        r.append("/");
        r.append(self.0.1);
        r.append("/");
        r.append(self.0.2);
        r
    }
}

impl<'a> ObjectId<&'a Uri> {
    /// The URI as it is written out.
    pub fn text(&self) -> (r: String)
        ensures
            r@ == self.0@,
    {
        self.0.as_str().to_owned()
    }
}

/// Names stand one below the other with one slash between two of them.
pub proof fn parts_are_separated_by_slashes(a: Seq<char>, b: Seq<char>, c: Seq<char>)
    ensures
        path2(a, b) == a + seq!['/'] + b,
        path3(a, b, c) == a + seq!['/'] + b + seq!['/'] + c,
        path3(a, b, c) == path2(path2(a, b), c),
{
    reveal_strlit("/");
    assert("/"@ =~= seq!['/']);
}

} // verus!
