use vstd::prelude::*;

verus! {

/// A path produced by joining a base directory with a normalised relative path.
#[derive(Debug)]
pub struct SafePath(pub String);

impl View for SafePath {
    type V = Seq<char>;

    open spec fn view(&self) -> Seq<char> {
        self.0@
    }
}

impl Clone for SafePath {
    fn clone(&self) -> (res: Self)
        ensures
            res == *self,
    {
        SafePath(self.0.clone())
    }
}

impl SafePath {
    pub fn from(s: String) -> (res: Self)
        ensures
            res@ == s@,
    {
        SafePath(s)
    }

    pub fn as_str(&self) -> (res: &str)
        ensures
            res@ == self@,
    {
        self.0.as_str()
    }
}

} // verus!

verus! {

/// A file the caller is to write: `content` goes to `path`.
#[derive(Debug)]
pub struct FileWrite {
    pub path: SafePath,
    pub content: String,
}

} // verus!
