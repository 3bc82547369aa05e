use vstd::prelude::*;

verus! {

/// Identity of the viewer who issued a spawn command. A copy of it rides on
/// every entity the command produced, so the game can tell who dropped what.
#[derive(Debug)]
pub struct Chatter {
    pub username: String,
}

impl View for Chatter {
    type V = Seq<char>;

    open spec fn view(&self) -> Seq<char> {
        self.username@
    }
}

impl Chatter {
    pub fn new(username: String) -> (r: Chatter)
        ensures
            r@ == username@,
    {
        Chatter { username }
    }
}

impl Clone for Chatter {
    fn clone(&self) -> (r: Chatter)
        ensures
            r@ == self@,
    {
        Chatter { username: self.username.clone() }
    }
}

} // verus!
