//! Message content: parts and turns.
use vstd::prelude::*;

verus! {

/// A unit of message content: plain text.
#[derive(Debug)]
pub struct Part {
    pub text: String,
}

impl View for Part {
    type V = Seq<char>;

    open spec fn view(&self) -> Seq<char> {
        self.text@
    }
}

/// The abstract value of one turn: the text of each part, and the role tag.
pub struct Turn {
    pub parts: Seq<Seq<char>>,
    pub role: Seq<char>,
}

/// One turn of a conversation: an ordered list of parts and a role tag
/// (`"user"`, `"model"` or `"system"`).
#[derive(Debug)]
pub struct Content {
    pub parts: Vec<Part>,
    pub role: String,
}

impl View for Content {
    type V = Turn;

    open spec fn view(&self) -> Turn {
        Turn { parts: self.parts@.map_values(|p: Part| p@), role: self.role@ }
    }
}

/// The turn made of a single text part under the given role.
pub open spec fn text_turn(text: Seq<char>, role: Seq<char>) -> Turn {
    Turn { parts: seq![text], role }
}

impl Part {
    pub fn clone_part(&self) -> (r: Part)
        ensures
            r@ == self@,
    {
        Part { text: self.text.clone() }
    }
}

impl Clone for Part {
    fn clone(&self) -> (r: Part)
        ensures
            r@ == self@,
    {
        self.clone_part()
    }
}

impl Content {
    /// A turn holding one text part under `role`.
    pub fn new(text: String, role: &str) -> (r: Content)
        ensures
            r@ == text_turn(text@, role@),
    {
        let parts = vec![Part { text }];
        let r = Content { parts, role: role.to_string() };
        assert(r@.parts =~= seq![text@]);
        r
    }
}

impl Content {
    pub fn clone_content(&self) -> (r: Content)
        ensures
            r@ == self@,
    {
        let parts = self.parts.clone();
        assert(parts@.map_values(|p: Part| p@) =~= self.parts@.map_values(|p: Part| p@));
        Content { parts, role: self.role.clone() }
    }
}

impl Clone for Content {
    fn clone(&self) -> (r: Content)
        ensures
            r@ == self@,
    {
        self.clone_content()
    }
}

/// The abstract value of a list of turns.
pub open spec fn turns(v: Seq<Content>) -> Seq<Turn> {
    v.map_values(|c: Content| c@)
}

/// The abstract value of an optional turn.
pub open spec fn opt_turn(c: Option<Content>) -> Option<Turn> {
    match c {
        Some(t) => Some(t@),
        None => None,
    }
}

/// A copy of an optional turn.
pub fn clone_opt_turn(c: &Option<Content>) -> (r: Option<Content>)
    ensures
        opt_turn(r) == opt_turn(*c),
{
    match c {
        Some(t) => Some(t.clone_content()),
        None => None,
    }
}

/// A copy of a list of turns.
pub fn clone_turns(v: &Vec<Content>) -> (r: Vec<Content>)
    ensures
        turns(r@) == turns(v@),
{
    let r = v.clone();
    assert(turns(r@) =~= turns(v@));
    r
}

} // verus!
