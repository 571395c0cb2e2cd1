//! The four compass headings and the quarter turns between them.
use vstd::prelude::*;
use vstd::string::*;

verus! {

/// A compass heading.
#[derive(Clone, Copy, Debug, PartialEq, Eq, Structural)]
pub enum Directions {
    N,
    S,
    E,
    W,
}

impl Directions {
    /// Where the heading lies on the compass, counted in quarter turns
    /// clockwise from north.
    pub open spec fn quarter(&self) -> int {
        match *self {
            Directions::N => 0,
            Directions::E => 1,
            Directions::S => 2,
            Directions::W => 3,
        }
    }

    /// The heading that lies `turns` quarter turns clockwise from north; a
    /// negative count turns counter-clockwise.
    pub open spec fn at_quarter(turns: int) -> Directions {
        let quarter = turns % 4;
        if quarter == 0 {
            Directions::N
        } else if quarter == 1 {
            Directions::E
        } else if quarter == 2 {
            Directions::S
        } else {
            Directions::W
        }
    }

    /// The heading that points the other way: half a turn on.
    pub open spec fn spec_opposite(&self) -> Directions {
        Self::at_quarter(self.quarter() + 2)
    }

    /// The heading a quarter turn counter-clockwise from this one.
    pub open spec fn spec_left(&self) -> Directions {
        Self::at_quarter(self.quarter() - 1)
    }

    /// The heading a quarter turn clockwise from this one.
    pub open spec fn spec_right(&self) -> Directions {
        Self::at_quarter(self.quarter() + 1)
    }

    /// The letter that names this heading.
    pub open spec fn letter(&self) -> Seq<char> {
        match *self {
            Directions::N => seq!['N'],
            Directions::S => seq!['S'],
            Directions::E => seq!['E'],
            Directions::W => seq!['W'],
        }
    }

    /// The heading that `text` names, if it names one: the heading whose
    /// letter the text is.
    pub open spec fn named_by(text: Seq<char>) -> Option<Directions> {
        if text == Directions::N.letter() {
            Some(Directions::N)
        } else if text == Directions::S.letter() {
            Some(Directions::S)
        } else if text == Directions::E.letter() {
            Some(Directions::E)
        } else if text == Directions::W.letter() {
            Some(Directions::W)
        } else {
            None
        }
    }

    /// The message that rejects `text` as a heading.
    pub open spec fn rejection(text: Seq<char>) -> Seq<char> {
        "error: unrecognized direction "@ + text
    }

    #[verifier::when_used_as_spec(spec_opposite)]
    pub fn opposite(&self) -> (r: Directions)
        ensures
            r == self.spec_opposite(),
    {
        match *self {
            Directions::N => Directions::S,
            Directions::S => Directions::N,
            Directions::E => Directions::W,
            Directions::W => Directions::E,
        }
    }

    #[verifier::when_used_as_spec(spec_left)]
    pub fn left(&self) -> (r: Directions)
        ensures
            r == self.spec_left(),
    {
        match *self {
            Directions::N => Directions::W,
            Directions::S => Directions::E,
            Directions::E => Directions::N,
            Directions::W => Directions::S,
        }
    }

    #[verifier::when_used_as_spec(spec_right)]
    pub fn right(&self) -> (r: Directions)
        ensures
            r == self.spec_right(),
    {
        match *self {
            Directions::N => Directions::E,
            Directions::S => Directions::W,
            Directions::E => Directions::S,
            Directions::W => Directions::N,
        }
    }

    /// Reads a heading from its letter. Anything but one of the four capital
    /// letters is rejected, and the rejection quotes the input.
    pub fn from_str(d: &str) -> (r: Result<Directions, String>)
        ensures
            match Self::named_by(d@) {
                Some(heading) => r == Ok::<Directions, String>(heading),
                None => r matches Err(message) && message@ == Self::rejection(d@),
            },
    {
        if d.unicode_len() == 1 {
            let c = d.get_char(0);
            assert(d@ =~= seq![c]);
            if c == 'N' {
                return Ok(Directions::N);
            } else if c == 'S' {
                return Ok(Directions::S);
            } else if c == 'E' {
                return Ok(Directions::E);
            } else if c == 'W' {
                return Ok(Directions::W);
            }
        }
        Err("error: unrecognized direction ".to_owned().concat(d))
    }

    /// Writes the heading as its letter.
    pub fn to_string(&self) -> (r: String)
        ensures
            r@ == self.letter(),
    {
        proof {
            reveal_strlit("N");
            reveal_strlit("S");
            reveal_strlit("E");
            reveal_strlit("W");
        }
        let r = match *self {
            Directions::N => "N".to_owned(),
            Directions::S => "S".to_owned(),
            Directions::E => "E".to_owned(),
            Directions::W => "W".to_owned(),
        };
        r
    }
}

impl Default for Directions {
    /// A rover that has not been told otherwise faces north.
    fn default() -> (r: Directions)
        ensures
            r == Directions::N,
    {
        Directions::N
    }
}

/// Turning about twice restores the heading, and a quarter turn one way
/// undoes a quarter turn the other way.
pub proof fn turns_cancel(d: Directions)
    ensures
        d.opposite().opposite() == d,
        d.right().left() == d,
        d.left().right() == d,
{
}

/// Four quarter turns in the same sense bring the heading back.
pub proof fn four_quarter_turns_restore(d: Directions)
    ensures
        d.left().left().left().left() == d,
        d.right().right().right().right() == d,
{
}

/// Reading the letter of a heading gives that heading back.
pub proof fn letter_names_its_heading(d: Directions)
    ensures
        Directions::named_by(d.letter()) == Some(d),
{
    // texts with different first characters are different texts
    assert(Directions::N.letter()[0] == 'N');
    assert(Directions::S.letter()[0] == 'S');
    assert(Directions::E.letter()[0] == 'E');
    assert(Directions::W.letter()[0] == 'W');
}

/// A text that names a heading is the letter of that heading, so reading a
/// text and writing the result reproduces the text.
pub proof fn named_text_is_the_letter(text: Seq<char>)
    ensures
        Directions::named_by(text) matches Some(d) ==> d.letter() == text,
{
}

} // verus!
