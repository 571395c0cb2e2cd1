//! The command protocol: a request carries a batch of commands, the rover
//! carries them out one after another, and the first that cannot be carried
//! out ends the batch.
//!
//! What the ground looks like is worked out by the caller. It hands each
//! step the surroundings of the rover's position at that moment, so a batch
//! is run as a loop around [`WebServer::step`].
use vstd::prelude::*;
use vstd::string::*;
use crate::commands::Command;
use crate::rover::MarsRover;
use crate::terrain::{Coordinate, Surroundings};

verus! {

/// How a batch ended.
#[derive(Debug, PartialEq, Eq)]
pub enum Reply {
    /// Every command was carried out, and the rover's state is the answer.
    State,
    /// The batch held a character that is no command.
    Unrecognized(char),
    /// The rover refused a move, with this message.
    Failed(String),
}

/// A [`Reply`] as contracts speak of it.
pub enum Outcome {
    State,
    Unrecognized(char),
    Failed(Seq<char>),
}

impl View for Reply {
    type V = Outcome;

    open spec fn view(&self) -> Outcome {
        match *self {
            Reply::State => Outcome::State,
            Reply::Unrecognized(c) => Outcome::Unrecognized(c),
            Reply::Failed(message) => Outcome::Failed(message@),
        }
    }
}

impl Outcome {
    /// The body of the answer, where `state` spells the state in which the
    /// batch left the rover. A refusal is answered with the rover's message
    /// as it stands and, on a line of its own, that state: where the rover
    /// stopped and which way it faced.
    pub open spec fn text(&self, state: Seq<char>) -> Seq<char> {
        match *self {
            Outcome::State => state,
            Outcome::Unrecognized(c) => "unrecognized command "@.push(c),
            Outcome::Failed(message) => "Error: "@ + message + "\n"@ + state,
        }
    }
}

/// A batch of commands that is being carried out.
#[derive(Debug)]
pub struct Session {
    commands: Vec<char>,
    cursor: usize,
}

/// What a step of a session leaves to do.
#[derive(Debug)]
pub enum Step {
    /// A command was carried out, and the session goes on.
    More(Session),
    /// The batch is over.
    Done(Reply),
}

/// The request handler. It owns the rover that the requests drive.
#[derive(Debug)]
pub struct WebServer {
    pub rover: MarsRover,
}

/// `String::push` of the standard library: the text grows by the one
/// character, at its end.
#[verifier::external_body]
fn push_char(text: &mut String, c: char)
    ensures
        final(text)@ == old(text)@.push(c),
{
    text.push(c);
}

fn same_text(a: &str, b: &str) -> (r: bool)
    ensures
        r == (a@ == b@),
{
    let a = a.to_owned();
    let b = b.to_owned();
    a == b
}

/// One step of a batch, seen from outside: the rover after it, and how the
/// batch ended if this step ended it. An empty batch ends with the rover's
/// state. A character that is no command ends it at once. A command is
/// carried out on `around`; a refusal ends the batch, with the rover's
/// message, and anything else leaves the rest of the batch to do.
pub open spec fn advance(rover: MarsRover, pending: Seq<char>, around: &Surroundings) -> (
    MarsRover,
    Option<Outcome>,
) {
    if pending.len() == 0 {
        (rover, Some(Outcome::State))
    } else {
        match Command::from_char(pending[0]) {
            None => (rover, Some(Outcome::Unrecognized(pending[0]))),
            Some(command) => match rover.report(command, around) {
                Err(message) => (rover, Some(Outcome::Failed(message))),
                Ok(position) => (rover.after(command, around), None),
            },
        }
    }
}

/// A whole batch, run on ground that `terrain` describes around every
/// position: step after step, each on the surroundings of the place where
/// the rover then stands, until a step ends the batch.
pub open spec fn run(
    rover: MarsRover,
    commands: Seq<char>,
    terrain: spec_fn(Coordinate) -> Surroundings,
) -> (MarsRover, Outcome)
    decreases commands.len(),
{
    if commands.len() == 0 {
        (rover, Outcome::State)
    } else {
        let (next, ended) = advance(rover, commands, &terrain(rover.position));
        match ended {
            Some(outcome) => (next, outcome),
            None => run(next, commands.drop_first(), terrain),
        }
    }
}

impl Reply {
    /// The body of the answer, where `state` spells the state in which the
    /// batch left the rover.
    pub fn text(&self, state: &str) -> (r: String)
        ensures
            r@ == self@.text(state@),
    {
        match self {
            Reply::State => state.to_owned(),
            Reply::Unrecognized(c) => {
                let mut r = "unrecognized command ".to_owned();
                push_char(&mut r, *c);
                r
            },
            Reply::Failed(message) => {
                let mut r = "Error: ".to_owned();
                r.append(message.as_str());
                r.append("\n");
                r.append(state);
                r
            },
        }
    }
}

impl Session {
    /// The commands that are still to be carried out, the next one first.
    pub closed spec fn pending(&self) -> Seq<char> {
        if self.cursor <= self.commands.len() {
            self.commands@.subrange(self.cursor as int, self.commands.len() as int)
        } else {
            Seq::empty()
        }
    }

    /// A session that has all of `body` to do.
    pub fn new(body: &str) -> (session: Session)
        ensures
            session.pending() == body@,
    {
        let mut commands: Vec<char> = Vec::new();
        for c in it: body.chars()
            invariant
                commands@ == it.seq().take(it.index() as int),
        {
            commands.push(c);
        }
        Session { commands, cursor: 0 }
    }
}

impl WebServer {
    /// A handler for the requests that drive `rover`.
    pub fn new(rover: MarsRover) -> (server: WebServer)
        ensures
            server.rover == rover,
    {
        WebServer { rover }
    }

    /// Whether a request is one that moves the rover: a `POST` to `/move`.
    /// Its body is then the batch to run; any other request is unknown here.
    pub fn accepts(method: &str, path: &str) -> (r: bool)
        ensures
            r == (method@ == "POST"@ && path@ == "/move"@),
    {
        same_text(method, "POST") && same_text(path, "/move")
    }

    /// Carries out the next command of `session` on the rover, over the
    /// ground that `around` describes about the rover's position.
    pub fn step(&mut self, session: Session, around: &Surroundings) -> (r: Step)
        ensures
            final(self).rover == advance(old(self).rover, session.pending(), around).0,
            match advance(old(self).rover, session.pending(), around).1 {
                Some(outcome) => r matches Step::Done(reply) && reply@ == outcome,
                None => r matches Step::More(rest) && rest.pending()
                    == session.pending().drop_first(),
            },
    {
        if session.cursor >= session.commands.len() {
            return Step::Done(Reply::State);
        }
        let c = session.commands[session.cursor];
        match Command::from_char(c) {
            None => Step::Done(Reply::Unrecognized(c)),
            Some(command) => match self.rover.execute(command, around) {
                Err(message) => Step::Done(Reply::Failed(message)),
                Ok(_) => {
                    let rest = Session { commands: session.commands, cursor: session.cursor + 1 };
                    assert(rest.pending() =~= session.pending().drop_first());
                    Step::More(rest)
                },
            },
        }
    }

    /// The body of the answer to a batch that ended with `reply`, the
    /// rover's coordinates as `x` and `y` spell them.
    pub fn render(&self, reply: &Reply, x: &str, y: &str) -> (r: String)
        ensures
            r@ == reply@.text(
                "position: "@ + x@ + " "@ + y@ + "\ndirection: "@ + self.rover.direction.letter(),
            ),
    {
        let state = self.rover.to_string(x, y);
        reply.text(state.as_str())
    }
}

/// A character that is no command ends the batch where it stands: the rover
/// is left as it was, and nothing behind the character is looked at.
pub proof fn unrecognized_character_ends_the_batch(
    rover: MarsRover,
    c: char,
    rest: Seq<char>,
    terrain: spec_fn(Coordinate) -> Surroundings,
)
    requires
        Command::from_char(c) is None,
    ensures
        run(rover, seq![c] + rest, terrain) == (rover, Outcome::Unrecognized(c)),
{
}

/// A batch that stopped early does the same whatever follows it: nothing
/// behind the stop is carried out.
pub proof fn nothing_runs_after_a_stop(
    rover: MarsRover,
    batch: Seq<char>,
    rest: Seq<char>,
    terrain: spec_fn(Coordinate) -> Surroundings,
)
    requires
        run(rover, batch, terrain).1 != Outcome::State,
    ensures
        run(rover, batch + rest, terrain) == run(rover, batch, terrain),
    decreases batch.len(),
{
    let (next, ended) = advance(rover, batch, &terrain(rover.position));
    if ended is None {
        // the first command was carried out: the stop lies further on
        assert((batch + rest).drop_first() =~= batch.drop_first() + rest);
        nothing_runs_after_a_stop(next, batch.drop_first(), rest, terrain);
    }
}

/// Commands are carried out from left to right: a batch that ran to its end
/// leaves the rover where the rest of a longer batch takes it up.
pub proof fn batches_run_in_order(
    rover: MarsRover,
    batch: Seq<char>,
    rest: Seq<char>,
    terrain: spec_fn(Coordinate) -> Surroundings,
)
    requires
        run(rover, batch, terrain).1 == Outcome::State,
    ensures
        run(rover, batch + rest, terrain) == run(run(rover, batch, terrain).0, rest, terrain),
    decreases batch.len(),
{
    if batch.len() == 0 {
        assert(batch + rest =~= rest);
    } else {
        let next = advance(rover, batch, &terrain(rover.position)).0;
        assert((batch + rest).drop_first() =~= batch.drop_first() + rest);
        batches_run_in_order(next, batch.drop_first(), rest, terrain);
    }
}

/// A batch of turns runs to its end whatever the ground is like, and leaves
/// the rover in its place.
pub proof fn turns_run_to_the_end(
    rover: MarsRover,
    batch: Seq<char>,
    terrain: spec_fn(Coordinate) -> Surroundings,
)
    requires
        forall|i: int| 0 <= i < batch.len() ==> batch[i] == 'l' || batch[i] == 'r',
    ensures
        run(rover, batch, terrain).1 == Outcome::State,
        run(rover, batch, terrain).0.position == rover.position,
    decreases batch.len(),
{
    if batch.len() > 0 {
        let next = advance(rover, batch, &terrain(rover.position)).0;
        assert(batch[0] == 'l' || batch[0] == 'r');
        assert forall|i: int| 0 <= i < batch.drop_first().len() implies batch.drop_first()[i]
            == 'l' || batch.drop_first()[i] == 'r' by {
            assert(batch.drop_first()[i] == batch[i + 1]);
        }
        turns_run_to_the_end(next, batch.drop_first(), terrain);
    }
}

} // verus!
