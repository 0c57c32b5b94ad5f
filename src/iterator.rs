//! The decisions of an iterator over the keyspace.
//!
//! The engine's cursor is moved by the embedding program; a [`Cursor`]
//! decides each move. Before its first step it is not yet positioned: the
//! first step seeks to the `from` bound if one is set, else to the first
//! entry (forward) or to the last one (reverse), where "last" means the `to`
//! bound if one is set. Later steps move one entry in the iterator's
//! direction. Once a step lands on no entry the cursor is exhausted, and it
//! stays so: it asks for no further moves.
use crate::key::{key_to_vec, Key};
use vstd::prelude::*;

verus! {

/// The direction in which an iterator walks the keyspace.
#[derive(Clone, Copy, PartialEq, Eq, Debug, Structural)]
pub enum Direction {
    /// In the comparator's order.
    Forward,
    /// Against the comparator's order.
    Reverse,
}

/// How far an iterator has come.
#[derive(Clone, Copy, PartialEq, Eq, Debug, Structural)]
pub enum Phase {
    /// No step has been taken: the next step seeks.
    NotStarted,
    /// The last step landed on an entry.
    Positioned,
    /// A step landed on no entry; no step will be taken again.
    Exhausted,
}

/// A move of the engine's cursor, as the model sees it.
pub enum MoveSpec {
    SeekToFirst,
    SeekToLast,
    Seek(Seq<u8>),
    Next,
    Prev,
}

/// A move of the engine's cursor, for the embedding program to perform.
#[derive(Debug)]
pub enum CursorMove {
    /// Position at the first entry.
    SeekToFirst,
    /// Position at the last entry.
    SeekToLast,
    /// Position at the first entry at or after the key with these bytes.
    Seek(Vec<u8>),
    /// Move one entry forward.
    Next,
    /// Move one entry backward.
    Prev,
}

impl View for CursorMove {
    type V = MoveSpec;

    open spec fn view(&self) -> MoveSpec {
        match self {
            CursorMove::SeekToFirst => MoveSpec::SeekToFirst,
            CursorMove::SeekToLast => MoveSpec::SeekToLast,
            CursorMove::Seek(k) => MoveSpec::Seek(k@),
            CursorMove::Next => MoveSpec::Next,
            CursorMove::Prev => MoveSpec::Prev,
        }
    }
}

/// The model of a cursor: its phase, direction and bounds.
pub struct CursorSpec {
    pub phase: Phase,
    pub direction: Direction,
    pub from: Option<Seq<u8>>,
    pub to: Option<Seq<u8>>,
}

/// The bytes of a bound, if it is set.
pub open spec fn bound_view(b: Option<Vec<u8>>) -> Option<Seq<u8>> {
    match b {
        Some(v) => Some(v@),
        None => None,
    }
}

/// The move that reaches the last entry: the `to` bound where it is set.
pub open spec fn last_move_spec(c: CursorSpec) -> MoveSpec {
    match c.to {
        Some(k) => MoveSpec::Seek(k),
        None => MoveSpec::SeekToLast,
    }
}

/// The move that a first step makes.
pub open spec fn first_move_spec(c: CursorSpec) -> MoveSpec {
    match c.from {
        Some(k) => MoveSpec::Seek(k),
        None => match c.direction {
            Direction::Forward => MoveSpec::SeekToFirst,
            Direction::Reverse => last_move_spec(c),
        },
    }
}

/// One step: the cursor after it, and the move it asks for (none once
/// exhausted).
pub open spec fn step_spec(c: CursorSpec) -> (CursorSpec, Option<MoveSpec>) {
    match c.phase {
        Phase::Exhausted => (c, None),
        Phase::NotStarted => (CursorSpec { phase: Phase::Positioned, ..c }, Some(first_move_spec(c))),
        Phase::Positioned => (
            c,
            Some(
                match c.direction {
                    Direction::Forward => MoveSpec::Next,
                    Direction::Reverse => MoveSpec::Prev,
                },
            ),
        ),
    }
}

/// The cursor after a move landed on an entry (`valid`) or on none.
pub open spec fn land_spec(c: CursorSpec, valid: bool) -> CursorSpec {
    if valid {
        c
    } else {
        CursorSpec { phase: Phase::Exhausted, ..c }
    }
}

/// The cursor after `n` steps whose moves all landed on no entry.
pub open spec fn steps_spec(c: CursorSpec, n: nat) -> CursorSpec
    decreases n,
{
    if n == 0 {
        c
    } else {
        let (next, mv) = step_spec(c);
        let landed = if mv is Some {
            land_spec(next, false)
        } else {
            next
        };
        steps_spec(landed, (n - 1) as nat)
    }
}

/// The state of one iteration over the keyspace.
pub struct Cursor {
    phase: Phase,
    direction: Direction,
    from: Option<Vec<u8>>,
    to: Option<Vec<u8>>,
}

impl View for Cursor {
    type V = CursorSpec;

    closed spec fn view(&self) -> CursorSpec {
        CursorSpec {
            phase: self.phase,
            direction: self.direction,
            from: bound_view(self.from),
            to: bound_view(self.to),
        }
    }
}

impl Cursor {
    /// A forward cursor without bounds that has taken no step.
    pub fn new() -> (r: Cursor)
        ensures
            r@ == (CursorSpec {
                phase: Phase::NotStarted,
                direction: Direction::Forward,
                from: None,
                to: None,
            }),
    {
        Cursor { phase: Phase::NotStarted, direction: Direction::Forward, from: None, to: None }
    }

    /// The cursor with `key` as its `from` bound: the first step seeks to it.
    pub fn from<K: Key>(self, key: &K) -> (r: Cursor)
        ensures
            r@ == (CursorSpec { from: Some(key.key_bytes()), ..self@ }),
    {
        Cursor { from: Some(key_to_vec(key)), ..self }
    }

    /// The cursor with `key` as its `to` bound: the last entry is sought there.
    pub fn to<K: Key>(self, key: &K) -> (r: Cursor)
        ensures
            r@ == (CursorSpec { to: Some(key.key_bytes()), ..self@ }),
    {
        Cursor { to: Some(key_to_vec(key)), ..self }
    }

    /// The bytes of the `from` bound, if it is set.
    pub fn from_key(&self) -> (r: Option<&Vec<u8>>)
        ensures
            match r {
                Some(v) => self@.from == Some(v@),
                None => self@.from is None,
            },
    {
        self.from.as_ref()
    }

    /// The bytes of the `to` bound, if it is set.
    pub fn to_key(&self) -> (r: Option<&Vec<u8>>)
        ensures
            match r {
                Some(v) => self@.to == Some(v@),
                None => self@.to is None,
            },
    {
        self.to.as_ref()
    }

    /// The cursor's phase.
    pub fn phase(&self) -> (r: Phase)
        ensures
            r == self@.phase,
    {
        self.phase
    }

    /// The cursor's direction.
    pub fn direction(&self) -> (r: Direction)
        ensures
            r == self@.direction,
    {
        self.direction
    }

    /// The same iteration walked the other way: position, phase and bounds
    /// are kept.
    pub fn reverse(self) -> (r: Cursor)
        ensures
            r@ == (CursorSpec {
                direction: match self@.direction {
                    Direction::Forward => Direction::Reverse,
                    Direction::Reverse => Direction::Forward,
                },
                ..self@
            }),
    {
        let direction = match self.direction {
            Direction::Forward => Direction::Reverse,
            Direction::Reverse => Direction::Forward,
        };
        Cursor { direction, ..self }
    }

    /// The move that positions the engine's cursor at the last entry: a
    /// seek to the `to` bound where it is set.
    pub fn last_move(&self) -> (r: CursorMove)
        ensures
            r@ == last_move_spec(self@),
    {
        match &self.to {
            Some(k) => CursorMove::Seek(k.clone()),
            None => CursorMove::SeekToLast,
        }
    }

    /// Takes one step: returns the move for the engine's cursor, or `None`
    /// once the cursor is exhausted.
    pub fn advance(&mut self) -> (r: Option<CursorMove>)
        ensures
            (final(self)@, match r {
                Some(m) => Some(m@),
                None => None,
            }) == step_spec(old(self)@),
    {
        match self.phase {
            Phase::Exhausted => None,
            Phase::NotStarted => {
                let mv = match &self.from {
                    Some(k) => CursorMove::Seek(k.clone()),
                    None => match self.direction {
                        Direction::Forward => CursorMove::SeekToFirst,
                        Direction::Reverse => self.last_move(),
                    },
                };
                self.phase = Phase::Positioned;
                Some(mv)
            },
            Phase::Positioned => match self.direction {
                Direction::Forward => Some(CursorMove::Next),
                Direction::Reverse => Some(CursorMove::Prev),
            },
        }
    }

    /// Records where the last move landed: on an entry (`valid`) or on
    /// none, which exhausts the cursor. Returns `valid`.
    pub fn land(&mut self, valid: bool) -> (r: bool)
        ensures
            r == valid,
            final(self)@ == land_spec(old(self)@, valid),
    {
        if !valid {
            self.phase = Phase::Exhausted;
        }
        valid
    }
}

/// An exhausted cursor stays exhausted: however many steps follow, none
/// asks for a move and the cursor does not change.
pub proof fn lemma_exhaustion_stable(c: CursorSpec, n: nat)
    requires
        c.phase == Phase::Exhausted,
    ensures
        steps_spec(c, n) == c,
        step_spec(steps_spec(c, n)).1 is None,
    decreases n,
{
    if n > 0 {
        lemma_exhaustion_stable(c, (n - 1) as nat);
    }
}

/// A step whose move lands on no entry exhausts the cursor.
pub proof fn lemma_miss_exhausts(c: CursorSpec)
    requires
        step_spec(c).1 is Some,
    ensures
        land_spec(step_spec(c).0, false).phase == Phase::Exhausted,
{
}

} // verus!
