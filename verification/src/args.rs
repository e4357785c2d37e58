//! What the command line asks for.

use vstd::prelude::*;
use crate::domain::Direction;
use crate::error::{result_view, CycleError};
use crate::model;

verus! {

/// The arguments of one run.
#[derive(Debug, Clone, Copy, PartialEq, Eq, Structural)]
pub struct Args {
    /// Direction to switch workspace (`next` or `prev[ious]`).
    pub direction: Direction,
}

impl View for Args {
    type V = Direction;

    open spec fn view(&self) -> Direction {
        self.direction
    }
}

impl DeepView for Args {
    type V = Direction;

    open spec fn deep_view(&self) -> Direction {
        self.direction
    }
}

impl Args {
    /// The arguments from the one positional argument of the command line,
    /// if it was given. Without it the direction is `Next`; with it, the
    /// direction it names, read as [`Direction::parse`] reads it. An
    /// argument that names none is refused with
    /// [`CycleError::InvalidDirection`].
    pub fn parse_args(argument: Option<String>) -> (r: Result<Args, CycleError>)
        ensures
            result_view(r) == model::direction_from_argument(argument.deep_view()),
    {
        match argument {
            None => Ok(Args { direction: Direction::Next }),
            Some(text) => match Direction::parse(text.as_str()) {
                Ok(direction) => Ok(Args { direction }),
                Err(e) => Err(e),
            },
        }
    }
}

} // verus!
