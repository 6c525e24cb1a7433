//! The records that an instance keeps between operations.

use vstd::prelude::*;
use crate::board::{grid_wf, Board, BoardView};
use crate::character::Character;
use crate::texts::texts_of;

verus! {

/// The accreditation record of one student.  Its admin alone may edit the
/// lists.
#[derive(Clone, Debug, PartialEq)]
pub struct StudentAccreditation {
    pub admin: String,
    pub studentname: String,
    pub studentid: i32,
    pub universitites: Vec<String>,
    pub degrees: Vec<String>,
}

/// What an accreditation record says.
pub struct StudentAccreditationView {
    pub admin: Seq<char>,
    pub studentname: Seq<char>,
    pub studentid: i32,
    pub universitites: Seq<Seq<char>>,
    pub degrees: Seq<Seq<char>>,
}

impl View for StudentAccreditation {
    type V = StudentAccreditationView;

    open spec fn view(&self) -> StudentAccreditationView {
        StudentAccreditationView {
            admin: self.admin@,
            studentname: self.studentname@,
            studentid: self.studentid,
            universitites: texts_of(self.universitites@),
            degrees: texts_of(self.degrees@),
        }
    }
}

/// The three records of an instance.
#[derive(Clone, Debug, PartialEq)]
pub struct State {
    pub board: Board,
    pub character: Character,
    pub studentacc: StudentAccreditation,
}

/// What the records of an instance say.
pub struct StateView {
    pub board: BoardView,
    pub character: Character,
    pub studentacc: StudentAccreditationView,
}

impl View for State {
    type V = StateView;

    open spec fn view(&self) -> StateView {
        StateView {
            board: self.board@,
            character: self.character,
            studentacc: self.studentacc@,
        }
    }
}

impl StateView {
    /// The records are well formed when the board is a grid and the character
    /// is well formed: it stands on the grid, with two abilities that differ.
    pub open spec fn wf(self) -> bool {
        grid_wf(self.board.tiles) && self.character.wf()
    }
}

} // verus!
