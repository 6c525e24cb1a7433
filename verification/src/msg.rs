//! The messages that an instance takes and the answers that it gives.

use vstd::prelude::*;
use crate::board::Layout;
use crate::texts::texts_of;

verus! {

/// Who sent a message.
#[derive(Clone, Debug, PartialEq)]
pub struct MessageInfo {
    pub sender: String,
}

/// What an instance starts from: the student's record with its admin, and the
/// board's host with its tiles.  Without a layout the board is open ground.
#[derive(Clone, Debug, PartialEq)]
pub struct InstantiateMsg {
    pub admin: String,
    pub studentname: String,
    pub studentid: i32,
    pub universitites: Vec<String>,
    pub degrees: Vec<String>,
    pub host: String,
    pub layout: Option<Layout>,
}

/// A command.  A direction is given by its code: `0` north, `1` east, `2`
/// south, `3` west.
#[derive(Clone, Debug, PartialEq)]
pub enum ExecuteMsg {
    Move { direction: i32 },
    Attack { direction: i32 },
    AddUniversity { studentid: i32, university: String },
    RemoveUniversity { studentid: i32, university: String },
    AddDegree { studentid: i32, degree: String },
    RemoveDegree { studentid: i32, degree: String },
}

/// A question.
#[derive(Clone, Debug, PartialEq)]
pub enum QueryMsg {
    GetPosition { id: u32 },
    GetHealth { id: u32 },
    GetStudentAcc { studentid: i32 },
}

/// Where the character stands.
#[derive(Clone, Copy, Debug, PartialEq, Eq, Structural)]
pub struct GetPositionResponse {
    pub x: i8,
    pub y: i8,
}

/// How much health the character has left.
#[derive(Clone, Copy, Debug, PartialEq, Eq, Structural)]
pub struct GetHealthResponse {
    pub health: u32,
}

/// The student's record, without its admin.
#[derive(Clone, Debug, PartialEq)]
pub struct GetStudentAccResponse {
    pub studentname: String,
    pub studentid: i32,
    pub universitites: Vec<String>,
    pub degrees: Vec<String>,
}

/// What an answer about the student's record says.
pub struct GetStudentAccResponseView {
    pub studentname: Seq<char>,
    pub studentid: i32,
    pub universitites: Seq<Seq<char>>,
    pub degrees: Seq<Seq<char>>,
}

impl View for GetStudentAccResponse {
    type V = GetStudentAccResponseView;

    open spec fn view(&self) -> GetStudentAccResponseView {
        GetStudentAccResponseView {
            studentname: self.studentname@,
            studentid: self.studentid,
            universitites: texts_of(self.universitites@),
            degrees: texts_of(self.degrees@),
        }
    }
}

/// The answer to a question.
#[derive(Clone, Debug, PartialEq)]
pub enum QueryResponse {
    Position(GetPositionResponse),
    Health(GetHealthResponse),
    StudentAcc(GetStudentAccResponse),
}

/// What the answer to a question says.
pub enum QueryResponseView {
    Position(GetPositionResponse),
    Health(GetHealthResponse),
    StudentAcc(GetStudentAccResponseView),
}

impl View for QueryResponse {
    type V = QueryResponseView;

    open spec fn view(&self) -> QueryResponseView {
        match self {
            QueryResponse::Position(p) => QueryResponseView::Position(*p),
            QueryResponse::Health(h) => QueryResponseView::Health(*h),
            QueryResponse::StudentAcc(s) => QueryResponseView::StudentAcc(s@),
        }
    }
}

/// The answer to an operation that went through: which operation it was, and
/// the values that it left behind.
#[derive(Clone, Copy, Debug, PartialEq, Eq, Structural)]
pub enum Response {
    Instantiate,
    /// The square that the character now stands on, and its health.
    Move { x: i8, y: i8, health: u32 },
    /// The health that the character has left.
    Attack { health: u32 },
    AddUniversity,
    RemoveUniversity,
    AddDegree,
    RemoveDegree,
}

impl Response {
    /// The tag that names the operation in an answer.
    pub open spec fn tag(self) -> Seq<char> {
        match self {
            Response::Instantiate => "instantiate"@,
            Response::Move { .. } => "move"@,
            Response::Attack { .. } => "attack"@,
            Response::AddUniversity => "add_uni"@,
            Response::RemoveUniversity => "remove_university"@,
            Response::AddDegree => "add_degree"@,
            Response::RemoveDegree => "remove_degree"@,
        }
    }

    /// The tag that names the operation in an answer.
    pub fn method(&self) -> (r: &'static str)
        ensures
            r@ == self.tag(),
    {
        match self {
            Response::Instantiate => "instantiate",
            Response::Move { .. } => "move",
            Response::Attack { .. } => "attack",
            Response::AddUniversity => "add_uni",
            Response::RemoveUniversity => "remove_university",
            Response::AddDegree => "add_degree",
            Response::RemoveDegree => "remove_degree",
        }
    }
}

} // verus!
