//! The three entry points of an instance: start it, change it, ask it.
//!
//! A command either goes through, and the records are those that its rule
//! gives, or fails with a typed error, and the records are as they were.  A
//! question never changes the records.

use vstd::prelude::*;
use crate::board::{open_ground, open_ground_is_a_grid, Board, BoardView, Layout};
use crate::character::Character;
use crate::combat::{apply_attack, attack_outcome};
use crate::error::ContractError;
use crate::movement::{apply_move, move_outcome};
use crate::msg::{
    ExecuteMsg, GetStudentAccResponse, GetStudentAccResponseView, InstantiateMsg, MessageInfo,
    QueryMsg, QueryResponse, QueryResponseView, Response,
};
use crate::queries::{get_health, get_position, health_of, position_of};
use crate::state::{State, StateView, StudentAccreditation, StudentAccreditationView};
use crate::texts::{append_text, copy_texts, remove_text, texts_of};

verus! {

/// The records that an instance starts from: the board of the message, or
/// open ground where the message has no layout; the initial character; and
/// the student's record as the message gives it.
pub open spec fn initial_state(msg: InstantiateMsg) -> StateView {
    StateView {
        board: BoardView {
            host: msg.host@,
            tiles: match msg.layout {
                Some(layout) => layout@,
                None => open_ground(),
            },
        },
        character: Character::initial(),
        studentacc: StudentAccreditationView {
            admin: msg.admin@,
            studentname: msg.studentname@,
            studentid: msg.studentid,
            universitites: texts_of(msg.universitites@),
            degrees: texts_of(msg.degrees@),
        },
    }
}

/// The record after its admin has added a university at the end of the list.
/// Anyone else is turned down.
pub open spec fn with_university(
    record: StudentAccreditationView,
    sender: Seq<char>,
    university: Seq<char>,
) -> Result<StudentAccreditationView, ContractError> {
    if sender != record.admin {
        Err(ContractError::Unauthorized)
    } else {
        Ok(
            StudentAccreditationView {
                universitites: record.universitites.push(university),
                ..record
            },
        )
    }
}

/// The record after its admin has taken out the first university of the given
/// name.  Anyone else is turned down, and so is a name that is not on the
/// list.
pub open spec fn without_university(
    record: StudentAccreditationView,
    sender: Seq<char>,
    university: Seq<char>,
) -> Result<StudentAccreditationView, ContractError> {
    if sender != record.admin {
        Err(ContractError::Unauthorized)
    } else if !record.universitites.contains(university) {
        Err(ContractError::NotFound)
    } else {
        Ok(
            StudentAccreditationView {
                universitites: record.universitites.remove_value(university),
                ..record
            },
        )
    }
}

/// The record after its admin has added a degree at the end of the list.
/// Anyone else is turned down.
pub open spec fn with_degree(
    record: StudentAccreditationView,
    sender: Seq<char>,
    degree: Seq<char>,
) -> Result<StudentAccreditationView, ContractError> {
    if sender != record.admin {
        Err(ContractError::Unauthorized)
    } else {
        Ok(StudentAccreditationView { degrees: record.degrees.push(degree), ..record })
    }
}

/// The record after its admin has taken out the first degree of the given
/// name.  Anyone else is turned down, and so is a name that is not on the
/// list.
pub open spec fn without_degree(
    record: StudentAccreditationView,
    sender: Seq<char>,
    degree: Seq<char>,
) -> Result<StudentAccreditationView, ContractError> {
    if sender != record.admin {
        Err(ContractError::Unauthorized)
    } else if !record.degrees.contains(degree) {
        Err(ContractError::NotFound)
    } else {
        Ok(StudentAccreditationView { degrees: record.degrees.remove_value(degree), ..record })
    }
}

/// What a command does to the records, and the answer that it gives.  A move
/// and an attack change the character alone, an edit the student's record
/// alone; the board never changes.
pub open spec fn execute_outcome(state: StateView, sender: Seq<char>, msg: ExecuteMsg) -> Result<
    (StateView, Response),
    ContractError,
> {
    match msg {
        ExecuteMsg::Move { direction } => match move_outcome(
            state.board,
            state.character,
            direction,
        ) {
            Ok(after) => Ok(
                (
                    StateView { character: after, ..state },
                    Response::Move {
                        x: after.position.x,
                        y: after.position.y,
                        health: after.health,
                    },
                ),
            ),
            Err(e) => Err(e),
        },
        ExecuteMsg::Attack { direction } => match attack_outcome(
            sender,
            state.board,
            state.character,
            direction,
        ) {
            Ok(after) => Ok(
                (StateView { character: after, ..state }, Response::Attack { health: after.health }),
            ),
            Err(e) => Err(e),
        },
        ExecuteMsg::AddUniversity { studentid, university } => match with_university(
            state.studentacc,
            sender,
            university@,
        ) {
            Ok(record) => Ok((StateView { studentacc: record, ..state }, Response::AddUniversity)),
            Err(e) => Err(e),
        },
        ExecuteMsg::RemoveUniversity { studentid, university } => match without_university(
            state.studentacc,
            sender,
            university@,
        ) {
            Ok(record) => Ok(
                (StateView { studentacc: record, ..state }, Response::RemoveUniversity),
            ),
            Err(e) => Err(e),
        },
        ExecuteMsg::AddDegree { studentid, degree } => match with_degree(
            state.studentacc,
            sender,
            degree@,
        ) {
            Ok(record) => Ok((StateView { studentacc: record, ..state }, Response::AddDegree)),
            Err(e) => Err(e),
        },
        ExecuteMsg::RemoveDegree { studentid, degree } => match without_degree(
            state.studentacc,
            sender,
            degree@,
        ) {
            Ok(record) => Ok((StateView { studentacc: record, ..state }, Response::RemoveDegree)),
            Err(e) => Err(e),
        },
    }
}

/// The records after a command: those that its rule gives where it goes
/// through, and the records before it where it fails.
pub open spec fn state_after(state: StateView, sender: Seq<char>, msg: ExecuteMsg) -> StateView {
    match execute_outcome(state, sender, msg) {
        Ok((after, _)) => after,
        Err(_) => state,
    }
}

/// The answer to a command.
pub open spec fn answer_to(state: StateView, sender: Seq<char>, msg: ExecuteMsg) -> Result<
    Response,
    ContractError,
> {
    match execute_outcome(state, sender, msg) {
        Ok((_, response)) => Ok(response),
        Err(e) => Err(e),
    }
}

/// What the student's record answers: all of it but the admin.
pub open spec fn accreditation_of(record: StudentAccreditationView) -> GetStudentAccResponseView {
    GetStudentAccResponseView {
        studentname: record.studentname,
        studentid: record.studentid,
        universitites: record.universitites,
        degrees: record.degrees,
    }
}

/// The answer to a question.
pub open spec fn query_outcome(state: StateView, msg: QueryMsg) -> Result<
    QueryResponseView,
    ContractError,
> {
    match msg {
        QueryMsg::GetPosition { id } => match position_of(state.character, id) {
            Ok(at) => Ok(QueryResponseView::Position(at)),
            Err(e) => Err(e),
        },
        QueryMsg::GetHealth { id } => match health_of(state.character, id) {
            Ok(left) => Ok(QueryResponseView::Health(left)),
            Err(e) => Err(e),
        },
        QueryMsg::GetStudentAcc { studentid } => Ok(
            QueryResponseView::StudentAcc(accreditation_of(state.studentacc)),
        ),
    }
}

/// Starts an instance: makes its three records from the message.  The message
/// names the host and the admin; who sent it plays no part.
pub fn instantiate(info: &MessageInfo, msg: InstantiateMsg) -> (r: (State, Response))
    ensures
        r.0@ == initial_state(msg),
        r.0@.wf(),
        r.1 == Response::Instantiate,
{
    let layout = match msg.layout {
        Some(layout) => layout,
        None => {
            proof {
                open_ground_is_a_grid();
            }
            Layout::default()
        },
    };
    let state = State {
        board: Board::new(msg.host, layout),
        character: Character::spawn(),
        studentacc: StudentAccreditation {
            admin: msg.admin,
            studentname: msg.studentname,
            studentid: msg.studentid,
            universitites: msg.universitites,
            degrees: msg.degrees,
        },
    };
    (state, Response::Instantiate)
}

/// Carries out a command on behalf of the sender of `info`.
pub fn execute(state: &mut State, info: &MessageInfo, msg: ExecuteMsg) -> (r: Result<
    Response,
    ContractError,
>)
    ensures
        r == answer_to(old(state)@, info.sender@, msg),
        final(state)@ == state_after(old(state)@, info.sender@, msg),
        r is Err ==> *final(state) == *old(state),
{
    match msg {
        ExecuteMsg::Move { direction } => {
            match apply_move(&state.board, &state.character, direction) {
                Ok(after) => {
                    state.character = after;
                    Ok(
                        Response::Move {
                            x: after.position.x,
                            y: after.position.y,
                            health: after.health,
                        },
                    )
                },
                Err(e) => Err(e),
            }
        },
        ExecuteMsg::Attack { direction } => {
            match apply_attack(&info.sender, &state.board, &state.character, direction) {
                Ok(after) => {
                    state.character = after;
                    Ok(Response::Attack { health: after.health })
                },
                Err(e) => Err(e),
            }
        },
        ExecuteMsg::AddUniversity { studentid, university } => try_add_uni(
            &mut state.studentacc,
            info,
            studentid,
            university,
        ),
        ExecuteMsg::RemoveUniversity { studentid, university } => try_remove_uni(
            &mut state.studentacc,
            info,
            studentid,
            university,
        ),
        ExecuteMsg::AddDegree { studentid, degree } => try_add_degree(
            &mut state.studentacc,
            info,
            studentid,
            degree,
        ),
        ExecuteMsg::RemoveDegree { studentid, degree } => try_remove_degree(
            &mut state.studentacc,
            info,
            studentid,
            degree,
        ),
    }
}

/// Adds a university at the end of the record's list, for the record's admin.
/// The instance keeps one record: `studentid` does not select among records.
pub fn try_add_uni(
    record: &mut StudentAccreditation,
    info: &MessageInfo,
    studentid: i32,
    university: String,
) -> (r: Result<Response, ContractError>)
    ensures
        match with_university(old(record)@, info.sender@, university@) {
            Ok(after) => {
                &&& r == Ok::<Response, ContractError>(Response::AddUniversity)
                &&& final(record)@ == after
            },
            Err(e) => r == Err::<Response, ContractError>(e) && *final(record) == *old(record),
        },
{
    if info.sender != record.admin {
        return Err(ContractError::Unauthorized);
    }
    append_text(&mut record.universitites, university);
    Ok(Response::AddUniversity)
}

/// Takes the first university of the given name out of the record's list, for
/// the record's admin.  The instance keeps one record: `studentid` does not
/// select among records.
pub fn try_remove_uni(
    record: &mut StudentAccreditation,
    info: &MessageInfo,
    studentid: i32,
    university: String,
) -> (r: Result<Response, ContractError>)
    ensures
        match without_university(old(record)@, info.sender@, university@) {
            Ok(after) => {
                &&& r == Ok::<Response, ContractError>(Response::RemoveUniversity)
                &&& final(record)@ == after
            },
            Err(e) => r == Err::<Response, ContractError>(e) && *final(record) == *old(record),
        },
{
    if info.sender != record.admin {
        return Err(ContractError::Unauthorized);
    }
    if remove_text(&mut record.universitites, &university) {
        Ok(Response::RemoveUniversity)
    } else {
        Err(ContractError::NotFound)
    }
}

/// Adds a degree at the end of the record's list, for the record's admin.
/// The instance keeps one record: `studentid` does not select among records.
pub fn try_add_degree(
    record: &mut StudentAccreditation,
    info: &MessageInfo,
    studentid: i32,
    degree: String,
) -> (r: Result<Response, ContractError>)
    ensures
        match with_degree(old(record)@, info.sender@, degree@) {
            Ok(after) => {
                &&& r == Ok::<Response, ContractError>(Response::AddDegree)
                &&& final(record)@ == after
            },
            Err(e) => r == Err::<Response, ContractError>(e) && *final(record) == *old(record),
        },
{
    if info.sender != record.admin {
        return Err(ContractError::Unauthorized);
    }
    append_text(&mut record.degrees, degree);
    Ok(Response::AddDegree)
}

/// Takes the first degree of the given name out of the record's list, for the
/// record's admin.  The instance keeps one record: `studentid` does not select
/// among records.
pub fn try_remove_degree(
    record: &mut StudentAccreditation,
    info: &MessageInfo,
    studentid: i32,
    degree: String,
) -> (r: Result<Response, ContractError>)
    ensures
        match without_degree(old(record)@, info.sender@, degree@) {
            Ok(after) => {
                &&& r == Ok::<Response, ContractError>(Response::RemoveDegree)
                &&& final(record)@ == after
            },
            Err(e) => r == Err::<Response, ContractError>(e) && *final(record) == *old(record),
        },
{
    if info.sender != record.admin {
        return Err(ContractError::Unauthorized);
    }
    if remove_text(&mut record.degrees, &degree) {
        Ok(Response::RemoveDegree)
    } else {
        Err(ContractError::NotFound)
    }
}

/// Answers a question from the records, which stay as they are.
pub fn query(state: &State, msg: QueryMsg) -> (r: Result<QueryResponse, ContractError>)
    ensures
        match r {
            Ok(answer) => query_outcome(state@, msg) == Ok::<QueryResponseView, ContractError>(
                answer@,
            ),
            Err(e) => query_outcome(state@, msg) == Err::<QueryResponseView, ContractError>(e),
        },
{
    match msg {
        QueryMsg::GetPosition { id } => match get_position(&state.character, id) {
            Ok(at) => Ok(QueryResponse::Position(at)),
            Err(e) => Err(e),
        },
        QueryMsg::GetHealth { id } => match get_health(&state.character, id) {
            Ok(left) => Ok(QueryResponse::Health(left)),
            Err(e) => Err(e),
        },
        QueryMsg::GetStudentAcc { studentid } => Ok(
            QueryResponse::StudentAcc(get_student_acc(&state.studentacc, studentid)),
        ),
    }
}

/// The student's record without its admin.  The instance keeps one record:
/// `studentid` does not select among records.
pub fn get_student_acc(record: &StudentAccreditation, studentid: i32) -> (r: GetStudentAccResponse)
    ensures
        r@ == accreditation_of(record@),
{
    GetStudentAccResponse {
        studentname: record.studentname.clone(),
        studentid: record.studentid,
        universitites: copy_texts(&record.universitites),
        degrees: copy_texts(&record.degrees),
    }
}

} // verus!
