use grid_tactics::contract::{
    execute, get_student_acc, instantiate, query, try_add_degree, try_add_uni, try_remove_degree,
    try_remove_uni,
};
use grid_tactics::error::ContractError;
use grid_tactics::msg::{
    ExecuteMsg, GetStudentAccResponse, InstantiateMsg, MessageInfo, QueryMsg, QueryResponse,
    Response,
};
use grid_tactics::state::{State, StudentAccreditation};
use grid_tactics::texts::{append_text, copy_texts, find_text, remove_text};

fn sender(name: &str) -> MessageInfo {
    MessageInfo { sender: name.to_string() }
}

fn names(list: &[&str]) -> Vec<String> {
    list.iter().map(|s| s.to_string()).collect()
}

fn record() -> StudentAccreditation {
    StudentAccreditation {
        admin: "registrar".to_string(),
        studentname: "Ada".to_string(),
        studentid: 7,
        universitites: names(&["Turin", "Leiden"]),
        degrees: names(&["BSc"]),
    }
}

fn started() -> State {
    let msg = InstantiateMsg {
        admin: "registrar".to_string(),
        studentname: "Ada".to_string(),
        studentid: 7,
        universitites: names(&["Turin", "Leiden"]),
        degrees: names(&["BSc"]),
        host: "host".to_string(),
        layout: None,
    };
    instantiate(&sender("creator"), msg).0
}

#[test]
fn instantiate_keeps_the_record_of_the_message() {
    let state = started();
    assert_eq!(state.studentacc, record());
}

#[test]
fn admin_adds_a_university_at_the_end() {
    let mut acc = record();
    let r = try_add_uni(&mut acc, &sender("registrar"), 7, "Uppsala".to_string());
    assert_eq!(r, Ok(Response::AddUniversity));
    assert_eq!(acc.universitites, names(&["Turin", "Leiden", "Uppsala"]));
    assert_eq!(acc.degrees, names(&["BSc"]));
    assert_eq!(acc.admin, "registrar");
}

#[test]
fn stranger_cannot_add_a_university() {
    let mut acc = record();
    let r = try_add_uni(&mut acc, &sender("stranger"), 7, "Uppsala".to_string());
    assert_eq!(r, Err(ContractError::Unauthorized));
    assert_eq!(acc, record());
}

#[test]
fn admin_removes_the_first_university_of_that_name() {
    let mut acc = record();
    acc.universitites = names(&["Turin", "Leiden", "Turin", "Uppsala"]);
    let r = try_remove_uni(&mut acc, &sender("registrar"), 7, "Turin".to_string());
    assert_eq!(r, Ok(Response::RemoveUniversity));
    assert_eq!(acc.universitites, names(&["Leiden", "Turin", "Uppsala"]));
}

#[test]
fn removing_an_unknown_university_finds_nothing() {
    let mut acc = record();
    let r = try_remove_uni(&mut acc, &sender("registrar"), 7, "Uppsala".to_string());
    assert_eq!(r, Err(ContractError::NotFound));
    assert_eq!(acc, record());
}

#[test]
fn stranger_cannot_remove_a_university() {
    let mut acc = record();
    let r = try_remove_uni(&mut acc, &sender("stranger"), 7, "Turin".to_string());
    assert_eq!(r, Err(ContractError::Unauthorized));
    assert_eq!(acc, record());
    let r = try_remove_uni(&mut acc, &sender("stranger"), 7, "Uppsala".to_string());
    assert_eq!(r, Err(ContractError::Unauthorized));
}

#[test]
fn admin_adds_and_removes_degrees() {
    let mut acc = record();
    let admin = sender("registrar");
    assert_eq!(try_add_degree(&mut acc, &admin, 7, "MSc".to_string()), Ok(Response::AddDegree));
    assert_eq!(acc.degrees, names(&["BSc", "MSc"]));
    assert_eq!(
        try_remove_degree(&mut acc, &admin, 7, "BSc".to_string()),
        Ok(Response::RemoveDegree)
    );
    assert_eq!(acc.degrees, names(&["MSc"]));
    assert_eq!(
        try_remove_degree(&mut acc, &admin, 7, "BSc".to_string()),
        Err(ContractError::NotFound)
    );
    assert_eq!(acc.degrees, names(&["MSc"]));
    assert_eq!(acc.universitites, names(&["Turin", "Leiden"]));
}

#[test]
fn stranger_cannot_edit_degrees() {
    let mut acc = record();
    let stranger = sender("stranger");
    assert_eq!(
        try_add_degree(&mut acc, &stranger, 7, "MSc".to_string()),
        Err(ContractError::Unauthorized)
    );
    assert_eq!(
        try_remove_degree(&mut acc, &stranger, 7, "BSc".to_string()),
        Err(ContractError::Unauthorized)
    );
    assert_eq!(acc, record());
}

#[test]
fn student_id_does_not_select() {
    let mut acc = record();
    let r = try_add_uni(&mut acc, &sender("registrar"), 99, "Uppsala".to_string());
    assert_eq!(r, Ok(Response::AddUniversity));
    assert_eq!(get_student_acc(&acc, -3).studentid, 7);
}

#[test]
fn record_is_answered_without_its_admin() {
    let acc = record();
    assert_eq!(
        get_student_acc(&acc, 7),
        GetStudentAccResponse {
            studentname: "Ada".to_string(),
            studentid: 7,
            universitites: names(&["Turin", "Leiden"]),
            degrees: names(&["BSc"]),
        }
    );
}

#[test]
fn edits_go_through_execute() {
    let mut state = started();
    let admin = sender("registrar");
    let board = state.board.clone();
    let character = state.character;
    assert_eq!(
        execute(
            &mut state,
            &admin,
            ExecuteMsg::AddUniversity { studentid: 7, university: "Uppsala".to_string() }
        ),
        Ok(Response::AddUniversity)
    );
    assert_eq!(
        execute(
            &mut state,
            &admin,
            ExecuteMsg::RemoveUniversity { studentid: 7, university: "Turin".to_string() }
        ),
        Ok(Response::RemoveUniversity)
    );
    assert_eq!(
        execute(
            &mut state,
            &admin,
            ExecuteMsg::AddDegree { studentid: 7, degree: "MSc".to_string() }
        ),
        Ok(Response::AddDegree)
    );
    assert_eq!(
        execute(
            &mut state,
            &admin,
            ExecuteMsg::RemoveDegree { studentid: 7, degree: "BSc".to_string() }
        ),
        Ok(Response::RemoveDegree)
    );
    assert_eq!(
        execute(
            &mut state,
            &sender("host"),
            ExecuteMsg::AddDegree { studentid: 7, degree: "PhD".to_string() }
        ),
        Err(ContractError::Unauthorized)
    );
    assert_eq!(
        query(&state, QueryMsg::GetStudentAcc { studentid: 7 }),
        Ok(QueryResponse::StudentAcc(GetStudentAccResponse {
            studentname: "Ada".to_string(),
            studentid: 7,
            universitites: names(&["Leiden", "Uppsala"]),
            degrees: names(&["MSc"]),
        }))
    );
    assert_eq!(state.board, board);
    assert_eq!(state.character, character);
}

#[test]
fn the_admin_of_the_record_is_not_the_host_of_the_board() {
    let mut state = started();
    assert_eq!(
        execute(&mut state, &sender("registrar"), ExecuteMsg::Attack { direction: 1 }),
        Err(ContractError::Unauthorized)
    );
}

#[test]
fn texts_are_found_by_value() {
    let list = names(&["a", "b", "a"]);
    assert_eq!(find_text(&list, &"a".to_string()), Some(0));
    assert_eq!(find_text(&list, &"b".to_string()), Some(1));
    assert_eq!(find_text(&list, &"c".to_string()), None);
    assert_eq!(find_text(&Vec::new(), &"a".to_string()), None);
}

#[test]
fn texts_are_removed_and_appended_in_order() {
    let mut list = names(&["a", "b", "a"]);
    assert!(remove_text(&mut list, &"a".to_string()));
    assert_eq!(list, names(&["b", "a"]));
    assert!(!remove_text(&mut list, &"c".to_string()));
    assert_eq!(list, names(&["b", "a"]));
    append_text(&mut list, "c".to_string());
    assert_eq!(list, names(&["b", "a", "c"]));
    assert_eq!(copy_texts(&list), list);
}
