use darktide_local_server::reply::{
    Payload, ProcessRunningResponse, Reply, RunResponse, BAD_REQUEST_TEXT, PID, SUCCESS,
};
use darktide_local_server::response::{
    boolean_response_with_status, empty_response_with_status, frame_reply,
    json_response_with_status,
};

#[test]
fn json_response_announces_type_and_length() {
    let body = b"{\"success\":false}".to_vec();
    let response = json_response_with_status(403, body.clone());
    assert_eq!(response.status, 403);
    assert_eq!(response.data, body);
    assert_eq!(response.data_length, Some(17));
    assert_eq!(response.headers.len(), 1);
    assert_eq!(response.headers[0].field, "Content-Type");
    assert_eq!(response.headers[0].value, "application/json");
}

#[test]
fn boolean_response_holds_the_word() {
    let yes = boolean_response_with_status(200, true);
    assert_eq!(yes.status, 200);
    assert_eq!(yes.data, b"true".to_vec());
    assert!(yes.headers.is_empty());
    assert_eq!(yes.data_length, None);
    let no = boolean_response_with_status(404, false);
    assert_eq!(no.status, 404);
    assert_eq!(no.data, b"false".to_vec());
}

#[test]
fn empty_response_holds_nothing() {
    let response = empty_response_with_status(400);
    assert_eq!(response.status, 400);
    assert!(response.data.is_empty());
    assert!(response.headers.is_empty());
    assert_eq!(response.data_length, None);
}

#[test]
fn frame_reply_drops_the_body_of_an_empty_answer() {
    let response = frame_reply(Reply { status: 400, payload: Payload::Empty }, b"null".to_vec());
    assert_eq!(response.status, 400);
    assert!(response.data.is_empty());
    assert!(response.headers.is_empty());
    assert_eq!(response.data_length, None);
}

#[test]
fn frame_reply_carries_the_json_of_other_answers() {
    let body = b"{\"process_is_running\":true}".to_vec();
    let reply = Reply {
        status: 200,
        payload: Payload::ProcessRunning(ProcessRunningResponse { process_is_running: true }),
    };
    let response = frame_reply(reply, body.clone());
    assert_eq!(response.status, 200);
    assert_eq!(response.data, body);
    assert_eq!(response.data_length, Some(body.len()));
    assert_eq!(response.headers[0].value, "application/json");
    let reply = Reply {
        status: 500,
        payload: Payload::Run(RunResponse { success: false, pid: None }),
    };
    assert_eq!(frame_reply(reply, b"{}".to_vec()).data, b"{}".to_vec());
    let reply = Reply { status: 400, payload: Payload::BadRequestText };
    assert_eq!(frame_reply(reply, b"\"Bad Request\"".to_vec()).data_length, Some(13));
}

#[test]
fn field_names_are_fixed() {
    assert_eq!(SUCCESS, "success");
    assert_eq!(PID, "pid");
    assert_eq!(BAD_REQUEST_TEXT, "Bad Request");
}
