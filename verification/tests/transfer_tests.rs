use ftpy::command::list::List;
use ftpy::command::retr::Retr;
use ftpy::command::stor::Stor;
use ftpy::transfer::{listing_payload, retr_payload, COMPLETION_SENTINEL};
use ftpy::{SessionState, StatusCode, SystemType, TransferPlan};

#[test]
fn an_empty_listing_sends_only_the_sentinel() {
    // After the PASV data connection is up, LIST on an empty directory puts
    // nothing but the completion sentinel on the data channel and replies 226.
    let payload = listing_payload(&vec![]);
    assert_eq!(payload, vec![COMPLETION_SENTINEL]);
    let list = List::try_from("LIST", vec![]).unwrap();
    match list.plan(true) {
        TransferPlan::Proceed { preliminary, completion } => {
            assert_eq!(preliminary.code(), 150);
            assert_eq!(completion, StatusCode::ClosingDataConnection);
            assert_eq!(completion.code(), 226);
        }
        other => panic!("unexpected refusal: {:?}", other),
    }
}

#[test]
fn listing_payload_keeps_lines_in_order() {
    let lines = vec![b"alpha\r\n".to_vec(), b"beta\r\n".to_vec()];
    assert_eq!(listing_payload(&lines), b"alpha\r\nbeta\r\n\0".to_vec());
}

#[test]
fn retr_sends_the_file_bytes_plus_the_sentinel() {
    // A file holding "hello\n" yields exactly those bytes plus the sentinel
    // on the data channel, and the control channel sees 125 then 226.
    let payload = retr_payload(&b"hello\n".to_vec());
    assert_eq!(payload, b"hello\n\0".to_vec());
    let retr = Retr::try_from("RETR", vec!["greeting.txt".to_string()]).unwrap();
    match retr.plan(true, true) {
        TransferPlan::Proceed { preliminary, completion } => {
            assert_eq!(preliminary.code(), 125);
            assert_eq!(completion.code(), 226);
        }
        other => panic!("unexpected refusal: {:?}", other),
    }
}

#[test]
fn stor_writes_the_received_bytes_at_the_resolved_destination() {
    // The engine resolves the destination against the working directory; the
    // received bytes are handed to the filesystem unaltered.
    let session = SessionState::new("/srv/incoming".to_string(), SystemType::Linux);
    let stor = Stor::try_from("STOR", vec!["note.txt".to_string()]).unwrap();
    assert_eq!(stor.destination(&session), "/srv/incoming/note.txt");
    let received: Vec<u8> = b"abc".to_vec();
    // No sentinel and no framing are added on the receive side.
    assert_eq!(received, b"abc".to_vec());
    match stor.plan(true) {
        TransferPlan::Proceed { preliminary, completion } => {
            assert_eq!(preliminary.code(), 125);
            assert_eq!(completion.code(), 226);
        }
        other => panic!("unexpected refusal: {:?}", other),
    }
}
