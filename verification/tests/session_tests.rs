use ftpy::command::cwd::Cwd;
use ftpy::session::{join_path, DataWait, DATA_WAIT_MAX_ATTEMPTS};
use ftpy::{DataChannel, FtpError, SessionState, SystemType};

fn fresh_session() -> SessionState {
    SessionState::new("/srv".to_string(), SystemType::Linux)
}

#[test]
fn join_path_resolves_relative_and_absolute() {
    assert_eq!(join_path("/srv", "music"), "/srv/music");
    assert_eq!(join_path("/srv/", "music"), "/srv/music");
    assert_eq!(join_path("/srv", "/etc"), "/etc");
    assert_eq!(join_path("", "music"), "/music");
}

#[test]
fn change_dir_commits_when_the_directory_exists() {
    let mut session = fresh_session();
    assert!(session.change_dir("music", true).is_ok());
    assert_eq!(session.cwd(), "/srv/music");
}

#[test]
fn failed_cwd_leaves_the_pwd_reply_unchanged() {
    let mut session = fresh_session();
    let before = session.cwd();
    let cmd = Cwd::try_from("CWD", vec!["no-such-dir".to_string()]).unwrap();
    let result = cmd.execute(&mut session, false);
    assert_eq!(result, Err(FtpError::InvalidDirectory));
    assert_eq!(session.cwd(), before);
    assert_eq!(
        ftpy::StatusCode::PathCreated(session.cwd()).to_string(),
        "257 \"/srv\" created\n"
    );
}

#[test]
fn successful_cwd_replies_250() {
    let mut session = fresh_session();
    let cmd = Cwd::try_from("CWD", vec!["music".to_string()]).unwrap();
    let reply = cmd.execute(&mut session, true).unwrap();
    assert_eq!(reply.to_string(), "250 Directory successfully changed\n");
    assert_eq!(session.cwd(), "/srv/music");
}

#[test]
fn a_new_data_connection_replaces_the_old_one() {
    let mut session = fresh_session();
    assert_eq!(session.data_channel(), DataChannel::Absent);
    session.attach_data_connection();
    assert_eq!(session.data_channel(), DataChannel::Ready);
    session.expect_data_connection();
    assert_eq!(session.data_channel(), DataChannel::Pending);
    session.attach_data_connection();
    assert_eq!(session.data_channel(), DataChannel::Ready);
}

#[test]
fn the_data_connection_is_consumed_exactly_once() {
    let mut session = fresh_session();
    session.attach_data_connection();
    assert!(session.take_data_connection());
    assert_eq!(session.data_channel(), DataChannel::Absent);
    assert!(!session.take_data_connection());
}

#[test]
fn polling_waits_then_gives_up() {
    let mut session = fresh_session();
    session.expect_data_connection();
    // While attempts remain, the decision is to retry, never to hang.
    for attempts in 0..DATA_WAIT_MAX_ATTEMPTS {
        assert_eq!(session.poll_data_connection(attempts), DataWait::Retry);
    }
    // Once the budget is spent the wait ends rather than blocking forever.
    assert_eq!(session.poll_data_connection(DATA_WAIT_MAX_ATTEMPTS), DataWait::GiveUp);
    assert_eq!(session.poll_data_connection(u32::MAX), DataWait::GiveUp);
}

#[test]
fn polling_succeeds_as_soon_as_the_socket_arrives() {
    let mut session = fresh_session();
    session.expect_data_connection();
    assert_eq!(session.poll_data_connection(3), DataWait::Retry);
    // The passive accept lands (in the real server: on the background task).
    session.attach_data_connection();
    assert_eq!(session.poll_data_connection(4), DataWait::Ready);
}
