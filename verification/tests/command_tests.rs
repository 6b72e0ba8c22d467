use ftpy::command::cwd::Cwd;
use ftpy::command::FTPCommand;
use ftpy::command::pasv::Pasv;
use ftpy::command::port::Port;
use ftpy::command::rest::Rest;
use ftpy::command::retr::Retr;
use ftpy::command::stor::Stor;
use ftpy::command::type_cmd::Type;
use ftpy::command::user::User;
use ftpy::connection::{greeting, handle_line, LineVerdict};
use ftpy::{Command, DataChannel, FtpError, SessionState, StatusCode, SystemType};

fn fresh_session() -> SessionState {
    SessionState::new("/srv".to_string(), SystemType::Linux)
}

#[test]
fn user_requires_exactly_one_argument() {
    assert!(User::try_from("USER", vec!["alice".to_string()]).is_ok());
    assert_eq!(User::try_from("USER", vec![]), Err(FtpError::InvalidArgumentCount));
    assert_eq!(
        User::try_from("USER", vec!["a".to_string(), "b".to_string()]),
        Err(FtpError::InvalidArgumentCount)
    );
    assert_eq!(User::try_from("NOOP", vec![]), Err(FtpError::UnknownCommand));
}

#[test]
fn user_and_pass_always_log_in() {
    let user = User::try_from("USER", vec!["alice".to_string()]).unwrap();
    assert_eq!(user.execute(), StatusCode::UserLoggedIn);
    match Command::try_from("PASS", vec![]) {
        Ok(Command::Pass(p)) => {
            assert_eq!(p.0, "anonymous");
            assert_eq!(p.execute(), StatusCode::UserLoggedIn);
        }
        other => panic!("unexpected {:?}", other.is_ok()),
    }
}

#[test]
fn syst_reports_the_session_system() {
    let session = fresh_session();
    match Command::try_from("SYST", vec![]) {
        Ok(Command::Syst(s)) => {
            assert_eq!(s.execute(&session), StatusCode::SystemType(SystemType::Linux));
        }
        _ => panic!("SYST did not construct"),
    }
}

#[test]
fn feat_lists_the_supported_extensions() {
    match Command::try_from("FEAT", vec![]) {
        Ok(Command::Feat(f)) => {
            let reply = f.execute();
            assert_eq!(
                reply.to_string(),
                "211-Features:\n MLST\n MLSD\n UTF8\n211 END\n"
            );
        }
        _ => panic!("FEAT did not construct"),
    }
}

#[test]
fn pwd_reports_the_working_directory() {
    let session = fresh_session();
    match Command::try_from("PWD", vec![]) {
        Ok(Command::Pwd(p)) => {
            assert_eq!(p.execute(&session).to_string(), "257 \"/srv\" created\n");
        }
        _ => panic!("PWD did not construct"),
    }
}

#[test]
fn type_takes_the_first_character() {
    match Type::try_from("TYPE", vec!["I".to_string()]) {
        Ok(t) => {
            assert_eq!(t.0, 'I');
            assert_eq!(t.execute(), StatusCode::Okay);
        }
        Err(e) => panic!("TYPE refused: {:?}", e.message()),
    }
    assert_eq!(Type::try_from("TYPE", vec![]), Err(FtpError::InvalidArgumentCount));
}

#[test]
fn rest_parses_the_offset() {
    let r = Rest::try_from("REST", vec!["1048576".to_string()]).unwrap();
    assert_eq!(r.0, 1048576);
    assert_eq!(r.execute(), StatusCode::FileActionPending);
    assert_eq!(
        Rest::try_from("REST", vec!["12a".to_string()]),
        Err(FtpError::InvalidArgument)
    );
    assert_eq!(
        Rest::try_from("REST", vec!["99999999999999999999999".to_string()]),
        Err(FtpError::InvalidArgument)
    );
}

#[test]
fn port_parses_the_six_octets() {
    let p = Port::try_from("PORT", vec!["127,0,0,1,4,210".to_string()]).unwrap();
    assert_eq!((p.ip.o1, p.ip.o2, p.ip.o3, p.ip.o4), (127, 0, 0, 1));
    assert_eq!(p.port, 4 * 256 + 210);
}

#[test]
fn port_rejects_malformed_arguments() {
    for bad in ["127,0,0,1,4", "127,0,0,1,4,210,9", "127,0,0,1,4,999", "a,b,c,d,e,f", "", "1,2,3,4,5,"] {
        assert_eq!(
            Port::try_from("PORT", vec![bad.to_string()]),
            Err(FtpError::InvalidArgument),
            "argument {:?} should be refused",
            bad
        );
    }
}

#[test]
fn port_execute_installs_the_data_connection() {
    let mut session = fresh_session();
    let p = Port::try_from("PORT", vec!["10,0,0,7,0,21".to_string()]).unwrap();
    assert_eq!(p.execute(&mut session), StatusCode::Okay);
    assert_eq!(session.data_channel(), DataChannel::Ready);
}

#[test]
fn pasv_splits_and_encodes_the_port() {
    assert_eq!(Pasv::split_port(50000), (195, 80));
    assert_eq!(Pasv::split_port(255), (0, 255));
    assert_eq!(Pasv::split_port(256), (1, 0));
    // Round trip: high * 256 + low gives the port back.
    for port in [0u16, 1, 255, 256, 50000, 65535] {
        let (hi, lo) = Pasv::split_port(port);
        assert_eq!(hi * 256 + lo, port);
    }
}

#[test]
fn pasv_marks_the_session_pending() {
    let mut session = fresh_session();
    let p = Pasv::try_from("PASV", vec![]).unwrap();
    p.execute(&mut session);
    assert_eq!(session.data_channel(), DataChannel::Pending);
}

#[test]
fn retr_refuses_a_missing_file_before_touching_the_data_channel() {
    let r = Retr::try_from("RETR", vec!["gone.txt".to_string()]).unwrap();
    assert_eq!(
        r.plan(false, true),
        ftpy::TransferPlan::Refused(StatusCode::FileActionNotTaken)
    );
}

#[test]
fn retr_replies_125_then_226() {
    let r = Retr::try_from("RETR", vec!["file.txt".to_string()]).unwrap();
    match r.plan(true, true) {
        ftpy::TransferPlan::Proceed { preliminary, completion } => {
            assert_eq!(preliminary.code(), 125);
            assert_eq!(completion.code(), 226);
        }
        other => panic!("unexpected refusal: {:?}", other),
    }
}

#[test]
fn stor_resolves_the_destination_and_replies() {
    let session = fresh_session();
    let s = Stor::try_from("STOR", vec!["upload.bin".to_string()]).unwrap();
    assert_eq!(s.destination(&session), "/srv/upload.bin");
    assert_eq!(
        s.plan(false),
        ftpy::TransferPlan::Refused(StatusCode::CantOpenDataConnection)
    );
    match s.plan(true) {
        ftpy::TransferPlan::Proceed { preliminary, completion } => {
            assert_eq!(preliminary.code(), 125);
            assert_eq!(completion.code(), 226);
        }
        other => panic!("unexpected refusal: {:?}", other),
    }
}

#[test]
fn cwd_resolves_against_the_session() {
    let session = fresh_session();
    let c = Cwd::try_from("CWD", vec!["music".to_string()]).unwrap();
    assert_eq!(c.target(&session), "/srv/music");
    let abs = Cwd::try_from("CWD", vec!["/etc".to_string()]).unwrap();
    assert_eq!(abs.target(&session), "/etc");
}

#[test]
fn dispatcher_refuses_unknown_keywords() {
    assert_eq!(
        Command::try_from("NOOP", vec![]).err(),
        Some(FtpError::UnknownCommand)
    );
    // Keywords are matched case-sensitively against the uppercase forms.
    assert_eq!(
        Command::try_from("user", vec!["alice".to_string()]).err(),
        Some(FtpError::UnknownCommand)
    );
}

#[test]
fn greeting_is_service_ready() {
    assert_eq!(greeting(), StatusCode::ServiceReadyUser);
    assert_eq!(greeting().to_string(), "220 Service ready for new user\n");
}

#[test]
fn handle_line_closes_on_an_empty_line() {
    assert!(matches!(handle_line(""), LineVerdict::Close));
    assert!(matches!(handle_line("   "), LineVerdict::Close));
}

#[test]
fn handle_line_executes_a_recognized_command() {
    match handle_line("USER alice") {
        LineVerdict::Execute(Command::User(u)) => assert_eq!(u.0, "alice"),
        _ => panic!("USER line did not dispatch"),
    }
}

#[test]
fn handle_line_rejects_unusable_lines_with_502() {
    match handle_line("NOPE") {
        LineVerdict::Reject(s) => assert_eq!(s.code(), 502),
        _ => panic!("unknown keyword must be rejected, not closed"),
    }
    match handle_line("USER") {
        LineVerdict::Reject(s) => assert_eq!(s.code(), 502),
        _ => panic!("bad arity must be rejected, not closed"),
    }
}

#[test]
fn quit_closes_the_connection_after_its_reply() {
    match handle_line("QUIT") {
        LineVerdict::Execute(cmd) => {
            assert!(cmd.closes_connection());
            match &cmd {
                Command::Quit(q) => {
                    assert_eq!(q.execute().to_string(), "221 Service closing control connection\n")
                }
                _ => panic!("QUIT line built another command"),
            }
        }
        _ => panic!("QUIT did not dispatch"),
    }
    match handle_line("USER alice") {
        LineVerdict::Execute(cmd) => assert!(!cmd.closes_connection()),
        _ => panic!("USER did not dispatch"),
    }
}

#[test]
fn keywords_are_matched_exactly() {
    assert_eq!(User::keyword(), "USER");
    assert_eq!(Port::keyword(), "PORT");
    assert!(User::is_keyword("USER"));
    assert!(!User::is_keyword("user"));
    assert!(!User::is_keyword("USERX"));
    assert!(Cwd::is_keyword("CWD"));
    assert!(!Cwd::is_keyword("PWD"));
}
