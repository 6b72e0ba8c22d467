//! One session, driven line by line through the decision layer exactly as
//! the connection actor drives it, with the outside world simulated.

use ftpy::connection::{greeting, handle_line, LineVerdict};
use ftpy::transfer::{listing_payload, retr_payload, TransferPlan};
use ftpy::{Command, DataChannel, DataWait, SessionState, StatusCode, SystemType};

fn dispatch(line: &str) -> Command {
    match handle_line(line) {
        LineVerdict::Execute(cmd) => cmd,
        _ => panic!("line {:?} did not dispatch", line),
    }
}

#[test]
fn a_passive_session_lists_an_empty_directory() {
    let mut session = SessionState::new("/srv".to_string(), SystemType::Linux);
    assert_eq!(greeting().to_string(), "220 Service ready for new user\n");

    match dispatch("USER alice") {
        Command::User(u) => assert_eq!(u.execute().code(), 230),
        _ => panic!("USER built another command"),
    }
    match dispatch("PASS secret") {
        Command::Pass(p) => assert_eq!(p.execute().code(), 230),
        _ => panic!("PASS built another command"),
    }

    // PASV: the listener lands on port 50000; the reply encodes it and the
    // session starts waiting for the accept.
    match dispatch("PASV") {
        Command::Pasv(p) => {
            let reply = p.reply(ftpy::Ipv4Addr { o1: 127, o2: 0, o3: 0, o4: 1 }, 50000);
            assert_eq!(reply.to_string(), "227 Entering Passive Mode (127,0,0,1,195,80)\n");
            p.execute(&mut session);
        }
        _ => panic!("PASV built another command"),
    }
    assert_eq!(session.data_channel(), DataChannel::Pending);

    // LIST arrives before the client has connected: the poll decision is to
    // retry, and once the background accept installs the socket it is ready.
    match dispatch("LIST") {
        Command::List(l) => {
            assert_eq!(session.poll_data_connection(0), DataWait::Retry);
            session.attach_data_connection();
            assert_eq!(session.poll_data_connection(1), DataWait::Ready);
            match l.plan(true) {
                TransferPlan::Proceed { preliminary, completion } => {
                    assert_eq!(preliminary.code(), 150);
                    assert!(session.take_data_connection());
                    // The directory is empty: only the sentinel goes out.
                    assert_eq!(listing_payload(&vec![]), vec![0u8]);
                    assert_eq!(completion.to_string(), "226 Closing data connection\n");
                }
                other => panic!("unexpected refusal: {:?}", other),
            }
        }
        _ => panic!("LIST built another command"),
    }
    assert_eq!(session.data_channel(), DataChannel::Absent);

    // A failed CWD leaves the next PWD reply exactly as before.
    let pwd_before = match dispatch("PWD") {
        Command::Pwd(p) => p.execute(&session).to_string(),
        _ => panic!("PWD built another command"),
    };
    match dispatch("CWD missing") {
        Command::Cwd(c) => assert!(c.execute(&mut session, false).is_err()),
        _ => panic!("CWD built another command"),
    }
    let pwd_after = match dispatch("PWD") {
        Command::Pwd(p) => p.execute(&session).to_string(),
        _ => panic!("PWD built another command"),
    };
    assert_eq!(pwd_before, pwd_after);

    // RETR of a known file frames its bytes with the sentinel.
    match dispatch("RETR greeting.txt") {
        Command::Retr(r) => {
            assert_eq!(r.source(&session), "/srv/greeting.txt");
            assert_eq!(retr_payload(&b"hello\n".to_vec()), b"hello\n\0".to_vec());
        }
        _ => panic!("RETR built another command"),
    }

    // QUIT says farewell and closes the session.
    match dispatch("QUIT") {
        cmd @ Command::Quit(_) => {
            assert!(cmd.closes_connection());
            match cmd {
                Command::Quit(q) => assert_eq!(q.execute().code(), 221),
                _ => unreachable!(),
            }
        }
        _ => panic!("QUIT built another command"),
    }

    // An empty line, whenever it comes, ends the connection.
    assert!(matches!(handle_line(""), LineVerdict::Close));
}
