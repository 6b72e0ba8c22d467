use ftpy::{Ipv4Addr, StatusCode, SystemType};

#[test]
fn ok_code_is_200() {
    assert_eq!(StatusCode::Okay.code(), 200);
}

#[test]
fn codes_match_the_catalog() {
    assert_eq!(StatusCode::RestartMarker(7).code(), 110);
    assert_eq!(StatusCode::DataOpenTransfer.code(), 125);
    assert_eq!(StatusCode::FileStatusOk(String::new()).code(), 150);
    assert_eq!(StatusCode::SystemStatus(String::new()).code(), 211);
    assert_eq!(StatusCode::SystemType(SystemType::Linux).code(), 215);
    assert_eq!(StatusCode::ServiceReadyUser.code(), 220);
    assert_eq!(StatusCode::ServiceClosingControlConnection.code(), 221);
    assert_eq!(StatusCode::ClosingDataConnection.code(), 226);
    assert_eq!(StatusCode::UserLoggedIn.code(), 230);
    assert_eq!(StatusCode::FileActionOk(String::new()).code(), 250);
    assert_eq!(StatusCode::PathCreated(String::new()).code(), 257);
    assert_eq!(StatusCode::FileActionPending.code(), 350);
    assert_eq!(StatusCode::CantOpenDataConnection.code(), 425);
    assert_eq!(StatusCode::FileActionNotTaken.code(), 450);
    assert_eq!(StatusCode::CmdNotImplemented.code(), 502);
    assert_eq!(StatusCode::UserNotLoggedIn.code(), 530);
    assert_eq!(StatusCode::FilenameNotAllowed.code(), 553);
}

#[test]
fn renders_simple_replies() {
    assert_eq!(StatusCode::Okay.to_string(), "200 Ok\n");
    assert_eq!(StatusCode::ServiceReadyUser.to_string(), "220 Service ready for new user\n");
    assert_eq!(StatusCode::UserLoggedIn.to_string(), "230 User logged in, proceed\n");
    assert_eq!(StatusCode::ClosingDataConnection.to_string(), "226 Closing data connection\n");
    assert_eq!(StatusCode::CmdNotImplemented.to_string(), "502 Command not implemented\n");
    assert_eq!(StatusCode::CantOpenDataConnection.to_string(), "425 Can't open data connection\n");
}

#[test]
fn renders_dynamic_payloads() {
    assert_eq!(
        StatusCode::PathCreated("/srv/ftp".to_string()).to_string(),
        "257 \"/srv/ftp\" created\n"
    );
    assert_eq!(
        StatusCode::FileActionOk("Directory successfully changed".to_string()).to_string(),
        "250 Directory successfully changed\n"
    );
    assert_eq!(StatusCode::SystemType(SystemType::Linux).to_string(), "215 UNIX Type: L8\n");
    assert_eq!(StatusCode::SystemType(SystemType::Windows).to_string(), "215 Windows_NT\n");
}

#[test]
fn renders_passive_mode_encoding() {
    let reply = StatusCode::EnteringPassiveMode {
        ip_address: Ipv4Addr { o1: 127, o2: 0, o3: 0, o4: 1 },
        port_high: 195,
        port_low: 80,
    };
    assert_eq!(reply.to_string(), "227 Entering Passive Mode (127,0,0,1,195,80)\n");
}

#[test]
fn renders_multiline_feature_reply() {
    let reply = StatusCode::SystemStatus("Features:\n MLST\n MLSD\n UTF8".to_string());
    assert_eq!(reply.to_string(), "211-Features:\n MLST\n MLSD\n UTF8\n211 END\n");
}

#[test]
fn rendered_lines_begin_with_their_code() {
    let samples = vec![
        StatusCode::RestartMarker(0),
        StatusCode::DataOpenTransfer,
        StatusCode::FileStatusOk("x".to_string()),
        StatusCode::Okay,
        StatusCode::HelpMsg { message: "help".to_string() },
        StatusCode::SystemType(SystemType::MacOS),
        StatusCode::ServiceReadyUser,
        StatusCode::ServiceClosingControlConnection,
        StatusCode::DataOpenNoTransfer,
        StatusCode::ClosingDataConnection,
        StatusCode::EnteringPassiveMode {
            ip_address: Ipv4Addr { o1: 10, o2: 0, o3: 0, o4: 2 },
            port_high: 4,
            port_low: 210,
        },
        StatusCode::UserLoggedIn,
        StatusCode::FileActionOk("done".to_string()),
        StatusCode::PathCreated("/".to_string()),
        StatusCode::NeedLoginAccount,
        StatusCode::FileActionPending,
        StatusCode::CantOpenDataConnection,
        StatusCode::FileActionNotTaken,
        StatusCode::CmdNotImplemented,
    ];
    for s in samples {
        let rendered = s.to_string();
        let prefix = format!("{} ", s.code());
        assert!(
            rendered.starts_with(&prefix),
            "{:?} rendered as {:?}",
            s.code(),
            rendered
        );
    }
    // The one multi-line reply opens with code and hyphen instead.
    let multi = StatusCode::SystemStatus("Features:".to_string());
    assert!(multi.to_string().starts_with("211-"));
}

#[test]
fn byte_array_matches_rendering() {
    assert_eq!(StatusCode::Okay.to_byte_array(), b"200 Ok\n".to_vec());
    assert_eq!(
        StatusCode::PathCreated("/tmp".to_string()).to_byte_array(),
        b"257 \"/tmp\" created\n".to_vec()
    );
}
