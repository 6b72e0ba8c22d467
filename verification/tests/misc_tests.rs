use ftpy::cli::Args;
use ftpy::connection::error_reply;
use ftpy::text::{dec_string, parse_u64, parse_u8};
use ftpy::{FtpError, System, SystemType};

#[test]
fn system_type_maps_operating_system_names() {
    assert_eq!(SystemType::from_os_name("linux"), SystemType::Linux);
    assert_eq!(SystemType::from_os_name("macos"), SystemType::MacOS);
    assert_eq!(SystemType::from_os_name("windows"), SystemType::Windows);
    assert_eq!(SystemType::from_os_name("android"), SystemType::Android);
    assert_eq!(SystemType::from_os_name("ios"), SystemType::Ios);
    assert_eq!(SystemType::from_os_name("plan9"), SystemType::Unknown);
}

#[test]
fn system_names_match_the_catalog() {
    assert_eq!(SystemType::Linux.to_string(), "UNIX Type: L8");
    assert_eq!(SystemType::Unix.to_string(), "UNIX Type: L8");
    assert_eq!(SystemType::Windows.to_string(), "Windows_NT");
    assert_eq!(System::from(SystemType::Ios).name(), "IOS Type: L8");
    assert_eq!(System::from(SystemType::Unknown).to_string(), "Unknown Type: L8");
}

#[test]
fn init_cli_runs_unless_help_is_asked() {
    assert_eq!(Args::init_cli(true, false, 2121), None);
    assert_eq!(
        Args::init_cli(false, true, 21),
        Some(Args { help: false, interactive: true, port: 21 })
    );
}

#[test]
fn error_messages_match_their_variants() {
    assert_eq!(FtpError::EmptyLine.message(), "Empty command");
    assert_eq!(FtpError::UnknownCommand.message(), "Invalid command");
    assert_eq!(FtpError::InvalidArgumentCount.message(), "Invalid number of arguments");
    assert_eq!(FtpError::InvalidDirectory.message(), "Invalid directory");
}

#[test]
fn decimal_rendering_has_no_leading_zeros() {
    assert_eq!(dec_string(0), "0");
    assert_eq!(dec_string(7), "7");
    assert_eq!(dec_string(50000), "50000");
    assert_eq!(dec_string(u64::MAX), "18446744073709551615");
}

#[test]
fn decimal_parsing_accepts_digits_only() {
    assert_eq!(parse_u64("0"), Some(0));
    assert_eq!(parse_u64("18446744073709551615"), Some(u64::MAX));
    assert_eq!(parse_u64("18446744073709551616"), None);
    assert_eq!(parse_u64(""), None);
    assert_eq!(parse_u64("+5"), None);
    assert_eq!(parse_u64("12 "), None);
    assert_eq!(parse_u8("255"), Some(255));
    assert_eq!(parse_u8("256"), None);
}

#[test]
fn recoverable_errors_map_to_their_replies() {
    assert_eq!(error_reply(FtpError::UnknownCommand).code(), 502);
    assert_eq!(error_reply(FtpError::InvalidArgumentCount).code(), 502);
    assert_eq!(error_reply(FtpError::InvalidDirectory).code(), 450);
    assert_eq!(error_reply(FtpError::MissingDataConnection).code(), 425);
}
