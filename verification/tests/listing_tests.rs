use ftpy::listing::{
    format_list_date, format_mlsd_time, list_line, mlsd_line, permissions_to_machine_string,
    permissions_to_string, DateParts, EntryMeta,
};

fn sample_date() -> DateParts {
    DateParts { year: 2024, month: 3, day: 5, hour: 9, minute: 7, second: 2 }
}

#[test]
fn permission_characters_follow_the_mask_families() {
    assert_eq!(permissions_to_string(0o755), "rwx--xrwx");
    assert_eq!(permissions_to_string(0o644), "rwx--x---");
    assert_eq!(permissions_to_string(0), "---------");
    assert_eq!(permissions_to_string(0o777), "rwxrwxrwx");
}

#[test]
fn machine_permissions_for_directories() {
    assert_eq!(permissions_to_machine_string(true, 0o755), "ela");
    assert_eq!(permissions_to_machine_string(true, 0o1700), "elac");
    assert_eq!(permissions_to_machine_string(true, 0), "");
}

#[test]
fn machine_permissions_for_files() {
    assert_eq!(permissions_to_machine_string(false, 0o755), "rr");
    assert_eq!(permissions_to_machine_string(false, 0o020), "w");
    assert_eq!(permissions_to_machine_string(false, 0), "");
}

#[test]
fn list_date_pads_the_day_with_a_space() {
    assert_eq!(format_list_date(&sample_date()), " 5 Mar 24 09:07");
    let later = DateParts { year: 1999, month: 12, day: 31, hour: 23, minute: 59, second: 0 };
    assert_eq!(format_list_date(&later), "31 Dec 99 23:59");
}

#[test]
fn mlsd_time_is_fourteen_zero_padded_digits() {
    assert_eq!(format_mlsd_time(&sample_date()), "20240305090702");
    let early = DateParts { year: 987, month: 1, day: 2, hour: 3, minute: 4, second: 5 };
    assert_eq!(format_mlsd_time(&early), "09870102030405");
}

#[test]
fn list_line_renders_the_unix_style_row() {
    let entry = EntryMeta {
        name: "notes.txt".to_string(),
        is_dir: false,
        size: 14,
        links: 1,
        uid: 1000,
        gid: 100,
        mode: 0o644,
        modified: sample_date(),
    };
    assert_eq!(
        list_line(&entry),
        "-rwx--x--- 1 1000 100  5 Mar 24 09:07 notes.txt\r\n"
    );
}

#[test]
fn list_line_marks_directories() {
    let entry = EntryMeta {
        name: "music".to_string(),
        is_dir: true,
        size: 4096,
        links: 2,
        uid: 0,
        gid: 0,
        mode: 0o755,
        modified: sample_date(),
    };
    assert!(list_line(&entry).starts_with("drwx--xrwx 2 0 0 "));
}

#[test]
fn mlsd_line_renders_the_machine_facts() {
    let entry = EntryMeta {
        name: "notes.txt".to_string(),
        is_dir: false,
        size: 14,
        links: 1,
        uid: 1000,
        gid: 100,
        mode: 0o644,
        modified: sample_date(),
    };
    assert_eq!(
        mlsd_line(&entry),
        "Type=file;Size=14;Modify=20240305090702;Perm=r notes.txt\r\n"
    );
    let dir = EntryMeta {
        name: "music".to_string(),
        is_dir: true,
        size: 4096,
        links: 2,
        uid: 0,
        gid: 0,
        mode: 0o755,
        modified: sample_date(),
    };
    assert_eq!(
        mlsd_line(&dir),
        "Type=dir;Size=4096;Modify=20240305090702;Perm=ela music\r\n"
    );
}
