use orbutils::process_info::{
    get_process_info, get_processes, parse_process_info, parse_processes, MIN_FIELDS, NO_NAME,
};

const LIST: &str = "PID   PPID  RUID  RGID  RNS   EUID  EGID  ENS   STAT  CPU   MEM        NAME\n\
1     0     0     0     1     0     0     1     R     3     1 MB       init\n\
\n\
2     1     0     0     1     0     0     1     B     0     512 KB     /bin/sh\n\
17    2     1000  1000  2     1000  1000  2     RW   #1     12 MB\n";

#[test]
fn constants() {
    assert_eq!(MIN_FIELDS, 12);
    assert_eq!(NO_NAME, "N/A");
}

#[test]
fn process_line_with_name() {
    let info = get_process_info("1 0 2 3 4 5 6 7 R 9 1 MB init".to_string());
    assert_eq!(info.pid, "1");
    assert_eq!(info.ppid, "0");
    assert_eq!(info.ruid, "2");
    assert_eq!(info.rgid, "3");
    assert_eq!(info.rns, "4");
    assert_eq!(info.euid, "5");
    assert_eq!(info.egid, "6");
    assert_eq!(info.ens, "7");
    assert_eq!(info.stat, "R");
    assert_eq!(info.cpu, "9");
    assert_eq!(info.mem, "1 MB");
    assert_eq!(info.name, "init");
}

#[test]
fn process_line_without_name() {
    let info = get_process_info("17 2 1000 1000 2 1000 1000 2 RW #1 12 MB".to_string());
    assert_eq!(info.pid, "17");
    assert_eq!(info.cpu, "#1");
    assert_eq!(info.mem, "12 MB");
    assert_eq!(info.name, "N/A");
}

#[test]
fn fields_after_the_name_are_dropped() {
    let info = get_process_info("  1 0 0 0 0 0 0 0 R 0 4\tKB \t name with words ".to_string());
    assert_eq!(info.mem, "4 KB");
    assert_eq!(info.name, "name");
}

#[test]
fn short_line_is_no_process() {
    assert!(parse_process_info("1 0 0 0 0 0 0 0 R 0 4").is_none());
    assert!(parse_process_info("").is_none());
    assert!(parse_process_info("   ").is_none());
}

#[test]
fn line_with_twelve_fields_is_a_process() {
    let info = parse_process_info("a b c d e f g h i j k l").expect("twelve fields are enough");
    assert_eq!(info.pid, "a");
    assert_eq!(info.cpu, "j");
    assert_eq!(info.mem, "k l");
    assert_eq!(info.name, "N/A");
}

#[test]
fn process_list_without_titles_and_empty_lines() {
    let list = get_processes(LIST);
    assert_eq!(list.len(), 3);
    assert_eq!(list[0].pid, "1");
    assert_eq!(list[0].name, "init");
    assert_eq!(list[0].mem, "1 MB");
    assert_eq!(list[1].pid, "2");
    assert_eq!(list[1].ppid, "1");
    assert_eq!(list[1].mem, "512 KB");
    assert_eq!(list[1].name, "/bin/sh");
    assert_eq!(list[2].pid, "17");
    assert_eq!(list[2].ruid, "1000");
    assert_eq!(list[2].name, "N/A");
}

#[test]
fn process_list_with_titles_only() {
    assert_eq!(get_processes("PID PPID\n").len(), 0);
    assert_eq!(get_processes("").len(), 0);
    assert_eq!(get_processes("\n\n").len(), 0);
    assert_eq!(parse_processes("short titles").map(|l| l.len()), Some(0));
}

#[test]
fn process_list_with_a_short_line_is_refused() {
    assert!(parse_processes("titles\n1 2 3\n").is_none());
    assert!(parse_processes("titles\n1 0 0 0 0 0 0 0 R 0 1 MB a\n \n").is_none());
    let long_titles = "a b c d e f g h i j k l\nshort\n";
    assert!(parse_processes(long_titles).is_none());
}

#[test]
fn first_filled_line_is_never_a_process() {
    let text = "\n\n1 0 0 0 0 0 0 0 R 0 1 MB first\n2 0 0 0 0 0 0 0 R 0 1 MB second\n";
    let list = parse_processes(text).expect("every process line is whole");
    assert_eq!(list.len(), 1);
    assert_eq!(list[0].name, "second");
}
