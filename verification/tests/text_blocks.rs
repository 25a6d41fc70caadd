use system_monitor::log_path::{log_directory, log_file_path};
use system_monitor::text::{array_to_string_print, sentinel};

#[test]
fn sentinel_is_minus_one() {
    assert_eq!(sentinel(), "-1");
}

#[test]
fn empty_list_renders_as_empty_text() {
    assert_eq!(array_to_string_print(Vec::new()), "");
}

#[test]
fn single_line_renders_as_block() {
    let text = array_to_string_print(vec!["a".to_string()]);
    assert_eq!(text, "{\n\t\ta\n\t}");
}

#[test]
fn lines_keep_their_order() {
    let text = array_to_string_print(vec![
        "first".to_string(),
        "second".to_string(),
        "third".to_string(),
    ]);
    assert_eq!(text, "{\n\t\tfirst\n\t\tsecond\n\t\tthird\n\t}");
}

#[test]
fn empty_line_still_gets_its_own_line() {
    let text = array_to_string_print(vec![String::new()]);
    assert_eq!(text, "{\n\t\t\n\t}");
}

#[test]
fn log_directory_is_partitioned_by_date() {
    assert_eq!(log_directory("2024-01-01"), "log/2024-01-01");
}

#[test]
fn log_file_path_holds_date_and_time_stamp() {
    assert_eq!(
        log_file_path("2024-01-01", "2024-01-01_00:00:00"),
        "./log/2024-01-01/system_stat_log_2024-01-01_00:00:00.log"
    );
}
