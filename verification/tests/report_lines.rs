use gatherfiles::report::count_field;
use gatherfiles::report::decimal_string;
use gatherfiles::report::detail_line;
use gatherfiles::report::fatal_message;
use gatherfiles::report::summary_lines;
use gatherfiles::report::warn_line;

#[test]
fn decimal_of_zero() {
    assert_eq!(decimal_string(0), "0");
}

#[test]
fn decimal_of_a_large_number() {
    assert_eq!(decimal_string(40567), "40567");
}

#[test]
fn count_field_right_aligns_to_width_five() {
    assert_eq!(count_field(7), "    7");
    assert_eq!(count_field(40), "   40");
}

#[test]
fn count_field_keeps_a_five_digit_number() {
    assert_eq!(count_field(12345), "12345");
}

#[test]
fn count_field_keeps_a_wider_number_whole() {
    assert_eq!(count_field(123456), "123456");
}

#[test]
fn detail_line_marks_a_move() {
    assert_eq!(detail_line("a.txt", "out/a.txt", true), "  a.txt --> out/a.txt");
}

#[test]
fn detail_line_marks_a_copy() {
    assert_eq!(detail_line("a.txt", "out/a.txt", false), "  a.txt ==> out/a.txt");
}

#[test]
fn warn_line_names_the_operation() {
    assert_eq!(
        warn_line("a.txt", "out/a.txt", false),
        "Unable to copy a.txt to out/a.txt. Continuing."
    );
    assert_eq!(
        warn_line("a.txt", "out/a.txt", true),
        "Unable to move a.txt to out/a.txt. Continuing."
    );
}

#[test]
fn fatal_message_embeds_error_paths_and_operation() {
    assert_eq!(
        fatal_message("disk full", "a.txt", "out/a.txt", true),
        "Error: disk full. Unable to move a.txt to out/a.txt. Halting."
    );
    assert_eq!(
        fatal_message("disk full", "a.txt", "out/a.txt", false),
        "Error: disk full. Unable to copy a.txt to out/a.txt. Halting."
    );
}

#[test]
fn summary_lines_for_a_copy_run() {
    let lines = summary_lines(false, 2, 2, 0);
    assert_eq!(lines.len(), 3);
    assert_eq!(lines[0], "Total files examined:            2");
    assert_eq!(lines[1], "Files copied:                    2");
    assert_eq!(lines[2], "Files skipped due to errors:     0");
}

#[test]
fn summary_lines_for_a_move_run() {
    let lines = summary_lines(true, 12345, 12000, 345);
    assert_eq!(lines[0], "Total files examined:        12345");
    assert_eq!(lines[1], "Files moved:                 12000");
    assert_eq!(lines[2], "Files skipped due to errors:   345");
}
