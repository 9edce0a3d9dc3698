use osix_firmware::error::{AppError, AppResult};
use osix_firmware::sdcard::{
    is_gcode_file_name, list_gcode_files, strip_line_ending, LineSource, PrintJob, PrintJobState,
};
use std::collections::VecDeque;

struct Lines(VecDeque<String>);

impl Lines {
    fn of(text: &str) -> Lines {
        Lines(text.lines().map(|l| l.to_string()).collect())
    }
}

impl LineSource for Lines {
    fn next_line(&mut self) -> AppResult<Option<String>> {
        Ok(self.0.pop_front())
    }
}

struct Broken;

impl LineSource for Broken {
    fn next_line(&mut self) -> AppResult<Option<String>> {
        Err(AppError::Io("обрыв".to_string()))
    }
}

#[test]
fn lists_only_gcode_files_sorted_by_name() {
    let names = vec!["b.gcode".to_string(), "a.gco".to_string(), "readme.txt".to_string()];
    let files = list_gcode_files(&names);
    assert_eq!(files, vec!["a.gco".to_string(), "b.gcode".to_string()]);
}

#[test]
fn listing_sorts_like_strings() {
    let names: Vec<String> =
        ["z.GCODE", "part2.gco", "Part1.gcode", ".gcode", "notes.gcode.txt", "ä.gcode", "b.gcode"]
            .iter()
            .map(|s| s.to_string())
            .collect();
    let files = list_gcode_files(&names);
    let mut expected: Vec<String> =
        ["z.GCODE", "part2.gco", "Part1.gcode", "ä.gcode", "b.gcode"].iter().map(|s| s.to_string()).collect();
    expected.sort();
    assert_eq!(files, expected);
}

#[test]
fn gcode_extension_rules() {
    assert!(is_gcode_file_name("a.gcode"));
    assert!(is_gcode_file_name("A.GCO"));
    assert!(is_gcode_file_name(".hidden.gcode"));
    assert!(!is_gcode_file_name(".gcode"));
    assert!(!is_gcode_file_name("gcode"));
    assert!(!is_gcode_file_name("a.gcodes"));
    assert!(!is_gcode_file_name("a."));
    assert!(!is_gcode_file_name(".."));
}

#[test]
fn line_endings_are_stripped() {
    assert_eq!(strip_line_ending("G28\r\n".to_string()), "G28");
    assert_eq!(strip_line_ending("G1 X10\n\n".to_string()), "G1 X10");
    assert_eq!(strip_line_ending("M105".to_string()), "M105");
    assert_eq!(strip_line_ending("\r\n".to_string()), "");
}

#[test]
fn print_job_completes_after_last_line() {
    let mut job = PrintJob::start("job.gcode".to_string(), Lines::of("G28\nG1 X1\n"));
    assert_eq!(job.next_command().unwrap(), Some("G28".to_string()));
    assert_eq!(job.state(), PrintJobState::Printing);
    assert_eq!(job.next_command().unwrap(), Some("G1 X1".to_string()));
    assert_eq!(job.next_command().unwrap(), None);
    assert_eq!(job.state(), PrintJobState::Completed);
    assert_eq!(job.lines_sent(), 2);
    assert_eq!(job.file_name(), "job.gcode");
}

#[test]
fn print_job_pause_blocks_next_command_until_resumed() {
    let mut job = PrintJob::start("job.gcode".to_string(), Lines::of("G28\nG1 X1\n"));
    job.pause();
    assert_eq!(job.next_command().unwrap(), None, "на паузе новые строки не выдаются");
    job.resume();
    assert_eq!(job.next_command().unwrap(), Some("G28".to_string()));
}

#[test]
fn print_job_abort_is_terminal() {
    let mut job = PrintJob::start("job.gcode".to_string(), Lines::of("G28\n"));
    job.abort();
    assert_eq!(job.next_command().unwrap(), None);
    job.resume();
    assert_eq!(job.state(), PrintJobState::Aborted);
}

#[test]
fn print_job_read_error_keeps_printing() {
    let mut job = PrintJob::start("job.gcode".to_string(), Broken);
    assert!(job.next_command().is_err());
    assert_eq!(job.state(), PrintJobState::Printing);
    assert_eq!(job.lines_sent(), 0);
}

#[test]
fn line_read_outcomes_drive_the_job() {
    let mut job = PrintJob::start("job.gcode".to_string(), Lines::of(""));
    assert_eq!(job.on_line_read(Ok(Some("G28".to_string()))).unwrap(), Some("G28".to_string()));
    assert_eq!(job.lines_sent(), 1);
    assert!(job.on_line_read(Err(AppError::Io("обрыв".to_string()))).is_err());
    assert_eq!(job.state(), PrintJobState::Printing);
    assert_eq!(job.lines_sent(), 1);
    assert_eq!(job.on_line_read(Ok(None)).unwrap(), None);
    assert_eq!(job.state(), PrintJobState::Completed);
}

#[test]
fn listing_of_distinct_names_is_strictly_ascending() {
    let names: Vec<String> = ["c.gco", "a.gcode", "b.gcode", "a.gco"].iter().map(|s| s.to_string()).collect();
    let files = list_gcode_files(&names);
    assert_eq!(files, vec!["a.gco", "a.gcode", "b.gcode", "c.gco"]);
    assert!(files.windows(2).all(|w| w[0] < w[1]));
}
