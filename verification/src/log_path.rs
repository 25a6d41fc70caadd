//! Where the log of a run is kept: one directory per date, one file per start.

use vstd::prelude::*;
use vstd::string::*;

verus! {

/// The directory that holds the logs of one date.
pub open spec fn log_directory_text(date: Seq<char>) -> Seq<char> {
    "log/"@ + date
}

/// The log file of the run that started at `time_stamp` on `date`.
pub open spec fn log_file_text(date: Seq<char>, time_stamp: Seq<char>) -> Seq<char> {
    "./log/"@ + date + "/system_stat_log_"@ + time_stamp + ".log"@
}

/// The directory that holds the logs of one date, relative to where the
/// program runs.
pub fn log_directory(date: &str) -> (path: String)
    ensures
        path@ == log_directory_text(date@),
{
    let mut path: String = "log/".to_owned();
    path.append(date);
    path
}

/// The log file of the run that started at `time_stamp` on `date`.
pub fn log_file_path(date: &str, time_stamp: &str) -> (path: String)
    ensures
        path@ == log_file_text(date@, time_stamp@),
{
    let mut path: String = "./log/".to_owned();
    path.append(date);
    path.append("/system_stat_log_");
    path.append(time_stamp);
    path.append(".log");
    path
}

} // verus!
