//! Naming of the log files that each service writes.

use vstd::prelude::*;
use crate::decimal::{decimal_text, push_decimal};

verus! {

/// The parts that make a log file's name unique: when the service started,
/// a random number, and which service it is.
pub struct FileNameIdentifiers {
    pub time_stamp: String,
    pub random_nbr: u32,
    pub name_suffix: String,
}

/// The path of the log file: `logs/<time_stamp>@<random_nbr>@<name_suffix>`.
pub open spec fn log_path_text(time_stamp: Seq<char>, random_nbr: nat, name_suffix: Seq<char>) -> Seq<char> {
    "logs/"@ + time_stamp + "@"@ + decimal_text(random_nbr) + "@"@ + name_suffix
}

impl FileNameIdentifiers {
    /// The path, under `logs/`, of the file that the logger writes to.
    pub fn log_file_path(&self) -> (res: String)
        ensures
            res@ == log_path_text(self.time_stamp@, self.random_nbr as nat, self.name_suffix@),
    {
        let mut path = String::from_str("logs/");
        path.append(self.time_stamp.as_str());
        path.append("@");
        push_decimal(&mut path, self.random_nbr);
        path.append("@");
        path.append(self.name_suffix.as_str());
        path
    }
}

} // verus!
