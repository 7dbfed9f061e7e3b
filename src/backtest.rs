//! Replay sessions that show the order book of data files.
use crate::display::OrderBookDisplay;
use vstd::prelude::*;

verus! {

/// Why a session could not be set up.
#[derive(Clone, Copy, Debug, PartialEq, Eq, Structural)]
pub enum SessionError {
    /// No data file was given.
    NoDataFiles,
}

/// Replays one data file and shows its book.
pub struct BacktestRunner {
    pub data_file: String,
    pub display: OrderBookDisplay,
}

impl BacktestRunner {
    pub fn new(data_file: String, display: OrderBookDisplay) -> (r: BacktestRunner)
        ensures
            r.data_file == data_file,
            r.display == display,
    {
        BacktestRunner { data_file, display }
    }
}

/// Replays data files in order and prints their books.
pub struct PrintDepthRunner {
    pub data_files: Vec<String>,
    pub display: OrderBookDisplay,
}

impl PrintDepthRunner {
    /// Fails when there is no file to replay.
    pub fn new(data_files: Vec<String>, display: OrderBookDisplay) -> (r: Result<
        PrintDepthRunner,
        SessionError,
    >)
        ensures
            data_files@.len() == 0 <==> r is Err,
            r matches Ok(p) ==> p.data_files@ == data_files@ && p.display == display,
            r matches Err(e) ==> e == SessionError::NoDataFiles,
    {
        if data_files.len() == 0 {
            Err(SessionError::NoDataFiles)
        } else {
            Ok(PrintDepthRunner { data_files, display })
        }
    }
}

} // verus!
