//! Extracting the title of a fetched web page and reporting it as one line.
//!
//! Fetching is left to the caller: the library works on the command-line
//! arguments and on the text of the response body.
pub mod args;
pub mod document;
pub mod report;
