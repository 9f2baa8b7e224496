//! What a session is opened with and what it holds.

use crate::buffer::{split_lines, utf8_text, LineBuffer, LoadError};
use vstd::prelude::*;
use vstd::string::StringExecFns;

verus! {

/// The settings of a session.
#[derive(Debug)]
pub struct DlessConfig {
    /// log file to view
    pub filename: String,
}

impl Clone for DlessConfig {
    fn clone(&self) -> (copy: DlessConfig)
        ensures
            copy.filename@ == self.filename@,
    {
        DlessConfig { filename: self.filename.clone() }
    }
}

impl Default for DlessConfig {
    /// The settings of a session that was given no file name.
    fn default() -> (config: DlessConfig)
        ensures
            config.filename@ == "testdata/dlog0.log"@,
    {
        DlessConfig { filename: String::from_str("testdata/dlog0.log") }
    }
}

/// App holds the state of the application
pub struct App {
    filename: String,  // name of the log file to view
    lines: LineBuffer,  // lines of the log file
}

impl App {
    /// The name of the file on view, as a sequence of characters.
    pub closed spec fn title(&self) -> Seq<char> {
        self.filename@
    }

    /// The lines on view.
    pub closed spec fn text(&self) -> Seq<Seq<char>> {
        self.lines@
    }

    /// Opens a session on the file that `config` names and whose contents
    /// are `contents`. Contents that are not UTF-8 open no session.
    pub fn new(config: &DlessConfig, contents: &[u8]) -> (opened: Result<App, LoadError>)
        ensures
            match opened {
                Ok(app) => {
                    &&& app.title() == config.filename@
                    &&& utf8_text(contents@).is_some()
                    &&& app.text() == split_lines(utf8_text(contents@).unwrap())
                },
                Err(error) => utf8_text(contents@).is_none() && error == LoadError::InvalidUtf8,
            },
    {
        match LineBuffer::load(contents) {
            Ok(lines) => Ok(App { filename: config.filename.clone(), lines }),
            Err(error) => Err(error),
        }
    }

    /// The name of the file on view.
    pub fn filename(&self) -> (name: &str)
        ensures
            name@ == self.title(),
    {
        self.filename.as_str()
    }

    /// The lines on view.
    pub fn lines(&self) -> (buffer: &LineBuffer)
        ensures
            buffer@ == self.text(),
    {
        &self.lines
    }
}

} // verus!
