use vstd::prelude::*;

use crate::adapters::web_url::{spec_url_from_file_path, spec_url_parse, WebUrl};
use crate::adapters::Cli;

verus! {

/// What to check: a local file, or a site by its URL.
pub enum CheckCommand {
    CheckFile { file: String },
    CheckUrl { url: WebUrl },
}

/// Why no check can be made of the command line.
pub enum CommandError {
    /// The file path gives no `file:` URL (it is not absolute).
    InvalidFilePath { path: String },
    /// The URL does not parse as an absolute URL.
    InvalidUrl { url: String },
    /// Neither a file nor a URL was given.
    MissingTarget,
}

impl CheckCommand {
    /// The command the command line asks for: a file, where one is given, else the URL.
    pub fn from_cli(cli: &Cli) -> (res: Result<CheckCommand, CommandError>)
        ensures
            match cli.file {
                Some(path) => res matches Ok(CheckCommand::CheckFile { file }) && file@ == path@,
                None => match cli.url {
                    Some(text) => match spec_url_parse(text@) {
                        Some(href) => res matches Ok(CheckCommand::CheckUrl { url }) && url@ == href,
                        None => res matches Err(CommandError::InvalidUrl { url }) && url@ == text@,
                    },
                    None => res matches Err(CommandError::MissingTarget),
                },
            },
    {
        match (&cli.file, &cli.url) {
            (Some(path), _) => Ok(CheckCommand::CheckFile { file: path.clone() }),
            (None, Some(text)) => match WebUrl::parse(text.as_str()) {
                Some(url) => Ok(CheckCommand::CheckUrl { url }),
                None => Err(CommandError::InvalidUrl { url: text.clone() }),
            },
            (None, None) => Err(CommandError::MissingTarget),
        }
    }

    /// The URL the check starts from: the given URL, or the `file:` URL of the given path.
    pub fn start_url(self) -> (res: Result<WebUrl, CommandError>)
        ensures
            match self {
                CheckCommand::CheckUrl { url } => res matches Ok(u) && u@ == url@,
                CheckCommand::CheckFile { file } => match spec_url_from_file_path(file@) {
                    Some(href) => res matches Ok(u) && u@ == href && u@.len() >= 7
                        && u@.subrange(0, 7) == "file://"@,
                    None => res matches Err(CommandError::InvalidFilePath { path }) && path@ == file@,
                },
            },
    {
        match self {
            CheckCommand::CheckUrl { url } => Ok(url),
            CheckCommand::CheckFile { file } => match WebUrl::from_file_path(file.as_str()) {
                Some(url) => Ok(url),
                None => Err(CommandError::InvalidFilePath { path: file }),
            },
        }
    }
}

} // verus!
