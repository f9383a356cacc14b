//! Opening the configuration file in the program registered for it.
use vstd::prelude::*;

verus! {

/// The words of the command that opens a file in the program registered for it.
pub open spec fn command_words(path: Seq<char>) -> Seq<Seq<char>> {
    seq!["cmd"@, "/C"@, "start"@, ""@, path]
}

/// The command, with its arguments, that opens a file in the program registered
/// for it.
pub fn open_command(path: &str) -> (command: Vec<String>)
    ensures
        command@.len() == 5,
        command@[0]@ == "cmd"@,
        command@[1]@ == "/C"@,
        command@[2]@ == "start"@,
        command@[3]@ == ""@,
        command@[4]@ == path@,
        command@.len() == command_words(path@).len(),
        forall|i: int|
            0 <= i < command@.len() ==> (#[trigger] command@[i])@ == command_words(path@)[i],
{
    let mut command: Vec<String> = Vec::new();
    command.push("cmd".to_owned());
    command.push("/C".to_owned());
    command.push("start".to_owned());
    command.push("".to_owned());
    command.push(path.to_owned());
    command
}

/// Why the configuration file could not be opened.
#[derive(Debug, PartialEq, Eq)]
pub enum OpenFailure {
    /// It was not found.
    Path(String),
    /// Its path is not Unicode.
    NotUnicode,
    /// The command that opens it could not be started.
    Launch(String),
}

impl Clone for OpenFailure {
    fn clone(&self) -> (copy: Self)
        ensures
            copy == *self,
    {
        match self {
            OpenFailure::Path(cause) => OpenFailure::Path(cause.clone()),
            OpenFailure::NotUnicode => OpenFailure::NotUnicode,
            OpenFailure::Launch(cause) => OpenFailure::Launch(cause.clone()),
        }
    }
}

impl OpenFailure {
    /// What the message says.
    pub open spec fn text(self) -> Seq<char> {
        match self {
            OpenFailure::Path(cause) => cause@,
            OpenFailure::NotUnicode => "config path is not valid UTF-8"@,
            OpenFailure::Launch(cause) => "launch failed: "@ + cause@,
        }
    }

    /// The message for the user.
    pub fn message(&self) -> (message: String)
        ensures
            message@ == self.text(),
            message@ == match *self {
                OpenFailure::Path(cause) => cause@,
                OpenFailure::NotUnicode => "config path is not valid UTF-8"@,
                OpenFailure::Launch(cause) => "launch failed: "@ + cause@,
            },
    {
        match self {
            OpenFailure::Path(cause) => cause.clone(),
            OpenFailure::NotUnicode => "config path is not valid UTF-8".to_owned(),
            OpenFailure::Launch(cause) => "launch failed: ".to_owned().concat(cause.as_str()),
        }
    }
}

/// The path that is to be opened, from what the search for it gave: a path, or
/// none where it is not Unicode, or why there is no path.
pub fn path_to_open(found: Result<Option<String>, String>) -> (path: Result<String, OpenFailure>)
    ensures
        path == match found {
            Ok(Some(text)) => Ok::<String, OpenFailure>(text),
            Ok(None) => Err(OpenFailure::NotUnicode),
            Err(cause) => Err(OpenFailure::Path(cause)),
        },
{
    match found {
        Ok(Some(text)) => Ok(text),
        Ok(None) => Err(OpenFailure::NotUnicode),
        Err(cause) => Err(OpenFailure::Path(cause)),
    }
}

/// How the opening of the configuration file ends, from what the search for its
/// path gave and whether the command was started. The start counts only where
/// there is a path to open, and how the command ends counts nowhere.
pub open spec fn opened(
    found: Result<Option<String>, String>,
    started: Result<(), String>,
) -> Result<(), OpenFailure> {
    match (found, started) {
        (Ok(Some(_)), Ok(_)) => Ok(()),
        (Ok(Some(_)), Err(cause)) => Err(OpenFailure::Launch(cause)),
        (Ok(None), _) => Err(OpenFailure::NotUnicode),
        (Err(cause), _) => Err(OpenFailure::Path(cause)),
    }
}

/// How the opening of the configuration file ends: well if and only if its path
/// was found, is Unicode, and the command was started.
pub fn open_config_file(
    found: Result<Option<String>, String>,
    started: Result<(), String>,
) -> (outcome: Result<(), OpenFailure>)
    ensures
        outcome == opened(found, started),
        outcome is Ok <==> (found matches Ok(Some(_)) && started is Ok),
{
    match path_to_open(found) {
        Ok(_) => match started {
            Ok(_) => Ok(()),
            Err(cause) => Err(OpenFailure::Launch(cause)),
        },
        Err(failure) => Err(failure),
    }
}

} // verus!
