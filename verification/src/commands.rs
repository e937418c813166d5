//! Command registry: an ordered list of command definitions resolved from
//! recognized text by keyword containment, first match in declaration order.

use vstd::prelude::*;

use crate::text::{contains_substring, is_substring_of, lower_of, lowercase, trim_of, trimmed};

verus! {

/// The action a command performs when it is dispatched.
#[derive(Debug, Clone)]
pub enum CommandAction {
    /// Spawn an external process.
    RunProcess { command: String, args: Vec<String>, working_dir: Option<String> },
    /// Play a pre-recorded audio file.
    PlayAudio { file: String },
    /// Answer with a text phrase.
    RespondText { text: String },
}

/// One command of the registry.
#[derive(Debug, Clone)]
pub struct CommandDefinition {
    pub id: String,
    pub name: String,
    pub description: Option<String>,
    pub icon: Option<String>,
    /// Any of these keywords occurring in the normalized text activates the
    /// command.
    pub keywords: Vec<String>,
    pub action: CommandAction,
}

/// The ordered command list; earlier commands win ties.
#[derive(Debug, Clone)]
pub struct CommandLibrary {
    pub commands: Vec<CommandDefinition>,
}

/// A command matches normalized text when any of its keywords, lowercased,
/// is a substring of it.
pub open spec fn command_matches(cmd: CommandDefinition, normalized: Seq<char>) -> bool {
    exists|k: int|
        0 <= k < cmd.keywords@.len() && is_substring_of(normalized, lower_of(cmd.keywords@[k]@))
}

/// The two commands a fresh installation starts with.
pub open spec fn is_default_library(lib: CommandLibrary) -> bool {
    &&& lib.commands@.len() == 2
    &&& lib.commands@[0].id@ == "greeting"@
    &&& lib.commands@[0].keywords@.len() == 2
    &&& lib.commands@[0].keywords@[0]@ == "привет"@
    &&& lib.commands@[0].keywords@[1]@ == "здравствуй"@
    &&& lib.commands@[0].action is RespondText
    &&& lib.commands@[1].id@ == "time"@
    &&& lib.commands@[1].keywords@.len() == 2
    &&& lib.commands@[1].keywords@[0]@ == "который час"@
    &&& lib.commands@[1].keywords@[1]@ == "время"@
    &&& lib.commands@[1].action is RunProcess
}

impl CommandLibrary {
    /// Uses an already-parsed command file when one was found, and falls
    /// back to the built-in library otherwise.
    pub fn load_or_default(parsed: Option<CommandLibrary>) -> (r: CommandLibrary)
        ensures
            match parsed {
                Some(lib) => r == lib,
                None => is_default_library(r),
            },
    {
        match parsed {
            Some(lib) => lib,
            None => Self::default_library(),
        }
    }

    /// Position of the first command any of whose keywords occurs in the
    /// normalized (trimmed, lowercased) text; `None` when no command
    /// matches.
    pub fn find_index_by_text(&self, recognized: &str) -> (r: Option<usize>)
        ensures
            match r {
                Some(i) => {
                    &&& i < self.commands@.len()
                    &&& command_matches(self.commands@[i as int], lower_of(trim_of(recognized@)))
                    &&& forall|j: int|
                        0 <= j < i ==> !command_matches(
                            #[trigger] self.commands@[j],
                            lower_of(trim_of(recognized@)),
                        )
                },
                None => forall|j: int|
                    0 <= j < self.commands@.len() ==> !command_matches(
                        #[trigger] self.commands@[j],
                        lower_of(trim_of(recognized@)),
                    ),
            },
    {
        let normalized = lowercase(trimmed(recognized));
        let mut i: usize = 0;
        while i < self.commands.len()
            invariant
                i <= self.commands@.len(),
                normalized@ == lower_of(trim_of(recognized@)),
                forall|j: int|
                    0 <= j < i ==> !command_matches(
                        #[trigger] self.commands@[j],
                        lower_of(trim_of(recognized@)),
                    ),
            decreases self.commands@.len() - i,
        {
            let cmd = &self.commands[i];
            let mut k: usize = 0;
            while k < cmd.keywords.len()
                invariant
                    k <= cmd.keywords@.len(),
                    cmd == self.commands@[i as int],
                    i < self.commands@.len(),
                    normalized@ == lower_of(trim_of(recognized@)),
                    forall|j: int|
                        0 <= j < i ==> !command_matches(
                            #[trigger] self.commands@[j],
                            lower_of(trim_of(recognized@)),
                        ),
                    forall|kk: int|
                        0 <= kk < k ==> !is_substring_of(
                            lower_of(trim_of(recognized@)),
                            lower_of(#[trigger] cmd.keywords@[kk]@),
                        ),
                decreases cmd.keywords@.len() - k,
            {
                let keyword = lowercase(cmd.keywords[k].as_str());
                if contains_substring(normalized.as_str(), keyword.as_str()) {
                    proof {
                        assert(is_substring_of(
                            lower_of(trim_of(recognized@)),
                            lower_of(cmd.keywords@[k as int]@),
                        ));
                        assert(command_matches(self.commands@[i as int], lower_of(trim_of(recognized@))));
                    }
                    return Some(i);
                }
                k = k + 1;
            }
            assert(!command_matches(self.commands@[i as int], lower_of(trim_of(recognized@))));
            i = i + 1;
        }
        None
    }

    /// Resolves recognized text to at most one command: the first one, in
    /// declaration order, with a keyword contained in the normalized
    /// (trimmed, lowercased) text.
    pub fn find_by_text<'a>(&'a self, recognized: &str) -> (r: Option<&'a CommandDefinition>)
        ensures
            match r {
                Some(cmd) => exists|i: int|
                    {
                        &&& 0 <= i < self.commands@.len()
                        &&& *cmd == self.commands@[i]
                        &&& command_matches(self.commands@[i], lower_of(trim_of(recognized@)))
                        &&& forall|j: int|
                            0 <= j < i ==> !command_matches(
                                #[trigger] self.commands@[j],
                                lower_of(trim_of(recognized@)),
                            )
                    },
                None => forall|j: int|
                    0 <= j < self.commands@.len() ==> !command_matches(
                        #[trigger] self.commands@[j],
                        lower_of(trim_of(recognized@)),
                    ),
            },
    {
        match self.find_index_by_text(recognized) {
            Some(i) => Some(&self.commands[i]),
            None => None,
        }
    }

    /// The built-in library: a greeting command and a current-time command.
    pub fn default_library() -> (r: CommandLibrary)
        ensures
            is_default_library(r),
    {
        let mut greeting_keywords: Vec<String> = Vec::new();
        greeting_keywords.push(String::from_str("привет"));
        greeting_keywords.push(String::from_str("здравствуй"));
        let greeting = CommandDefinition {
            id: String::from_str("greeting"),
            name: String::from_str("Приветствие"),
            description: Some(String::from_str("Отвечает на приветствие")),
            icon: None,
            keywords: greeting_keywords,
            action: CommandAction::RespondText {
                text: String::from_str("Здравствуйте, сэр. Чем могу помочь?"),
            },
        };

        let mut time_keywords: Vec<String> = Vec::new();
        time_keywords.push(String::from_str("который час"));
        time_keywords.push(String::from_str("время"));
        let mut time_args: Vec<String> = Vec::new();
        time_args.push(String::from_str("/C"));
        time_args.push(String::from_str("time /T"));
        let time = CommandDefinition {
            id: String::from_str("time"),
            name: String::from_str("Текущее время"),
            description: Some(String::from_str("Сообщает текущее время")),
            icon: None,
            keywords: time_keywords,
            action: CommandAction::RunProcess {
                command: String::from_str("cmd"),
                args: time_args,
                working_dir: None,
            },
        };

        let mut commands: Vec<CommandDefinition> = Vec::new();
        commands.push(greeting);
        commands.push(time);
        CommandLibrary { commands }
    }
}

/// Why dispatching a command failed.
#[derive(Debug, Clone, Copy, PartialEq, Eq, Structural)]
pub enum ExecError {
    /// The external process of a `RunProcess` action could not be spawned.
    SpawnFailed,
}

/// The outcome of dispatching an action, given whether its process could
/// be spawned: only a failed spawn is an error.  A spawned process that
/// exits non-zero still counts as dispatched (the command ran, its outcome
/// is uncertain), and the actions handled by playback and text collaborators
/// always succeed.
pub fn action_outcome(action: &CommandAction, spawn_succeeded: bool) -> (r: Result<(), ExecError>)
    ensures
        match action {
            CommandAction::RunProcess { .. } => r is Ok <==> spawn_succeeded,
            _ => r is Ok,
        },
        r is Err ==> r == Result::<(), ExecError>::Err(ExecError::SpawnFailed),
{
    match action {
        CommandAction::RunProcess { .. } => {
            if spawn_succeeded {
                Ok(())
            } else {
                Err(ExecError::SpawnFailed)
            }
        },
        CommandAction::PlayAudio { .. } => Ok(()),
        CommandAction::RespondText { .. } => Ok(()),
    }
}

/// The GUI-side command descriptor; its lookup is not implemented there.
#[derive(Debug, Clone, Default)]
pub struct CommandConfig {
    pub name: String,
}

/// The GUI-side command lookup, a placeholder in the front end: it never
/// finds a command.
pub fn fetch_command<'a>(text: &str, commands: &'a [CommandConfig]) -> (r: Option<
    &'a CommandConfig,
>)
    ensures
        r is None,
{
    None
}

} // verus!
