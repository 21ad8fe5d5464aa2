//! The command line.

use crate::config::{EnvVars, SttConfig, SttConfigView, SttError, SttErrorView};
use crate::text::same_text;
use vstd::prelude::*;

verus! {

/// What the command line asks for.
#[derive(Debug)]
pub enum Command {
    /// Run the daemon, with models in another directory where one is given.
    Start {
        /// The directory, if one is given.
        models_root: Option<String>,
    },
    /// Ask the running daemon to change its model.
    ReloadModel {
        /// Name of the model.
        name: String,
    },
    /// Say what the program is for.
    Usage,
}

/// A [`Command`] with its texts as sequences of characters.
pub enum CommandView {
    Start { models_root: Option<Seq<char>> },
    ReloadModel { name: Seq<char> },
    Usage,
}

impl View for Command {
    type V = CommandView;

    open spec fn view(&self) -> CommandView {
        match self {
            Command::Start { models_root } => CommandView::Start {
                models_root: models_root.deep_view(),
            },
            Command::ReloadModel { name } => CommandView::ReloadModel { name: name@ },
            Command::Usage => CommandView::Usage,
        }
    }
}

/// The command for the arguments that follow the program's name.
pub open spec fn command_of(args: Seq<Seq<char>>) -> CommandView {
    if args.len() == 1 && args[0] == "start"@ {
        CommandView::Start { models_root: None }
    } else if args.len() == 3 && args[0] == "start"@ && args[1] == "--models-root"@ {
        CommandView::Start { models_root: Some(args[2]) }
    } else if args.len() == 2 && args[0] == "reload-model"@ {
        CommandView::ReloadModel { name: args[1] }
    } else {
        CommandView::Usage
    }
}

/// Reads the arguments that follow the program's name.
pub fn parse_command(args: &Vec<String>) -> (command: Command)
    ensures
        command@ == command_of(args.deep_view()),
{
    if args.len() == 1 && same_text(args[0].as_str(), "start") {
        Command::Start { models_root: None }
    } else if args.len() == 3 && same_text(args[0].as_str(), "start") && same_text(
        args[1].as_str(),
        "--models-root",
    ) {
        Command::Start { models_root: Some(args[2].as_str().to_owned()) }
    } else if args.len() == 2 && same_text(args[0].as_str(), "reload-model") {
        Command::ReloadModel { name: args[1].as_str().to_owned() }
    } else {
        Command::Usage
    }
}

/// The settings of a daemon that is started: those of the environment, with the
/// directory of the models from the command line where one is given there.
pub open spec fn start_settings(vars: EnvVars, models_root: Option<Seq<char>>) -> Result<
    SttConfigView,
    SttErrorView,
> {
    match (vars.outcome(), models_root) {
        (Ok(config), Some(root)) => Ok(SttConfigView { models_root: root, ..config }),
        (outcome, _) => outcome,
    }
}

/// Builds the settings of a daemon that is started.
pub fn start_config(vars: EnvVars, models_root: Option<String>) -> (result: Result<
    SttConfig,
    SttError,
>)
    ensures
        result is Ok <==> start_settings(vars, models_root.deep_view()) is Ok,
        result matches Ok(config) ==> config@.valid() && start_settings(
            vars,
            models_root.deep_view(),
        ) == Ok::<_, SttErrorView>(config@),
        result matches Err(e) ==> start_settings(vars, models_root.deep_view()) == Err::<
            SttConfigView,
            _,
        >(e@),
{
    match (SttConfig::from_env(vars), models_root) {
        (Ok(config), Some(root)) => {
            let mut config = config;
            config.models_root = root;
            Ok(config)
        },
        (result, _) => result,
    }
}

/// What each line of arguments asks for, whatever directory or name is given.
pub proof fn commands_read_like_this(args: Seq<Seq<char>>)
    ensures
        command_of(args) is Start <==> args == seq!["start"@] || (args.len() == 3 && args[0]
            == "start"@ && args[1] == "--models-root"@),
        command_of(args) is ReloadModel <==> args.len() == 2 && args[0] == "reload-model"@,
        command_of(args) matches CommandView::Start { models_root } ==> {
            &&& args.len() == 1 ==> models_root is None
            &&& args.len() == 3 ==> models_root == Some(args[2])
        },
        command_of(args) matches CommandView::ReloadModel { name } ==> name == args[1],
{
    if args.len() == 1 && args[0] == "start"@ {
        assert(args =~= seq!["start"@]);
    }
}

/// A directory on the command line takes the place of the one in the environment, and
/// nothing else changes; faults of the environment stay faults.
pub proof fn directory_is_all_that_the_command_line_sets(
    vars: EnvVars,
    models_root: Option<Seq<char>>,
)
    ensures
        start_settings(vars, models_root) is Ok <==> vars.outcome() is Ok,
        vars.outcome() matches Err(e) ==> start_settings(vars, models_root) == Err::<
            SttConfigView,
            _,
        >(e),
        start_settings(vars, models_root) matches Ok(config) ==> {
            &&& vars.outcome() matches Ok(base)
            &&& config.model == base.model
            &&& config.mic_sock == base.mic_sock
            &&& config.confidence_threshold == base.confidence_threshold
            &&& config.cloud_fastpath == base.cloud_fastpath
            &&& config.models_root == (match models_root {
                Some(root) => root,
                None => base.models_root,
            })
        },
{
}

} // verus!
