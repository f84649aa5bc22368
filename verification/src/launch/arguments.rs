//! The call of the game inside the sandbox, with its arguments.

use vstd::prelude::*;
use crate::game::Game;
use crate::instance::Instance;
use crate::launch::environment::{runtime_launcher, runtime_launcher_text};
use crate::launch::host::{executable_path, executable_path_text, HostPaths};
use crate::text::{concat_range, decimal, push_decimal, same_text};

verus! {

/// One argument of a managed game as it goes into the command, after a
/// blank: a placeholder gives way to the instance's value, anything else
/// stays as it is.
pub open spec fn expand_argument(arg: Seq<char>, gamedir: Seq<char>, instance: Instance) -> Seq<
    char,
> {
    if arg == "$GAMEDIR"@ {
        " \""@ + gamedir + "\""@
    } else if arg == "$PROFILE"@ {
        " \""@ + instance.profname@ + "\""@
    } else if arg == "$WIDTH"@ {
        " "@ + decimal(instance.width as nat)
    } else if arg == "$HEIGHT"@ {
        " "@ + decimal(instance.height as nat)
    } else if arg == "$WIDTHXHEIGHT"@ {
        " \""@ + decimal(instance.width as nat) + "x"@ + decimal(instance.height as nat) + "\""@
    } else {
        " "@ + arg
    }
}

/// The argument at `k` as it goes into the command.
pub open spec fn argument_piece(args: Seq<String>, gamedir: Seq<char>, instance: Instance)
    -> spec_fn(int) -> Seq<char> {
    |k: int| expand_argument(args[k]@, gamedir, instance)
}

/// The arguments of the game: those of a bare executable as given, those of
/// a managed game expanded one by one.
pub open spec fn launch_arguments(game: Game, gamedir: Seq<char>, instance: Instance) -> Seq<
    char,
> {
    match game {
        Game::HandlerRef(h) => concat_range(
            h.args@.len(),
            argument_piece(h.args@, gamedir, instance),
        ),
        Game::ExecRef(e) => e.args@,
    }
}

/// The part of a sub-command that runs inside the sandbox.
pub open spec fn game_call(game: Game, host: HostPaths, gamedir: Seq<char>, instance: Instance)
    -> Seq<char> {
    " "@ + runtime_launcher(game, host) + " \""@ + executable_path_text(gamedir, game) + "\" "@
        + launch_arguments(game, gamedir, instance) + " "@
}

fn push_argument(out: &mut String, arg: &str, gamedir: &str, instance: &Instance)
    ensures
        final(out)@ == old(out)@ + expand_argument(arg@, gamedir@, *instance),
{
    let mut text = " ".to_owned();
    if same_text(arg, "$GAMEDIR") {
        text.append("\"");
        text.append(gamedir);
        text.append("\"");
    } else if same_text(arg, "$PROFILE") {
        text.append("\"");
        text.append(instance.profname.as_str());
        text.append("\"");
    } else if same_text(arg, "$WIDTH") {
        push_decimal(&mut text, instance.width as u64);
    } else if same_text(arg, "$HEIGHT") {
        push_decimal(&mut text, instance.height as u64);
    } else if same_text(arg, "$WIDTHXHEIGHT") {
        text.append("\"");
        push_decimal(&mut text, instance.width as u64);
        text.append("x");
        push_decimal(&mut text, instance.height as u64);
        text.append("\"");
    } else {
        text.append(arg);
    }
    proof {
        let quote = " \""@;
        assert(" "@ + "\""@ =~= quote) by {
            reveal_strlit(" ");
            reveal_strlit("\"");
            reveal_strlit(" \"");
        }
    }
    out.append(text.as_str());
}

fn launch_arguments_text(game: &Game, gamedir: &str, instance: &Instance) -> (text: String)
    ensures
        text@ == launch_arguments(*game, gamedir@, *instance),
{
    match game {
        Game::HandlerRef(h) => {
            let mut text = String::new();
            let mut i: usize = 0;
            while i < h.args.len()
                invariant
                    i <= h.args@.len(),
                    text@ == concat_range(
                        i as nat,
                        argument_piece(h.args@, gamedir@, *instance),
                    ),
                decreases h.args@.len() - i,
            {
                push_argument(&mut text, h.args[i].as_str(), gamedir, instance);
                i = i + 1;
            }
            text
        },
        Game::ExecRef(e) => e.args.clone(),
    }
}

pub(crate) fn push_game_call(
    out: &mut String,
    game: &Game,
    host: &HostPaths,
    gamedir: &str,
    instance: &Instance,
)
    ensures
        final(out)@ == old(out)@ + game_call(*game, *host, gamedir@, *instance),
{
    let mut call = " ".to_owned();
    let launcher = runtime_launcher_text(game, host);
    call.append(launcher.as_str());
    call.append(" \"");
    let path = executable_path(gamedir, game);
    call.append(path.as_str());
    call.append("\" ");
    let arguments = launch_arguments_text(game, gamedir, instance);
    call.append(arguments.as_str());
    call.append(" ");
    out.append(call.as_str());
}

} // verus!
