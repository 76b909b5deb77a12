//! Resetting the installation: for every registry entry, best effort —
//! remove the reference lines this tool ever adds to that shell's
//! configuration and delete its setup-script file.  A setup file that cannot
//! be deleted is noted in the log and the remaining shells are still cleaned.

use crate::setup_script::{
    home_path_spec, FISH_CONFIG_RELATIVE_PATH, FISH_SETUP_RELATIVE_PATH, FISH_SOURCE_LINE,
    ZSHRC_RELATIVE_PATH, ZSH_AUTOLOAD_LINE, ZSH_FPATH_LINE, ZSH_SETUP_RELATIVE_PATH,
    ZSH_SOURCE_LINE,
};
use crate::text;
use crate::utils::{file_or_empty, Error, PortTrait, ShellName, State};
use vstd::prelude::*;

verus! {

/// The log line announcing one shell's cleanup.
pub open spec fn cleanup_log_line(name: ShellName) -> Seq<char> {
    "Cleaning up "@ + name.display_name_spec() + " shell configuration..."@
}

/// The log line for a shell that never has anything installed.
pub open spec fn no_cleanup_log_line(name: ShellName) -> Seq<char> {
    "No cleanup needed for "@ + name.display_name_spec() + " shell"@
}

/// The note logged when a setup file could not be deleted.
pub open spec fn note_log_line(path: Seq<char>, cause: Seq<char>) -> Seq<char> {
    "Note: Could not remove setup file ("@ + path + "): "@ + cause
}

/// What a completed reset run did, given whether each shell's setup file
/// could be deleted and, where not, the cause that was noted: the reference
/// lines are scrubbed from both configurations, the deletable setup files
/// are gone, and the log tells the story in registry order.
pub open spec fn reset_post(
    old_m: crate::utils::PortModel,
    new_m: crate::utils::PortModel,
    fish_removed: bool,
    fish_cause: Seq<char>,
    zsh_removed: bool,
    zsh_cause: Seq<char>,
) -> bool {
    let home = old_m.env["HOME"@];
    let fish_setup = home_path_spec(home, FISH_SETUP_RELATIVE_PATH@);
    let fish_config = home_path_spec(home, FISH_CONFIG_RELATIVE_PATH@);
    let zsh_setup = home_path_spec(home, ZSH_SETUP_RELATIVE_PATH@);
    let rc = home_path_spec(home, ZSHRC_RELATIVE_PATH@);
    let f1 = old_m.files.insert(
        fish_config,
        text::remove_all(file_or_empty(old_m.files, fish_config), FISH_SOURCE_LINE@),
    );
    let f2 = if fish_removed {
        f1.remove(fish_setup)
    } else {
        f1
    };
    let f3 = f2.insert(rc, text::remove_all(file_or_empty(f2, rc), ZSH_FPATH_LINE@));
    let f4 = f3.insert(rc, text::remove_all(file_or_empty(f3, rc), ZSH_SOURCE_LINE@));
    let f5 = f4.insert(rc, text::remove_all(file_or_empty(f4, rc), ZSH_AUTOLOAD_LINE@));
    let f6 = if zsh_removed {
        f5.remove(zsh_setup)
    } else {
        f5
    };
    &&& new_m.files == f6
    &&& new_m.logs == old_m.logs + seq![
        "Resetting hey-cli setup for all shells..."@,
        cleanup_log_line(ShellName::Fish),
    ] + (if fish_removed {
        Seq::<Seq<char>>::empty()
    } else {
        seq![note_log_line(fish_setup, fish_cause)]
    }) + seq![
        cleanup_log_line(ShellName::Bash),
        no_cleanup_log_line(ShellName::Bash),
        cleanup_log_line(ShellName::Zsh),
    ] + (if zsh_removed {
        Seq::<Seq<char>>::empty()
    } else {
        seq![note_log_line(zsh_setup, zsh_cause)]
    }) + seq![
        cleanup_log_line(ShellName::PowerShell),
        no_cleanup_log_line(ShellName::PowerShell),
        "Reset completed successfully"@,
        "Please open new terminal session for changes to take effect"@,
    ]
}

/// The reset stage's state.
#[derive(Debug)]
pub struct Reset;

impl State<()> for Reset {
    /// Scrubs every reference line and deletes the setup files, shell by
    /// shell; a setup file that cannot be deleted is noted, not fatal.
    fn next<P: PortTrait>(self, port: &mut P) -> (r: Result<(), Error>)
        ensures
            final(port).model().final_prompt == old(port).model().final_prompt,
            final(port).model().env == old(port).model().env,
            r matches Err(e) ==> e is Io || e is HomeDirNotFound,
            !old(port).model().env.contains_key("HOME"@) ==> (r matches Err(
                Error::HomeDirNotFound,
            ) && final(port).model().logs == old(port).model().logs.push(
                "Resetting hey-cli setup for all shells..."@,
            ) && final(port).model().files == old(port).model().files),
            r is Ok ==> old(port).model().env.contains_key("HOME"@) && exists|
                fish_removed: bool,
                fish_cause: Seq<char>,
                zsh_removed: bool,
                zsh_cause: Seq<char>,
            |
                reset_post(
                    old(port).model(),
                    final(port).model(),
                    fish_removed,
                    fish_cause,
                    zsh_removed,
                    zsh_cause,
                ),
    {
        port.log("Resetting hey-cli setup for all shells...");
        let home = match port.read_env("HOME") {
            Some(h) => h,
            None => {
                return Err(Error::HomeDirNotFound);
            },
        };
        let ghost mut fish_cause: Seq<char> = Seq::empty();
        let ghost mut zsh_cause: Seq<char> = Seq::empty();

        port.log(
            String::from_str("Cleaning up ").concat("fish").concat(
                " shell configuration...",
            ).as_str(),
        );
        let fish_setup_path = String::from_str(home.as_str()).concat("/").concat(
            FISH_SETUP_RELATIVE_PATH,
        );
        let fish_config_path = String::from_str(home.as_str()).concat("/").concat(
            FISH_CONFIG_RELATIVE_PATH,
        );
        match port.remove_matches_from_file_content(fish_config_path.as_str(), FISH_SOURCE_LINE) {
            Ok(()) => {},
            Err(e) => {
                return Err(e);
            },
        }
        let fish_removed = match port.remove_file(fish_setup_path.as_str()) {
            Ok(()) => true,
            Err(e) => {
                let message = e.message();
                proof {
                    fish_cause = message@;
                }
                let note = String::from_str("Note: Could not remove setup file (").concat(
                    fish_setup_path.as_str(),
                ).concat("): ").concat(message.as_str());
                port.log(note.as_str());
                false
            },
        };

        port.log(
            String::from_str("Cleaning up ").concat("bash").concat(
                " shell configuration...",
            ).as_str(),
        );
        port.log(String::from_str("No cleanup needed for ").concat("bash").concat(" shell").as_str());

        port.log(
            String::from_str("Cleaning up ").concat("zsh").concat(
                " shell configuration...",
            ).as_str(),
        );
        let zsh_setup_path = String::from_str(home.as_str()).concat("/").concat(
            ZSH_SETUP_RELATIVE_PATH,
        );
        let zshrc_path = String::from_str(home.as_str()).concat("/").concat(ZSHRC_RELATIVE_PATH);
        match port.remove_matches_from_file_content(zshrc_path.as_str(), ZSH_FPATH_LINE) {
            Ok(()) => {},
            Err(e) => {
                return Err(e);
            },
        }
        match port.remove_matches_from_file_content(zshrc_path.as_str(), ZSH_SOURCE_LINE) {
            Ok(()) => {},
            Err(e) => {
                return Err(e);
            },
        }
        match port.remove_matches_from_file_content(zshrc_path.as_str(), ZSH_AUTOLOAD_LINE) {
            Ok(()) => {},
            Err(e) => {
                return Err(e);
            },
        }
        let zsh_removed = match port.remove_file(zsh_setup_path.as_str()) {
            Ok(()) => true,
            Err(e) => {
                let message = e.message();
                proof {
                    zsh_cause = message@;
                }
                let note = String::from_str("Note: Could not remove setup file (").concat(
                    zsh_setup_path.as_str(),
                ).concat("): ").concat(message.as_str());
                port.log(note.as_str());
                false
            },
        };

        port.log(
            String::from_str("Cleaning up ").concat("power_shell").concat(
                " shell configuration...",
            ).as_str(),
        );
        port.log(
            String::from_str("No cleanup needed for ").concat("power_shell").concat(
                " shell",
            ).as_str(),
        );
        port.log("Reset completed successfully");
        port.log("Please open new terminal session for changes to take effect");
        proof {
            assert(port.model().logs =~= old(port).model().logs + seq![
                "Resetting hey-cli setup for all shells..."@,
                cleanup_log_line(ShellName::Fish),
            ] + (if fish_removed {
                Seq::<Seq<char>>::empty()
            } else {
                seq![note_log_line(home_path_spec(home@, FISH_SETUP_RELATIVE_PATH@), fish_cause)]
            }) + seq![
                cleanup_log_line(ShellName::Bash),
                no_cleanup_log_line(ShellName::Bash),
                cleanup_log_line(ShellName::Zsh),
            ] + (if zsh_removed {
                Seq::<Seq<char>>::empty()
            } else {
                seq![note_log_line(home_path_spec(home@, ZSH_SETUP_RELATIVE_PATH@), zsh_cause)]
            }) + seq![
                cleanup_log_line(ShellName::PowerShell),
                no_cleanup_log_line(ShellName::PowerShell),
                "Reset completed successfully"@,
                "Please open new terminal session for changes to take effect"@,
            ]);
            assert(reset_post(
                old(port).model(),
                port.model(),
                fish_removed,
                fish_cause,
                zsh_removed,
                zsh_cause,
            ));
        }
        Ok(())
    }
}

} // verus!
