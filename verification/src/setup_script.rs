//! Installing the shell integration: for every shell the registry fully
//! supports, write the setup-script asset to that shell's script file, then
//! refresh the reference lines in its startup configuration (remove stale
//! copies, append one fresh copy).  Shells not yet supported are reported in
//! the log, and the remaining shells are still installed.

use crate::text;
use crate::utils::{
    file_or_empty, Error, PortModel, PortTrait, ShellName, State, FISH_SETUP_SCRIPT,
    ZSH_SETUP_SCRIPT,
};
use vstd::prelude::*;

verus! {

/// Where the fish setup script lives, relative to the home directory.
pub const FISH_SETUP_RELATIVE_PATH: &'static str = ".config/fish/functions/setup_hey_cli.fish";

/// Fish's interactive-startup configuration, relative to the home directory.
pub const FISH_CONFIG_RELATIVE_PATH: &'static str = ".config/fish/config.fish";

/// The one reference line installed into fish's configuration.
pub const FISH_SOURCE_LINE: &'static str = "source ~/.config/fish/functions/setup_hey_cli.fish";

/// Where the zsh setup script lives, relative to the home directory.
pub const ZSH_SETUP_RELATIVE_PATH: &'static str = ".config/zsh/functions/setup_hey_cli.zsh";

/// Zsh's interactive-startup configuration, relative to the home directory.
pub const ZSHRC_RELATIVE_PATH: &'static str = ".zshrc";

/// The three reference lines installed into zsh's configuration.
pub const ZSH_FPATH_LINE: &'static str = "fpath=(~/.config/zsh/functions $fpath)";

pub const ZSH_SOURCE_LINE: &'static str = "source ~/.config/zsh/functions/setup_hey_cli.zsh";

pub const ZSH_AUTOLOAD_LINE: &'static str = "autoload -Uz hey";

/// A path under the home directory.
pub open spec fn home_path_spec(home: Seq<char>, relative: Seq<char>) -> Seq<char> {
    home + "/"@ + relative
}

/// A path under the home directory.
fn home_path(home: &str, relative: &str) -> (r: String)
    ensures
        r@ == home_path_spec(home@, relative@),
{
    String::from_str(home).concat("/").concat(relative)
}

/// The order in which shells are installed, cleaned up and detected.
pub open spec fn registry_order() -> Seq<ShellName> {
    seq![ShellName::Fish, ShellName::Bash, ShellName::Zsh, ShellName::PowerShell]
}

/// The log line announcing one shell's install step.
pub open spec fn install_log_line(name: ShellName) -> Seq<char> {
    "Installing setup script for shell: "@ + name.display_name_spec()
}

/// What one shell's install step adds to the log: the announcement, and for
/// a shell the registry cannot install, the explicit failure message.
pub open spec fn shell_install_logs(name: ShellName) -> Seq<Seq<char>> {
    match name {
        ShellName::Fish | ShellName::Zsh => seq![install_log_line(name)],
        ShellName::Bash | ShellName::PowerShell => seq![
            install_log_line(name),
            Error::ShellNotSupported(name).message_spec(),
        ],
    }
}

/// What one shell's install step does to the files: the asset overwritten,
/// then each reference line refreshed (stale copies removed, one appended).
/// A shell without an asset leaves the files untouched.
pub open spec fn shell_install_files(
    files: Map<Seq<char>, Seq<char>>,
    home: Seq<char>,
    name: ShellName,
) -> Map<Seq<char>, Seq<char>> {
    match name {
        ShellName::Fish => {
            let setup_path = home_path_spec(home, FISH_SETUP_RELATIVE_PATH@);
            let config_path = home_path_spec(home, FISH_CONFIG_RELATIVE_PATH@);
            let with_asset = files.insert(setup_path, FISH_SETUP_SCRIPT@);
            with_asset.insert(
                config_path,
                text::install_line_update(
                    file_or_empty(with_asset, config_path),
                    FISH_SOURCE_LINE@,
                ),
            )
        },
        ShellName::Zsh => {
            let setup_path = home_path_spec(home, ZSH_SETUP_RELATIVE_PATH@);
            let rc_path = home_path_spec(home, ZSHRC_RELATIVE_PATH@);
            let with_asset = files.insert(setup_path, ZSH_SETUP_SCRIPT@);
            let rc0 = file_or_empty(with_asset, rc_path);
            let rc1 = text::install_line_update(rc0, ZSH_FPATH_LINE@);
            let rc2 = text::install_line_update(rc1, ZSH_SOURCE_LINE@);
            let rc3 = text::install_line_update(rc2, ZSH_AUTOLOAD_LINE@);
            with_asset.insert(rc_path, rc3)
        },
        ShellName::Bash | ShellName::PowerShell => files,
    }
}

/// The log lines of the install steps for the first `k` registry entries.
pub open spec fn install_logs_upto(k: int) -> Seq<Seq<char>>
    decreases k,
{
    if k <= 0 {
        Seq::empty()
    } else {
        install_logs_upto(k - 1) + shell_install_logs(registry_order()[k - 1])
    }
}

/// The file state after the install steps of the first `k` registry entries.
pub open spec fn install_files_upto(
    files: Map<Seq<char>, Seq<char>>,
    home: Seq<char>,
    k: int,
) -> Map<Seq<char>, Seq<char>>
    decreases k,
{
    if k <= 0 {
        files
    } else {
        shell_install_files(install_files_upto(files, home, k - 1), home, registry_order()[k - 1])
    }
}

/// Everything a full install run logs.
pub open spec fn install_logs_spec() -> Seq<Seq<char>> {
    install_logs_upto(4) + seq![
        "Setup script installed successfully"@,
        "Please open new terminal session"@,
    ]
}

/// Everything a full install run does to the files.
pub open spec fn install_files_spec(
    files: Map<Seq<char>, Seq<char>>,
    home: Seq<char>,
) -> Map<Seq<char>, Seq<char>> {
    install_files_upto(files, home, 4)
}

/// LAW — an install leaves exactly one reference line to the fish setup
/// script in fish's configuration, whatever the prior content held.  In
/// particular, installing twice in a row still leaves exactly one, since the
/// second install's prior content is just the first install's output.
pub proof fn lemma_install_leaves_one_reference_line(
    files: Map<Seq<char>, Seq<char>>,
    home: Seq<char>,
)
    ensures
        install_files_spec(files, home).contains_key(
            home_path_spec(home, FISH_CONFIG_RELATIVE_PATH@),
        ),
        text::count_matches(
            install_files_spec(files, home)[home_path_spec(home, FISH_CONFIG_RELATIVE_PATH@)],
            FISH_SOURCE_LINE@,
        ) == 1,
{
    let config_path = home_path_spec(home, FISH_CONFIG_RELATIVE_PATH@);
    let line = FISH_SOURCE_LINE@;
    reveal_strlit("source ~/.config/fish/functions/setup_hey_cli.fish");
    reveal_strlit(".config/fish/config.fish");
    reveal_strlit(".config/zsh/functions/setup_hey_cli.zsh");
    reveal_strlit(".zshrc");
    reveal_strlit("/");
    assert(line.len() > 0);
    assert(!line.contains('\n')) by {
        if line.contains('\n') {
            let i = choose|i: int| 0 <= i < line.len() && line[i] == '\n';
            assert(false);
        }
    }
    let u1 = shell_install_files(files, home, ShellName::Fish);
    let with_fish_asset = files.insert(
        home_path_spec(home, FISH_SETUP_RELATIVE_PATH@),
        FISH_SETUP_SCRIPT@,
    );
    let refreshed = text::install_line_update(
        file_or_empty(with_fish_asset, config_path),
        line,
    );
    text::lemma_install_line_unique(file_or_empty(with_fish_asset, config_path), line);
    assert(u1[config_path] == refreshed);
    // the zsh step touches only the zsh paths, whose lengths differ
    assert(config_path.len() == home.len() + 1 + ".config/fish/config.fish"@.len());
    assert(home_path_spec(home, ZSH_SETUP_RELATIVE_PATH@) != config_path);
    assert(home_path_spec(home, ZSHRC_RELATIVE_PATH@) != config_path);
    let u4 = install_files_spec(files, home);
    assert(install_files_upto(files, home, 0) == files);
    assert(registry_order()[0] == ShellName::Fish);
    assert(registry_order()[1] == ShellName::Bash);
    assert(registry_order()[2] == ShellName::Zsh);
    assert(registry_order()[3] == ShellName::PowerShell);
    assert(install_files_upto(files, home, 1) == u1);
    assert(install_files_upto(files, home, 2) == u1);
    assert(install_files_upto(files, home, 3) == shell_install_files(u1, home, ShellName::Zsh));
    assert(u4 == install_files_upto(files, home, 3));
    assert(u4.contains_key(config_path));
    assert(u4[config_path] == refreshed);
}

/// The environment variable whose presence marks a shell as the running one.
pub open spec fn version_env_var(name: ShellName) -> Seq<char> {
    match name {
        ShellName::Fish => "FISH_VERSION"@,
        ShellName::Bash => "BASH_VERSION"@,
        ShellName::Zsh => "ZSH_VERSION"@,
        ShellName::PowerShell => "PSModulePath"@,
    }
}

/// The executable name a default-shell path would end with.
pub open spec fn executable_name(name: ShellName) -> Seq<char> {
    match name {
        ShellName::Fish => "fish"@,
        ShellName::Bash => "bash"@,
        ShellName::Zsh => "zsh"@,
        ShellName::PowerShell => "pwsh"@,
    }
}

/// The path is the executable's bare name, or ends with a slash and then it.
pub open spec fn path_is_shell(path: Seq<char>, exe: Seq<char>) -> bool {
    path == exe || (path.len() > exe.len() && path.skip(path.len() - exe.len()) == exe && path[
        path.len() - exe.len() - 1
    ] == '/')
}

/// One shell's detection rule: its version variable stands in the
/// environment, or the default shell path names its executable.
pub open spec fn shell_detected(env: Map<Seq<char>, Seq<char>>, name: ShellName) -> bool {
    env.contains_key(version_env_var(name)) || (env.contains_key("SHELL"@) && path_is_shell(
        env["SHELL"@],
        executable_name(name),
    ))
}

/// The first shell, in the given order, whose detection rule matches.
pub open spec fn first_detected(env: Map<Seq<char>, Seq<char>>, shells: Seq<ShellName>) -> Option<
    ShellName,
>
    decreases shells.len(),
{
    if shells.len() == 0 {
        None
    } else if shell_detected(env, shells[0]) {
        Some(shells[0])
    } else {
        first_detected(env, shells.drop_first())
    }
}

/// The shell the environment says this process runs inside, if any: the
/// first registry entry whose detection rule matches.
pub open spec fn detect_spec(env: Map<Seq<char>, Seq<char>>) -> Option<ShellName> {
    first_detected(env, registry_order())
}

/// The environment variable whose presence marks a shell as the running one.
fn version_env_var_exec(name: ShellName) -> (r: &'static str)
    ensures
        r@ == version_env_var(name),
{
    match name {
        ShellName::Fish => "FISH_VERSION",
        ShellName::Bash => "BASH_VERSION",
        ShellName::Zsh => "ZSH_VERSION",
        ShellName::PowerShell => "PSModulePath",
    }
}

/// The executable name a default-shell path would end with.
fn executable_name_exec(name: ShellName) -> (r: &'static str)
    ensures
        r@ == executable_name(name),
{
    match name {
        ShellName::Fish => "fish",
        ShellName::Bash => "bash",
        ShellName::Zsh => "zsh",
        ShellName::PowerShell => "pwsh",
    }
}

/// Whether the path names the executable (exactly, or as its last segment).
fn path_names_executable(path: &str, exe: &str) -> (r: bool)
    ensures
        r == path_is_shell(path@, exe@),
{
    if text::str_eq(path, exe) {
        return true;
    }
    let n = path.unicode_len();
    let m = exe.unicode_len();
    if n > m && text::ends_with_str(path, exe) {
        path.get_char(n - m - 1) == '/'
    } else {
        false
    }
}

/// Refreshes one reference line in a configuration file: every stale copy is
/// removed, then one fresh copy is appended on its own line.
fn refresh_line<P: PortTrait>(port: &mut P, path: &str, line: &str) -> (r: Result<(), Error>)
    ensures
        final(port).model().logs == old(port).model().logs,
        final(port).model().final_prompt == old(port).model().final_prompt,
        final(port).model().env == old(port).model().env,
        r matches Err(e) ==> e is Io,
        r is Ok ==> final(port).model() == (PortModel {
            files: old(port).model().files.insert(
                path@,
                text::install_line_update(
                    file_or_empty(old(port).model().files, path@),
                    line@,
                ),
            ),
            ..old(port).model()
        }),
{
    match port.remove_matches_from_file_content(path, line) {
        Ok(()) => {},
        Err(e) => {
            return Err(e);
        },
    }
    let ghost mid = port.model().files;
    match port.append_to_file(path, line) {
        Ok(()) => {},
        Err(e) => {
            return Err(e);
        },
    }
    proof {
        assert(port.model().files =~= old(port).model().files.insert(
            path@,
            text::install_line_update(file_or_empty(old(port).model().files, path@), line@),
        ));
    }
    Ok(())
}

/// Installs one fully supported shell's integration: the asset, then the
/// configuration reference lines.
fn install_one<P: PortTrait>(name: ShellName, port: &mut P) -> (r: Result<(), Error>)
    requires
        name == ShellName::Fish || name == ShellName::Zsh,
    ensures
        final(port).model().logs == old(port).model().logs,
        final(port).model().final_prompt == old(port).model().final_prompt,
        final(port).model().env == old(port).model().env,
        r matches Err(e) ==> e is Io || e is HomeDirNotFound,
        r is Ok ==> old(port).model().env.contains_key("HOME"@) && final(port).model().files
            == shell_install_files(
            old(port).model().files,
            old(port).model().env["HOME"@],
            name,
        ),
        !old(port).model().env.contains_key("HOME"@) ==> (r matches Err(Error::HomeDirNotFound)
            && final(port).model().files == old(port).model().files),
{
    let home = match port.read_env("HOME") {
        Some(h) => h,
        None => {
            return Err(Error::HomeDirNotFound);
        },
    };
    match name {
        ShellName::Fish => {
            let setup_path = home_path(home.as_str(), FISH_SETUP_RELATIVE_PATH);
            let config_path = home_path(home.as_str(), FISH_CONFIG_RELATIVE_PATH);
            match port.overwrite_file(setup_path.as_str(), FISH_SETUP_SCRIPT) {
                Ok(()) => {},
                Err(e) => {
                    return Err(e);
                },
            }
            let ghost with_asset = port.model().files;
            match refresh_line(port, config_path.as_str(), FISH_SOURCE_LINE) {
                Ok(()) => {},
                Err(e) => {
                    return Err(e);
                },
            }
            proof {
                assert(port.model().files =~= shell_install_files(
                    old(port).model().files,
                    home@,
                    name,
                ));
            }
            Ok(())
        },
        ShellName::Zsh => {
            let setup_path = home_path(home.as_str(), ZSH_SETUP_RELATIVE_PATH);
            let rc_path = home_path(home.as_str(), ZSHRC_RELATIVE_PATH);
            match port.overwrite_file(setup_path.as_str(), ZSH_SETUP_SCRIPT) {
                Ok(()) => {},
                Err(e) => {
                    return Err(e);
                },
            }
            match refresh_line(port, rc_path.as_str(), ZSH_FPATH_LINE) {
                Ok(()) => {},
                Err(e) => {
                    return Err(e);
                },
            }
            match refresh_line(port, rc_path.as_str(), ZSH_SOURCE_LINE) {
                Ok(()) => {},
                Err(e) => {
                    return Err(e);
                },
            }
            match refresh_line(port, rc_path.as_str(), ZSH_AUTOLOAD_LINE) {
                Ok(()) => {},
                Err(e) => {
                    return Err(e);
                },
            }
            proof {
                let rc_seq = home_path_spec(home@, ZSHRC_RELATIVE_PATH@);
                let with_asset = old(port).model().files.insert(
                    home_path_spec(home@, ZSH_SETUP_RELATIVE_PATH@),
                    ZSH_SETUP_SCRIPT@,
                );
                let rc0 = file_or_empty(with_asset, rc_seq);
                let rc1 = text::install_line_update(rc0, ZSH_FPATH_LINE@);
                let rc2 = text::install_line_update(rc1, ZSH_SOURCE_LINE@);
                let rc3 = text::install_line_update(rc2, ZSH_AUTOLOAD_LINE@);
                assert(with_asset.insert(rc_seq, rc1).insert(rc_seq, rc2) =~= with_asset.insert(
                    rc_seq,
                    rc2,
                ));
                assert(port.model().files =~= with_asset.insert(rc_seq, rc3));
                assert(port.model().files =~= shell_install_files(
                    old(port).model().files,
                    home@,
                    name,
                ));
            }
            Ok(())
        },
        ShellName::Bash | ShellName::PowerShell => Ok(()),
    }
}

/// The install stage's state: the shell that triggered the install, where
/// the setup check knew one.  The install itself covers every registry
/// entry, so the field only records why the stage was entered.
#[derive(Debug)]
pub struct SetupScript(pub Option<ShellName>);

impl SetupScript {
    /// Evaluates the registry's detection rules in priority order against
    /// the environment, and names the first shell that matches.
    pub fn detect<P: PortTrait>(port: &P) -> (r: Result<ShellName, Error>)
        ensures
            match r {
                Ok(name) => detect_spec(port.model().env) == Some(name),
                Err(e) => detect_spec(port.model().env) is None && e is NoShellDetected,
            },
    {
        let shells = ShellName::all();
        let shell_path = port.read_env("SHELL");
        let mut i: usize = 0;
        proof {
            assert(shells@ =~= registry_order());
            assert(registry_order().skip(0) =~= registry_order());
        }
        while i < shells.len()
            invariant
                shells@ == registry_order(),
                shells@.len() == 4,
                i <= 4,
                first_detected(port.model().env, registry_order().skip(i as int)) == detect_spec(
                    port.model().env,
                ),
                match shell_path {
                    Some(p) => port.model().env.contains_key("SHELL"@) && port.model().env[
                        "SHELL"@
                    ] == p@,
                    None => !port.model().env.contains_key("SHELL"@),
                },
            decreases 4 - i,
        {
            let name = shells[i];
            let by_version = match port.read_env(version_env_var_exec(name)) {
                Some(_) => true,
                None => false,
            };
            let by_path = match &shell_path {
                Some(p) => path_names_executable(p.as_str(), executable_name_exec(name)),
                None => false,
            };
            proof {
                assert(registry_order().skip(i as int)[0] == registry_order()[i as int]);
            }
            if by_version || by_path {
                return Ok(name);
            }
            proof {
                assert(!shell_detected(port.model().env, name));
                assert(registry_order().skip(i as int).drop_first() =~= registry_order().skip(
                    i + 1,
                ));
            }
            i = i + 1;
        }
        proof {
            assert(registry_order().skip(4) =~= Seq::<ShellName>::empty());
        }
        Err(Error::NoShellDetected)
    }
}

impl State<()> for SetupScript {
    /// Walks the registry in order: announces each shell, installs the fully
    /// supported ones, logs the explicit failure for the ones not yet
    /// supported, and closes with the success notes.  The home directory
    /// comes from the environment; without one the first install step fails.
    fn next<P: PortTrait>(self, port: &mut P) -> (r: Result<(), Error>)
        ensures
            final(port).model().final_prompt == old(port).model().final_prompt,
            final(port).model().env == old(port).model().env,
            r matches Err(e) ==> e is Io || e is HomeDirNotFound,
            r is Ok ==> old(port).model().env.contains_key("HOME"@) && final(port).model().logs
                == old(port).model().logs + install_logs_spec() && final(port).model().files
                == install_files_spec(
                old(port).model().files,
                old(port).model().env["HOME"@],
            ),
            !old(port).model().env.contains_key("HOME"@) ==> (r matches Err(
                Error::HomeDirNotFound,
            ) && final(port).model().logs == old(port).model().logs.push(
                install_log_line(ShellName::Fish),
            ) && final(port).model().files == old(port).model().files),
    {
        let shells = ShellName::all();
        let mut i: usize = 0;
        proof {
            assert(shells@ =~= registry_order());
        }
        while i < shells.len()
            invariant
                shells@ == registry_order(),
                i <= 4,
                shells@.len() == 4,
                port.model().final_prompt == old(port).model().final_prompt,
                port.model().env == old(port).model().env,
                port.model().logs == old(port).model().logs + install_logs_upto(i as int),
                port.model().files == install_files_upto(
                    old(port).model().files,
                    old(port).model().env["HOME"@],
                    i as int,
                ),
                i >= 1 ==> old(port).model().env.contains_key("HOME"@),
            decreases 4 - i,
        {
            let name = shells[i];
            let ghost logs_before = port.model().logs;
            let ghost files_before = port.model().files;
            let announcement = String::from_str("Installing setup script for shell: ").concat(
                name.display_name().as_str(),
            );
            port.log(announcement.as_str());
            match name {
                ShellName::Fish | ShellName::Zsh => {
                    match install_one(name, port) {
                        Ok(()) => {},
                        Err(e) => {
                            proof {
                                if !old(port).model().env.contains_key("HOME"@) {
                                    assert(i == 0);
                                    assert(install_logs_upto(0) =~= Seq::<Seq<char>>::empty());
                                    assert(old(port).model().logs + Seq::<Seq<char>>::empty()
                                        =~= old(port).model().logs);
                                    assert(port.model().logs =~= old(port).model().logs.push(
                                        install_log_line(ShellName::Fish),
                                    ));
                                }
                            }
                            return Err(e);
                        },
                    }
                },
                ShellName::Bash | ShellName::PowerShell => {
                    let failure = Error::ShellNotSupported(name);
                    let message = failure.message();
                    port.log(message.as_str());
                },
            }
            proof {
                assert(port.model().logs =~= old(port).model().logs + install_logs_upto(
                    i + 1,
                ));
            }
            i = i + 1;
        }
        port.log("Setup script installed successfully");
        port.log("Please open new terminal session");
        proof {
            assert(port.model().logs =~= old(port).model().logs + install_logs_spec());
        }
        Ok(())
    }
}

} // verus!
