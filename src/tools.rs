//! The external processes of the pipeline: package-manager probes and
//! installs, the archive tool, the build tool and the recipe editor.
use vstd::prelude::*;
use vstd::string::StringExecFns;
use crate::command::{elevate, env_views, opt_view, push_str, ProcessSpec};
use crate::config::Config;
use crate::text::views;

verus! {

/// A process with no working directory and no extra environment.
pub fn plain_process(program: &str, args: Vec<String>) -> (r: ProcessSpec)
    ensures
        r.program_view() == program@,
        r.args == args,
        r.dir_view() == None::<Seq<char>>,
        r.env_view() == Seq::<(Seq<char>, Seq<char>)>::empty(),
{
    let env: Vec<(String, String)> = Vec::new();
    assert(env_views(env@) =~= Seq::<(Seq<char>, Seq<char>)>::empty());
    ProcessSpec { program: String::from_str(program), args, dir: None, env }
}

/// `pacman -Si -- <name>`: succeeds when the binary repository has `name`.
pub fn repo_probe_cmd(pacman: &str, name: &str) -> (r: ProcessSpec)
    ensures
        r.program_view() == pacman@,
        r.args_view() == seq!["-Si"@, "--"@, name@],
        r.dir_view() == None::<Seq<char>>,
        r.env_view() == Seq::<(Seq<char>, Seq<char>)>::empty(),
{
    let mut args: Vec<String> = Vec::new();
    push_str(&mut args, "-Si");
    push_str(&mut args, "--");
    push_str(&mut args, name);
    assert(views(args@) =~= seq!["-Si"@, "--"@, name@]);
    plain_process(pacman, args)
}

/// `pacman -Qi -- <name>`: succeeds when `name` is installed.
pub fn installed_probe_cmd(pacman: &str, name: &str) -> (r: ProcessSpec)
    ensures
        r.program_view() == pacman@,
        r.args_view() == seq!["-Qi"@, "--"@, name@],
        r.dir_view() == None::<Seq<char>>,
        r.env_view() == Seq::<(Seq<char>, Seq<char>)>::empty(),
{
    let mut args: Vec<String> = Vec::new();
    push_str(&mut args, "-Qi");
    push_str(&mut args, "--");
    push_str(&mut args, name);
    assert(views(args@) =~= seq!["-Qi"@, "--"@, name@]);
    plain_process(pacman, args)
}

/// The package-manager invocation `pacman <op> <items...>`, run through the
/// elevation program unless the process is already elevated.
pub open spec fn pacman_call(
    cfg: &Config,
    elevated: bool,
    op: Seq<char>,
    items: Seq<Seq<char>>,
    r: &ProcessSpec,
) -> bool {
    &&& r.dir_view() == None::<Seq<char>>
    &&& r.env_view() == Seq::<(Seq<char>, Seq<char>)>::empty()
    &&& elevated ==> r.program_view() == cfg.pacman@ && r.args_view() == seq![op] + items
    &&& !elevated ==> r.program_view() == cfg.sudo@ && r.args_view() == seq![cfg.pacman@, op]
        + items
}

fn pacman_with(cfg: &Config, elevated: bool, op: &str, items: &Vec<String>) -> (r: ProcessSpec)
    ensures
        pacman_call(cfg, elevated, op@, views(items@), &r),
{
    let mut args: Vec<String> = Vec::new();
    push_str(&mut args, op);
    let mut i: usize = 0;
    while i < items.len()
        invariant
            i <= items@.len(),
            views(args@) == seq![op@] + views(items@).subrange(0, i as int),
        decreases items@.len() - i,
    {
        push_str(&mut args, items[i].as_str());
        assert(seq![op@] + views(items@).subrange(0, i + 1) =~= (seq![op@] + views(items@).subrange(
            0,
            i as int,
        )).push(items@[i as int]@));
        i = i + 1;
    }
    assert(views(items@).subrange(0, items@.len() as int) =~= views(items@));
    let cmd = plain_process(cfg.pacman.as_str(), args);
    let r = elevate(cfg.sudo.as_str(), elevated, cmd);
    assert(seq![cfg.pacman@] + (seq![op@] + views(items@)) =~= seq![cfg.pacman@, op@] + views(
        items@,
    ));
    r
}

/// `pacman -S <names...>`: installs from the binary repository, letting the
/// package manager show its own details and prompt.
pub fn repo_install_cmd(cfg: &Config, elevated: bool, names: &Vec<String>) -> (r: ProcessSpec)
    ensures
        pacman_call(cfg, elevated, "-S"@, views(names@), &r),
{
    pacman_with(cfg, elevated, "-S", names)
}

/// `pacman -U <paths...>`: installs built package files.
pub fn file_install_cmd(cfg: &Config, elevated: bool, paths: &Vec<String>) -> (r: ProcessSpec)
    ensures
        pacman_call(cfg, elevated, "-U"@, views(paths@), &r),
{
    pacman_with(cfg, elevated, "-U", paths)
}

/// `<tar> -xzf <archive> -C <dest>`: unpacks a compressed archive.
pub fn extract_cmd(tar: &str, archive: &str, dest: &str) -> (r: ProcessSpec)
    ensures
        r.program_view() == tar@,
        r.args_view() == seq!["-xzf"@, archive@, "-C"@, dest@],
        r.dir_view() == None::<Seq<char>>,
        r.env_view() == Seq::<(Seq<char>, Seq<char>)>::empty(),
{
    let mut args: Vec<String> = Vec::new();
    push_str(&mut args, "-xzf");
    push_str(&mut args, archive);
    push_str(&mut args, "-C");
    push_str(&mut args, dest);
    assert(views(args@) =~= seq!["-xzf"@, archive@, "-C"@, dest@]);
    plain_process(tar, args)
}

/// The build tool run in `build_dir` with `PKGDEST` set to `pkgdest`.
fn makepkg_in(makepkg: &str, build_dir: &str, pkgdest: &str, args: Vec<String>) -> (r: ProcessSpec)
    ensures
        r.program_view() == makepkg@,
        r.args == args,
        r.dir_view() == Some(build_dir@),
        r.env_view() == seq![("PKGDEST"@, pkgdest@)],
{
    let mut env: Vec<(String, String)> = Vec::new();
    env.push((String::from_str("PKGDEST"), String::from_str(pkgdest)));
    assert(env_views(env@) =~= seq![("PKGDEST"@, pkgdest@)]);
    let dir = Some(String::from_str(build_dir));
    assert(opt_view(dir) == Some(build_dir@));
    ProcessSpec { program: String::from_str(makepkg), args, dir, env }
}

/// `makepkg --packagelist`: lists the package files a build would produce.
pub fn list_cmd(makepkg: &str, build_dir: &str, pkgdest: &str) -> (r: ProcessSpec)
    ensures
        r.program_view() == makepkg@,
        r.args_view() == seq!["--packagelist"@],
        r.dir_view() == Some(build_dir@),
        r.env_view() == seq![("PKGDEST"@, pkgdest@)],
{
    let mut args: Vec<String> = Vec::new();
    push_str(&mut args, "--packagelist");
    assert(views(args@) =~= seq!["--packagelist"@]);
    makepkg_in(makepkg, build_dir, pkgdest, args)
}

/// The build tool's arguments: a clean build that installs missing
/// dependencies and keeps logs, forced and with a clean cache when `force`.
pub open spec fn build_args(force: bool) -> Seq<Seq<char>> {
    let base = seq![
        "--clean"@,
        "--cleanbuild"@,
        "--syncdeps"@,
        "--needed"@,
        "--log"@,
        "--config"@,
        "/etc/makepkg.conf"@,
    ];
    if force {
        base + seq!["-f"@, "-C"@]
    } else {
        base
    }
}

/// The build invocation for the recipe in `build_dir`.
pub fn build_cmd(makepkg: &str, build_dir: &str, pkgdest: &str, force: bool) -> (r: ProcessSpec)
    ensures
        r.program_view() == makepkg@,
        r.args_view() == build_args(force),
        r.dir_view() == Some(build_dir@),
        r.env_view() == seq![("PKGDEST"@, pkgdest@)],
{
    let mut args: Vec<String> = Vec::new();
    push_str(&mut args, "--clean");
    push_str(&mut args, "--cleanbuild");
    push_str(&mut args, "--syncdeps");
    push_str(&mut args, "--needed");
    push_str(&mut args, "--log");
    push_str(&mut args, "--config");
    push_str(&mut args, "/etc/makepkg.conf");
    if force {
        push_str(&mut args, "-f");
        push_str(&mut args, "-C");
    }
    assert(views(args@) =~= build_args(force));
    makepkg_in(makepkg, build_dir, pkgdest, args)
}

/// `<editor> <file>`: opens a file for reading and editing.
pub fn editor_cmd(editor: &str, file: &str) -> (r: ProcessSpec)
    ensures
        r.program_view() == editor@,
        r.args_view() == seq![file@],
        r.dir_view() == None::<Seq<char>>,
        r.env_view() == Seq::<(Seq<char>, Seq<char>)>::empty(),
{
    let mut args: Vec<String> = Vec::new();
    push_str(&mut args, file);
    assert(views(args@) =~= seq![file@]);
    plain_process(editor, args)
}

} // verus!
