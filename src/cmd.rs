//! The command layer: which argument vector is run for a request, whether it
//! goes through the escalation helper, and what a finished process means.
//! Spawning the process and reading the environment are left to the caller.
use itertools::Itertools;
use vstd::prelude::*;

use crate::text::{join_with, split_on, split_spec, views};

verus! {

/// Whether a command asks for elevated privileges.
#[derive(Clone, Copy, Debug, PartialEq, Eq, Structural)]
pub enum Perms {
    Sudo,
    Same,
}

/// What the host offers for privilege escalation.
#[derive(Clone, Copy, Debug, PartialEq, Eq, Structural)]
pub enum Host {
    /// A host with the escalation helper, where the process runs as `euid`.
    Unix { euid: u32 },
    /// A host family without an escalation helper.
    NoEscalationHelper,
}

/// Why a command could not be run or did not succeed.
#[derive(Debug)]
pub enum CommandError {
    EmptyCommand,
    UnsupportedEscalation,
    /// The process exited with a non-zero status; `args` is the requested
    /// argument vector joined by spaces.
    CommandFailed { args: String },
    InvalidOutputEncoding,
}

/// The escalation helper that prefixes an escalated command.
pub open spec fn helper_name() -> Seq<char> {
    "sudo"@
}

/// A command is escalated when it asks for it and the process is not
/// already running as the superuser.
pub open spec fn escalates(perms: Perms, host: Host) -> bool {
    &&& perms == Perms::Sudo
    &&& (host matches Host::Unix { euid } && euid != 0)
}

/// The escalation decision for a request, or the refusal on a host
/// without a helper.
pub open spec fn use_sudo_spec(perms: Perms, host: Host) -> Result<bool, CommandError> {
    if perms == Perms::Sudo && host is NoEscalationHelper {
        Err(CommandError::UnsupportedEscalation)
    } else {
        Ok(escalates(perms, host))
    }
}

/// The argument vector that is actually run for `args`.
pub open spec fn invoked_args(args: Seq<Seq<char>>, perms: Perms, host: Host) -> Seq<Seq<char>> {
    if escalates(perms, host) {
        seq![helper_name()] + args
    } else {
        args
    }
}

/// Decides whether a request with `perms` goes through the escalation helper.
pub fn use_sudo(perms: Perms, host: Host) -> (r: Result<bool, CommandError>)
    ensures
        r == use_sudo_spec(perms, host),
{
    match perms {
        Perms::Same => Ok(false),
        Perms::Sudo => match host {
            Host::Unix { euid } => Ok(euid != 0),
            Host::NoEscalationHelper => Err(CommandError::UnsupportedEscalation),
        },
    }
}

/// The argument vector to spawn for `args`: the program first, prefixed by
/// the escalation helper where the request is escalated.
pub fn prepare_command(args: Vec<String>, perms: Perms, host: Host) -> (r: Result<
    Vec<String>,
    CommandError,
>)
    ensures
        args@.len() == 0 ==> r matches Err(CommandError::EmptyCommand),
        args@.len() > 0 && (perms == Perms::Same || host == (Host::Unix { euid: 0 })) ==> (r matches Ok(
            v,
        ) && views(v@) == views(args@)),
        args@.len() > 0 && perms == Perms::Sudo && (host matches Host::Unix { euid } && euid != 0)
            ==> (r matches Ok(v) && views(v@) == seq![helper_name()] + views(args@)),
        args@.len() > 0 && perms == Perms::Sudo && host == Host::NoEscalationHelper ==> r matches Err(
            CommandError::UnsupportedEscalation,
        ),
        args@.len() > 0 ==> match use_sudo_spec(perms, host) {
            Err(e) => r == Err::<Vec<String>, CommandError>(e),
            Ok(_) => (r matches Ok(v) && views(v@) == invoked_args(views(args@), perms, host)),
        },
{
    if args.len() == 0 {
        return Err(CommandError::EmptyCommand);
    }
    let sudo = use_sudo(perms, host)?;
    let mut args = args;
    if sudo {
        let ghost before = args@;
        args.insert(0, "sudo".to_owned());
        proof {
            assert(views(args@) == seq![helper_name()] + views(before));
        }
    }
    Ok(args)
}

/// Relies on itertools' `Itertools::join`: the items' text, with `sep`
/// between consecutive items and nothing around them.
#[verifier::external_body]
fn join_spaced(args: &Vec<String>) -> (r: String)
    ensures
        r@ == join_with(views(args@), ' '),
{
    args.iter().join(" ")
}

/// Relies on `String::from_utf8`: it succeeds exactly on valid UTF-8 and
/// then holds the decoded text.
#[verifier::external_body]
fn decode_utf8(bytes: Vec<u8>) -> (r: Option<String>)
    ensures
        r is Some <==> vstd::utf8::valid_utf8(bytes@),
        r matches Some(s) ==> s@ == vstd::utf8::decode_utf8(bytes@),
{
    String::from_utf8(bytes).ok()
}

/// The outcome of a command run with inherited output: success exactly on a
/// zero exit status, else the failure names the requested `args`.
pub fn command_status(args: &Vec<String>, success: bool) -> (r: Result<(), CommandError>)
    ensures
        success ==> r is Ok,
        !success ==> (r matches Err(CommandError::CommandFailed { args: a }) && a@ == join_with(
            views(args@),
            ' ',
        )),
{
    if success {
        Ok(())
    } else {
        Err(CommandError::CommandFailed { args: join_spaced(args) })
    }
}

/// The outcome of a command whose standard output was captured: the output
/// as text on a zero exit status, the failure naming the requested `args`
/// otherwise, whatever output was produced.
pub fn command_output(args: &Vec<String>, success: bool, stdout: Vec<u8>) -> (r: Result<
    String,
    CommandError,
>)
    ensures
        success && vstd::utf8::valid_utf8(stdout@) ==> (r matches Ok(s) && s@
            == vstd::utf8::decode_utf8(stdout@)),
        success && !vstd::utf8::valid_utf8(stdout@) ==> r matches Err(
            CommandError::InvalidOutputEncoding,
        ),
        !success ==> (r matches Err(CommandError::CommandFailed { args: a }) && a@ == join_with(
            views(args@),
            ' ',
        )),
{
    if !success {
        return Err(CommandError::CommandFailed { args: join_spaced(args) });
    }
    match decode_utf8(stdout) {
        Some(s) => Ok(s),
        None => Err(CommandError::InvalidOutputEncoding),
    }
}

/// The directories named by `PATH`'s pieces, without the empty ones.
pub open spec fn search_dirs(parts: Seq<Seq<char>>) -> Seq<Seq<char>>
    decreases parts.len(),
{
    if parts.len() == 0 {
        Seq::<Seq<char>>::empty()
    } else if parts.last().len() > 0 {
        search_dirs(parts.drop_last()).push(parts.last())
    } else {
        search_dirs(parts.drop_last())
    }
}

/// The file looked for when `name` is searched in `dir`.
pub open spec fn candidate(dir: Seq<char>, name: Seq<char>) -> Seq<char> {
    dir + "/"@ + name
}

/// Every file looked for when `name` is searched along `path`, in order.
pub open spec fn path_candidates_spec(path: Seq<char>, name: Seq<char>) -> Seq<Seq<char>> {
    search_dirs(split_spec(path, ':')).map_values(|d: Seq<char>| candidate(d, name))
}

/// The files to probe, in order, when looking for the executable `command`
/// along the colon-separated directory list `path`.
pub fn path_candidates(path: &str, command: &str) -> (r: Vec<String>)
    ensures
        views(r@) == path_candidates_spec(path@, command@),
{
    let dirs = split_on(path, ':');
    let mut out: Vec<String> = Vec::new();
    let mut i: usize = 0;
    proof {
        assert(views(dirs@).take(0) == Seq::<Seq<char>>::empty());
        assert(views(out@) == Seq::<Seq<char>>::empty());
    }
    while i < dirs.len()
        invariant
            i <= dirs@.len(),
            views(out@) == search_dirs(views(dirs@).take(i as int)).map_values(
                |d: Seq<char>| candidate(d, command@),
            ),
        decreases dirs@.len() - i,
    {
        let ghost all = views(dirs@);
        proof {
            assert(all.take(i as int + 1).drop_last() == all.take(i as int));
            assert(all.take(i as int + 1).last() == dirs@[i as int]@);
        }
        if dirs[i].as_str().unicode_len() > 0 {
            let mut c = dirs[i].clone();
            c.append("/");
            c.append(command);
            let ghost before = out@;
            out.push(c);
            proof {
                assert(views(out@) == views(before).push(c@));
                assert(c@ == candidate(dirs@[i as int]@, command@));
                assert(search_dirs(all.take(i as int + 1)).map_values(
                    |d: Seq<char>| candidate(d, command@),
                ) == search_dirs(all.take(i as int)).map_values(
                    |d: Seq<char>| candidate(d, command@),
                ).push(c@));
            }
        }
        i = i + 1;
    }
    proof {
        assert(views(dirs@).take(dirs@.len() as int) == views(dirs@));
    }
    out
}

proof fn lemma_search_dirs_keeps(parts: Seq<Seq<char>>, i: int)
    requires
        0 <= i < parts.len(),
        parts[i].len() > 0,
    ensures
        search_dirs(parts).contains(parts[i]),
    decreases parts.len(),
{
    if i == parts.len() - 1 {
        let s = search_dirs(parts);
        assert(s[s.len() - 1] == parts[i]);
    } else {
        lemma_search_dirs_keeps(parts.drop_last(), i);
        assert(parts.drop_last()[i] == parts[i]);
        let prev = search_dirs(parts.drop_last());
        let k = choose|k: int| 0 <= k < prev.len() && prev[k] == parts[i];
        if parts.last().len() > 0 {
            assert(search_dirs(parts)[k] == parts[i]);
        }
    }
}

/// An empty `PATH` names no directory, so nothing is probed and no command
/// is found.
pub proof fn lemma_empty_path_probes_nothing(name: Seq<char>)
    ensures
        path_candidates_spec(Seq::<char>::empty(), name).len() == 0,
{
    let parts = split_spec(Seq::<char>::empty(), ':');
    assert(parts == seq![Seq::<char>::empty()]);
    assert(parts.drop_last() == Seq::<Seq<char>>::empty());
    assert(parts.last().len() == 0);
    assert(search_dirs(Seq::<Seq<char>>::empty()) == Seq::<Seq<char>>::empty());
    assert(search_dirs(parts) == Seq::<Seq<char>>::empty());
}

/// Every non-empty directory of `PATH` is probed for `name`, so a command
/// present in any of them is found.
pub proof fn lemma_every_path_dir_probed(path: Seq<char>, name: Seq<char>, i: int)
    requires
        0 <= i < split_spec(path, ':').len(),
        split_spec(path, ':')[i].len() > 0,
    ensures
        path_candidates_spec(path, name).contains(candidate(split_spec(path, ':')[i], name)),
{
    let parts = split_spec(path, ':');
    lemma_search_dirs_keeps(parts, i);
    let dirs = search_dirs(parts);
    let k = choose|k: int| 0 <= k < dirs.len() && dirs[k] == parts[i];
    assert(path_candidates_spec(path, name)[k] == candidate(parts[i], name));
}

} // verus!
