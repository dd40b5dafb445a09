//! The scoped application store: installed applications and pinned runtimes
//! live either system-wide or in the user's scope, and installs and removals
//! are one batched, elevated invocation of the store's tool.
use std::collections::BTreeMap;
use vstd::prelude::*;

use crate::cmd::Perms;
use crate::text::{lines_spec, split_lines, split_on, split_spec, views};

verus! {

/// The scoped application store backend.
#[derive(Clone, Copy, Debug, Default, PartialEq, Eq, PartialOrd, Ord)]
pub struct Flatpak;

/// What a query learns of an installed item beyond its presence.
#[derive(Clone, Copy, Debug, PartialEq, Eq, Structural)]
pub struct FlatpakQueryInfo {
    /// Whether the item was listed in the system scope rather than the user's.
    pub systemwide: bool,
}

/// Per-package installation parameters; the store needs none.
#[derive(Clone, Debug, Default, PartialEq, Eq, PartialOrd, Ord)]
pub struct FlatpakInstallOptions {}

/// The configuration the store backend reads.
#[derive(Clone, Copy, Debug)]
pub struct Config {
    /// Install and remove in the system scope rather than the user's.
    pub flatpak_systemwide: bool,
}

/// Why the store's answer could not be used.
#[derive(Debug)]
pub enum FlatpakError {
    /// A pinned-runtime line without a name after its first `/`.
    MalformedPinLine { line: String },
}

/// An argument vector together with the privileges it is run with.
#[derive(Debug)]
pub struct Invocation {
    pub args: Vec<String>,
    pub perms: Perms,
}

/// What `str::trim` leaves of a text.
pub uninterp spec fn trimmed(s: Seq<char>) -> Seq<char>;

/// Relies on `str::trim`: the text without its leading and trailing white
/// space, which depends on the text alone.
#[verifier::external_body]
fn trim(s: &str) -> (r: String)
    ensures
        r@ == trimmed(s@),
{
    s.trim().to_owned()
}

/// The entries of a query, as names and scopes.
pub open spec fn entry_views(v: Seq<(String, FlatpakQueryInfo)>) -> Seq<(Seq<char>, bool)> {
    v.map_values(|e: (String, FlatpakQueryInfo)| (e.0@, e.1.systemwide))
}

/// One entry per application line, named by the trimmed line.
pub open spec fn app_entries_of(lines: Seq<Seq<char>>, systemwide: bool) -> Seq<
    (Seq<char>, bool),
> {
    lines.map_values(|l: Seq<char>| (trimmed(l), systemwide))
}

/// One entry per line of an application listing.
pub open spec fn app_entries(listing: Seq<char>, systemwide: bool) -> Seq<(Seq<char>, bool)> {
    app_entries_of(lines_spec(listing), systemwide)
}

/// The lines of a pinned-runtime listing below its header line.
pub open spec fn runtime_lines(listing: Seq<char>) -> Seq<Seq<char>> {
    let ls = lines_spec(listing);
    if ls.len() == 0 {
        ls
    } else {
        ls.subrange(1, ls.len() as int)
    }
}

/// A trimmed runtime reference names its runtime in its second
/// `/`-separated segment.
pub open spec fn names_runtime(line: Seq<char>) -> bool {
    split_spec(trimmed(line), '/').len() >= 2
}

pub open spec fn runtime_name_of(line: Seq<char>) -> Seq<char> {
    split_spec(trimmed(line), '/')[1]
}

/// Every line of a pinned-runtime listing names its runtime.
pub open spec fn runtimes_well_formed(listing: Seq<char>) -> bool {
    forall|i: int| 0 <= i < runtime_lines(listing).len() ==> names_runtime(
        #[trigger] runtime_lines(listing)[i],
    )
}

/// `line` is a pinned-runtime line of `listing` that names no runtime.
pub open spec fn malformed_line_of(line: Seq<char>, listing: Seq<char>) -> bool {
    exists|i: int|
        0 <= i < runtime_lines(listing).len() && !names_runtime(
            #[trigger] runtime_lines(listing)[i],
        ) && line == runtime_lines(listing)[i]
}

/// One entry per pinned-runtime line, named by the runtime it names.
pub open spec fn runtime_entries_of(lines: Seq<Seq<char>>, systemwide: bool) -> Seq<
    (Seq<char>, bool),
> {
    lines.map_values(|l: Seq<char>| (runtime_name_of(l), systemwide))
}

/// One entry per line of a pinned-runtime listing.
pub open spec fn runtime_entries(listing: Seq<char>, systemwide: bool) -> Seq<(Seq<char>, bool)> {
    runtime_entries_of(runtime_lines(listing), systemwide)
}

/// The tool's text for the chosen scope.
pub open spec fn scope_flag(systemwide: bool) -> Seq<char> {
    if systemwide {
        "--system"@
    } else {
        "--user"@
    }
}

/// One invocation of the tool with `verb` for all `keys`.
pub open spec fn batched_args(
    verb: Seq<char>,
    keys: Seq<Seq<char>>,
    no_confirm: bool,
    systemwide: bool,
) -> Seq<Seq<char>> {
    seq!["flatpak"@, verb, scope_flag(systemwide)] + (if no_confirm {
        seq!["--assumeyes"@]
    } else {
        Seq::<Seq<char>>::empty()
    }) + keys
}

impl Flatpak {
    /// The runtime that a trimmed pinned-runtime line names: its second
    /// `/`-separated segment, if it has one.
    pub fn runtime_name(line: &str) -> (r: Option<String>)
        ensures
            (r is Some) == (split_spec(line@, '/').len() >= 2),
            r matches Some(n) ==> n@ == split_spec(line@, '/')[1],
    {
        let mut parts = split_on(line, '/');
        if parts.len() < 2 {
            None
        } else {
            Some(parts.swap_remove(1))
        }
    }

    fn push_app_entries(
        out: &mut Vec<(String, FlatpakQueryInfo)>,
        listing: &str,
        systemwide: bool,
    )
        ensures
            entry_views(final(out)@) == entry_views(old(out)@) + app_entries(listing@, systemwide),
    {
        let lines = split_lines(listing);
        let ghost start = entry_views(out@);
        let ghost ls = lines_spec(listing@);
        let mut i: usize = 0;
        proof {
            assert(app_entries_of(ls.take(0), systemwide) == Seq::<(Seq<char>, bool)>::empty());
            assert(start + app_entries_of(ls.take(0), systemwide) == start);
        }
        while i < lines.len()
            invariant
                ls == lines_spec(listing@),
                start == entry_views(old(out)@),
                views(lines@) == ls,
                i <= lines@.len(),
                entry_views(out@) == start + app_entries_of(ls.take(i as int), systemwide),
            decreases lines@.len() - i,
        {
            let name = trim(lines[i].as_str());
            let ghost before = out@;
            out.push((name, FlatpakQueryInfo { systemwide }));
            proof {
                let e = (trimmed(ls[i as int]), systemwide);
                assert(lines@[i as int]@ == ls[i as int]);
                assert(e == (name@, systemwide));
                assert(entry_views(out@) == entry_views(before).push(e));
                assert(ls.take(i as int + 1) == ls.take(i as int).push(ls[i as int]));
                assert(app_entries_of(ls.take(i as int + 1), systemwide) == app_entries_of(
                    ls.take(i as int),
                    systemwide,
                ).push(e));
                assert(start + app_entries_of(ls.take(i as int + 1), systemwide) == (start
                    + app_entries_of(ls.take(i as int), systemwide)).push(e));
            }
            i = i + 1;
        }
        proof {
            assert(ls.take(lines@.len() as int) == ls);
        }
    }

    fn push_runtime_entries(
        out: &mut Vec<(String, FlatpakQueryInfo)>,
        listing: &str,
        systemwide: bool,
    ) -> (r: Result<(), FlatpakError>)
        ensures
            (r is Ok) == runtimes_well_formed(listing@),
            r is Ok ==> entry_views(final(out)@) == entry_views(old(out)@) + runtime_entries(
                listing@,
                systemwide,
            ),
            r matches Err(FlatpakError::MalformedPinLine { line }) ==> malformed_line_of(
                line@,
                listing@,
            ),
    {
        let lines = split_lines(listing);
        let ghost start = entry_views(out@);
        let ghost rl = runtime_lines(listing@);
        if lines.len() == 0 {
            proof {
                assert(runtime_entries_of(rl, systemwide) == Seq::<(Seq<char>, bool)>::empty());
                assert(start + runtime_entries_of(rl, systemwide) == start);
            }
            return Ok(());
        }
        let mut i: usize = 1;
        proof {
            assert(runtime_entries_of(rl.take(0), systemwide) == Seq::<
                (Seq<char>, bool),
            >::empty());
            assert(start + runtime_entries_of(rl.take(0), systemwide) == start);
        }
        while i < lines.len()
            invariant
                rl == runtime_lines(listing@),
                start == entry_views(old(out)@),
                views(lines@).len() > 0,
                rl == views(lines@).subrange(1, lines@.len() as int),
                1 <= i <= lines@.len(),
                entry_views(out@) == start + runtime_entries_of(rl.take(i - 1), systemwide),
                forall|j: int| 0 <= j < i - 1 ==> names_runtime(#[trigger] rl[j]),
            decreases lines@.len() - i,
        {
            let line = trim(lines[i].as_str());
            proof {
                assert(lines@[i as int]@ == rl[i - 1]);
            }
            match Flatpak::runtime_name(line.as_str()) {
                None => {
                    proof {
                        assert(rl == runtime_lines(listing@));
                        assert(!names_runtime(runtime_lines(listing@)[i - 1]));
                        assert(lines@[i as int]@ == runtime_lines(listing@)[i - 1]);
                    }
                    return Err(FlatpakError::MalformedPinLine { line: lines[i].clone() });
                },
                Some(name) => {
                    let ghost before = out@;
                    out.push((name, FlatpakQueryInfo { systemwide }));
                    proof {
                        let e = (runtime_name_of(rl[i - 1]), systemwide);
                        assert(e == (name@, systemwide));
                        assert(entry_views(out@) == entry_views(before).push(e));
                        assert(rl.take(i as int) == rl.take(i - 1).push(rl[i - 1]));
                        assert(runtime_entries_of(rl.take(i as int), systemwide)
                            == runtime_entries_of(rl.take(i - 1), systemwide).push(e));
                        assert(start + runtime_entries_of(rl.take(i as int), systemwide) == (start
                            + runtime_entries_of(rl.take(i - 1), systemwide)).push(e));
                    }
                },
            }
            i = i + 1;
        }
        proof {
            assert(rl.take(lines@.len() - 1) == rl);
        }
        Ok(())
    }

    /// The installed items, from the four listings of the store's tool:
    /// applications in the system and the user scope, then pinned runtimes
    /// in the system and the user scope. Entries are kept in that order, and
    /// a name listed twice is kept twice.
    pub fn parse_installed(
        system_apps: &str,
        user_apps: &str,
        system_runtimes: &str,
        user_runtimes: &str,
    ) -> (r: Result<Vec<(String, FlatpakQueryInfo)>, FlatpakError>)
        ensures
            (r is Ok) == (runtimes_well_formed(system_runtimes@) && runtimes_well_formed(
                user_runtimes@,
            )),
            r matches Ok(v) ==> entry_views(v@) == app_entries(system_apps@, true) + app_entries(
                user_apps@,
                false,
            ) + runtime_entries(system_runtimes@, true) + runtime_entries(user_runtimes@, false),
            r matches Err(FlatpakError::MalformedPinLine { line }) ==> malformed_line_of(
                line@,
                system_runtimes@,
            ) || malformed_line_of(line@, user_runtimes@),
    {
        let mut out: Vec<(String, FlatpakQueryInfo)> = Vec::new();
        proof {
            assert(entry_views(out@) == Seq::<(Seq<char>, bool)>::empty());
        }
        Flatpak::push_app_entries(&mut out, system_apps, true);
        Flatpak::push_app_entries(&mut out, user_apps, false);
        let sys = Flatpak::push_runtime_entries(&mut out, system_runtimes, true);
        if let Err(e) = sys {
            return Err(e);
        }
        let user = Flatpak::push_runtime_entries(&mut out, user_runtimes, false);
        if let Err(e) = user {
            return Err(e);
        }
        Ok(out)
    }

    /// The store manages every package declared for it, unchanged.
    pub fn map_managed_packages(
        packages: BTreeMap<String, FlatpakInstallOptions>,
        _config: &Config,
    ) -> (r: Result<BTreeMap<String, FlatpakInstallOptions>, FlatpakError>)
        ensures
            r matches Ok(m) && m == packages,
    {
        Ok(packages)
    }

    fn batched(verb: &str, keys: &Vec<String>, no_confirm: bool, systemwide: bool) -> (r: Vec<
        String,
    >)
        ensures
            views(r@) == batched_args(verb@, views(keys@), no_confirm, systemwide),
    {
        let mut args: Vec<String> = Vec::new();
        args.push("flatpak".to_owned());
        args.push(verb.to_owned());
        if systemwide {
            args.push("--system".to_owned());
        } else {
            args.push("--user".to_owned());
        }
        if no_confirm {
            args.push("--assumeyes".to_owned());
        }
        let ghost head = views(args@);
        proof {
            assert(head == seq!["flatpak"@, verb@, scope_flag(systemwide)] + (if no_confirm {
                seq!["--assumeyes"@]
            } else {
                Seq::<Seq<char>>::empty()
            }));
            assert(views(keys@).take(0) == Seq::<Seq<char>>::empty());
            assert(head + views(keys@).take(0) == head);
        }
        let mut i: usize = 0;
        while i < keys.len()
            invariant
                i <= keys@.len(),
                views(args@) == head + views(keys@).take(i as int),
            decreases keys@.len() - i,
        {
            let ghost before = args@;
            args.push(keys[i].clone());
            proof {
                assert(views(args@) == views(before).push(keys@[i as int]@));
                assert(views(keys@).take(i as int + 1) == views(keys@).take(i as int).push(
                    keys@[i as int]@,
                ));
            }
            i = i + 1;
        }
        proof {
            assert(views(keys@).take(keys@.len() as int) == views(keys@));
        }
        args
    }

    /// The invocation that installs the packages named by `keys`, or none
    /// when there is nothing to install.
    pub fn install_command(keys: &Vec<String>, no_confirm: bool, config: &Config) -> (r: Option<
        Invocation,
    >)
        ensures
            (r is None) == (keys@.len() == 0),
            r matches Some(c) ==> c.perms == Perms::Sudo && views(c.args@) == batched_args(
                "install"@,
                views(keys@),
                no_confirm,
                config.flatpak_systemwide,
            ),
    {
        if keys.len() == 0 {
            return None;
        }
        let args = Flatpak::batched("install", keys, no_confirm, config.flatpak_systemwide);
        Some(Invocation { args, perms: Perms::Sudo })
    }

    /// The invocation that removes the packages named by `keys`, or none
    /// when there is nothing to remove.
    pub fn remove_command(keys: &Vec<String>, no_confirm: bool, config: &Config) -> (r: Option<
        Invocation,
    >)
        ensures
            (r is None) == (keys@.len() == 0),
            r matches Some(c) ==> c.perms == Perms::Sudo && views(c.args@) == batched_args(
                "uninstall"@,
                views(keys@),
                no_confirm,
                config.flatpak_systemwide,
            ),
    {
        if keys.len() == 0 {
            return None;
        }
        let args = Flatpak::batched("uninstall", keys, no_confirm, config.flatpak_systemwide);
        Some(Invocation { args, perms: Perms::Sudo })
    }
}

} // verus!
