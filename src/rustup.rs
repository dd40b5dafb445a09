//! The toolchain manager's package identity: a declared package is either a
//! whole toolchain or a component of one, told apart by its repository tag.
use std::collections::HashSet;
use vstd::prelude::*;

use crate::text::{split_on, split_spec};

verus! {

/// A declared package: its name, and the repository tag that says which
/// backend, and which kind within it, manages it.
#[derive(Clone, Debug, PartialEq, Eq, Hash)]
pub struct Package {
    pub name: String,
    pub repo: Option<String>,
}

/// The toolchain manager backend and the packages declared for it.
#[derive(Debug)]
pub struct Rustup {
    pub packages: HashSet<Package>,
}

/// Whether a toolchain-manager package is a whole toolchain or a component.
#[derive(Clone, Copy, Debug, PartialEq, Eq, Structural)]
pub enum Repotype {
    Toolchain,
    Component,
}

/// The argument prefix of one of the tool's sub-commands.
pub type Switches = Vec<&'static str>;

/// Why a declared package does not name a toolchain or a component.
#[derive(Debug)]
pub enum PackageError {
    MissingRepo,
    InvalidRepotype { repo: String },
    MalformedComponentName { name: String },
}

/// The text of each switch.
pub open spec fn switch_views(s: Seq<&'static str>) -> Seq<Seq<char>> {
    s.map_values(|x: &'static str| x@)
}

pub open spec fn install_switches_spec(t: Repotype) -> Seq<Seq<char>> {
    match t {
        Repotype::Toolchain => seq!["toolchain"@, "install"@],
        Repotype::Component => seq!["component"@, "add"@, "--toolchain"@],
    }
}

pub open spec fn remove_switches_spec(t: Repotype) -> Seq<Seq<char>> {
    match t {
        Repotype::Toolchain => seq!["toolchain"@, "uninstall"@],
        Repotype::Component => seq!["component"@, "remove"@, "--toolchain"@],
    }
}

pub open spec fn info_switches_spec(t: Repotype) -> Seq<Seq<char>> {
    match t {
        Repotype::Toolchain => seq!["toolchain"@, "list"@],
        Repotype::Component => seq!["component"@, "list"@, "--installed"@, "--toolchain"@],
    }
}

/// The repository tag that is read as `t`.
pub open spec fn repotype_tag(t: Repotype) -> Seq<char> {
    match t {
        Repotype::Toolchain => "toolchain"@,
        Repotype::Component => "component"@,
    }
}

/// Whether two texts are equal, character by character.
fn same_text(a: &str, b: &str) -> (r: bool)
    ensures
        r == (a@ == b@),
{
    let n = a.unicode_len();
    if n != b.unicode_len() {
        return false;
    }
    let mut i: usize = 0;
    while i < n
        invariant
            n == a@.len(),
            n == b@.len(),
            i <= n,
            a@.take(i as int) == b@.take(i as int),
        decreases n - i,
    {
        if a.get_char(i) != b.get_char(i) {
            return false;
        }
        proof {
            assert(a@.take(i as int + 1) == a@.take(i as int).push(a@[i as int]));
            assert(b@.take(i as int + 1) == b@.take(i as int).push(b@[i as int]));
        }
        i = i + 1;
    }
    proof {
        assert(a@.take(n as int) == a@);
        assert(b@.take(n as int) == b@);
    }
    true
}

impl Repotype {
    /// Reads a repository tag: exactly `toolchain` or `component`.
    pub fn try_from(value: &str) -> (r: Result<Repotype, PackageError>)
        ensures
            value@ == "toolchain"@ ==> r == Ok::<Repotype, PackageError>(Repotype::Toolchain),
            value@ == "component"@ ==> r == Ok::<Repotype, PackageError>(Repotype::Component),
            value@ != "toolchain"@ && value@ != "component"@ ==> (r matches Err(
                PackageError::InvalidRepotype { repo },
            ) && repo@ == value@),
            r matches Ok(t) ==> repotype_tag(t) == value@,
    {
        proof {
            reveal_strlit("toolchain");
            reveal_strlit("component");
            assert("toolchain"@[0] != "component"@[0]);
        }
        if same_text(value, "toolchain") {
            Ok(Repotype::Toolchain)
        } else if same_text(value, "component") {
            Ok(Repotype::Component)
        } else {
            Err(PackageError::InvalidRepotype { repo: value.to_owned() })
        }
    }

    /// The sub-command prefix that installs a package of this kind.
    pub fn get_install_switches(self) -> (r: Switches)
        ensures
            switch_views(r@) == install_switches_spec(self),
    {
        let r: Switches = match self {
            Repotype::Toolchain => vec!["toolchain", "install"],
            Repotype::Component => vec!["component", "add", "--toolchain"],
        };
        proof {
            assert(switch_views(r@) == install_switches_spec(self));
        }
        r
    }

    /// The sub-command prefix that removes a package of this kind.
    pub fn get_remove_switches(self) -> (r: Switches)
        ensures
            switch_views(r@) == remove_switches_spec(self),
    {
        let r: Switches = match self {
            Repotype::Toolchain => vec!["toolchain", "uninstall"],
            Repotype::Component => vec!["component", "remove", "--toolchain"],
        };
        proof {
            assert(switch_views(r@) == remove_switches_spec(self));
        }
        r
    }

    /// The sub-command prefix that lists the installed packages of this kind.
    pub fn get_info_switches(self) -> (r: Switches)
        ensures
            switch_views(r@) == info_switches_spec(self),
    {
        let r: Switches = match self {
            Repotype::Toolchain => vec!["toolchain", "list"],
            Repotype::Component => vec!["component", "list", "--installed", "--toolchain"],
        };
        proof {
            assert(switch_views(r@) == info_switches_spec(self));
        }
        r
    }
}

/// A package as the toolchain manager sees it: a toolchain, or a named
/// component within a toolchain.
#[derive(Debug)]
pub struct RustupPackage {
    /// Whether it is a toolchain or a component.
    pub repotype: Repotype,
    /// The toolchain it is or belongs to (stable, nightly, a pinned version).
    pub toolchain: String,
    /// The component's name; absent for a toolchain.
    pub component: Option<String>,
}

/// A component name splits at its single `/` into a non-empty toolchain and
/// the component.
pub open spec fn well_split(name: Seq<char>) -> bool {
    let parts = split_spec(name, '/');
    parts.len() == 2 && parts[0].len() > 0
}

impl RustupPackage {
    /// A component name is present exactly for a component, and the
    /// toolchain is named.
    pub open spec fn wf(&self) -> bool {
        &&& (self.repotype == Repotype::Component) == (self.component is Some)
        &&& self.toolchain@.len() > 0
    }

    /// Creates a package from its parts, which must agree with each other.
    pub fn new(repotype: Repotype, toolchain: String, component: Option<String>) -> (r: Self)
        requires
            (repotype == Repotype::Component) == (component is Some),
            toolchain@.len() > 0,
        ensures
            r.repotype == repotype,
            r.toolchain == toolchain,
            r.component == component,
            r.wf(),
    {
        RustupPackage { repotype, toolchain, component }
    }

    /// Derives the toolchain manager's view of a declared package.
    pub fn try_from(package: &Package) -> (r: Result<RustupPackage, PackageError>)
        requires
            package.name@.len() > 0,
        ensures
            r matches Ok(p) ==> p.wf(),
            match package.repo {
                None => r matches Err(PackageError::MissingRepo),
                Some(repo) => if repo@ == "toolchain"@ {
                    (r matches Ok(p) && p.repotype == Repotype::Toolchain && p.toolchain@
                        == package.name@ && p.component is None)
                } else if repo@ == "component"@ {
                    let parts = split_spec(package.name@, '/');
                    if well_split(package.name@) {
                        (r matches Ok(p) && p.repotype == Repotype::Component && p.toolchain@
                            == parts[0] && (p.component matches Some(c) && c@ == parts[1]))
                    } else {
                        (r matches Err(PackageError::MalformedComponentName { name }) && name@
                            == package.name@)
                    }
                } else {
                    (r matches Err(PackageError::InvalidRepotype { repo: x }) && x@ == repo@)
                },
            },
    {
        let repo = match &package.repo {
            Some(repo) => repo,
            None => return Err(PackageError::MissingRepo),
        };
        let repotype = Repotype::try_from(repo.as_str())?;
        match repotype {
            Repotype::Toolchain => Ok(
                RustupPackage::new(repotype, package.name.clone(), None),
            ),
            Repotype::Component => {
                let mut parts = split_on(package.name.as_str(), '/');
                if parts.len() != 2 || parts[0].as_str().unicode_len() == 0 {
                    return Err(
                        PackageError::MalformedComponentName { name: package.name.clone() },
                    );
                }
                let component = parts.pop().unwrap();
                let toolchain = parts.pop().unwrap();
                Ok(RustupPackage::new(repotype, toolchain, Some(component)))
            },
        }
    }
}

} // verus!
