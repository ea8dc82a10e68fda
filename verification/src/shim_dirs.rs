//! Which directories a bridge is emitted from.

use vstd::prelude::*;
use vstd::string::*;

use crate::ir::WitPackage;
use crate::order;
use crate::text::{self, same};
use crate::words::{self, package_belongs_to_primary, starts_with};

verus! {

// ─── The primary shim ───

/// A directory of a shim's dependencies, with the package that it holds.
pub struct ShimDir {
    pub name: String,
    pub package: Option<String>,
}

/// The position of the first directory, at `k` or later, that holds the package of this name, or
/// the number of directories.
pub open spec fn dir_with(dirs: Seq<ShimDir>, ns_name: Seq<char>, k: int) -> int
    decreases dirs.len() - k,
{
    if k >= dirs.len() || (dirs[k].package matches Some(p) && p@ == ns_name) {
        k
    } else {
        dir_with(dirs, ns_name, k + 1)
    }
}

/// The directory of the first package, at `k` or later, that belongs to `primary` and has one, or
/// the number of directories.
pub open spec fn dir_by_package(
    dirs: Seq<ShimDir>,
    pkgs: Seq<WitPackage>,
    primary: Seq<char>,
    k: int,
) -> int
    decreases pkgs.len() - k,
{
    if k >= pkgs.len() {
        dirs.len() as int
    } else if words::belongs(pkgs[k].ns_name@, primary) && dir_with(dirs, pkgs[k].ns_name@, 0)
        < dirs.len() {
        dir_with(dirs, pkgs[k].ns_name@, 0)
    } else {
        dir_by_package(dirs, pkgs, primary, k + 1)
    }
}

/// The position of the first directory, at `k` or later, whose name starts with `primary`, or the
/// number of directories.
pub open spec fn dir_by_name(dirs: Seq<ShimDir>, primary: Seq<char>, k: int) -> int
    decreases dirs.len() - k,
{
    if k >= dirs.len() || words::stands_at(dirs[k].name@, primary, 0) {
        k
    } else {
        dir_by_name(dirs, primary, k + 1)
    }
}

/// The position, among the first `n` directories, of the one whose name comes first, leaving
/// `helpers` out.
pub open spec fn first_dir(dirs: Seq<ShimDir>, helpers: Seq<Seq<char>>, n: nat) -> Option<int>
    decreases n,
{
    if n == 0 {
        None
    } else {
        let head = first_dir(dirs, helpers, (n - 1) as nat);
        if helpers.contains(dirs[n - 1].name@) {
            head
        } else {
            match head {
                Some(j) => if order::before(dirs[n - 1].name@, dirs[j].name@) {
                    Some(n - 1)
                } else {
                    head
                },
                None => Some(n - 1),
            }
        }
    }
}

/// The directory of the primary shim: the one that holds the primary package, else the first
/// whose name starts with the primary name, else the first by name that is no helper.
pub open spec fn primary_dir(
    primary: Seq<char>,
    dirs: Seq<ShimDir>,
    pkgs: Seq<WitPackage>,
    helpers: Seq<Seq<char>>,
) -> Option<int> {
    let by_package = dir_by_package(dirs, pkgs, primary, 0);
    let by_name = dir_by_name(dirs, primary, 0);
    if by_package < dirs.len() {
        Some(by_package)
    } else if by_name < dirs.len() {
        Some(by_name)
    } else {
        first_dir(dirs, helpers, dirs.len())
    }
}

fn find_dir_with(dirs: &Vec<ShimDir>, ns_name: &str) -> (r: usize)
    ensures
        r <= dirs@.len(),
        r == dir_with(dirs@, ns_name@, 0),
{
    let mut k: usize = 0;
    while k < dirs.len()
        invariant
            k <= dirs@.len(),
            dir_with(dirs@, ns_name@, 0) == dir_with(dirs@, ns_name@, k as int),
        decreases dirs.len() - k,
    {
        if let Some(p) = &dirs[k].package {
            if same(p.as_str(), ns_name) {
                return k;
            }
        }
        k = k + 1;
    }
    k
}

fn find_dir_by_package(dirs: &Vec<ShimDir>, pkgs: &Vec<WitPackage>, primary: &str) -> (r: usize)
    ensures
        r <= dirs@.len(),
        r == dir_by_package(dirs@, pkgs@, primary@, 0),
{
    let mut k: usize = 0;
    while k < pkgs.len()
        invariant
            k <= pkgs@.len(),
            dir_by_package(dirs@, pkgs@, primary@, 0) == dir_by_package(
                dirs@,
                pkgs@,
                primary@,
                k as int,
            ),
        decreases pkgs.len() - k,
    {
        let ns_name = pkgs[k].ns_name.as_str();
        if package_belongs_to_primary(ns_name, primary) {
            let j = find_dir_with(dirs, ns_name);
            if j < dirs.len() {
                return j;
            }
        }
        k = k + 1;
    }
    dirs.len()
}

fn find_dir_by_name(dirs: &Vec<ShimDir>, primary: &str) -> (r: usize)
    ensures
        r <= dirs@.len(),
        r == dir_by_name(dirs@, primary@, 0),
{
    let mut k: usize = 0;
    while k < dirs.len()
        invariant
            k <= dirs@.len(),
            dir_by_name(dirs@, primary@, 0) == dir_by_name(dirs@, primary@, k as int),
        decreases dirs.len() - k,
    {
        if starts_with(dirs[k].name.as_str(), primary) {
            return k;
        }
        k = k + 1;
    }
    k
}

fn find_first_dir(dirs: &Vec<ShimDir>, helpers: &Vec<String>) -> (r: Option<usize>)
    ensures
        match r {
            Some(k) => k < dirs@.len() && first_dir(dirs@, text::strs(helpers@), dirs@.len())
                == Some(k as int),
            None => first_dir(dirs@, text::strs(helpers@), dirs@.len()) is None,
        },
{
    let ghost left_out = text::strs(helpers@);
    let mut best: Option<usize> = None;
    let mut k: usize = 0;
    while k < dirs.len()
        invariant
            k <= dirs@.len(),
            left_out == text::strs(helpers@),
            match best {
                Some(j) => j < k && first_dir(dirs@, left_out, k as nat) == Some(j as int),
                None => first_dir(dirs@, left_out, k as nat) is None,
            },
        decreases dirs.len() - k,
    {
        let name = dirs[k].name.as_str();
        if !words::has(helpers, name) {
            best = match best {
                Some(j) => if order::is_before(name, dirs[j].name.as_str()) {
                    Some(k)
                } else {
                    Some(j)
                },
                None => Some(k),
            };
        }
        k = k + 1;
    }
    best
}

/// Picks the directory of the primary shim out of those below the root of a shim's dependencies.
pub fn pick_primary_shim_dir(
    primary: &str,
    dirs: &Vec<ShimDir>,
    shim_packages: &Vec<WitPackage>,
    helpers: &Vec<String>,
) -> (r: Option<usize>)
    ensures
        match r {
            Some(k) => k < dirs@.len() && primary_dir(
                primary@,
                dirs@,
                shim_packages@,
                text::strs(helpers@),
            ) == Some(k as int),
            None => primary_dir(primary@, dirs@, shim_packages@, text::strs(helpers@)) is None,
        },
{
    let by_package = find_dir_by_package(dirs, shim_packages, primary);
    if by_package < dirs.len() {
        return Some(by_package);
    }
    let by_name = find_dir_by_name(dirs, primary);
    if by_name < dirs.len() {
        return Some(by_name);
    }
    find_first_dir(dirs, helpers)
}

/// The directory that comes first by name is one of those that are no helpers, and none of them
/// comes before it; there is none only where all are helpers.
pub proof fn law_first_dir(dirs: Seq<ShimDir>, helpers: Seq<Seq<char>>, n: nat)
    requires
        n <= dirs.len(),
    ensures
        match first_dir(dirs, helpers, n) {
            Some(j) => 0 <= j < n && !helpers.contains(dirs[j].name@) && forall|k: int|
                0 <= k < n && !helpers.contains(dirs[k].name@) ==> !order::before(
                    (#[trigger] dirs[k]).name@,
                    dirs[j].name@,
                ),
            None => forall|k: int|
                0 <= k < n ==> helpers.contains((#[trigger] dirs[k]).name@),
        },
    decreases n,
{
    if n > 0 {
        law_first_dir(dirs, helpers, (n - 1) as nat);
        let last = dirs[n - 1].name@;
        order::law_order_total(last, last);
        if let Some(j) = first_dir(dirs, helpers, (n - 1) as nat) {
            if !helpers.contains(last) && order::before(last, dirs[j].name@) {
                assert forall|k: int|
                    0 <= k < n && !helpers.contains(dirs[k].name@) implies !order::before(
                    (#[trigger] dirs[k]).name@,
                    last,
                ) by {
                    if k < n - 1 && order::before(dirs[k].name@, last) {
                        order::law_order_transitive(dirs[k].name@, last, dirs[j].name@);
                    }
                }
            }
        }
    }
}

// ─── Contract packages ───

/// Where the package of a database's contract is read from.
#[derive(Clone, Copy, PartialEq, Eq, Structural)]
pub enum ContractDir {
    /// The directory that was named.
    Named,
    /// None: a directory was named that there is not.
    NamedMissing,
    /// The one below the home directory.
    Home,
    /// The one beside the working directory.
    Sibling,
    /// None was found.
    Missing,
}

/// Decides where the package of a database's contract is read from: a directory that is named
/// counts alone; else the one below the home directory comes before the one beside the working
/// directory.
pub fn pick_contract_dir(named: Option<bool>, home: bool, sibling: bool) -> (r: ContractDir)
    ensures
        r == match named {
            Some(true) => ContractDir::Named,
            Some(false) => ContractDir::NamedMissing,
            None => if home {
                ContractDir::Home
            } else if sibling {
                ContractDir::Sibling
            } else {
                ContractDir::Missing
            },
        },
{
    match named {
        Some(true) => ContractDir::Named,
        Some(false) => ContractDir::NamedMissing,
        None => if home {
            ContractDir::Home
        } else if sibling {
            ContractDir::Sibling
        } else {
            ContractDir::Missing
        },
    }
}

} // verus!
