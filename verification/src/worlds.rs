//! Lines of WIT worlds: what they import and export.

use vstd::prelude::*;

use crate::ir::WitPackage;
use crate::text::{self, fill3};
use crate::words;

verus! {

pub const IMPORT: &'static str = "    import {ns}/{iface}@{ver};\n";

pub const EXPORT: &'static str = "    export {ns}/{iface}@{ver};\n";

/// The imports of the first `n` interfaces of a package.
pub open spec fn interface_imports(pkg: WitPackage, n: nat) -> Seq<char>
    decreases n,
{
    if n == 0 {
        Seq::empty()
    } else {
        interface_imports(pkg, (n - 1) as nat) + text::fill(
            IMPORT@,
            seq![("ns"@, pkg.ns_name@), ("iface"@, pkg.interfaces@[n - 1]@), ("ver"@, pkg.version@)],
        )
    }
}

/// The imports of all interfaces of the first `n` packages.
pub open spec fn package_imports(pkgs: Seq<WitPackage>, n: nat) -> Seq<char>
    decreases n,
{
    if n == 0 {
        Seq::empty()
    } else {
        package_imports(pkgs, (n - 1) as nat) + interface_imports(
            pkgs[n - 1],
            pkgs[n - 1].interfaces@.len(),
        )
    }
}

/// Lines about the first `n` of `ifaces`, interfaces of `pkg`.
pub open spec fn contract_lines(
    template: Seq<char>,
    pkg: WitPackage,
    ifaces: Seq<&str>,
    n: nat,
) -> Seq<char>
    decreases n,
{
    if n == 0 {
        Seq::empty()
    } else {
        contract_lines(template, pkg, ifaces, (n - 1) as nat) + text::fill(
            template,
            seq![
                ("ns"@, pkg.ns_name@),
                ("iface"@, ifaces[n - 1]@),
                ("ver"@, pkg.version@),
            ],
        )
    }
}

/// Writes the imports of all interfaces of the shim's packages.
pub fn render_package_imports(pkgs: &Vec<WitPackage>) -> (r: String)
    ensures
        r@ == package_imports(pkgs@, pkgs@.len()),
{
    let mut r = String::new();
    let mut k: usize = 0;
    while k < pkgs.len()
        invariant
            k <= pkgs@.len(),
            r@ == package_imports(pkgs@, k as nat),
        decreases pkgs.len() - k,
    {
        let pkg = &pkgs[k];
        let mut lines = String::new();
        let mut n: usize = 0;
        while n < pkg.interfaces.len()
            invariant
                n <= pkg.interfaces@.len(),
                lines@ == interface_imports(*pkg, n as nat),
            decreases pkg.interfaces.len() - n,
        {
            let line = fill3(
                IMPORT,
                "ns",
                pkg.ns_name.as_str(),
                "iface",
                pkg.interfaces[n].as_str(),
                "ver",
                pkg.version.as_str(),
            );
            lines.append(line.as_str());
            n = n + 1;
        }
        r.append(lines.as_str());
        k = k + 1;
    }
    r
}

/// Writes a line about an interface of a package.
pub fn render_contract_line(template: &str, pkg: &WitPackage, iface: &str) -> (r: String)
    ensures
        r@ == text::fill(
            template@,
            seq![
                ("ns"@, pkg.ns_name@),
                ("iface"@, iface@),
                ("ver"@, pkg.version@),
            ],
        ),
{
    fill3(
        template,
        "ns",
        pkg.ns_name.as_str(),
        "iface",
        iface,
        "ver",
        pkg.version.as_str(),
    )
}

/// The import of an interface of a package.
pub open spec fn import_line(pkg: WitPackage, iface: Seq<char>) -> Seq<char> {
    text::fill(
        IMPORT@,
        seq![("ns"@, pkg.ns_name@), ("iface"@, iface), ("ver"@, pkg.version@)],
    )
}

/// Every interface of every package is imported.
pub proof fn law_every_interface_imported(pkgs: Seq<WitPackage>, k: int, j: int)
    requires
        0 <= k < pkgs.len(),
        0 <= j < pkgs[k].interfaces@.len(),
    ensures
        words::has_piece(
            package_imports(pkgs, pkgs.len()),
            import_line(pkgs[k], pkgs[k].interfaces@[j]@),
        ),
{
    lemma_package_imported(pkgs, k, j, pkgs.len());
}

proof fn lemma_interface_imported(pkg: WitPackage, j: int, n: nat)
    requires
        0 <= j < n <= pkg.interfaces@.len(),
    ensures
        words::has_piece(interface_imports(pkg, n), import_line(pkg, pkg.interfaces@[j]@)),
    decreases n,
{
    let before = interface_imports(pkg, (n - 1) as nat);
    let piece = import_line(pkg, pkg.interfaces@[j]@);
    if j == n - 1 {
        words::lemma_piece_added(before, piece);
    } else {
        lemma_interface_imported(pkg, j, (n - 1) as nat);
        words::lemma_piece_kept(before, import_line(pkg, pkg.interfaces@[n - 1]@), piece);
    }
}

proof fn lemma_package_imported(pkgs: Seq<WitPackage>, k: int, j: int, n: nat)
    requires
        0 <= k < n <= pkgs.len(),
        0 <= j < pkgs[k].interfaces@.len(),
    ensures
        words::has_piece(
            package_imports(pkgs, n),
            import_line(pkgs[k], pkgs[k].interfaces@[j]@),
        ),
    decreases n,
{
    let before = package_imports(pkgs, (n - 1) as nat);
    let last = interface_imports(pkgs[n - 1], pkgs[n - 1].interfaces@.len());
    let piece = import_line(pkgs[k], pkgs[k].interfaces@[j]@);
    if k == n - 1 {
        lemma_interface_imported(pkgs[k], j, pkgs[k].interfaces@.len());
        words::lemma_piece_moved(before, last, piece);
    } else {
        lemma_package_imported(pkgs, k, j, (n - 1) as nat);
        words::lemma_piece_kept(before, last, piece);
    }
}

} // verus!
