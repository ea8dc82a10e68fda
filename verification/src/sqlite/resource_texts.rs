//! Where the decoders of resources stand.

use vstd::prelude::*;
use vstd::string::*;

use crate::gather;
use crate::ir::WitPackage;
use crate::packages;
use crate::sqlite::emit_lib;
use crate::sqlite::lib_templates as t;
use crate::text;
use crate::words;

verus! {

/// The decoders of geometries, rasters and topologies are there exactly where the primary package
/// declares the resource and its error, and so are the lines that use their types.
pub proof fn law_resource_decoders(pkgs: Seq<WitPackage>, primary: Seq<char>)
    ensures
        ({
            let s = emit_lib::resource_helpers(pkgs, primary);
            let uses = emit_lib::resource_uses(pkgs, primary);
            let pkg = packages::primary_package(pkgs, primary);
            let geometry = packages::primary_has(pkgs, primary, "geometry"@, "postgis-error"@);
            let raster = packages::primary_has(pkgs, primary, "raster"@, "raster-error"@);
            let topology = packages::primary_has(pkgs, primary, "topology"@, "topology-error"@);
            &&& geometry ==> words::has_piece(
                s,
                "fn from_wkb(bytes: &[u8], name: &str) -> Result<Geometry, String> "@,
            )
            &&& geometry ==> words::has_piece(
                s,
                "fn geog_from_wkb(bytes: &[u8], name: &str) -> Result<Geography, String> "@,
            )
            &&& geometry ==> words::has_piece(
                uses,
                "use bindings::"@ + packages::ns_module(pkg) + "::"@ + packages::name_module(pkg)
                    + "::postgis_types::{Geography, Geometry, PostgisError};\n"@,
            )
            &&& raster ==> words::has_piece(
                s,
                "fn from_raster_binary(bytes: &[u8], name: &str) -> Result<Raster, String> "@,
            )
            &&& raster ==> words::has_piece(
                uses,
                "use bindings::"@ + packages::ns_module(pkg) + "::"@ + packages::name_module(pkg)
                    + "::postgis_raster_types::{Raster, RasterError};\n"@,
            )
            &&& topology ==> words::has_piece(
                s,
                "fn from_topology_bytes(bytes: &[u8], name: &str) -> Result<Topology, String> "@,
            )
            &&& topology ==> words::has_piece(
                uses,
                "use bindings::"@ + packages::ns_module(pkg) + "::"@ + packages::name_module(pkg)
                    + "::postgis_topology_types::{Topology, TopologyError};\n"@,
            )
            &&& !geometry && !raster && !topology ==> s.len() == 0 && uses.len() == 0
        }),
{
    let pkg = packages::primary_package(pkgs, primary);
    let ns = packages::ns_module(pkg);
    let name = packages::name_module(pkg);
    lemma_geometry_helpers();
    lemma_raster_helpers(ns, name);
    lemma_topology_helpers(ns, name);
    lemma_use_geometry(ns, name);
    lemma_use_raster(ns, name);
    lemma_use_topology(ns, name);
    words::lemma_pieces_around(
        if packages::primary_has(pkgs, primary, "geometry"@, "postgis-error"@) {
            t::POSTGIS_HELPERS@
        } else {
            Seq::empty()
        },
        gather::where_resource(pkgs, primary, "raster"@, "raster-error"@, t::RASTER_HELPERS@),
        gather::where_resource(pkgs, primary, "topology"@, "topology-error"@, t::TOPOLOGY_HELPERS@),
    );
    lemma_itself(
        gather::where_resource(pkgs, primary, "geometry"@, "postgis-error"@, t::USE_GEOMETRY@),
    );
    lemma_itself(gather::where_resource(pkgs, primary, "raster"@, "raster-error"@, t::USE_RASTER@));
    lemma_itself(
        gather::where_resource(pkgs, primary, "topology"@, "topology-error"@, t::USE_TOPOLOGY@),
    );
    words::lemma_pieces_around(
        gather::where_resource(pkgs, primary, "geometry"@, "postgis-error"@, t::USE_GEOMETRY@),
        gather::where_resource(pkgs, primary, "raster"@, "raster-error"@, t::USE_RASTER@),
        gather::where_resource(pkgs, primary, "topology"@, "topology-error"@, t::USE_TOPOLOGY@),
    );
}

proof fn lemma_itself(s: Seq<char>)
    ensures
        words::has_piece(s, s),
{
    assert(Seq::<char>::empty() + s =~= s);
    words::lemma_piece_added(Seq::empty(), s);
}

proof fn lemma_geometry_helpers()
    ensures
        words::has_piece(
            t::POSTGIS_HELPERS@,
            "fn from_wkb(bytes: &[u8], name: &str) -> Result<Geometry, String> "@,
        ),
        words::has_piece(
            t::POSTGIS_HELPERS@,
            "fn geog_from_wkb(bytes: &[u8], name: &str) -> Result<Geography, String> "@,
        ),
{
    let s = t::POSTGIS_HELPERS@;
    reveal_strlit(r#"

fn from_wkb(bytes: &[u8], name: &str) -> Result<Geometry, String> {
    Geometry::from_wkb(bytes).map_err(|e| format!("{name}: {}", postgis_err_string(e)))
}

fn geog_from_wkb(bytes: &[u8], name: &str) -> Result<Geography, String> {
    Geography::from_wkb(bytes).map_err(|e| format!("{name}: {}", postgis_err_string(e)))
}

/// Format a `postgis-error` variant back to a string the SQL
/// caller can read. Mirrors the helper in the hand-written
/// bridge.
fn postgis_err_string(e: PostgisError) -> String {
    match e {
        PostgisError::InvalidGeometry(s)
        | PostgisError::ParseError(s)
        | PostgisError::UnsupportedOperation(s)
        | PostgisError::NumericError(s)
        | PostgisError::SridMismatch(s)
        | PostgisError::General(s) => s,
    }
}"#);
    reveal_strlit("fn from_wkb(bytes: &[u8], name: &str) -> Result<Geometry, String> ");
    assert(s.subrange(2, 68) =~= "fn from_wkb(bytes: &[u8], name: &str) -> Result<Geometry, String> "@);
    assert(words::stands_at(s, "fn from_wkb(bytes: &[u8], name: &str) -> Result<Geometry, String> "@, 2));
    reveal_strlit("fn geog_from_wkb(bytes: &[u8], name: &str) -> Result<Geography, String> ");
    assert(s.subrange(161, 233)
        =~= "fn geog_from_wkb(bytes: &[u8], name: &str) -> Result<Geography, String> "@);
    assert(words::stands_at(
        s,
        "fn geog_from_wkb(bytes: &[u8], name: &str) -> Result<Geography, String> "@,
        161,
    ));
}

proof fn lemma_holes_pkg_ns_pkg_name(pkg_ns: Seq<char>, pkg_name: Seq<char>)
    ensures
        ({
            let b = seq![("pkg_ns"@, pkg_ns), ("pkg_name"@, pkg_name)];
            &&& text::lookup_from(b, "pkg_ns"@, 0) == pkg_ns
            &&& text::lookup_from(b, "pkg_name"@, 0) == pkg_name
        }),
{
    reveal_strlit("pkg_ns");
    reveal_strlit("pkg_name");
    reveal_with_fuel(text::lookup_from, 3);
    assert("pkg_ns"@.len() != "pkg_name"@.len());
}

proof fn lemma_use_geometry(pkg_ns: Seq<char>, pkg_name: Seq<char>)
    ensures
        text::fill(t::USE_GEOMETRY@, seq![("pkg_ns"@, pkg_ns), ("pkg_name"@, pkg_name)])
            == "use bindings::"@ + pkg_ns + "::"@ + pkg_name
                + "::postgis_types::{Geography, Geometry, PostgisError};\n"@,
{
    let s = t::USE_GEOMETRY@;
    let b = seq![("pkg_ns"@, pkg_ns), ("pkg_name"@, pkg_name)];
    reveal_strlit("use bindings::{pkg_ns}::{pkg_name}::postgis_types::{{Geography, Geometry, PostgisError}};\n");
    reveal_with_fuel(text::plain_to, 31);
    lemma_holes_pkg_ns_pkg_name(pkg_ns, pkg_name);
    reveal_strlit("use bindings::");
    assert(s.subrange(0, 14) =~= "use bindings::"@);
    text::lemma_fill_run(s, b, 0, "use bindings::"@);
    reveal_strlit("pkg_ns");
    assert(s.subrange(15, 21) =~= "pkg_ns"@);
    text::lemma_fill_hole(s, b, 14, "pkg_ns"@);
    reveal_strlit("::");
    assert(s.subrange(22, 24) =~= "::"@);
    text::lemma_fill_run(s, b, 22, "::"@);
    reveal_strlit("pkg_name");
    assert(s.subrange(25, 33) =~= "pkg_name"@);
    text::lemma_fill_hole(s, b, 24, "pkg_name"@);
    reveal_strlit("::postgis_types::");
    assert(s.subrange(34, 51) =~= "::postgis_types::"@);
    text::lemma_fill_run(s, b, 34, "::postgis_types::"@);
    assert(text::fill_from(s, b, 51) == seq!['{'] + text::fill_from(s, b, 53));
    reveal_strlit("Geography, Geometry, PostgisEr");
    assert(s.subrange(53, 83) =~= "Geography, Geometry, PostgisEr"@);
    text::lemma_fill_run(s, b, 53, "Geography, Geometry, PostgisEr"@);
    reveal_strlit("ror");
    assert(s.subrange(83, 86) =~= "ror"@);
    text::lemma_fill_run(s, b, 83, "ror"@);
    assert(text::fill_from(s, b, 86) == seq!['}'] + text::fill_from(s, b, 88));
    reveal_strlit(";\n");
    assert(s.subrange(88, 90) =~= ";\n"@);
    text::lemma_fill_run(s, b, 88, ";\n"@);
    reveal_strlit("::postgis_types::{Geography, Geometry, PostgisError};\n");
    assert((
        "use bindings::"@
            + (
                pkg_ns
                    + (
                        "::"@
                            + (
                                pkg_name
                                    + (
                                        "::postgis_types::"@
                                            + (
                                                seq!['{']
                                                    + (
                                                        "Geography, Geometry, PostgisEr"@
                                                            + (
                                                                "ror"@
                                                                    + (
                                                                        seq!['}']
                                                                            + (
                                                                                ";\n"@
                                                                                    + text::fill_from(
                                                                                        s,
                                                                                        b,
                                                                                        90,
                                                                                    )
                                                                            )
                                                                    )
                                                            )
                                                    )
                                            )
                                    )
                            )
                    )
            )
    )
        =~= "use bindings::"@ + pkg_ns + "::"@ + pkg_name
            + "::postgis_types::{Geography, Geometry, PostgisError};\n"@);
}

proof fn lemma_use_raster(pkg_ns: Seq<char>, pkg_name: Seq<char>)
    ensures
        text::fill(t::USE_RASTER@, seq![("pkg_ns"@, pkg_ns), ("pkg_name"@, pkg_name)])
            == "use bindings::"@ + pkg_ns + "::"@ + pkg_name
                + "::postgis_raster_types::{Raster, RasterError};\n"@,
{
    let s = t::USE_RASTER@;
    let b = seq![("pkg_ns"@, pkg_ns), ("pkg_name"@, pkg_name)];
    reveal_strlit("use bindings::{pkg_ns}::{pkg_name}::postgis_raster_types::{{Raster, RasterError}};\n");
    reveal_with_fuel(text::plain_to, 31);
    lemma_holes_pkg_ns_pkg_name(pkg_ns, pkg_name);
    reveal_strlit("use bindings::");
    assert(s.subrange(0, 14) =~= "use bindings::"@);
    text::lemma_fill_run(s, b, 0, "use bindings::"@);
    reveal_strlit("pkg_ns");
    assert(s.subrange(15, 21) =~= "pkg_ns"@);
    text::lemma_fill_hole(s, b, 14, "pkg_ns"@);
    reveal_strlit("::");
    assert(s.subrange(22, 24) =~= "::"@);
    text::lemma_fill_run(s, b, 22, "::"@);
    reveal_strlit("pkg_name");
    assert(s.subrange(25, 33) =~= "pkg_name"@);
    text::lemma_fill_hole(s, b, 24, "pkg_name"@);
    reveal_strlit("::postgis_raster_types::");
    assert(s.subrange(34, 58) =~= "::postgis_raster_types::"@);
    text::lemma_fill_run(s, b, 34, "::postgis_raster_types::"@);
    assert(text::fill_from(s, b, 58) == seq!['{'] + text::fill_from(s, b, 60));
    reveal_strlit("Raster, RasterError");
    assert(s.subrange(60, 79) =~= "Raster, RasterError"@);
    text::lemma_fill_run(s, b, 60, "Raster, RasterError"@);
    assert(text::fill_from(s, b, 79) == seq!['}'] + text::fill_from(s, b, 81));
    reveal_strlit(";\n");
    assert(s.subrange(81, 83) =~= ";\n"@);
    text::lemma_fill_run(s, b, 81, ";\n"@);
    reveal_strlit("::postgis_raster_types::{Raster, RasterError};\n");
    assert((
        "use bindings::"@
            + (
                pkg_ns
                    + (
                        "::"@
                            + (
                                pkg_name
                                    + (
                                        "::postgis_raster_types::"@
                                            + (
                                                seq!['{']
                                                    + (
                                                        "Raster, RasterError"@
                                                            + (
                                                                seq!['}']
                                                                    + (
                                                                        ";\n"@
                                                                            + text::fill_from(
                                                                                s,
                                                                                b,
                                                                                83,
                                                                            )
                                                                    )
                                                            )
                                                    )
                                            )
                                    )
                            )
                    )
            )
    )
        =~= "use bindings::"@ + pkg_ns + "::"@ + pkg_name
            + "::postgis_raster_types::{Raster, RasterError};\n"@);
}

proof fn lemma_use_topology(pkg_ns: Seq<char>, pkg_name: Seq<char>)
    ensures
        text::fill(t::USE_TOPOLOGY@, seq![("pkg_ns"@, pkg_ns), ("pkg_name"@, pkg_name)])
            == "use bindings::"@ + pkg_ns + "::"@ + pkg_name
                + "::postgis_topology_types::{Topology, TopologyError};\n"@,
{
    let s = t::USE_TOPOLOGY@;
    let b = seq![("pkg_ns"@, pkg_ns), ("pkg_name"@, pkg_name)];
    reveal_strlit("use bindings::{pkg_ns}::{pkg_name}::postgis_topology_types::{{Topology, TopologyError}};\n");
    reveal_with_fuel(text::plain_to, 31);
    lemma_holes_pkg_ns_pkg_name(pkg_ns, pkg_name);
    reveal_strlit("use bindings::");
    assert(s.subrange(0, 14) =~= "use bindings::"@);
    text::lemma_fill_run(s, b, 0, "use bindings::"@);
    reveal_strlit("pkg_ns");
    assert(s.subrange(15, 21) =~= "pkg_ns"@);
    text::lemma_fill_hole(s, b, 14, "pkg_ns"@);
    reveal_strlit("::");
    assert(s.subrange(22, 24) =~= "::"@);
    text::lemma_fill_run(s, b, 22, "::"@);
    reveal_strlit("pkg_name");
    assert(s.subrange(25, 33) =~= "pkg_name"@);
    text::lemma_fill_hole(s, b, 24, "pkg_name"@);
    reveal_strlit("::postgis_topology_types::");
    assert(s.subrange(34, 60) =~= "::postgis_topology_types::"@);
    text::lemma_fill_run(s, b, 34, "::postgis_topology_types::"@);
    assert(text::fill_from(s, b, 60) == seq!['{'] + text::fill_from(s, b, 62));
    reveal_strlit("Topology, TopologyError");
    assert(s.subrange(62, 85) =~= "Topology, TopologyError"@);
    text::lemma_fill_run(s, b, 62, "Topology, TopologyError"@);
    assert(text::fill_from(s, b, 85) == seq!['}'] + text::fill_from(s, b, 87));
    reveal_strlit(";\n");
    assert(s.subrange(87, 89) =~= ";\n"@);
    text::lemma_fill_run(s, b, 87, ";\n"@);
    reveal_strlit("::postgis_topology_types::{Topology, TopologyError};\n");
    assert((
        "use bindings::"@
            + (
                pkg_ns
                    + (
                        "::"@
                            + (
                                pkg_name
                                    + (
                                        "::postgis_topology_types::"@
                                            + (
                                                seq!['{']
                                                    + (
                                                        "Topology, TopologyError"@
                                                            + (
                                                                seq!['}']
                                                                    + (
                                                                        ";\n"@
                                                                            + text::fill_from(
                                                                                s,
                                                                                b,
                                                                                89,
                                                                            )
                                                                    )
                                                            )
                                                    )
                                            )
                                    )
                            )
                    )
            )
    )
        =~= "use bindings::"@ + pkg_ns + "::"@ + pkg_name
            + "::postgis_topology_types::{Topology, TopologyError};\n"@);
}

proof fn lemma_raster_helpers(pkg_ns: Seq<char>, pkg_name: Seq<char>)
    ensures
        words::has_piece(
            text::fill(t::RASTER_HELPERS@, seq![("pkg_ns"@, pkg_ns), ("pkg_name"@, pkg_name)]),
            "fn from_raster_binary(bytes: &[u8], name: &str) -> Result<Raster, String> "@,
        ),
        words::has_piece(
            text::fill(t::RASTER_HELPERS@, seq![("pkg_ns"@, pkg_ns), ("pkg_name"@, pkg_name)]),
            "bindings::"@ + pkg_ns + "::"@ + pkg_name
                + "::postgis_raster_types::from_binary(bytes)"@,
        ),
{
    let s = t::RASTER_HELPERS@;
    reveal_strlit(r#"

fn from_raster_binary(bytes: &[u8], name: &str) -> Result<Raster, String> {{
    bindings::{pkg_ns}::{pkg_name}::postgis_raster_types::from_binary(bytes)
        .map_err(|e| format!("{{}}: {{}}", name, raster_err_string(e)))
}}

/// Format a `raster-error` variant back to a string the SQL caller
/// can read.
fn raster_err_string(e: RasterError) -> String {{
    match e {{
        RasterError::ParseError(s)
        | RasterError::OutOfBounds(s)
        | RasterError::TypeMismatch(s)
        | RasterError::General(s) => s,
    }}
}}"#);
    reveal_with_fuel(text::plain_to, 31);
    reveal_with_fuel(text::passes_to, 46);
    let b = seq![("pkg_ns"@, pkg_ns), ("pkg_name"@, pkg_name)];
    lemma_holes_pkg_ns_pkg_name(pkg_ns, pkg_name);
    assert(words::has_piece(
        text::fill(t::RASTER_HELPERS@, b),
        "fn from_raster_binary(bytes: &[u8], name: &str) -> Result<Raster, String> "@,
    )) by {
        let before = text::lemma_fill_reaches(s, b, 0);
        reveal_strlit("\n\n");
        assert(s.subrange(0, 2) =~= "\n\n"@);
        text::lemma_fill_run(s, b, 0, "\n\n"@);
        reveal_strlit("fn from_raster_binary(bytes: &");
        assert(s.subrange(2, 32) =~= "fn from_raster_binary(bytes: &"@);
        text::lemma_fill_run(s, b, 2, "fn from_raster_binary(bytes: &"@);
        reveal_strlit("[u8], name: &str) -> Result<Ra");
        assert(s.subrange(32, 62) =~= "[u8], name: &str) -> Result<Ra"@);
        text::lemma_fill_run(s, b, 32, "[u8], name: &str) -> Result<Ra"@);
        reveal_strlit("ster, String> ");
        assert(s.subrange(62, 76) =~= "ster, String> "@);
        text::lemma_fill_run(s, b, 62, "ster, String> "@);
        let rest = text::fill_from(s, b, 76);
        let part = "fn from_raster_binary(bytes: &[u8], name: &str) -> Result<Raster, String> "@;
        reveal_strlit("fn from_raster_binary(bytes: &[u8], name: &str) -> Result<Raster, String> ");
        assert((
            "fn from_raster_binary(bytes: &"@
                + ("[u8], name: &str) -> Result<Ra"@ + ("ster, String> "@ + rest))
        )
            =~= part + rest);
        assert(before + ("\n\n"@ + (part + rest)) =~= (before + "\n\n"@) + (part + rest));
        words::lemma_piece_between(before + "\n\n"@, part, rest);
    }
    assert(words::has_piece(
        text::fill(t::RASTER_HELPERS@, b),
        "bindings::"@ + pkg_ns + "::"@ + pkg_name + "::postgis_raster_types::from_binary(bytes)"@,
    )) by {
        let before = text::lemma_fill_reaches(s, b, 0);
        let past_0 = text::lemma_fill_passes(s, b, 0, 45);
        let past_45 = text::lemma_fill_passes(s, b, 45, 83);
        reveal_strlit("bindings::");
        assert(s.subrange(83, 93) =~= "bindings::"@);
        text::lemma_fill_run(s, b, 83, "bindings::"@);
        reveal_strlit("pkg_ns");
        assert(s.subrange(94, 100) =~= "pkg_ns"@);
        text::lemma_fill_hole(s, b, 93, "pkg_ns"@);
        reveal_strlit("::");
        assert(s.subrange(101, 103) =~= "::"@);
        text::lemma_fill_run(s, b, 101, "::"@);
        reveal_strlit("pkg_name");
        assert(s.subrange(104, 112) =~= "pkg_name"@);
        text::lemma_fill_hole(s, b, 103, "pkg_name"@);
        reveal_strlit("::postgis_raster_types::from_b");
        assert(s.subrange(113, 143) =~= "::postgis_raster_types::from_b"@);
        text::lemma_fill_run(s, b, 113, "::postgis_raster_types::from_b"@);
        reveal_strlit("inary(bytes)");
        assert(s.subrange(143, 155) =~= "inary(bytes)"@);
        text::lemma_fill_run(s, b, 143, "inary(bytes)"@);
        let rest = text::fill_from(s, b, 155);
        let part = "bindings::"@ + pkg_ns + "::"@ + pkg_name + "::postgis_raster_types::from_binary(bytes)"@;
        reveal_strlit("::postgis_raster_types::from_binary(bytes)");
        assert((
            "bindings::"@
                + (
                    pkg_ns
                        + (
                            "::"@
                                + (
                                    pkg_name
                                        + (
                                            "::postgis_raster_types::from_b"@
                                                + ("inary(bytes)"@ + rest)
                                        )
                                )
                        )
                )
        )
            =~= part + rest);
        assert(before + (past_0 + (past_45 + (part + rest)))
            =~= (before + past_0 + past_45) + (part + rest));
        words::lemma_piece_between(before + past_0 + past_45, part, rest);
    }
}

proof fn lemma_topology_helpers(pkg_ns: Seq<char>, pkg_name: Seq<char>)
    ensures
        words::has_piece(
            text::fill(t::TOPOLOGY_HELPERS@, seq![("pkg_ns"@, pkg_ns), ("pkg_name"@, pkg_name)]),
            "fn from_topology_bytes(bytes: &[u8], name: &str) -> Result<Topology, String> "@,
        ),
        words::has_piece(
            text::fill(t::TOPOLOGY_HELPERS@, seq![("pkg_ns"@, pkg_ns), ("pkg_name"@, pkg_name)]),
            "bindings::"@ + pkg_ns + "::"@ + pkg_name
                + "::postgis_topology_types::from_bytes(bytes)"@,
        ),
{
    let s = t::TOPOLOGY_HELPERS@;
    reveal_strlit(r#"

fn from_topology_bytes(bytes: &[u8], name: &str) -> Result<Topology, String> {{
    bindings::{pkg_ns}::{pkg_name}::postgis_topology_types::from_bytes(bytes)
        .map_err(|e| format!("{{}}: {{}}", name, topology_err_string(e)))
}}

/// Format a `topology-error` variant back to a string the SQL caller
/// can read. The `*-not-found` arms render the numeric id alongside
/// a short label so the caller sees which primitive failed.
fn topology_err_string(e: TopologyError) -> String {{
    match e {{
        TopologyError::InvalidTopology(s) | TopologyError::General(s) => s,
        TopologyError::NodeNotFound(id) => format!("node not found: {{}}", id),
        TopologyError::EdgeNotFound(id) => format!("edge not found: {{}}", id),
        TopologyError::FaceNotFound(id) => format!("face not found: {{}}", id),
    }}
}}"#);
    reveal_with_fuel(text::plain_to, 31);
    reveal_with_fuel(text::passes_to, 46);
    let b = seq![("pkg_ns"@, pkg_ns), ("pkg_name"@, pkg_name)];
    lemma_holes_pkg_ns_pkg_name(pkg_ns, pkg_name);
    assert(words::has_piece(
        text::fill(t::TOPOLOGY_HELPERS@, b),
        "fn from_topology_bytes(bytes: &[u8], name: &str) -> Result<Topology, String> "@,
    )) by {
        let before = text::lemma_fill_reaches(s, b, 0);
        reveal_strlit("\n\n");
        assert(s.subrange(0, 2) =~= "\n\n"@);
        text::lemma_fill_run(s, b, 0, "\n\n"@);
        reveal_strlit("fn from_topology_bytes(bytes: ");
        assert(s.subrange(2, 32) =~= "fn from_topology_bytes(bytes: "@);
        text::lemma_fill_run(s, b, 2, "fn from_topology_bytes(bytes: "@);
        reveal_strlit("&[u8], name: &str) -> Result<T");
        assert(s.subrange(32, 62) =~= "&[u8], name: &str) -> Result<T"@);
        text::lemma_fill_run(s, b, 32, "&[u8], name: &str) -> Result<T"@);
        reveal_strlit("opology, String> ");
        assert(s.subrange(62, 79) =~= "opology, String> "@);
        text::lemma_fill_run(s, b, 62, "opology, String> "@);
        let rest = text::fill_from(s, b, 79);
        let part = "fn from_topology_bytes(bytes: &[u8], name: &str) -> Result<Topology, String> "@;
        reveal_strlit("fn from_topology_bytes(bytes: &[u8], name: &str) -> Result<Topology, String> ");
        assert((
            "fn from_topology_bytes(bytes: "@
                + ("&[u8], name: &str) -> Result<T"@ + ("opology, String> "@ + rest))
        )
            =~= part + rest);
        assert(before + ("\n\n"@ + (part + rest)) =~= (before + "\n\n"@) + (part + rest));
        words::lemma_piece_between(before + "\n\n"@, part, rest);
    }
    assert(words::has_piece(
        text::fill(t::TOPOLOGY_HELPERS@, b),
        "bindings::"@ + pkg_ns + "::"@ + pkg_name + "::postgis_topology_types::from_bytes(bytes)"@,
    )) by {
        let before = text::lemma_fill_reaches(s, b, 0);
        let past_0 = text::lemma_fill_passes(s, b, 0, 45);
        let past_45 = text::lemma_fill_passes(s, b, 45, 86);
        reveal_strlit("bindings::");
        assert(s.subrange(86, 96) =~= "bindings::"@);
        text::lemma_fill_run(s, b, 86, "bindings::"@);
        reveal_strlit("pkg_ns");
        assert(s.subrange(97, 103) =~= "pkg_ns"@);
        text::lemma_fill_hole(s, b, 96, "pkg_ns"@);
        reveal_strlit("::");
        assert(s.subrange(104, 106) =~= "::"@);
        text::lemma_fill_run(s, b, 104, "::"@);
        reveal_strlit("pkg_name");
        assert(s.subrange(107, 115) =~= "pkg_name"@);
        text::lemma_fill_hole(s, b, 106, "pkg_name"@);
        reveal_strlit("::postgis_topology_types::from");
        assert(s.subrange(116, 146) =~= "::postgis_topology_types::from"@);
        text::lemma_fill_run(s, b, 116, "::postgis_topology_types::from"@);
        reveal_strlit("_bytes(bytes)");
        assert(s.subrange(146, 159) =~= "_bytes(bytes)"@);
        text::lemma_fill_run(s, b, 146, "_bytes(bytes)"@);
        let rest = text::fill_from(s, b, 159);
        let part = "bindings::"@ + pkg_ns + "::"@ + pkg_name + "::postgis_topology_types::from_bytes(bytes)"@;
        reveal_strlit("::postgis_topology_types::from_bytes(bytes)");
        assert((
            "bindings::"@
                + (
                    pkg_ns
                        + (
                            "::"@
                                + (
                                    pkg_name
                                        + (
                                            "::postgis_topology_types::from"@
                                                + ("_bytes(bytes)"@ + rest)
                                        )
                                )
                        )
                )
        )
            =~= part + rest);
        assert(before + (past_0 + (past_45 + (part + rest)))
            =~= (before + past_0 + past_45) + (part + rest));
        words::lemma_piece_between(before + past_0 + past_45, part, rest);
    }
}

} // verus!
