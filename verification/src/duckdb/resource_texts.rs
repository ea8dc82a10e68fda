//! Where the decoders of resources stand.

use vstd::prelude::*;
use vstd::string::*;

use crate::duckdb::emit_lib;
use crate::duckdb::lib_templates as t;
use crate::gather;
use crate::ir::{self, BridgePlan, WitPackage};
use crate::order;
use crate::packages;
use crate::text;
use crate::words;

verus! {

/// The decoders of rasters and topologies, and the lines that use the types of geometries, rasters
/// and topologies, are there exactly where the primary package declares the resource and its error.
pub proof fn law_resource_decoders(pkgs: Seq<WitPackage>, primary: Seq<char>)
    ensures
        ({
            let pkg = packages::primary_package(pkgs, primary);
            let geometry = packages::primary_has(pkgs, primary, "geometry"@, "postgis-error"@);
            let raster = packages::primary_has(pkgs, primary, "raster"@, "raster-error"@);
            let topology = packages::primary_has(pkgs, primary, "topology"@, "topology-error"@);
            let geometry_use = gather::where_resource(pkgs, primary, "geometry"@, "postgis-error"@, t::USE_GEOMETRY@);
            let raster_use = gather::where_resource(pkgs, primary, "raster"@, "raster-error"@, t::USE_RASTER@);
            let topology_use = gather::where_resource(pkgs, primary, "topology"@, "topology-error"@, t::USE_TOPOLOGY@);
            let rasters = gather::where_resource(pkgs, primary, "raster"@, "raster-error"@, t::RASTER_HELPERS@);
            let topologies = gather::where_resource(
                pkgs,
                primary,
                "topology"@,
                "topology-error"@,
                t::TOPOLOGY_HELPERS@,
            );
            &&& geometry ==> geometry_use
                == "use bindings::"@ + packages::ns_module(pkg) + "::"@ + packages::name_module(pkg)
                    + "::postgis_types::{Geography, Geometry, PostgisError};\n"@
            &&& raster ==> raster_use
                == "use bindings::"@ + packages::ns_module(pkg) + "::"@ + packages::name_module(pkg)
                    + "::postgis_raster_types::{Raster, RasterError};\n"@
            &&& topology ==> topology_use
                == "use bindings::"@ + packages::ns_module(pkg) + "::"@ + packages::name_module(pkg)
                    + "::postgis_topology_types::{Topology, TopologyError};\n"@
            &&& raster ==> words::has_piece(
                rasters,
                "fn from_raster_binary(bytes: &[u8], name: &str) -> Result<Raster, types::Duckerror> "@,
            )
            &&& topology ==> words::has_piece(
                topologies,
                "fn from_topology_bytes(bytes: &[u8], name: &str) -> Result<Topology, types::Duckerror> "@,
            )
            &&& !geometry ==> geometry_use.len() == 0
            &&& !raster ==> raster_use.len() == 0 && rasters.len() == 0
            &&& !topology ==> topology_use.len() == 0 && topologies.len() == 0
        }),
        words::has_piece(
            t::POSTGIS_HELPERS_BODY@,
            "fn from_wkb(bytes: &[u8], name: &str) -> Result<Geometry, types::Duckerror> "@,
        ),
        words::has_piece(
            t::POSTGIS_HELPERS_BODY@,
            "fn geog_from_wkb(bytes: &[u8], name: &str) -> Result<Geography, types::Duckerror> "@,
        ),
{
    let pkg = packages::primary_package(pkgs, primary);
    let ns = packages::ns_module(pkg);
    let name = packages::name_module(pkg);
    lemma_geometry_helpers();
    lemma_raster_helpers(ns, name);
    lemma_topology_helpers(ns, name);
    lemma_use_geometry(ns, name);
    lemma_use_raster(ns, name);
    lemma_use_topology(ns, name);
}

/// The helpers of a source hold the decoders of each resource that the primary package declares with
/// its error.
pub proof fn law_decoders_in_source(plan: BridgePlan, inputs: emit_lib::BridgeInputs)
    ensures
        ({
            let s = emit_lib::source_helpers(plan, inputs);
            let pkgs = inputs.shim_packages@;
            let primary = ir::primary_name(plan);
            &&& packages::primary_has(pkgs, primary, "geometry"@, "postgis-error"@) ==> words::has_piece(
                s,
                "fn from_wkb(bytes: &[u8], name: &str) -> Result<Geometry, types::Duckerror> "@,
            )
            &&& packages::primary_has(pkgs, primary, "raster"@, "raster-error"@) ==> words::has_piece(
                s,
                "fn from_raster_binary(bytes: &[u8], name: &str) -> Result<Raster, types::Duckerror> "@,
            )
            &&& packages::primary_has(pkgs, primary, "topology"@, "topology-error"@) ==> words::has_piece(
                s,
                "fn from_topology_bytes(bytes: &[u8], name: &str) -> Result<Topology, types::Duckerror> "@,
            )
        }),
{
    let pkgs = inputs.shim_packages@;
    let primary = ir::primary_name(plan);
    law_resource_decoders(pkgs, primary);
    let start = t::DUCKVALUE_HELPERS@ + t::COLVEC_HELPERS@;
    let a = if packages::primary_has(pkgs, primary, "geometry"@, "postgis-error"@) {
        t::POSTGIS_HELPERS_BODY@
    } else {
        ""@
    };
    let b = gather::where_resource(pkgs, primary, "raster"@, "raster-error"@, t::RASTER_HELPERS@);
    let c = gather::where_resource(pkgs, primary, "topology"@, "topology-error"@, t::TOPOLOGY_HELPERS@);
    let d = gather::tuple_helpers_block(
        t::TUPLE_HELPERS_HEADER@,
        t::TUPLE_HELPER@,
        order::sorted_set(
            gather::scalar_signatures(inputs.scalar_entries@, inputs.scalar_entries@.len()),
        ),
    );
    let e = emit_lib::mixed_helpers_block(inputs.scalar_entries@);
    let f = emit_lib::wit_value_block(
        inputs.records@,
        primary,
        emit_lib::referenced_records(inputs.scalar_entries@, inputs.aggregate_entries@),
    );
    let s = emit_lib::source_helpers(plan, inputs);
    let rest = c + d + e + f;
    assert(s =~= start + a + b + c + d + e + f);
    assert(start + a + b + c + d + e + f =~= (start + a) + (b + rest));
    assert(start + a + b + c + d + e + f =~= start + (a + (b + rest)));
    assert(start + a + b + c + d + e + f =~= (start + a + b) + (c + (d + e + f)));
    words::lemma_piece_between(start, a, b + rest);
    words::lemma_piece_between(start + a, b, rest);
    words::lemma_piece_between(start + a + b, c, d + e + f);
    words::lemma_pieces_of_piece(s, a);
    words::lemma_pieces_of_piece(s, b);
    words::lemma_pieces_of_piece(s, c);
}

proof fn lemma_geometry_helpers()
    ensures
        words::has_piece(
            t::POSTGIS_HELPERS_BODY@,
            "fn from_wkb(bytes: &[u8], name: &str) -> Result<Geometry, types::Duckerror> "@,
        ),
        words::has_piece(
            t::POSTGIS_HELPERS_BODY@,
            "fn geog_from_wkb(bytes: &[u8], name: &str) -> Result<Geography, types::Duckerror> "@,
        ),
{
    let s = t::POSTGIS_HELPERS_BODY@;
    reveal_strlit(r#"
// ─── PostGIS WKB decoders ───

fn from_wkb(bytes: &[u8], name: &str) -> Result<Geometry, types::Duckerror> {
    Geometry::from_wkb(bytes).map_err(|e| types::Duckerror::Invalidargument(format!("{name}: {}", postgis_err_string(e))))
}

fn geog_from_wkb(bytes: &[u8], name: &str) -> Result<Geography, types::Duckerror> {
    Geography::from_wkb(bytes).map_err(|e| types::Duckerror::Invalidargument(format!("{name}: {}", postgis_err_string(e))))
}

fn postgis_err_string(e: PostgisError) -> String {
    match e {
        PostgisError::InvalidGeometry(s)
        | PostgisError::ParseError(s)
        | PostgisError::UnsupportedOperation(s)
        | PostgisError::NumericError(s)
        | PostgisError::SridMismatch(s)
        | PostgisError::General(s) => s,
    }
}
"#);
    reveal_strlit("fn from_wkb(bytes: &[u8], name: &str) -> Result<Geometry, types::Duckerror> ");
    assert(s.subrange(34, 110)
        =~= "fn from_wkb(bytes: &[u8], name: &str) -> Result<Geometry, types::Duckerror> "@);
    assert(words::stands_at(
        s,
        "fn from_wkb(bytes: &[u8], name: &str) -> Result<Geometry, types::Duckerror> "@,
        34,
    ));
    reveal_strlit("fn geog_from_wkb(bytes: &[u8], name: &str) -> Result<Geography, types::Duckerror> ");
    assert(s.subrange(238, 320)
        =~= "fn geog_from_wkb(bytes: &[u8], name: &str) -> Result<Geography, types::Duckerror> "@);
    assert(words::stands_at(
        s,
        "fn geog_from_wkb(bytes: &[u8], name: &str) -> Result<Geography, types::Duckerror> "@,
        238,
    ));
}

proof fn lemma_holes_pkg_ns_pkg_name(pkg_ns: Seq<char>, pkg_name: Seq<char>)
    ensures
        ({
            let b = seq![("pkg_ns"@, pkg_ns), ("pkg_name"@, pkg_name)];
            &&& text::lookup_from(b, "pkg_ns"@, 0) == pkg_ns
            &&& text::lookup_from(b, "pkg_name"@, 0) == pkg_name
        }),
{
    reveal_strlit("pkg_ns");
    reveal_strlit("pkg_name");
    reveal_with_fuel(text::lookup_from, 3);
    assert("pkg_ns"@.len() != "pkg_name"@.len());
}

proof fn lemma_use_geometry(pkg_ns: Seq<char>, pkg_name: Seq<char>)
    ensures
        text::fill(t::USE_GEOMETRY@, seq![("pkg_ns"@, pkg_ns), ("pkg_name"@, pkg_name)])
            == "use bindings::"@ + pkg_ns + "::"@ + pkg_name
                + "::postgis_types::{Geography, Geometry, PostgisError};\n"@,
{
    let s = t::USE_GEOMETRY@;
    let b = seq![("pkg_ns"@, pkg_ns), ("pkg_name"@, pkg_name)];
    reveal_strlit("use bindings::{pkg_ns}::{pkg_name}::postgis_types::{{Geography, Geometry, PostgisError}};\n");
    reveal_with_fuel(text::plain_to, 31);
    lemma_holes_pkg_ns_pkg_name(pkg_ns, pkg_name);
    reveal_strlit("use bindings::");
    assert(s.subrange(0, 14) =~= "use bindings::"@);
    text::lemma_fill_run(s, b, 0, "use bindings::"@);
    reveal_strlit("pkg_ns");
    assert(s.subrange(15, 21) =~= "pkg_ns"@);
    text::lemma_fill_hole(s, b, 14, "pkg_ns"@);
    reveal_strlit("::");
    assert(s.subrange(22, 24) =~= "::"@);
    text::lemma_fill_run(s, b, 22, "::"@);
    reveal_strlit("pkg_name");
    assert(s.subrange(25, 33) =~= "pkg_name"@);
    text::lemma_fill_hole(s, b, 24, "pkg_name"@);
    reveal_strlit("::postgis_types::");
    assert(s.subrange(34, 51) =~= "::postgis_types::"@);
    text::lemma_fill_run(s, b, 34, "::postgis_types::"@);
    assert(text::fill_from(s, b, 51) == seq!['{'] + text::fill_from(s, b, 53));
    reveal_strlit("Geography, Geometry, PostgisEr");
    assert(s.subrange(53, 83) =~= "Geography, Geometry, PostgisEr"@);
    text::lemma_fill_run(s, b, 53, "Geography, Geometry, PostgisEr"@);
    reveal_strlit("ror");
    assert(s.subrange(83, 86) =~= "ror"@);
    text::lemma_fill_run(s, b, 83, "ror"@);
    assert(text::fill_from(s, b, 86) == seq!['}'] + text::fill_from(s, b, 88));
    reveal_strlit(";\n");
    assert(s.subrange(88, 90) =~= ";\n"@);
    text::lemma_fill_run(s, b, 88, ";\n"@);
    reveal_strlit("::postgis_types::{Geography, Geometry, PostgisError};\n");
    assert((
        "use bindings::"@
            + (
                pkg_ns
                    + (
                        "::"@
                            + (
                                pkg_name
                                    + (
                                        "::postgis_types::"@
                                            + (
                                                seq!['{']
                                                    + (
                                                        "Geography, Geometry, PostgisEr"@
                                                            + (
                                                                "ror"@
                                                                    + (
                                                                        seq!['}']
                                                                            + (
                                                                                ";\n"@
                                                                                    + text::fill_from(
                                                                                        s,
                                                                                        b,
                                                                                        90,
                                                                                    )
                                                                            )
                                                                    )
                                                            )
                                                    )
                                            )
                                    )
                            )
                    )
            )
    )
        =~= "use bindings::"@ + pkg_ns + "::"@ + pkg_name
            + "::postgis_types::{Geography, Geometry, PostgisError};\n"@);
}

proof fn lemma_use_raster(pkg_ns: Seq<char>, pkg_name: Seq<char>)
    ensures
        text::fill(t::USE_RASTER@, seq![("pkg_ns"@, pkg_ns), ("pkg_name"@, pkg_name)])
            == "use bindings::"@ + pkg_ns + "::"@ + pkg_name
                + "::postgis_raster_types::{Raster, RasterError};\n"@,
{
    let s = t::USE_RASTER@;
    let b = seq![("pkg_ns"@, pkg_ns), ("pkg_name"@, pkg_name)];
    reveal_strlit("use bindings::{pkg_ns}::{pkg_name}::postgis_raster_types::{{Raster, RasterError}};\n");
    reveal_with_fuel(text::plain_to, 31);
    lemma_holes_pkg_ns_pkg_name(pkg_ns, pkg_name);
    reveal_strlit("use bindings::");
    assert(s.subrange(0, 14) =~= "use bindings::"@);
    text::lemma_fill_run(s, b, 0, "use bindings::"@);
    reveal_strlit("pkg_ns");
    assert(s.subrange(15, 21) =~= "pkg_ns"@);
    text::lemma_fill_hole(s, b, 14, "pkg_ns"@);
    reveal_strlit("::");
    assert(s.subrange(22, 24) =~= "::"@);
    text::lemma_fill_run(s, b, 22, "::"@);
    reveal_strlit("pkg_name");
    assert(s.subrange(25, 33) =~= "pkg_name"@);
    text::lemma_fill_hole(s, b, 24, "pkg_name"@);
    reveal_strlit("::postgis_raster_types::");
    assert(s.subrange(34, 58) =~= "::postgis_raster_types::"@);
    text::lemma_fill_run(s, b, 34, "::postgis_raster_types::"@);
    assert(text::fill_from(s, b, 58) == seq!['{'] + text::fill_from(s, b, 60));
    reveal_strlit("Raster, RasterError");
    assert(s.subrange(60, 79) =~= "Raster, RasterError"@);
    text::lemma_fill_run(s, b, 60, "Raster, RasterError"@);
    assert(text::fill_from(s, b, 79) == seq!['}'] + text::fill_from(s, b, 81));
    reveal_strlit(";\n");
    assert(s.subrange(81, 83) =~= ";\n"@);
    text::lemma_fill_run(s, b, 81, ";\n"@);
    reveal_strlit("::postgis_raster_types::{Raster, RasterError};\n");
    assert((
        "use bindings::"@
            + (
                pkg_ns
                    + (
                        "::"@
                            + (
                                pkg_name
                                    + (
                                        "::postgis_raster_types::"@
                                            + (
                                                seq!['{']
                                                    + (
                                                        "Raster, RasterError"@
                                                            + (
                                                                seq!['}']
                                                                    + (
                                                                        ";\n"@
                                                                            + text::fill_from(
                                                                                s,
                                                                                b,
                                                                                83,
                                                                            )
                                                                    )
                                                            )
                                                    )
                                            )
                                    )
                            )
                    )
            )
    )
        =~= "use bindings::"@ + pkg_ns + "::"@ + pkg_name
            + "::postgis_raster_types::{Raster, RasterError};\n"@);
}

proof fn lemma_use_topology(pkg_ns: Seq<char>, pkg_name: Seq<char>)
    ensures
        text::fill(t::USE_TOPOLOGY@, seq![("pkg_ns"@, pkg_ns), ("pkg_name"@, pkg_name)])
            == "use bindings::"@ + pkg_ns + "::"@ + pkg_name
                + "::postgis_topology_types::{Topology, TopologyError};\n"@,
{
    let s = t::USE_TOPOLOGY@;
    let b = seq![("pkg_ns"@, pkg_ns), ("pkg_name"@, pkg_name)];
    reveal_strlit("use bindings::{pkg_ns}::{pkg_name}::postgis_topology_types::{{Topology, TopologyError}};\n");
    reveal_with_fuel(text::plain_to, 31);
    lemma_holes_pkg_ns_pkg_name(pkg_ns, pkg_name);
    reveal_strlit("use bindings::");
    assert(s.subrange(0, 14) =~= "use bindings::"@);
    text::lemma_fill_run(s, b, 0, "use bindings::"@);
    reveal_strlit("pkg_ns");
    assert(s.subrange(15, 21) =~= "pkg_ns"@);
    text::lemma_fill_hole(s, b, 14, "pkg_ns"@);
    reveal_strlit("::");
    assert(s.subrange(22, 24) =~= "::"@);
    text::lemma_fill_run(s, b, 22, "::"@);
    reveal_strlit("pkg_name");
    assert(s.subrange(25, 33) =~= "pkg_name"@);
    text::lemma_fill_hole(s, b, 24, "pkg_name"@);
    reveal_strlit("::postgis_topology_types::");
    assert(s.subrange(34, 60) =~= "::postgis_topology_types::"@);
    text::lemma_fill_run(s, b, 34, "::postgis_topology_types::"@);
    assert(text::fill_from(s, b, 60) == seq!['{'] + text::fill_from(s, b, 62));
    reveal_strlit("Topology, TopologyError");
    assert(s.subrange(62, 85) =~= "Topology, TopologyError"@);
    text::lemma_fill_run(s, b, 62, "Topology, TopologyError"@);
    assert(text::fill_from(s, b, 85) == seq!['}'] + text::fill_from(s, b, 87));
    reveal_strlit(";\n");
    assert(s.subrange(87, 89) =~= ";\n"@);
    text::lemma_fill_run(s, b, 87, ";\n"@);
    reveal_strlit("::postgis_topology_types::{Topology, TopologyError};\n");
    assert((
        "use bindings::"@
            + (
                pkg_ns
                    + (
                        "::"@
                            + (
                                pkg_name
                                    + (
                                        "::postgis_topology_types::"@
                                            + (
                                                seq!['{']
                                                    + (
                                                        "Topology, TopologyError"@
                                                            + (
                                                                seq!['}']
                                                                    + (
                                                                        ";\n"@
                                                                            + text::fill_from(
                                                                                s,
                                                                                b,
                                                                                89,
                                                                            )
                                                                    )
                                                            )
                                                    )
                                            )
                                    )
                            )
                    )
            )
    )
        =~= "use bindings::"@ + pkg_ns + "::"@ + pkg_name
            + "::postgis_topology_types::{Topology, TopologyError};\n"@);
}

proof fn lemma_raster_helpers(pkg_ns: Seq<char>, pkg_name: Seq<char>)
    ensures
        words::has_piece(
            text::fill(t::RASTER_HELPERS@, seq![("pkg_ns"@, pkg_ns), ("pkg_name"@, pkg_name)]),
            "fn from_raster_binary(bytes: &[u8], name: &str) -> Result<Raster, types::Duckerror> "@,
        ),
        words::has_piece(
            text::fill(t::RASTER_HELPERS@, seq![("pkg_ns"@, pkg_ns), ("pkg_name"@, pkg_name)]),
            "bindings::"@ + pkg_ns + "::"@ + pkg_name
                + "::postgis_raster_types::from_binary(bytes)"@,
        ),
{
    let s = t::RASTER_HELPERS@;
    reveal_strlit(r#"
// ─── PostGIS raster decoders ───

fn from_raster_binary(bytes: &[u8], name: &str) -> Result<Raster, types::Duckerror> {{
    bindings::{pkg_ns}::{pkg_name}::postgis_raster_types::from_binary(bytes)
        .map_err(|e| types::Duckerror::Invalidargument(format!("{{}}: {{}}", name, raster_err_string(e))))
}}

fn raster_err_string(e: RasterError) -> String {{
    match e {{
        RasterError::ParseError(s)
        | RasterError::OutOfBounds(s)
        | RasterError::TypeMismatch(s)
        | RasterError::General(s) => s,
    }}
}}
"#);
    reveal_with_fuel(text::plain_to, 31);
    reveal_with_fuel(text::passes_to, 46);
    let b = seq![("pkg_ns"@, pkg_ns), ("pkg_name"@, pkg_name)];
    lemma_holes_pkg_ns_pkg_name(pkg_ns, pkg_name);
    assert(words::has_piece(
        text::fill(t::RASTER_HELPERS@, b),
        "fn from_raster_binary(bytes: &[u8], name: &str) -> Result<Raster, types::Duckerror> "@,
    )) by {
        let before = text::lemma_fill_reaches(s, b, 0);
        reveal_strlit("\n// ─── PostGIS raster decoder");
        assert(s.subrange(0, 30) =~= "\n// ─── PostGIS raster decoder"@);
        text::lemma_fill_run(s, b, 0, "\n// ─── PostGIS raster decoder"@);
        reveal_strlit("s ───\n\n");
        assert(s.subrange(30, 37) =~= "s ───\n\n"@);
        text::lemma_fill_run(s, b, 30, "s ───\n\n"@);
        reveal_strlit("fn from_raster_binary(bytes: &");
        assert(s.subrange(37, 67) =~= "fn from_raster_binary(bytes: &"@);
        text::lemma_fill_run(s, b, 37, "fn from_raster_binary(bytes: &"@);
        reveal_strlit("[u8], name: &str) -> Result<Ra");
        assert(s.subrange(67, 97) =~= "[u8], name: &str) -> Result<Ra"@);
        text::lemma_fill_run(s, b, 67, "[u8], name: &str) -> Result<Ra"@);
        reveal_strlit("ster, types::Duckerror> ");
        assert(s.subrange(97, 121) =~= "ster, types::Duckerror> "@);
        text::lemma_fill_run(s, b, 97, "ster, types::Duckerror> "@);
        let rest = text::fill_from(s, b, 121);
        let part = "fn from_raster_binary(bytes: &[u8], name: &str) -> Result<Raster, types::Duckerror> "@;
        reveal_strlit("fn from_raster_binary(bytes: &[u8], name: &str) -> Result<Raster, types::Duckerror> ");
        assert((
            "fn from_raster_binary(bytes: &"@
                + ("[u8], name: &str) -> Result<Ra"@ + ("ster, types::Duckerror> "@ + rest))
        )
            =~= part + rest);
        assert(before + ("\n// ─── PostGIS raster decoder"@ + ("s ───\n\n"@ + (part + rest)))
            =~= (before + "\n// ─── PostGIS raster decoder"@ + "s ───\n\n"@) + (part + rest));
        words::lemma_piece_between(
            before + "\n// ─── PostGIS raster decoder"@ + "s ───\n\n"@,
            part,
            rest,
        );
    }
    assert(words::has_piece(
        text::fill(t::RASTER_HELPERS@, b),
        "bindings::"@ + pkg_ns + "::"@ + pkg_name + "::postgis_raster_types::from_binary(bytes)"@,
    )) by {
        let before = text::lemma_fill_reaches(s, b, 0);
        let past_0 = text::lemma_fill_passes(s, b, 0, 45);
        let past_45 = text::lemma_fill_passes(s, b, 45, 90);
        let past_90 = text::lemma_fill_passes(s, b, 90, 128);
        reveal_strlit("bindings::");
        assert(s.subrange(128, 138) =~= "bindings::"@);
        text::lemma_fill_run(s, b, 128, "bindings::"@);
        reveal_strlit("pkg_ns");
        assert(s.subrange(139, 145) =~= "pkg_ns"@);
        text::lemma_fill_hole(s, b, 138, "pkg_ns"@);
        reveal_strlit("::");
        assert(s.subrange(146, 148) =~= "::"@);
        text::lemma_fill_run(s, b, 146, "::"@);
        reveal_strlit("pkg_name");
        assert(s.subrange(149, 157) =~= "pkg_name"@);
        text::lemma_fill_hole(s, b, 148, "pkg_name"@);
        reveal_strlit("::postgis_raster_types::from_b");
        assert(s.subrange(158, 188) =~= "::postgis_raster_types::from_b"@);
        text::lemma_fill_run(s, b, 158, "::postgis_raster_types::from_b"@);
        reveal_strlit("inary(bytes)");
        assert(s.subrange(188, 200) =~= "inary(bytes)"@);
        text::lemma_fill_run(s, b, 188, "inary(bytes)"@);
        let rest = text::fill_from(s, b, 200);
        let part = "bindings::"@ + pkg_ns + "::"@ + pkg_name + "::postgis_raster_types::from_binary(bytes)"@;
        reveal_strlit("::postgis_raster_types::from_binary(bytes)");
        assert((
            "bindings::"@
                + (
                    pkg_ns
                        + (
                            "::"@
                                + (
                                    pkg_name
                                        + (
                                            "::postgis_raster_types::from_b"@
                                                + ("inary(bytes)"@ + rest)
                                        )
                                )
                        )
                )
        )
            =~= part + rest);
        assert(before + (past_0 + (past_45 + (past_90 + (part + rest))))
            =~= (before + past_0 + past_45 + past_90) + (part + rest));
        words::lemma_piece_between(before + past_0 + past_45 + past_90, part, rest);
    }
}

proof fn lemma_topology_helpers(pkg_ns: Seq<char>, pkg_name: Seq<char>)
    ensures
        words::has_piece(
            text::fill(t::TOPOLOGY_HELPERS@, seq![("pkg_ns"@, pkg_ns), ("pkg_name"@, pkg_name)]),
            "fn from_topology_bytes(bytes: &[u8], name: &str) -> Result<Topology, types::Duckerror> "@,
        ),
        words::has_piece(
            text::fill(t::TOPOLOGY_HELPERS@, seq![("pkg_ns"@, pkg_ns), ("pkg_name"@, pkg_name)]),
            "bindings::"@ + pkg_ns + "::"@ + pkg_name
                + "::postgis_topology_types::from_bytes(bytes)"@,
        ),
{
    let s = t::TOPOLOGY_HELPERS@;
    reveal_strlit(r#"
// ─── PostGIS topology decoders ───

fn from_topology_bytes(bytes: &[u8], name: &str) -> Result<Topology, types::Duckerror> {{
    bindings::{pkg_ns}::{pkg_name}::postgis_topology_types::from_bytes(bytes)
        .map_err(|e| types::Duckerror::Invalidargument(format!("{{}}: {{}}", name, topology_err_string(e))))
}}

fn topology_err_string(e: TopologyError) -> String {{
    match e {{
        TopologyError::InvalidTopology(s) | TopologyError::General(s) => s,
        TopologyError::NodeNotFound(id) => format!("node not found: {{}}", id),
        TopologyError::EdgeNotFound(id) => format!("edge not found: {{}}", id),
        TopologyError::FaceNotFound(id) => format!("face not found: {{}}", id),
    }}
}}
"#);
    reveal_with_fuel(text::plain_to, 31);
    reveal_with_fuel(text::passes_to, 46);
    let b = seq![("pkg_ns"@, pkg_ns), ("pkg_name"@, pkg_name)];
    lemma_holes_pkg_ns_pkg_name(pkg_ns, pkg_name);
    assert(words::has_piece(
        text::fill(t::TOPOLOGY_HELPERS@, b),
        "fn from_topology_bytes(bytes: &[u8], name: &str) -> Result<Topology, types::Duckerror> "@,
    )) by {
        let before = text::lemma_fill_reaches(s, b, 0);
        reveal_strlit("\n// ─── PostGIS topology decod");
        assert(s.subrange(0, 30) =~= "\n// ─── PostGIS topology decod"@);
        text::lemma_fill_run(s, b, 0, "\n// ─── PostGIS topology decod"@);
        reveal_strlit("ers ───\n\n");
        assert(s.subrange(30, 39) =~= "ers ───\n\n"@);
        text::lemma_fill_run(s, b, 30, "ers ───\n\n"@);
        reveal_strlit("fn from_topology_bytes(bytes: ");
        assert(s.subrange(39, 69) =~= "fn from_topology_bytes(bytes: "@);
        text::lemma_fill_run(s, b, 39, "fn from_topology_bytes(bytes: "@);
        reveal_strlit("&[u8], name: &str) -> Result<T");
        assert(s.subrange(69, 99) =~= "&[u8], name: &str) -> Result<T"@);
        text::lemma_fill_run(s, b, 69, "&[u8], name: &str) -> Result<T"@);
        reveal_strlit("opology, types::Duckerror> ");
        assert(s.subrange(99, 126) =~= "opology, types::Duckerror> "@);
        text::lemma_fill_run(s, b, 99, "opology, types::Duckerror> "@);
        let rest = text::fill_from(s, b, 126);
        let part = "fn from_topology_bytes(bytes: &[u8], name: &str) -> Result<Topology, types::Duckerror> "@;
        reveal_strlit("fn from_topology_bytes(bytes: &[u8], name: &str) -> Result<Topology, types::Duckerror> ");
        assert((
            "fn from_topology_bytes(bytes: "@
                + ("&[u8], name: &str) -> Result<T"@ + ("opology, types::Duckerror> "@ + rest))
        )
            =~= part + rest);
        assert(before + ("\n// ─── PostGIS topology decod"@ + ("ers ───\n\n"@ + (part + rest)))
            =~= (before + "\n// ─── PostGIS topology decod"@ + "ers ───\n\n"@) + (part + rest));
        words::lemma_piece_between(
            before + "\n// ─── PostGIS topology decod"@ + "ers ───\n\n"@,
            part,
            rest,
        );
    }
    assert(words::has_piece(
        text::fill(t::TOPOLOGY_HELPERS@, b),
        "bindings::"@ + pkg_ns + "::"@ + pkg_name + "::postgis_topology_types::from_bytes(bytes)"@,
    )) by {
        let before = text::lemma_fill_reaches(s, b, 0);
        let past_0 = text::lemma_fill_passes(s, b, 0, 45);
        let past_45 = text::lemma_fill_passes(s, b, 45, 90);
        let past_90 = text::lemma_fill_passes(s, b, 90, 133);
        reveal_strlit("bindings::");
        assert(s.subrange(133, 143) =~= "bindings::"@);
        text::lemma_fill_run(s, b, 133, "bindings::"@);
        reveal_strlit("pkg_ns");
        assert(s.subrange(144, 150) =~= "pkg_ns"@);
        text::lemma_fill_hole(s, b, 143, "pkg_ns"@);
        reveal_strlit("::");
        assert(s.subrange(151, 153) =~= "::"@);
        text::lemma_fill_run(s, b, 151, "::"@);
        reveal_strlit("pkg_name");
        assert(s.subrange(154, 162) =~= "pkg_name"@);
        text::lemma_fill_hole(s, b, 153, "pkg_name"@);
        reveal_strlit("::postgis_topology_types::from");
        assert(s.subrange(163, 193) =~= "::postgis_topology_types::from"@);
        text::lemma_fill_run(s, b, 163, "::postgis_topology_types::from"@);
        reveal_strlit("_bytes(bytes)");
        assert(s.subrange(193, 206) =~= "_bytes(bytes)"@);
        text::lemma_fill_run(s, b, 193, "_bytes(bytes)"@);
        let rest = text::fill_from(s, b, 206);
        let part = "bindings::"@ + pkg_ns + "::"@ + pkg_name + "::postgis_topology_types::from_bytes(bytes)"@;
        reveal_strlit("::postgis_topology_types::from_bytes(bytes)");
        assert((
            "bindings::"@
                + (
                    pkg_ns
                        + (
                            "::"@
                                + (
                                    pkg_name
                                        + (
                                            "::postgis_topology_types::from"@
                                                + ("_bytes(bytes)"@ + rest)
                                        )
                                )
                        )
                )
        )
            =~= part + rest);
        assert(before + (past_0 + (past_45 + (past_90 + (part + rest))))
            =~= (before + past_0 + past_45 + past_90) + (part + rest));
        words::lemma_piece_between(before + past_0 + past_45 + past_90, part, rest);
    }
}

} // verus!
