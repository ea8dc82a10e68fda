//! The lifecycle of a bridge: what it registers when it is loaded.

use vstd::prelude::*;

use crate::ir::{self, BridgePlan};
use crate::text::{self, fill8};

verus! {

/// The lifecycle of a bridge. A name in braces is a hole.
pub const LIFECYCLE: &'static str = r#"
impl guest::Guest for {bridge_struct} {{
    fn load() -> Result<types::Loadresult, types::Duckerror> {{
{logical_type_call}        register_scalars()?;
        // #65: every scalar is also registered as a single-row TVF
        // so DuckDB's FROM-clause dispatcher can find it. Emission
        // is unconditional because every bridge has scalars; the
        // emitted body probes for the table capability and skips
        // (with a diagnostic) when it isn't advertised.
        register_scalar_tvfs()?;
{aggregate_call}{table_call}{cast_call}{window_call}        Ok(types::Loadresult {{
            name: "{primary}".into(),
            version: Some("{version}".into()),
            requires: Vec::new().into(),
        }})
    }}
    fn reconfigure(
        _keys: Vec<String>,
    ) -> Result<bool, types::Duckerror> {{
        Ok(false)
    }}
    fn shutdown() -> Result<bool, types::Duckerror> {{
        Ok(false)
    }}
}}
"#;

/// The call of a registration, where there is something to register.
pub open spec fn call_where(present: bool, call: Seq<char>) -> Seq<char> {
    if present {
        call
    } else {
        ""@
    }
}

fn pick_where(present: bool, call: &'static str) -> (r: &'static str)
    ensures
        r@ == call_where(present, call@),
{
    if present {
        call
    } else {
        ""
    }
}

/// The lifecycle of the bridge `bridge_struct`.
pub open spec fn lifecycle(
    bridge_struct: Seq<char>,
    plan: BridgePlan,
    has_aggregates: bool,
    has_tables: bool,
    has_casts: bool,
    has_windows: bool,
    has_logical_types: bool,
) -> Seq<char> {
    text::fill(
        LIFECYCLE@,
        seq![
            ("bridge_struct"@, bridge_struct),
            (
                "logical_type_call"@,
                call_where(has_logical_types, "        register_logical_types()?;\n"@),
            ),
            ("aggregate_call"@, call_where(has_aggregates, "        register_aggregates()?;\n"@)),
            ("table_call"@, call_where(has_tables, "        register_tables()?;\n"@)),
            ("cast_call"@, call_where(has_casts, "        register_casts()?;\n"@)),
            ("window_call"@, call_where(has_windows, "        register_windows()?;\n"@)),
            ("primary"@, ir::primary_name(plan)),
            ("version"@, ir::primary_version(plan)),
        ],
    )
}

/// Writes the lifecycle of the bridge `bridge_struct`: on loading it registers logical types
/// first, then scalars, then what else there is, and it reports the name and the version of
/// the primary extension.
pub fn render(
    bridge_struct: &str,
    plan: &BridgePlan,
    has_aggregates: bool,
    has_tables: bool,
    has_casts: bool,
    has_windows: bool,
    has_logical_types: bool,
) -> (r: String)
    ensures
        r@ == lifecycle(
            bridge_struct@,
            *plan,
            has_aggregates,
            has_tables,
            has_casts,
            has_windows,
            has_logical_types,
        ),
{
    fill8(
        LIFECYCLE,
        "bridge_struct",
        bridge_struct,
        "logical_type_call",
        pick_where(has_logical_types, "        register_logical_types()?;\n"),
        "aggregate_call",
        pick_where(has_aggregates, "        register_aggregates()?;\n"),
        "table_call",
        pick_where(has_tables, "        register_tables()?;\n"),
        "cast_call",
        pick_where(has_casts, "        register_casts()?;\n"),
        "window_call",
        pick_where(has_windows, "        register_windows()?;\n"),
        "primary",
        ir::primary_extension_name(plan),
        "version",
        ir::primary_extension_version(plan),
    )
}

} // verus!
