//! The texts that registrations are made of. A name in braces is a hole.

use vstd::prelude::*;

verus! {

pub const SCALAR_PRELUDE: &'static str = r#"
fn register_scalars() -> Result<(), types::Duckerror> {
    let capability = runtime::get_capability(types::Capabilitykind::Scalar)
        .ok_or_else(|| {
            types::Duckerror::Internal(
                "host did not expose scalar capability".into(),
            )
        })?;
    let registry = match capability {
        runtime::Capability::Scalar(r) => r,
        _ => {
            return Err(types::Duckerror::Internal(
                "scalar capability returned unexpected variant".into(),
            ));
        }
    };
"#;

pub const AGGREGATE_PRELUDE: &'static str = r#"
fn register_aggregates() -> Result<(), types::Duckerror> {
    let capability = runtime::get_capability(types::Capabilitykind::Aggregate)
        .ok_or_else(|| {
            types::Duckerror::Internal(
                "host did not expose aggregate capability".into(),
            )
        })?;
    let registry = match capability {
        runtime::Capability::Aggregate(r) => r,
        _ => {
            return Err(types::Duckerror::Internal(
                "aggregate capability returned unexpected variant".into(),
            ));
        }
    };
"#;

pub const WINDOW_PRELUDE: &'static str = r#"
fn register_windows() -> Result<(), types::Duckerror> {
    let capability = runtime::get_capability(types::Capabilitykind::Aggregate)
        .ok_or_else(|| {
            types::Duckerror::Internal(
                "host did not expose aggregate capability (window registration)".into(),
            )
        })?;
    let registry = match capability {
        runtime::Capability::Aggregate(r) => r,
        _ => {
            return Err(types::Duckerror::Internal(
                "aggregate capability returned unexpected variant (window registration)".into(),
            ));
        }
    };
"#;

pub const TABLE_PRELUDE: &'static str = r#"
fn register_tables() -> Result<(), types::Duckerror> {
    let capability = runtime::get_capability(types::Capabilitykind::Table)
        .ok_or_else(|| {
            types::Duckerror::Internal(
                "host did not expose table capability".into(),
            )
        })?;
    let registry = match capability {
        runtime::Capability::Table(r) => r,
        _ => {
            return Err(types::Duckerror::Internal(
                "table capability returned unexpected variant".into(),
            ));
        }
    };
"#;

pub const CAST_PRELUDE: &'static str = r#"
fn register_casts() -> Result<(), types::Duckerror> {
"#;

pub const CLOSING: &'static str = r#"    Ok(())
}
"#;

pub const FUNC_ARG: &'static str = r#"            runtime::Funcarg {{
                name: Some("arg{i}".into()),
                logical: {logical},
            }},
"#;

pub const COLUMN_DEF: &'static str = r#"            runtime::Columndef {{
                name: "{col_name}".into(),
                logical: {logical},
            }},
"#;

/// What a registration begins with: a handle is taken, to be put into the table of the family.
pub const TAKE_HANDLE: &'static str = r#"    {
        let handle = NEXT_HANDLE.fetch_add(1, std::sync::atomic::Ordering::Relaxed);
        "#;

pub const SCALAR_REGISTRATION: &'static str = r#"
            .lock()
            .expect("scalar handle mutex poisoned")
            .insert(handle, {arm_idx}usize);
        let callback = runtime::ScalarCallback::new(handle);
        let args: Vec<runtime::Funcarg> = vec![
{args_block}        ];
        let opts = runtime::Funcopts {{
            description: Some("{sql_name} (sqlink-shim-codegen)".into()),
            tags: vec!["{sql_name}".into()],
            attributes: {attrs},
        }};
        registry.register(
            "{sql_name}",
            &args,
            &{ret_logical},
            callback,
            Some(&opts),
        )?;
    }}
"#;

pub const AGGREGATE_REGISTRATION: &'static str = r#"
            .lock()
            .expect("aggregate handle mutex poisoned")
            .insert(handle, {arm_idx}usize);
        let callback = runtime::AggregateCallback::new(handle);
        let args: Vec<runtime::Funcarg> = vec![
{args_block}        ];
        let opts = runtime::Funcopts {{
            description: Some("{sql_name} (sqlink-shim-codegen)".into()),
            tags: vec!["{sql_name}".into()],
            attributes: {attrs},
        }};
        registry.register(
            "{sql_name}",
            &args,
            &{ret_logical},
            callback,
            Some(&opts),
        )?;
    }}
"#;

pub const WINDOW_REGISTRATION: &'static str = r#"
            .lock()
            .expect("window handle mutex poisoned")
            .insert(handle, {arm_idx}usize);
        let callback = runtime::AggregateCallback::new(handle);
        let args: Vec<runtime::Funcarg> = vec![
{args_block}        ];
        let opts = runtime::Funcopts {{
            description: Some("{sql_name} (sqlink-shim-codegen window)".into()),
            tags: vec!["{sql_name}".into(), "window".into()],
            attributes: types::Funcflags::DETERMINISTIC | types::Funcflags::STATELESS,
        }};
        registry.register(
            "{sql_name}",
            &args,
            &{ret_logical},
            callback,
            Some(&opts),
        )?;
    }}
"#;

pub const TABLE_REGISTRATION: &'static str = r#"
            .lock()
            .expect("table handle mutex poisoned")
            .insert(handle, {arm_idx}usize);
        let callback = runtime::TableCallback::new(handle);
        let args: Vec<runtime::Funcarg> = vec![
{args_block}        ];
        let columns: Vec<runtime::Columndef> = vec![
{cols_block}        ];
        registry.register(
            "{sql_name}",
            &args,
            &columns,
            callback,
            None,
        )?;
    }}
"#;

pub const CAST_TAKE_HANDLE: &'static str = r#"    {{
        // CAST(<{source_kind}> AS {to_type}) -> {fn_name}
        let handle = NEXT_HANDLE.fetch_add(1, std::sync::atomic::Ordering::Relaxed);
        // Slot the cast handle into the SCALAR handle table so
        // call_cast can forward into call_scalar at the matching
        // arm. One arm-index space; the cast contract just
        // provides an alternate entry point.
        "#;

pub const CAST_REGISTRATION: &'static str = r#"
            .lock()
            .expect("scalar handle mutex poisoned")
            .insert(handle, {scalar_arm_idx}usize);
        let callback = runtime::CastCallback::new(handle);
        let spec = catalog::CastSpec {{
            from: "{from_type}".into(),
            to: "{to_type}".into(),
            kind: catalog::CastKind::{kind_variant},
        }};
        catalog::register_cast(&spec, callback).map_err(|e| {{
            types::Duckerror::Internal(format!(
                "register-cast({fn_name}: {from_type} -> {to_type}): {{}}", e
            ))
        }})?;
    }}
"#;

} // verus!
