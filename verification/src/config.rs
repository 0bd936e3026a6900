//! Configuration data the core reads, and the file-search order.
//!
//! Loading and saving the settings file is edge work (environment, file
//! system, parsing); what is fixed here is the data the sections carry
//! and the exact order in which candidate locations for the settings
//! file `Param.toml` are tried: a path given by environment variable,
//! first as the file itself and then as a directory holding it; the
//! project root; and finally the working directory.

use vstd::prelude::*;

use vstd::string::StringExecFns;

verus! {

/// Detection settings; no fields yet.
#[derive(Debug, Clone, Copy)]
pub struct Detect {}

/// Tracking settings; no fields yet.
#[derive(Debug, Clone, Copy)]
pub struct Track {}

/// Robot settings; no fields yet.
#[derive(Debug, Clone, Copy)]
pub struct Robot {}

/// Viewer settings; no fields yet.
#[derive(Debug, Clone, Copy)]
pub struct GUI {}

/// The candidate paths for the settings file, in the order they are
/// tried.
pub open spec fn spec_config_candidates(
    env_path: Option<String>,
    manifest_dir: Option<String>,
) -> Seq<Seq<char>> {
    (match env_path {
        Some(p) => seq![p@, p@ + "/Param.toml"@],
        None => Seq::<Seq<char>>::empty(),
    }) + (match manifest_dir {
        Some(d) => seq![d@ + "/Param.toml"@],
        None => Seq::<Seq<char>>::empty(),
    }) + seq!["Param.toml"@]
}

/// Compute the candidate paths for the settings file from the two
/// optional roots, in search order.
pub fn config_candidates(env_path: &Option<String>, manifest_dir: &Option<String>) -> (r: Vec<
    String,
>)
    ensures
        r@.map_values(|s: String| s@) == spec_config_candidates(*env_path, *manifest_dir),
{
    let mut out: Vec<String> = Vec::new();
    match env_path {
        Some(p) => {
            out.push(p.clone());
            let mut joined = p.clone();
            joined.append("/Param.toml");
            out.push(joined);
        },
        None => {},
    }
    match manifest_dir {
        Some(d) => {
            let mut joined = d.clone();
            joined.append("/Param.toml");
            out.push(joined);
        },
        None => {},
    }
    out.push("Param.toml".to_owned());
    proof {
        assert(out@.map_values(|s: String| s@) =~= spec_config_candidates(
            *env_path,
            *manifest_dir,
        ));
    }
    out
}

} // verus!
