//! Launch planning: directory resolution, launch-mode detection, and the
//! exact command line, environment and directories a start needs.
//!
//! Everything here is pure computation over plain byte strings. The
//! surrounding application takes the returned [`LaunchPlan`], creates the
//! listed directories, spawns the program with the listed arguments and the
//! one environment variable, and reports the outcomes back to the lifecycle
//! functions.

use vstd::prelude::*;

use crate::scan::{concat_bytes, contains_bytes, contains_seq};

verus! {

/// How the child is invoked.
///
/// When the supervising application itself runs out of a development build
/// tree, the child is started as a script handed to the runtime; a packaged
/// installation starts the prebuilt sidecar binary directly.
#[derive(Clone, Copy, PartialEq, Eq, Structural, Debug)]
pub enum LaunchMode {
    /// Run the script through the runtime: the packaged binary is not built
    /// in a development tree.
    Interpreted,
    /// Run the packaged sidecar binary, with no arguments.
    Standalone,
}

/// Input to a start or restart: the data directory the user asked for, if
/// any. An absent or empty value means the platform default.
pub struct LaunchRequest {
    pub data_directory: Option<Vec<u8>>,
}

/// Everything the surrounding application must do to start the child, fully
/// resolved: which directories to create, which program to spawn with which
/// arguments, and the one environment variable handed to the child.
pub struct LaunchPlan {
    pub mode: LaunchMode,
    /// Program to spawn.
    pub program: Vec<u8>,
    /// Arguments to the program, in order.
    pub args: Vec<Vec<u8>>,
    /// Name of the one environment variable the child receives.
    pub env_key: Vec<u8>,
    /// Value of that variable: the effective data directory.
    pub env_value: Vec<u8>,
    /// The effective data directory.
    pub data_dir: Vec<u8>,
    /// Directories to create before spawning, parents first.
    pub dirs_to_create: Vec<Vec<u8>>,
}

impl LaunchRequest {
    /// The requested directory as a byte sequence, if one was given.
    pub open spec fn dir_view(self) -> Option<Seq<u8>> {
        match self.data_directory {
            Some(v) => Some(v@),
            None => None,
        }
    }
}

/// `/.sidecar`: the fixed default data directory under the home directory.
pub open spec fn data_dir_suffix() -> Seq<u8> {
    seq![47u8, 46u8, 115u8, 105u8, 100u8, 101u8, 99u8, 97u8, 114u8]
}

/// `/logs`: the first required subdirectory of the data directory.
pub open spec fn logs_suffix() -> Seq<u8> {
    seq![47u8, 108u8, 111u8, 103u8, 115u8]
}

/// `/cache`: the second required subdirectory of the data directory.
pub open spec fn cache_suffix() -> Seq<u8> {
    seq![47u8, 99u8, 97u8, 99u8, 104u8, 101u8]
}

/// `DATA_DIR`: the one environment variable handed to the child.
pub open spec fn env_key() -> Seq<u8> {
    seq![68u8, 65u8, 84u8, 65u8, 95u8, 68u8, 73u8, 82u8]
}

/// `target/debug`: the marker of a development build tree in the
/// installation path. Detecting the mode by a substring of the install path
/// is a deliberately simple, deterministic heuristic; it is known to be
/// brittle, and it is kept in this one place.
pub open spec fn dev_marker() -> Seq<u8> {
    seq![116u8, 97u8, 114u8, 103u8, 101u8, 116u8, 47u8, 100u8, 101u8, 98u8, 117u8, 103u8]
}

/// `bun`: the runtime that interprets the sidecar script.
pub open spec fn runtime_name() -> Seq<u8> {
    seq![98u8, 117u8, 110u8]
}

/// `/sidecar/server.ts`: the script path, relative to the install root.
pub open spec fn script_suffix() -> Seq<u8> {
    seq![
        47u8, 115u8, 105u8, 100u8, 101u8, 99u8, 97u8, 114u8, 47u8, 115u8, 101u8, 114u8,
        118u8, 101u8, 114u8, 46u8, 116u8, 115u8,
    ]
}

/// `/bun-sidecar`: the packaged binary, relative to the install root.
pub open spec fn binary_suffix() -> Seq<u8> {
    seq![47u8, 98u8, 117u8, 110u8, 45u8, 115u8, 105u8, 100u8, 101u8, 99u8, 97u8, 114u8]
}

/// The fixed default data directory for a given home directory.
pub open spec fn spec_default_data_dir(home: Seq<u8>) -> Seq<u8> {
    home + data_dir_suffix()
}

/// The effective data directory: the requested one when it is non-empty,
/// else the fixed default under the home directory.
pub open spec fn spec_effective_data_dir(requested: Option<Seq<u8>>, home: Seq<u8>) -> Seq<u8> {
    match requested {
        Some(d) => if d.len() > 0 {
            d
        } else {
            spec_default_data_dir(home)
        },
        None => spec_default_data_dir(home),
    }
}

/// The launch mode determined by the installation path alone: a path inside
/// a development build tree means interpreted, anything else standalone.
pub open spec fn spec_launch_mode(install_root: Seq<u8>) -> LaunchMode {
    if contains_seq(install_root, dev_marker()) {
        LaunchMode::Interpreted
    } else {
        LaunchMode::Standalone
    }
}

/// Resolve the effective data directory from the request and the home
/// directory.
pub fn resolve_data_directory(requested: &Option<Vec<u8>>, home: &[u8]) -> (r: Vec<u8>)
    ensures
        r@ == spec_effective_data_dir(
            match requested {
                Some(v) => Some(v@),
                None => None,
            },
            home@,
        ),
{
    match requested {
        Some(d) => {
            if d.len() > 0 {
                vstd::slice::slice_to_vec(d.as_slice())
            } else {
                default_data_directory(home)
            }
        },
        None => default_data_directory(home),
    }
}

/// The fixed default data directory under `home`.
fn default_data_directory(home: &[u8]) -> (r: Vec<u8>)
    ensures
        r@ == spec_default_data_dir(home@),
{
    let suffix = data_dir_suffix_bytes();
    concat_bytes(home, suffix.as_slice())
}

/// The bytes of `/.sidecar`.
fn data_dir_suffix_bytes() -> (r: Vec<u8>)
    ensures
        r@ == data_dir_suffix(),
{
    let mut v: Vec<u8> = Vec::new();
    v.push(47);
    v.push(46);
    v.push(115);
    v.push(105);
    v.push(100);
    v.push(101);
    v.push(99);
    v.push(97);
    v.push(114);
    proof {
        assert(v@ =~= data_dir_suffix());
    }
    v
}

/// The bytes of `/logs`.
fn logs_suffix_bytes() -> (r: Vec<u8>)
    ensures
        r@ == logs_suffix(),
{
    let mut v: Vec<u8> = Vec::new();
    v.push(47);
    v.push(108);
    v.push(111);
    v.push(103);
    v.push(115);
    proof {
        assert(v@ =~= logs_suffix());
    }
    v
}

/// The bytes of `/cache`.
fn cache_suffix_bytes() -> (r: Vec<u8>)
    ensures
        r@ == cache_suffix(),
{
    let mut v: Vec<u8> = Vec::new();
    v.push(47);
    v.push(99);
    v.push(97);
    v.push(99);
    v.push(104);
    v.push(101);
    proof {
        assert(v@ =~= cache_suffix());
    }
    v
}

/// The bytes of `DATA_DIR`.
fn env_key_bytes() -> (r: Vec<u8>)
    ensures
        r@ == env_key(),
{
    let mut v: Vec<u8> = Vec::new();
    v.push(68);
    v.push(65);
    v.push(84);
    v.push(65);
    v.push(95);
    v.push(68);
    v.push(73);
    v.push(82);
    proof {
        assert(v@ =~= env_key());
    }
    v
}

/// The bytes of `target/debug`.
fn dev_marker_bytes() -> (r: Vec<u8>)
    ensures
        r@ == dev_marker(),
{
    let mut v: Vec<u8> = Vec::new();
    v.push(116);
    v.push(97);
    v.push(114);
    v.push(103);
    v.push(101);
    v.push(116);
    v.push(47);
    v.push(100);
    v.push(101);
    v.push(98);
    v.push(117);
    v.push(103);
    proof {
        assert(v@ =~= dev_marker());
    }
    v
}

/// The bytes of `bun`.
fn runtime_name_bytes() -> (r: Vec<u8>)
    ensures
        r@ == runtime_name(),
{
    let mut v: Vec<u8> = Vec::new();
    v.push(98);
    v.push(117);
    v.push(110);
    proof {
        assert(v@ =~= runtime_name());
    }
    v
}

/// The bytes of `/sidecar/server.ts`.
fn script_suffix_bytes() -> (r: Vec<u8>)
    ensures
        r@ == script_suffix(),
{
    let mut v: Vec<u8> = Vec::new();
    v.push(47);
    v.push(115);
    v.push(105);
    v.push(100);
    v.push(101);
    v.push(99);
    v.push(97);
    v.push(114);
    v.push(47);
    v.push(115);
    v.push(101);
    v.push(114);
    v.push(118);
    v.push(101);
    v.push(114);
    v.push(46);
    v.push(116);
    v.push(115);
    proof {
        assert(v@ =~= script_suffix());
    }
    v
}

/// The bytes of `/bun-sidecar`.
fn binary_suffix_bytes() -> (r: Vec<u8>)
    ensures
        r@ == binary_suffix(),
{
    let mut v: Vec<u8> = Vec::new();
    v.push(47);
    v.push(98);
    v.push(117);
    v.push(110);
    v.push(45);
    v.push(115);
    v.push(105);
    v.push(100);
    v.push(101);
    v.push(99);
    v.push(97);
    v.push(114);
    proof {
        assert(v@ =~= binary_suffix());
    }
    v
}

/// Determine the launch mode from the installation path alone.
pub fn detect_launch_mode(install_root: &[u8]) -> (r: LaunchMode)
    ensures
        r == spec_launch_mode(install_root@),
{
    let marker = dev_marker_bytes();
    if contains_bytes(install_root, marker.as_slice()) {
        LaunchMode::Interpreted
    } else {
        LaunchMode::Standalone
    }
}

/// Build the complete launch plan for a request.
///
/// The plan names the effective data directory, the directory and its two
/// fixed subdirectories that must exist before the spawn, the program and
/// arguments for the detected launch mode, and the `DATA_DIR` environment
/// variable carrying the data directory to the child.
pub fn plan_launch(request: &LaunchRequest, home: &[u8], install_root: &[u8]) -> (r: LaunchPlan)
    ensures
        r.data_dir@ == spec_effective_data_dir(request.dir_view(), home@),
        r.env_key@ == env_key(),
        r.env_value@ == r.data_dir@,
        r.dirs_to_create@.len() == 3,
        r.dirs_to_create@[0]@ == r.data_dir@,
        r.dirs_to_create@[1]@ == r.data_dir@ + logs_suffix(),
        r.dirs_to_create@[2]@ == r.data_dir@ + cache_suffix(),
        r.mode == spec_launch_mode(install_root@),
        r.mode is Interpreted ==> r.program@ == runtime_name() && r.args@.len() == 1
            && r.args@[0]@ == install_root@ + script_suffix(),
        r.mode is Standalone ==> r.program@ == install_root@ + binary_suffix() && r.args@.len()
            == 0,
{
    let data_dir = resolve_data_directory(&request.data_directory, home);
    let logs = logs_suffix_bytes();
    let cache = cache_suffix_bytes();
    let mut dirs_to_create: Vec<Vec<u8>> = Vec::new();
    dirs_to_create.push(vstd::slice::slice_to_vec(data_dir.as_slice()));
    dirs_to_create.push(concat_bytes(data_dir.as_slice(), logs.as_slice()));
    dirs_to_create.push(concat_bytes(data_dir.as_slice(), cache.as_slice()));
    let mode = detect_launch_mode(install_root);
    let mut args: Vec<Vec<u8>> = Vec::new();
    let program: Vec<u8> = match mode {
        LaunchMode::Interpreted => {
            let script = script_suffix_bytes();
            args.push(concat_bytes(install_root, script.as_slice()));
            runtime_name_bytes()
        },
        LaunchMode::Standalone => {
            let binary = binary_suffix_bytes();
            concat_bytes(install_root, binary.as_slice())
        },
    };
    let env_value = vstd::slice::slice_to_vec(data_dir.as_slice());
    LaunchPlan {
        mode,
        program,
        args,
        env_key: env_key_bytes(),
        env_value,
        data_dir,
        dirs_to_create,
    }
}

} // verus!
