//! Names and locations of the stored settings (`M500`/`M501`).
//!
//! Each configuration section is one TOML file on the `settings` flash
//! partition; reading, writing (through a temporary file renamed into
//! place) and deleting them is done by the caller.
use crate::text::push_str;
use vstd::prelude::*;

verus! {

/// Mount point of the settings partition.
pub const MOUNT_PATH: &'static str = "/settings";

/// Label of the settings partition in the partition table.
pub const PARTITION_LABEL: &'static str = "settings";

/// Files open at once on the settings partition.
pub const MAX_OPEN_FILES: usize = 4;

/// The files of the four configuration sections, in the order they are
/// saved, loaded and deleted.
pub fn settings_files() -> (f: [&'static str; 4])
    ensures
        f[0]@ == "printer.toml"@,
        f[1]@ == "motion.toml"@,
        f[2]@ == "network.toml"@,
        f[3]@ == "temperature.toml"@,
{
    ["printer.toml", "motion.toml", "network.toml", "temperature.toml"]
}

/// Path of `name` under the mount point `mount_path`.
pub open spec fn file_path_text(mount_path: Seq<char>, name: Seq<char>) -> Seq<char> {
    mount_path + "/"@ + name
}

/// Path of a settings file: `name` under the mount point.
pub fn file_path(mount_path: &str, name: &str) -> (p: String)
    ensures
        p@ == file_path_text(mount_path@, name@),
{
    let mut p = String::new();
    push_str(&mut p, mount_path);
    push_str(&mut p, "/");
    push_str(&mut p, name);
    p
}

/// Name of the temporary file a settings file is first written to.
pub fn temporary_name(name: &str) -> (t: String)
    ensures
        t@ == name@ + ".tmp"@,
{
    let mut t = String::new();
    push_str(&mut t, name);
    push_str(&mut t, ".tmp");
    t
}

} // verus!
