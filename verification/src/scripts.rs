//! The script generator: builds each of the four maintenance scripts as a
//! described artifact — target path, full text and permission mode — for
//! the caller to persist.
//!
//! Writing the file, setting its permission bits and printing the
//! confirmation line are the caller's side; every value written is pinned
//! down here.

use vstd::prelude::*;

use crate::paths::{compat_data_dir, compat_data_of, join_path, joined_path};
use crate::registry::{registry_fix_script_text, render_registry_fix};
use crate::templates::{
    mo2_launch_script_text, render_kill_prefix, render_mo2_launch, render_vortex_launch,
    kill_prefix_script_text, vortex_launch_script_text,
};

verus! {

/// Name of the file both launch-script operations write.
pub const FILE_LAUNCH: &'static str = ".start.sh";

/// Name of the file the kill-prefix operation writes.
pub const FILE_KILL_PREFIX: &'static str = ".kill_prefix.sh";

/// Name of the file the registry-fix operation writes.
pub const FILE_REGISTRY_FIX: &'static str = "game_registry_fix.sh";

/// POSIX permission mode every generated script is given: readable and
/// writable by the owner, executable by owner, group and other.
pub const SCRIPT_MODE: u32 = 0o755;

/// A generated script, ready to be persisted: where it goes, its full
/// text, and the permission mode it must carry.
pub struct GeneratedScript {
    /// Full path of the file to write: the fixed file name inside the
    /// output directory the caller supplied.
    pub path: String,
    /// The script's entire text.
    pub content: String,
    /// POSIX permission bits for the written file.
    pub mode: u32,
}

pub struct ScriptGenerator;

impl ScriptGenerator {
    /// Builds the launch script for Mod Organizer 2: text rendered from
    /// the MO2 template with the given paths, the compatibility-data
    /// directory derived as the prefix path's parent, destined for
    /// `.start.sh` inside the output directory with executable
    /// permissions.
    pub fn generate_mo2_launch_script(
        prefix_path: &str,
        mo2_exe: &str,
        proton_ge_path: &str,
        _install_dir: &str,
        script_output_dir: &str,
        steam_path: &str,
    ) -> (r: GeneratedScript)
        ensures
            r.content@ == mo2_launch_script_text(
                proton_ge_path@,
                prefix_path@,
                compat_data_of(prefix_path@),
                mo2_exe@,
                steam_path@,
            ),
            r.path@ == joined_path(script_output_dir@, FILE_LAUNCH@),
            r.mode == SCRIPT_MODE,
    {
        let compat = compat_data_dir(prefix_path);
        let content = render_mo2_launch(
            proton_ge_path,
            prefix_path,
            compat.as_str(),
            mo2_exe,
            steam_path,
        );
        let path = join_path(script_output_dir, FILE_LAUNCH);
        GeneratedScript { path, content, mode: SCRIPT_MODE }
    }

    /// Builds the launch script for Vortex: as the MO2 operation, but
    /// from the Vortex template, which additionally clears four
    /// pre-existing .NET environment variables.
    pub fn generate_vortex_launch_script(
        prefix_path: &str,
        vortex_exe: &str,
        proton_ge_path: &str,
        _install_dir: &str,
        script_output_dir: &str,
        steam_path: &str,
    ) -> (r: GeneratedScript)
        ensures
            r.content@ == vortex_launch_script_text(
                proton_ge_path@,
                prefix_path@,
                compat_data_of(prefix_path@),
                vortex_exe@,
                steam_path@,
            ),
            r.path@ == joined_path(script_output_dir@, FILE_LAUNCH@),
            r.mode == SCRIPT_MODE,
    {
        let compat = compat_data_dir(prefix_path);
        let content = render_vortex_launch(
            proton_ge_path,
            prefix_path,
            compat.as_str(),
            vortex_exe,
            steam_path,
        );
        let path = join_path(script_output_dir, FILE_LAUNCH);
        GeneratedScript { path, content, mode: SCRIPT_MODE }
    }

    /// Builds the script that terminates the Wine processes tied to a
    /// prefix, destined for `.kill_prefix.sh` inside the output
    /// directory.
    pub fn generate_kill_prefix_script(
        prefix_path: &str,
        proton_ge_path: &str,
        script_output_dir: &str,
    ) -> (r: GeneratedScript)
        ensures
            r.content@ == kill_prefix_script_text(prefix_path@, proton_ge_path@),
            r.path@ == joined_path(script_output_dir@, FILE_KILL_PREFIX@),
            r.mode == SCRIPT_MODE,
    {
        let content = render_kill_prefix(prefix_path, proton_ge_path);
        let path = join_path(script_output_dir, FILE_KILL_PREFIX);
        GeneratedScript { path, content, mode: SCRIPT_MODE }
    }

    /// Builds the interactive registry-repair script, destined for
    /// `game_registry_fix.sh` inside the output directory. The instance
    /// label is embedded verbatim, unescaped: the caller must keep shell
    /// metacharacters such as `"` and backticks out of it.
    pub fn generate_fix_game_registry_script(
        prefix_path: &str,
        proton_ge_path: &str,
        instance_name: &str,
        script_output_dir: &str,
    ) -> (r: GeneratedScript)
        ensures
            r.content@ == registry_fix_script_text(
                prefix_path@,
                proton_ge_path@,
                instance_name@,
            ),
            r.path@ == joined_path(script_output_dir@, FILE_REGISTRY_FIX@),
            r.mode == SCRIPT_MODE,
    {
        let content = render_registry_fix(prefix_path, proton_ge_path, instance_name);
        let path = join_path(script_output_dir, FILE_REGISTRY_FIX);
        GeneratedScript { path, content, mode: SCRIPT_MODE }
    }
}

} // verus!
