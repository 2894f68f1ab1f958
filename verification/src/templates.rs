//! The fixed text templates of the generated shell scripts, and verified
//! renderers that interpolate the caller's parameter values into them.
//!
//! Each template is held as a series of literal chunks; a script's full
//! text is specified as the concatenation of those chunks with the
//! parameter values, so a renderer's contract pins the output down to the
//! byte.

use vstd::prelude::*;

verus! {

// Chunks shared by several templates.
pub const QUOTE_NL: &'static str = "\"\n";

pub const TAG_PROTON: &'static str = "PROTON_GE=\"";

pub const TAG_PREFIX: &'static str = "PREFIX=\"";

pub const TAG_COMPAT: &'static str = "COMPAT_DATA=\"";

pub const TAG_STEAM: &'static str = "STEAM_PATH=\"";

pub const EQ_QUOTE: &'static str = "=\"";

// Chunks of the two launch-script templates.
pub const LAUNCH_BANNER_A: &'static str = "#!/bin/bash\n# NaK Generated Launch Script for ";

pub const LAUNCH_BANNER_B: &'static str =
    "\n# Matches Python logic for Steam/Proton environment\n\n";

pub const LAUNCH_CHECKS: &'static str = r#"
# Check if Proton-GE exists
if [ ! -f "$PROTON_GE/proton" ]; then
    echo "ERROR: Proton-GE not found at $PROTON_GE"
    exit 1
fi

# Check if Steam is running (required for DRM)
if ! pgrep -x "steam" > /dev/null && ! pgrep -x "steamwebhelper" > /dev/null; then
    echo "WARNING: Steam is not running! Starting Steam..."
    nohup steam -silent > /dev/null 2>&1 &
    sleep 5
fi

# Set environment variables for Proton
export WINEPREFIX="$PREFIX"
export STEAM_COMPAT_DATA_PATH="$COMPAT_DATA"
export STEAM_COMPAT_CLIENT_INSTALL_PATH="$STEAM_PATH"
export PATH="$PROTON_GE/files/bin:$PATH"

"#;

/// The four lines that clear pre-existing .NET environment variables;
/// present in the Vortex launch script only.
pub const DOTNET_UNSET: &'static str = r#"# Clearing native .NET environment variables to avoid conflicts
unset DOTNET_PATH
unset DOTNET_BUNDLE_EXTRACT_BASE_DIR
unset DOTNET_ROOT
unset DOTNET_TOOLS_PATH


"#;

pub const DOTNET_FIXES: &'static str = r#"# DotNet Fixes
export DOTNET_ROOT=""
export DOTNET_MULTILEVEL_LOOKUP=0

"#;

pub const MO2_VFS_FIX: &'static str = "# Fix for MO2 VFS\nexport MO2_VFS_LOG_LEVEL=0\n\n";

pub const LAUNCH_ECHO_A: &'static str = "echo \"Launching ";

pub const LAUNCH_ECHO_B: &'static str = "...\"\n\"$PROTON_GE/proton\" run \"$";

pub const LAUNCH_ECHO_C: &'static str = "\" \"$@\"\n";

pub const TOOL_MO2: &'static str = "MO2";

pub const VAR_MO2: &'static str = "MO2_EXE";

pub const LABEL_MO2: &'static str = "Mod Organizer 2";

pub const TOOL_VORTEX: &'static str = "Vortex";

pub const VAR_VORTEX: &'static str = "VORTEX_EXE";

pub const LABEL_VORTEX: &'static str = "Vortex";

/// The part shared by both launch-script templates: banner, the five
/// variable assignments, the Proton-GE existence check, the Steam helper
/// check, and the exported environment variables.
pub open spec fn launch_env_block(
    tool_name: Seq<char>,
    exe_var: Seq<char>,
    proton: Seq<char>,
    prefix: Seq<char>,
    compat: Seq<char>,
    exe: Seq<char>,
    steam: Seq<char>,
) -> Seq<char> {
    LAUNCH_BANNER_A@ + tool_name + LAUNCH_BANNER_B@ + TAG_PROTON@ + proton + QUOTE_NL@
        + TAG_PREFIX@ + prefix + QUOTE_NL@ + TAG_COMPAT@ + compat + QUOTE_NL@ + exe_var
        + EQ_QUOTE@ + exe + QUOTE_NL@ + TAG_STEAM@ + steam + QUOTE_NL@ + LAUNCH_CHECKS@
}

/// The closing lines of a launch script: the confirmation echo and the
/// Proton invocation of the target executable.
pub open spec fn launch_run_block(label: Seq<char>, exe_var: Seq<char>) -> Seq<char> {
    LAUNCH_ECHO_A@ + label + LAUNCH_ECHO_B@ + exe_var + LAUNCH_ECHO_C@
}

/// Full text of the MO2 launch script for the given parameter values.
pub open spec fn mo2_launch_script_text(
    proton: Seq<char>,
    prefix: Seq<char>,
    compat: Seq<char>,
    exe: Seq<char>,
    steam: Seq<char>,
) -> Seq<char> {
    launch_env_block(TOOL_MO2@, VAR_MO2@, proton, prefix, compat, exe, steam) + DOTNET_FIXES@
        + MO2_VFS_FIX@ + launch_run_block(LABEL_MO2@, VAR_MO2@)
}

/// Full text of the Vortex launch script for the given parameter values.
pub open spec fn vortex_launch_script_text(
    proton: Seq<char>,
    prefix: Seq<char>,
    compat: Seq<char>,
    exe: Seq<char>,
    steam: Seq<char>,
) -> Seq<char> {
    launch_env_block(TOOL_VORTEX@, VAR_VORTEX@, proton, prefix, compat, exe, steam)
        + DOTNET_UNSET@ + DOTNET_FIXES@ + launch_run_block(LABEL_VORTEX@, VAR_VORTEX@)
}

// Chunks of the kill-prefix template.
pub const KILL_HEAD: &'static str = "#!/bin/bash\n# NaK Kill Prefix Script\n";

pub const KILL_TAIL: &'static str = r#"WINESERVER="$PROTON_GE/files/bin/wineserver"

echo "Killing Wine processes for prefix: $PREFIX"

export WINEPREFIX="$PREFIX"

if [ -f "$WINESERVER" ]; then
    "$WINESERVER" -k
else
    wineserver -k
fi

echo "Done."
"#;

/// Full text of the kill-prefix script for the given parameter values.
pub open spec fn kill_prefix_script_text(prefix: Seq<char>, proton: Seq<char>) -> Seq<char> {
    KILL_HEAD@ + TAG_PREFIX@ + prefix + QUOTE_NL@ + TAG_PROTON@ + proton + QUOTE_NL@
        + KILL_TAIL@
}

fn push_launch_env(
    out: &mut String,
    tool_name: &str,
    exe_var: &str,
    proton: &str,
    prefix: &str,
    compat: &str,
    exe: &str,
    steam: &str,
)
    ensures
        final(out)@ == old(out)@ + launch_env_block(
            tool_name@,
            exe_var@,
            proton@,
            prefix@,
            compat@,
            exe@,
            steam@,
        ),
{
    out.append(LAUNCH_BANNER_A);
    out.append(tool_name);
    out.append(LAUNCH_BANNER_B);
    out.append(TAG_PROTON);
    out.append(proton);
    out.append(QUOTE_NL);
    out.append(TAG_PREFIX);
    out.append(prefix);
    out.append(QUOTE_NL);
    out.append(TAG_COMPAT);
    out.append(compat);
    out.append(QUOTE_NL);
    out.append(exe_var);
    out.append(EQ_QUOTE);
    out.append(exe);
    out.append(QUOTE_NL);
    out.append(TAG_STEAM);
    out.append(steam);
    out.append(QUOTE_NL);
    out.append(LAUNCH_CHECKS);
    proof {
        assert(out@ =~= old(out)@ + launch_env_block(
            tool_name@,
            exe_var@,
            proton@,
            prefix@,
            compat@,
            exe@,
            steam@,
        ));
    }
}

fn push_launch_run(out: &mut String, label: &str, exe_var: &str)
    ensures
        final(out)@ == old(out)@ + launch_run_block(label@, exe_var@),
{
    out.append(LAUNCH_ECHO_A);
    out.append(label);
    out.append(LAUNCH_ECHO_B);
    out.append(exe_var);
    out.append(LAUNCH_ECHO_C);
    proof {
        assert(out@ =~= old(out)@ + launch_run_block(label@, exe_var@));
    }
}

/// Renders the MO2 launch script.
pub fn render_mo2_launch(proton: &str, prefix: &str, compat: &str, exe: &str, steam: &str) -> (r:
    String)
    ensures
        r@ == mo2_launch_script_text(proton@, prefix@, compat@, exe@, steam@),
{
    let mut s = String::new();
    push_launch_env(&mut s, TOOL_MO2, VAR_MO2, proton, prefix, compat, exe, steam);
    s.append(DOTNET_FIXES);
    s.append(MO2_VFS_FIX);
    push_launch_run(&mut s, LABEL_MO2, VAR_MO2);
    proof {
        assert(s@ =~= mo2_launch_script_text(proton@, prefix@, compat@, exe@, steam@));
    }
    s
}

/// Renders the Vortex launch script.
pub fn render_vortex_launch(proton: &str, prefix: &str, compat: &str, exe: &str, steam: &str) -> (r:
    String)
    ensures
        r@ == vortex_launch_script_text(proton@, prefix@, compat@, exe@, steam@),
{
    let mut s = String::new();
    push_launch_env(&mut s, TOOL_VORTEX, VAR_VORTEX, proton, prefix, compat, exe, steam);
    s.append(DOTNET_UNSET);
    s.append(DOTNET_FIXES);
    push_launch_run(&mut s, LABEL_VORTEX, VAR_VORTEX);
    proof {
        assert(s@ =~= vortex_launch_script_text(proton@, prefix@, compat@, exe@, steam@));
    }
    s
}

/// Renders the kill-prefix script.
pub fn render_kill_prefix(prefix: &str, proton: &str) -> (r: String)
    ensures
        r@ == kill_prefix_script_text(prefix@, proton@),
{
    let mut s = String::new();
    s.append(KILL_HEAD);
    s.append(TAG_PREFIX);
    s.append(prefix);
    s.append(QUOTE_NL);
    s.append(TAG_PROTON);
    s.append(proton);
    s.append(QUOTE_NL);
    s.append(KILL_TAIL);
    proof {
        assert(s@ =~= kill_prefix_script_text(prefix@, proton@));
    }
    s
}

} // verus!
