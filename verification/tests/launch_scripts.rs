use nak_scripts::scripts::ScriptGenerator;

fn mo2_expected(prefix: &str, exe: &str, proton: &str, compat_data: &str, steam_path: &str) -> String {
    format!(
        r#"#!/bin/bash
# NaK Generated Launch Script for MO2
# Matches Python logic for Steam/Proton environment

PROTON_GE="{proton}"
PREFIX="{prefix}"
COMPAT_DATA="{compat_data}"
MO2_EXE="{exe}"
STEAM_PATH="{steam_path}"

# Check if Proton-GE exists
if [ ! -f "$PROTON_GE/proton" ]; then
    echo "ERROR: Proton-GE not found at $PROTON_GE"
    exit 1
fi

# Check if Steam is running (required for DRM)
if ! pgrep -x "steam" > /dev/null && ! pgrep -x "steamwebhelper" > /dev/null; then
    echo "WARNING: Steam is not running! Starting Steam..."
    nohup steam -silent > /dev/null 2>&1 &
    sleep 5
fi

# Set environment variables for Proton
export WINEPREFIX="$PREFIX"
export STEAM_COMPAT_DATA_PATH="$COMPAT_DATA"
export STEAM_COMPAT_CLIENT_INSTALL_PATH="$STEAM_PATH"
export PATH="$PROTON_GE/files/bin:$PATH"

# DotNet Fixes
export DOTNET_ROOT=""
export DOTNET_MULTILEVEL_LOOKUP=0

# Fix for MO2 VFS
export MO2_VFS_LOG_LEVEL=0

echo "Launching Mod Organizer 2..."
"$PROTON_GE/proton" run "$MO2_EXE" "$@"
"#,
        prefix = prefix,
        proton = proton,
        compat_data = compat_data,
        steam_path = steam_path,
        exe = exe
    )
}

fn vortex_expected(prefix: &str, exe: &str, proton: &str, compat_data: &str, steam_path: &str) -> String {
    format!(
        r#"#!/bin/bash
# NaK Generated Launch Script for Vortex
# Matches Python logic for Steam/Proton environment

PROTON_GE="{proton}"
PREFIX="{prefix}"
COMPAT_DATA="{compat_data}"
VORTEX_EXE="{exe}"
STEAM_PATH="{steam_path}"

# Check if Proton-GE exists
if [ ! -f "$PROTON_GE/proton" ]; then
    echo "ERROR: Proton-GE not found at $PROTON_GE"
    exit 1
fi

# Check if Steam is running (required for DRM)
if ! pgrep -x "steam" > /dev/null && ! pgrep -x "steamwebhelper" > /dev/null; then
    echo "WARNING: Steam is not running! Starting Steam..."
    nohup steam -silent > /dev/null 2>&1 &
    sleep 5
fi

# Set environment variables for Proton
export WINEPREFIX="$PREFIX"
export STEAM_COMPAT_DATA_PATH="$COMPAT_DATA"
export STEAM_COMPAT_CLIENT_INSTALL_PATH="$STEAM_PATH"
export PATH="$PROTON_GE/files/bin:$PATH"

# Clearing native .NET environment variables to avoid conflicts
unset DOTNET_PATH
unset DOTNET_BUNDLE_EXTRACT_BASE_DIR
unset DOTNET_ROOT
unset DOTNET_TOOLS_PATH


# DotNet Fixes
export DOTNET_ROOT=""
export DOTNET_MULTILEVEL_LOOKUP=0

echo "Launching Vortex..."
"$PROTON_GE/proton" run "$VORTEX_EXE" "$@"
"#,
        prefix = prefix,
        proton = proton,
        compat_data = compat_data,
        steam_path = steam_path,
        exe = exe
    )
}

fn kill_expected(prefix: &str, proton: &str) -> String {
    format!(
        r#"#!/bin/bash
# NaK Kill Prefix Script
PREFIX="{prefix}"
PROTON_GE="{proton}"
WINESERVER="$PROTON_GE/files/bin/wineserver"

echo "Killing Wine processes for prefix: $PREFIX"

export WINEPREFIX="$PREFIX"

if [ -f "$WINESERVER" ]; then
    "$WINESERVER" -k
else
    wineserver -k
fi

echo "Done."
"#,
        prefix = prefix,
        proton = proton
    )
}

#[test]
fn mo2_scenario_standard_paths() {
    let g = ScriptGenerator::generate_mo2_launch_script(
        "/home/u/pfx",
        "/home/u/pfx/drive_c/MO2/ModOrganizer.exe",
        "/home/u/proton-ge",
        "/home/u/install",
        "/tmp/out",
        "/home/u/.steam/steam",
    );
    assert_eq!(g.path, "/tmp/out/.start.sh");
    assert!(g.content.contains("WINEPREFIX=\"$PREFIX\""));
    assert!(g.content.contains("PREFIX=\"/home/u/pfx\"\n"));
    assert!(g.content.contains("COMPAT_DATA=\"/home/u\"\n"));
}

#[test]
fn mo2_full_content() {
    let g = ScriptGenerator::generate_mo2_launch_script(
        "/home/u/pfx",
        "/home/u/pfx/drive_c/MO2/ModOrganizer.exe",
        "/home/u/proton-ge",
        "/home/u/install",
        "/tmp/out",
        "/home/u/.steam/steam",
    );
    let expected = mo2_expected(
        "/home/u/pfx",
        "/home/u/pfx/drive_c/MO2/ModOrganizer.exe",
        "/home/u/proton-ge",
        "/home/u",
        "/home/u/.steam/steam",
    );
    assert_eq!(g.content, expected);
    assert_eq!(g.mode, 0o755);
}

#[test]
fn vortex_full_content() {
    let g = ScriptGenerator::generate_vortex_launch_script(
        "/home/u/pfx",
        "/home/u/pfx/drive_c/Vortex/Vortex.exe",
        "/home/u/proton-ge",
        "/home/u/install",
        "/tmp/out",
        "/home/u/.steam/steam",
    );
    let expected = vortex_expected(
        "/home/u/pfx",
        "/home/u/pfx/drive_c/Vortex/Vortex.exe",
        "/home/u/proton-ge",
        "/home/u",
        "/home/u/.steam/steam",
    );
    assert_eq!(g.path, "/tmp/out/.start.sh");
    assert_eq!(g.content, expected);
    assert_eq!(g.mode, 0o755);
}

#[test]
fn kill_prefix_full_content() {
    let g = ScriptGenerator::generate_kill_prefix_script(
        "/home/u/pfx",
        "/home/u/proton-ge",
        "/tmp/out",
    );
    assert_eq!(g.path, "/tmp/out/.kill_prefix.sh");
    assert_eq!(g.content, kill_expected("/home/u/pfx", "/home/u/proton-ge"));
    assert_eq!(g.mode, 0o755);
}

#[test]
fn generation_is_idempotent() {
    let a = ScriptGenerator::generate_mo2_launch_script(
        "/p/x", "/p/x/m.exe", "/gee", "/inst", "/out", "/steam",
    );
    let b = ScriptGenerator::generate_mo2_launch_script(
        "/p/x", "/p/x/m.exe", "/gee", "/inst", "/out", "/steam",
    );
    assert_eq!(a.content, b.content);
    assert_eq!(a.path, b.path);
    assert_eq!(a.mode, b.mode);

    let c = ScriptGenerator::generate_kill_prefix_script("/p/x", "/gee", "/out");
    let d = ScriptGenerator::generate_kill_prefix_script("/p/x", "/gee", "/out");
    assert_eq!(c.content, d.content);
    assert_eq!(c.path, d.path);
}

#[test]
fn vortex_clears_dotnet_mo2_does_not() {
    let unset_block = "# Clearing native .NET environment variables to avoid conflicts\nunset DOTNET_PATH\nunset DOTNET_BUNDLE_EXTRACT_BASE_DIR\nunset DOTNET_ROOT\nunset DOTNET_TOOLS_PATH\n";
    let v = ScriptGenerator::generate_vortex_launch_script(
        "/p/x", "/p/x/v.exe", "/gee", "/inst", "/out", "/steam",
    );
    let m = ScriptGenerator::generate_mo2_launch_script(
        "/p/x", "/p/x/m.exe", "/gee", "/inst", "/out", "/steam",
    );
    assert!(v.content.contains(unset_block));
    assert!(!m.content.contains("unset DOTNET_PATH"));
    assert!(!m.content.contains(unset_block));
    assert!(m.content.contains("# Check if Proton-GE exists"));
    assert!(v.content.contains("# Check if Proton-GE exists"));
    assert!(m.content.contains("export STEAM_COMPAT_DATA_PATH=\"$COMPAT_DATA\""));
    assert!(v.content.contains("export STEAM_COMPAT_DATA_PATH=\"$COMPAT_DATA\""));
}

#[test]
fn every_parameter_appears_verbatim() {
    let prefix = "/var/wine prefixes/skyrim";
    let exe = "/var/wine prefixes/skyrim/drive_c/MO2/ModOrganizer.exe";
    let proton = "/opt/proton-ge-9";
    let steam = "/home/someone/.local/share/Steam";
    let g = ScriptGenerator::generate_mo2_launch_script(
        prefix, exe, proton, "/inst", "/out", steam,
    );
    assert!(g.content.contains(prefix));
    assert!(g.content.contains(exe));
    assert!(g.content.contains(proton));
    assert!(g.content.contains(steam));
    assert!(g.content.contains("COMPAT_DATA=\"/var/wine prefixes\"\n"));

    let k = ScriptGenerator::generate_kill_prefix_script(prefix, proton, "/out");
    assert!(k.content.contains(prefix));
    assert!(k.content.contains(proton));
}

#[test]
fn compat_data_is_parent_of_prefix() {
    let g = ScriptGenerator::generate_mo2_launch_script(
        "/home/u/pfx", "/e.exe", "/g", "/i", "/out", "/s",
    );
    assert!(g.content.contains("COMPAT_DATA=\"/home/u\"\n"));

    // A prefix directly under the root: its parent is the root itself.
    let r = ScriptGenerator::generate_vortex_launch_script(
        "/pfx", "/e.exe", "/g", "/i", "/out", "/s",
    );
    assert!(r.content.contains("COMPAT_DATA=\"/\"\n"));

    // A prefix with no separator has no parent and falls back to itself.
    let b = ScriptGenerator::generate_mo2_launch_script(
        "bare", "/e.exe", "/g", "/i", "/out", "/s",
    );
    assert!(b.content.contains("COMPAT_DATA=\"bare\"\n"));
}

#[test]
fn output_paths_join_cleanly() {
    let a = ScriptGenerator::generate_kill_prefix_script("/p", "/g", "/tmp/out");
    assert_eq!(a.path, "/tmp/out/.kill_prefix.sh");
    let b = ScriptGenerator::generate_kill_prefix_script("/p", "/g", "/tmp/out/");
    assert_eq!(b.path, "/tmp/out/.kill_prefix.sh");
    let c = ScriptGenerator::generate_kill_prefix_script("/p", "/g", "");
    assert_eq!(c.path, ".kill_prefix.sh");
}
