//! The registry-fix script template: an interactive script that repairs a
//! game's installation-path record inside the emulated Windows registry.
//!
//! The script's menu of games is held as a table of eleven fixed entries,
//! each a title, a registry key path and a value name; the rendered menu
//! block is specified entry by entry, in table order.

use vstd::prelude::*;

use crate::templates::{QUOTE_NL, TAG_PREFIX, TAG_PROTON};

verus! {

pub const REG_BANNER_A: &'static str = "#!/bin/bash\n# NaK Game Registry Fixer\n# ";

pub const INSTANCE_TAG: &'static str = "Instance: ";

pub const REG_BANNER_B: &'static str = "\n# Generated by NaK Linux Modding Helper\n#\n# This script fixes the game installation path in the Windows registry\n# so that mods and tools can find your game correctly.\n\n";

pub const REG_SETUP: &'static str = "REG=\"$PROTON_GE/files/bin/wine64 reg\"\n\necho \"==================================================\"\necho \"NaK Game Registry Fixer\"\necho \"";

pub const REG_MENU_HEAD: &'static str = r#""
echo "=================================================="
echo ""

# Check if reg.exe exists
if [ ! -f "$PROTON_GE/files/bin/wine64" ]; then
    echo "ERROR: wine64 not found at $PROTON_GE/files/bin/wine64"
    echo "Please ensure Proton-GE is properly installed."
    exit 1
fi

# Game registry configurations
# Format: "Game Name|Registry Path|Value Name"
declare -a GAMES=(
"#;

pub const GAME_LINE_OPEN: &'static str = "    \"";

pub const GAME_FIELD_SEP: &'static str = "|";

pub const GAME_LINE_CLOSE: &'static str = "\"\n";

/// How many games the menu lists.
pub const GAME_COUNT: usize = 11;

/// Title of the menu entry at position `i`, in the fixed menu order.
pub open spec fn game_title(i: int) -> Seq<char> {
    if i == 0 {
        "Enderal"@
    } else if i == 1 {
        "Fallout 3"@
    } else if i == 2 {
        "Fallout 4"@
    } else if i == 3 {
        "Fallout 4 VR"@
    } else if i == 4 {
        "Fallout New Vegas"@
    } else if i == 5 {
        "Morrowind"@
    } else if i == 6 {
        "Oblivion"@
    } else if i == 7 {
        "Skyrim"@
    } else if i == 8 {
        "Skyrim Special Edition"@
    } else if i == 9 {
        "Skyrim VR"@
    } else {
        "Starfield"@
    }
}

/// Registry key path of the menu entry at position `i`.
pub open spec fn game_reg_path(i: int) -> Seq<char> {
    if i == 0 {
        r"Software\\SureAI\\Enderal"@
    } else if i == 1 {
        r"Software\\Bethesda Softworks\\Fallout3"@
    } else if i == 2 {
        r"Software\\Bethesda Softworks\\Fallout4"@
    } else if i == 3 {
        r"Software\\Bethesda Softworks\\Fallout 4 VR"@
    } else if i == 4 {
        r"Software\\Bethesda Softworks\\FalloutNV"@
    } else if i == 5 {
        r"Software\\Bethesda Softworks\\Morrowind"@
    } else if i == 6 {
        r"Software\\Bethesda Softworks\\Oblivion"@
    } else if i == 7 {
        r"Software\\Bethesda Softworks\\Skyrim"@
    } else if i == 8 {
        r"Software\\Bethesda Softworks\\Skyrim Special Edition"@
    } else if i == 9 {
        r"Software\\Bethesda Softworks\\Skyrim VR"@
    } else {
        r"Software\\Bethesda Softworks\\Starfield"@
    }
}

/// Registry value name of the menu entry at position `i`.
pub open spec fn game_value_name(i: int) -> Seq<char> {
    if i == 0 {
        "Install_Path"@
    } else {
        "Installed Path"@
    }
}

/// Title, registry key path and value name of the menu entry at
/// position `i`.
pub fn game_entry(i: usize) -> (r: (&'static str, &'static str, &'static str))
    requires
        i < GAME_COUNT,
    ensures
        r.0@ == game_title(i as int),
        r.1@ == game_reg_path(i as int),
        r.2@ == game_value_name(i as int),
{
    if i == 0 {
        ("Enderal", r"Software\\SureAI\\Enderal", "Install_Path")
    } else if i == 1 {
        ("Fallout 3", r"Software\\Bethesda Softworks\\Fallout3", "Installed Path")
    } else if i == 2 {
        ("Fallout 4", r"Software\\Bethesda Softworks\\Fallout4", "Installed Path")
    } else if i == 3 {
        ("Fallout 4 VR", r"Software\\Bethesda Softworks\\Fallout 4 VR", "Installed Path")
    } else if i == 4 {
        ("Fallout New Vegas", r"Software\\Bethesda Softworks\\FalloutNV", "Installed Path")
    } else if i == 5 {
        ("Morrowind", r"Software\\Bethesda Softworks\\Morrowind", "Installed Path")
    } else if i == 6 {
        ("Oblivion", r"Software\\Bethesda Softworks\\Oblivion", "Installed Path")
    } else if i == 7 {
        ("Skyrim", r"Software\\Bethesda Softworks\\Skyrim", "Installed Path")
    } else if i == 8 {
        ("Skyrim Special Edition", r"Software\\Bethesda Softworks\\Skyrim Special Edition", "Installed Path")
    } else if i == 9 {
        ("Skyrim VR", r"Software\\Bethesda Softworks\\Skyrim VR", "Installed Path")
    } else {
        ("Starfield", r"Software\\Bethesda Softworks\\Starfield", "Installed Path")
    }
}

/// One line of the generated menu table: the entry's three fields,
/// `|`-separated, quoted and indented as the script's `GAMES` array
/// expects them.
pub open spec fn game_menu_line(i: int) -> Seq<char> {
    GAME_LINE_OPEN@ + game_title(i) + GAME_FIELD_SEP@ + game_reg_path(i) + GAME_FIELD_SEP@
        + game_value_name(i) + GAME_LINE_CLOSE@
}

/// The first `n` menu lines, concatenated in table order.
pub open spec fn games_block_upto(n: int) -> Seq<char>
    decreases n,
{
    if n <= 0 {
        Seq::empty()
    } else {
        games_block_upto(n - 1) + game_menu_line(n - 1)
    }
}

/// The full menu block: all eleven entries, in table order.
pub open spec fn games_block() -> Seq<char> {
    games_block_upto(GAME_COUNT as int)
}

fn push_games_block(out: &mut String)
    ensures
        final(out)@ == old(out)@ + games_block(),
{
    proof {
        assert(out@ =~= old(out)@ + games_block_upto(0));
    }
    let mut i: usize = 0;
    while i < GAME_COUNT
        invariant
            i <= GAME_COUNT,
            out@ == old(out)@ + games_block_upto(i as int),
        decreases GAME_COUNT - i,
    {
        let entry = game_entry(i);
        out.append(GAME_LINE_OPEN);
        out.append(entry.0);
        out.append(GAME_FIELD_SEP);
        out.append(entry.1);
        out.append(GAME_FIELD_SEP);
        out.append(entry.2);
        out.append(GAME_LINE_CLOSE);
        proof {
            assert(out@ =~= old(out)@ + games_block_upto(i as int + 1));
        }
        i = i + 1;
    }
}

pub const REG_TAIL: &'static str = r#")

echo "Which Bethesda game are you modding?"
echo ""
for i in "${!GAMES[@]}"; do
    game_name=$(echo "${GAMES[$i]}" | cut -d'|' -f1)
    echo "  $((i+1)). $game_name"
done
echo ""
read -p "Enter number (1-${#GAMES[@]}): " choice

# Validate input
if ! [[ "$choice" =~ ^[0-9]+$ ]] || [ "$choice" -lt 1 ] || [ "$choice" -gt "${#GAMES[@]}" ]; then
    echo "ERROR: Invalid selection"
    exit 1
fi

# Get selected game info
selected_game="${GAMES[$((choice-1))]}"
GAME_NAME=$(echo "$selected_game" | cut -d'|' -f1)
REG_PATH=$(echo "$selected_game" | cut -d'|' -f2)
VALUE_NAME=$(echo "$selected_game" | cut -d'|' -f3)

echo ""
echo "Selected: $GAME_NAME"
echo ""

# Ask for game installation path (with retry loop)
while true; do
    echo "Where is $GAME_NAME installed?"
    echo "Enter the LINUX path (e.g., /home/user/.steam/steam/steamapps/common/Skyrim Special Edition)"
    echo ""
    read -r -p "Game path: " GAME_PATH_LINUX

    # Validate path exists
    if [ -d "$GAME_PATH_LINUX" ]; then
        # Path is valid, continue
        break
    else
        echo ""
        echo "WARNING: Directory does not exist: $GAME_PATH_LINUX"
        read -r -p "Try again? (y/n): " retry_choice
        if [ "$retry_choice" != "y" ] && [ "$retry_choice" != "Y" ]; then
            echo "Cancelled."
            exit 1
        fi
        echo ""
    fi
done

# Convert Linux path to Wine path (Z:\...)
# Replace forward slashes with backslashes and add Z: prefix
WINE_PATH="Z:${GAME_PATH_LINUX//\//\\\\}"

echo ""
echo "=================================================="
echo "Registry Fix Details"
echo "=================================================="
echo "Game: $GAME_NAME"
echo "Linux Path: $GAME_PATH_LINUX"
echo "Wine Path: $WINE_PATH"
echo "Registry Key: HKLM\\$REG_PATH"
echo "Value Name: $VALUE_NAME"
echo "=================================================="
echo ""
read -p "Apply this registry fix? (y/n): " confirm

if [ "$confirm" != "y" ] && [ "$confirm" != "Y" ]; then
    echo "Cancelled."
    exit 1
fi

# Set WINEPREFIX
export WINEPREFIX="$PREFIX"

echo ""
echo "Applying registry fix..."
echo ""

# Function to set registry value
set_registry() {
    local reg_key="$1"
    local reg_flag="$2"

    echo "Setting: $reg_key ($reg_flag)"
    $REG add "HKLM\\$reg_key" /v "$VALUE_NAME" /d "$WINE_PATH" /f $reg_flag

    if [ $? -eq 0 ]; then
        echo "  ✓ Success"
        return 0
    else
        echo "  ✗ Failed"
        return 1
    fi
}

# Apply registry fix to both 32-bit and 64-bit views
success_count=0

# 32-bit registry view
set_registry "$REG_PATH" "/reg:32"
[ $? -eq 0 ] && ((success_count++))

# 64-bit registry view (Wow6432Node)
WOW64_PATH=$(echo "$REG_PATH" | sed 's|^Software\\|SOFTWARE\\Wow6432Node\\|')
set_registry "$WOW64_PATH" "/reg:64"
[ $? -eq 0 ] && ((success_count++))

echo ""
echo "=================================================="
if [ $success_count -eq 2 ]; then
    echo "✓ Registry fix applied successfully!"
    echo ""
    echo "The game installation path has been set in the registry."
    echo "Your mods and tools should now be able to find the game."
elif [ $success_count -gt 0 ]; then
    echo "⚠ Registry fix partially applied ($success_count/2 succeeded)"
    echo ""
    echo "Some registry entries were set, but there were errors."
    echo "Your setup may still work, but check for any issues."
else
    echo "✗ Registry fix failed"
    echo ""
    echo "Could not set registry values. Check the error messages above."
fi
echo "=================================================="

# Offer to verify the registry
echo ""
read -p "Would you like to verify the registry values? (y/n): " verify_choice

if [ "$verify_choice" == "y" ] || [ "$verify_choice" == "Y" ]; then
    echo ""
    echo "Querying registry..."
    echo ""
    echo "32-bit view:"
    $REG query "HKLM\\$REG_PATH" /v "$VALUE_NAME" /reg:32
    echo ""
    echo "64-bit view (Wow6432Node):"
    $REG query "HKLM\\$WOW64_PATH" /v "$VALUE_NAME" /reg:64
fi

echo ""
echo "Done!"
"#;

/// Full text of the registry-fix script for the given parameter values.
/// The instance label appears twice: in the header comment and in the
/// banner the script echoes.
pub open spec fn registry_fix_script_text(
    prefix: Seq<char>,
    proton: Seq<char>,
    instance: Seq<char>,
) -> Seq<char> {
    REG_BANNER_A@ + INSTANCE_TAG@ + instance + REG_BANNER_B@ + TAG_PREFIX@ + prefix + QUOTE_NL@
        + TAG_PROTON@ + proton + QUOTE_NL@ + REG_SETUP@ + INSTANCE_TAG@ + instance
        + REG_MENU_HEAD@ + games_block() + REG_TAIL@
}

/// Renders the registry-fix script.
pub fn render_registry_fix(prefix: &str, proton: &str, instance: &str) -> (r: String)
    ensures
        r@ == registry_fix_script_text(prefix@, proton@, instance@),
{
    let mut s = String::new();
    s.append(REG_BANNER_A);
    s.append(INSTANCE_TAG);
    s.append(instance);
    s.append(REG_BANNER_B);
    s.append(TAG_PREFIX);
    s.append(prefix);
    s.append(QUOTE_NL);
    s.append(TAG_PROTON);
    s.append(proton);
    s.append(QUOTE_NL);
    s.append(REG_SETUP);
    s.append(INSTANCE_TAG);
    s.append(instance);
    s.append(REG_MENU_HEAD);
    push_games_block(&mut s);
    s.append(REG_TAIL);
    proof {
        assert(s@ =~= registry_fix_script_text(prefix@, proton@, instance@));
    }
    s
}

} // verus!
