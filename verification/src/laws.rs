//! Laws of the script generator, stated over the template spec functions
//! that the generators' own contracts use: idempotence of generation, the
//! compatibility-data derivation, verbatim embedding of every parameter,
//! the Vortex template's extra clearing block, and the registry menu's
//! fixed table.

use vstd::prelude::*;

use crate::paths::{compat_data_of, has_sep, joined_path, last_sep, lemma_last_sep};
use crate::registry::{
    game_menu_line, games_block, games_block_upto, registry_fix_script_text, INSTANCE_TAG,
    REG_BANNER_A, REG_BANNER_B, REG_MENU_HEAD, REG_SETUP, REG_TAIL,
};
use crate::scripts::{
    GeneratedScript, FILE_KILL_PREFIX, FILE_LAUNCH, FILE_REGISTRY_FIX, SCRIPT_MODE,
};
use crate::templates::{
    kill_prefix_script_text, launch_env_block, launch_run_block, mo2_launch_script_text,
    vortex_launch_script_text, DOTNET_FIXES, DOTNET_UNSET, EQ_QUOTE, KILL_HEAD, KILL_TAIL,
    LABEL_MO2, LABEL_VORTEX, LAUNCH_BANNER_A, LAUNCH_BANNER_B, LAUNCH_CHECKS, MO2_VFS_FIX,
    QUOTE_NL, TAG_COMPAT, TAG_PREFIX, TAG_PROTON, TAG_STEAM, TOOL_MO2, TOOL_VORTEX, VAR_MO2,
    VAR_VORTEX,
};

verus! {

/// True when `n` occurs in `h` as a contiguous run of characters.
pub open spec fn text_contains(h: Seq<char>, n: Seq<char>) -> bool {
    exists|i: int| 0 <= i && i + n.len() <= h.len() && #[trigger] h.subrange(i, i + n.len()) == n
}

/// A text built around `n` contains `n`.
pub proof fn lemma_contains_here(x: Seq<char>, n: Seq<char>, y: Seq<char>)
    ensures
        text_contains(x + n + y, n),
{
    let h = x + n + y;
    assert(h.subrange(x.len() as int, x.len() as int + n.len() as int) =~= n);
}

/// Containment survives appending more text.
pub proof fn lemma_contains_extend(h: Seq<char>, n: Seq<char>, r: Seq<char>)
    requires
        text_contains(h, n),
    ensures
        text_contains(h + r, n),
{
    let i = choose|i: int| 0 <= i && i + n.len() <= h.len() && #[trigger] h.subrange(i, i + n.len()) == n;
    assert((h + r).subrange(i, i + n.len()) =~= h.subrange(i, i + n.len()));
}

/// The environment block common to both launch templates embeds each of
/// its five parameter values verbatim, and the compatibility-data value
/// in a full `COMPAT_DATA="..."` line.
#[verifier::rlimit(60)]
pub proof fn lemma_env_block_params_verbatim(
    tool_name: Seq<char>,
    exe_var: Seq<char>,
    proton: Seq<char>,
    prefix: Seq<char>,
    compat: Seq<char>,
    exe: Seq<char>,
    steam: Seq<char>,
)
    ensures
        text_contains(launch_env_block(tool_name, exe_var, proton, prefix, compat, exe, steam), proton),
        text_contains(launch_env_block(tool_name, exe_var, proton, prefix, compat, exe, steam), prefix),
        text_contains(launch_env_block(tool_name, exe_var, proton, prefix, compat, exe, steam), compat),
        text_contains(launch_env_block(tool_name, exe_var, proton, prefix, compat, exe, steam), exe),
        text_contains(launch_env_block(tool_name, exe_var, proton, prefix, compat, exe, steam), steam),
        text_contains(
            launch_env_block(tool_name, exe_var, proton, prefix, compat, exe, steam),
            TAG_COMPAT@ + compat + QUOTE_NL@,
        ),
{
    let env = launch_env_block(tool_name, exe_var, proton, prefix, compat, exe, steam);
    let x0 = LAUNCH_BANNER_A@ + tool_name + LAUNCH_BANNER_B@ + TAG_PROTON@;
    let y0 = QUOTE_NL@ + TAG_PREFIX@ + prefix + QUOTE_NL@ + TAG_COMPAT@ + compat + QUOTE_NL@
        + exe_var + EQ_QUOTE@ + exe + QUOTE_NL@ + TAG_STEAM@ + steam + QUOTE_NL@
        + LAUNCH_CHECKS@;
    assert(env =~= x0 + proton + y0);
    lemma_contains_here(x0, proton, y0);

    let x1 = x0 + proton + QUOTE_NL@ + TAG_PREFIX@;
    let y1 = QUOTE_NL@ + TAG_COMPAT@ + compat + QUOTE_NL@ + exe_var + EQ_QUOTE@ + exe + QUOTE_NL@
        + TAG_STEAM@ + steam + QUOTE_NL@ + LAUNCH_CHECKS@;
    assert(env =~= x1 + prefix + y1);
    lemma_contains_here(x1, prefix, y1);

    let x2 = x1 + prefix + QUOTE_NL@ + TAG_COMPAT@;
    let y2 = QUOTE_NL@ + exe_var + EQ_QUOTE@ + exe + QUOTE_NL@ + TAG_STEAM@ + steam + QUOTE_NL@
        + LAUNCH_CHECKS@;
    assert(env =~= x2 + compat + y2);
    lemma_contains_here(x2, compat, y2);

    let xc = x1 + prefix + QUOTE_NL@;
    let line = TAG_COMPAT@ + compat + QUOTE_NL@;
    let yc = exe_var + EQ_QUOTE@ + exe + QUOTE_NL@ + TAG_STEAM@ + steam + QUOTE_NL@
        + LAUNCH_CHECKS@;
    assert(env =~= xc + line + yc);
    lemma_contains_here(xc, line, yc);

    let x3 = xc + line + exe_var + EQ_QUOTE@;
    let y3 = QUOTE_NL@ + TAG_STEAM@ + steam + QUOTE_NL@ + LAUNCH_CHECKS@;
    assert(env =~= x3 + exe + y3);
    lemma_contains_here(x3, exe, y3);

    let x4 = x3 + exe + QUOTE_NL@ + TAG_STEAM@;
    let y4 = QUOTE_NL@ + LAUNCH_CHECKS@;
    assert(env =~= x4 + steam + y4);
    lemma_contains_here(x4, steam, y4);
}

/// Every parameter of the MO2 launch operation appears verbatim in the
/// generated text, the compatibility-data value inside a full
/// `COMPAT_DATA="..."` line.
pub proof fn lemma_mo2_launch_params_verbatim(
    proton: Seq<char>,
    prefix: Seq<char>,
    compat: Seq<char>,
    exe: Seq<char>,
    steam: Seq<char>,
)
    ensures
        text_contains(mo2_launch_script_text(proton, prefix, compat, exe, steam), proton),
        text_contains(mo2_launch_script_text(proton, prefix, compat, exe, steam), prefix),
        text_contains(mo2_launch_script_text(proton, prefix, compat, exe, steam), compat),
        text_contains(mo2_launch_script_text(proton, prefix, compat, exe, steam), exe),
        text_contains(mo2_launch_script_text(proton, prefix, compat, exe, steam), steam),
        text_contains(
            mo2_launch_script_text(proton, prefix, compat, exe, steam),
            TAG_COMPAT@ + compat + QUOTE_NL@,
        ),
{
    let env = launch_env_block(TOOL_MO2@, VAR_MO2@, proton, prefix, compat, exe, steam);
    let rest = DOTNET_FIXES@ + MO2_VFS_FIX@ + launch_run_block(LABEL_MO2@, VAR_MO2@);
    lemma_env_block_params_verbatim(TOOL_MO2@, VAR_MO2@, proton, prefix, compat, exe, steam);
    assert(mo2_launch_script_text(proton, prefix, compat, exe, steam) =~= env + rest);
    lemma_contains_extend(env, proton, rest);
    lemma_contains_extend(env, prefix, rest);
    lemma_contains_extend(env, compat, rest);
    lemma_contains_extend(env, exe, rest);
    lemma_contains_extend(env, steam, rest);
    lemma_contains_extend(env, TAG_COMPAT@ + compat + QUOTE_NL@, rest);
}

/// Every parameter of the Vortex launch operation appears verbatim in the
/// generated text, the compatibility-data value inside a full
/// `COMPAT_DATA="..."` line.
pub proof fn lemma_vortex_launch_params_verbatim(
    proton: Seq<char>,
    prefix: Seq<char>,
    compat: Seq<char>,
    exe: Seq<char>,
    steam: Seq<char>,
)
    ensures
        text_contains(vortex_launch_script_text(proton, prefix, compat, exe, steam), proton),
        text_contains(vortex_launch_script_text(proton, prefix, compat, exe, steam), prefix),
        text_contains(vortex_launch_script_text(proton, prefix, compat, exe, steam), compat),
        text_contains(vortex_launch_script_text(proton, prefix, compat, exe, steam), exe),
        text_contains(vortex_launch_script_text(proton, prefix, compat, exe, steam), steam),
        text_contains(
            vortex_launch_script_text(proton, prefix, compat, exe, steam),
            TAG_COMPAT@ + compat + QUOTE_NL@,
        ),
{
    let env = launch_env_block(TOOL_VORTEX@, VAR_VORTEX@, proton, prefix, compat, exe, steam);
    let rest = DOTNET_UNSET@ + DOTNET_FIXES@ + launch_run_block(LABEL_VORTEX@, VAR_VORTEX@);
    lemma_env_block_params_verbatim(TOOL_VORTEX@, VAR_VORTEX@, proton, prefix, compat, exe, steam);
    assert(vortex_launch_script_text(proton, prefix, compat, exe, steam) =~= env + rest);
    lemma_contains_extend(env, proton, rest);
    lemma_contains_extend(env, prefix, rest);
    lemma_contains_extend(env, compat, rest);
    lemma_contains_extend(env, exe, rest);
    lemma_contains_extend(env, steam, rest);
    lemma_contains_extend(env, TAG_COMPAT@ + compat + QUOTE_NL@, rest);
}

/// Both parameters of the kill-prefix operation appear verbatim in the
/// generated text.
pub proof fn lemma_kill_prefix_params_verbatim(prefix: Seq<char>, proton: Seq<char>)
    ensures
        text_contains(kill_prefix_script_text(prefix, proton), prefix),
        text_contains(kill_prefix_script_text(prefix, proton), proton),
{
    let t = kill_prefix_script_text(prefix, proton);
    let x0 = KILL_HEAD@ + TAG_PREFIX@;
    let y0 = QUOTE_NL@ + TAG_PROTON@ + proton + QUOTE_NL@ + KILL_TAIL@;
    assert(t =~= x0 + prefix + y0);
    lemma_contains_here(x0, prefix, y0);
    let x1 = x0 + prefix + QUOTE_NL@ + TAG_PROTON@;
    let y1 = QUOTE_NL@ + KILL_TAIL@;
    assert(t =~= x1 + proton + y1);
    lemma_contains_here(x1, proton, y1);
}

/// Every parameter of the registry-fix operation, the free-text instance
/// label included, appears verbatim in the generated text.
pub proof fn lemma_registry_params_verbatim(
    prefix: Seq<char>,
    proton: Seq<char>,
    instance: Seq<char>,
)
    ensures
        text_contains(registry_fix_script_text(prefix, proton, instance), prefix),
        text_contains(registry_fix_script_text(prefix, proton, instance), proton),
        text_contains(registry_fix_script_text(prefix, proton, instance), instance),
{
    let t = registry_fix_script_text(prefix, proton, instance);
    let x0 = REG_BANNER_A@ + INSTANCE_TAG@;
    let y0 = REG_BANNER_B@ + TAG_PREFIX@ + prefix + QUOTE_NL@ + TAG_PROTON@ + proton + QUOTE_NL@
        + REG_SETUP@ + INSTANCE_TAG@ + instance + REG_MENU_HEAD@ + games_block() + REG_TAIL@;
    assert(t =~= x0 + instance + y0);
    lemma_contains_here(x0, instance, y0);
    let x1 = x0 + instance + REG_BANNER_B@ + TAG_PREFIX@;
    let y1 = QUOTE_NL@ + TAG_PROTON@ + proton + QUOTE_NL@ + REG_SETUP@ + INSTANCE_TAG@ + instance
        + REG_MENU_HEAD@ + games_block() + REG_TAIL@;
    assert(t =~= x1 + prefix + y1);
    lemma_contains_here(x1, prefix, y1);
    let x2 = x1 + prefix + QUOTE_NL@ + TAG_PROTON@;
    let y2 = QUOTE_NL@ + REG_SETUP@ + INSTANCE_TAG@ + instance + REG_MENU_HEAD@ + games_block()
        + REG_TAIL@;
    assert(t =~= x2 + proton + y2);
    lemma_contains_here(x2, proton, y2);
}

/// The compatibility-data path is the parent directory of the prefix
/// path: the text before the last `/` (the root `/` itself when that
/// separator is the first character); a path with no separator has no
/// parent and falls back to the path itself.
pub proof fn lemma_compat_data_is_parent(prefix: Seq<char>)
    ensures
        !has_sep(prefix) ==> compat_data_of(prefix) == prefix,
        has_sep(prefix) ==> 0 <= last_sep(prefix) < prefix.len() && prefix[last_sep(prefix)]
            == '/',
        has_sep(prefix) ==> forall|j: int|
            last_sep(prefix) < j < prefix.len() ==> prefix[j] != '/',
        has_sep(prefix) && last_sep(prefix) > 0 ==> compat_data_of(prefix) == prefix.subrange(
            0,
            last_sep(prefix),
        ),
        has_sep(prefix) && last_sep(prefix) == 0 ==> compat_data_of(prefix) == "/"@,
{
    lemma_last_sep(prefix);
    if has_sep(prefix) && last_sep(prefix) == 0 {
        reveal_strlit("/");
        assert(compat_data_of(prefix) =~= "/"@);
    }
}

/// Both launch scripts embed the compatibility-data directory derived
/// from the prefix path — its parent per `lemma_compat_data_is_parent` —
/// as a full `COMPAT_DATA="..."` line.
pub proof fn lemma_launch_scripts_embed_parent(
    proton: Seq<char>,
    prefix: Seq<char>,
    exe: Seq<char>,
    steam: Seq<char>,
)
    ensures
        text_contains(
            mo2_launch_script_text(proton, prefix, compat_data_of(prefix), exe, steam),
            TAG_COMPAT@ + compat_data_of(prefix) + QUOTE_NL@,
        ),
        text_contains(
            vortex_launch_script_text(proton, prefix, compat_data_of(prefix), exe, steam),
            TAG_COMPAT@ + compat_data_of(prefix) + QUOTE_NL@,
        ),
{
    lemma_mo2_launch_params_verbatim(proton, prefix, compat_data_of(prefix), exe, steam);
    lemma_vortex_launch_params_verbatim(proton, prefix, compat_data_of(prefix), exe, steam);
}

/// Generation is idempotent: any two MO2 launch-script results for the
/// same parameter set name the same target file and carry byte-identical
/// text and mode, so re-invoking the operation overwrites the file with
/// identical content.
pub proof fn lemma_mo2_generation_idempotent(
    a: GeneratedScript,
    b: GeneratedScript,
    prefix: Seq<char>,
    exe: Seq<char>,
    proton: Seq<char>,
    steam: Seq<char>,
    outdir: Seq<char>,
)
    requires
        a.content@ == mo2_launch_script_text(proton, prefix, compat_data_of(prefix), exe, steam),
        a.path@ == joined_path(outdir, FILE_LAUNCH@),
        a.mode == SCRIPT_MODE,
        b.content@ == mo2_launch_script_text(proton, prefix, compat_data_of(prefix), exe, steam),
        b.path@ == joined_path(outdir, FILE_LAUNCH@),
        b.mode == SCRIPT_MODE,
    ensures
        a.content@ == b.content@,
        a.path@ == b.path@,
        a.mode == b.mode,
{
}

/// Generation is idempotent for the Vortex launch operation.
pub proof fn lemma_vortex_generation_idempotent(
    a: GeneratedScript,
    b: GeneratedScript,
    prefix: Seq<char>,
    exe: Seq<char>,
    proton: Seq<char>,
    steam: Seq<char>,
    outdir: Seq<char>,
)
    requires
        a.content@ == vortex_launch_script_text(
            proton,
            prefix,
            compat_data_of(prefix),
            exe,
            steam,
        ),
        a.path@ == joined_path(outdir, FILE_LAUNCH@),
        a.mode == SCRIPT_MODE,
        b.content@ == vortex_launch_script_text(
            proton,
            prefix,
            compat_data_of(prefix),
            exe,
            steam,
        ),
        b.path@ == joined_path(outdir, FILE_LAUNCH@),
        b.mode == SCRIPT_MODE,
    ensures
        a.content@ == b.content@,
        a.path@ == b.path@,
        a.mode == b.mode,
{
}

/// Generation is idempotent for the kill-prefix operation.
pub proof fn lemma_kill_prefix_generation_idempotent(
    a: GeneratedScript,
    b: GeneratedScript,
    prefix: Seq<char>,
    proton: Seq<char>,
    outdir: Seq<char>,
)
    requires
        a.content@ == kill_prefix_script_text(prefix, proton),
        a.path@ == joined_path(outdir, FILE_KILL_PREFIX@),
        a.mode == SCRIPT_MODE,
        b.content@ == kill_prefix_script_text(prefix, proton),
        b.path@ == joined_path(outdir, FILE_KILL_PREFIX@),
        b.mode == SCRIPT_MODE,
    ensures
        a.content@ == b.content@,
        a.path@ == b.path@,
        a.mode == b.mode,
{
}

/// Generation is idempotent for the registry-fix operation.
pub proof fn lemma_registry_generation_idempotent(
    a: GeneratedScript,
    b: GeneratedScript,
    prefix: Seq<char>,
    proton: Seq<char>,
    instance: Seq<char>,
    outdir: Seq<char>,
)
    requires
        a.content@ == registry_fix_script_text(prefix, proton, instance),
        a.path@ == joined_path(outdir, FILE_REGISTRY_FIX@),
        a.mode == SCRIPT_MODE,
        b.content@ == registry_fix_script_text(prefix, proton, instance),
        b.path@ == joined_path(outdir, FILE_REGISTRY_FIX@),
        b.mode == SCRIPT_MODE,
    ensures
        a.content@ == b.content@,
        a.path@ == b.path@,
        a.mode == b.mode,
{
}

/// The Vortex launch script holds the block of four `unset` lines that
/// clears pre-existing .NET environment variables; apart from that block
/// and the MO2 logging line, the two launch templates are built from the
/// same environment block and the same closing block, differing only in
/// tool name and executable variable.
pub proof fn lemma_vortex_clears_dotnet(
    proton: Seq<char>,
    prefix: Seq<char>,
    compat: Seq<char>,
    exe: Seq<char>,
    steam: Seq<char>,
)
    ensures
        text_contains(vortex_launch_script_text(proton, prefix, compat, exe, steam), DOTNET_UNSET@),
        vortex_launch_script_text(proton, prefix, compat, exe, steam) == launch_env_block(
            TOOL_VORTEX@,
            VAR_VORTEX@,
            proton,
            prefix,
            compat,
            exe,
            steam,
        ) + DOTNET_UNSET@ + DOTNET_FIXES@ + launch_run_block(LABEL_VORTEX@, VAR_VORTEX@),
        mo2_launch_script_text(proton, prefix, compat, exe, steam) == launch_env_block(
            TOOL_MO2@,
            VAR_MO2@,
            proton,
            prefix,
            compat,
            exe,
            steam,
        ) + DOTNET_FIXES@ + MO2_VFS_FIX@ + launch_run_block(LABEL_MO2@, VAR_MO2@),
{
    let env = launch_env_block(TOOL_VORTEX@, VAR_VORTEX@, proton, prefix, compat, exe, steam);
    let y = DOTNET_FIXES@ + launch_run_block(LABEL_VORTEX@, VAR_VORTEX@);
    assert(vortex_launch_script_text(proton, prefix, compat, exe, steam) =~= env + DOTNET_UNSET@
        + y);
    lemma_contains_here(env, DOTNET_UNSET@, y);
}

/// The registry-fix script's menu block lists exactly the eleven fixed
/// titles with their registry-path and value-name pairs, in their fixed
/// order; the script embeds that block whole, and the instance label
/// stands in the banner after its `Instance: ` tag.
#[verifier::rlimit(60)]
pub proof fn lemma_registry_menu_fixed(
    prefix: Seq<char>,
    proton: Seq<char>,
    instance: Seq<char>,
)
    ensures
        games_block() == game_menu_line(0) + game_menu_line(1) + game_menu_line(2)
            + game_menu_line(3) + game_menu_line(4) + game_menu_line(5) + game_menu_line(6)
            + game_menu_line(7) + game_menu_line(8) + game_menu_line(9) + game_menu_line(10),
        text_contains(registry_fix_script_text(prefix, proton, instance), games_block()),
        text_contains(
            registry_fix_script_text(prefix, proton, instance),
            INSTANCE_TAG@ + instance,
        ),
{
    assert(games_block_upto(0) =~= Seq::<char>::empty());
    assert(games_block_upto(1) =~= game_menu_line(0));
    assert(games_block_upto(2) =~= game_menu_line(0) + game_menu_line(1));
    assert(games_block_upto(3) =~= games_block_upto(2) + game_menu_line(2));
    assert(games_block_upto(4) =~= games_block_upto(3) + game_menu_line(3));
    assert(games_block_upto(5) =~= games_block_upto(4) + game_menu_line(4));
    assert(games_block_upto(6) =~= games_block_upto(5) + game_menu_line(5));
    assert(games_block_upto(7) =~= games_block_upto(6) + game_menu_line(6));
    assert(games_block_upto(8) =~= games_block_upto(7) + game_menu_line(7));
    assert(games_block_upto(9) =~= games_block_upto(8) + game_menu_line(8));
    assert(games_block_upto(10) =~= games_block_upto(9) + game_menu_line(9));
    assert(games_block_upto(11) =~= games_block_upto(10) + game_menu_line(10));

    let t = registry_fix_script_text(prefix, proton, instance);
    let xg = REG_BANNER_A@ + INSTANCE_TAG@ + instance + REG_BANNER_B@ + TAG_PREFIX@ + prefix
        + QUOTE_NL@ + TAG_PROTON@ + proton + QUOTE_NL@ + REG_SETUP@ + INSTANCE_TAG@ + instance
        + REG_MENU_HEAD@;
    assert(t =~= xg + games_block() + REG_TAIL@);
    lemma_contains_here(xg, games_block(), REG_TAIL@);

    let xi = REG_BANNER_A@;
    let needle = INSTANCE_TAG@ + instance;
    let yi = REG_BANNER_B@ + TAG_PREFIX@ + prefix + QUOTE_NL@ + TAG_PROTON@ + proton + QUOTE_NL@
        + REG_SETUP@ + INSTANCE_TAG@ + instance + REG_MENU_HEAD@ + games_block() + REG_TAIL@;
    assert(t =~= xi + needle + yi);
    lemma_contains_here(xi, needle, yi);
}

} // verus!
