use vstd::prelude::*;
use crate::masks::CONTROL_BIT;
use crate::masks::MOD1_BIT;
use crate::masks::MOD3_BIT;
use crate::masks::MOD4_BIT;
use crate::masks::SHIFT_BIT;
use crate::text::lower_char;
use crate::text::lower_chars;
use crate::text::chars_eq_str;

verus! {

/// The modifier bit a token stands for, once its ASCII capitals are
/// lowered, or nothing when the token is no modifier alias.
pub open spec fn alias_flag(t: Seq<char>) -> Option<u16> {
    let l = t.map_values(|c: char| lower_char(c));
    if l == "super"@ || l == "mod4"@ || l == "win"@ || l == "windows"@ || l == "cmd"@ || l
        == "command"@ {
        Some(MOD4_BIT)
    } else if l == "alt"@ || l == "mod1"@ || l == "meta"@ || l == "alt_l"@ || l == "alt_r"@ || l
        == "meta_l"@ || l == "meta_r"@ {
        Some(MOD1_BIT)
    } else if l == "alt_gr"@ || l == "mod3"@ || l == "altgr"@ || l == "meta_gr"@ || l
        == "metagr"@ {
        Some(MOD3_BIT)
    } else if l == "ctrl"@ || l == "control"@ || l == "ctrl_l"@ || l == "ctrl_r"@ {
        Some(CONTROL_BIT)
    } else if l == "shift"@ || l == "shift_l"@ || l == "shift_r"@ {
        Some(SHIFT_BIT)
    } else {
        None
    }
}

/// The modifier bit the token stands for, or nothing when it is no
/// modifier alias.
pub fn modifier_flag(t: &Vec<char>) -> (r: Option<u16>)
    ensures
        r == alias_flag(t@),
{
    let low = lower_chars(t);
    proof {
        assert(low@ =~= t@.map_values(|c: char| lower_char(c)));
    }
    if chars_eq_str(&low, "super") || chars_eq_str(&low, "mod4") || chars_eq_str(&low, "win")
        || chars_eq_str(&low, "windows") || chars_eq_str(&low, "cmd") || chars_eq_str(
        &low,
        "command",
    ) {
        Some(MOD4_BIT)
    } else if chars_eq_str(&low, "alt") || chars_eq_str(&low, "mod1") || chars_eq_str(&low, "meta")
        || chars_eq_str(&low, "alt_l") || chars_eq_str(&low, "alt_r") || chars_eq_str(
        &low,
        "meta_l",
    ) || chars_eq_str(&low, "meta_r") {
        Some(MOD1_BIT)
    } else if chars_eq_str(&low, "alt_gr") || chars_eq_str(&low, "mod3") || chars_eq_str(
        &low,
        "altgr",
    ) || chars_eq_str(&low, "meta_gr") || chars_eq_str(&low, "metagr") {
        Some(MOD3_BIT)
    } else if chars_eq_str(&low, "ctrl") || chars_eq_str(&low, "control") || chars_eq_str(
        &low,
        "ctrl_l",
    ) || chars_eq_str(&low, "ctrl_r") {
        Some(CONTROL_BIT)
    } else if chars_eq_str(&low, "shift") || chars_eq_str(&low, "shift_l") || chars_eq_str(
        &low,
        "shift_r",
    ) {
        Some(SHIFT_BIT)
    } else {
        None
    }
}

/// The union of the modifier bits of the given tokens, or nothing when
/// some token is no modifier alias.
pub open spec fn mods_mask(toks: Seq<Seq<char>>) -> Option<u16>
    decreases toks.len(),
{
    if toks.len() == 0 {
        Some(0u16)
    } else {
        match (alias_flag(toks.last()), mods_mask(toks.drop_last())) {
            (Some(f), Some(m)) => Some(m | f),
            _ => None,
        }
    }
}

/// One token that is no alias poisons the whole list.
pub proof fn lemma_mods_mask_none(toks: Seq<Seq<char>>, i: int)
    requires
        0 <= i < toks.len(),
        alias_flag(toks[i]) is None,
    ensures
        mods_mask(toks) is None,
    decreases toks.len(),
{
    if i < toks.len() - 1 {
        lemma_mods_mask_none(toks.drop_last(), i);
    }
}

} // verus!
