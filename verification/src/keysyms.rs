use vstd::prelude::*;

verus! {

/// The keysym of the first entry of the symbol table whose full name
/// (`XK_a`, `XF86XK_AudioPlay` and the like) equals the given name, or
/// nothing when no entry carries that name.
pub uninterp spec fn keysym_by_name(name: Seq<char>) -> Option<u32>;

/// The keysym of the first entry of the symbol table whose cleared name
/// (the full name with prefixes such as `XK_` and underscores removed)
/// equals the given name, or nothing when no entry carries it.
pub uninterp spec fn keysym_by_cleared_name(name: Seq<char>) -> Option<u32>;

/// Relies on keysymdefs::get_item_by_name: it scans the crate's fixed
/// symbol table and returns the first entry whose full name equals the
/// argument. The table is a compile-time constant, so the result is a
/// function of the name alone.
#[verifier::external_body]
pub(crate) fn lookup_by_name(name: &Vec<char>) -> (r: Option<u32>)
    ensures
        r == keysym_by_name(name@),
{
    let s: String = name.iter().collect();
    keysymdefs::get_item_by_name(&s).map(|item| item.keysym())
}

/// Relies on keysymdefs::get_item_by_cleared_name: it scans the crate's
/// fixed symbol table and returns the first entry whose cleared name
/// equals the argument. The table is a compile-time constant, so the
/// result is a function of the name alone.
#[verifier::external_body]
pub(crate) fn lookup_by_cleared_name(name: &Vec<char>) -> (r: Option<u32>)
    ensures
        r == keysym_by_cleared_name(name@),
{
    let s: String = name.iter().collect();
    keysymdefs::get_item_by_cleared_name(&s).map(|item| item.keysym())
}

/// The key code a token resolves to: the full-name entry wins when both
/// lookups succeed, the cleared-name entry is the fallback, and zero —
/// never a real key — stands for "not found".
pub open spec fn resolved_key(name: Seq<char>) -> u32 {
    match keysym_by_name(name) {
        Some(k) => k,
        None => match keysym_by_cleared_name(name) {
            Some(k) => k,
            None => 0u32,
        },
    }
}

} // verus!
