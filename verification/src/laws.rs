use vstd::prelude::*;
use crate::ParseError;
use crate::Keybinding;
use crate::ModMask;
use crate::add_spec;
use crate::has_origin;
use crate::mask_matches;

verus! {

/// Registering the same origin twice always fails the second time: once a
/// binding carrying origin `s` stands anywhere in the registry — as it
/// does after a successful `add` of `s` — a later `add` of the identical
/// text is answered with `DuplicateBinding`, whatever action it carries.
pub proof fn lemma_duplicate_rejected<A>(binds: Seq<Keybinding<A>>, i: int, d: char, s: Seq<char>)
    requires
        0 <= i < binds.len(),
        binds[i].origin@ == s,
    ensures
        add_spec(binds, d, s) == Err::<(u16, u32), ParseError>(ParseError::DuplicateBinding),
{
    assert(has_origin(binds, s));
}

/// Ghost-mask equivalence: a mask bound as `m` answers the query `m | g`
/// for every `g` inside the ghost mask `gm`, and it answers a query `q`
/// exactly when `q | gm` equals `m | gm` — bits outside the ghost mask
/// must agree, bits inside it never decide.
pub proof fn lemma_ghost_mask_equivalence(m: u16, gm: u16, g: u16, q: u16)
    ensures
        g & gm == g ==> mask_matches(m, gm, m | g),
        mask_matches(m, gm, q) <==> (q | gm) == (m | gm),
{
    assert((g & gm) == g ==> (m | gm) == ((m | g) | gm)) by (bit_vector);
}

/// Ghost-mask equivalence, stated of a binding: it matches its own key
/// under any extra modifier bits that all lie in the registry's ghost
/// mask, and never matches an event whose mask differs from its own
/// outside that ghost mask.
pub proof fn lemma_binding_ghost_tolerance<A>(b: Keybinding<A>, gm: ModMask, g: u16, q: ModMask)
    requires
        g & gm.0 == g,
    ensures
        b.matches(gm, ModMask(b.modifier.0 | g), b.key),
        (q.0 | gm.0) != (b.modifier.0 | gm.0) ==> !b.matches(gm, q, b.key),
{
    lemma_ghost_mask_equivalence(b.modifier.0, gm.0, g, q.0);
}

} // verus!
