mod aliases;
mod errors;
mod keysyms;
mod laws;
mod masks;
mod text;

pub use errors::ParseError;
pub use masks::ModMask;
pub use masks::mask_matches;
pub use masks::SHIFT_BIT;
pub use masks::CAPS_LOCK_BIT;
pub use masks::CONTROL_BIT;
pub use masks::MOD1_BIT;
pub use masks::MOD2_BIT;
pub use masks::MOD3_BIT;
pub use masks::MOD4_BIT;
pub use masks::MOD5_BIT;
pub use masks::ANY_BIT;
pub use aliases::alias_flag;
pub use aliases::mods_mask;
pub use keysyms::keysym_by_name;
pub use keysyms::keysym_by_cleared_name;
pub use keysyms::resolved_key;
pub use text::tokens_spec;
pub use laws::lemma_duplicate_rejected;
pub use laws::lemma_ghost_mask_equivalence;
pub use laws::lemma_binding_ghost_tolerance;

use vstd::prelude::*;
use crate::aliases::lemma_mods_mask_none;
use crate::aliases::modifier_flag;
use crate::keysyms::lookup_by_cleared_name;
use crate::keysyms::lookup_by_name;
use crate::text::str_eq;
use crate::text::tokens_of;

verus! {

/// An action a binding carries: a capability with a single operation,
/// implemented by the user of the registry and invoked by the caller —
/// never by the registry itself — once a binding matches.
pub trait KeyAction {
    fn run(&self) -> Result<(), String>;
}

/// One registered shortcut: the unmodified text it was registered under,
/// the modifier mask and key symbol that text resolved to, and the action
/// handed over at registration.
#[derive(Debug)]
pub struct Keybinding<A> {
    pub origin: String,
    pub modifier: ModMask,
    pub key: u32,
    pub action: A,
}

impl<A> Keybinding<A> {
    /// The resolved modifier mask.
    pub fn modifier(&self) -> (r: ModMask)
        ensures
            r == self.modifier,
    {
        self.modifier
    }

    /// The resolved key symbol.
    pub fn key(&self) -> (r: u32)
        ensures
            r == self.key,
    {
        self.key
    }

    /// The action registered with this binding.
    pub fn action(&self) -> (r: &A)
        ensures
            r == &self.action,
    {
        &self.action
    }

    /// The original shortcut text, exactly as it was registered.
    pub fn origin(&self) -> (r: &str)
        ensures
            r@ == self.origin@,
    {
        self.origin.as_str()
    }

    /// Whether this binding answers an event with modifiers `modifiers`
    /// and key symbol `keysym`, for a registry that ignores the bits of
    /// `ghost_mods`: masks must agree outside the ghost bits, and the key
    /// symbols must be equal.
    pub open spec fn matches(self, ghost_mods: ModMask, modifiers: ModMask, keysym: u32) -> bool {
        mask_matches(self.modifier.0, ghost_mods.0, modifiers.0) && self.key == keysym
    }
}

/// The registry: an insertion-ordered sequence of bindings, the delimiter
/// that splits shortcut texts into tokens, and the ghost-modifier mask
/// whose bits are ignored when bindings are matched against events.
#[derive(Debug)]
pub struct Keybindings<A> {
    pub binds: Vec<Keybinding<A>>,
    pub ghost_modifiers: ModMask,
    pub key_delimiter: char,
}

/// Whether some binding was registered under exactly the text `s`.
pub open spec fn has_origin<A>(binds: Seq<Keybinding<A>>, s: Seq<char>) -> bool {
    exists|i: int| 0 <= i < binds.len() && binds[i].origin@ == s
}

/// What parsing the shortcut text `s` with delimiter `d` yields: the
/// modifier mask and key symbol of the new binding, or the error that
/// rejects the text. The last token must resolve to a key symbol other
/// than zero, and every earlier token must be a modifier alias.
pub open spec fn parse_outcome(s: Seq<char>, d: char) -> Result<(u16, u32), ParseError> {
    let toks = tokens_spec(s, d);
    if toks.len() == 0 {
        Err(ParseError::MissingKey)
    } else {
        let key = resolved_key(toks.last());
        if key == 0 {
            Err(ParseError::UnknownKey)
        } else {
            match mods_mask(toks.drop_last()) {
                Some(m) => Ok((m, key)),
                None => Err(ParseError::InvalidModifier),
            }
        }
    }
}

/// What `add` does to a registry whose bindings are `binds`: a text
/// already registered is a duplicate whatever else it holds; any other
/// text is parsed.
pub open spec fn add_spec<A>(binds: Seq<Keybinding<A>>, d: char, s: Seq<char>) -> Result<
    (u16, u32),
    ParseError,
> {
    if has_origin(binds, s) {
        Err(ParseError::DuplicateBinding)
    } else {
        parse_outcome(s, d)
    }
}

impl<A> Keybindings<A> {
    /// An empty registry with the given delimiter and ghost-modifier mask.
    pub fn new(key_delimiter: char, ghost_modifiers: ModMask) -> (r: Keybindings<A>)
        ensures
            r.binds@.len() == 0,
            r.ghost_modifiers == ghost_modifiers,
            r.key_delimiter == key_delimiter,
    {
        Keybindings { binds: Vec::new(), ghost_modifiers, key_delimiter }
    }

    /// Parses the shortcut text and appends the binding it describes, or
    /// rejects the text and leaves the registry exactly as it was.
    pub fn add(&mut self, human_key_string: &str, action: A) -> (r: Result<(), ParseError>)
        ensures
            final(self).ghost_modifiers == old(self).ghost_modifiers,
            final(self).key_delimiter == old(self).key_delimiter,
            match add_spec(old(self).binds@, old(self).key_delimiter, human_key_string@) {
                Ok(mk) => {
                    &&& r == Ok::<(), ParseError>(())
                    &&& final(self).binds@.len() == old(self).binds@.len() + 1
                    &&& final(self).binds@.subrange(0, old(self).binds@.len() as int) == old(
                        self,
                    ).binds@
                    &&& final(self).binds@.last().origin@ == human_key_string@
                    &&& final(self).binds@.last().modifier.0 == mk.0
                    &&& final(self).binds@.last().key == mk.1
                    &&& final(self).binds@.last().action == action
                },
                Err(e) => {
                    &&& r == Err::<(), ParseError>(e)
                    &&& final(self).binds@ == old(self).binds@
                },
            },
    {
        let n = self.binds.len();
        let mut i: usize = 0;
        while i < n
            invariant
                i <= n,
                n == self.binds@.len(),
                forall|j: int| 0 <= j < i ==> self.binds@[j].origin@ != human_key_string@,
            decreases n - i,
        {
            if str_eq(self.binds[i].origin.as_str(), human_key_string) {
                return Err(ParseError::DuplicateBinding);
            }
            i += 1;
        }
        assert(!has_origin(self.binds@, human_key_string@));
        let ghost toks = tokens_spec(human_key_string@, self.key_delimiter);
        let mut parts = tokens_of(human_key_string, self.key_delimiter);
        let key_tok = match parts.pop() {
            Some(k) => k,
            None => {
                return Err(ParseError::MissingKey);
            },
        };
        assert(key_tok@ == toks.last());
        assert(parts@.len() == toks.len() - 1);
        assert(forall|j: int| 0 <= j < parts@.len() ==> parts@[j]@ == toks[j]);
        let strict = lookup_by_name(&key_tok);
        let cleared = lookup_by_cleared_name(&key_tok);
        let mut key: u32 = 0;
        if let Some(k) = cleared {
            key = k;
        }
        if let Some(k) = strict {
            key = k;
        }
        assert(key == resolved_key(toks.last()));
        if key == 0 {
            return Err(ParseError::UnknownKey);
        }
        let ghost mod_toks = toks.drop_last();
        let m = parts.len();
        let mut mask: u16 = 0;
        let mut k: usize = 0;
        proof {
            assert(mod_toks.take(0) =~= Seq::<Seq<char>>::empty());
        }
        while k < m
            invariant
                k <= m,
                m == parts@.len(),
                m == mod_toks.len(),
                forall|j: int| 0 <= j < m ==> parts@[j]@ == mod_toks[j],
                mods_mask(mod_toks.take(k as int)) == Some(mask),
                toks == tokens_spec(human_key_string@, old(self).key_delimiter),
                mod_toks == toks.drop_last(),
                toks.len() >= 1,
                key == resolved_key(toks.last()),
                key != 0,
                !has_origin(old(self).binds@, human_key_string@),
                *self == *old(self),
            decreases m - k,
        {
            match modifier_flag(&parts[k]) {
                Some(f) => {
                    proof {
                        assert(mod_toks.take(k + 1 as int).drop_last() =~= mod_toks.take(k as int));
                        assert(mod_toks.take(k + 1 as int).last() == mod_toks[k as int]);
                    }
                    mask = mask | f;
                },
                None => {
                    proof {
                        lemma_mods_mask_none(mod_toks, k as int);
                    }
                    return Err(ParseError::InvalidModifier);
                },
            }
            k += 1;
        }
        proof {
            assert(mod_toks.take(m as int) =~= mod_toks);
        }
        let b = Keybinding {
            origin: human_key_string.to_owned(),
            modifier: ModMask(mask),
            key,
            action,
        };
        self.binds.push(b);
        proof {
            assert(final(self).binds@.subrange(0, old(self).binds@.len() as int) =~= old(
                self,
            ).binds@);
        }
        Ok(())
    }

    /// The first binding, in insertion order, that answers an event with
    /// the given live modifiers and key symbol — the ghost-modifier bits
    /// of the registry never decide — or nothing when no binding does.
    pub fn handle(&self, modifiers: ModMask, keysym: u32) -> (r: Option<&Keybinding<A>>)
        ensures
            match r {
                Some(b) => exists|i: int|
                    0 <= i < self.binds@.len() && *b == #[trigger] self.binds@[i] && self.binds@[i]
                        .matches(self.ghost_modifiers, modifiers, keysym) && (forall|j: int|
                        0 <= j < i ==> !(#[trigger] self.binds@[j]).matches(
                            self.ghost_modifiers,
                            modifiers,
                            keysym,
                        )),
                None => forall|i: int|
                    0 <= i < self.binds@.len() ==> !(#[trigger] self.binds@[i]).matches(
                        self.ghost_modifiers,
                        modifiers,
                        keysym,
                    ),
            },
    {
        let n = self.binds.len();
        let mut i: usize = 0;
        while i < n
            invariant
                i <= n,
                n == self.binds@.len(),
                forall|j: int|
                    0 <= j < i ==> !(#[trigger] self.binds@[j]).matches(
                        self.ghost_modifiers,
                        modifiers,
                        keysym,
                    ),
            decreases n - i,
        {
            let b = &self.binds[i];
            let bound = b.modifier | self.ghost_modifiers;
            let live = modifiers | self.ghost_modifiers;
            if bound == live && b.key == keysym {
                return Some(b);
            }
            i += 1;
        }
        None
    }
}

impl<A> Default for Keybindings<A> {
    /// An empty registry with delimiter `'+'` and the three lock keys —
    /// num lock, scroll lock and caps lock — as ghost modifiers.
    fn default() -> (r: Keybindings<A>)
        ensures
            r.binds@.len() == 0,
            r.ghost_modifiers.0 == (MOD2_BIT | MOD5_BIT | CAPS_LOCK_BIT),
            r.key_delimiter == '+',
    {
        Keybindings {
            binds: Vec::new(),
            ghost_modifiers: ModMask(MOD2_BIT | MOD5_BIT | CAPS_LOCK_BIT),
            key_delimiter: '+',
        }
    }
}

} // verus!
