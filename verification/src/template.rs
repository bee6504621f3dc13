//! Command templates and placeholder substitution.
//!
//! A command template is a byte string holding zero or more occurrences of the
//! two-byte placeholder token `{}`.  Resolving a template against one argument
//! replaces every occurrence of the token by the argument's bytes.  Commands
//! are kept as raw bytes throughout: in UTF-8 text the bytes of `{` and `}`
//! can only stand for those characters, so byte-level substitution agrees with
//! the text-level one.

use vstd::prelude::*;

verus! {

/// First byte of the placeholder token, `{`.
pub const PLACEHOLDER_OPEN: u8 = 123;

/// Second byte of the placeholder token, `}`.
pub const PLACEHOLDER_CLOSE: u8 = 125;

/// A placeholder token `{}` begins at position `i` of `t`.
pub open spec fn placeholder_at(t: Seq<u8>, i: int) -> bool {
    &&& 0 <= i
    &&& i + 1 < t.len()
    &&& t[i] == PLACEHOLDER_OPEN
    &&& t[i + 1] == PLACEHOLDER_CLOSE
}

/// `t` holds at least one placeholder token.
pub open spec fn has_placeholder(t: Seq<u8>) -> bool {
    exists|i: int| placeholder_at(t, i)
}

/// The template `t` with every placeholder token replaced by `a`, scanning
/// left to right over non-overlapping occurrences.
pub open spec fn resolve_spec(t: Seq<u8>, a: Seq<u8>) -> Seq<u8>
    decreases t.len(),
{
    if t.len() >= 2 && t[0] == PLACEHOLDER_OPEN && t[1] == PLACEHOLDER_CLOSE {
        a + resolve_spec(t.skip(2), a)
    } else if t.len() >= 1 {
        seq![t[0]] + resolve_spec(t.skip(1), a)
    } else {
        Seq::<u8>::empty()
    }
}

/// Substitute `argument` for every placeholder token of `template`.
pub fn resolve_command(template: &Vec<u8>, argument: &Vec<u8>) -> (resolved: Vec<u8>)
    ensures
        resolved@ == resolve_spec(template@, argument@),
{
    let mut out: Vec<u8> = Vec::new();
    let mut i: usize = 0;
    proof {
        assert(template@.skip(0) =~= template@);
        assert(Seq::<u8>::empty() + resolve_spec(template@, argument@) =~= resolve_spec(
            template@,
            argument@,
        ));
    }
    while i < template.len()
        invariant
            i <= template.len(),
            resolve_spec(template@, argument@) == out@ + resolve_spec(
                template@.skip(i as int),
                argument@,
            ),
        decreases template.len() - i,
    {
        if i + 1 < template.len() && template[i] == PLACEHOLDER_OPEN && template[i + 1]
            == PLACEHOLDER_CLOSE {
            proof {
                assert(template@.skip(i as int).skip(2) =~= template@.skip(i + 2));
                assert(out@ + (argument@ + resolve_spec(template@.skip(i + 2), argument@)) =~= (out@
                    + argument@) + resolve_spec(template@.skip(i + 2), argument@));
            }
            out.extend_from_slice(argument.as_slice());
            i = i + 2;
        } else {
            proof {
                assert(template@.skip(i as int).skip(1) =~= template@.skip(i + 1));
                assert(out@ + (seq![template@[i as int]] + resolve_spec(
                    template@.skip(i + 1),
                    argument@,
                )) =~= out@.push(template@[i as int]) + resolve_spec(
                    template@.skip(i + 1),
                    argument@,
                ));
            }
            let b = template[i];
            out.push(b);
            i = i + 1;
        }
    }
    proof {
        assert(template@.skip(template@.len() as int) =~= Seq::<u8>::empty());
        assert(out@ + Seq::<u8>::empty() =~= out@);
    }
    out
}

/// A template without any placeholder token resolves to itself, for every
/// argument.
pub proof fn lemma_resolve_plain_template(t: Seq<u8>, a: Seq<u8>)
    requires
        !has_placeholder(t),
    ensures
        resolve_spec(t, a) == t,
    decreases t.len(),
{
    if t.len() >= 2 && t[0] == PLACEHOLDER_OPEN && t[1] == PLACEHOLDER_CLOSE {
        assert(placeholder_at(t, 0));
        assert(false);
    }
    if t.len() >= 1 {
        assert(!has_placeholder(t.skip(1))) by {
            if has_placeholder(t.skip(1)) {
                let i = choose|i: int| placeholder_at(t.skip(1), i);
                assert(t[i + 1] == t.skip(1)[i]);
                assert(t[i + 2] == t.skip(1)[i + 1]);
                assert(placeholder_at(t, i + 1));
            }
        }
        lemma_resolve_plain_template(t.skip(1), a);
        assert(seq![t[0]] + t.skip(1) =~= t);
    }
}

} // verus!
