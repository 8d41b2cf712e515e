//! Identifiers for elements that refer to each other.
//!
//! The identifiers of one generator are numbered in the order in which they
//! are asked for, so a generator that starts from zero gives the same
//! identifiers in every run.
use crate::text::{append_decimal, decimal};
use vstd::prelude::*;
use vstd::string::StringExecFns;

verus! {

/// The number that follows `n` in a generator: the next one, and zero after
/// the largest.
pub open spec fn next_number(n: usize) -> usize {
    if n == usize::MAX {
        0
    } else {
        (n + 1) as usize
    }
}

/// A source of numbered identifiers.
#[derive(Debug)]
pub struct IdGenerator {
    next: usize,
}

impl IdGenerator {
    /// The number of the next identifier.
    pub closed spec fn next_spec(&self) -> usize {
        self.next
    }

    /// A generator that starts from zero.
    pub fn new() -> (r: IdGenerator)
        ensures
            r.next_spec() == 0,
    {
        IdGenerator { next: 0 }
    }

    /// A generator that starts from `next`.
    pub fn starting_at(next: usize) -> (r: IdGenerator)
        ensures
            r.next_spec() == next,
    {
        IdGenerator { next }
    }

    /// Hands out the next number.
    pub fn take(&mut self) -> (n: usize)
        ensures
            n == old(self).next_spec(),
            final(self).next_spec() == next_number(n),
    {
        let n = self.next;
        self.next = if n == usize::MAX {
            0
        } else {
            n + 1
        };
        n
    }
}

/// An identifier made of a prefix, a hyphen and a number.
pub open spec fn numbered(prefix: Seq<char>, n: usize) -> Seq<char> {
    prefix + "-"@ + decimal(n as nat)
}

/// An identifier made of a prefix, a number and a suffix, with hyphens
/// between them.
pub open spec fn numbered_part(prefix: Seq<char>, n: usize, suffix: Seq<char>) -> Seq<char> {
    prefix + "-"@ + decimal(n as nat) + "-"@ + suffix
}

fn numbered_string(prefix: &str, n: usize) -> (r: String)
    ensures
        r@ == numbered(prefix@, n),
{
    let mut s = String::from_str(prefix);
    s.append("-");
    append_decimal(&mut s, n as u64);
    s
}

fn numbered_part_string(prefix: &str, n: usize, suffix: &str) -> (r: String)
    ensures
        r@ == numbered_part(prefix@, n, suffix@),
{
    let mut s = numbered_string(prefix, n);
    s.append("-");
    s.append(suffix);
    s
}

/// A new identifier: `leptos-radix-` and the generator's next number.
pub fn use_id(ids: &mut IdGenerator) -> (r: String)
    ensures
        r@ == numbered("leptos-radix"@, old(ids).next_spec()),
        final(ids).next_spec() == next_number(old(ids).next_spec()),
{
    let n = ids.take();
    numbered_string("leptos-radix", n)
}

/// A new identifier: the prefix, a hyphen and the generator's next number.
pub fn use_id_with_prefix(ids: &mut IdGenerator, prefix: &str) -> (r: String)
    ensures
        r@ == numbered(prefix@, old(ids).next_spec()),
        final(ids).next_spec() == next_number(old(ids).next_spec()),
{
    let n = ids.take();
    numbered_string(prefix, n)
}

/// The identifiers of the parts of a composite primitive.
pub struct UseRelatedIdsReturn {
    /// The identifier of the primitive as a whole.
    pub base_id: String,
    pub trigger_id: String,
    pub content_id: String,
    pub label_id: String,
    pub description_id: String,
}

/// Identifiers for the parts of one composite primitive. They share one
/// number, so the generator moves on by one.
pub fn use_related_ids(ids: &mut IdGenerator, prefix: &str) -> (r: UseRelatedIdsReturn)
    ensures
        r.base_id@ == numbered(prefix@, old(ids).next_spec()),
        r.trigger_id@ == numbered_part(prefix@, old(ids).next_spec(), "trigger"@),
        r.content_id@ == numbered_part(prefix@, old(ids).next_spec(), "content"@),
        r.label_id@ == numbered_part(prefix@, old(ids).next_spec(), "label"@),
        r.description_id@ == numbered_part(prefix@, old(ids).next_spec(), "description"@),
        final(ids).next_spec() == next_number(old(ids).next_spec()),
{
    let n = ids.take();
    UseRelatedIdsReturn {
        base_id: numbered_string(prefix, n),
        trigger_id: numbered_part_string(prefix, n, "trigger"),
        content_id: numbered_part_string(prefix, n, "content"),
        label_id: numbered_part_string(prefix, n, "label"),
        description_id: numbered_part_string(prefix, n, "description"),
    }
}

/// The identifiers of a form field and what belongs to it.
pub struct UseFormIdsReturn {
    pub input_id: String,
    pub label_id: String,
    pub description_id: String,
    pub error_id: String,
}

/// Identifiers for a form field, its label, its description and its error
/// message. They share one number, so the generator moves on by one.
pub fn use_form_ids(ids: &mut IdGenerator, field_name: &str) -> (r: UseFormIdsReturn)
    ensures
        r.input_id@ == numbered_part(field_name@, old(ids).next_spec(), "input"@),
        r.label_id@ == numbered_part(field_name@, old(ids).next_spec(), "label"@),
        r.description_id@ == numbered_part(field_name@, old(ids).next_spec(), "description"@),
        r.error_id@ == numbered_part(field_name@, old(ids).next_spec(), "error"@),
        final(ids).next_spec() == next_number(old(ids).next_spec()),
{
    let n = ids.take();
    UseFormIdsReturn {
        input_id: numbered_part_string(field_name, n, "input"),
        label_id: numbered_part_string(field_name, n, "label"),
        description_id: numbered_part_string(field_name, n, "description"),
        error_id: numbered_part_string(field_name, n, "error"),
    }
}

/// One identifier for each suffix, in their order. They share one number,
/// so the generator moves on by one.
pub fn use_custom_id_pattern(ids: &mut IdGenerator, prefix: &str, suffixes: Vec<&str>) -> (r: Vec<
    String,
>)
    ensures
        r.len() == suffixes.len(),
        forall|i: int|
            0 <= i < suffixes.len() ==> (#[trigger] r[i])@ == numbered_part(
                prefix@,
                old(ids).next_spec(),
                suffixes[i]@,
            ),
        final(ids).next_spec() == next_number(old(ids).next_spec()),
{
    let n = ids.take();
    let mut out: Vec<String> = Vec::new();
    let mut i: usize = 0;
    while i < suffixes.len()
        invariant
            i <= suffixes.len(),
            out.len() == i,
            forall|j: int|
                0 <= j < i ==> (#[trigger] out[j])@ == numbered_part(prefix@, n, suffixes[j]@),
        decreases suffixes.len() - i,
    {
        out.push(numbered_part_string(prefix, n, suffixes[i]));
        i = i + 1;
    }
    out
}

/// The number that stands for a key: each character in turn is added to
/// thirty-one times the number so far, in arithmetic that wraps at 32 bits.
pub open spec fn stable_hash(key: Seq<char>) -> u32
    decreases key.len(),
{
    if key.len() == 0 {
        0
    } else {
        stable_hash(key.drop_last()).wrapping_mul(31).wrapping_add(key.last() as u32)
    }
}

/// An identifier that depends on the key alone: the same key gives the same
/// identifier, with any generator or none.
pub fn use_stable_id(key: &str) -> (r: String)
    ensures
        r@ == numbered("leptos-radix-stable"@, stable_hash(key@) as usize),
{
    let mut hash: u32 = 0;
    for c in it: key.chars()
        invariant
            it.seq() == key@,
            hash == stable_hash(key@.take(it.index() as int)),
    {
        assert(key@.take(it.index() + 1).drop_last() =~= key@.take(it.index() as int));
        hash = hash.wrapping_mul(31).wrapping_add(c as u32);
    }
    assert(key@.take(key@.len() as int) =~= key@);
    numbered_string("leptos-radix-stable", hash as usize)
}

/// Two identifiers with the same prefix and different numbers differ, so a
/// generator repeats no identifier before its numbers start again from zero.
pub proof fn lemma_numbers_tell_apart(prefix: Seq<char>, a: usize, b: usize)
    requires
        a != b,
    ensures
        numbered(prefix, a) != numbered(prefix, b),
{
    let head = prefix + "-"@;
    if numbered(prefix, a) == numbered(prefix, b) {
        let x = numbered(prefix, a);
        let y = numbered(prefix, b);
        assert(x.subrange(head.len() as int, x.len() as int) =~= decimal(a as nat));
        assert(y.subrange(head.len() as int, y.len() as int) =~= decimal(b as nat));
        crate::text::lemma_decimal_injective(a as nat, b as nat);
    }
}

} // verus!
