//! Declarations of the outside types and calls the library relies on.

use vstd::prelude::*;

verus! {

/// Identifier type of the `uuid` crate, carried through as an opaque value.
#[verifier::external_type_specification]
#[verifier::external_body]
pub struct ExUuid(uuid::Uuid);

/// Template context of the `tera` crate, carried through as an opaque value.
#[verifier::external_type_specification]
#[verifier::external_body]
pub struct ExTeraContext(tera::Context);

/// The set of keys held by a template context.
pub uninterp spec fn context_keys(c: tera::Context) -> Set<Seq<char>>;

/// The entries of a template context whose value is a string, with that string.
pub uninterp spec fn context_texts(c: tera::Context) -> Map<Seq<char>, Seq<char>>;

/// The entries of a template context whose value is an integer, with that integer.
pub uninterp spec fn context_numbers(c: tera::Context) -> Map<Seq<char>, int>;

/// The entries of a template context whose value is a boolean, with that boolean.
pub uninterp spec fn context_flags(c: tera::Context) -> Map<Seq<char>, bool>;

/// Relies on tera::Context::new: a context with no entry.
#[verifier::external_body]
pub(crate) fn new_context() -> (r: tera::Context)
    ensures
        context_keys(r) == Set::<Seq<char>>::empty(),
        context_texts(r).dom() == Set::<Seq<char>>::empty(),
        context_numbers(r).dom() == Set::<Seq<char>>::empty(),
        context_flags(r).dom() == Set::<Seq<char>>::empty(),
{
    tera::Context::new()
}

/// Relies on tera::Context::insert: the key now holds the string (any
/// earlier value is replaced); a string always serializes, so the call does
/// not panic.
#[verifier::external_body]
pub(crate) fn insert_text(c: &mut tera::Context, key: &str, value: &str)
    ensures
        context_keys(*final(c)) == context_keys(*old(c)).insert(key@),
        context_texts(*final(c)) == context_texts(*old(c)).insert(key@, value@),
        context_numbers(*final(c)) == context_numbers(*old(c)).remove(key@),
        context_flags(*final(c)) == context_flags(*old(c)).remove(key@),
{
    c.insert(key, value)
}

/// Relies on tera::Context::insert with an unsigned integer value: the key
/// now holds that number.
#[verifier::external_body]
pub(crate) fn insert_number(c: &mut tera::Context, key: &str, value: u32)
    ensures
        context_keys(*final(c)) == context_keys(*old(c)).insert(key@),
        context_texts(*final(c)) == context_texts(*old(c)).remove(key@),
        context_numbers(*final(c)) == context_numbers(*old(c)).insert(key@, value as int),
        context_flags(*final(c)) == context_flags(*old(c)).remove(key@),
{
    c.insert(key, &value)
}

/// Relies on tera::Context::insert with a boolean value: the key now holds
/// that boolean.
#[verifier::external_body]
pub(crate) fn insert_flag(c: &mut tera::Context, key: &str, value: bool)
    ensures
        context_keys(*final(c)) == context_keys(*old(c)).insert(key@),
        context_texts(*final(c)) == context_texts(*old(c)).remove(key@),
        context_numbers(*final(c)) == context_numbers(*old(c)).remove(key@),
        context_flags(*final(c)) == context_flags(*old(c)).insert(key@, value),
{
    c.insert(key, &value)
}

/// Relies on tera::Context::insert with a uuid value: uuid's serde support
/// writes it as a string (which cannot fail), so the key now holds a string.
#[verifier::external_body]
pub(crate) fn insert_uuid(c: &mut tera::Context, key: &str, value: &uuid::Uuid)
    ensures
        context_keys(*final(c)) == context_keys(*old(c)).insert(key@),
        context_texts(*final(c)).contains_key(key@),
        context_texts(*final(c)).remove(key@) == context_texts(*old(c)).remove(key@),
        context_numbers(*final(c)) == context_numbers(*old(c)).remove(key@),
        context_flags(*final(c)) == context_flags(*old(c)).remove(key@),
{
    c.insert(key, value)
}

} // verus!
