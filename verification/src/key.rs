use vstd::prelude::*;
use vstd::string::StringExecFns;

verus! {

/// The attribute-name prefix reserved for this binding layer's own storage.
/// Names that start with an underscore are reserved by the native toolkit for
/// internal use and for bindings; this layer claims its own namespace inside
/// that space so its keys can collide neither with the toolkit's internal
/// attributes nor with ordinary user attributes.
pub open spec fn binding_prefix() -> Seq<char> {
    "_IUPRUST_FBOX_"@
}

/// The attribute-store key under which the closure bound to the callback
/// `name` is kept: the reserved prefix followed by the callback name.
pub open spec fn binding_key_spec(name: Seq<char>) -> Seq<char> {
    binding_prefix() + name
}

/// Derives the attribute-store key for a callback name.
pub fn binding_key(name: &str) -> (r: String)
    ensures
        r@ == binding_key_spec(name@),
{
    let p: String = String::from_str("_IUPRUST_FBOX_");
    p.concat(name)
}

/// The name of the activation event as the native toolkit spells it.
pub fn action_name() -> (r: &'static str)
    ensures
        r@ == "ACTION"@,
{
    "ACTION"
}

/// The name of the user-facing destruction event as the native toolkit
/// spells it.
pub fn destroy_cb_name() -> (r: &'static str)
    ensures
        r@ == "DESTROY_CB"@,
{
    "DESTROY_CB"
}

/// Distinct callback names derive distinct binding keys, so one handle can
/// carry one slot per callback with no collisions.
pub proof fn lemma_binding_key_injective(n1: Seq<char>, n2: Seq<char>)
    requires
        n1 != n2,
    ensures
        binding_key_spec(n1) != binding_key_spec(n2),
{
    let p = binding_prefix();
    let k1 = binding_key_spec(n1);
    let k2 = binding_key_spec(n2);
    if k1 == k2 {
        assert(k1.len() == p.len() + n1.len());
        assert(k2.len() == p.len() + n2.len());
        assert(n1.len() == n2.len());
        assert forall|i: int| 0 <= i < n1.len() implies n1[i] == n2[i] by {
            assert(k1[p.len() + i] == n1[i]);
            assert(k2[p.len() + i] == n2[i]);
        }
        assert(n1 =~= n2);
    }
}

/// A binding key never equals the bare callback name itself: the reserved
/// prefix is non-empty, so the binding layer's slots stay apart from
/// attributes named after the events they serve.
pub proof fn lemma_binding_key_prefixed(name: Seq<char>)
    ensures
        binding_key_spec(name) != name,
        binding_key_spec(name).len() == binding_prefix().len() + name.len(),
{
    reveal_strlit("_IUPRUST_FBOX_");
    assert(binding_prefix().len() == 14);
}

} // verus!
