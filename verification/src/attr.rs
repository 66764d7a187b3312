use vstd::prelude::*;

verus! {

/// The value side of an attribute.
#[derive(Debug, Clone)]
pub enum Value {
    /// A truth value.
    Bool(bool),
    /// A signed integer.
    I64(i64),
    /// A piece of text.
    Text(String),
}

/// A single key/value attribute on a span, an event, a link or a scope.
#[derive(Debug, Clone)]
pub struct KeyValue {
    /// The attribute's key; at most one attribute per key is kept.
    pub key: String,
    /// The attribute's value.
    pub value: Value,
}

impl KeyValue {
    /// An attribute with the given key and value.
    pub fn new(key: String, value: Value) -> (r: KeyValue)
        ensures
            r == (KeyValue { key, value }),
    {
        KeyValue { key, value }
    }
}

/// The index of the first attribute whose key reads `key`, or `-1` when no
/// attribute does.
pub open spec fn key_index(attrs: Seq<KeyValue>, key: Seq<char>) -> int
    decreases attrs.len(),
{
    if attrs.len() == 0 {
        -1
    } else if attrs[0].key@ == key {
        0
    } else {
        let rest = key_index(attrs.drop_first(), key);
        if rest == -1 {
            -1
        } else {
            rest + 1
        }
    }
}

/// `key_index` names the first position holding the key: a valid index
/// whose entry has the key and before which no entry does, or `-1` when
/// the key is absent.
pub proof fn lemma_key_index(attrs: Seq<KeyValue>, key: Seq<char>)
    ensures
        -1 <= key_index(attrs, key) < attrs.len(),
        key_index(attrs, key) == -1 ==> forall|j: int|
            0 <= j < attrs.len() ==> attrs[j].key@ != key,
        key_index(attrs, key) >= 0 ==> attrs[key_index(attrs, key)].key@ == key,
        key_index(attrs, key) >= 0 ==> forall|j: int|
            0 <= j < key_index(attrs, key) ==> attrs[j].key@ != key,
    decreases attrs.len(),
{
    if attrs.len() == 0 {
    } else if attrs[0].key@ == key {
    } else {
        lemma_key_index(attrs.drop_first(), key);
        assert forall|j: int| 1 <= j < attrs.len() implies attrs.drop_first()[j - 1] == attrs[j] by {}
    }
}

/// Setting an attribute on a list: the first entry with the same key is
/// replaced in place (so the position from the first insertion is kept and
/// the value is overwritten); a new key goes to the end, preserving
/// insertion order.
pub open spec fn upsert_attr(attrs: Seq<KeyValue>, kv: KeyValue) -> Seq<KeyValue> {
    let i = key_index(attrs, kv.key@);
    if i == -1 {
        attrs.push(kv)
    } else {
        attrs.update(i, kv)
    }
}

/// Sets `kv` in `attrs` under the [`upsert_attr`] rule: overwrite the first
/// entry with an equal key, else append.
pub fn set_attr(attrs: &mut Vec<KeyValue>, kv: KeyValue)
    ensures
        final(attrs)@ == upsert_attr(old(attrs)@, kv),
{
    let mut i: usize = 0;
    while i < attrs.len()
        invariant
            attrs@ == old(attrs)@,
            i <= attrs.len(),
            forall|j: int| 0 <= j < i ==> attrs@[j].key@ != kv.key@,
        decreases attrs.len() - i,
    {
        if attrs[i].key == kv.key {
            proof {
                lemma_key_index(attrs@, kv.key@);
                assert(key_index(attrs@, kv.key@) == i);
            }
            attrs.set(i, kv);
            return ;
        }
        i = i + 1;
    }
    proof {
        lemma_key_index(attrs@, kv.key@);
        assert(key_index(attrs@, kv.key@) == -1);
    }
    attrs.push(kv);
}

} // verus!
