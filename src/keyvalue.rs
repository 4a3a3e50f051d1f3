use vstd::prelude::*;

verus! {

/// Errors of the key/value capability, as the guest sees them.
#[derive(Debug)]
pub enum KeyvalueError {
    /// No connection could be had, or the backend could not be reached.
    ConnectionError(String),
    /// The key holds nothing; carries the namespaced key.
    KeyNotFound(String),
    /// Any other backend failure.
    UnexpectedError(String),
}

/// The physical key under which `key` of namespace `ns` is stored.
pub open spec fn physical_key(ns: Seq<char>, key: Seq<char>) -> Seq<char> {
    ns + seq![':'] + key
}

/// The prefix shared by every physical key of namespace `ns`.
pub open spec fn namespace_prefix(ns: Seq<char>) -> Seq<char> {
    ns + seq![':']
}

/// A physical key with the namespace prefix taken off; a key without that
/// prefix is left as it is.
pub open spec fn strip_prefix(ns: Seq<char>, k: Seq<char>) -> Seq<char> {
    let p = namespace_prefix(ns);
    if p.len() <= k.len() && k.subrange(0, p.len() as int) == p {
        k.subrange(p.len() as int, k.len() as int)
    } else {
        k
    }
}

/// `ns:key`, the physical key of `key` in namespace `ns`.
pub fn namespaced_key(ns: &str, key: &str) -> (r: String)
    ensures
        r@ == physical_key(ns@, key@),
{
    proof {
        reveal_strlit(":");
    }
    let r = String::from_str(ns).concat(":").concat(key);
    assert(r@ =~= physical_key(ns@, key@));
    r
}

/// `ns:*`, the pattern that lists the physical keys of namespace `ns`.
pub fn keys_pattern(ns: &str) -> (r: String)
    ensures
        r@ == namespace_prefix(ns@) + seq!['*'],
{
    proof {
        reveal_strlit(":*");
    }
    let r = String::from_str(ns).concat(":*");
    assert(r@ =~= namespace_prefix(ns@) + seq!['*']);
    r
}

/// `redis://host/`, the address of the backend on the given host.
pub fn redis_url(host: &str) -> (r: String)
    ensures
        r@ == "redis://"@ + host@ + "/"@,
{
    String::from_str("redis://").concat(host).concat("/")
}

/// The outcome of a read of the physical key `key`, given what the backend
/// returned: an empty payload means the key holds nothing.
pub fn read_outcome(key: String, fetched: Result<Vec<u8>, String>) -> (r: Result<
    Vec<u8>,
    KeyvalueError,
>)
    ensures
        match fetched {
            Ok(v) => if v@.len() == 0 {
                r matches Err(KeyvalueError::KeyNotFound(k)) && k == key
            } else {
                r matches Ok(w) && w == v
            },
            Err(e) => r matches Err(KeyvalueError::ConnectionError(m)) && m == e,
        },
{
    match fetched {
        Ok(v) => {
            if v.len() == 0 {
                Err(KeyvalueError::KeyNotFound(key))
            } else {
                Ok(v)
            }
        },
        Err(e) => Err(KeyvalueError::ConnectionError(e)),
    }
}

/// The outcome of a write (set or delete), given what the backend returned.
pub fn write_outcome(result: Result<(), String>) -> (r: Result<(), KeyvalueError>)
    ensures
        match result {
            Ok(()) => r is Ok,
            Err(e) => r matches Err(KeyvalueError::UnexpectedError(m)) && m == e,
        },
{
    match result {
        Ok(()) => Ok(()),
        Err(e) => Err(KeyvalueError::UnexpectedError(e)),
    }
}

/// A key with the namespace prefix taken off.
pub fn strip_namespace_key(ns: &str, key: &str) -> (r: String)
    ensures
        r@ == strip_prefix(ns@, key@),
{
    proof {
        reveal_strlit(":");
    }
    let prefix = String::from_str(ns).concat(":");
    assert(prefix@ =~= namespace_prefix(ns@));
    let plen = prefix.as_str().unicode_len();
    let klen = key.unicode_len();
    if plen <= klen {
        let head = key.substring_char(0, plen);
        if head.to_owned() == prefix {
            return key.substring_char(plen, klen).to_owned();
        }
    }
    key.to_owned()
}

/// The keys of namespace `ns`, from the physical keys the backend listed.
pub fn strip_namespace(ns: &str, keys: &Vec<String>) -> (r: Vec<String>)
    ensures
        r@.len() == keys@.len(),
        forall|i: int| 0 <= i < keys@.len() ==> (#[trigger] r@[i])@ == strip_prefix(ns@, keys@[i]@),
{
    let mut r: Vec<String> = Vec::new();
    let mut i: usize = 0;
    while i < keys.len()
        invariant
            i <= keys@.len(),
            r@.len() == i,
            forall|j: int| 0 <= j < i ==> (#[trigger] r@[j])@ == strip_prefix(ns@, keys@[j]@),
        decreases keys@.len() - i,
    {
        r.push(strip_namespace_key(ns, keys[i].as_str()));
        i = i + 1;
    }
    r
}

/// What the backend's read of a physical key hands back: the stored bytes, or
/// nothing when the key is absent.
pub open spec fn stored(store: Map<Seq<char>, Seq<u8>>, k: Seq<char>) -> Seq<u8> {
    if store.contains_key(k) {
        store[k]
    } else {
        Seq::empty()
    }
}

/// `get(ns, key)` on a backend holding `store`: the value, or `None` where
/// `read_outcome` reports the key as not found.
pub open spec fn model_get(store: Map<Seq<char>, Seq<u8>>, ns: Seq<char>, key: Seq<char>) -> Option<
    Seq<u8>,
> {
    let v = stored(store, physical_key(ns, key));
    if v.len() == 0 {
        None
    } else {
        Some(v)
    }
}

/// `set(ns, key, v)` on a backend holding `store`.
pub open spec fn model_set(
    store: Map<Seq<char>, Seq<u8>>,
    ns: Seq<char>,
    key: Seq<char>,
    v: Seq<u8>,
) -> Map<Seq<char>, Seq<u8>> {
    store.insert(physical_key(ns, key), v)
}

/// `delete(ns, key)` on a backend holding `store`.
pub open spec fn model_delete(store: Map<Seq<char>, Seq<u8>>, ns: Seq<char>, key: Seq<char>) -> Map<
    Seq<char>,
    Seq<u8>,
> {
    store.remove(physical_key(ns, key))
}

/// `keys(ns)` on a backend holding `store`: each physical key under the
/// namespace prefix, with the prefix taken off.
pub open spec fn model_keys(store: Map<Seq<char>, Seq<u8>>, ns: Seq<char>) -> Set<Seq<char>> {
    Set::new(
        |k: Seq<char>|
            exists|pk: Seq<char>|
                #[trigger] store.contains_key(pk) && pk.len() >= namespace_prefix(ns).len()
                    && pk.subrange(0, namespace_prefix(ns).len() as int) == namespace_prefix(ns)
                    && strip_prefix(ns, pk) == k,
    )
}

/// A value that was set is read back, as long as it is not empty (an empty
/// payload is what an absent key reads as).
pub proof fn lemma_set_then_get(
    store: Map<Seq<char>, Seq<u8>>,
    ns: Seq<char>,
    key: Seq<char>,
    v: Seq<u8>,
)
    requires
        v.len() > 0,
    ensures
        model_get(model_set(store, ns, key, v), ns, key) == Some(v),
{
}

/// A key that was set and then deleted reads as not found.
pub proof fn lemma_delete_then_get(
    store: Map<Seq<char>, Seq<u8>>,
    ns: Seq<char>,
    key: Seq<char>,
    v: Seq<u8>,
)
    ensures
        model_get(model_delete(model_set(store, ns, key, v), ns, key), ns, key) is None,
{
}

/// A key that was set is listed by `keys`, without the namespace prefix.
pub proof fn lemma_set_then_keys(
    store: Map<Seq<char>, Seq<u8>>,
    ns: Seq<char>,
    key: Seq<char>,
    v: Seq<u8>,
)
    ensures
        model_keys(model_set(store, ns, key, v), ns).contains(key),
{
    let pk = physical_key(ns, key);
    let p = namespace_prefix(ns);
    assert(pk.subrange(0, p.len() as int) =~= p);
    assert(pk.subrange(p.len() as int, pk.len() as int) =~= key);
    assert(model_set(store, ns, key, v).contains_key(pk));
}

} // verus!
