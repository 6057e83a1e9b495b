use vstd::prelude::*;

verus! {

/// A 32-byte account identity: a participant's public key, a program
/// identifier, or a deterministically derived sub-account address.
#[derive(Clone, Copy, Debug)]
pub struct Identity {
    pub bytes: [u8; 32],
}

impl View for Identity {
    type V = Seq<u8>;

    open spec fn view(&self) -> Seq<u8> {
        self.bytes@
    }
}

/// Whether two identities are byte-for-byte the same.
pub fn identity_eq(a: &Identity, b: &Identity) -> (r: bool)
    ensures
        r <==> a@ == b@,
{
    let mut i: usize = 0;
    while i < 32
        invariant
            i <= 32,
            forall|j: int| 0 <= j < i ==> a.bytes@[j] == b.bytes@[j],
        decreases 32 - i,
    {
        if a.bytes[i] != b.bytes[i] {
            return false;
        }
        i += 1;
    }
    proof {
        assert(a@ =~= b@);
    }
    true
}

/// The identity's bytes as a growable buffer, for use as a derivation seed.
pub fn identity_to_vec(id: &Identity) -> (r: Vec<u8>)
    ensures
        r@ == id@,
{
    let mut out: Vec<u8> = Vec::new();
    let mut i: usize = 0;
    while i < 32
        invariant
            i <= 32,
            out@ == id@.take(i as int),
        decreases 32 - i,
    {
        out.push(id.bytes[i]);
        proof {
            assert(out@ =~= id@.take(i + 1 as int));
        }
        i += 1;
    }
    proof {
        assert(out@ =~= id@);
    }
    out
}

/// Whether some identity in `s` has the same bytes as `id`.
pub open spec fn contains_identity(s: Seq<Identity>, id: Identity) -> bool {
    exists|i: int| 0 <= i < s.len() && s[i]@ == id@
}

/// The position of the identity in `v` whose bytes equal `id`'s, if any.
pub fn find_identity(v: &Vec<Identity>, id: &Identity) -> (r: Option<usize>)
    ensures
        match r {
            Some(i) => i < v.len() && v@[i as int]@ == id@,
            None => !contains_identity(v@, *id),
        },
{
    let mut i: usize = 0;
    while i < v.len()
        invariant
            i <= v.len(),
            forall|j: int| 0 <= j < i ==> v@[j]@ != id@,
        decreases v.len() - i,
    {
        if identity_eq(&v[i], id) {
            return Some(i);
        }
        i += 1;
    }
    None
}

} // verus!
