//! Semantics of the emitted version-reporting and genesis-initialization
//! capabilities.
//!
//! The transformation emits implementation blocks whose bodies query and
//! persist a pallet version against an assumed raw key-value store. This
//! module states what those bodies compute: the current version is a pure
//! function of the enclosing package's declared version, the stored version
//! is a get-and-decode against the store under a key derived from the
//! pallet's registered name, and genesis initialization persists the current
//! version under that same key.

use vstd::prelude::*;

verus! {

/// The enclosing package's declared version, as the build environment
/// provides it at generation time.
#[derive(Debug, Clone, Copy, PartialEq, Eq, Structural)]
pub struct PackageVersion {
    pub major: u16,
    pub minor: u8,
    pub patch: u8,
}

/// The version value the generated code reports and persists.
#[derive(Debug, Clone, Copy, PartialEq, Eq, Structural)]
pub struct PalletVersion {
    pub major: u16,
    pub minor: u8,
    pub patch: u8,
}

/// The current version: a pure projection of the package's declared version.
pub open spec fn spec_current_version(pkg: PackageVersion) -> PalletVersion {
    PalletVersion { major: pkg.major, minor: pkg.minor, patch: pkg.patch }
}

/// The stored wire form of a version: major in two little-endian bytes,
/// then minor, then patch.
pub open spec fn spec_encode_version(v: PalletVersion) -> Seq<u8> {
    seq![(v.major % 256) as u8, (v.major / 256) as u8, v.minor, v.patch]
}

/// Decoding of a stored value: four bytes give back a version, anything
/// else is undecodable and reads as absent.
pub open spec fn spec_decode_version(b: Seq<u8>) -> Option<PalletVersion> {
    if b.len() == 4 {
        Some(
            PalletVersion {
                major: (b[1] as int * 256 + b[0] as int) as u16,
                minor: b[2],
                patch: b[3],
            },
        )
    } else {
        None
    }
}

/// The "current version" query of the generated version-reporting block:
/// deterministic, effect-free, and a function of the package version alone.
pub fn current_version(pkg: &PackageVersion) -> (v: PalletVersion)
    ensures
        v == spec_current_version(*pkg),
{
    PalletVersion { major: pkg.major, minor: pkg.minor, patch: pkg.patch }
}

/// Encode a version into its stored wire form.
pub fn encode_version(v: &PalletVersion) -> (r: Vec<u8>)
    ensures
        r@ == spec_encode_version(*v),
{
    let mut r: Vec<u8> = Vec::new();
    r.push((v.major % 256) as u8);
    r.push((v.major / 256) as u8);
    r.push(v.minor);
    r.push(v.patch);
    proof {
        assert(r@ =~= spec_encode_version(*v));
    }
    r
}

/// Decode a stored value back into a version; absent for any value that is
/// not exactly four bytes.
pub fn decode_version(bytes: &Vec<u8>) -> (r: Option<PalletVersion>)
    ensures
        r == spec_decode_version(bytes@),
{
    if bytes.len() == 4 {
        let major: u16 = (bytes[1] as u16) * 256 + (bytes[0] as u16);
        Some(PalletVersion { major, minor: bytes[2], patch: bytes[3] })
    } else {
        None
    }
}

/// Encoding then decoding gives back exactly the version that was written.
pub proof fn lemma_codec_round_trip(v: PalletVersion)
    ensures
        spec_decode_version(spec_encode_version(v)) == Some(v),
{
    let b = spec_encode_version(v);
    assert(b[1] as int * 256 + b[0] as int == v.major as int);
}

/// Association of store keys to raw stored values. Later writes shadow
/// earlier ones: a key's value is the first entry holding it.
pub open spec fn lookup_entries(s: Seq<(Vec<u8>, Vec<u8>)>, key: Seq<u8>) -> Option<Seq<u8>>
    decreases s.len(),
{
    if s.len() == 0 {
        None
    } else if s[0].0@ == key {
        Some(s[0].1@)
    } else {
        lookup_entries(s.drop_first(), key)
    }
}

/// A model of the assumed raw key-value store the generated code calls
/// against: raw byte keys to raw byte values.
pub struct VersionStore {
    entries: Vec<(Vec<u8>, Vec<u8>)>,
}

impl VersionStore {
    /// The raw value stored under a key, if any.
    pub closed spec fn spec_get(self, key: Seq<u8>) -> Option<Seq<u8>> {
        lookup_entries(self.entries@, key)
    }

    /// An empty store: every key reads as absent.
    pub fn new() -> (s: Self)
        ensures
            forall|k: Seq<u8>| s.spec_get(k) is None,
    {
        VersionStore { entries: Vec::new() }
    }

    /// The raw get: the value stored under `key`, absent when none is.
    pub fn get(&self, key: &Vec<u8>) -> (r: Option<Vec<u8>>)
        ensures
            r is Some <==> self.spec_get(key@) is Some,
            r matches Some(v) ==> self.spec_get(key@) == Some(v@),
    {
        let mut i: usize = 0;
        proof {
            assert(self.entries@.skip(0) =~= self.entries@);
        }
        while i < self.entries.len()
            invariant
                i <= self.entries@.len(),
                lookup_entries(self.entries@, key@) == lookup_entries(
                    self.entries@.skip(i as int),
                    key@,
                ),
            decreases self.entries@.len() - i,
        {
            let pair = &self.entries[i];
            let hit = pair.0 == *key;
            proof {
                assert(self.entries@.skip(i as int)[0] == self.entries@[i as int]);
                assert(self.entries@.skip(i as int).drop_first() =~= self.entries@.skip(
                    i as int + 1,
                ));
            }
            if hit {
                proof {
                    assert(self.entries@[i as int].0@ =~= key@);
                }
                return Some(copy_bytes(&self.entries[i].1));
            }
            i = i + 1;
        }
        proof {
            assert(self.entries@.skip(i as int) =~= Seq::<(Vec<u8>, Vec<u8>)>::empty());
        }
        None
    }

    /// The raw put: stores `value` under `key`, leaving every other key's
    /// value as it was.
    pub fn put(&mut self, key: Vec<u8>, value: Vec<u8>)
        ensures
            final(self).spec_get(key@) == Some(value@),
            forall|k: Seq<u8>|
                k != key@ ==> final(self).spec_get(k) == old(self).spec_get(k),
    {
        let ghost k0 = key@;
        let ghost before = self.entries@;
        self.entries.insert(0, (key, value));
        proof {
            assert(self.entries@.drop_first() =~= before);
            assert forall|k: Seq<u8>| k != k0 implies lookup_entries(self.entries@, k)
                == lookup_entries(before, k) by {
                assert(self.entries@[0].0@ == k0);
            }
        }
    }
}

/// The storage key the generated code derives for a pallet: defined exactly
/// when the naming capability knows the pallet, and derived from the
/// registered name. An unregistered pallet yields no key; the generated
/// code treats that as an unrecoverable configuration error and aborts.
pub fn storage_key(registered_name: &Option<Vec<u8>>) -> (r: Option<Vec<u8>>)
    ensures
        r is Some <==> registered_name is Some,
        registered_name matches Some(n) ==> (r matches Some(k) && k@ == n@),
{
    match registered_name {
        Some(n) => Some(copy_bytes(n)),
        None => None,
    }
}

/// What the "stored version" query returns: the decoded value under the
/// pallet's derived key, absent when nothing (or nothing decodable) is
/// stored there.
pub open spec fn spec_storage_version(store: VersionStore, name: Seq<u8>) -> Option<
    PalletVersion,
> {
    match store.spec_get(name) {
        Some(b) => spec_decode_version(b),
        None => None,
    }
}

/// The "stored version" query of the generated version-reporting block:
/// get against the store under the pallet's derived key, then decode.
/// `pallet_name` is the name the runtime's naming capability resolved; the
/// generated code aborts before this point when there is none.
pub fn storage_version(store: &VersionStore, pallet_name: &Vec<u8>) -> (r: Option<PalletVersion>)
    ensures
        r == spec_storage_version(*store, pallet_name@),
{
    match store.get(pallet_name) {
        Some(bytes) => decode_version(&bytes),
        None => None,
    }
}

/// The genesis-initialization action: persist the current version into the
/// store under the pallet's derived key. Every other key is untouched.
pub fn on_genesis(store: &mut VersionStore, pallet_name: &Vec<u8>, pkg: &PackageVersion)
    ensures
        final(store).spec_get(pallet_name@) == Some(
            spec_encode_version(spec_current_version(*pkg)),
        ),
        forall|k: Seq<u8>|
            k != pallet_name@ ==> final(store).spec_get(k) == old(store).spec_get(k),
{
    let v = current_version(pkg);
    let bytes = encode_version(&v);
    store.put(copy_bytes(pallet_name), bytes);
}

/// Round-trip write/read consistency: once genesis initialization has run
/// for a pallet, the stored-version query for that pallet returns exactly
/// the current version — the store holds its encoding, and decoding gives
/// the version back.
pub proof fn lemma_genesis_round_trip(store: VersionStore, name: Seq<u8>, pkg: PackageVersion)
    requires
        store.spec_get(name) == Some(spec_encode_version(spec_current_version(pkg))),
    ensures
        spec_storage_version(store, name) == Some(spec_current_version(pkg)),
{
    lemma_codec_round_trip(spec_current_version(pkg));
}

/// A fresh vector holding the same bytes.
fn copy_bytes(v: &Vec<u8>) -> (r: Vec<u8>)
    ensures
        r@ == v@,
{
    let mut r: Vec<u8> = Vec::new();
    let mut i: usize = 0;
    while i < v.len()
        invariant
            i <= v@.len(),
            r@.len() == i,
            forall|j: int| 0 <= j < i ==> r@[j] == v@[j],
        decreases v@.len() - i,
    {
        r.push(v[i]);
        i = i + 1;
    }
    proof {
        assert(r@ =~= v@);
    }
    r
}

} // verus!
