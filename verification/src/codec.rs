//! The lease codec.
//!
//! A blob ledger stores `(payload, lease)` as a tree with exactly one entry:
//! the entry's blob holds the payload bytes verbatim, and the entry's name is
//! the sixteen-digit lowercase hex encoding of the little-endian bytes of the
//! 64-bit lease identifier. A lease of `0` means "no lease held". An absent
//! branch decodes as an empty payload with no lease.

use vstd::prelude::*;

verus! {

// ---------------------------------------------------------------------------
// Hex digits
// ---------------------------------------------------------------------------

/// The lowercase ASCII hex digit for a nibble value below 16.
pub open spec fn spec_hex_digit(n: u8) -> u8
    recommends
        n < 16,
{
    if n < 10 {
        (48 + n) as u8
    } else {
        (87 + n) as u8
    }
}

/// Whether `c` is an ASCII hex digit (either case).
pub open spec fn spec_is_hex_digit(c: u8) -> bool {
    (48 <= c && c <= 57) || (97 <= c && c <= 102) || (65 <= c && c <= 70)
}

/// The nibble value of an ASCII hex digit.
pub open spec fn spec_hex_value(c: u8) -> u8
    recommends
        spec_is_hex_digit(c),
{
    if 48 <= c && c <= 57 {
        (c - 48) as u8
    } else if 97 <= c && c <= 102 {
        (c - 87) as u8
    } else {
        (c - 55) as u8
    }
}

/// Hex encoding of a byte sequence: two lowercase digits per byte, high nibble
/// first.
pub open spec fn spec_hex_encode(b: Seq<u8>) -> Seq<u8> {
    Seq::new(
        2 * b.len(),
        |i: int|
            if i % 2 == 0 {
                spec_hex_digit(b[i / 2] / 16)
            } else {
                spec_hex_digit(b[i / 2] % 16)
            },
    )
}

/// Whether `s` decodes as hex: an even number of hex digits.
pub open spec fn spec_hex_valid(s: Seq<u8>) -> bool {
    s.len() % 2 == 0 && forall|i: int| 0 <= i < s.len() ==> spec_is_hex_digit(#[trigger] s[i])
}

/// Hex decoding of a valid hex digit sequence.
pub open spec fn spec_hex_decode(s: Seq<u8>) -> Seq<u8>
    recommends
        spec_hex_valid(s),
{
    Seq::new(s.len() / 2, |i: int| (spec_hex_value(s[2 * i]) * 16 + spec_hex_value(s[2 * i + 1])) as u8)
}

/// Hex decoding inverts hex encoding, and encoding always yields valid hex.
pub proof fn lemma_hex_round_trip(b: Seq<u8>)
    ensures
        spec_hex_encode(b).len() == 2 * b.len(),
        spec_hex_valid(spec_hex_encode(b)),
        spec_hex_decode(spec_hex_encode(b)) == b,
{
    let e = spec_hex_encode(b);
    assert forall|i: int| 0 <= i < e.len() implies spec_is_hex_digit(#[trigger] e[i]) by {
        if i % 2 == 0 {
            assert(e[i] == spec_hex_digit(b[i / 2] / 16));
        } else {
            assert(e[i] == spec_hex_digit(b[i / 2] % 16));
        }
    }
    assert forall|i: int| 0 <= i < b.len() implies spec_hex_decode(e)[i] == b[i] by {
        assert(e[2 * i] == spec_hex_digit(b[i] / 16));
        assert(e[2 * i + 1] == spec_hex_digit(b[i] % 16));
        assert(spec_hex_value(spec_hex_digit(b[i] / 16)) == b[i] / 16);
        assert(spec_hex_value(spec_hex_digit(b[i] % 16)) == b[i] % 16);
    }
    assert(spec_hex_decode(e) =~= b);
}

/// The lowercase hex digit of a nibble.
fn hex_digit(n: u8) -> (r: u8)
    requires
        n < 16,
    ensures
        r == spec_hex_digit(n),
{
    if n < 10 {
        48 + n
    } else {
        87 + n
    }
}

/// The nibble value of an ASCII byte, if it is a hex digit.
fn hex_value(c: u8) -> (r: Option<u8>)
    ensures
        match r {
            Some(v) => spec_is_hex_digit(c) && v == spec_hex_value(c),
            None => !spec_is_hex_digit(c),
        },
{
    if 48 <= c && c <= 57 {
        Some(c - 48)
    } else if 97 <= c && c <= 102 {
        Some(c - 87)
    } else if 65 <= c && c <= 70 {
        Some(c - 55)
    } else {
        None
    }
}

/// Encode `bytes` as lowercase hex, two digits per byte.
pub fn hex_encode(bytes: &[u8]) -> (r: Vec<u8>)
    ensures
        r@ == spec_hex_encode(bytes@),
{
    let mut out: Vec<u8> = Vec::new();
    let mut i: usize = 0;
    while i < bytes.len()
        invariant
            i <= bytes.len(),
            out@ == spec_hex_encode(bytes@.subrange(0, i as int)),
        decreases bytes.len() - i,
    {
        let b = bytes[i];
        out.push(hex_digit(b / 16));
        out.push(hex_digit(b % 16));
        i = i + 1;
        proof {
            assert(out@ =~= spec_hex_encode(bytes@.subrange(0, i as int)));
        }
    }
    proof {
        assert(bytes@.subrange(0, bytes@.len() as int) =~= bytes@);
    }
    out
}

/// Decode a hex digit sequence; absent exactly when `s` is not valid hex.
pub fn hex_decode(s: &[u8]) -> (r: Option<Vec<u8>>)
    ensures
        match r {
            Some(v) => spec_hex_valid(s@) && v@ == spec_hex_decode(s@),
            None => !spec_hex_valid(s@),
        },
{
    if s.len() % 2 != 0 {
        return None;
    }
    let mut out: Vec<u8> = Vec::new();
    let mut i: usize = 0;
    while i < s.len()
        invariant
            s@.len() % 2 == 0,
            i % 2 == 0,
            i <= s@.len(),
            forall|j: int| 0 <= j < i ==> spec_is_hex_digit(#[trigger] s@[j]),
            out@ == spec_hex_decode(s@.subrange(0, i as int)),
        decreases s.len() - i,
    {
        let hi = match hex_value(s[i]) {
            Some(v) => v,
            None => {
                return None;
            },
        };
        let lo = match hex_value(s[i + 1]) {
            Some(v) => v,
            None => {
                return None;
            },
        };
        out.push(hi * 16 + lo);
        i = i + 2;
        proof {
            assert(out@ =~= spec_hex_decode(s@.subrange(0, i as int)));
        }
    }
    proof {
        assert(s@.subrange(0, s@.len() as int) =~= s@);
    }
    Some(out)
}

// ---------------------------------------------------------------------------
// Lease names
// ---------------------------------------------------------------------------

/// The tree-entry name that carries `lease`: sixteen lowercase hex digits, the
/// little-endian bytes of the lease.
pub open spec fn spec_lease_name(lease: u64) -> Seq<u8> {
    spec_hex_encode(vstd::bytes::spec_u64_to_le_bytes(lease))
}

/// Whether `name` decodes as a lease: sixteen hex digits of either case.
pub open spec fn spec_valid_lease_name(name: Seq<u8>) -> bool {
    name.len() == 16 && spec_hex_valid(name)
}

/// The lease a valid entry name carries.
pub open spec fn spec_lease_of_name(name: Seq<u8>) -> u64
    recommends
        spec_valid_lease_name(name),
{
    vstd::bytes::spec_u64_from_le_bytes(spec_hex_decode(name))
}

/// Build the entry name for `lease`.
pub fn lease_name(lease: u64) -> (r: Vec<u8>)
    ensures
        r@ == spec_lease_name(lease),
        r@.len() == 16,
{
    let bytes = vstd::bytes::u64_to_le_bytes(lease);
    let r = hex_encode(bytes.as_slice());
    proof {
        assert(r@.len() == 16);
    }
    r
}

/// Read the lease out of an entry name; absent exactly when the name is not
/// sixteen hex digits.
pub fn parse_lease_name(name: &[u8]) -> (r: Option<u64>)
    ensures
        match r {
            Some(l) => spec_valid_lease_name(name@) && l == spec_lease_of_name(name@),
            None => !spec_valid_lease_name(name@),
        },
{
    if name.len() != 16 {
        return None;
    }
    match hex_decode(name) {
        None => None,
        Some(b) => {
            proof {
                assert(b@.len() == 8);
            }
            Some(vstd::bytes::u64_from_le_bytes(b.as_slice()))
        },
    }
}

/// Encoding a lease always yields a name that decodes back to the same lease.
pub proof fn lemma_lease_name_round_trip(lease: u64)
    ensures
        spec_valid_lease_name(spec_lease_name(lease)),
        spec_lease_of_name(spec_lease_name(lease)) == lease,
{
    vstd::bytes::lemma_auto_spec_u64_to_from_le_bytes();
    lemma_hex_round_trip(vstd::bytes::spec_u64_to_le_bytes(lease));
}

// ---------------------------------------------------------------------------
// Trees
// ---------------------------------------------------------------------------

/// One tree entry: a file name and the bytes of the blob it names.
pub struct TreeEntry {
    pub name: Vec<u8>,
    pub data: Vec<u8>,
}

/// Mathematical image of a tree entry.
#[verifier::ext_equal]
pub struct TreeEntryV {
    pub name: Seq<u8>,
    pub data: Seq<u8>,
}

impl View for TreeEntry {
    type V = TreeEntryV;

    open spec fn view(&self) -> TreeEntryV {
        TreeEntryV { name: self.name@, data: self.data@ }
    }
}

/// A ledger tree: the ordered entries of the tree a commit points to.
pub struct LedgerTree {
    pub entries: Vec<TreeEntry>,
}

impl View for LedgerTree {
    type V = Seq<TreeEntryV>;

    open spec fn view(&self) -> Seq<TreeEntryV> {
        Seq::new(self.entries@.len(), |i: int| self.entries@[i]@)
    }
}

/// Why a fetched tree failed to decode.
#[derive(Clone, Copy, Debug, PartialEq, Eq, Structural)]
pub enum CodecError {
    /// The tree has more than one entry.
    ExtraEntries,
    /// The single entry's name is not sixteen hex digits.
    BadEntryName,
}

// ---------------------------------------------------------------------------
// Encoding and decoding trees
// ---------------------------------------------------------------------------

/// The tree that carries `(data, lease)`: one blob entry named by the lease.
pub open spec fn spec_encode(data: Seq<u8>, lease: u64) -> Seq<TreeEntryV> {
    seq![TreeEntryV { name: spec_lease_name(lease), data: data }]
}

/// What decoding a present tree yields.
pub open spec fn spec_decode(t: Seq<TreeEntryV>) -> Result<(Seq<u8>, u64), CodecError>
    recommends
        t.len() >= 1,
{
    if t.len() > 1 {
        Err(CodecError::ExtraEntries)
    } else if !spec_valid_lease_name(t[0].name) {
        Err(CodecError::BadEntryName)
    } else {
        Ok((t[0].data, spec_lease_of_name(t[0].name)))
    }
}

/// What decoding a fetched ledger state yields: an absent branch reads as an
/// empty payload with no lease.
pub open spec fn spec_decode_state(t: Option<Seq<TreeEntryV>>) -> Result<(Seq<u8>, u64), CodecError> {
    match t {
        None => Ok((Seq::empty(), 0)),
        Some(tv) => spec_decode(tv),
    }
}

/// Build the single-entry tree carrying `(data, lease)`.
pub fn encode(data: &[u8], lease: u64) -> (r: LedgerTree)
    ensures
        r@ == spec_encode(data@, lease),
{
    let name = lease_name(lease);
    let payload = vstd::slice::slice_to_vec(data);
    let mut entries: Vec<TreeEntry> = Vec::new();
    entries.push(TreeEntry { name, data: payload });
    let r = LedgerTree { entries };
    proof {
        assert(r@ =~= spec_encode(data@, lease));
    }
    r
}

/// Decode a present tree into its payload and lease.
///
/// An empty tree never arises from this protocol (every encoded tree has one
/// entry), and is left out here.
pub fn decode(tree: &LedgerTree) -> (r: Result<(Vec<u8>, u64), CodecError>)
    requires
        tree@.len() >= 1,
    ensures
        match r {
            Ok(p) => spec_decode(tree@) == Ok::<(Seq<u8>, u64), CodecError>((p.0@, p.1)),
            Err(e) => spec_decode(tree@) == Err::<(Seq<u8>, u64), CodecError>(e),
        },
{
    if tree.entries.len() > 1 {
        return Err(CodecError::ExtraEntries);
    }
    let entry = &tree.entries[0];
    match parse_lease_name(entry.name.as_slice()) {
        None => Err(CodecError::BadEntryName),
        Some(lease) => Ok((vstd::slice::slice_to_vec(entry.data.as_slice()), lease)),
    }
}

/// Decode a fetched ledger state; an absent branch reads as `(empty, 0)`.
pub fn decode_state(tree: &Option<LedgerTree>) -> (r: Result<(Vec<u8>, u64), CodecError>)
    requires
        tree matches Some(t) ==> t@.len() >= 1,
    ensures
        match r {
            Ok(p) => spec_decode_state(view_opt_tree(*tree)) == Ok::<(Seq<u8>, u64), CodecError>(
                (p.0@, p.1),
            ),
            Err(e) => spec_decode_state(view_opt_tree(*tree)) == Err::<(Seq<u8>, u64), CodecError>(
                e,
            ),
        },
        tree is None ==> (r matches Ok(p) && p.0@ == Seq::<u8>::empty() && p.1 == 0),
{
    match tree {
        None => Ok((Vec::new(), 0)),
        Some(t) => decode(t),
    }
}

/// The view of an optional tree.
pub open spec fn view_opt_tree(t: Option<LedgerTree>) -> Option<Seq<TreeEntryV>> {
    match t {
        None => None,
        Some(tr) => Some(tr@),
    }
}

/// Round trip: decoding an encoded `(payload, lease)` tree yields the payload
/// and the lease back, for every payload and every lease.
pub proof fn lemma_codec_round_trip(data: Seq<u8>, lease: u64)
    ensures
        spec_decode(spec_encode(data, lease)) == Ok::<(Seq<u8>, u64), CodecError>((data, lease)),
{
    lemma_lease_name_round_trip(lease);
}

} // verus!
