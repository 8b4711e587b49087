use vstd::prelude::*;

verus! {

/// Width in bytes of an account address.
pub const KEY_LEN: usize = 32;

/// A 32-byte account address.
#[derive(Clone, Copy, Debug, Eq)]
pub struct Pubkey(pub [u8; 32]);

impl PartialEq for Pubkey {
    fn eq(&self, o: &Pubkey) -> (r: bool)
        ensures
            r == (self@ == o@),
    {
        let mut i: usize = 0;
        while i < KEY_LEN
            invariant
                i <= KEY_LEN,
                self@.len() == KEY_LEN,
                o@.len() == KEY_LEN,
                forall|j: int| 0 <= j < i ==> self@[j] == o@[j],
            decreases KEY_LEN - i,
        {
            if self.0[i] != o.0[i] {
                return false;
            }
            i += 1;
        }
        assert(self@ =~= o@);
        true
    }
}

impl vstd::std_specs::cmp::PartialEqSpecImpl for Pubkey {
    open spec fn obeys_eq_spec() -> bool {
        true
    }

    open spec fn eq_spec(&self, o: &Pubkey) -> bool {
        self@ == o@
    }
}

impl View for Pubkey {
    type V = Seq<u8>;

    open spec fn view(&self) -> Seq<u8> {
        self.0@
    }
}

impl Pubkey {
    pub fn new_from_array(bytes: [u8; 32]) -> (r: Pubkey)
        ensures
            r.0 == bytes,
    {
        Pubkey(bytes)
    }

    pub fn to_bytes(&self) -> (r: [u8; 32])
        ensures
            r == self.0,
    {
        self.0
    }
}

/// The unsigned 64-bit value of the eight bytes of `b` starting at `at`,
/// least significant byte first.
pub open spec fn le_u64_at(b: Seq<u8>, at: int) -> u64 {
    (b[at] as u64) | ((b[at + 1] as u64) << 8u64) | ((b[at + 2] as u64) << 16u64) | ((b[at
        + 3] as u64) << 24u64) | ((b[at + 4] as u64) << 32u64) | ((b[at + 5] as u64) << 40u64)
        | ((b[at + 6] as u64) << 48u64) | ((b[at + 7] as u64) << 56u64)
}

/// The eight bytes of `v`, least significant first.
pub open spec fn le_bytes(v: u64) -> Seq<u8> {
    seq![
        v as u8,
        (v >> 8u64) as u8,
        (v >> 16u64) as u8,
        (v >> 24u64) as u8,
        (v >> 32u64) as u8,
        (v >> 40u64) as u8,
        (v >> 48u64) as u8,
        (v >> 56u64) as u8,
    ]
}

/// Reading back the bytes of a value gives the value.
pub proof fn lemma_le_round_trip(v: u64)
    ensures
        le_bytes(v).len() == 8,
        le_u64_at(le_bytes(v), 0) == v,
{
    let s = le_bytes(v);
    assert(s[0] == v as u8 && s[1] == (v >> 8u64) as u8 && s[2] == (v >> 16u64) as u8 && s[3]
        == (v >> 24u64) as u8 && s[4] == (v >> 32u64) as u8 && s[5] == (v >> 40u64) as u8 && s[6]
        == (v >> 48u64) as u8 && s[7] == (v >> 56u64) as u8);
    assert(((v as u8) as u64) | ((((v >> 8u64) as u8) as u64) << 8u64) | ((((v >> 16u64) as u8)
        as u64) << 16u64) | ((((v >> 24u64) as u8) as u64) << 24u64) | ((((v >> 32u64) as u8)
        as u64) << 32u64) | ((((v >> 40u64) as u8) as u64) << 40u64) | ((((v >> 48u64) as u8)
        as u64) << 48u64) | ((((v >> 56u64) as u8) as u64) << 56u64) == v) by (bit_vector);
}

/// Reads the little-endian u64 stored at `at`.
pub fn read_u64_le(b: &[u8], at: usize) -> (r: u64)
    requires
        at + 8 <= b@.len(),
    ensures
        r == le_u64_at(b@, at as int),
{
    (b[at] as u64) | ((b[at + 1] as u64) << 8u64) | ((b[at + 2] as u64) << 16u64) | ((b[at
        + 3] as u64) << 24u64) | ((b[at + 4] as u64) << 32u64) | ((b[at + 5] as u64) << 40u64)
        | ((b[at + 6] as u64) << 48u64) | ((b[at + 7] as u64) << 56u64)
}

/// Appends the eight little-endian bytes of `v`.
pub fn push_u64_le(buf: &mut Vec<u8>, v: u64)
    ensures
        final(buf)@ == old(buf)@ + le_bytes(v),
{
    buf.push(v as u8);
    buf.push((v >> 8u64) as u8);
    buf.push((v >> 16u64) as u8);
    buf.push((v >> 24u64) as u8);
    buf.push((v >> 32u64) as u8);
    buf.push((v >> 40u64) as u8);
    buf.push((v >> 48u64) as u8);
    buf.push((v >> 56u64) as u8);
    assert(final(buf)@ =~= old(buf)@ + le_bytes(v));
}

/// Writes the eight little-endian bytes of `v` at `at`.
pub fn write_u64_le(dst: &mut [u8], at: usize, v: u64)
    requires
        at + 8 <= old(dst)@.len(),
    ensures
        final(dst)@ == old(dst)@.subrange(0, at as int) + le_bytes(v) + old(dst)@.subrange(
            at + 8,
            old(dst)@.len() as int,
        ),
{
    dst[at] = v as u8;
    dst[at + 1] = (v >> 8u64) as u8;
    dst[at + 2] = (v >> 16u64) as u8;
    dst[at + 3] = (v >> 24u64) as u8;
    dst[at + 4] = (v >> 32u64) as u8;
    dst[at + 5] = (v >> 40u64) as u8;
    dst[at + 6] = (v >> 48u64) as u8;
    dst[at + 7] = (v >> 56u64) as u8;
    assert(dst@ =~= old(dst)@.subrange(0, at as int) + le_bytes(v) + old(dst)@.subrange(
        at + 8,
        old(dst)@.len() as int,
    ));
}

/// Reads the address stored in the 32 bytes at `at`.
pub fn read_key(b: &[u8], at: usize) -> (r: Pubkey)
    requires
        at + KEY_LEN <= b@.len(),
    ensures
        r@ == b@.subrange(at as int, at + KEY_LEN),
{
    let mut a = [0u8; 32];
    let mut i: usize = 0;
    assert(b@.len() == b.len());
    while i < KEY_LEN
        invariant
            i <= KEY_LEN,
            at + KEY_LEN <= b@.len(),
            b@.len() <= usize::MAX,
            a@.len() == KEY_LEN,
            forall|j: int| 0 <= j < i ==> a@[j] == b@[at + j],
        decreases KEY_LEN - i,
    {
        a[i] = b[at + i];
        i += 1;
    }
    assert(a@ =~= b@.subrange(at as int, at + KEY_LEN));
    Pubkey(a)
}

/// Writes the 32 bytes of `key` at `at`.
pub fn write_key(dst: &mut [u8], at: usize, key: &Pubkey)
    requires
        at + KEY_LEN <= old(dst)@.len(),
    ensures
        final(dst)@ == old(dst)@.subrange(0, at as int) + key@ + old(dst)@.subrange(
            at + KEY_LEN,
            old(dst)@.len() as int,
        ),
{
    let mut i: usize = 0;
    assert(dst@.len() == dst.len());
    while i < KEY_LEN
        invariant
            i <= KEY_LEN,
            at + KEY_LEN <= old(dst)@.len(),
            dst@.len() <= usize::MAX,
            dst@.len() == old(dst)@.len(),
            key@.len() == KEY_LEN,
            forall|j: int|
                0 <= j < dst@.len() ==> #[trigger] dst@[j] == if at <= j < at + i {
                    key@[j - at]
                } else {
                    old(dst)@[j]
                },
        decreases KEY_LEN - i,
    {
        dst[at + i] = key.0[i];
        i += 1;
    }
    assert(dst@ =~= old(dst)@.subrange(0, at as int) + key@ + old(dst)@.subrange(
        at + KEY_LEN,
        old(dst)@.len() as int,
    ));
}

} // verus!
