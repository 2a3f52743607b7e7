//! Arithmetic on network addresses, part by part and without carry.

use crate::utils::error_handling::Error;
use vstd::prelude::*;

verus! {

/// The sum of two octets, wrapped into an octet.
pub open spec fn wrapped_sum(a: u8, b: u8) -> u8 {
    ((a + b) % 256) as u8
}

/// The difference `a - b` of two octets, wrapped into an octet.
pub open spec fn wrapped_difference(a: u8, b: u8) -> u8 {
    ((a - b) % 256) as u8
}

/// The sums of the octets of `a` and `b`, place by place.
pub open spec fn octet_sums(a: Seq<u8>, b: Seq<u8>) -> Seq<u8> {
    Seq::new(a.len(), |i: int| wrapped_sum(a[i], b[i]))
}

/// The differences `a[i] - b[i]` of the octets of `a` and `b`, place by place.
pub open spec fn octet_differences(a: Seq<u8>, b: Seq<u8>) -> Seq<u8> {
    Seq::new(a.len(), |i: int| wrapped_difference(a[i], b[i]))
}

/// The exclusive or of the segments of `a` and `b`, place by place.
pub open spec fn segment_xors(a: Seq<u16>, b: Seq<u16>) -> Seq<u16> {
    Seq::new(a.len(), |i: int| a[i] ^ b[i])
}

/// An IPv4 address: four octets, the first one first.
#[derive(Debug, Clone, Copy, PartialEq, Eq)]
pub struct IPv4Addr {
    octets: [u8; 4],
}

impl View for IPv4Addr {
    type V = Seq<u8>;

    closed spec fn view(&self) -> Seq<u8> {
        self.octets@
    }
}

impl IPv4Addr {
    /// Every address has four octets.
    pub proof fn lemma_four_octets(&self)
        ensures
            self@.len() == 4,
    {
    }

    /// The address with the given octets.
    pub fn new(octets: [u8; 4]) -> (addr: Self)
        ensures
            addr@ == octets@,
    {
        IPv4Addr { octets }
    }

    /// The octets of the address.
    pub fn octets(&self) -> (octets: [u8; 4])
        ensures
            octets@ == self@,
    {
        self.octets
    }

    /// Adds `other` to the address, octet by octet, each sum wrapped into
    /// its octet. This never fails.
    pub fn wrapping_add(&self, other: &Self) -> (result: Result<Self, Error>)
        ensures
            result is Ok,
            result->Ok_0@ == octet_sums(self@, other@),
    {
        let mut octets = [0u8; 4];
        let mut i: usize = 0;
        while i < 4
            invariant
                i <= 4,
                forall|j: int|
                    0 <= j < i ==> #[trigger] octets@[j] == wrapped_sum(self@[j], other@[j]),
            decreases 4 - i,
        {
            octets[i] = self.octets[i].wrapping_add(other.octets[i]);
            i += 1;
        }
        assert(octets@ =~= octet_sums(self@, other@));
        Ok(IPv4Addr { octets })
    }

    /// Subtracts the address from `other`, octet by octet, each difference
    /// wrapped into its octet. This never fails.
    pub fn wrapping_sub(&self, other: &Self) -> (result: Result<Self, Error>)
        ensures
            result is Ok,
            result->Ok_0@ == octet_differences(other@, self@),
    {
        let mut octets = [0u8; 4];
        let mut i: usize = 0;
        while i < 4
            invariant
                i <= 4,
                forall|j: int|
                    0 <= j < i ==> #[trigger] octets@[j] == wrapped_difference(other@[j], self@[j]),
            decreases 4 - i,
        {
            octets[i] = other.octets[i].wrapping_sub(self.octets[i]);
            i += 1;
        }
        assert(octets@ =~= octet_differences(other@, self@));
        Ok(IPv4Addr { octets })
    }
}

/// An IPv6 address: eight segments of sixteen bits, the first one first.
#[derive(Debug, Clone, Copy, PartialEq, Eq)]
pub struct IPv6Addr {
    octets: [u16; 8],
}

impl View for IPv6Addr {
    type V = Seq<u16>;

    closed spec fn view(&self) -> Seq<u16> {
        self.octets@
    }
}

impl IPv6Addr {
    /// Every address has eight segments.
    pub proof fn lemma_eight_segments(&self)
        ensures
            self@.len() == 8,
    {
    }

    /// The address with the given segments.
    pub fn new(segments: [u16; 8]) -> (addr: Self)
        ensures
            addr@ == segments@,
    {
        IPv6Addr { octets: segments }
    }

    /// The segments of the address.
    pub fn segments(&self) -> (segments: [u16; 8])
        ensures
            segments@ == self@,
    {
        self.octets
    }

    /// The exclusive or of the address and `other`, segment by segment.
    pub fn xor(&self, other: &Self) -> (result: Self)
        ensures
            result@ == segment_xors(self@, other@),
    {
        let mut octets = [0u16; 8];
        let mut i: usize = 0;
        while i < 8
            invariant
                i <= 8,
                forall|j: int| 0 <= j < i ==> #[trigger] octets@[j] == self@[j] ^ other@[j],
            decreases 8 - i,
        {
            octets[i] = self.octets[i] ^ other.octets[i];
            i += 1;
        }
        assert(octets@ =~= segment_xors(self@, other@));
        IPv6Addr { octets }
    }
}

/// Subtracting an address from the sum of that address and a key gives the
/// key back: what `wrapping_add` hides, `wrapping_sub` finds.
pub proof fn lemma_sub_undoes_add(from: Seq<u8>, key: Seq<u8>)
    requires
        from.len() == key.len(),
    ensures
        octet_differences(octet_sums(from, key), from) == key,
{
    assert(octet_differences(octet_sums(from, key), from) =~= key);
}

/// Adding to an address the difference between another address and it
/// gives the other address.
pub proof fn lemma_add_undoes_sub(from: Seq<u8>, to: Seq<u8>)
    requires
        from.len() == to.len(),
    ensures
        octet_sums(from, octet_differences(to, from)) == to,
{
    assert(octet_sums(from, octet_differences(to, from)) =~= to);
}

/// Exclusive or with the same address twice gives the other address back.
pub proof fn lemma_xor_twice(from: Seq<u16>, key: Seq<u16>)
    requires
        from.len() == key.len(),
    ensures
        segment_xors(segment_xors(from, key), key) == from,
        segment_xors(from, segment_xors(from, key)) == key,
{
    assert forall|i: int| 0 <= i < from.len() implies (from[i] ^ key[i]) ^ key[i] == from[i]
        && from[i] ^ (from[i] ^ key[i]) == key[i] by {
        let a = from[i];
        let b = key[i];
        assert((a ^ b) ^ b == a && a ^ (a ^ b) == b) by (bit_vector);
    }
    assert(segment_xors(segment_xors(from, key), key) =~= from);
    assert(segment_xors(from, segment_xors(from, key)) =~= key);
}

} // verus!
