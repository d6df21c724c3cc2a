//! 256-bit identifiers on a circular space.

use bigint::U256;
use ring::digest;
use vstd::arithmetic::div_mod::{lemma_mod_add_multiples_vanish, lemma_small_mod};
use vstd::arithmetic::power2::{lemma2_to64, lemma_pow2_adds, pow2};
use vstd::prelude::*;

verus! {

/// The number a byte string denotes when read as a big-endian integer.
pub open spec fn be_value(s: Seq<u8>) -> nat
    decreases s.len(),
{
    if s.len() == 0 {
        0
    } else {
        be_value(s.drop_last()) * 256 + s.last() as nat
    }
}

/// The number that four 64-bit limbs denote, least significant limb first.
pub open spec fn limbs_value(l: [u64; 4]) -> nat {
    l[0] as nat + 0x1_0000_0000_0000_0000 * (l[1] as nat + 0x1_0000_0000_0000_0000 * (l[2] as nat
        + 0x1_0000_0000_0000_0000 * (l[3] as nat)))
}

/// The number of positions on the ring.
pub open spec fn ring_size() -> nat {
    pow2(256)
}

/// The number of clockwise steps from `from` to `to`.
pub open spec fn ring_distance(from: nat, to: nat) -> int {
    (to - from) % (ring_size() as int)
}

/// Whether `x` lies on the clockwise arc that starts just after `first` and
/// ends at `second`.
pub open spec fn on_arc(x: nat, first: nat, second: nat) -> bool {
    ring_distance(x, second) < ring_distance(first, second)
}

/// The SHA-256 digest of a byte string.
pub uninterp spec fn sha256_digest(bytes: Seq<u8>) -> Seq<u8>;

/// The ring position that a byte string hashes to.
pub open spec fn digest_position(bytes: Seq<u8>) -> nat {
    be_value(sha256_digest(bytes))
}

/// `bigint::U256::from_big_endian`: the limbs of the integer that `bytes`
/// denotes in big-endian order. The outside function panics on more than 32
/// bytes and pads shorter input with leading zeros.
#[verifier::external_body]
fn u256_from_big_endian(bytes: &[u8]) -> (r: [u64; 4])
    requires
        bytes@.len() <= 32,
    ensures
        limbs_value(r) == be_value(bytes@),
{
    U256::from_big_endian(bytes).0
}

/// `bigint::U256::to_big_endian`: the 32 bytes that denote the integer in
/// big-endian order.
#[verifier::external_body]
fn u256_to_big_endian(limbs: [u64; 4]) -> (r: [u8; 32])
    ensures
        be_value(r@) == limbs_value(limbs),
{
    let mut bytes = [0u8; 32];
    U256(limbs).to_big_endian(&mut bytes);
    bytes
}

/// `bigint::U256::overflowing_sub`: the difference modulo 2^256, and whether
/// the subtraction wrapped.
#[verifier::external_body]
fn u256_overflowing_sub(a: [u64; 4], b: [u64; 4]) -> (r: ([u64; 4], bool))
    ensures
        limbs_value(r.0) == (limbs_value(a) - limbs_value(b)) % (ring_size() as int),
        r.1 == (limbs_value(a) < limbs_value(b)),
{
    let (diff, wrapped) = U256(a).overflowing_sub(U256(b));
    (diff.0, wrapped)
}

/// The `<` of `bigint::U256`: the order of the integers.
#[verifier::external_body]
fn u256_less_than(a: [u64; 4], b: [u64; 4]) -> (r: bool)
    ensures
        r == (limbs_value(a) < limbs_value(b)),
{
    U256(a) < U256(b)
}

/// `ring::digest::digest` with `ring::digest::SHA256`: the digest of `bytes`,
/// which is 32 bytes long.
#[verifier::external_body]
fn sha256(bytes: &[u8]) -> (r: Vec<u8>)
    ensures
        r@ == sha256_digest(bytes@),
        r@.len() == 32,
{
    digest::digest(&digest::SHA256, bytes).as_ref().to_vec()
}

/// A position on the ring: an unsigned 256-bit integer.
#[derive(Clone, Copy, Debug, PartialEq, Eq)]
pub struct Identifier {
    limbs: [u64; 4],
}

impl View for Identifier {
    type V = nat;

    closed spec fn view(&self) -> nat {
        limbs_value(self.limbs)
    }
}

impl Identifier {
    /// Reads `identifier` as a big-endian integer.
    pub fn new(identifier: &[u8]) -> (r: Self)
        requires
            identifier@.len() <= 32,
        ensures
            r@ == be_value(identifier@),
    {
        Identifier { limbs: u256_from_big_endian(identifier) }
    }

    /// The position that `bytes` hashes to: the 32 bytes of their digest,
    /// read as a big-endian integer.
    pub fn generate(bytes: &[u8]) -> (r: Self)
        ensures
            r@ == digest_position(bytes@),
            sha256_digest(bytes@).len() == 32,
    {
        let dig = sha256(bytes);
        Self::new(dig.as_slice())
    }

    /// Whether this position lies on the clockwise arc from just after
    /// `first` up to `second`.
    pub fn is_between(&self, first: &Identifier, second: &Identifier) -> (r: bool)
        ensures
            r == on_arc(self@, first@, second@),
    {
        let (diff1, _) = u256_overflowing_sub(second.limbs, self.limbs);
        let (diff2, _) = u256_overflowing_sub(second.limbs, first.limbs);
        u256_less_than(diff1, diff2)
    }

    /// The canonical big-endian serialisation.
    pub fn as_bytes(&self) -> (r: [u8; 32])
        ensures
            be_value(r@) == self@,
    {
        u256_to_big_endian(self.limbs)
    }
}

/// Whether `x` lies in the half-open interval from `first`, excluded, to
/// `second`, included, where the interval runs through zero if `second` is
/// the smaller of the two.
pub open spec fn in_interval(x: nat, first: nat, second: nat) -> bool {
    if first < second {
        first < x <= second
    } else if second < first {
        first < x || x <= second
    } else {
        false
    }
}

/// The clockwise distance between two positions is their difference, taken
/// once around the ring where it would be negative.
pub proof fn lemma_ring_distance(from: nat, to: nat)
    requires
        from < ring_size(),
        to < ring_size(),
    ensures
        ring_distance(from, to) == (if from <= to {
            to - from
        } else {
            to - from + ring_size()
        }),
{
    let m = ring_size() as int;
    if from <= to {
        lemma_small_mod((to - from) as nat, ring_size());
    } else {
        lemma_mod_add_multiples_vanish(to - from, m);
        lemma_small_mod((to - from + m) as nat, ring_size());
    }
}

/// The test by distances is the test by order: a position is on the arc from
/// `first` to `second` exactly where it is in the interval between them.
pub proof fn lemma_arc_is_interval(x: nat, first: nat, second: nat)
    requires
        x < ring_size(),
        first < ring_size(),
        second < ring_size(),
    ensures
        on_arc(x, first, second) == in_interval(x, first, second),
{
    lemma_ring_distance(x, second);
    lemma_ring_distance(first, second);
}

/// No arc holds its own start, and every arc between two different positions
/// holds its end.
pub proof fn lemma_arc_ends(first: nat, second: nat)
    requires
        first < ring_size(),
        second < ring_size(),
    ensures
        !on_arc(first, first, second),
        first != second ==> on_arc(second, first, second),
{
    lemma_arc_is_interval(first, first, second);
    lemma_arc_is_interval(second, first, second);
}

/// Four limbs denote a number below the size of the ring.
pub proof fn lemma_limbs_value_bound(l: [u64; 4])
    ensures
        limbs_value(l) < ring_size(),
{
    lemma2_to64();
    lemma_pow2_adds(64, 64);
    lemma_pow2_adds(128, 64);
    lemma_pow2_adds(192, 64);
    let b = pow2(64) as int;
    let b2 = pow2(128) as int;
    let b3 = pow2(192) as int;
    let b4 = pow2(256) as int;
    let t3 = l[3] as int;
    let t2 = l[2] as int + b * t3;
    let t1 = l[1] as int + b * t2;
    assert(b * t3 <= b2 - b) by (nonlinear_arith)
        requires
            0 <= t3 <= b - 1,
            b2 == b * b,
            b > 0,
    ;
    assert(b * t2 <= b3 - b) by (nonlinear_arith)
        requires
            0 <= t2 <= b2 - 1,
            b3 == b2 * b,
            b > 0,
    ;
    assert(b * t1 <= b4 - b) by (nonlinear_arith)
        requires
            0 <= t1 <= b3 - 1,
            b4 == b3 * b,
            b > 0,
    ;
}

/// Different limbs denote different numbers.
pub proof fn lemma_limbs_value_injective(a: [u64; 4], b: [u64; 4])
    requires
        limbs_value(a) == limbs_value(b),
    ensures
        a == b,
{
    assert(a[0] == b[0]);
    assert(a[1] == b[1]);
    assert(a[2] == b[2]);
    assert(a[3] == b[3]);
    assert(a =~= b);
}

/// Every identifier is a position on the ring.
pub proof fn lemma_position_in_range(id: Identifier)
    ensures
        id@ < ring_size(),
{
    lemma_limbs_value_bound(id.limbs);
}

/// Two identifiers are the same exactly where they are the same position.
pub proof fn lemma_same_position_same_identifier(a: Identifier, b: Identifier)
    ensures
        (a@ == b@) == (a == b),
{
    if a@ == b@ {
        lemma_limbs_value_injective(a.limbs, b.limbs);
    }
}

/// Hashing the same bytes twice gives the same identifier: where `a` and `b`
/// are what `Identifier::generate` gave for `x` and for `y`, and `x` is `y`,
/// `a` is `b`.
pub proof fn lemma_generate_deterministic(x: Seq<u8>, y: Seq<u8>, a: Identifier, b: Identifier)
    ensures
        x == y && a@ == digest_position(x) && b@ == digest_position(y) ==> a == b,
{
    lemma_same_position_same_identifier(a, b);
}

/// Two byte strings of one length that denote the same number are the same
/// string.
pub proof fn lemma_be_value_injective(a: Seq<u8>, b: Seq<u8>)
    requires
        a.len() == b.len(),
        be_value(a) == be_value(b),
    ensures
        a == b,
    decreases a.len(),
{
    if a.len() == 0 {
        assert(a =~= b);
    } else {
        let x = be_value(a.drop_last());
        let y = be_value(b.drop_last());
        assert(x * 256 + a.last() as nat == y * 256 + b.last() as nat);
        assert(x == y && a.last() == b.last());
        lemma_be_value_injective(a.drop_last(), b.drop_last());
        assert(a =~= a.drop_last().push(a.last()));
        assert(b =~= b.drop_last().push(b.last()));
    }
}

/// The bytes of an identifier that was made from 32 bytes are those bytes:
/// where `made` is what `Identifier::new` gave for `bytes` and `out` is what
/// `as_bytes` gave for `made`, `out` is `bytes`.
pub proof fn lemma_as_bytes_inverts_new(bytes: Seq<u8>, made: Identifier, out: [u8; 32])
    requires
        bytes.len() == 32,
        made@ == be_value(bytes),
        be_value(out@) == made@,
    ensures
        out@ == bytes,
{
    lemma_be_value_injective(out@, bytes);
}

/// The bytes of a generated identifier are the digest: where `made` is what
/// `Identifier::generate` gave for `x` and `out` is what `as_bytes` gave for
/// `made`, `out` is the digest of `x`.
pub proof fn lemma_generated_bytes_are_digest(x: Seq<u8>, made: Identifier, out: [u8; 32])
    ensures
        sha256_digest(x).len() == 32 && made@ == digest_position(x) && be_value(out@) == made@
            ==> out@ == sha256_digest(x),
{
    if sha256_digest(x).len() == 32 && made@ == digest_position(x) && be_value(out@) == made@ {
        lemma_be_value_injective(out@, sha256_digest(x));
    }
}

/// A value that has a position on the ring.
pub trait Identify {
    /// The bytes that are hashed to find the position.
    spec fn identity_bytes(&self) -> Seq<u8>;

    /// The position of this value.
    fn get_identifier(&self) -> (r: Identifier)
        ensures
            r@ == digest_position(self.identity_bytes()),
    ;
}

/// An IPv4 address and a port.
#[derive(Clone, Copy, Debug, PartialEq, Eq)]
pub struct SocketAddressV4 {
    pub ip: [u8; 4],
    pub port: u16,
}

/// An IPv6 address and a port.
#[derive(Clone, Copy, Debug, PartialEq, Eq)]
pub struct SocketAddressV6 {
    pub ip: [u8; 16],
    pub port: u16,
}

/// An address of either family.
#[derive(Clone, Copy, Debug, PartialEq, Eq)]
pub enum SocketAddress {
    V4(SocketAddressV4),
    V6(SocketAddressV6),
}

impl Identify for SocketAddressV4 {
    /// The four bytes of the IP; the port does not count.
    open spec fn identity_bytes(&self) -> Seq<u8> {
        self.ip@
    }

    fn get_identifier(&self) -> (r: Identifier) {
        Identifier::generate(self.ip.as_slice())
    }
}

impl Identify for SocketAddressV6 {
    /// The sixteen bytes of the IP; the port does not count.
    open spec fn identity_bytes(&self) -> Seq<u8> {
        self.ip@
    }

    fn get_identifier(&self) -> (r: Identifier) {
        Identifier::generate(self.ip.as_slice())
    }
}

impl Identify for SocketAddress {
    open spec fn identity_bytes(&self) -> Seq<u8> {
        match self {
            SocketAddress::V4(v4) => v4.identity_bytes(),
            SocketAddress::V6(v6) => v6.identity_bytes(),
        }
    }

    fn get_identifier(&self) -> (r: Identifier) {
        match self {
            SocketAddress::V4(v4) => v4.get_identifier(),
            SocketAddress::V6(v6) => v6.get_identifier(),
        }
    }
}

/// A raw key is hashed like any other value, although it is a digest already.
impl Identify for [u8; 32] {
    open spec fn identity_bytes(&self) -> Seq<u8> {
        self@
    }

    fn get_identifier(&self) -> (r: Identifier) {
        Identifier::generate(self.as_slice())
    }
}

/// A value together with its position on the ring, computed once.
pub struct IdentifierValue<T: Identify> {
    value: T,
    identifier: Identifier,
}

impl<T: Identify> IdentifierValue<T> {
    #[verifier::type_invariant]
    spec fn bound(&self) -> bool {
        self.identifier@ == digest_position(self.value.identity_bytes())
    }

    /// The value that was bound.
    pub closed spec fn value(&self) -> T {
        self.value
    }

    /// The identifier that was computed for the value.
    pub closed spec fn identifier(&self) -> Identifier {
        self.identifier
    }

    /// Binds `value` to its position.
    pub fn new(value: T) -> (r: Self)
        ensures
            r.value() == value,
            r.identifier()@ == digest_position(value.identity_bytes()),
    {
        let identifier = value.get_identifier();
        Self { value, identifier }
    }

    /// The value that is held.
    pub fn get_value(&self) -> (r: &T)
        ensures
            *r == self.value(),
    {
        &self.value
    }

    /// The position of the value that is held.
    pub fn get_identifier(&self) -> (r: &Identifier)
        ensures
            *r == self.identifier(),
            r@ == digest_position(self.value().identity_bytes()),
    {
        proof {
            use_type_invariant(self);
        }
        &self.identifier
    }
}

/// The predecessor of a node after a peer has proposed itself: the candidate
/// where it lies between the present predecessor and the node, else the
/// present predecessor.
pub fn settle_predecessor(current: Identifier, own: &Identifier, candidate: Identifier) -> (r:
    Identifier)
    ensures
        r == (if on_arc(candidate@, current@, own@) {
            candidate
        } else {
            current
        }),
{
    if candidate.is_between(&current, own) {
        candidate
    } else {
        current
    }
}

} // verus!
