use vstd::prelude::*;

verus! {

/// A single coarse capability slot.
///
/// The value returned by `index` is the bit index of the slot in `Capabilities`.
#[derive(Clone, Copy, Debug, PartialEq, Eq, Structural, Hash)]
pub enum Capability {
    FsRead,
    FsWrite,
    FsList,
    FsMetadata,
    ProcessSpawn,
    ProcessSignal,
    ProcessIo,
    SecretList,
    SecretRead,
    SecretMutate,
    NetworkFetch,
    NetworkBind,
    ScheduleList,
    ScheduleRead,
    /// For schedule metadata mutation, probably coupled with `JobSpawn`.
    ScheduleMutate,
    AgentSpawn,
    JobSpawn,
    TimeRead,
}

impl Capability {
    /// The bit index of this slot.
    pub open spec fn spec_index(self) -> u8 {
        match self {
            Capability::FsRead => 0,
            Capability::FsWrite => 1,
            Capability::FsList => 2,
            Capability::FsMetadata => 3,
            Capability::ProcessSpawn => 8,
            Capability::ProcessSignal => 9,
            Capability::ProcessIo => 10,
            Capability::SecretList => 16,
            Capability::SecretRead => 17,
            Capability::SecretMutate => 18,
            Capability::NetworkFetch => 24,
            Capability::NetworkBind => 25,
            Capability::ScheduleList => 32,
            Capability::ScheduleRead => 33,
            Capability::ScheduleMutate => 34,
            Capability::AgentSpawn => 40,
            Capability::JobSpawn => 48,
            Capability::TimeRead => 56,
        }
    }

    /// The single bit that stands for this slot.
    pub open spec fn spec_bit(self) -> u64 {
        1u64 << self.spec_index()
    }

    pub fn index(self) -> (r: u8)
        ensures
            r == self.spec_index(),
            r < 64,
    {
        match self {
            Capability::FsRead => 0,
            Capability::FsWrite => 1,
            Capability::FsList => 2,
            Capability::FsMetadata => 3,
            Capability::ProcessSpawn => 8,
            Capability::ProcessSignal => 9,
            Capability::ProcessIo => 10,
            Capability::SecretList => 16,
            Capability::SecretRead => 17,
            Capability::SecretMutate => 18,
            Capability::NetworkFetch => 24,
            Capability::NetworkBind => 25,
            Capability::ScheduleList => 32,
            Capability::ScheduleRead => 33,
            Capability::ScheduleMutate => 34,
            Capability::AgentSpawn => 40,
            Capability::JobSpawn => 48,
            Capability::TimeRead => 56,
        }
    }

    pub fn bit(self) -> (r: u64)
        ensures
            r == self.spec_bit(),
    {
        let i = self.index();
        1u64 << i
    }
}

/// Distinct capability slots have distinct bit indices.
pub proof fn lemma_index_injective(a: Capability, b: Capability)
    ensures
        a.spec_index() == b.spec_index() <==> a == b,
{
}

/// A single bit `1 << i` is contained in `1 << j` exactly when `i == j`.
pub proof fn lemma_single_bits(i: u64, j: u64)
    requires
        i < 64,
        j < 64,
    ensures
        ((1u64 << j) & (1u64 << i)) == (1u64 << i) <==> i == j,
        (1u64 << i) != 0,
{
    assert(((1u64 << j) & (1u64 << i)) == (1u64 << i) <==> i == j) by (bit_vector)
        requires
            i < 64,
            j < 64,
    ;
    assert((1u64 << i) != 0) by (bit_vector)
        requires
            i < 64,
    ;
}

/// A single bit is in the union of two sets exactly when it is in one of them.
pub proof fn lemma_or_single_bit(a: u64, b: u64, i: u64)
    requires
        i < 64,
    ensures
        ((a | b) & (1u64 << i)) == (1u64 << i) <==> ((a & (1u64 << i)) == (1u64 << i) || (b & (
        1u64 << i)) == (1u64 << i)),
{
    assert(((a | b) & (1u64 << i)) == (1u64 << i) <==> ((a & (1u64 << i)) == (1u64 << i) || (b
        & (1u64 << i)) == (1u64 << i))) by (bit_vector)
        requires
            i < 64,
    ;
}

/// A coarse-grained capability set used for broad authorization.
///
/// Each set bit means an invocation may request operations in that exact
/// coarse slot. Fine-grained authorization is still enforced later by
/// policy and grants. Every bit pattern is a valid set.
#[derive(Clone, Copy, Debug, PartialEq, Eq, Structural, Default)]
pub struct Capabilities {
    bits: u64,
}

impl View for Capabilities {
    type V = u64;

    closed spec fn view(&self) -> u64 {
        self.bits
    }
}

/// `sub` is a subset of `sup`, as bit sets.
pub open spec fn bits_contain(sup: u64, sub: u64) -> bool {
    (sup & sub) == sub
}

impl Capabilities {
    /// The set holds the slot `c`.
    pub open spec fn has(self, c: Capability) -> bool {
        bits_contain(self@, c.spec_bit())
    }

    /// The set holds every bit of `other`.
    pub open spec fn spec_contains(self, other: Capabilities) -> bool {
        bits_contain(self@, other@)
    }

    pub fn empty() -> (r: Self)
        ensures
            r@ == 0,
    {
        Capabilities { bits: 0 }
    }

    pub fn from_bits_retain(bits: u64) -> (r: Self)
        ensures
            r@ == bits,
    {
        Capabilities { bits }
    }

    pub fn bits(&self) -> (r: u64)
        ensures
            r == self@,
    {
        self.bits
    }

    pub fn is_empty(&self) -> (r: bool)
        ensures
            r == (self@ == 0),
    {
        self.bits == 0
    }

    /// Every bit of `other` is in `self`.
    pub fn contains(&self, other: Capabilities) -> (r: bool)
        ensures
            r == self.spec_contains(other),
    {
        (self.bits & other.bits) == other.bits
    }

    /// The union of two sets.
    pub fn union(self, other: Capabilities) -> (r: Self)
        ensures
            r@ == (self@ | other@),
    {
        Capabilities { bits: self.bits | other.bits }
    }

    /// Adds every bit of `other` to `self`.
    pub fn insert(&mut self, other: Capabilities)
        ensures
            final(self)@ == (old(self)@ | other@),
    {
        self.bits = self.bits | other.bits;
    }

    /// The set that holds exactly one slot.
    pub fn from_capability(capability: Capability) -> (r: Self)
        ensures
            r@ == capability.spec_bit(),
    {
        Capabilities { bits: capability.bit() }
    }

    /// The set that holds exactly the listed slots.
    pub fn from_slice(capabilities: &[Capability]) -> (r: Self)
        ensures
            forall|c: Capability| r.has(c) <==> capabilities@.contains(c),
            r@ == slice_bits(capabilities@),
    {
        let mut caps = Capabilities::empty();
        let n = capabilities.len();
        for i in 0..n
            invariant
                n == capabilities@.len(),
                caps@ == slice_bits(capabilities@.take(i as int)),
        {
            let c = capabilities[i];
            proof {
                assert(capabilities@.take(i + 1).drop_last() =~= capabilities@.take(i as int));
            }
            caps.insert(Capabilities::from_capability(c));
        }
        proof {
            assert(capabilities@.take(n as int) =~= capabilities@);
            lemma_slice_bits_has(capabilities@);
        }
        caps
    }

    /// Whether the set allows the slot `capability`.
    pub fn allows(self, capability: Capability) -> (r: bool)
        ensures
            r == self.has(capability),
    {
        self.contains(Capabilities::from_capability(capability))
    }

    /// Whether the set allows every slot of `capabilities`.
    pub fn allows_all(self, capabilities: Capabilities) -> (r: bool)
        ensures
            r == self.spec_contains(capabilities),
    {
        self.contains(capabilities)
    }
}

/// The bits of a list of slots: the union of their single bits.
pub open spec fn slice_bits(s: Seq<Capability>) -> u64
    decreases s.len(),
{
    if s.len() == 0 {
        0
    } else {
        slice_bits(s.drop_last()) | s.last().spec_bit()
    }
}

/// A slot is in the bits of a list exactly when it is listed.
pub proof fn lemma_slice_bits_has(s: Seq<Capability>)
    ensures
        forall|c: Capability| bits_contain(slice_bits(s), #[trigger] c.spec_bit()) <==> s.contains(c),
    decreases s.len(),
{
    if s.len() == 0 {
        assert forall|c: Capability| !bits_contain(0u64, #[trigger] c.spec_bit()) by {
            let i = c.spec_index() as u64;
            lemma_single_bits(i, i);
            assert((0u64 & (1u64 << i)) == 0) by (bit_vector);
        }
    } else {
        lemma_slice_bits_has(s.drop_last());
        assert forall|c: Capability|
            bits_contain(slice_bits(s), #[trigger] c.spec_bit()) <==> s.contains(c) by {
            let i = c.spec_index() as u64;
            let j = s.last().spec_index() as u64;
            lemma_or_single_bit(slice_bits(s.drop_last()), s.last().spec_bit(), i);
            lemma_single_bits(i, j);
            lemma_index_injective(c, s.last());
            if s.drop_last().contains(c) {
                let k = choose|k: int| 0 <= k < s.drop_last().len() && s.drop_last()[k] == c;
                assert(s[k] == c);
            }
            if s.contains(c) && c != s.last() {
                let k = choose|k: int| 0 <= k < s.len() && s[k] == c;
                assert(k != s.len() - 1);
                assert(s.drop_last()[k] == c);
            }
            if c == s.last() {
                assert(s[s.len() - 1] == c);
            }
        }
    }
}

impl From<Capability> for Capabilities {
    fn from(value: Capability) -> (r: Self) {
        Capabilities::from_capability(value)
    }
}

impl vstd::std_specs::convert::FromSpecImpl<Capability> for Capabilities {
    open spec fn obeys_from_spec() -> bool {
        true
    }

    open spec fn from_spec(v: Capability) -> Self {
        Capabilities::spec_single(v)
    }
}

impl Capabilities {
    /// The set that holds exactly the slot `c`.
    pub closed spec fn spec_single(c: Capability) -> Capabilities {
        Capabilities { bits: c.spec_bit() }
    }

    pub broadcast proof fn lemma_spec_single(c: Capability)
        ensures
            (#[trigger] Capabilities::spec_single(c))@ == c.spec_bit(),
    {
    }
}

/// Containment of capability sets is reflexive and transitive, and a set that
/// contains another holds each of its slots.
pub proof fn law_contains_order(a: Capabilities, b: Capabilities, c: Capabilities, s: Capability)
    ensures
        a.spec_contains(a),
        a.spec_contains(b) && b.spec_contains(c) ==> a.spec_contains(c),
        a.spec_contains(b) && b.has(s) ==> a.has(s),
{
    let (x, y, z, m) = (a@, b@, c@, s.spec_bit());
    assert((x & x) == x) by (bit_vector);
    assert(((x & y) == y && (y & z) == z) ==> (x & z) == z) by (bit_vector);
    assert(((x & y) == y && (y & m) == m) ==> (x & m) == m) by (bit_vector);
}

/// The empty set is contained in every set and holds no slot.
pub proof fn law_empty(a: Capabilities, s: Capability)
    ensures
        a.spec_contains(Capabilities::spec_single(s)) == a.has(s),
        bits_contain(a@, 0),
        !bits_contain(0, s.spec_bit()),
{
    let x = a@;
    let i = s.spec_index() as u64;
    assert((x & 0) == 0) by (bit_vector);
    lemma_single_bits(i, i);
    assert((0u64 & (1u64 << i)) == 0) by (bit_vector);
}

} // verus!
