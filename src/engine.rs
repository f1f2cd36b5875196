use crate::ids::IdAllocator;
use vstd::prelude::*;

verus! {

/// The decimal digit character for `d < 10`.
pub open spec fn digit_char(d: nat) -> char {
    seq!['0', '1', '2', '3', '4', '5', '6', '7', '8', '9'][d as int]
}

/// The decimal notation of `n`, without leading zeros.
pub open spec fn decimal(n: nat) -> Seq<char>
    decreases n,
{
    if n < 10 {
        seq![digit_char(n)]
    } else {
        decimal(n / 10).push(digit_char(n % 10))
    }
}

/// Relies on the `Display` impl of `u64` (through `format!`): the number in
/// decimal, with no sign, padding or leading zeros.
#[verifier::external_body]
fn to_decimal(n: u64) -> (r: String)
    ensures
        r@ == decimal(n as nat),
{
    format!("{}", n)
}

/// A unique identifier for an engine, so that two engines can be compared for
/// equality.
#[derive(PartialEq, Eq, Structural, PartialOrd, Ord, Debug)]
pub struct EngineId {
    id: u64,
}

impl EngineId {
    /// The identifier as a number.
    pub closed spec fn spec_value(&self) -> nat {
        self.id as nat
    }

    /// A fresh identifier taken from `ids`; `None` once `ids` has none left.
    pub fn new(ids: &mut IdAllocator) -> (r: Option<EngineId>)
        requires
            old(ids).wf(),
        ensures
            final(ids).wf(),
            r is Some ==> final(ids).issued() == old(ids).issued().push(old(ids).next_id() as u64),
            r is None ==> final(ids).issued() == old(ids).issued(),
            old(ids).next_id() < u64::MAX ==> r is Some && final(ids).next_id() == old(
                ids,
            ).next_id() + 1,
            old(ids).next_id() == u64::MAX ==> r is None && final(ids).next_id() == old(
                ids,
            ).next_id(),
            r matches Some(e) ==> e.spec_value() == old(ids).next_id(),
    {
        match ids.allocate() {
            Some(id) => Some(EngineId { id }),
            None => None,
        }
    }

    /// Formats this identifier as a string.
    pub fn id(&self) -> (r: String)
        ensures
            r@ == decimal(self.spec_value()),
    {
        to_decimal(self.id)
    }
}

/// Engines whose identifiers are the same number are the same engine
/// identity.
pub proof fn lemma_engine_ids_equal(a: EngineId, b: EngineId)
    requires
        a.spec_value() == b.spec_value(),
    ensures
        a == b,
{
}

proof fn lemma_decimal_len(n: nat)
    ensures
        decimal(n).len() >= 1,
        n < 10 <==> decimal(n).len() == 1,
    decreases n,
{
    if n >= 10 {
        lemma_decimal_len(n / 10);
    }
}

proof fn lemma_digit_char_injective(a: nat, b: nat)
    requires
        a < 10,
        b < 10,
        digit_char(a) == digit_char(b),
    ensures
        a == b,
{
}

/// Two numbers with the same decimal notation are equal.
pub proof fn lemma_decimal_injective(m: nat, n: nat)
    requires
        decimal(m) == decimal(n),
    ensures
        m == n,
    decreases m,
{
    lemma_decimal_len(m);
    lemma_decimal_len(n);
    if m < 10 {
        assert(decimal(m)[0] == digit_char(m));
        assert(decimal(n)[0] == digit_char(n));
        lemma_digit_char_injective(m, n);
    } else {
        let dm = decimal(m);
        let dn = decimal(n);
        assert(dm.last() == digit_char(m % 10));
        assert(dn.last() == digit_char(n % 10));
        lemma_digit_char_injective(m % 10, n % 10);
        assert(decimal(m / 10) =~= dm.drop_last());
        assert(decimal(n / 10) =~= dn.drop_last());
        lemma_decimal_injective(m / 10, n / 10);
    }
}

/// Two engine identifiers format to the same string exactly when they are
/// the same identifier.
pub proof fn lemma_engine_id_strings(a: EngineId, b: EngineId)
    ensures
        (decimal(a.spec_value()) == decimal(b.spec_value())) <==> (a == b),
{
    if decimal(a.spec_value()) == decimal(b.spec_value()) {
        lemma_decimal_injective(a.spec_value(), b.spec_value());
    }
}

/// Engines whose identifiers are different numbers are different engines.
/// With `lemma_allocator_ids_distinct`, this makes all engines drawn from one
/// allocator pairwise different.
pub proof fn lemma_engine_ids_distinct(a: EngineId, b: EngineId)
    requires
        a.spec_value() != b.spec_value(),
    ensures
        a != b,
{
}

} // verus!
