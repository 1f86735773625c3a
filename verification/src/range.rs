//! The byte range that a resumption asks for.

use vstd::prelude::*;

verus! {

/// The character for the digit `d`, where `d < 10`.
pub open spec fn digit(d: nat) -> char {
    if d == 0 {
        '0'
    } else if d == 1 {
        '1'
    } else if d == 2 {
        '2'
    } else if d == 3 {
        '3'
    } else if d == 4 {
        '4'
    } else if d == 5 {
        '5'
    } else if d == 6 {
        '6'
    } else if d == 7 {
        '7'
    } else if d == 8 {
        '8'
    } else {
        '9'
    }
}

/// `n` in decimal, without leading zeros.
pub open spec fn decimal(n: nat) -> Seq<char>
    decreases n,
{
    if n < 10 {
        seq![digit(n)]
    } else {
        decimal(n / 10).push(digit(n % 10))
    }
}

/// The value of a `Range` header that asks for every byte from offset
/// `first` to the end of the resource: `bytes=`, the offset, and a hyphen.
pub open spec fn range_value(first: nat) -> Seq<char> {
    seq!['b', 'y', 't', 'e', 's', '='] + decimal(first) + seq!['-']
}

/// The offset that a server reads from the `Range` header value `header`,
/// where that value asks for all bytes from some offset on.
pub open spec fn offset_asked(header: Seq<char>) -> nat {
    choose|first: nat| range_value(first) == header
}

proof fn lemma_decimal_is_not_empty(n: nat)
    ensures
        decimal(n).len() >= 1,
    decreases n,
{
    if n >= 10 {
        lemma_decimal_is_not_empty(n / 10);
    }
}

proof fn lemma_digit_is_injective(a: nat, b: nat)
    requires
        a < 10,
        b < 10,
        digit(a) == digit(b),
    ensures
        a == b,
{
}

proof fn lemma_decimal_is_injective(a: nat, b: nat)
    requires
        decimal(a) == decimal(b),
    ensures
        a == b,
    decreases a,
{
    if a < 10 && b < 10 {
        assert(decimal(a)[0] == digit(a));
        assert(decimal(b)[0] == digit(b));
        lemma_digit_is_injective(a, b);
    } else if a < 10 {
        lemma_decimal_is_not_empty(b / 10);
        assert(decimal(a).len() == 1);
        assert(decimal(b).len() == decimal(b / 10).len() + 1);
    } else if b < 10 {
        lemma_decimal_is_not_empty(a / 10);
        assert(decimal(b).len() == 1);
        assert(decimal(a).len() == decimal(a / 10).len() + 1);
    } else {
        assert(decimal(a).drop_last() == decimal(a / 10));
        assert(decimal(b).drop_last() == decimal(b / 10));
        assert(decimal(a).last() == digit(a % 10));
        assert(decimal(b).last() == digit(b % 10));
        lemma_decimal_is_injective(a / 10, b / 10);
        lemma_digit_is_injective(a % 10, b % 10);
        assert(a == 10 * (a / 10) + a % 10);
        assert(b == 10 * (b / 10) + b % 10);
    }
}

/// Two offsets with the same header value are the same offset: a server
/// that reads the header learns exactly where the download stands.
pub proof fn lemma_range_value_is_injective(a: nat, b: nat)
    requires
        range_value(a) == range_value(b),
    ensures
        a == b,
{
    assert(range_value(a).subrange(6, 6 + decimal(a).len() as int) == decimal(a));
    assert(range_value(b).subrange(6, 6 + decimal(b).len() as int) == decimal(b));
    assert(range_value(a).len() == 7 + decimal(a).len());
    assert(range_value(b).len() == 7 + decimal(b).len());
    lemma_decimal_is_injective(a, b);
}

/// The offset read back from the header value for `first` is `first`.
pub proof fn lemma_offset_asked(first: nat)
    ensures
        offset_asked(range_value(first)) == first,
{
    lemma_range_value_is_injective(offset_asked(range_value(first)), first);
}

/// `hyperx::header::Range::Bytes` with the single spec
/// `ByteRangeSpec::AllFrom(first)`, as its `Display` impl writes it: the
/// text `bytes=`, then `first` as `u64`'s own `Display` writes it, then `-`.
#[verifier::external_body]
fn format_open_range(first: u64) -> (value: String)
    ensures
        value@ == range_value(first as nat),
{
    hyperx::header::Range::Bytes(vec![hyperx::header::ByteRangeSpec::AllFrom(first)]).to_string()
}

/// An open-ended byte range: every byte of the resource from an offset on.
#[derive(Debug)]
pub struct OpenRange {
    first: u64,
    header: String,
}

/// What an [`OpenRange`] is in specifications.
pub struct OpenRangeView {
    /// Offset of the first byte asked for.
    pub first: nat,
    /// The value of the `Range` header that asks for it.
    pub header: Seq<char>,
}

impl View for OpenRange {
    type V = OpenRangeView;

    closed spec fn view(&self) -> OpenRangeView {
        OpenRangeView { first: self.first as nat, header: self.header@ }
    }
}

/// The range from `first` on, with its header value.
pub open spec fn open_range(first: nat) -> OpenRangeView {
    OpenRangeView { first, header: range_value(first) }
}

impl OpenRange {
    #[verifier::type_invariant]
    spec fn header_names_first(self) -> bool {
        self.header@ == range_value(self.first as nat)
    }

    /// The range of all bytes from offset `first` on.
    pub fn starting_at(first: u64) -> (range: OpenRange)
        ensures
            range@ == open_range(first as nat),
    {
        OpenRange { first, header: format_open_range(first) }
    }

    /// Offset of the first byte asked for.
    pub fn first(&self) -> (first: u64)
        ensures
            first == self@.first,
    {
        self.first
    }

    /// The value to send in the `Range` header: the one that asks for
    /// every byte from [`OpenRange::first`] on.
    pub fn header(&self) -> (value: &String)
        ensures
            value@ == self@.header,
            value@ == range_value(self@.first),
    {
        proof {
            use_type_invariant(self);
        }
        &self.header
    }
}

} // verus!
