//! Integers as bytes: the big-endian fields of a network packet, and the fields
//! of the records that a device reads, in the byte order of the machine.

use vstd::prelude::*;

verus! {

/// The order in which the bytes of an integer are laid out.
#[derive(Clone, Copy, Debug, PartialEq, Eq, Structural)]
pub enum ByteOrder {
    /// The least significant byte first.
    Little,
    /// The most significant byte first.
    Big,
}

/// The unsigned 16-bit integer at `at`, most significant byte first.
pub open spec fn be_u16_at(b: Seq<u8>, at: int) -> int {
    b[at] * 0x100 + b[at + 1]
}

/// The unsigned 32-bit integer at `at`, most significant byte first.
pub open spec fn be_u32_at(b: Seq<u8>, at: int) -> int {
    b[at] * 0x100_0000 + b[at + 1] * 0x1_0000 + b[at + 2] * 0x100 + b[at + 3]
}

/// The value of a 16-bit word read as a signed number in two's complement.
pub open spec fn signed16(word: int) -> int {
    if word < 0x8000 {
        word
    } else {
        word - 0x1_0000
    }
}

/// The 16-bit word that holds a signed number in two's complement.
pub open spec fn word16(value: int) -> int {
    if value < 0 {
        value + 0x1_0000
    } else {
        value
    }
}

/// The 32-bit word that holds a signed number in two's complement.
pub open spec fn word32(value: int) -> int {
    if value < 0 {
        value + 0x1_0000_0000
    } else {
        value
    }
}

/// The signed 16-bit integer at `at`, most significant byte first.
pub open spec fn be_i16_at(b: Seq<u8>, at: int) -> int {
    signed16(be_u16_at(b, at))
}

/// The two bytes of a 16-bit word.
pub open spec fn word16_bytes(order: ByteOrder, word: int) -> Seq<u8> {
    let high = (word / 0x100) as u8;
    let low = (word % 0x100) as u8;
    match order {
        ByteOrder::Little => seq![low, high],
        ByteOrder::Big => seq![high, low],
    }
}

/// The four bytes of a 32-bit word.
pub open spec fn word32_bytes(order: ByteOrder, word: int) -> Seq<u8> {
    let b3 = (word / 0x100_0000) as u8;
    let b2 = (word / 0x1_0000 % 0x100) as u8;
    let b1 = (word / 0x100 % 0x100) as u8;
    let b0 = (word % 0x100) as u8;
    match order {
        ByteOrder::Little => seq![b0, b1, b2, b3],
        ByteOrder::Big => seq![b3, b2, b1, b0],
    }
}

/// `count` zero bytes.
pub open spec fn zeros(count: nat) -> Seq<u8> {
    Seq::new(count, |i: int| 0u8)
}

/// Reads an unsigned 16-bit big-endian integer.
pub fn read_u16(b: &[u8], at: usize) -> (value: u16)
    requires
        at + 2 <= b@.len(),
    ensures
        value == be_u16_at(b@, at as int),
{
    b[at] as u16 * 0x100 + b[at + 1] as u16
}

/// Reads an unsigned 32-bit big-endian integer.
pub fn read_u32(b: &[u8], at: usize) -> (value: u32)
    requires
        at + 4 <= b@.len(),
    ensures
        value == be_u32_at(b@, at as int),
{
    b[at] as u32 * 0x100_0000 + b[at + 1] as u32 * 0x1_0000 + b[at + 2] as u32 * 0x100 + b[at
        + 3] as u32
}

/// Reads a signed 16-bit big-endian integer.
pub fn read_i16(b: &[u8], at: usize) -> (value: i16)
    requires
        at + 2 <= b@.len(),
    ensures
        value == be_i16_at(b@, at as int),
{
    let word: u16 = read_u16(b, at);
    if word < 0x8000 {
        word as i16
    } else {
        (word as i32 - 0x1_0000) as i16
    }
}

/// Appends the bytes of an unsigned 16-bit integer.
pub fn push_u16(out: &mut Vec<u8>, order: ByteOrder, value: u16)
    ensures
        final(out)@ == old(out)@ + word16_bytes(order, value as int),
{
    let high: u8 = (value / 0x100) as u8;
    let low: u8 = (value % 0x100) as u8;
    match order {
        ByteOrder::Little => {
            out.push(low);
            out.push(high);
        },
        ByteOrder::Big => {
            out.push(high);
            out.push(low);
        },
    }
}

/// Appends the bytes of an unsigned 32-bit integer.
pub fn push_u32(out: &mut Vec<u8>, order: ByteOrder, value: u32)
    ensures
        final(out)@ == old(out)@ + word32_bytes(order, value as int),
{
    let b3: u8 = (value / 0x100_0000) as u8;
    let b2: u8 = (value / 0x1_0000 % 0x100) as u8;
    let b1: u8 = (value / 0x100 % 0x100) as u8;
    let b0: u8 = (value % 0x100) as u8;
    match order {
        ByteOrder::Little => {
            out.push(b0);
            out.push(b1);
            out.push(b2);
            out.push(b3);
        },
        ByteOrder::Big => {
            out.push(b3);
            out.push(b2);
            out.push(b1);
            out.push(b0);
        },
    }
}

/// Appends the bytes of a signed 32-bit integer.
pub fn push_i32(out: &mut Vec<u8>, order: ByteOrder, value: i32)
    ensures
        final(out)@ == old(out)@ + word32_bytes(order, word32(value as int)),
{
    let word: u32 = if value < 0 {
        (value as i64 + 0x1_0000_0000) as u32
    } else {
        value as u32
    };
    push_u32(out, order, word);
}

/// Appends `count` zero bytes.
pub fn push_zeros(out: &mut Vec<u8>, count: usize)
    ensures
        final(out)@ == old(out)@ + zeros(count as nat),
{
    let ghost before = out@;
    let mut n: usize = 0;
    while n < count
        invariant
            n <= count,
            out@ == before + zeros(n as nat),
        decreases count - n,
    {
        out.push(0);
        n = n + 1;
    }
}

/// Appends the bytes of a slice.
pub fn push_bytes(out: &mut Vec<u8>, data: &[u8])
    ensures
        final(out)@ == old(out)@ + data@,
{
    let ghost before = out@;
    let mut n: usize = 0;
    while n < data.len()
        invariant
            n <= data@.len(),
            out@ == before + data@.take(n as int),
        decreases data@.len() - n,
    {
        out.push(data[n]);
        n = n + 1;
    }
}

/// Bytes start with `p` and then the big-endian bytes of `word` exactly when they
/// start with `p` and `word` is read behind it.
pub proof fn lemma_big_endian_word16(p: Seq<u8>, word: int, b: Seq<u8>)
    requires
        0 <= word < 0x1_0000,
        p.len() + 2 <= b.len(),
    ensures
        b.take(p.len() as int + 2) == p + word16_bytes(ByteOrder::Big, word) <==> b.take(p.len() as int)
            == p && be_u16_at(b, p.len() as int) == word,
{
    let at = p.len() as int;
    let w = word16_bytes(ByteOrder::Big, word);
    let read = seq![b[at], b[at + 1]];
    assert(be_u16_at(b, at) == word <==> read =~= w) by {
        assert(w[0] == word / 0x100);
        assert(w[1] == word % 0x100);
    }
    assert(b.take(at + 2) =~= b.take(at) + read);
    lemma_concat_unique(b.take(at), read, p, w);
}

/// The digits of a 32-bit word to the base 256 are unique.
proof fn lemma_word32_digits(word: int, b3: int, b2: int, b1: int, b0: int)
    requires
        0 <= word < 0x1_0000_0000,
        0 <= b3 < 0x100,
        0 <= b2 < 0x100,
        0 <= b1 < 0x100,
        0 <= b0 < 0x100,
    ensures
        word == b3 * 0x100_0000 + b2 * 0x1_0000 + b1 * 0x100 + b0 <==> (b3 == word / 0x100_0000
            && b2 == word / 0x1_0000 % 0x100 && b1 == word / 0x100 % 0x100 && b0 == word % 0x100),
{
    let w1 = word / 0x100;
    let w2 = w1 / 0x100;
    assert(word / 0x1_0000 == w2);
    assert(word / 0x100_0000 == w2 / 0x100);
}

/// The same for a 32-bit word.
pub proof fn lemma_big_endian_word32(p: Seq<u8>, word: int, b: Seq<u8>)
    requires
        0 <= word < 0x1_0000_0000,
        p.len() + 4 <= b.len(),
    ensures
        b.take(p.len() as int + 4) == p + word32_bytes(ByteOrder::Big, word) <==> b.take(
            p.len() as int,
        ) == p && be_u32_at(b, p.len() as int) == word,
{
    let at = p.len() as int;
    let w = word32_bytes(ByteOrder::Big, word);
    let read = seq![b[at], b[at + 1], b[at + 2], b[at + 3]];
    lemma_word32_digits(
        word,
        b[at] as int,
        b[at + 1] as int,
        b[at + 2] as int,
        b[at + 3] as int,
    );
    assert(be_u32_at(b, at) == word <==> read =~= w) by {
        assert(w[0] == word / 0x100_0000);
        assert(w[1] == word / 0x1_0000 % 0x100);
        assert(w[2] == word / 0x100 % 0x100);
        assert(w[3] == word % 0x100);
    }
    assert(b.take(at + 4) =~= b.take(at) + read);
    lemma_concat_unique(b.take(at), read, p, w);
}

/// Two concatenations whose first parts are of one length are equal exactly when
/// their parts are.
proof fn lemma_concat_unique(a1: Seq<u8>, b1: Seq<u8>, a2: Seq<u8>, b2: Seq<u8>)
    requires
        a1.len() == a2.len(),
    ensures
        a1 + b1 == a2 + b2 <==> a1 == a2 && b1 == b2,
{
    if a1 + b1 == a2 + b2 {
        assert(a1 =~= (a1 + b1).take(a1.len() as int));
        assert(a2 =~= (a2 + b2).take(a1.len() as int));
        assert(b1 =~= (a1 + b1).skip(a1.len() as int));
        assert(b2 =~= (a2 + b2).skip(a1.len() as int));
    }
}

/// The 16-bit word that stands at `at` in the given order.
pub open spec fn word16_at(order: ByteOrder, b: Seq<u8>, at: int) -> int {
    match order {
        ByteOrder::Little => b[at] + b[at + 1] * 0x100,
        ByteOrder::Big => be_u16_at(b, at),
    }
}

/// The 32-bit word that stands at `at` in the given order.
pub open spec fn word32_at(order: ByteOrder, b: Seq<u8>, at: int) -> int {
    match order {
        ByteOrder::Little => b[at] + b[at + 1] * 0x100 + b[at + 2] * 0x1_0000 + b[at + 3]
            * 0x100_0000,
        ByteOrder::Big => be_u32_at(b, at),
    }
}

/// The bytes of a 16-bit word are worth the word: the first byte counts least in one
/// order and most in the other.
pub proof fn lemma_word16_bytes_are_worth_the_word(word: int)
    requires
        0 <= word < 0x1_0000,
    ensures
        ({
            let little = word16_bytes(ByteOrder::Little, word);
            let big = word16_bytes(ByteOrder::Big, word);
            &&& little.len() == 2 && little[0] + little[1] * 0x100 == word
            &&& big.len() == 2 && big[0] * 0x100 + big[1] == word
            &&& big == little.reverse()
        }),
{
    let little = word16_bytes(ByteOrder::Little, word);
    let big = word16_bytes(ByteOrder::Big, word);
    assert(big =~= little.reverse());
}

/// The bytes of a 32-bit word are worth the word, in either order.
pub proof fn lemma_word32_bytes_are_worth_the_word(word: int)
    requires
        0 <= word < 0x1_0000_0000,
    ensures
        ({
            let little = word32_bytes(ByteOrder::Little, word);
            let big = word32_bytes(ByteOrder::Big, word);
            &&& little.len() == 4
            &&& little[0] + little[1] * 0x100 + little[2] * 0x1_0000 + little[3] * 0x100_0000
                == word
            &&& big.len() == 4
            &&& big[0] * 0x100_0000 + big[1] * 0x1_0000 + big[2] * 0x100 + big[3] == word
            &&& big == little.reverse()
        }),
{
    let little = word32_bytes(ByteOrder::Little, word);
    let big = word32_bytes(ByteOrder::Big, word);
    lemma_word32_digits(
        word,
        word / 0x100_0000,
        word / 0x1_0000 % 0x100,
        word / 0x100 % 0x100,
        word % 0x100,
    );
    assert(big =~= little.reverse());
}

/// A word is read back where it was written, whatever stands around it.
pub proof fn lemma_word16_is_read_back(order: ByteOrder, b: Seq<u8>, at: int, word: int)
    requires
        0 <= word < 0x1_0000,
        0 <= at,
        at + 2 <= b.len(),
        b[at] == word16_bytes(order, word)[0],
        b[at + 1] == word16_bytes(order, word)[1],
    ensures
        word16_at(order, b, at) == word,
{
    lemma_word16_bytes_are_worth_the_word(word);
}

/// The same for a 32-bit word.
pub proof fn lemma_word32_is_read_back(order: ByteOrder, b: Seq<u8>, at: int, word: int)
    requires
        0 <= word < 0x1_0000_0000,
        0 <= at,
        at + 4 <= b.len(),
        b[at] == word32_bytes(order, word)[0],
        b[at + 1] == word32_bytes(order, word)[1],
        b[at + 2] == word32_bytes(order, word)[2],
        b[at + 3] == word32_bytes(order, word)[3],
    ensures
        word32_at(order, b, at) == word,
{
    lemma_word32_bytes_are_worth_the_word(word);
}

/// The word of a signed number differs from it by nothing or by one full turn, and
/// has no sign. Reading a word as a signed number undoes this.
pub proof fn lemma_words_of_signed_numbers(value: int)
    ensures
        -0x8000 <= value < 0x8000 ==> 0 <= word16(value) < 0x1_0000 && (word16(value) - value)
            % 0x1_0000 == 0 && signed16(word16(value)) == value,
        -0x8000_0000 <= value < 0x8000_0000 ==> 0 <= word32(value) < 0x1_0000_0000 && (word32(value)
            - value) % 0x1_0000_0000 == 0,
        0 <= value < 0x1_0000 ==> -0x8000 <= signed16(value) < 0x8000 && (value - signed16(value))
            % 0x1_0000 == 0,
{
}

/// Every one of `count` zero bytes is zero.
pub proof fn lemma_zeros_are_zero(count: nat, i: int)
    ensures
        zeros(count).len() == count,
        0 <= i < count ==> zeros(count)[i] == 0,
{
}

/// The bytes at a place are the digits of the numbers read there, also of the signed
/// one in two's complement.
pub proof fn lemma_digits_at(b: Seq<u8>, at: int)
    requires
        0 <= at,
        at + 2 <= b.len(),
    ensures
        0 <= be_u16_at(b, at) < 0x1_0000,
        be_u16_at(b, at) / 0x100 == b[at],
        be_u16_at(b, at) % 0x100 == b[at + 1],
        -0x8000 <= be_i16_at(b, at) < 0x8000,
        be_i16_at(b, at) / 0x100 % 0x100 == b[at],
        be_i16_at(b, at) % 0x100 == b[at + 1],
        at + 4 <= b.len() ==> {
            &&& 0 <= be_u32_at(b, at) < 0x1_0000_0000
            &&& be_u32_at(b, at) / 0x100_0000 == b[at]
            &&& be_u32_at(b, at) / 0x1_0000 % 0x100 == b[at + 1]
            &&& be_u32_at(b, at) / 0x100 % 0x100 == b[at + 2]
            &&& be_u32_at(b, at) % 0x100 == b[at + 3]
        },
{
    if at + 4 <= b.len() {
        lemma_word32_digits(
            be_u32_at(b, at),
            b[at] as int,
            b[at + 1] as int,
            b[at + 2] as int,
            b[at + 3] as int,
        );
    }
}

/// What the readers give, for every place: each byte of the number is a byte of the
/// slice, and the most significant one stands first.
pub proof fn lemma_calls_read_big_endian(b: &[u8], at: usize, half: u16, word: u32, signed: i16)
    ensures
        at + 2 <= b@.len() && call_ensures(read_u16, (b, at), half) ==> half / 0x100 == b@[at as int]
            && half % 0x100 == b@[at + 1],
        at + 4 <= b@.len() && call_ensures(read_u32, (b, at), word) ==> word / 0x100_0000
            == b@[at as int] && word / 0x1_0000 % 0x100 == b@[at + 1] && word / 0x100 % 0x100
            == b@[at + 2] && word % 0x100 == b@[at + 3],
        at + 2 <= b@.len() && call_ensures(read_i16, (b, at), signed) ==> signed as int / 0x100
            % 0x100 == b@[at as int] && signed as int % 0x100 == b@[at + 1],
{
    if at + 2 <= b@.len() {
        lemma_digits_at(b@, at as int);
    }
}

/// What the calls that write do: they keep what has been written, and what they add
/// is read back as the value that they were given.
pub proof fn lemma_calls_append(
    order: ByteOrder,
    short: u16,
    long: u32,
    signed: i32,
    count: usize,
    data: &[u8],
)
    ensures
        forall|out: &mut Vec<u8>| #[trigger]
            call_ensures(push_u16, (out, order, short), ()) ==> {
                let after = final(out)@;
                &&& after.len() == out@.len() + 2
                &&& after.take(out@.len() as int) == out@
                &&& word16_at(order, after, out@.len() as int) == short
            },
        forall|out: &mut Vec<u8>| #[trigger]
            call_ensures(push_u32, (out, order, long), ()) ==> {
                let after = final(out)@;
                &&& after.len() == out@.len() + 4
                &&& after.take(out@.len() as int) == out@
                &&& word32_at(order, after, out@.len() as int) == long
            },
        forall|out: &mut Vec<u8>| #[trigger]
            call_ensures(push_i32, (out, order, signed), ()) ==> {
                let after = final(out)@;
                let word = word32_at(order, after, out@.len() as int);
                &&& after.len() == out@.len() + 4
                &&& after.take(out@.len() as int) == out@
                &&& signed >= 0 ==> word == signed
                &&& signed < 0 ==> word == signed + 0x1_0000_0000
            },
        forall|out: &mut Vec<u8>| #[trigger]
            call_ensures(push_zeros, (out, count), ()) ==> {
                let after = final(out)@;
                &&& after.len() == out@.len() + count
                &&& after.take(out@.len() as int) == out@
                &&& forall|i: int| out@.len() <= i < after.len() ==> after[i] == 0
            },
        forall|out: &mut Vec<u8>| #[trigger]
            call_ensures(push_bytes, (out, data), ()) ==> {
                let after = final(out)@;
                &&& after.take(out@.len() as int) == out@
                &&& after.skip(out@.len() as int) == data@
            },
{
    assert forall|out: &mut Vec<u8>| #[trigger]
        call_ensures(push_u16, (out, order, short), ()) implies {
        let after = final(out)@;
        &&& after.len() == out@.len() + 2
        &&& after.take(out@.len() as int) == out@
        &&& word16_at(order, after, out@.len() as int) == short
    } by {
        lemma_word16_bytes_are_worth_the_word(short as int);
        assert(final(out)@.take(out@.len() as int) =~= out@);
        lemma_word16_is_read_back(order, final(out)@, out@.len() as int, short as int);
    }
    assert forall|out: &mut Vec<u8>| #[trigger]
        call_ensures(push_u32, (out, order, long), ()) implies {
        let after = final(out)@;
        &&& after.len() == out@.len() + 4
        &&& after.take(out@.len() as int) == out@
        &&& word32_at(order, after, out@.len() as int) == long
    } by {
        assert(final(out)@.take(out@.len() as int) =~= out@);
        lemma_word32_is_read_back(order, final(out)@, out@.len() as int, long as int);
    }
    assert forall|out: &mut Vec<u8>| #[trigger]
        call_ensures(push_i32, (out, order, signed), ()) implies {
        let after = final(out)@;
        let word = word32_at(order, after, out@.len() as int);
        &&& after.len() == out@.len() + 4
        &&& after.take(out@.len() as int) == out@
        &&& signed >= 0 ==> word == signed
        &&& signed < 0 ==> word == signed + 0x1_0000_0000
    } by {
        assert(final(out)@.take(out@.len() as int) =~= out@);
        lemma_word32_is_read_back(order, final(out)@, out@.len() as int, word32(signed as int));
    }
    assert forall|out: &mut Vec<u8>| #[trigger]
        call_ensures(push_zeros, (out, count), ()) implies {
        let after = final(out)@;
        &&& after.len() == out@.len() + count
        &&& after.take(out@.len() as int) == out@
        &&& forall|i: int| out@.len() <= i < after.len() ==> after[i] == 0
    } by {
        assert(final(out)@.take(out@.len() as int) =~= out@);
    }
    assert forall|out: &mut Vec<u8>| #[trigger]
        call_ensures(push_bytes, (out, data), ()) implies {
        let after = final(out)@;
        &&& after.take(out@.len() as int) == out@
        &&& after.skip(out@.len() as int) == data@
    } by {
        assert(final(out)@.take(out@.len() as int) =~= out@);
        assert(final(out)@.skip(out@.len() as int) =~= data@);
    }
}

} // verus!
