//! Rendering of numbers as text.
use vstd::prelude::*;
use vstd::string::*;

verus! {

/// The lower-case hexadecimal digits of a byte.
pub open spec fn hex_pair(byte: u8) -> Seq<char> {
    seq!["0123456789abcdef"@[byte as int / 16], "0123456789abcdef"@[byte as int % 16]]
}

/// The lower-case hexadecimal digits of a sequence of bytes.
pub open spec fn hex(bytes: Seq<u8>) -> Seq<char>
    decreases bytes.len(),
{
    if bytes.len() == 0 {
        seq![]
    } else {
        hex(bytes.drop_last()) + hex_pair(bytes.last())
    }
}

/// The decimal digits of a number.
pub open spec fn decimal(n: nat) -> Seq<char>
    decreases n,
{
    if n < 10 {
        seq!["0123456789"@[n as int]]
    } else {
        decimal(n / 10) + decimal(n % 10)
    }
}

/// Append the two hexadecimal digits of `byte`.
pub fn push_hex_pair(out: &mut String, byte: u8)
    ensures
        final(out)@ == old(out)@ + hex_pair(byte),
{
    let digits: &str = "0123456789abcdef";
    proof {
        reveal_strlit("0123456789abcdef");
    }
    let high: usize = byte as usize / 16;
    let low: usize = byte as usize % 16;
    out.append(digits.substring_char(high, high + 1));
    out.append(digits.substring_char(low, low + 1));
    assert(out@ =~= old(out)@ + hex_pair(byte));
}

/// Append the decimal digits of `n`.
pub fn push_decimal(out: &mut String, n: u16)
    ensures
        final(out)@ == old(out)@ + decimal(n as nat),
    decreases n,
{
    if n >= 10 {
        push_decimal(out, n / 10);
        push_decimal(out, n % 10);
        assert(out@ =~= old(out)@ + decimal(n as nat));
    } else {
        let digits: &str = "0123456789";
        proof {
            reveal_strlit("0123456789");
        }
        let digit: usize = n as usize;
        out.append(digits.substring_char(digit, digit + 1));
        assert(out@ =~= old(out)@ + decimal(n as nat));
    }
}

/// What a hexadecimal digit stands for; -1 for any other character.
pub open spec fn digit_value(c: char) -> int {
    if '0' as int <= c as int <= '9' as int {
        c as int - '0' as int
    } else if 'a' as int <= c as int <= 'f' as int {
        c as int - 'a' as int + 10
    } else if 'A' as int <= c as int <= 'F' as int {
        c as int - 'A' as int + 10
    } else {
        -1
    }
}

/// The number that decimal digits stand for.
pub open spec fn decimal_value(digits: Seq<char>) -> int
    decreases digits.len(),
{
    if digits.len() == 0 {
        0
    } else {
        10 * decimal_value(digits.drop_last()) + digit_value(digits.last())
    }
}

/// A byte reads back from its two digits, the high one first, and neither is an
/// upper-case letter.
pub proof fn lemma_hex_pair_reads_back(byte: u8)
    ensures
        hex_pair(byte).len() == 2,
        0 <= digit_value(hex_pair(byte)[0]) < 16,
        0 <= digit_value(hex_pair(byte)[1]) < 16,
        16 * digit_value(hex_pair(byte)[0]) + digit_value(hex_pair(byte)[1]) == byte,
        !('A' as int <= hex_pair(byte)[0] as int <= 'F' as int),
        !('A' as int <= hex_pair(byte)[1] as int <= 'F' as int),
{
    reveal_strlit("0123456789abcdef");
}

/// Hexadecimal text has two lower-case digits for each byte, from which the
/// byte reads back, in the order of the bytes and with nothing in between.
pub proof fn lemma_hex_reads_back(bytes: Seq<u8>, i: int)
    requires
        0 <= i < bytes.len(),
    ensures
        hex(bytes).len() == 2 * bytes.len(),
        0 <= digit_value(hex(bytes)[2 * i]) < 16,
        0 <= digit_value(hex(bytes)[2 * i + 1]) < 16,
        16 * digit_value(hex(bytes)[2 * i]) + digit_value(hex(bytes)[2 * i + 1]) == bytes[i],
        !('A' as int <= hex(bytes)[2 * i] as int <= 'F' as int),
        !('A' as int <= hex(bytes)[2 * i + 1] as int <= 'F' as int),
    decreases bytes.len(),
{
    let rest = bytes.drop_last();
    lemma_hex_pair_reads_back(bytes.last());
    lemma_hex_len(rest);
    if i < rest.len() {
        lemma_hex_reads_back(rest, i);
    }
}

proof fn lemma_hex_len(bytes: Seq<u8>)
    ensures
        hex(bytes).len() == 2 * bytes.len(),
    decreases bytes.len(),
{
    if bytes.len() > 0 {
        lemma_hex_len(bytes.drop_last());
    }
}

/// A number reads back from its decimal digits, all of which are digits, and the
/// first of which is 0 for the number 0 only.
pub proof fn lemma_decimal_reads_back(n: nat)
    ensures
        decimal(n).len() >= 1,
        decimal_value(decimal(n)) == n,
        forall|i: int| 0 <= i < decimal(n).len() ==> 0 <= digit_value(#[trigger] decimal(n)[i]) < 10,
        digit_value(decimal(n)[0]) == 0 ==> n == 0,
        n < 10 <==> decimal(n).len() == 1,
        n < 100 <==> decimal(n).len() <= 2,
    decreases n,
{
    reveal_strlit("0123456789");
    if n < 10 {
        assert(decimal(n).drop_last() =~= Seq::<char>::empty());
        assert(decimal_value(Seq::<char>::empty()) == 0);
    } else {
        lemma_decimal_reads_back(n / 10);
        lemma_decimal_reads_back(n % 10);
        assert(decimal(n % 10).len() == 1);
        assert(decimal(n).drop_last() =~= decimal(n / 10));
        assert(decimal(n).last() == decimal(n % 10)[0]);
        assert(decimal(n % 10).drop_last() =~= Seq::<char>::empty());
        assert(decimal_value(Seq::<char>::empty()) == 0);
        assert forall|i: int| 0 <= i < decimal(n).len() implies 0 <= digit_value(
            #[trigger] decimal(n)[i],
        ) < 10 by {
            if i < decimal(n / 10).len() {
                assert(decimal(n)[i] == decimal(n / 10)[i]);
            }
        }
        assert(decimal(n)[0] == decimal(n / 10)[0]);
    }
}

} // verus!
