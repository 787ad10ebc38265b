use vstd::prelude::*;
use crate::command::{Command, CommandV, NameOrAddress, NameOrAddressV};
use crate::text::str_to_chars;
use crate::types::{first_token_by_ticker, tokens_view, ERC20Token};

verus! {

pub open spec fn is_dec_digit(c: char) -> bool {
    48 <= c as u32 && c as u32 <= 57
}

pub open spec fn is_hex_digit(c: char) -> bool {
    is_dec_digit(c) || (97 <= c as u32 && c as u32 <= 102) || (65 <= c as u32 && c as u32 <= 70)
}

/// Every character from position `from` to the end is a hexadecimal digit.
pub open spec fn hex_run(s: Seq<char>, from: int) -> bool {
    forall|j: int| from <= j < s.len() ==> is_hex_digit(#[trigger] s[j])
}

/// Every character from position `from` to the end is a decimal digit.
pub open spec fn dec_run(s: Seq<char>, from: int) -> bool {
    forall|j: int| from <= j < s.len() ==> is_dec_digit(#[trigger] s[j])
}

pub open spec fn has_hex_prefix(s: Seq<char>) -> bool {
    s.len() >= 2 && s[0] == '0' && s[1] == 'x'
}

/// Transaction-hash syntax: thirty-two bytes in hexadecimal, written with
/// or without the usual prefix.
pub open spec fn is_transaction_hash(s: Seq<char>) -> bool {
    if has_hex_prefix(s) {
        s.len() == 66 && hex_run(s, 2)
    } else {
        s.len() == 64 && hex_run(s, 0)
    }
}

/// Address syntax: the prefix then twenty bytes in hexadecimal. Only
/// prefixed input is read as an address at all; anything unprefixed is
/// taken as a name.
pub open spec fn is_address_string(s: Seq<char>) -> bool {
    has_hex_prefix(s) && s.len() == 42 && hex_run(s, 2)
}

/// How an input resolves as a name or an address: prefixed input must be a
/// well-formed address or it resolves as nothing; anything else is a name.
pub open spec fn name_or_address_of(s: Seq<char>) -> Option<NameOrAddressV> {
    if has_hex_prefix(s) {
        if is_address_string(s) {
            Some(NameOrAddressV::Address(s))
        } else {
            None
        }
    } else {
        Some(NameOrAddressV::Name(s))
    }
}

pub open spec fn dec_digit_val(c: char) -> int {
    c as u32 - 48
}

/// The value of the decimal digits from position `from` to the end.
pub open spec fn dec_value_from(s: Seq<char>, from: int) -> int
    decreases s.len(),
{
    if s.len() <= from || s.len() == 0 {
        0
    } else {
        dec_value_from(s.drop_last(), from) * 10 + dec_digit_val(s.last())
    }
}

/// Where the digits of an unsigned decimal start: a single leading plus
/// sign is accepted.
pub open spec fn u64_digits_start(s: Seq<char>) -> int {
    if s.len() > 0 && s[0] == '+' {
        1
    } else {
        0
    }
}

/// Unsigned-integer syntax: an optional plus sign, then at least one
/// decimal digit, with a value that fits in sixty-four bits.
pub open spec fn is_u64_string(s: Seq<char>) -> bool {
    s.len() > u64_digits_start(s) && dec_run(s, u64_digits_start(s)) && dec_value_from(
        s,
        u64_digits_start(s),
    ) <= u64::MAX
}

proof fn lemma_dec_value_nonneg(s: Seq<char>, from: int)
    requires
        0 <= from,
        dec_run(s, from),
    ensures
        dec_value_from(s, from) >= 0,
    decreases s.len(),
{
    if s.len() > from {
        assert(dec_run(s.drop_last(), from));
        lemma_dec_value_nonneg(s.drop_last(), from);
    }
}

/// On an all-digit run, the value of a prefix never exceeds the value of
/// the whole: appending digits cannot shrink a nonnegative decimal.
proof fn lemma_dec_value_take_le(s: Seq<char>, from: int, k: int)
    requires
        0 <= from,
        from <= k <= s.len(),
        dec_run(s, from),
    ensures
        dec_value_from(s.take(k), from) <= dec_value_from(s, from),
    decreases s.len() - k,
{
    if k == s.len() {
        assert(s.take(k) =~= s);
    } else {
        assert(s.take(k + 1).drop_last() =~= s.take(k));
        assert(dec_run(s.take(k + 1), from));
        assert(dec_run(s.take(k), from));
        lemma_dec_value_nonneg(s.take(k), from);
        assert(s.take(k + 1).last() == s[k]);
        assert(is_dec_digit(s[k]));
        assert(dec_value_from(s.take(k), from) <= dec_value_from(s.take(k + 1), from));
        lemma_dec_value_take_le(s, from, k + 1);
    }
}

/// Read an unsigned integer exactly as the standard decimal grammar has
/// it: the result exists precisely for well-formed input whose value fits,
/// and is then that value.
pub fn parse_u64(input: &Vec<char>) -> (r: Option<u64>)
    ensures
        r is Some <==> is_u64_string(input@),
        match r {
            Some(v) => v == dec_value_from(input@, u64_digits_start(input@)),
            None => true,
        },
{
    let ghost s = input@;
    let n = input.len();
    let start: usize = if n > 0 && input[0] == '+' {
        1
    } else {
        0
    };
    assert(start as int == u64_digits_start(s));
    if n == start {
        return None;
    }
    let mut acc: u64 = 0;
    let mut i: usize = start;
    while i < n
        invariant
            start <= i <= n,
            n == input.len(),
            s == input@,
            start as int == u64_digits_start(s),
            start < n,
            dec_run(s.take(i as int), start as int),
            acc as int == dec_value_from(s.take(i as int), start as int),
        decreases n - i,
    {
        let c = input[i];
        let u = c as u32;
        proof {
            assert(s.take(i as int + 1).drop_last() =~= s.take(i as int));
            assert(s.take(i as int + 1).last() == s[i as int]);
        }
        if u < 48 || u > 57 {
            proof {
                assert(!is_dec_digit(s[i as int]));
                assert(!dec_run(s, start as int));
            }
            return None;
        }
        let d = (u - 48) as u64;
        assert(dec_value_from(s.take(i as int + 1), start as int) == acc as int * 10 + d as int);
        if acc > 1844674407370955161u64 || (acc == 1844674407370955161u64 && d > 5) {
            proof {
                assert(acc as int * 10 + d as int > u64::MAX);
                if dec_run(s, start as int) {
                    lemma_dec_value_take_le(s, start as int, i as int + 1);
                    assert(dec_value_from(s, start as int) > u64::MAX);
                }
                assert(!is_u64_string(s));
            }
            return None;
        }
        acc = acc * 10 + d;
        i = i + 1;
    }
    proof {
        assert(s.take(n as int) =~= s);
        assert(is_u64_string(s));
    }
    Some(acc)
}

/// Whether the input has transaction-hash syntax.
pub fn is_transaction_hash_input(input: &Vec<char>) -> (r: bool)
    ensures
        r == is_transaction_hash(input@),
{
    let ghost s = input@;
    let n = input.len();
    let prefixed = n >= 2 && input[0] == '0' && input[1] == 'x';
    let start: usize = if prefixed {
        2
    } else {
        0
    };
    let expected: usize = if prefixed {
        66
    } else {
        64
    };
    if n != expected {
        return false;
    }
    hex_run_from(input, start)
}

/// Whether every character from `start` on is a hexadecimal digit.
fn hex_run_from(input: &Vec<char>, start: usize) -> (r: bool)
    requires
        start <= input@.len(),
    ensures
        r == hex_run(input@, start as int),
{
    let ghost s = input@;
    let n = input.len();
    let mut i: usize = start;
    while i < n
        invariant
            start <= i <= n,
            n == input.len(),
            s == input@,
            forall|j: int| start <= j < i ==> is_hex_digit(#[trigger] s[j]),
        decreases n - i,
    {
        let u = input[i] as u32;
        let is_hex = (u >= 48 && u <= 57) || (u >= 97 && u <= 102) || (u >= 65 && u <= 70);
        if !is_hex {
            proof {
                assert(!is_hex_digit(s[i as int]));
            }
            return false;
        }
        i = i + 1;
    }
    true
}

/// Resolve the input as a name or an address, as the resolution grammar
/// has it.
pub fn parse_name_or_address(input: &String) -> (r: Option<NameOrAddress>)
    ensures
        match r {
            None => name_or_address_of(input@) is None,
            Some(x) => name_or_address_of(input@) == Some(x@),
        },
{
    let cs = str_to_chars(input.as_str());
    let n = cs.len();
    let prefixed = n >= 2 && cs[0] == '0' && cs[1] == 'x';
    if prefixed {
        if n == 42 && hex_run_from(&cs, 2) {
            Some(NameOrAddress::Address(input.clone()))
        } else {
            None
        }
    } else {
        Some(NameOrAddress::Name(input.clone()))
    }
}

/// How a committed query is classified, in fixed priority order: a
/// registered ticker first, then transaction-hash syntax, then a block
/// number, then a name-or-address resolution; input matching none of them
/// produces no command and is silently discarded.
pub open spec fn classify_spec(tokens: Seq<crate::types::ERC20TokenV>, input: Seq<char>) -> Option<
    CommandV,
> {
    if first_token_by_ticker(tokens, input) is Some {
        Some(
            CommandV::GetNameOrAddressInfo {
                name_or_address: NameOrAddressV::Address(
                    first_token_by_ticker(tokens, input)->Some_0.contract_address,
                ),
                is_searching: true,
            },
        )
    } else if is_transaction_hash(input) {
        Some(CommandV::GetTransactionWithReceipt { transaction_hash: input })
    } else if is_u64_string(input) {
        Some(
            CommandV::GetBlock {
                number: dec_value_from(input, u64_digits_start(input)) as u64,
            },
        )
    } else {
        match name_or_address_of(input) {
            Some(x) => Some(
                CommandV::GetNameOrAddressInfo { name_or_address: x, is_searching: true },
            ),
            None => None,
        }
    }
}

/// Turn a committed query into the command it asks for, if any.
pub fn classify(tokens: &Vec<ERC20Token>, input: &String) -> (r: Option<Command>)
    ensures
        match r {
            None => classify_spec(tokens_view(tokens@), input@) is None,
            Some(c) => classify_spec(tokens_view(tokens@), input@) == Some(c@),
        },
{
    if let Some(token) = ERC20Token::find_by_ticker(tokens, input) {
        return Some(
            Command::GetNameOrAddressInfo {
                name_or_address: NameOrAddress::Address(token.contract_address),
                is_searching: true,
            },
        );
    }
    let cs = str_to_chars(input.as_str());
    if is_transaction_hash_input(&cs) {
        return Some(Command::GetTransactionWithReceipt { transaction_hash: input.clone() });
    }
    if let Some(number) = parse_u64(&cs) {
        return Some(Command::GetBlock { number });
    }
    match parse_name_or_address(input) {
        Some(name_or_address) => Some(
            Command::GetNameOrAddressInfo { name_or_address, is_searching: true },
        ),
        None => None,
    }
}

} // verus!
