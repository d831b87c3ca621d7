//! Rendering numbers as text, verified character by character.
//!
//! The address types render themselves as strings (dotted-quad IPv4,
//! compressed colon-hex IPv6, `ip:port` endpoints); this module supplies the
//! exactly-specified decimal and hexadecimal pieces they are built from.

use vstd::prelude::*;
use vstd::string::StringExecFns;

verus! {

/// The character of digit `d`: `0`–`9`, then `a`–`f`.
pub open spec fn spec_digit(d: int) -> char {
    if d == 0 {
        '0'
    } else if d == 1 {
        '1'
    } else if d == 2 {
        '2'
    } else if d == 3 {
        '3'
    } else if d == 4 {
        '4'
    } else if d == 5 {
        '5'
    } else if d == 6 {
        '6'
    } else if d == 7 {
        '7'
    } else if d == 8 {
        '8'
    } else if d == 9 {
        '9'
    } else if d == 10 {
        'a'
    } else if d == 11 {
        'b'
    } else if d == 12 {
        'c'
    } else if d == 13 {
        'd'
    } else if d == 14 {
        'e'
    } else {
        'f'
    }
}

/// The decimal rendering of `n`: most significant digit first, no leading
/// zeros, a single `0` for zero.
pub open spec fn spec_dec(n: int) -> Seq<char>
    recommends
        n >= 0,
    decreases n,
{
    if n < 10 {
        seq![spec_digit(n)]
    } else {
        spec_dec(n / 10).push(spec_digit(n % 10))
    }
}

/// The lowercase hexadecimal rendering of `n`: most significant digit first,
/// no leading zeros, a single `0` for zero.
pub open spec fn spec_hex(n: int) -> Seq<char>
    recommends
        n >= 0,
    decreases n,
{
    if n < 16 {
        seq![spec_digit(n)]
    } else {
        spec_hex(n / 16).push(spec_digit(n % 16))
    }
}

/// The characters a stack of digits spells once popped: `ds` holds digit
/// values least significant first, so the rendering reads it back to front.
pub open spec fn digit_stack_chars(ds: Seq<u8>) -> Seq<char> {
    Seq::new(ds.len(), |i: int| spec_digit(ds[ds.len() - 1 - i] as int))
}

/// Pushing a digit onto the stack prepends its character to the rendering.
proof fn lemma_digit_stack_push(ds: Seq<u8>, d: u8)
    ensures
        digit_stack_chars(ds.push(d)) =~= seq![spec_digit(d as int)] + digit_stack_chars(ds),
{
}

/// Append the single digit `d` as its character.
fn append_digit(s: &mut String, d: u8)
    requires
        d < 16,
    ensures
        final(s)@ == old(s)@ + seq![spec_digit(d as int)],
{
    proof {
        reveal_strlit("0");
        reveal_strlit("1");
        reveal_strlit("2");
        reveal_strlit("3");
        reveal_strlit("4");
        reveal_strlit("5");
        reveal_strlit("6");
        reveal_strlit("7");
        reveal_strlit("8");
        reveal_strlit("9");
        reveal_strlit("a");
        reveal_strlit("b");
        reveal_strlit("c");
        reveal_strlit("d");
        reveal_strlit("e");
        reveal_strlit("f");
    }
    match d {
        0 => s.append("0"),
        1 => s.append("1"),
        2 => s.append("2"),
        3 => s.append("3"),
        4 => s.append("4"),
        5 => s.append("5"),
        6 => s.append("6"),
        7 => s.append("7"),
        8 => s.append("8"),
        9 => s.append("9"),
        10 => s.append("a"),
        11 => s.append("b"),
        12 => s.append("c"),
        13 => s.append("d"),
        14 => s.append("e"),
        _ => s.append("f"),
    }
    assert(s@ =~= old(s)@ + seq![spec_digit(d as int)]);
}

/// Append the decimal rendering of `n`.
pub fn append_dec(s: &mut String, n: u32)
    ensures
        final(s)@ == old(s)@ + spec_dec(n as int),
{
    let mut digits: Vec<u8> = Vec::new();
    let mut m: u32 = n;
    digits.push((m % 10) as u8);
    proof {
        lemma_digit_stack_push(Seq::empty(), (m % 10) as u8);
        assert(digit_stack_chars(Seq::<u8>::empty()) =~= Seq::<char>::empty());
        assert(seq![spec_digit((n % 10) as int)] + Seq::<char>::empty() =~= seq![
            spec_digit((n % 10) as int),
        ]);
    }
    m = m / 10;
    while m > 0
        invariant
            forall|j: int| 0 <= j < digits@.len() ==> digits@[j] < 10,
            m == 0 ==> spec_dec(n as int) =~= digit_stack_chars(digits@),
            m > 0 ==> spec_dec(n as int) =~= spec_dec(m as int) + digit_stack_chars(digits@),
        decreases m,
    {
        let d = (m % 10) as u8;
        proof {
            lemma_digit_stack_push(digits@, d);
            if m >= 10 {
                assert(spec_dec(m as int) == spec_dec((m / 10) as int).push(
                    spec_digit((m % 10) as int),
                ));
                assert(spec_dec(n as int) =~= spec_dec((m / 10) as int) + digit_stack_chars(
                    digits@.push(d),
                ));
            } else {
                assert(spec_dec(m as int) =~= seq![spec_digit(d as int)]);
                assert(spec_dec(n as int) =~= digit_stack_chars(digits@.push(d)));
            }
        }
        digits.push(d);
        m = m / 10;
    }
    append_digit_stack(s, &digits);
}

/// Append the hexadecimal rendering of `n`.
pub fn append_hex(s: &mut String, n: u16)
    ensures
        final(s)@ == old(s)@ + spec_hex(n as int),
{
    let mut digits: Vec<u8> = Vec::new();
    let mut m: u16 = n;
    digits.push((m % 16) as u8);
    proof {
        lemma_digit_stack_push(Seq::empty(), (m % 16) as u8);
        assert(digit_stack_chars(Seq::<u8>::empty()) =~= Seq::<char>::empty());
        assert(seq![spec_digit((n % 16) as int)] + Seq::<char>::empty() =~= seq![
            spec_digit((n % 16) as int),
        ]);
    }
    m = m / 16;
    while m > 0
        invariant
            forall|j: int| 0 <= j < digits@.len() ==> digits@[j] < 16,
            m == 0 ==> spec_hex(n as int) =~= digit_stack_chars(digits@),
            m > 0 ==> spec_hex(n as int) =~= spec_hex(m as int) + digit_stack_chars(digits@),
        decreases m,
    {
        let d = (m % 16) as u8;
        proof {
            lemma_digit_stack_push(digits@, d);
            if m >= 16 {
                assert(spec_hex(m as int) == spec_hex((m / 16) as int).push(
                    spec_digit((m % 16) as int),
                ));
                assert(spec_hex(n as int) =~= spec_hex((m / 16) as int) + digit_stack_chars(
                    digits@.push(d),
                ));
            } else {
                assert(spec_hex(m as int) =~= seq![spec_digit(d as int)]);
                assert(spec_hex(n as int) =~= digit_stack_chars(digits@.push(d)));
            }
        }
        digits.push(d);
        m = m / 16;
    }
    append_digit_stack(s, &digits);
}

/// Append a whole digit stack, most significant digit (stack top) first.
fn append_digit_stack(s: &mut String, digits: &Vec<u8>)
    requires
        forall|j: int| 0 <= j < digits@.len() ==> digits@[j] < 16,
    ensures
        final(s)@ == old(s)@ + digit_stack_chars(digits@),
{
    let mut i: usize = digits.len();
    while i > 0
        invariant
            i <= digits@.len(),
            forall|j: int| 0 <= j < digits@.len() ==> digits@[j] < 16,
            s@ =~= old(s)@ + digit_stack_chars(digits@).subrange(
                0,
                digits@.len() - i,
            ),
        decreases i,
    {
        i = i - 1;
        append_digit(s, digits[i]);
        assert(s@ =~= old(s)@ + digit_stack_chars(digits@).subrange(0, digits@.len() - i));
    }
    assert(digit_stack_chars(digits@).subrange(0, digits@.len() as int) =~= digit_stack_chars(
        digits@,
    ));
}

/// Append a single `:`.
pub fn append_colon(s: &mut String)
    ensures
        final(s)@ == old(s)@ + seq![':'],
{
    proof {
        reveal_strlit(":");
    }
    s.append(":");
    assert(s@ =~= old(s)@ + seq![':']);
}

/// Append a single `.`.
pub fn append_dot(s: &mut String)
    ensures
        final(s)@ == old(s)@ + seq!['.'],
{
    proof {
        reveal_strlit(".");
    }
    s.append(".");
    assert(s@ =~= old(s)@ + seq!['.']);
}

/// The length of the run of zero segments starting at `i`: zero when `i` is
/// outside the sequence or the segment there is nonzero.
pub open spec fn run_len(s: Seq<u16>, i: int) -> int
    decreases s.len() - i,
{
    if i < 0 || i >= s.len() {
        0
    } else if s[i] != 0 {
        0
    } else {
        1 + run_len(s, i + 1)
    }
}

/// A zero run never reaches past the end of the sequence.
pub proof fn lemma_run_len_bound(s: Seq<u16>, i: int)
    requires
        0 <= i <= s.len(),
    ensures
        0 <= run_len(s, i) <= s.len() - i,
    decreases s.len() - i,
{
    if i < s.len() && s[i] == 0 {
        lemma_run_len_bound(s, i + 1);
    }
}

/// The leftmost longest run of zero segments at or after `i`: its start and
/// its length.  An earlier run wins every tie, and a sequence with no zero
/// segment at all yields a run of length zero.
pub open spec fn best_zero_run(s: Seq<u16>, i: int) -> (int, int)
    decreases s.len() - i,
{
    if i >= s.len() {
        (s.len() as int, 0)
    } else {
        let cur = run_len(s, i);
        let rest = best_zero_run(s, i + 1);
        if cur >= rest.1 {
            (i, cur)
        } else {
            rest
        }
    }
}

/// The best run is a real run: it starts inside the sequence (or at its end)
/// and its length is the length of the zero run at its start.
pub proof fn lemma_best_zero_run_props(s: Seq<u16>, i: int)
    requires
        0 <= i <= s.len(),
    ensures
        ({
            let b = best_zero_run(s, i);
            i <= b.0 <= s.len() && b.1 == run_len(s, b.0)
        }),
    decreases s.len() - i,
{
    if i < s.len() {
        lemma_best_zero_run_props(s, i + 1);
    }
}

/// The hexadecimal renderings of segments `i` (inclusive) to `j` (exclusive),
/// joined by `:`.
pub open spec fn spec_hex_groups(s: Seq<u16>, i: int, j: int) -> Seq<char>
    decreases j - i,
{
    if i >= j {
        Seq::empty()
    } else if i + 1 == j {
        spec_hex(s[i] as int)
    } else {
        spec_hex(s[i] as int) + seq![':'] + spec_hex_groups(s, i + 1, j)
    }
}

/// Extending a group range by one segment appends a separator (unless the
/// range was empty) and the segment's rendering.
proof fn lemma_hex_groups_snoc(s: Seq<u16>, i: int, j: int)
    requires
        0 <= i <= j < s.len(),
    ensures
        spec_hex_groups(s, i, j + 1) =~= spec_hex_groups(s, i, j) + (if j > i {
            seq![':']
        } else {
            Seq::<char>::empty()
        }) + spec_hex(s[j] as int),
    decreases j - i,
{
    if i < j {
        lemma_hex_groups_snoc(s, i + 1, j);
        assert(spec_hex_groups(s, i, j + 1) =~= spec_hex_groups(s, i, j) + seq![':'] + spec_hex(
            s[j] as int,
        ));
    }
}

/// The canonical compressed colon-hex rendering of eight 16-bit segments:
/// every segment in lowercase hexadecimal without leading zeros, joined by
/// `:`, with the leftmost longest run of two or more zero segments elided as
/// `::`.
pub open spec fn spec_ipv6_chars(s: Seq<u16>) -> Seq<char> {
    let best = best_zero_run(s, 0);
    if best.1 >= 2 {
        spec_hex_groups(s, 0, best.0) + seq![':', ':'] + spec_hex_groups(
            s,
            best.0 + best.1,
            s.len() as int,
        )
    } else {
        spec_hex_groups(s, 0, s.len() as int)
    }
}

/// Append the `:`-joined hexadecimal renderings of segments `from..to`.
fn append_hex_groups(s: &mut String, segs: &[u16; 8], from: usize, to: usize)
    requires
        from <= to <= 8,
    ensures
        final(s)@ == old(s)@ + spec_hex_groups(segs@, from as int, to as int),
{
    let mut k: usize = from;
    assert(s@ =~= old(s)@ + spec_hex_groups(segs@, from as int, from as int));
    while k < to
        invariant
            from <= k <= to <= 8,
            segs@.len() == 8,
            s@ =~= old(s)@ + spec_hex_groups(segs@, from as int, k as int),
        decreases to - k,
    {
        if k > from {
            append_colon(s);
        }
        append_hex(s, segs[k]);
        proof {
            lemma_hex_groups_snoc(segs@, from as int, k as int);
            assert(s@ =~= old(s)@ + spec_hex_groups(segs@, from as int, k + 1));
        }
        k = k + 1;
    }
}

/// Append the canonical compressed colon-hex rendering of eight segments.
pub fn append_ipv6(s: &mut String, segs: &[u16; 8])
    ensures
        final(s)@ == old(s)@ + spec_ipv6_chars(segs@),
{
    let ghost sq = segs@;
    let mut bs: usize = 8;
    let mut bl: usize = 0;
    let mut run: usize = 0;
    let mut i: usize = 8;
    while i > 0
        invariant
            i <= 8,
            sq == segs@,
            sq.len() == 8,
            run as int == run_len(sq, i as int),
            run as int <= 8 - i,
            bs <= 8,
            bl <= 8,
            (bs as int, bl as int) == best_zero_run(sq, i as int),
        decreases i,
    {
        i = i - 1;
        proof {
            lemma_run_len_bound(sq, i as int);
        }
        let cur: usize = if segs[i] != 0 {
            0
        } else {
            run + 1
        };
        if cur >= bl {
            bs = i;
            bl = cur;
        }
        run = cur;
    }
    if bl >= 2 {
        append_hex_groups(s, segs, 0, bs);
        append_colon(s);
        append_colon(s);
        assert(bs + bl <= 8) by {
            lemma_best_zero_run_props(sq, 0);
            lemma_run_len_bound(sq, bs as int);
        }
        append_hex_groups(s, segs, bs + bl, 8);
        assert(s@ =~= old(s)@ + spec_ipv6_chars(sq));
    } else {
        append_hex_groups(s, segs, 0, 8);
        assert(s@ =~= old(s)@ + spec_ipv6_chars(sq));
    }
}

/// Relies on `String::from_utf8_lossy` of the standard library: for input
/// that is valid UTF-8 the result is exactly the decoded character sequence
/// (invalid sequences are replaced, about which nothing is claimed).
#[verifier::external_body]
pub fn lossy_utf8(bytes: &Vec<u8>) -> (r: String)
    ensures
        vstd::utf8::valid_utf8(bytes@) ==> r@ == vstd::utf8::decode_utf8(bytes@),
{
    String::from_utf8_lossy(bytes.as_slice()).into_owned()
}

} // verus!
