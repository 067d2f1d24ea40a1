//! Text building and searching used to form request paths and messages.
use vstd::prelude::*;
use vstd::string::*;
use vstd::utf8::{decode_utf8, valid_utf8};

verus! {

/// The character for a decimal digit.
pub open spec fn digit_char(d: nat) -> char {
    (48 + d) as char
}

/// The decimal digits of a natural number, most significant first.
pub open spec fn decimal(n: nat) -> Seq<char>
    decreases n,
{
    if n < 10 {
        seq![digit_char(n)]
    } else {
        decimal(n / 10).push(digit_char(n % 10))
    }
}

/// The decimal text of an integer, with a leading minus sign when negative.
pub open spec fn signed_decimal(i: int) -> Seq<char> {
    if i < 0 {
        seq!['-'] + decimal((-i) as nat)
    } else {
        decimal(i as nat)
    }
}

/// Whether a character is one of the ten decimal digits `0` to `9`.
pub open spec fn is_digit(c: char) -> bool {
    48 <= (c as u32) && (c as u32) <= 57
}

/// The number that a digit character stands for.
pub open spec fn digit_value(c: char) -> int {
    (c as u32) - 48
}

/// The number that a run of digits denotes when read in base 10, the most
/// significant digit first.
pub open spec fn decimal_value(s: Seq<char>) -> int
    decreases s.len(),
{
    if s.len() == 0 {
        0
    } else {
        decimal_value(s.drop_last()) * 10 + digit_value(s.last())
    }
}

/// Whether a text is a number written in base 10 in its usual form: one or
/// more digits, with no leading zero unless the number is zero itself.
pub open spec fn is_decimal_text(s: Seq<char>) -> bool {
    &&& s.len() > 0
    &&& forall|k: int| 0 <= k < s.len() ==> is_digit(#[trigger] s[k])
    &&& (s[0] == '0' ==> s.len() == 1)
}

/// The integer that a signed decimal text denotes: a leading `-` negates
/// the digits after it.
pub open spec fn signed_decimal_value(s: Seq<char>) -> int {
    if s.len() > 0 && s[0] == '-' {
        -decimal_value(s.drop_first())
    } else {
        decimal_value(s)
    }
}

/// Whether a text is an integer written in base 10 in its usual form: an
/// optional `-`, then a number in its usual form.
pub open spec fn is_signed_decimal_text(s: Seq<char>) -> bool {
    if s.len() > 0 && s[0] == '-' {
        is_decimal_text(s.drop_first())
    } else {
        is_decimal_text(s)
    }
}

/// The decimal text of a natural number is that number written in base 10
/// in its usual form: read back, most significant digit first, it gives
/// the number again, and it has no leading zero unless the number is zero.
pub proof fn law_decimal_reads_back(n: nat)
    ensures
        is_decimal_text(decimal(n)),
        decimal_value(decimal(n)) == n,
    decreases n,
{
    let s = decimal(n);
    if n < 10 {
        assert(s.drop_last() =~= Seq::<char>::empty());
        assert(s.last() == digit_char(n));
        assert((digit_char(n) as u32) == 48 + n);
        assert(decimal_value(Seq::<char>::empty()) == 0);
    } else {
        let q = (n / 10) as nat;
        let r = (n % 10) as nat;
        law_decimal_reads_back(q);
        let p = decimal(q);
        assert(s == p.push(digit_char(r)));
        assert(s.drop_last() =~= p);
        assert(s.last() == digit_char(r));
        assert((digit_char(r) as u32) == 48 + r);
        assert(n == q * 10 + r);
        assert(decimal_value(s) == q * 10 + r);
        assert forall|k: int| 0 <= k < s.len() implies is_digit(#[trigger] s[k]) by {
            if k < p.len() {
                assert(s[k] == p[k]);
            }
        }
        assert(s[0] == p[0]);
        if p[0] == '0' {
            assert(p.len() == 1);
            assert(p.drop_last() =~= Seq::<char>::empty());
            assert(p.last() == p[0]);
            assert(decimal_value(Seq::<char>::empty()) == 0);
            assert(decimal_value(p) == digit_value(p[0]));
        }
    }
}

/// The signed decimal text of an integer is that integer written in base 10
/// in its usual form: a `-` exactly when it is negative, then the digits of
/// its magnitude, most significant first; read back it gives the integer.
pub proof fn law_signed_decimal_reads_back(i: int)
    ensures
        is_signed_decimal_text(signed_decimal(i)),
        signed_decimal_value(signed_decimal(i)) == i,
        (signed_decimal(i)[0] == '-') <==> i < 0,
{
    let s = signed_decimal(i);
    if i < 0 {
        law_decimal_reads_back((-i) as nat);
        assert(s.drop_first() =~= decimal((-i) as nat));
    } else {
        law_decimal_reads_back(i as nat);
        let d = decimal(i as nat);
        assert(is_digit(d[0]));
    }
}

/// Whether `needle` occurs in `hay` as a contiguous run.
pub open spec fn has_substring(hay: Seq<char>, needle: Seq<char>) -> bool {
    exists|i: int| 0 <= i <= hay.len() - needle.len() && #[trigger] hay.subrange(i, i + needle.len()) == needle
}

/// The part of `s` before the first `c`, or all of `s` when there is none.
pub open spec fn segment_before(s: Seq<char>, c: char) -> Seq<char>
    decreases s.len(),
{
    if s.len() == 0 {
        s
    } else if s[0] == c {
        Seq::empty()
    } else {
        seq![s[0]] + segment_before(s.drop_first(), c)
    }
}

/// The part before the first `c` of a text that starts with a run free of
/// `c` followed by `c` is that run; a text free of `c` is its own part.
pub proof fn lemma_segment_before_prefix(head: Seq<char>, c: char, tail: Seq<char>)
    requires
        !head.contains(c),
    ensures
        segment_before(head + seq![c] + tail, c) == head,
        segment_before(head, c) == head,
    decreases head.len(),
{
    if head.len() == 0 {
        assert((head + seq![c] + tail)[0] == c);
    } else {
        let s = head + seq![c] + tail;
        assert(s.drop_first() =~= head.drop_first() + seq![c] + tail);
        assert(!head.drop_first().contains(c)) by {
            if head.drop_first().contains(c) {
                let k = choose|k: int| 0 <= k < head.drop_first().len() && head.drop_first()[k] == c;
                assert(head[k + 1] == c);
            }
        }
        lemma_segment_before_prefix(head.drop_first(), c, tail);
        assert(head[0] != c);
        assert(s[0] == head[0]);
        assert(seq![head[0]] + head.drop_first() =~= head);
    }
}

/// The part of `s` after the first `c`.
pub open spec fn segment_after(s: Seq<char>, c: char) -> Seq<char> {
    s.skip(segment_before(s, c).len() + 1 as int)
}

/// Appends one character to a string.
#[verifier::external_body]
pub(crate) fn string_push(s: &mut String, c: char)
    ensures
        final(s)@ == old(s)@.push(c),
{
    s.push(c)
}

/// The text that `String::from_utf8_lossy` makes of `bytes`: their UTF-8
/// decoding, with each invalid sequence replaced by U+FFFD.
pub uninterp spec fn utf8_lossy_text(bytes: Seq<u8>) -> Seq<char>;

/// Calls `String::from_utf8_lossy` and takes the text. Claimed: the text is
/// the named result, and for valid UTF-8 it is the decoding of the bytes, as
/// the function's documentation says.
#[verifier::external_body]
pub(crate) fn utf8_lossy(bytes: &[u8]) -> (res: String)
    ensures
        res@ == utf8_lossy_text(bytes@),
        valid_utf8(bytes@) ==> res@ == decode_utf8(bytes@),
{
    String::from_utf8_lossy(bytes).into_owned()
}

proof fn lemma_segment_before_index(s: Seq<char>, c: char, i: int)
    requires
        0 <= i <= s.len(),
        i < s.len() ==> s[i] == c,
        forall|j: int| 0 <= j < i ==> s[j] != c,
    ensures
        segment_before(s, c) == s.take(i),
    decreases s.len(),
{
    if s.len() > 0 && i > 0 {
        lemma_segment_before_index(s.drop_first(), c, i - 1);
        assert(s.take(i) =~= seq![s[0]] + s.drop_first().take(i - 1));
    } else if s.len() == 0 {
        assert(s.take(i) =~= s);
    } else {
        assert(s.take(i) =~= Seq::<char>::empty());
    }
}

/// A string holding the given text.
pub fn string_of(s: &str) -> (res: String)
    ensures
        res@ == s@,
{
    String::from_str(s)
}

/// Whether two strings hold the same text.
pub fn str_equal(a: &str, b: &str) -> (res: bool)
    ensures
        res == (a@ == b@),
{
    let x = String::from_str(a);
    let y = String::from_str(b);
    x == y
}

/// The index of the first `c` in `s`, if any.
pub fn first_index_of(s: &str, c: char) -> (res: Option<usize>)
    ensures
        res is None ==> !s@.contains(c),
        res matches Some(i) ==> i < s@.len() && s@[i as int] == c && forall|j: int|
            0 <= j < i ==> s@[j] != c,
        res matches Some(i) ==> segment_before(s@, c) == s@.take(i as int),
        res is None ==> segment_before(s@, c) == s@,
{
    let n = s.unicode_len();
    let mut i: usize = 0;
    while i < n
        invariant
            n == s@.len(),
            i <= n,
            forall|j: int| 0 <= j < i ==> s@[j] != c,
        decreases n - i,
    {
        if s.get_char(i) == c {
            proof {
                lemma_segment_before_index(s@, c, i as int);
            }
            return Some(i);
        }
        i += 1;
    }
    proof {
        lemma_segment_before_index(s@, c, n as int);
        assert(s@.take(n as int) =~= s@);
    }
    None
}

/// The characters of a string, one by one.
pub fn chars_of(s: &str) -> (res: Vec<char>)
    ensures
        res@ == s@,
{
    let n = s.unicode_len();
    let mut v: Vec<char> = Vec::new();
    let mut i: usize = 0;
    while i < n
        invariant
            n == s@.len(),
            i <= n,
            v@ == s@.take(i as int),
        decreases n - i,
    {
        v.push(s.get_char(i));
        i += 1;
        proof {
            assert(v@ =~= s@.take(i as int));
        }
    }
    proof {
        assert(s@.take(n as int) =~= s@);
    }
    v
}

/// Whether `needle` occurs in `hay`.
pub fn contains_text(hay: &str, needle: &str) -> (res: bool)
    ensures
        res == has_substring(hay@, needle@),
{
    let h = chars_of(hay);
    let nd = chars_of(needle);
    let hl = h.len();
    let nl = nd.len();
    if nl > hl {
        return false;
    }
    let mut i: usize = 0;
    while i <= hl - nl
        invariant
            h@ == hay@,
            nd@ == needle@,
            hl == h@.len(),
            nl == nd@.len(),
            nl <= hl,
            i <= hl - nl + 1,
            forall|k: int| 0 <= k < i ==> #[trigger] hay@.subrange(k, k + nl) != needle@,
        decreases hl - nl + 1 - i,
    {
        let mut j: usize = 0;
        let mut same = true;
        while j < nl
            invariant
                h@ == hay@,
                nd@ == needle@,
                hl == h@.len(),
                nl == nd@.len(),
                i + nl <= hl,
                j <= nl,
                same == (forall|m: int| 0 <= m < j ==> h@[i + m] == nd@[m]),
            decreases nl - j,
        {
            if h[i + j] != nd[j] {
                same = false;
            }
            j += 1;
        }
        if same {
            proof {
                assert(hay@.subrange(i as int, i + nl) =~= needle@);
            }
            return true;
        }
        proof {
            assert(!same);
            let m = choose|m: int| 0 <= m < nl && h@[i + m] != nd@[m];
            assert(hay@.subrange(i as int, i + nl)[m] != needle@[m]);
        }
        i += 1;
    }
    false
}

/// `a + b + c + d`
pub fn concat4(a: &str, b: &str, c: &str, d: &str) -> (res: String)
    ensures
        res@ == a@ + b@ + c@ + d@,
{
    let mut s = String::from_str(a);
    s.append(b);
    s.append(c);
    s.append(d);
    s
}

/// Appends the decimal digits of `n` to `s`.
pub fn push_decimal(s: &mut String, n: u64)
    ensures
        final(s)@ == old(s)@ + decimal(n as nat),
    decreases n,
{
    if n >= 10 {
        push_decimal(s, n / 10);
    }
    let d = (n % 10) as u8;
    let c = (d + 48u8) as char;
    proof {
        assert(c == digit_char((n % 10) as nat));
    }
    string_push(s, c);
    proof {
        assert(s@ =~= old(s)@ + decimal(n as nat));
    }
}

/// The decimal text of an unsigned number.
pub fn u64_to_text(n: u64) -> (res: String)
    ensures
        res@ == decimal(n as nat),
{
    let mut s = String::new();
    push_decimal(&mut s, n);
    proof {
        assert(s@ =~= decimal(n as nat));
    }
    s
}

/// The decimal text of a signed number.
pub fn i64_to_text(i: i64) -> (res: String)
    ensures
        res@ == signed_decimal(i as int),
{
    let mut s = String::new();
    if i < 0 {
        string_push(&mut s, '-');
        let m: u64 = if i == i64::MIN {
            9223372036854775808u64
        } else {
            (-i) as u64
        };
        push_decimal(&mut s, m);
        proof {
            assert(s@ =~= signed_decimal(i as int));
        }
    } else {
        push_decimal(&mut s, i as u64);
        proof {
            assert(s@ =~= signed_decimal(i as int));
        }
    }
    s
}

} // verus!
