use vstd::prelude::*;

use vstd::string::StrSliceExecFns;

verus! {

/// Appends one character (std's `String::push`).
#[verifier::external_body]
pub fn push_char(s: &mut String, c: char)
    ensures
        final(s)@ == old(s)@.push(c),
{
    s.push(c)
}

/// The result of `str::to_lowercase` (std): Unicode lowercase mapping, which may change
/// the number of characters.
pub uninterp spec fn lowercase(s: Seq<char>) -> Seq<char>;

/// std's `str::to_lowercase`; the contract only names its result.
#[verifier::external_body]
pub fn to_lowercase(s: &str) -> (r: String)
    ensures
        r@ == lowercase(s@),
{
    s.to_lowercase()
}

pub open spec fn digit_char(d: nat) -> char {
    if d == 0 {
        '0'
    } else if d == 1 {
        '1'
    } else if d == 2 {
        '2'
    } else if d == 3 {
        '3'
    } else if d == 4 {
        '4'
    } else if d == 5 {
        '5'
    } else if d == 6 {
        '6'
    } else if d == 7 {
        '7'
    } else if d == 8 {
        '8'
    } else {
        '9'
    }
}

/// Decimal digits of a natural number, most significant first, no leading zeros.
pub open spec fn decimal(n: nat) -> Seq<char>
    decreases n,
{
    if n < 10 {
        seq![digit_char(n)]
    } else {
        decimal(n / 10).push(digit_char(n % 10))
    }
}

/// Decimal form of an integer as Rust's `to_string` writes it: a `-` before negative numbers.
pub open spec fn signed_decimal(n: int) -> Seq<char> {
    if n < 0 {
        seq!['-'] + decimal((-n) as nat)
    } else {
        decimal(n as nat)
    }
}

/// Commas between groups of three characters, counted from the right.
pub open spec fn group_thousands(s: Seq<char>) -> Seq<char>
    decreases s.len(),
{
    if s.len() <= 3 {
        s
    } else {
        group_thousands(s.subrange(0, s.len() - 3)) + seq![','] + s.subrange(s.len() - 3, s.len() as int)
    }
}

/// `needle` occurs in `hay` starting at position `i`.
pub open spec fn occurs_at(hay: Seq<char>, needle: Seq<char>, i: int) -> bool {
    0 <= i && i + needle.len() <= hay.len() && hay.subrange(i, i + needle.len()) == needle
}

/// `needle` occurs somewhere in `hay` (the empty string occurs in every string).
pub open spec fn is_infix(needle: Seq<char>, hay: Seq<char>) -> bool {
    exists|i: int| occurs_at(hay, needle, i)
}

fn digit(d: u64) -> (c: char)
    requires
        d < 10,
    ensures
        c == digit_char(d as nat),
{
    if d == 0 {
        '0'
    } else if d == 1 {
        '1'
    } else if d == 2 {
        '2'
    } else if d == 3 {
        '3'
    } else if d == 4 {
        '4'
    } else if d == 5 {
        '5'
    } else if d == 6 {
        '6'
    } else if d == 7 {
        '7'
    } else if d == 8 {
        '8'
    } else {
        '9'
    }
}

/// Appends the decimal digits of `n`.
pub fn push_decimal(s: &mut String, n: u64)
    ensures
        final(s)@ == old(s)@ + decimal(n as nat),
    decreases n,
{
    if n >= 10 {
        push_decimal(s, n / 10);
    }
    push_char(s, digit(n % 10));
    proof {
        if n < 10 {
            assert(decimal(n as nat) == seq![digit_char(n as nat)]);
        }
    }
}

/// Appends the decimal form of `n`, with a `-` for negative numbers.
pub fn push_signed_decimal(s: &mut String, n: i64)
    ensures
        final(s)@ == old(s)@ + signed_decimal(n as int),
{
    if n < 0 {
        push_char(s, '-');
        let m = (0i128 - n as i128) as u64;
        push_decimal(s, m);
        proof {
            assert(old(s)@.push('-') + decimal(m as nat) =~= old(s)@ + (seq!['-'] + decimal(m as nat)));
        }
    } else {
        push_decimal(s, n as u64);
    }
}

/// The decimal form of an unsigned number (`to_string`).
pub fn decimal_string(n: u64) -> (r: String)
    ensures
        r@ == decimal(n as nat),
{
    let mut s = String::new();
    push_decimal(&mut s, n);
    proof {
        assert(Seq::<char>::empty() + decimal(n as nat) =~= decimal(n as nat));
    }
    s
}

/// The decimal form of a signed number (`to_string`).
pub fn signed_decimal_string(n: i64) -> (r: String)
    ensures
        r@ == signed_decimal(n as int),
{
    let mut s = String::new();
    push_signed_decimal(&mut s, n);
    proof {
        assert(Seq::<char>::empty() + signed_decimal(n as int) =~= signed_decimal(n as int));
    }
    s
}

/// The characters of a string, in order.
pub fn to_chars(s: &str) -> (r: Vec<char>)
    ensures
        r@ == s@,
{
    let n = s.unicode_len();
    let mut v: Vec<char> = Vec::new();
    let mut i: usize = 0;
    while i < n
        invariant
            n == s@.len(),
            i <= n,
            v@ == s@.take(i as int),
        decreases n - i,
    {
        v.push(s.get_char(i));
        proof {
            assert(s@.take(i + 1) =~= s@.take(i as int).push(s@[i as int]));
        }
        i = i + 1;
    }
    proof {
        assert(s@.take(n as int) =~= s@);
    }
    v
}

fn push_grouped(out: &mut String, s: &Vec<char>, len: usize)
    requires
        len <= s@.len(),
    ensures
        final(out)@ == old(out)@ + group_thousands(s@.take(len as int)),
    decreases len,
{
    let ghost t = s@.take(len as int);
    if len <= 3 {
        let mut i: usize = 0;
        while i < len
            invariant
                len <= s@.len(),
                i <= len,
                t == s@.take(len as int),
                out@ == old(out)@ + t.take(i as int),
            decreases len - i,
        {
            push_char(out, s[i]);
            proof {
                assert(t.take(i + 1) =~= t.take(i as int).push(t[i as int]));
                assert(old(out)@ + t.take(i + 1) =~= (old(out)@ + t.take(i as int)).push(t[i as int]));
            }
            i = i + 1;
        }
        proof {
            assert(t.take(len as int) =~= t);
        }
    } else {
        push_grouped(out, s, len - 3);
        let ghost mid = out@;
        push_char(out, ',');
        push_char(out, s[len - 3]);
        push_char(out, s[len - 2]);
        push_char(out, s[len - 1]);
        proof {
            assert(t.subrange(0, t.len() - 3) =~= s@.take(len - 3));
            assert(t.subrange(t.len() - 3, t.len() as int) =~= seq![s@[len - 3], s@[len - 2], s@[len - 1]]);
            assert(out@ =~= old(out)@ + (group_thousands(s@.take(len - 3)) + seq![','] + t.subrange(
                t.len() - 3,
                t.len() as int,
            )));
        }
    }
}

/// The text of a number with commas between thousands: the digits of its magnitude
/// grouped by three from the right, after a `-` for negative numbers.
pub open spec fn formatted(n: int) -> Seq<char> {
    if n < 0 {
        seq!['-'] + group_thousands(decimal((-n) as nat))
    } else {
        group_thousands(decimal(n as nat))
    }
}

/// Formats a number with commas between thousands: `12345` gives `"12,345"` and
/// `-123456` gives `"-123,456"`.
pub fn format_number(n: i64) -> (r: String)
    ensures
        r@ == formatted(n as int),
{
    let mut out = String::new();
    let m: u64 = if n < 0 {
        push_char(&mut out, '-');
        (0i128 - n as i128) as u64
    } else {
        n as u64
    };
    let digits = decimal_string(m);
    let chars = to_chars(digits.as_str());
    let ghost before = out@;
    push_grouped(&mut out, &chars, chars.len());
    proof {
        assert(chars@.take(chars@.len() as int) =~= chars@);
        if n < 0 {
            assert(before =~= seq!['-']);
        } else {
            assert(before + group_thousands(chars@) =~= group_thousands(chars@));
        }
    }
    out
}

/// Whether `needle` occurs in `hay` (std's `str::contains` for a string pattern).
pub fn contains_str(hay: &str, needle: &str) -> (r: bool)
    ensures
        r == is_infix(needle@, hay@),
{
    let h = to_chars(hay);
    let nd = to_chars(needle);
    let hl = h.len();
    let nl = nd.len();
    if nl > hl {
        proof {
            assert forall|i: int| !occurs_at(hay@, needle@, i) by {}
        }
        return false;
    }
    let mut i: usize = 0;
    while i <= hl - nl
        invariant
            h@ == hay@,
            nd@ == needle@,
            hl == h@.len(),
            nl == nd@.len(),
            nl <= hl,
            i <= hl - nl + 1,
            forall|k: int| 0 <= k < i ==> !occurs_at(hay@, needle@, k),
        decreases hl - nl + 1 - i,
    {
        let mut j: usize = 0;
        let mut same = true;
        while j < nl
            invariant
                h@ == hay@,
                nd@ == needle@,
                hl == h@.len(),
                nl == nd@.len(),
                i + nl <= hl,
                j <= nl,
                same == (forall|m: int| 0 <= m < j ==> h@[i + m] == nd@[m]),
            decreases nl - j,
        {
            if h[i + j] != nd[j] {
                same = false;
            }
            j = j + 1;
        }
        if same {
            proof {
                assert(hay@.subrange(i as int, i + nl) =~= needle@);
                assert(occurs_at(hay@, needle@, i as int));
            }
            return true;
        }
        proof {
            assert(!occurs_at(hay@, needle@, i as int)) by {
                if hay@.subrange(i as int, i + nl) == needle@ {
                    assert forall|m: int| 0 <= m < nl implies h@[i + m] == nd@[m] by {
                        assert(hay@.subrange(i as int, i + nl)[m] == hay@[i + m]);
                    }
                }
            }
        }
        i = i + 1;
    }
    proof {
        assert forall|k: int| !occurs_at(hay@, needle@, k) by {
            if occurs_at(hay@, needle@, k) {
                assert(0 <= k < i);
            }
        }
    }
    false
}

/// Whether a name passes a name filter: no filter passes everything; otherwise the
/// filter must occur in the name, case-insensitively (both lowercased).
pub fn name_matches(name: &str, filter: Option<&str>) -> (r: bool)
    ensures
        r == match filter {
            None => true,
            Some(f) => is_infix(lowercase(f@), lowercase(name@)),
        },
{
    match filter {
        None => true,
        Some(f) => {
            let n = to_lowercase(name);
            let fl = to_lowercase(f);
            contains_str(n.as_str(), fl.as_str())
        },
    }
}

/// Names starting with `_` are Kafka's internal topics, hidden from the lists.
pub open spec fn is_internal(name: Seq<char>) -> bool {
    name.len() > 0 && name[0] == '_'
}

pub fn is_internal_name(name: &str) -> (r: bool)
    ensures
        r == is_internal(name@),
{
    let n = name.unicode_len();
    n > 0 && name.get_char(0) == '_'
}

} // verus!
