//! Small text routines that the store's rules are written with: decimal
//! rendering of identifiers and timestamps, a substring test on bytes, and
//! the joining of path segments.

use vstd::prelude::*;
use vstd::string::*;

verus! {

/// The character that stands for the digit `d`.
pub open spec fn digit_char(d: int) -> char {
    "0123456789"@[d]
}

/// The decimal digits of a natural number, most significant first, without
/// leading zeros.
pub open spec fn nat_digits(n: nat) -> Seq<char>
    decreases n,
{
    if n < 10 {
        seq![digit_char(n as int)]
    } else {
        nat_digits(n / 10).push(digit_char((n % 10) as int))
    }
}

/// The decimal text of an integer: a minus sign for a negative number, then
/// the digits of its magnitude.
pub open spec fn decimal_text(n: int) -> Seq<char> {
    if n < 0 {
        seq!['-'] + nat_digits((-n) as nat)
    } else {
        nat_digits(n as nat)
    }
}

/// Whether `needle` occurs in `hay` as a contiguous run of bytes.
pub open spec fn contains_bytes(hay: Seq<u8>, needle: Seq<u8>) -> bool {
    exists|i: int| occurs_at(hay, needle, i)
}

/// Whether `needle` occurs in `hay` starting at index `i`.
pub open spec fn occurs_at(hay: Seq<u8>, needle: Seq<u8>, i: int) -> bool {
    &&& 0 <= i
    &&& i + needle.len() <= hay.len()
    &&& hay.subrange(i, i + needle.len()) == needle
}

/// A path with one more segment: the separator is added unless the base is
/// empty or already ends with it.
pub open spec fn joined(base: Seq<char>, child: Seq<char>) -> Seq<char> {
    if base.len() > 0 && base.last() != '/' {
        base + seq!['/'] + child
    } else {
        base + child
    }
}

/// The text without the slashes at its end.
pub open spec fn without_trailing_slashes(s: Seq<char>) -> Seq<char>
    decreases s.len(),
{
    if s.len() > 0 && s.last() == '/' {
        without_trailing_slashes(s.drop_last())
    } else {
        s
    }
}

/// Whether no text occurs twice in the list.
pub open spec fn distinct(texts: Seq<Seq<char>>) -> bool {
    forall|i: int, j: int| 0 <= i < j < texts.len() ==> texts[i] != texts[j]
}

/// The views of a list of borrowed texts.
pub open spec fn text_views(texts: Seq<&String>) -> Seq<Seq<char>> {
    Seq::new(texts.len(), |i: int| texts[i]@)
}

/// Different digits have different characters, and none is the minus sign.
pub proof fn lemma_digit_chars(a: int, b: int)
    requires
        0 <= a < 10,
        0 <= b < 10,
    ensures
        digit_char(a) != '-',
        digit_char(a) == digit_char(b) ==> a == b,
{
    reveal_strlit("0123456789");
}

/// The digits of a number are never empty.
pub proof fn lemma_nat_digits_nonempty(n: nat)
    ensures
        nat_digits(n).len() >= 1,
    decreases n,
{
    if n >= 10 {
        lemma_nat_digits_nonempty(n / 10);
    }
}

/// Two numbers with the same digits are the same number.
pub proof fn lemma_nat_digits_injective(a: nat, b: nat)
    requires
        nat_digits(a) == nat_digits(b),
    ensures
        a == b,
    decreases a,
{
    lemma_nat_digits_nonempty(a / 10);
    lemma_nat_digits_nonempty(b / 10);
    if a < 10 && b < 10 {
        assert(nat_digits(a)[0] == digit_char(a as int));
        assert(nat_digits(b)[0] == digit_char(b as int));
        lemma_digit_chars(a as int, b as int);
    } else if a >= 10 && b >= 10 {
        let da = nat_digits(a / 10);
        let db = nat_digits(b / 10);
        assert(nat_digits(a).last() == digit_char((a % 10) as int));
        assert(nat_digits(b).last() == digit_char((b % 10) as int));
        assert(da =~= nat_digits(a).drop_last());
        assert(db =~= nat_digits(b).drop_last());
        lemma_nat_digits_injective(a / 10, b / 10);
        lemma_digit_chars((a % 10) as int, (b % 10) as int);
    } else if a < 10 {
        assert(nat_digits(a).len() == 1);
        assert(nat_digits(b).len() == nat_digits(b / 10).len() + 1);
    } else {
        assert(nat_digits(b).len() == 1);
        assert(nat_digits(a).len() == nat_digits(a / 10).len() + 1);
    }
}

/// No number starts with the minus sign.
pub proof fn lemma_nat_digits_start(n: nat)
    ensures
        nat_digits(n)[0] != '-',
    decreases n,
{
    if n >= 10 {
        lemma_nat_digits_start(n / 10);
        lemma_nat_digits_nonempty(n / 10);
    } else {
        lemma_digit_chars(n as int, n as int);
    }
}

/// The decimal text of an integer is never empty, and two integers with the
/// same text are equal.
pub proof fn lemma_decimal_text_injective(a: int, b: int)
    ensures
        decimal_text(a).len() >= 1,
        decimal_text(a) == decimal_text(b) ==> a == b,
{
    lemma_nat_digits_nonempty(if a < 0 { (-a) as nat } else { a as nat });
    if decimal_text(a) == decimal_text(b) {
        if a < 0 && b < 0 {
            let da = nat_digits((-a) as nat);
            let db = nat_digits((-b) as nat);
            assert(da == decimal_text(a).subrange(1, decimal_text(a).len() as int));
            assert(db == decimal_text(b).subrange(1, decimal_text(b).len() as int));
            lemma_nat_digits_injective((-a) as nat, (-b) as nat);
        } else if a >= 0 && b >= 0 {
            lemma_nat_digits_injective(a as nat, b as nat);
        } else if a < 0 {
            lemma_nat_digits_start(b as nat);
            assert(decimal_text(a)[0] == '-');
        } else {
            lemma_nat_digits_start(a as nat);
            assert(decimal_text(b)[0] == '-');
        }
    }
}

/// The one-character text of a digit.
fn digit_str(d: u64) -> (s: &'static str)
    requires
        d < 10,
    ensures
        s@ == seq![digit_char(d as int)],
{
    proof {
        reveal_strlit("0123456789");
    }
    let s = "0123456789".substring_char(d as usize, d as usize + 1);
    assert(s@ =~= seq![digit_char(d as int)]);
    s
}

/// Appends the digits of `n` to `out`.
fn push_digits(n: u64, out: &mut String)
    ensures
        final(out)@ == old(out)@ + nat_digits(n as nat),
    decreases n,
{
    if n >= 10 {
        push_digits(n / 10, out);
    }
    out.append(digit_str(n % 10));
    assert(out@ =~= old(out)@ + nat_digits(n as nat));
}

/// Renders an integer as decimal text.
pub fn decimal(n: i64) -> (text: String)
    ensures
        text@ == decimal_text(n as int),
{
    let mut out = String::new();
    if n < 0 {
        proof {
            reveal_strlit("-");
        }
        out.append("-");
        let magnitude: u64 = ((-(n + 1)) as u64) + 1;
        push_digits(magnitude, &mut out);
        assert(out@ =~= decimal_text(n as int));
    } else {
        push_digits(n as u64, &mut out);
        assert(out@ =~= decimal_text(n as int));
    }
    out
}

/// Whether `needle` stands in `hay` at byte index `at`.
fn matches_at(hay: &[u8], needle: &[u8], at: usize) -> (found: bool)
    requires
        at + needle@.len() <= hay@.len(),
    ensures
        found == occurs_at(hay@, needle@, at as int),
{
    let hay_len: usize = hay.len();
    let mut k: usize = 0;
    while k < needle.len()
        invariant
            k <= needle@.len(),
            at + needle@.len() <= hay@.len(),
            hay@.len() == hay_len,
            forall|j: int| 0 <= j < k ==> hay@[at + j] == needle@[j],
        decreases needle@.len() - k,
    {
        if hay[at + k] != needle[k] {
            assert(hay@.subrange(at as int, at + needle@.len())[k as int] != needle@[k as int]);
            return false;
        }
        k += 1;
    }
    assert(hay@.subrange(at as int, at + needle@.len()) =~= needle@);
    true
}

/// Tells whether `needle` occurs somewhere in `hay`, comparing bytes.
pub fn contains(hay: &str, needle: &str) -> (found: bool)
    ensures
        found == contains_bytes(hay.spec_bytes(), needle.spec_bytes()),
{
    let h = hay.as_bytes();
    let n = needle.as_bytes();
    if n.len() > h.len() {
        return false;
    }
    let last: usize = h.len() - n.len();
    let mut i: usize = 0;
    loop
        invariant
            i <= last,
            last + n@.len() == h@.len(),
            h@ == hay.spec_bytes(),
            n@ == needle.spec_bytes(),
            forall|j: int| 0 <= j < i ==> !occurs_at(h@, n@, j),
        decreases last - i,
    {
        if matches_at(h, n, i) {
            return true;
        }
        if i == last {
            return false;
        }
        i += 1;
    }
}

/// Joins a path segment to a base path.
pub fn join_path(base: &str, child: &str) -> (path: String)
    ensures
        path@ == joined(base@, child@),
{
    let n = base.unicode_len();
    let mut path = String::from_str(base);
    if n > 0 && base.get_char(n - 1) != '/' {
        proof {
            reveal_strlit("/");
        }
        path.append("/");
        assert(path@ =~= base@ + seq!['/']);
    }
    path.append(child);
    path
}

/// Removes the slashes at the end of a text.
pub fn trim_trailing_slashes(s: &str) -> (trimmed: String)
    ensures
        trimmed@ == without_trailing_slashes(s@),
{
    let mut end: usize = s.unicode_len();
    assert(s@.subrange(0, end as int) =~= s@);
    while end > 0 && s.get_char(end - 1) == '/'
        invariant
            end <= s@.len(),
            without_trailing_slashes(s@) == without_trailing_slashes(s@.subrange(0, end as int)),
        decreases end,
    {
        assert(s@.subrange(0, end as int).drop_last() =~= s@.subrange(0, end - 1));
        end -= 1;
    }
    String::from_str(s.substring_char(0, end))
}

/// Tells whether no text occurs twice in the list.
pub fn all_distinct(texts: &Vec<&String>) -> (unique: bool)
    ensures
        unique == distinct(text_views(texts@)),
{
    let ghost views = text_views(texts@);
    let mut j: usize = 0;
    while j < texts.len()
        invariant
            j <= texts.len(),
            views == text_views(texts@),
            forall|a: int, b: int| 0 <= a < b < j ==> views[a] != views[b],
        decreases texts.len() - j,
    {
        let mut i: usize = 0;
        while i < j
            invariant
                i <= j < texts.len(),
                views == text_views(texts@),
                forall|a: int| 0 <= a < i ==> views[a] != views[j as int],
            decreases j - i,
        {
            if *texts[i] == *texts[j] {
                assert(views[i as int] == views[j as int]);
                return false;
            }
            i += 1;
        }
        j += 1;
    }
    true
}

/// Tells whether two texts are the same.
pub fn same_text(a: &str, b: &str) -> (same: bool)
    ensures
        same == (a@ == b@),
{
    String::from_str(a) == String::from_str(b)
}

} // verus!
