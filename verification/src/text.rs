//! Character-level helpers shared by the rest of the library: conversions
//! between strings and character vectors, decimal rendering, and searches for
//! characters and patterns.

use vstd::prelude::*;

verus! {

// ---------------------------------------------------------------------------
// Conversions
// ---------------------------------------------------------------------------

/// The characters of `s`, in order.
pub fn chars_of(s: &str) -> (r: Vec<char>)
    ensures
        r@ == s@,
{
    let mut r: Vec<char> = Vec::new();
    for c in it: s.chars()
        invariant
            r@ == it.history(),
    {
        r.push(c);
    }
    r
}

/// A string made of the characters of `chars`, in order
/// (std's `FromIterator<&char> for String`).
#[verifier::external_body]
pub(crate) fn string_from_chars(chars: &[char]) -> (s: String)
    ensures
        s@ == chars@,
{
    chars.iter().collect()
}

/// Whether two strings hold the same characters.
pub fn same_text(a: &str, b: &str) -> (r: bool)
    ensures
        r == (a@ == b@),
{
    let a_owned = a.to_owned();
    let b_owned = b.to_owned();
    a_owned == b_owned
}

// ---------------------------------------------------------------------------
// Decimal rendering
// ---------------------------------------------------------------------------

/// The decimal digit for `d` (`0 <= d < 10`).
pub open spec fn digit_char(d: nat) -> char {
    if d == 0 {
        '0'
    } else if d == 1 {
        '1'
    } else if d == 2 {
        '2'
    } else if d == 3 {
        '3'
    } else if d == 4 {
        '4'
    } else if d == 5 {
        '5'
    } else if d == 6 {
        '6'
    } else if d == 7 {
        '7'
    } else if d == 8 {
        '8'
    } else {
        '9'
    }
}

/// Each digit character is `'0'` advanced by the digit's value.
pub proof fn lemma_digit_char(d: nat)
    requires
        d < 10,
    ensures
        digit_char(d) as int == '0' as int + d,
{
}

/// `n` written in base ten, without leading zeros (`"0"` for zero).
pub open spec fn decimal(n: nat) -> Seq<char>
    decreases n,
{
    if n < 10 {
        seq![digit_char(n)]
    } else {
        decimal(n / 10).push(digit_char(n % 10))
    }
}

/// `s` preceded by as many `'0'` as it takes to reach `width` characters.
pub open spec fn zero_pad(s: Seq<char>, width: nat) -> Seq<char> {
    if s.len() >= width {
        s
    } else {
        Seq::new((width - s.len()) as nat, |i: int| '0') + s
    }
}

fn digit_of(d: u64) -> (c: char)
    requires
        d < 10,
    ensures
        c == digit_char(d as nat),
{
    if d == 0 {
        '0'
    } else if d == 1 {
        '1'
    } else if d == 2 {
        '2'
    } else if d == 3 {
        '3'
    } else if d == 4 {
        '4'
    } else if d == 5 {
        '5'
    } else if d == 6 {
        '6'
    } else if d == 7 {
        '7'
    } else if d == 8 {
        '8'
    } else {
        '9'
    }
}

/// Appends the decimal digits of `n` to `out`.
pub fn push_decimal(out: &mut Vec<char>, n: u64)
    ensures
        final(out)@ == old(out)@ + decimal(n as nat),
    decreases n,
{
    if n < 10 {
        out.push(digit_of(n));
    } else {
        push_decimal(out, n / 10);
        out.push(digit_of(n % 10));
        assert(old(out)@ + decimal(n as nat) =~= old(out)@ + decimal((n / 10) as nat) + seq![
            digit_char((n % 10) as nat),
        ]);
    }
}

/// Appends the decimal digits of `n` to `out`, with leading zeros up to
/// `width` digits.
pub fn push_padded(out: &mut Vec<char>, n: u64, width: usize)
    ensures
        final(out)@ == old(out)@ + zero_pad(decimal(n as nat), width as nat),
{
    let mut digits: Vec<char> = Vec::new();
    push_decimal(&mut digits, n);
    assert(digits@ =~= decimal(n as nat));
    if digits.len() < width {
        let fill: usize = width - digits.len();
        let mut k: usize = 0;
        while k < fill
            invariant
                k <= fill,
                fill == width - digits@.len(),
                out@ == old(out)@ + Seq::new(k as nat, |i: int| '0'),
            decreases fill - k,
        {
            out.push('0');
            k = k + 1;
            assert(old(out)@ + Seq::new(k as nat, |i: int| '0') =~= old(out)@ + Seq::new(
                (k - 1) as nat,
                |i: int| '0',
            ) + seq!['0']);
        }
    }
    let ghost before = out@;
    assert(before =~= old(out)@ + Seq::new((zero_pad(decimal(n as nat), width as nat).len() - digits@.len()) as nat, |i: int| '0'));
    let mut j: usize = 0;
    while j < digits.len()
        invariant
            j <= digits@.len(),
            out@ == before + digits@.take(j as int),
        decreases digits@.len() - j,
    {
        out.push(digits[j]);
        j = j + 1;
        assert(digits@.take(j as int) =~= digits@.take((j - 1) as int).push(digits@[j - 1]));
    }
    assert(digits@.take(digits@.len() as int) =~= digits@);
    assert(out@ =~= old(out)@ + zero_pad(decimal(n as nat), width as nat));
}


// ---------------------------------------------------------------------------
// Searching
// ---------------------------------------------------------------------------

/// `c` stands at position `i` of `s` and nowhere before it.
pub open spec fn first_char_at(s: Seq<char>, c: char, i: int) -> bool {
    &&& 0 <= i < s.len()
    &&& s[i] == c
    &&& forall|j: int| 0 <= j < i ==> s[j] != c
}

/// `c` stands at position `i` of `s` and nowhere after it.
pub open spec fn last_char_at(s: Seq<char>, c: char, i: int) -> bool {
    &&& 0 <= i < s.len()
    &&& s[i] == c
    &&& forall|j: int| i < j < s.len() ==> s[j] != c
}

/// The part of `s` before its first `c`, or all of `s` when it holds no `c`
/// (the first piece of `s.split(c)`).
pub open spec fn before_char(s: Seq<char>, c: char) -> Seq<char> {
    if exists|i: int| first_char_at(s, c, i) {
        s.take(choose|i: int| first_char_at(s, c, i))
    } else {
        s
    }
}

/// The part of `s` after its last `c`, or all of `s` when it holds no `c`
/// (the last piece of `s.split(c)`).
pub open spec fn after_last_char(s: Seq<char>, c: char) -> Seq<char> {
    if exists|i: int| last_char_at(s, c, i) {
        s.skip((choose|i: int| last_char_at(s, c, i)) + 1)
    } else {
        s
    }
}

/// `p` occurs in `s` starting at position `i`.
pub open spec fn occurs_at(s: Seq<char>, p: Seq<char>, i: int) -> bool {
    0 <= i && i + p.len() <= s.len() && s.subrange(i, i + p.len()) == p
}

/// `p` occurs somewhere in `s`.
pub open spec fn contains_seq(s: Seq<char>, p: Seq<char>) -> bool {
    exists|i: int| occurs_at(s, p, i)
}

/// `p` occurs in `s` at position `i` and at no earlier position.
pub open spec fn first_occurrence_at(s: Seq<char>, p: Seq<char>, i: int) -> bool {
    &&& occurs_at(s, p, i)
    &&& forall|j: int| 0 <= j < i ==> !occurs_at(s, p, j)
}

/// The part of `s` before the first occurrence of `p`, or all of `s` when
/// `p` does not occur (the first piece of `s.split(p)`).
pub open spec fn before_seq(s: Seq<char>, p: Seq<char>) -> Seq<char> {
    if exists|i: int| first_occurrence_at(s, p, i) {
        s.take(choose|i: int| first_occurrence_at(s, p, i))
    } else {
        s
    }
}

/// `s` ends with `p`.
pub open spec fn ends_with(s: Seq<char>, p: Seq<char>) -> bool {
    p.len() <= s.len() && s.skip(s.len() - p.len()) == p
}

/// There is one first position of a character.
pub proof fn lemma_first_char_unique(s: Seq<char>, c: char, i: int, k: int)
    requires
        first_char_at(s, c, i),
        first_char_at(s, c, k),
    ensures
        i == k,
{
    if i < k {
        assert(s[i] != c);
    } else if k < i {
        assert(s[k] != c);
    }
}

/// There is one last position of a character.
pub proof fn lemma_last_char_unique(s: Seq<char>, c: char, i: int, k: int)
    requires
        last_char_at(s, c, i),
        last_char_at(s, c, k),
    ensures
        i == k,
{
    if i < k {
        assert(s[k] != c);
    } else if k < i {
        assert(s[i] != c);
    }
}

/// There is one first occurrence of a pattern.
pub proof fn lemma_first_occurrence_unique(s: Seq<char>, p: Seq<char>, i: int, k: int)
    requires
        first_occurrence_at(s, p, i),
        first_occurrence_at(s, p, k),
    ensures
        i == k,
{
    if i < k {
        assert(!occurs_at(s, p, i));
    } else if k < i {
        assert(!occurs_at(s, p, k));
    }
}

/// The part before the first `c` is a prefix of `s` holding no `c`; when
/// `s` holds a `c`, a `c` follows that part directly.
pub proof fn lemma_before_char(s: Seq<char>, c: char)
    ensures
        before_char(s, c).len() <= s.len(),
        before_char(s, c) == s.take(before_char(s, c).len() as int),
        forall|j: int| 0 <= j < before_char(s, c).len() ==> before_char(s, c)[j] != c,
        (exists|i: int| 0 <= i < s.len() && s[i] == c) ==> s[before_char(s, c).len() as int] == c,
        !(exists|i: int| 0 <= i < s.len() && s[i] == c) ==> before_char(s, c) == s,
{
    if exists|i: int| 0 <= i < s.len() && s[i] == c {
        let w = choose|i: int| 0 <= i < s.len() && s[i] == c;
        lemma_some_first_char(s, c, w);
        let k = choose|k: int| first_char_at(s, c, k);
        assert(before_char(s, c) == s.take(k));
        assert(s.take(k).take(k) =~= s.take(k));
    } else {
        assert(!exists|i: int| first_char_at(s, c, i));
        assert(s.take(s.len() as int) =~= s);
    }
}

/// When `c` occurs in `s` at `w`, it has a first position.
pub proof fn lemma_some_first_char(s: Seq<char>, c: char, w: int)
    requires
        0 <= w < s.len(),
        s[w] == c,
    ensures
        exists|i: int| first_char_at(s, c, i),
    decreases w,
{
    if forall|j: int| 0 <= j < w ==> s[j] != c {
        assert(first_char_at(s, c, w));
    } else {
        let j = choose|j: int| 0 <= j < w && s[j] == c;
        lemma_some_first_char(s, c, j);
    }
}

/// When `c` occurs in `s` at `w`, it has a last position.
pub proof fn lemma_some_last_char(s: Seq<char>, c: char, w: int)
    requires
        0 <= w < s.len(),
        s[w] == c,
    ensures
        exists|i: int| last_char_at(s, c, i),
    decreases s.len() - w,
{
    if forall|j: int| w < j < s.len() ==> s[j] != c {
        assert(last_char_at(s, c, w));
    } else {
        let j = choose|j: int| w < j < s.len() && s[j] == c;
        lemma_some_last_char(s, c, j);
    }
}

/// The part after the last `c` is a suffix of `s` holding no `c`; when `s`
/// holds a `c`, a `c` stands directly before that part.
pub proof fn lemma_after_last_char(s: Seq<char>, c: char)
    ensures
        after_last_char(s, c).len() <= s.len(),
        after_last_char(s, c) == s.skip(s.len() - after_last_char(s, c).len()),
        forall|j: int| 0 <= j < after_last_char(s, c).len() ==> after_last_char(s, c)[j] != c,
        (exists|i: int| 0 <= i < s.len() && s[i] == c) ==> s[s.len() - after_last_char(s, c).len()
            - 1] == c,
        !(exists|i: int| 0 <= i < s.len() && s[i] == c) ==> after_last_char(s, c) == s,
{
    if exists|i: int| 0 <= i < s.len() && s[i] == c {
        let w = choose|i: int| 0 <= i < s.len() && s[i] == c;
        lemma_some_last_char(s, c, w);
        let k = choose|k: int| last_char_at(s, c, k);
        assert(after_last_char(s, c) == s.skip(k + 1));
        let r = s.skip(k + 1);
        assert(s.skip(s.len() - r.len()) =~= r);
        assert forall|j: int| 0 <= j < r.len() implies r[j] != c by {
            assert(r[j] == s[k + 1 + j]);
        }
    } else {
        assert(!exists|i: int| last_char_at(s, c, i));
        assert(s.skip(0) =~= s);
    }
}

/// When `p` occurs in `s` at `w`, it has a first occurrence.
pub proof fn lemma_some_first_occurrence(s: Seq<char>, p: Seq<char>, w: int)
    requires
        occurs_at(s, p, w),
    ensures
        exists|i: int| first_occurrence_at(s, p, i),
    decreases w,
{
    if forall|j: int| 0 <= j < w ==> !occurs_at(s, p, j) {
        assert(first_occurrence_at(s, p, w));
    } else {
        let j = choose|j: int| 0 <= j < w && occurs_at(s, p, j);
        lemma_some_first_occurrence(s, p, j);
    }
}

/// The part before the first occurrence of `p` is a prefix of `s`, and `p`
/// starts nowhere inside it; when `p` occurs in `s`, it starts directly
/// after that part. When `p` does not occur, the part is all of `s`.
pub proof fn lemma_before_seq(s: Seq<char>, p: Seq<char>)
    ensures
        before_seq(s, p).len() <= s.len(),
        before_seq(s, p) == s.take(before_seq(s, p).len() as int),
        forall|j: int| 0 <= j < before_seq(s, p).len() ==> !occurs_at(s, p, j),
        contains_seq(s, p) ==> occurs_at(s, p, before_seq(s, p).len() as int),
        !contains_seq(s, p) ==> before_seq(s, p) == s,
{
    if contains_seq(s, p) {
        let w = choose|i: int| occurs_at(s, p, i);
        lemma_some_first_occurrence(s, p, w);
        let k = choose|k: int| first_occurrence_at(s, p, k);
        assert(before_seq(s, p) == s.take(k));
        assert(s.take(k).take(k) =~= s.take(k));
    } else {
        assert(!exists|i: int| first_occurrence_at(s, p, i));
        assert(s.take(s.len() as int) =~= s);
    }
}

/// The characters `s[from..to]`.
pub fn copy_range(s: &Vec<char>, from: usize, to: usize) -> (r: Vec<char>)
    requires
        from <= to <= s@.len(),
    ensures
        r@ == s@.subrange(from as int, to as int),
{
    let mut r: Vec<char> = Vec::new();
    let mut k: usize = from;
    while k < to
        invariant
            from <= k <= to <= s@.len(),
            r@ == s@.subrange(from as int, k as int),
        decreases to - k,
    {
        r.push(s[k]);
        k = k + 1;
        assert(r@ =~= s@.subrange(from as int, k as int));
    }
    r
}

/// Position of the first `c` in `s`, if any.
pub fn find_char(s: &Vec<char>, c: char) -> (r: Option<usize>)
    ensures
        match r {
            Some(i) => first_char_at(s@, c, i as int),
            None => forall|j: int| 0 <= j < s@.len() ==> s@[j] != c,
        },
{
    let mut k: usize = 0;
    while k < s.len()
        invariant
            k <= s@.len(),
            forall|j: int| 0 <= j < k ==> s@[j] != c,
        decreases s@.len() - k,
    {
        if s[k] == c {
            return Some(k);
        }
        k = k + 1;
    }
    None
}

/// Position of the last `c` in `s`, if any.
pub fn rfind_char(s: &Vec<char>, c: char) -> (r: Option<usize>)
    ensures
        match r {
            Some(i) => last_char_at(s@, c, i as int),
            None => forall|j: int| 0 <= j < s@.len() ==> s@[j] != c,
        },
{
    let mut k: usize = s.len();
    while k > 0
        invariant
            k <= s@.len(),
            forall|j: int| k <= j < s@.len() ==> s@[j] != c,
        decreases k,
    {
        if s[k - 1] == c {
            return Some(k - 1);
        }
        k = k - 1;
    }
    None
}

/// Whether `p` occurs in `s` at position `i`.
pub fn matches_at(s: &Vec<char>, p: &Vec<char>, i: usize) -> (r: bool)
    ensures
        r == occurs_at(s@, p@, i as int),
{
    if i > s.len() || p.len() > s.len() - i {
        return false;
    }
    let mut k: usize = 0;
    while k < p.len()
        invariant
            k <= p@.len(),
            i + p@.len() <= s@.len(),
            forall|j: int| 0 <= j < k ==> s@[i + j] == p@[j],
        decreases p@.len() - k,
    {
        assert(i + k < s.len());
        if s[i + k] != p[k] {
            assert(s@.subrange(i as int, i + p@.len())[k as int] != p@[k as int]);
            return false;
        }
        k = k + 1;
    }
    assert(s@.subrange(i as int, i + p@.len()) =~= p@);
    true
}

/// Position of the first occurrence of `p` in `s`, if any.
pub fn find_seq(s: &Vec<char>, p: &Vec<char>) -> (r: Option<usize>)
    ensures
        match r {
            Some(i) => first_occurrence_at(s@, p@, i as int),
            None => !contains_seq(s@, p@),
        },
{
    let mut k: usize = 0;
    while k <= s.len()
        invariant
            k <= s@.len() + 1,
            forall|j: int| 0 <= j < k ==> !occurs_at(s@, p@, j),
        decreases s@.len() + 1 - k,
    {
        if matches_at(s, p, k) {
            return Some(k);
        }
        if k == s.len() {
            assert forall|j: int| occurs_at(s@, p@, j) implies false by {
                assert(j <= s@.len());
            }
            return None;
        }
        k = k + 1;
    }
    None
}

/// `before_char(s, c)`.
pub fn before_char_of(s: &Vec<char>, c: char) -> (r: Vec<char>)
    ensures
        r@ == before_char(s@, c),
{
    match find_char(s, c) {
        Some(i) => {
            proof {
                let k = choose|k: int| first_char_at(s@, c, k);
                lemma_first_char_unique(s@, c, i as int, k);
            }
            copy_range(s, 0, i)
        },
        None => {
            assert(s@.subrange(0, s@.len() as int) =~= s@);
            copy_range(s, 0, s.len())
        },
    }
}

/// `after_last_char(s, c)`.
pub fn after_last_char_of(s: &Vec<char>, c: char) -> (r: Vec<char>)
    ensures
        r@ == after_last_char(s@, c),
{
    match rfind_char(s, c) {
        Some(i) => {
            proof {
                let k = choose|k: int| last_char_at(s@, c, k);
                lemma_last_char_unique(s@, c, i as int, k);
            }
            assert(last_char_at(s@, c, i as int));
            assert(i < s.len());
            copy_range(s, i + 1, s.len())
        },
        None => {
            assert(s@.subrange(0, s@.len() as int) =~= s@);
            copy_range(s, 0, s.len())
        },
    }
}

/// `before_seq(s, p)`.
pub fn before_seq_of(s: &Vec<char>, p: &Vec<char>) -> (r: Vec<char>)
    ensures
        r@ == before_seq(s@, p@),
{
    match find_seq(s, p) {
        Some(i) => {
            proof {
                let k = choose|k: int| first_occurrence_at(s@, p@, k);
                lemma_first_occurrence_unique(s@, p@, i as int, k);
            }
            copy_range(s, 0, i)
        },
        None => {
            assert(s@.subrange(0, s@.len() as int) =~= s@);
            copy_range(s, 0, s.len())
        },
    }
}

/// Whether `s` ends with `p`.
pub fn ends_with_chars(s: &Vec<char>, p: &Vec<char>) -> (r: bool)
    ensures
        r == ends_with(s@, p@),
{
    if p.len() > s.len() {
        return false;
    }
    let start: usize = s.len() - p.len();
    let r = matches_at(s, p, start);
    assert(s@.skip(start as int) =~= s@.subrange(start as int, start + p@.len()));
    r
}

} // verus!
