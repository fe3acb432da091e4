use vstd::prelude::*;

verus! {

/// ASCII lower-casing of one byte; bytes outside `A`..=`Z` are unchanged.
pub open spec fn lower_byte(b: u8) -> u8 {
    if 65 <= b && b <= 90 {
        (b + 32) as u8
    } else {
        b
    }
}

/// True for the ASCII whitespace bytes that command output carries:
/// space, tab, line feed and carriage return.
pub open spec fn is_space(b: u8) -> bool {
    b == 32 || b == 9 || b == 10 || b == 13
}

/// The needle `n` occurs in `h` at position `i`, comparing bytes after
/// ASCII case folding.
pub open spec fn matches_at_ci(h: Seq<u8>, n: Seq<u8>, i: int) -> bool {
    &&& 0 <= i
    &&& i + n.len() <= h.len()
    &&& forall|j: int| 0 <= j < n.len() ==> lower_byte(h[i + j]) == lower_byte(#[trigger] n[j])
}

/// The needle `n` occurs somewhere in `h`, ignoring ASCII case.
pub open spec fn contains_ci(h: Seq<u8>, n: Seq<u8>) -> bool {
    exists|i: int| matches_at_ci(h, n, i)
}

/// The needle `n` occurs in `h` at position `i`, byte for byte.
pub open spec fn matches_at(h: Seq<u8>, n: Seq<u8>, i: int) -> bool {
    &&& 0 <= i
    &&& i + n.len() <= h.len()
    &&& forall|j: int| 0 <= j < n.len() ==> h[i + j] == #[trigger] n[j]
}

/// The needle `n` occurs somewhere in `h`, byte for byte.
pub open spec fn contains_bytes(h: Seq<u8>, n: Seq<u8>) -> bool {
    exists|i: int| matches_at(h, n, i)
}

/// Two byte strings are equal up to ASCII case.
pub open spec fn eq_ci(x: Seq<u8>, y: Seq<u8>) -> bool {
    &&& x.len() == y.len()
    &&& forall|k: int| 0 <= k < x.len() ==> lower_byte(x[k]) == lower_byte(#[trigger] y[k])
}

/// `s` with leading ASCII whitespace removed.
pub open spec fn trim_front(s: Seq<u8>) -> Seq<u8>
    decreases s.len(),
{
    if s.len() > 0 && is_space(s[0]) {
        trim_front(s.drop_first())
    } else {
        s
    }
}

/// `s` with trailing ASCII whitespace removed.
pub open spec fn trim_back(s: Seq<u8>) -> Seq<u8>
    decreases s.len(),
{
    if s.len() > 0 && is_space(s.last()) {
        trim_back(s.drop_last())
    } else {
        s
    }
}

/// `s` with leading and trailing ASCII whitespace removed.
pub open spec fn trimmed(s: Seq<u8>) -> Seq<u8> {
    trim_back(trim_front(s))
}

fn lower_byte_exec(b: u8) -> (r: u8)
    ensures
        r == lower_byte(b),
{
    if 65 <= b && b <= 90 {
        b + 32
    } else {
        b
    }
}

fn is_space_exec(b: u8) -> (r: bool)
    ensures
        r == is_space(b),
{
    b == 32 || b == 9 || b == 10 || b == 13
}

/// Whether `n` occurs in `h` starting at index `i`, ignoring ASCII case.
fn match_at_ci(h: &Vec<u8>, n: &Vec<u8>, i: usize) -> (r: bool)
    requires
        i + n@.len() <= h@.len(),
    ensures
        r == matches_at_ci(h@, n@, i as int),
{
    let hlen: usize = h.len();
    let nlen: usize = n.len();
    let mut j: usize = 0;
    while j < nlen
        invariant
            hlen == h@.len(),
            nlen == n@.len(),
            i + nlen <= hlen,
            j <= nlen,
            forall|l: int| 0 <= l < j ==> lower_byte(h@[i + l]) == lower_byte(#[trigger] n@[l]),
        decreases nlen - j,
    {
        if lower_byte_exec(h[i + j]) != lower_byte_exec(n[j]) {
            assert(!matches_at_ci(h@, n@, i as int));
            return false;
        }
        j = j + 1;
    }
    true
}

/// Whether `n` occurs somewhere in `h`, ignoring ASCII case.
pub fn contains_bytes_ci(h: &Vec<u8>, n: &Vec<u8>) -> (r: bool)
    ensures
        r == contains_ci(h@, n@),
{
    if n.len() > h.len() {
        assert(forall|i: int| !matches_at_ci(h@, n@, i));
        return false;
    }
    let mut i: usize = 0;
    while i <= h.len() - n.len()
        invariant
            n@.len() <= h@.len(),
            i <= h@.len() - n@.len() + 1,
            forall|k: int| 0 <= k < i ==> !matches_at_ci(h@, n@, k),
        decreases h@.len() - n@.len() + 1 - i,
    {
        if match_at_ci(h, n, i) {
            assert(contains_ci(h@, n@));
            return true;
        }
        i = i + 1;
    }
    assert(forall|k: int| !matches_at_ci(h@, n@, k));
    false
}

/// Whether `n` occurs in `h` starting at index `i`, byte for byte.
fn match_at(h: &Vec<u8>, n: &Vec<u8>, i: usize) -> (r: bool)
    requires
        i + n@.len() <= h@.len(),
    ensures
        r == matches_at(h@, n@, i as int),
{
    let hlen: usize = h.len();
    let nlen: usize = n.len();
    let mut j: usize = 0;
    while j < nlen
        invariant
            hlen == h@.len(),
            nlen == n@.len(),
            i + nlen <= hlen,
            j <= nlen,
            forall|l: int| 0 <= l < j ==> h@[i + l] == #[trigger] n@[l],
        decreases nlen - j,
    {
        if h[i + j] != n[j] {
            assert(!matches_at(h@, n@, i as int));
            return false;
        }
        j = j + 1;
    }
    true
}

/// Whether `n` occurs somewhere in `h`, byte for byte.
pub fn contains_bytes_exact(h: &Vec<u8>, n: &Vec<u8>) -> (r: bool)
    ensures
        r == contains_bytes(h@, n@),
{
    if n.len() > h.len() {
        assert(forall|i: int| !matches_at(h@, n@, i));
        return false;
    }
    let mut i: usize = 0;
    while i <= h.len() - n.len()
        invariant
            n@.len() <= h@.len(),
            i <= h@.len() - n@.len() + 1,
            forall|k: int| 0 <= k < i ==> !matches_at(h@, n@, k),
        decreases h@.len() - n@.len() + 1 - i,
    {
        if match_at(h, n, i) {
            assert(contains_bytes(h@, n@));
            return true;
        }
        i = i + 1;
    }
    assert(forall|k: int| !matches_at(h@, n@, k));
    false
}

/// Whether `s`, after trimming ASCII whitespace, equals `word` up to ASCII case.
pub fn trimmed_eq_ci(s: &Vec<u8>, word: &Vec<u8>) -> (r: bool)
    ensures
        r == eq_ci(trimmed(s@), word@),
{
    proof {
        assert(s@.skip(0) =~= s@);
    }
    let mut a: usize = 0;
    while a < s.len() && is_space_exec(s[a])
        invariant
            a <= s@.len(),
            trim_front(s@) == trim_front(s@.skip(a as int)),
        decreases s@.len() - a,
    {
        proof {
            assert(s@.skip(a as int).drop_first() =~= s@.skip(a + 1));
        }
        a = a + 1;
    }
    proof {
        assert(trim_front(s@) =~= s@.skip(a as int));
        assert(s@.skip(a as int) =~= s@.subrange(a as int, s@.len() as int));
    }
    let mut b: usize = s.len();
    while b > a && is_space_exec(s[b - 1])
        invariant
            a <= b <= s@.len(),
            trim_front(s@) == s@.skip(a as int),
            trim_back(s@.skip(a as int)) == trim_back(s@.subrange(a as int, b as int)),
        decreases b,
    {
        proof {
            assert(s@.subrange(a as int, b as int).drop_last() =~= s@.subrange(
                a as int,
                b as int - 1,
            ));
        }
        b = b - 1;
    }
    proof {
        assert(trimmed(s@) =~= s@.subrange(a as int, b as int));
    }
    if b - a != word.len() {
        return false;
    }
    let mut k: usize = 0;
    while k < word.len()
        invariant
            a + word@.len() == b,
            b <= s@.len(),
            k <= word@.len(),
            trimmed(s@) =~= s@.subrange(a as int, b as int),
            forall|l: int|
                0 <= l < k ==> lower_byte(s@[a + l]) == lower_byte(#[trigger] word@[l]),
        decreases word@.len() - k,
    {
        if lower_byte_exec(s[a + k]) != lower_byte_exec(word[k]) {
            assert(trimmed(s@)[k as int] == s@[a + k]);
            return false;
        }
        k = k + 1;
    }
    assert(forall|l: int|
        0 <= l < word@.len() ==> #[trigger] trimmed(s@)[l] == s@[a + l]);
    true
}

} // verus!
