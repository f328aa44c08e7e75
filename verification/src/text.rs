//! Character-sequence helpers shared by the protocol and backup modules:
//! substring search, trimming, splitting, and decimal rendering.

use vstd::prelude::*;

verus! {

/// `needle` occurs in `hay` starting at position `i`.
pub open spec fn occurs_at(hay: Seq<char>, needle: Seq<char>, i: int) -> bool {
    0 <= i && i + needle.len() <= hay.len() && hay.subrange(i, i + needle.len()) == needle
}

/// `needle` occurs somewhere in `hay`.
pub open spec fn occurs_in(hay: Seq<char>, needle: Seq<char>) -> bool {
    exists|i: int| occurs_at(hay, needle, i)
}

/// The rightmost position at which `needle` occurs in `hay`; meaningful only
/// when `occurs_in(hay, needle)` holds.
pub open spec fn last_occurrence(hay: Seq<char>, needle: Seq<char>) -> int {
    choose|i: int|
        occurs_at(hay, needle, i) && (forall|j: int| j > i ==> !occurs_at(hay, needle, j))
}

/// A position that matches and is rightmost pins down `last_occurrence`.
pub proof fn lemma_last_occurrence_is(hay: Seq<char>, needle: Seq<char>, i: int)
    requires
        occurs_at(hay, needle, i),
        forall|j: int| j > i ==> !occurs_at(hay, needle, j),
    ensures
        occurs_in(hay, needle),
        last_occurrence(hay, needle) == i,
{
    assert(occurs_in(hay, needle));
    let k = last_occurrence(hay, needle);
    assert(occurs_at(hay, needle, k) && (forall|j: int| j > k ==> !occurs_at(hay, needle, j)))
        by {
        assert(occurs_at(hay, needle, i) && (forall|j: int| j > i ==> !occurs_at(
            hay,
            needle,
            j,
        )));
    }
    if k < i {
        assert(!occurs_at(hay, needle, i));
    } else if k > i {
        assert(!occurs_at(hay, needle, k));
    }
}

/// Whether `needle` occurs in `hay` starting exactly at `i`, decided by
/// comparing characters one at a time.
fn matches_at(hay: &str, needle: &str, i: usize) -> (r: bool)
    requires
        hay@.len() <= usize::MAX,
        i + needle@.len() <= hay@.len(),
    ensures
        r == occurs_at(hay@, needle@, i as int),
{
    let m = needle.unicode_len();
    let mut j: usize = 0;
    while j < m
        invariant
            m == needle@.len(),
            j <= m,
            hay@.len() <= usize::MAX,
            i + m <= hay@.len(),
            forall|k: int| 0 <= k < j ==> hay@[i + k] == needle@[k],
        decreases m - j,
    {
        if hay.get_char(i + j) != needle.get_char(j) {
            proof {
                let sub = hay@.subrange(i as int, i + m);
                assert(sub[j as int] == hay@[i + j]);
            }
            return false;
        }
        j += 1;
    }
    proof {
        assert(hay@.subrange(i as int, i + m) =~= needle@);
    }
    true
}

/// The position of the rightmost occurrence of `needle` in `hay`, if any.
pub fn find_last(hay: &str, needle: &str) -> (r: Option<usize>)
    requires
        needle@.len() > 0,
    ensures
        match r {
            Some(i) => occurs_at(hay@, needle@, i as int) && (forall|j: int|
                j > i ==> !occurs_at(hay@, needle@, j)),
            None => !occurs_in(hay@, needle@),
        },
{
    let n = hay.unicode_len();
    let m = needle.unicode_len();
    if m > n {
        return None;
    }
    let mut i: usize = n - m + 1;
    while i > 0
        invariant
            n == hay@.len(),
            m == needle@.len(),
            0 < m <= n,
            n <= usize::MAX,
            i <= n - m + 1,
            forall|j: int| j >= i ==> !occurs_at(hay@, needle@, j),
        decreases i,
    {
        i = i - 1;
        if matches_at(hay, needle, i) {
            return Some(i);
        }
    }
    None
}

/// Whether `needle` occurs anywhere in `hay`.
pub fn contains_sub(hay: &str, needle: &str) -> (r: bool)
    requires
        needle@.len() > 0,
    ensures
        r == occurs_in(hay@, needle@),
{
    match find_last(hay, needle) {
        Some(i) => {
            proof {
                assert(occurs_at(hay@, needle@, i as int));
            }
            true
        },
        None => false,
    }
}

/// `s` with every leading space removed.
pub open spec fn trim_front_spec(s: Seq<char>) -> Seq<char>
    decreases s.len(),
{
    if s.len() > 0 && s[0] == ' ' {
        trim_front_spec(s.skip(1))
    } else {
        s
    }
}

/// `s` with every trailing space removed.
pub open spec fn trim_back_spec(s: Seq<char>) -> Seq<char>
    decreases s.len(),
{
    if s.len() > 0 && s[s.len() - 1] == ' ' {
        trim_back_spec(s.take(s.len() - 1))
    } else {
        s
    }
}

/// `s` with leading and trailing spaces removed.
pub open spec fn trim_spec(s: Seq<char>) -> Seq<char> {
    trim_front_spec(trim_back_spec(s))
}

fn trim_back(s: &str) -> (r: &str)
    requires
        s@.len() <= usize::MAX,
    ensures
        r@ == trim_back_spec(s@),
        r@.len() <= s@.len(),
    decreases s@.len(),
{
    let n = s.unicode_len();
    if n > 0 && s.get_char(n - 1) == ' ' {
        let sub = s.substring_char(0, n - 1);
        proof {
            assert(sub@ =~= s@.take(n - 1));
        }
        trim_back(sub)
    } else {
        s
    }
}

fn trim_front(s: &str) -> (r: &str)
    requires
        s@.len() <= usize::MAX,
    ensures
        r@ == trim_front_spec(s@),
    decreases s@.len(),
{
    let n = s.unicode_len();
    if n > 0 && s.get_char(0) == ' ' {
        let sub = s.substring_char(1, n);
        proof {
            assert(sub@ =~= s@.skip(1));
        }
        trim_front(sub)
    } else {
        s
    }
}

/// `s` with leading and trailing spaces removed, as a fresh `String`.
pub fn trim(s: &str) -> (r: String)
    ensures
        r@ == trim_spec(s@),
{
    // The length fits in usize because unicode_len returns it as one; the
    // recursive helpers need that bound.
    let _n: usize = s.unicode_len();
    let back = trim_back(s);
    let front = trim_front(back);
    String::from_str(front)
}

/// One step of splitting: `cur` is the token being accumulated and `acc` the
/// tokens already finished; the result is every token of `s` appended.
pub open spec fn split_loop(s: Seq<char>, c: char, cur: Seq<char>, acc: Seq<Seq<char>>) -> Seq<
    Seq<char>,
>
    decreases s.len(),
{
    if s.len() == 0 {
        acc.push(cur)
    } else if s[0] == c {
        split_loop(s.skip(1), c, Seq::empty(), acc.push(cur))
    } else {
        split_loop(s.skip(1), c, cur.push(s[0]), acc)
    }
}

/// The tokens of `s` between occurrences of the separator `c`; an empty `s`
/// yields one empty token, as `str::split` does.
pub open spec fn split_on(s: Seq<char>, c: char) -> Seq<Seq<char>> {
    split_loop(s, c, Seq::empty(), Seq::empty())
}

/// The tokens of `s` between occurrences of `c`, in order.
pub fn split(s: &str, c: char) -> (r: Vec<String>)
    ensures
        r.deep_view() == split_on(s@, c),
{
    let n = s.unicode_len();
    let mut acc: Vec<String> = Vec::new();
    let mut cur: String = String::new();
    let mut i: usize = 0;
    proof {
        assert(s@.skip(0) =~= s@);
        assert(acc.deep_view() =~= Seq::<Seq<char>>::empty());
    }
    while i < n
        invariant
            n == s@.len(),
            n <= usize::MAX,
            i <= n,
            split_loop(s@.skip(i as int), c, cur@, acc.deep_view()) == split_on(s@, c),
        decreases n - i,
    {
        let ch = s.get_char(i);
        proof {
            assert(s@.skip(i as int)[0] == s@[i as int]);
            assert(s@.skip(i as int).skip(1) =~= s@.skip(i + 1));
        }
        if ch == c {
            let old_acc: Ghost<Seq<Seq<char>>> = Ghost(acc.deep_view());
            let old_cur: Ghost<Seq<char>> = Ghost(cur@);
            acc.push(cur);
            cur = String::new();
            proof {
                assert(acc.deep_view() =~= old_acc@.push(old_cur@));
            }
        } else {
            let one = s.substring_char(i, i + 1);
            proof {
                assert(one@ =~= seq![s@[i as int]]);
            }
            let old_cur: Ghost<Seq<char>> = Ghost(cur@);
            cur.append(one);
            proof {
                assert(cur@ =~= old_cur@.push(s@[i as int]));
            }
        }
        i = i + 1;
    }
    proof {
        assert(s@.skip(n as int) =~= Seq::<char>::empty());
    }
    let old_acc: Ghost<Seq<Seq<char>>> = Ghost(acc.deep_view());
    let old_cur: Ghost<Seq<char>> = Ghost(cur@);
    acc.push(cur);
    proof {
        assert(acc.deep_view() =~= old_acc@.push(old_cur@));
    }
    acc
}

/// Splitting walks over a separator-free piece `t` by absorbing it into the
/// token being accumulated.
pub proof fn lemma_split_loop_absorbs(
    t: Seq<char>,
    rest: Seq<char>,
    c: char,
    cur: Seq<char>,
    acc: Seq<Seq<char>>,
)
    requires
        forall|i: int| 0 <= i < t.len() ==> t[i] != c,
    ensures
        split_loop(t + rest, c, cur, acc) == split_loop(rest, c, cur + t, acc),
    decreases t.len(),
{
    if t.len() == 0 {
        assert(t + rest =~= rest);
        assert(cur + t =~= cur);
    } else {
        assert((t + rest)[0] == t[0]);
        assert((t + rest).len() > 0);
        assert((t + rest).skip(1) =~= t.skip(1) + rest);
        assert(cur.push(t[0]) + t.skip(1) =~= cur + t);
        lemma_split_loop_absorbs(t.skip(1), rest, c, cur.push(t[0]), acc);
    }
}

/// A piece that neither starts nor ends with a space is unchanged by
/// trimming.
pub proof fn lemma_trim_id(s: Seq<char>)
    requires
        s.len() > 0,
        s[0] != ' ',
        s[s.len() - 1] != ' ',
    ensures
        trim_spec(s) == s,
{
    assert(trim_back_spec(s) == s);
    assert(trim_front_spec(s) == s);
}

/// Trimming strips a single leading space from a piece that neither starts
/// nor ends with one.
pub proof fn lemma_trim_of_spaced(s: Seq<char>)
    requires
        s.len() > 0,
        s[0] != ' ',
        s[s.len() - 1] != ' ',
    ensures
        trim_spec(seq![' '] + s) == s,
{
    let sp = seq![' '] + s;
    assert(sp[sp.len() - 1] == s[s.len() - 1]);
    assert(trim_back_spec(sp) == sp);
    assert(sp[0] == ' ');
    assert(sp.skip(1) =~= s);
    assert(trim_front_spec(sp) == trim_front_spec(s));
    assert(trim_front_spec(s) == s);
}

/// The character for the decimal digit `d`.
pub open spec fn digit_char(d: int) -> char {
    if d == 0 {
        '0'
    } else if d == 1 {
        '1'
    } else if d == 2 {
        '2'
    } else if d == 3 {
        '3'
    } else if d == 4 {
        '4'
    } else if d == 5 {
        '5'
    } else if d == 6 {
        '6'
    } else if d == 7 {
        '7'
    } else if d == 8 {
        '8'
    } else {
        '9'
    }
}

/// The decimal rendering of the non-negative integer `n`, most significant
/// digit first, without leading zeros (except for `n == 0` itself).
pub open spec fn decimal_spec(n: int) -> Seq<char>
    decreases n,
{
    if n < 10 {
        seq![digit_char(n)]
    } else {
        decimal_spec(n / 10) + seq![digit_char(n % 10)]
    }
}

fn digit_str(d: u64) -> (r: &'static str)
    requires
        d < 10,
    ensures
        r@ == seq![digit_char(d as int)],
{
    proof {
        reveal_strlit("0");
        reveal_strlit("1");
        reveal_strlit("2");
        reveal_strlit("3");
        reveal_strlit("4");
        reveal_strlit("5");
        reveal_strlit("6");
        reveal_strlit("7");
        reveal_strlit("8");
        reveal_strlit("9");
    }
    let r = match d {
        0 => "0",
        1 => "1",
        2 => "2",
        3 => "3",
        4 => "4",
        5 => "5",
        6 => "6",
        7 => "7",
        8 => "8",
        _ => "9",
    };
    proof {
        assert(r@ =~= seq![digit_char(d as int)]);
    }
    r
}

/// The decimal rendering of `n`.
pub fn decimal(n: u64) -> (r: String)
    ensures
        r@ == decimal_spec(n as int),
    decreases n,
{
    if n < 10 {
        String::from_str(digit_str(n))
    } else {
        let high = decimal(n / 10);
        high.concat(digit_str(n % 10))
    }
}

} // verus!
