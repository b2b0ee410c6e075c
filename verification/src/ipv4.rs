//! Syntactic validity of an IPv4 address in dotted-decimal form: four
//! octets separated by dots, each one to three decimal digits, no leading
//! zero, value at most 255. This matches the strict form that the
//! configuration's address field must take.

use vstd::prelude::*;
use vstd::string::StrSliceExecFns;

verus! {

/// Whether `c` is a decimal digit.
pub open spec fn is_digit(c: char) -> bool {
    48 <= c as int <= 57
}

/// The decimal value of a digit sequence (most significant digit first).
pub open spec fn octet_val(s: Seq<char>) -> int
    decreases s.len(),
{
    if s.len() == 0 {
        0
    } else {
        octet_val(s.drop_last()) * 10 + (s.last() as int - 48)
    }
}

/// Whether `s` is the text of one octet: one to three decimal digits, no
/// leading zero unless the octet is exactly "0", and a value of at most 255.
pub open spec fn ipv4_octet_ok(s: Seq<char>) -> bool {
    &&& 1 <= s.len() <= 3
    &&& (forall|x: int| 0 <= x < s.len() ==> is_digit(#[trigger] s[x]))
    &&& (s.len() > 1 ==> s[0] != '0')
    &&& octet_val(s) <= 255
}

/// Whether `s` is a syntactically valid IPv4 address: exactly three dots,
/// with a valid octet between and around them.
pub open spec fn ipv4_text_ok(s: Seq<char>) -> bool {
    exists|i: int, j: int, k: int|
        #![auto]
        0 <= i < j < k < s.len() && s[i] == '.' && s[j] == '.' && s[k] == '.' && ipv4_octet_ok(
            s.subrange(0, i),
        ) && ipv4_octet_ok(s.subrange(i + 1, j)) && ipv4_octet_ok(s.subrange(j + 1, k))
            && ipv4_octet_ok(s.subrange(k + 1, s.len() as int))
}

/// Checks that the characters of `s` from `from` (inclusive) to `to`
/// (exclusive) form one valid octet.
fn check_octet(s: &str, from: usize, to: usize) -> (r: bool)
    requires
        from <= to <= s@.len(),
    ensures
        r == ipv4_octet_ok(s@.subrange(from as int, to as int)),
{
    let ghost sub = s@.subrange(from as int, to as int);
    let len = to - from;
    if len < 1 || len > 3 {
        return false;
    }
    if len > 1 && s.get_char(from) == '0' {
        proof {
            assert(sub[0] == s@[from as int]);
        }
        return false;
    }
    let mut i = from;
    let mut val: u32 = 0;
    while i < to
        invariant
            from <= i <= to <= s@.len(),
            to - from <= 3,
            sub == s@.subrange(from as int, to as int),
            forall|x: int| from <= x < i ==> is_digit(#[trigger] s@[x]),
            val == octet_val(s@.subrange(from as int, i as int)),
            i - from == 0 ==> val == 0,
            i - from == 1 ==> val <= 9,
            i - from == 2 ==> val <= 99,
            i - from == 3 ==> val <= 999,
        decreases to - i,
    {
        let c = s.get_char(i);
        let code = c as u32;
        if code < 48 || code > 57 {
            proof {
                assert(sub[i - from] == s@[i as int]);
                assert(!is_digit(sub[i - from]));
            }
            return false;
        }
        proof {
            let pre = s@.subrange(from as int, i as int);
            let post = s@.subrange(from as int, i + 1);
            assert(post.drop_last() =~= pre);
            assert(post.last() == s@[i as int]);
        }
        val = val * 10 + (code - 48);
        i = i + 1;
    }
    proof {
        assert(sub =~= s@.subrange(from as int, i as int));
        assert(forall|x: int| 0 <= x < sub.len() ==> is_digit(#[trigger] sub[x])) by {
            assert(forall|x: int| 0 <= x < sub.len() ==> sub[x] == s@[from + x]);
        }
        assert(sub.len() > 1 ==> sub[0] != '0') by {
            assert(sub.len() > 1 ==> sub[0] == s@[from as int]);
        }
    }
    val <= 255
}

/// Decides whether `s` is a syntactically valid IPv4 address.
pub fn is_ipv4_text(s: &str) -> (r: bool)
    ensures
        r == ipv4_text_ok(s@),
{
    let n = s.unicode_len();
    let mut i: usize = 0;
    // Number of dots seen so far, capped at four, and the positions of the
    // first four of them.
    let mut count: usize = 0;
    let mut p1: usize = 0;
    let mut p2: usize = 0;
    let mut p3: usize = 0;
    let mut p4: usize = 0;
    while i < n
        invariant
            i <= n,
            n == s@.len(),
            count <= 4,
            count == 0 ==> forall|x: int| 0 <= x < i ==> s@[x] != '.',
            count == 1 ==> p1 < i && s@[p1 as int] == '.' && forall|x: int|
                0 <= x < i && x != p1 ==> s@[x] != '.',
            count == 2 ==> p1 < p2 < i && s@[p1 as int] == '.' && s@[p2 as int] == '.'
                && forall|x: int| 0 <= x < i && x != p1 && x != p2 ==> s@[x] != '.',
            count == 3 ==> p1 < p2 < p3 < i && s@[p1 as int] == '.' && s@[p2 as int] == '.'
                && s@[p3 as int] == '.' && forall|x: int|
                0 <= x < i && x != p1 && x != p2 && x != p3 ==> s@[x] != '.',
            count == 4 ==> p1 < p2 < p3 < p4 < i && s@[p1 as int] == '.' && s@[p2 as int] == '.'
                && s@[p3 as int] == '.' && s@[p4 as int] == '.',
        decreases n - i,
    {
        let c = s.get_char(i);
        if c == '.' {
            if count == 0 {
                p1 = i;
                count = 1;
            } else if count == 1 {
                p2 = i;
                count = 2;
            } else if count == 2 {
                p3 = i;
                count = 3;
            } else if count == 3 {
                p4 = i;
                count = 4;
            }
        }
        i = i + 1;
    }
    if count != 3 {
        proof {
            lemma_dot_count_mismatch(s@, count as int, p1 as int, p2 as int, p3 as int, p4 as int);
        }
        return false;
    }
    let ok = check_octet(s, 0, p1) && check_octet(s, p1 + 1, p2) && check_octet(s, p2 + 1, p3)
        && check_octet(s, p3 + 1, n);
    proof {
        if ok {
            assert(ipv4_text_ok(s@));
        } else {
            if ipv4_text_ok(s@) {
                let (wi, wj, wk): (int, int, int) = choose|wi: int, wj: int, wk: int|
                    #![auto]
                    0 <= wi < wj < wk < s@.len() && s@[wi] == '.' && s@[wj] == '.' && s@[wk] == '.'
                        && ipv4_octet_ok(s@.subrange(0, wi)) && ipv4_octet_ok(
                        s@.subrange(wi + 1, wj),
                    ) && ipv4_octet_ok(s@.subrange(wj + 1, wk)) && ipv4_octet_ok(
                        s@.subrange(wk + 1, s@.len() as int),
                    );
                lemma_witness_dots_are_scanned(s@, wi, wj, wk, p1 as int, p2 as int, p3 as int);
                assert(false);
            }
        }
    }
    ok
}

/// Inside a valid split, every dot of the text stands at one of the three
/// split positions: the four octet ranges hold digits only.
proof fn lemma_witness_covers_dots(s: Seq<char>, wi: int, wj: int, wk: int, x: int)
    requires
        0 <= wi < wj < wk < s.len(),
        ipv4_octet_ok(s.subrange(0, wi)),
        ipv4_octet_ok(s.subrange(wi + 1, wj)),
        ipv4_octet_ok(s.subrange(wj + 1, wk)),
        ipv4_octet_ok(s.subrange(wk + 1, s.len() as int)),
        0 <= x < s.len(),
        s[x] == '.',
    ensures
        x == wi || x == wj || x == wk,
{
    if x != wi && x != wj && x != wk {
        if x < wi {
            assert(s.subrange(0, wi)[x] == s[x]);
        } else if x < wj {
            assert(s.subrange(wi + 1, wj)[x - (wi + 1)] == s[x]);
        } else if x < wk {
            assert(s.subrange(wj + 1, wk)[x - (wj + 1)] == s[x]);
        } else {
            assert(s.subrange(wk + 1, s.len() as int)[x - (wk + 1)] == s[x]);
        }
        assert(!is_digit('.'));
        assert(false);
    }
}

/// When a valid split exists, the scan that found the first dots of the text
/// must have found exactly the split positions.
proof fn lemma_witness_dots_are_scanned(
    s: Seq<char>,
    wi: int,
    wj: int,
    wk: int,
    p1: int,
    p2: int,
    p3: int,
)
    requires
        0 <= wi < wj < wk < s.len(),
        ipv4_octet_ok(s.subrange(0, wi)),
        ipv4_octet_ok(s.subrange(wi + 1, wj)),
        ipv4_octet_ok(s.subrange(wj + 1, wk)),
        ipv4_octet_ok(s.subrange(wk + 1, s.len() as int)),
        0 <= p1 < p2 < p3 < s.len(),
        s[p1] == '.',
        s[p2] == '.',
        s[p3] == '.',
        forall|x: int| 0 <= x < s.len() && x != p1 && x != p2 && x != p3 ==> s[x] != '.',
    ensures
        wi == p1 && wj == p2 && wk == p3,
        ipv4_octet_ok(s.subrange(0, p1)),
        ipv4_octet_ok(s.subrange(p1 + 1, p2)),
        ipv4_octet_ok(s.subrange(p2 + 1, p3)),
        ipv4_octet_ok(s.subrange(p3 + 1, s.len() as int)),
{
    lemma_witness_covers_dots(s, wi, wj, wk, p1);
    lemma_witness_covers_dots(s, wi, wj, wk, p2);
    lemma_witness_covers_dots(s, wi, wj, wk, p3);
}

/// When the text does not hold exactly three dots, no valid split exists.
proof fn lemma_dot_count_mismatch(s: Seq<char>, count: int, p1: int, p2: int, p3: int, p4: int)
    requires
        0 <= count <= 4,
        count != 3,
        count == 0 ==> forall|x: int| 0 <= x < s.len() ==> s[x] != '.',
        count == 1 ==> 0 <= p1 < s.len() && s[p1] == '.' && forall|x: int|
            0 <= x < s.len() && x != p1 ==> s[x] != '.',
        count == 2 ==> 0 <= p1 < p2 < s.len() && s[p1] == '.' && s[p2] == '.' && forall|x: int|
            0 <= x < s.len() && x != p1 && x != p2 ==> s[x] != '.',
        count == 4 ==> 0 <= p1 < p2 < p3 < p4 < s.len() && s[p1] == '.' && s[p2] == '.' && s[p3]
            == '.' && s[p4] == '.',
    ensures
        !ipv4_text_ok(s),
{
    if ipv4_text_ok(s) {
        let (wi, wj, wk): (int, int, int) = choose|wi: int, wj: int, wk: int|
            #![auto]
            0 <= wi < wj < wk < s.len() && s[wi] == '.' && s[wj] == '.' && s[wk] == '.'
                && ipv4_octet_ok(s.subrange(0, wi)) && ipv4_octet_ok(s.subrange(wi + 1, wj))
                && ipv4_octet_ok(s.subrange(wj + 1, wk)) && ipv4_octet_ok(
                s.subrange(wk + 1, s.len() as int),
            );
        if count == 4 {
            lemma_witness_covers_dots(s, wi, wj, wk, p1);
            lemma_witness_covers_dots(s, wi, wj, wk, p2);
            lemma_witness_covers_dots(s, wi, wj, wk, p3);
            lemma_witness_covers_dots(s, wi, wj, wk, p4);
        }
        assert(false);
    }
}

} // verus!
