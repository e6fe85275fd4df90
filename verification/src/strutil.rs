//! Small verified string utilities used across the compiler core: character
//! equality of string slices, concatenation, and decimal rendering of
//! numbers (used for synthesized variant identifiers).

use vstd::prelude::*;
use vstd::string::*;

verus! {

/// Compares two string slices character by character.
pub fn str_eq(a: &str, b: &str) -> (r: bool)
    ensures
        r == (a@ == b@),
{
    let alen = a.unicode_len();
    let blen = b.unicode_len();
    if alen != blen {
        return false;
    }
    let mut i: usize = 0;
    while i < alen
        invariant
            alen == a@.len(),
            blen == b@.len(),
            alen == blen,
            i <= alen,
            forall|j: int| 0 <= j < i ==> a@[j] == b@[j],
        decreases alen - i,
    {
        let ca = a.get_char(i);
        let cb = b.get_char(i);
        if ca != cb {
            return false;
        }
        i += 1;
    }
    proof {
        assert(a@ =~= b@);
    }
    true
}

/// Concatenates two string slices into a fresh `String`.
pub fn str_concat(a: &str, b: &str) -> (r: String)
    ensures
        r@ == a@ + b@,
{
    let mut s = String::from_str(a);
    s.append(b);
    s
}

/// Copies a list of strings.
pub fn copy_strings(v: &Vec<String>) -> (r: Vec<String>)
    ensures
        r.deep_view() == v.deep_view(),
{
    let n = v.len();
    let mut r: Vec<String> = Vec::new();
    let mut i: usize = 0;
    while i < n
        invariant
            n == v.len(),
            i <= n,
            r.deep_view() =~= v.deep_view().subrange(0, i as int),
        decreases n - i,
    {
        let ghost before = r.deep_view();
        r.push(v[i].clone());
        proof {
            assert(r.deep_view() =~= before.push(v.deep_view()[i as int]));
            assert(r.deep_view() =~= v.deep_view().subrange(0, i + 1 as int));
        }
        i += 1;
    }
    proof {
        assert(r.deep_view() =~= v.deep_view());
    }
    r
}

/// The character standing for one decimal digit.
pub open spec fn dec_digit_char(d: nat) -> char {
    if d == 0 {
        '0'
    } else if d == 1 {
        '1'
    } else if d == 2 {
        '2'
    } else if d == 3 {
        '3'
    } else if d == 4 {
        '4'
    } else if d == 5 {
        '5'
    } else if d == 6 {
        '6'
    } else if d == 7 {
        '7'
    } else if d == 8 {
        '8'
    } else {
        '9'
    }
}

/// The usual decimal rendering of a number, most significant digit first,
/// with no leading zeros (a single `'0'` for zero).
pub open spec fn spec_dec_digits(n: nat) -> Seq<char>
    decreases n,
{
    if n < 10 {
        seq![dec_digit_char(n)]
    } else {
        spec_dec_digits(n / 10).push(dec_digit_char(n % 10))
    }
}

fn digit_str(d: u64) -> (r: &'static str)
    requires
        d < 10,
    ensures
        r@ =~= seq![dec_digit_char(d as nat)],
{
    proof {
        reveal_strlit("0");
        reveal_strlit("1");
        reveal_strlit("2");
        reveal_strlit("3");
        reveal_strlit("4");
        reveal_strlit("5");
        reveal_strlit("6");
        reveal_strlit("7");
        reveal_strlit("8");
        reveal_strlit("9");
    }
    if d == 0 {
        "0"
    } else if d == 1 {
        "1"
    } else if d == 2 {
        "2"
    } else if d == 3 {
        "3"
    } else if d == 4 {
        "4"
    } else if d == 5 {
        "5"
    } else if d == 6 {
        "6"
    } else if d == 7 {
        "7"
    } else if d == 8 {
        "8"
    } else {
        "9"
    }
}

/// Renders a number in decimal.
pub fn u64_to_dec_string(n: u64) -> (r: String)
    ensures
        r@ =~= spec_dec_digits(n as nat),
    decreases n,
{
    if n < 10 {
        String::from_str(digit_str(n))
    } else {
        proof {
            assert(n / 10 < n) by (nonlinear_arith)
                requires
                    n >= 10,
            ;
        }
        let mut s = u64_to_dec_string(n / 10);
        s.append(digit_str(n % 10));
        proof {
            assert(s@ =~= spec_dec_digits((n / 10) as nat).push(dec_digit_char((n % 10) as nat)));
        }
        s
    }
}

/// Lexicographic order on character sequences, by code point, shorter
/// prefix first.
pub open spec fn lex_le(a: Seq<char>, b: Seq<char>) -> bool
    decreases a.len(),
{
    if a.len() == 0 {
        true
    } else if b.len() == 0 {
        false
    } else if (a[0] as u32) != (b[0] as u32) {
        (a[0] as u32) < (b[0] as u32)
    } else {
        lex_le(a.drop_first(), b.drop_first())
    }
}

/// The order is total.
pub proof fn lemma_lex_total(a: Seq<char>, b: Seq<char>)
    ensures
        lex_le(a, b) || lex_le(b, a),
    decreases a.len(),
{
    if a.len() == 0 || b.len() == 0 {
    } else if (a[0] as u32) != (b[0] as u32) {
    } else {
        lemma_lex_total(a.drop_first(), b.drop_first());
    }
}

/// The order is transitive.
pub proof fn lemma_lex_trans(a: Seq<char>, b: Seq<char>, c: Seq<char>)
    requires
        lex_le(a, b),
        lex_le(b, c),
    ensures
        lex_le(a, c),
    decreases a.len(),
{
    if a.len() == 0 {
    } else if b.len() == 0 {
    } else if c.len() == 0 {
    } else {
        if (a[0] as u32) != (b[0] as u32) {
        } else if (b[0] as u32) != (c[0] as u32) {
        } else {
            lemma_lex_trans(a.drop_first(), b.drop_first(), c.drop_first());
        }
    }
}

/// Compares two string slices in lexicographic order.
pub fn lex_le_exec(a: &str, b: &str) -> (r: bool)
    ensures
        r == lex_le(a@, b@),
{
    let alen = a.unicode_len();
    let blen = b.unicode_len();
    let mut i: usize = 0;
    proof {
        assert(a@.skip(0) =~= a@);
        assert(b@.skip(0) =~= b@);
    }
    loop
        invariant
            alen == a@.len(),
            blen == b@.len(),
            i <= alen,
            i <= blen,
            lex_le(a@, b@) == lex_le(a@.skip(i as int), b@.skip(i as int)),
        decreases alen - i,
    {
        if i >= alen {
            proof {
                assert(a@.skip(i as int).len() == 0);
            }
            return true;
        }
        if i >= blen {
            proof {
                assert(b@.skip(i as int).len() == 0);
                assert(a@.skip(i as int).len() > 0);
            }
            return false;
        }
        let ca = a.get_char(i);
        let cb = b.get_char(i);
        proof {
            assert(a@.skip(i as int)[0] == a@[i as int]);
            assert(b@.skip(i as int)[0] == b@[i as int]);
            assert(a@.skip(i as int).drop_first() =~= a@.skip(i + 1));
            assert(b@.skip(i as int).drop_first() =~= b@.skip(i + 1));
        }
        if (ca as u32) != (cb as u32) {
            return (ca as u32) < (cb as u32);
        }
        i += 1;
    }
}

/// Whether a sequence of texts is sorted in lexicographic order.
pub open spec fn lex_sorted(s: Seq<Seq<char>>) -> bool {
    forall|i: int, j: int| 0 <= i < j < s.len() ==> lex_le(#[trigger] s[i], #[trigger] s[j])
}

/// The first position whose entry is above the given text.
fn insertion_point(r: &Vec<String>, x: &str) -> (k: usize)
    ensures
        k <= r.deep_view().len(),
        forall|j: int| 0 <= j < k ==> lex_le(#[trigger] r.deep_view()[j], x@),
        k < r.deep_view().len() ==> !lex_le(r.deep_view()[k as int], x@),
{
    let n = r.len();
    let mut k: usize = 0;
    while k < n
        invariant
            n == r.len(),
            k <= n,
            forall|j: int| 0 <= j < k ==> lex_le(#[trigger] r.deep_view()[j], x@),
        decreases n - k,
    {
        assert(r.deep_view()[k as int] == r[k as int].deep_view());
        if !lex_le_exec(r[k].as_str(), x) {
            return k;
        }
        k += 1;
    }
    k
}

/// Sorts texts in lexicographic order by insertion, keeping the same
/// multiset of values.
#[verifier::loop_isolation(false)]
pub fn sort_strings(v: &Vec<String>) -> (r: Vec<String>)
    ensures
        r.deep_view().to_multiset() == v.deep_view().to_multiset(),
        lex_sorted(r.deep_view()),
{
    let n = v.len();
    let mut r: Vec<String> = Vec::new();
    proof {
        assert(r.deep_view() =~= Seq::<Seq<char>>::empty());
        assert(v.deep_view().subrange(0, 0) =~= Seq::<Seq<char>>::empty());
        r.deep_view().to_multiset_ensures();
        v.deep_view().subrange(0, 0).to_multiset_ensures();
        assert(r.deep_view().to_multiset() =~= v.deep_view().subrange(0, 0).to_multiset());
    }
    let mut i: usize = 0;
    while i < n
        invariant
            n == v.len(),
            i <= n,
            r.deep_view().len() == i,
            r.deep_view().to_multiset() == v.deep_view().subrange(0, i as int).to_multiset(),
            lex_sorted(r.deep_view()),
        decreases n - i,
    {
        let x = v[i].clone();
        let ghost xd = x.deep_view();
        let ghost rbefore = r.deep_view();
        let k = insertion_point(&r, x.as_str());
        let ghost kk = k as int;
        proof {
            if kk < rbefore.len() {
                lemma_lex_total(rbefore[kk], xd);
            }
        }
        r.insert(k, x);
        proof {
            assert(r.deep_view() =~= rbefore.subrange(0, kk).push(xd) + rbefore.subrange(
                kk,
                rbefore.len() as int,
            ));
            // every entry before the insertion point is below the new
            // one; every entry at or after it is above it
            assert forall|p: int, q: int| 0 <= p < q < r.deep_view().len() implies lex_le(
                #[trigger] r.deep_view()[p],
                #[trigger] r.deep_view()[q],
            ) by {
                let rd = r.deep_view();
                if p < kk && q < kk {
                    assert(rd[p] == rbefore[p] && rd[q] == rbefore[q]);
                } else if p < kk && q == kk {
                    assert(rd[p] == rbefore[p] && rd[q] == xd);
                } else if p < kk && q > kk {
                    assert(rd[p] == rbefore[p] && rd[q] == rbefore[q - 1]);
                } else if p == kk && q > kk {
                    assert(rd[p] == xd && rd[q] == rbefore[q - 1]);
                    assert(lex_le(xd, rbefore[kk]));
                    if q - 1 > kk {
                        lemma_lex_trans(xd, rbefore[kk], rbefore[q - 1]);
                    }
                } else {
                    assert(rd[p] == rbefore[p - 1] && rd[q] == rbefore[q - 1]);
                }
            }
            // the multiset gains exactly the new value
            lemma_multiset_insert(rbefore, kk, xd);
            assert(v.deep_view().subrange(0, i as int).push(xd) =~= v.deep_view().subrange(
                0,
                i + 1 as int,
            ));
            v.deep_view().subrange(0, i as int).to_multiset_ensures();
            assert(v.deep_view().subrange(0, i + 1 as int).to_multiset()
                == v.deep_view().subrange(0, i as int).to_multiset().insert(xd));
        }
        i += 1;
    }
    proof {
        assert(v.deep_view().subrange(0, n as int) =~= v.deep_view());
    }
    r
}

/// Inserting a value anywhere adds exactly that value to the multiset.
proof fn lemma_multiset_insert(s: Seq<Seq<char>>, k: int, x: Seq<char>)
    requires
        0 <= k <= s.len(),
    ensures
        (s.subrange(0, k).push(x) + s.subrange(k, s.len() as int)).to_multiset()
            == s.to_multiset().insert(x),
{
    let left = s.subrange(0, k);
    let right = s.subrange(k, s.len() as int);
    let whole = left.push(x) + right;
    left.to_multiset_ensures();
    right.to_multiset_ensures();
    left.push(x).to_multiset_ensures();
    whole.to_multiset_ensures();
    s.to_multiset_ensures();
    vstd::seq_lib::lemma_multiset_commutative(left.push(x), right);
    vstd::seq_lib::lemma_multiset_commutative(left, right);
    assert(left + right =~= s);
    assert(left.push(x).to_multiset() == left.to_multiset().insert(x));
    assert(whole.to_multiset() == left.to_multiset().insert(x).add(right.to_multiset()));
    assert(s.to_multiset() == left.to_multiset().add(right.to_multiset()));
    assert(left.to_multiset().insert(x).add(right.to_multiset()) =~= left.to_multiset().add(
        right.to_multiset(),
    ).insert(x));
}

} // verus!
