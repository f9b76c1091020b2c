use crate::parse::{chars_of, parse_i64, spec_parse_i64};
use vstd::prelude::*;

verus! {

/// How two names compare.
#[derive(Copy, Clone, Debug, PartialEq, Eq, Structural)]
pub enum NameOrder {
    Less,
    Equal,
    Greater,
}

/// The order of two character sequences, character by character (by code
/// point), a proper prefix first. On strings this is std's order of `str`,
/// which compares UTF-8 bytes: UTF-8 keeps the order of code points.
pub open spec fn lex_order(a: Seq<char>, b: Seq<char>) -> NameOrder
    decreases a.len(),
{
    if a.len() == 0 {
        if b.len() == 0 { NameOrder::Equal } else { NameOrder::Less }
    } else if b.len() == 0 {
        NameOrder::Greater
    } else if a[0] < b[0] {
        NameOrder::Less
    } else if a[0] > b[0] {
        NameOrder::Greater
    } else {
        lex_order(a.skip(1), b.skip(1))
    }
}

/// The order of two integers.
pub open spec fn int_order(x: int, y: int) -> NameOrder {
    if x < y { NameOrder::Less } else if x > y { NameOrder::Greater } else { NameOrder::Equal }
}

/// The index of the last `-` of `s`, if any.
pub open spec fn last_dash(s: Seq<char>) -> Option<int> {
    if exists|i: int| 0 <= i < s.len() && #[trigger] s[i] == '-' {
        Some(choose|i: int| 0 <= i < s.len() && s[i] == '-'
            && forall|j: int| i < j < s.len() ==> #[trigger] s[j] != '-')
    } else {
        None
    }
}

/// The order of saved file names: where both have a `-`, the parts before
/// their last `-` are equal, and both parts after it read as integers, those
/// integers decide; otherwise the names compare as text (prefixes that
/// differ compare as text too).
pub open spec fn name_order(a: Seq<char>, b: Seq<char>) -> NameOrder {
    match (last_dash(a), last_dash(b)) {
        (Some(i), Some(j)) => {
            let prefixes = lex_order(a.take(i), b.take(j));
            if prefixes != NameOrder::Equal {
                prefixes
            } else {
                match (spec_parse_i64(a.skip(i + 1)), spec_parse_i64(b.skip(j + 1))) {
                    (Some(x), Some(y)) => int_order(x as int, y as int),
                    _ => lex_order(a, b),
                }
            }
        },
        _ => lex_order(a, b),
    }
}

proof fn lemma_lex_order_skip(a: Seq<char>, b: Seq<char>, i: int)
    requires
        0 <= i <= a.len(),
        i <= b.len(),
        a.take(i) == b.take(i),
    ensures
        lex_order(a, b) == lex_order(a.skip(i), b.skip(i)),
    decreases i,
{
    if i > 0 {
        assert(a[0] == a.take(i)[0]);
        assert(b[0] == b.take(i)[0]);
        assert(a.skip(1).take(i - 1) =~= a.take(i).skip(1));
        assert(b.skip(1).take(i - 1) =~= b.take(i).skip(1));
        lemma_lex_order_skip(a.skip(1), b.skip(1), i - 1);
        assert(a.skip(1).skip(i - 1) =~= a.skip(i));
        assert(b.skip(1).skip(i - 1) =~= b.skip(i));
    } else {
        assert(a.skip(0) =~= a);
        assert(b.skip(0) =~= b);
    }
}

/// Compare two character sequences as text.
fn lex_compare(a: &Vec<char>, b: &Vec<char>, a_len: usize, b_len: usize) -> (r: NameOrder)
    requires
        a_len <= a@.len(),
        b_len <= b@.len(),
    ensures
        r == lex_order(a@.take(a_len as int), b@.take(b_len as int)),
{
    let ghost sa = a@.take(a_len as int);
    let ghost sb = b@.take(b_len as int);
    let mut i: usize = 0;
    while i < a_len && i < b_len
        invariant
            i <= a_len,
            i <= b_len,
            a_len <= a@.len(),
            b_len <= b@.len(),
            sa == a@.take(a_len as int),
            sb == b@.take(b_len as int),
            sa.take(i as int) == sb.take(i as int),
        decreases a_len - i,
    {
        if a[i] < b[i] {
            proof {
                lemma_lex_order_skip(sa, sb, i as int);
            }
            return NameOrder::Less;
        }
        if a[i] > b[i] {
            proof {
                lemma_lex_order_skip(sa, sb, i as int);
            }
            return NameOrder::Greater;
        }
        assert(sa.take(i as int + 1) =~= sa.take(i as int).push(sa[i as int]));
        assert(sb.take(i as int + 1) =~= sb.take(i as int).push(sb[i as int]));
        i = i + 1;
    }
    proof {
        lemma_lex_order_skip(sa, sb, i as int);
    }
    if i < a_len {
        NameOrder::Greater
    } else if i < b_len {
        NameOrder::Less
    } else {
        NameOrder::Equal
    }
}

/// The index of the last `-`, if any.
fn find_last_dash(s: &Vec<char>) -> (r: Option<usize>)
    ensures
        match r {
            Some(i) => i < s@.len() && last_dash(s@) == Some(i as int),
            None => last_dash(s@) is None,
        },
{
    let mut k: usize = s.len();
    while k > 0
        invariant
            k <= s@.len(),
            forall|j: int| k <= j < s@.len() ==> #[trigger] s@[j] != '-',
        decreases k,
    {
        k = k - 1;
        if s[k] == '-' {
            proof {
                let w = k as int;
                assert(0 <= w < s@.len() && s@[w] == '-');
                let c = choose|c: int| 0 <= c < s@.len() && s@[c] == '-'
                    && forall|j: int| c < j < s@.len() ==> #[trigger] s@[j] != '-';
                assert(0 <= w < s@.len() && s@[w] == '-' && forall|j: int| w < j < s@.len() ==> #[trigger] s@[j] != '-');
                if c < w {
                    assert(s@[w] != '-');
                }
                if w < c {
                    assert(s@[c] != '-');
                }
            }
            return Some(k);
        }
    }
    None
}

/// Compare two saved file names (without extension), so that names that
/// differ only by the number after their last `-` sort by that number.
pub fn compare_file_names(a: &str, b: &str) -> (r: NameOrder)
    ensures
        r == name_order(a@, b@),
{
    let av = chars_of(a);
    let bv = chars_of(b);
    let a_len = av.len();
    let b_len = bv.len();
    assert(av@.take(a_len as int) =~= av@);
    assert(bv@.take(b_len as int) =~= bv@);
    let (i, j) = match (find_last_dash(&av), find_last_dash(&bv)) {
        (Some(i), Some(j)) => (i, j),
        _ => {
            return lex_compare(&av, &bv, a_len, b_len);
        },
    };
    let prefixes = lex_compare(&av, &bv, i, j);
    if prefixes != NameOrder::Equal {
        return prefixes;
    }
    let a_suffix = a.substring_char(i + 1, a_len);
    let b_suffix = b.substring_char(j + 1, b_len);
    assert(a_suffix@ =~= a@.skip(i + 1));
    assert(b_suffix@ =~= b@.skip(j + 1));
    match (parse_i64(a_suffix), parse_i64(b_suffix)) {
        (Some(x), Some(y)) => {
            if x < y {
                NameOrder::Less
            } else if x > y {
                NameOrder::Greater
            } else {
                NameOrder::Equal
            }
        },
        _ => lex_compare(&av, &bv, a_len, b_len),
    }
}

proof fn lemma_lex_order_antisymmetric(a: Seq<char>, b: Seq<char>)
    ensures
        (lex_order(a, b) == NameOrder::Less) == (lex_order(b, a) == NameOrder::Greater),
        (lex_order(a, b) == NameOrder::Equal) == (lex_order(b, a) == NameOrder::Equal),
    decreases a.len(),
{
    if a.len() > 0 && b.len() > 0 && a[0] == b[0] {
        lemma_lex_order_antisymmetric(a.skip(1), b.skip(1));
    }
}

proof fn lemma_lex_order_reflexive(a: Seq<char>)
    ensures
        lex_order(a, a) == NameOrder::Equal,
    decreases a.len(),
{
    if a.len() > 0 {
        lemma_lex_order_reflexive(a.skip(1));
    }
}

/// Swapping the names swaps the order: `a` comes before `b` exactly when `b`
/// comes after `a`, and they tie in either order or in neither.
pub proof fn law_name_order_antisymmetric(a: Seq<char>, b: Seq<char>)
    ensures
        (name_order(a, b) == NameOrder::Less) == (name_order(b, a) == NameOrder::Greater),
        (name_order(a, b) == NameOrder::Equal) == (name_order(b, a) == NameOrder::Equal),
{
    lemma_lex_order_antisymmetric(a, b);
    match (last_dash(a), last_dash(b)) {
        (Some(i), Some(j)) => {
            lemma_lex_order_antisymmetric(a.take(i), b.take(j));
        },
        _ => {},
    }
}

/// Every name ties with itself.
pub proof fn law_name_order_reflexive(a: Seq<char>)
    ensures
        name_order(a, a) == NameOrder::Equal,
{
    lemma_lex_order_reflexive(a);
    if let Some(i) = last_dash(a) {
        lemma_lex_order_reflexive(a.take(i));
    }
}

/// The texts of a list of strings.
pub open spec fn texts(v: Seq<String>) -> Seq<Seq<char>> {
    v.map_values(|s: String| s@)
}

/// The name at `i` is in order with the next one: never after it in
/// [`name_order`].
pub open spec fn in_order_at(v: Seq<Seq<char>>, i: int) -> bool {
    name_order(v[i], v[i + 1]) != NameOrder::Greater
}

/// Each name is in order with the next one.
pub open spec fn names_in_order(v: Seq<Seq<char>>) -> bool {
    forall|i: int| 0 <= i < v.len() - 1 ==> #[trigger] in_order_at(v, i)
}

proof fn lemma_insert_keeps_order(before: Seq<Seq<char>>, j: int, x: Seq<char>)
    requires
        names_in_order(before),
        0 <= j <= before.len(),
        j == 0 || name_order(before[j - 1], x) != NameOrder::Greater,
        j < before.len() ==> name_order(x, before[j]) != NameOrder::Greater,
    ensures
        names_in_order(before.insert(j, x)),
{
    let after = before.insert(j, x);
    assert forall|k: int| 0 <= k < after.len() - 1 implies #[trigger] in_order_at(after, k) by {
        if k + 1 < j {
            assert(after[k] == before[k] && after[k + 1] == before[k + 1]);
            assert(in_order_at(before, k));
        } else if k + 1 == j {
            assert(after[k] == before[k] && after[k + 1] == x);
        } else if k == j {
            assert(after[k] == x && after[k + 1] == before[k]);
        } else {
            assert(after[k] == before[k - 1] && after[k + 1] == before[k]);
            assert(in_order_at(before, k - 1));
        }
    }
}

proof fn lemma_insert_keeps_names(
    before: Seq<Seq<char>>,
    j: int,
    names: Seq<String>,
    i: int,
)
    requires
        0 <= i < names.len(),
        0 <= j <= before.len(),
        before.to_multiset() == texts(names.take(i)).to_multiset(),
    ensures
        before.insert(j, names[i]@).to_multiset() == texts(names.take(i + 1)).to_multiset(),
{
    assert(texts(names.take(i + 1)) =~= texts(names.take(i)).push(names[i]@));
    vstd::seq_lib::to_multiset_build(texts(names.take(i)), names[i]@);
    vstd::seq_lib::to_multiset_insert(before, j, names[i]@);
}

/// Sort saved file names for listing: the result holds the same names, each
/// in order with the next one. (The order is not transitive on every set of
/// names, so "in order with the next one" is what a sort can promise.)
pub fn sort_file_names(names: &Vec<String>) -> (r: Vec<String>)
    ensures
        texts(r@).to_multiset() == texts(names@).to_multiset(),
        names_in_order(texts(r@)),
{
    let mut out: Vec<String> = Vec::new();
    assert(texts(out@) =~= texts(names@.take(0)));
    let mut i: usize = 0;
    while i < names.len()
        invariant
            i <= names@.len(),
            texts(out@).to_multiset() == texts(names@.take(i as int)).to_multiset(),
            names_in_order(texts(out@)),
        decreases names@.len() - i,
    {
        let x = names[i].clone();
        let mut j: usize = out.len();
        while j > 0 && compare_file_names(out[j - 1].as_str(), x.as_str()) == NameOrder::Greater
            invariant
                j <= out@.len(),
                forall|k: int| j <= k < out@.len() ==> name_order(#[trigger] out@[k]@, x@) == NameOrder::Greater,
            decreases j,
        {
            j = j - 1;
        }
        let ghost before = texts(out@);
        proof {
            if j < out@.len() {
                law_name_order_antisymmetric(x@, out@[j as int]@);
                assert(before[j as int] == out@[j as int]@);
            }
            if j > 0 {
                assert(before[j - 1] == out@[j - 1]@);
            }
            lemma_insert_keeps_order(before, j as int, x@);
            lemma_insert_keeps_names(before, j as int, names@, i as int);
        }
        out.insert(j, x);
        assert(texts(out@) =~= before.insert(j as int, names@[i as int]@));
        i = i + 1;
    }
    assert(names@.take(names@.len() as int) =~= names@);
    out
}

} // verus!
