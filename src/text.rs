//! Character-sequence helpers: equality of string slices and the
//! hyphen-separated encoding of name lists.
use vstd::prelude::*;
use vstd::string::*;

verus! {

/// The list separator used inside a single field.
pub open spec fn hyphen() -> char {
    '-'
}

/// `items` joined with a hyphen between consecutive elements.
pub open spec fn join_hyphen(items: Seq<Seq<char>>) -> Seq<char>
    decreases items.len(),
{
    if items.len() == 0 {
        Seq::empty()
    } else if items.len() == 1 {
        items[0]
    } else {
        join_hyphen(items.drop_last()) + seq![hyphen()] + items.last()
    }
}

/// The pieces of `s` between hyphens, in order (an empty `s` is one empty piece).
pub open spec fn split_hyphen(s: Seq<char>) -> Seq<Seq<char>>
    decreases s.len(),
{
    if s.len() == 0 {
        seq![Seq::empty()]
    } else {
        let init = split_hyphen(s.drop_last());
        if s.last() == hyphen() {
            init.push(Seq::empty())
        } else {
            init.update(init.len() - 1, init.last().push(s.last()))
        }
    }
}

/// A list field decodes to no names when empty, else to its hyphen-separated pieces.
pub open spec fn decode_list(s: Seq<char>) -> Seq<Seq<char>> {
    if s.len() == 0 {
        Seq::empty()
    } else {
        split_hyphen(s)
    }
}

pub open spec fn has_no_hyphen(s: Seq<char>) -> bool {
    forall|i: int| 0 <= i < s.len() ==> s[i] != hyphen()
}

/// A list element survives encoding: it is non-empty and holds no separator.
pub open spec fn valid_list_item(s: Seq<char>) -> bool {
    s.len() > 0 && has_no_hyphen(s)
}

pub open spec fn valid_list(items: Seq<Seq<char>>) -> bool {
    forall|i: int| 0 <= i < items.len() ==> valid_list_item(#[trigger] items[i])
}

pub proof fn lemma_split_nonempty(s: Seq<char>)
    ensures
        split_hyphen(s).len() >= 1,
    decreases s.len(),
{
    if s.len() > 0 {
        lemma_split_nonempty(s.drop_last());
    }
}

/// Appending hyphen-free text extends the last piece.
pub proof fn lemma_split_extend(a: Seq<char>, b: Seq<char>)
    requires
        has_no_hyphen(b),
    ensures
        split_hyphen(a + b) == split_hyphen(a).update(
            split_hyphen(a).len() - 1,
            split_hyphen(a).last() + b,
        ),
    decreases b.len(),
{
    lemma_split_nonempty(a);
    if b.len() == 0 {
        assert(a + b =~= a);
        assert(split_hyphen(a).last() + b =~= split_hyphen(a).last());
        assert(split_hyphen(a).update(split_hyphen(a).len() - 1, split_hyphen(a).last())
            =~= split_hyphen(a));
    } else {
        let b0 = b.drop_last();
        assert(has_no_hyphen(b0));
        lemma_split_extend(a, b0);
        let ab = a + b;
        assert(ab.drop_last() =~= a + b0);
        assert(ab.last() == b.last());
        assert(b.last() != hyphen());
        lemma_split_nonempty(a + b0);
        assert(split_hyphen(a).last() + b =~= (split_hyphen(a).last() + b0).push(b.last()));
        assert(split_hyphen(ab) =~= split_hyphen(a).update(
            split_hyphen(a).len() - 1,
            split_hyphen(a).last() + b,
        ));
    }
}

/// Splitting a joined list of valid names gives the list back.
pub proof fn lemma_split_join(items: Seq<Seq<char>>)
    requires
        items.len() > 0,
        valid_list(items),
    ensures
        split_hyphen(join_hyphen(items)) == items,
    decreases items.len(),
{
    if items.len() == 1 {
        lemma_split_extend(Seq::empty(), items[0]);
        assert(Seq::<char>::empty() + items[0] =~= items[0]);
        assert(split_hyphen(Seq::<char>::empty()) =~= seq![Seq::<char>::empty()]);
        assert(Seq::<char>::empty() + items[0] =~= items[0]);
        assert(split_hyphen(items[0]) =~= items);
    } else {
        let init = items.drop_last();
        assert(valid_list(init)) by {
            assert forall|i: int| 0 <= i < init.len() implies valid_list_item(#[trigger] init[i]) by {
                assert(init[i] == items[i]);
            }
        }
        lemma_split_join(init);
        let a = join_hyphen(init) + seq![hyphen()];
        assert(valid_list_item(items[items.len() - 1]));
        lemma_split_extend(a, items.last());
        assert(a.drop_last() =~= join_hyphen(init));
        lemma_split_nonempty(a);
        assert(split_hyphen(a) =~= init.push(Seq::empty()));
        assert(Seq::<char>::empty() + items.last() =~= items.last());
        assert(split_hyphen(a + items.last()) =~= items);
    }
}

/// A non-empty list of valid names has a non-empty encoding.
pub proof fn lemma_join_nonempty(items: Seq<Seq<char>>)
    requires
        items.len() > 0,
        valid_list(items),
    ensures
        join_hyphen(items).len() > 0,
    decreases items.len(),
{
    assert(valid_list_item(items[items.len() - 1]));
}

/// Encoding then decoding a valid list of names is the identity.
pub proof fn lemma_decode_join(items: Seq<Seq<char>>)
    requires
        valid_list(items),
    ensures
        decode_list(join_hyphen(items)) == items,
{
    if items.len() > 0 {
        lemma_join_nonempty(items);
        lemma_split_join(items);
    } else {
        assert(decode_list(join_hyphen(items)) =~= items);
    }
}

/// Character-wise equality of two string slices.
pub fn str_eq(a: &str, b: &str) -> (r: bool)
    ensures
        r == (a@ == b@),
{
    let n = a.unicode_len();
    if n != b.unicode_len() {
        return false;
    }
    let mut i: usize = 0;
    while i < n
        invariant
            n == a@.len(),
            n == b@.len(),
            i <= n,
            a@.take(i as int) == b@.take(i as int),
        decreases n - i,
    {
        if a.get_char(i) != b.get_char(i) {
            assert(a@[i as int] != b@[i as int]);
            return false;
        }
        assert(a@.take(i + 1) =~= a@.take(i as int).push(a@[i as int]));
        assert(b@.take(i + 1) =~= b@.take(i as int).push(b@[i as int]));
        i = i + 1;
    }
    assert(a@ =~= a@.take(n as int));
    assert(b@ =~= b@.take(n as int));
    true
}

/// Joins `items` with a hyphen between consecutive elements.
pub fn join_with_hyphen(items: &Vec<String>) -> (r: String)
    ensures
        r@ == join_hyphen(items.deep_view()),
{
    let mut out = String::new();
    let mut i: usize = 0;
    while i < items.len()
        invariant
            i <= items.len(),
            out@ == join_hyphen(items.deep_view().take(i as int)),
        decreases items.len() - i,
    {
        let ghost prev = items.deep_view().take(i as int);
        let ghost next = items.deep_view().take(i + 1);
        assert(next.drop_last() =~= prev);
        if i > 0 {
            out.append("-");
            proof {
                reveal_strlit("-");
            }
        }
        out.append(items[i].as_str());
        i = i + 1;
        proof {
            if i == 1 {
                assert(prev =~= Seq::<Seq<char>>::empty());
            }
        }
    }
    assert(items.deep_view().take(items.len() as int) =~= items.deep_view());
    out
}

/// Splits `s` at every hyphen.
pub fn split_on_hyphen(s: &str) -> (r: Vec<String>)
    ensures
        r.deep_view() == split_hyphen(s@),
{
    let n = s.unicode_len();
    let mut done: Vec<String> = Vec::new();
    let mut start: usize = 0;
    let mut i: usize = 0;
    assert(s@.take(0) =~= Seq::<char>::empty());
    assert(s@.subrange(0, 0) =~= Seq::<char>::empty());
    assert(done.deep_view().push(s@.subrange(0, 0)) =~= split_hyphen(s@.take(0)));
    while i < n
        invariant
            n == s@.len(),
            start <= i <= n,
            done.deep_view().push(s@.subrange(start as int, i as int)) == split_hyphen(
                s@.take(i as int),
            ),
        decreases n - i,
    {
        let c = s.get_char(i);
        let ghost t = s@.take(i + 1);
        assert(t.drop_last() =~= s@.take(i as int));
        assert(t.last() == c);
        if c == '-' {
            let piece = String::from_str(s.substring_char(start, i));
            done.push(piece);
            start = i + 1;
            assert(s@.subrange(start as int, i + 1) =~= Seq::<char>::empty());
        } else {
            assert(s@.subrange(start as int, i + 1) =~= s@.subrange(start as int, i as int).push(c));
        }
        i = i + 1;
    }
    assert(s@.take(n as int) =~= s@);
    let last = String::from_str(s.substring_char(start, n));
    done.push(last);
    done
}

/// Decodes a list field: nothing for an empty field, else the hyphen-separated pieces.
pub fn decode_list_field(s: &str) -> (r: Vec<String>)
    ensures
        r.deep_view() == decode_list(s@),
{
    if s.unicode_len() == 0 {
        let v: Vec<String> = Vec::new();
        assert(v.deep_view() =~= Seq::<Seq<char>>::empty());
        v
    } else {
        split_on_hyphen(s)
    }
}

/// The decimal digit `d` (below ten).
pub open spec fn digit_char(d: nat) -> char {
    seq!['0', '1', '2', '3', '4', '5', '6', '7', '8', '9'][d as int]
}

/// The decimal numeral of `n`, without leading zeros.
pub open spec fn decimal(n: nat) -> Seq<char>
    decreases n,
{
    if n < 10 {
        seq![digit_char(n)]
    } else {
        decimal(n / 10).push(digit_char(n % 10))
    }
}

/// The decimal numeral of `n`.
pub fn decimal_string(n: usize) -> (r: String)
    ensures
        r@ == decimal(n as nat),
    decreases n,
{
    let digits = "0123456789";
    proof {
        reveal_strlit("0123456789");
        assert(digits@ =~= seq!['0', '1', '2', '3', '4', '5', '6', '7', '8', '9']);
    }
    if n < 10 {
        let r = String::from_str(digits.substring_char(n, n + 1));
        assert(r@ =~= seq![digit_char(n as nat)]);
        r
    } else {
        let mut r = decimal_string(n / 10);
        let d = n % 10;
        r.append(digits.substring_char(d, d + 1));
        assert(r@ =~= decimal((n / 10) as nat).push(digit_char(d as nat)));
        r
    }
}

} // verus!
