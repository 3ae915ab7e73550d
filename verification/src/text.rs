//! Text building blocks: decimal rendering, joining, padding, trimming,
//! splitting and ordering of strings, each stated over `Seq<char>`.
use vstd::prelude::*;

verus! {

/// The views of a sequence of strings.
pub open spec fn views(v: Seq<String>) -> Seq<Seq<char>> {
    v.map_values(|s: String| s@)
}

/// The characters of a string, in order.
pub fn chars_of(s: &str) -> (v: Vec<char>)
    ensures
        v@ == s@,
{
    let mut v: Vec<char> = Vec::new();
    for c in it: s.chars()
        invariant
            v@ == it.seq().take(it.index() as int),
            it.seq() == s@,
    {
        v.push(c);
    }
    v
}

/// The owned copy of a string slice.
pub fn owned(s: &str) -> (r: String)
    ensures
        r@ == s@,
{
    s.to_owned()
}

/// Whether a string equals a given text.
pub fn eq_str(s: &String, lit: &str) -> (b: bool)
    ensures
        b == (s@ == lit@),
{
    let other = owned(lit);
    *s == other
}

// ---------------------------------------------------------------------
// Decimal rendering
// ---------------------------------------------------------------------
/// The decimal digit for `d` (`0 <= d < 10`).
pub open spec fn digit_char(d: nat) -> char {
    seq!['0', '1', '2', '3', '4', '5', '6', '7', '8', '9'][d as int]
}

/// The decimal representation of `n`, without leading zeros.
pub open spec fn decimal(n: nat) -> Seq<char>
    decreases n,
{
    if n < 10 {
        seq![digit_char(n)]
    } else {
        decimal(n / 10).push(digit_char(n % 10))
    }
}

fn digit_str(d: u64) -> (r: &'static str)
    requires
        d < 10,
    ensures
        r@ == seq![digit_char(d as nat)],
{
    let digits = "0123456789";
    proof {
        reveal_strlit("0123456789");
    }
    let r = digits.substring_char(d as usize, (d + 1) as usize);
    assert(r@ =~= seq![digit_char(d as nat)]);
    r
}

/// Renders `n` in decimal, as `{}` formats an unsigned integer.
pub fn decimal_string(n: u64) -> (s: String)
    ensures
        s@ == decimal(n as nat),
    decreases n,
{
    if n < 10 {
        owned(digit_str(n))
    } else {
        let mut s = decimal_string(n / 10);
        s.append(digit_str(n % 10));
        s
    }
}

// ---------------------------------------------------------------------
// Repetition and padding
// ---------------------------------------------------------------------
/// `s` repeated `n` times.
pub open spec fn repeat_seq(s: Seq<char>, n: nat) -> Seq<char>
    decreases n,
{
    if n == 0 {
        Seq::empty()
    } else {
        repeat_seq(s, (n - 1) as nat) + s
    }
}

/// `s` repeated `n` times, as `str::repeat` does.
pub fn repeat_str(s: &str, n: usize) -> (r: String)
    ensures
        r@ == repeat_seq(s@, n as nat),
{
    let mut r = String::new();
    let mut i: usize = 0;
    while i < n
        invariant
            i <= n,
            r@ == repeat_seq(s@, i as nat),
        decreases n - i,
    {
        r.append(s);
        i = i + 1;
    }
    r
}

/// `s` padded on the right with spaces to at least `width` characters,
/// as the `{:width$}` format of a string does.
pub open spec fn pad_right_seq(s: Seq<char>, width: nat) -> Seq<char> {
    if s.len() < width {
        s + repeat_seq(seq![' '], (width - s.len()) as nat)
    } else {
        s
    }
}

/// Pads `s` with spaces on the right to `width` characters.
pub fn pad_right(s: &str, width: usize) -> (r: String)
    ensures
        r@ == pad_right_seq(s@, width as nat),
{
    let len = s.unicode_len();
    let mut r = owned(s);
    if len < width {
        let space = " ";
        proof {
            reveal_strlit(" ");
        }
        assert(space@ =~= seq![' ']);
        let fill = repeat_str(space, width - len);
        r.append(fill.as_str());
    }
    assert(len == s@.len());
    r
}

// ---------------------------------------------------------------------
// Joining
// ---------------------------------------------------------------------
/// The strings of `parts` joined by `sep`, as `[String]::join` does.
pub open spec fn join_seq(parts: Seq<Seq<char>>, sep: Seq<char>) -> Seq<char>
    decreases parts.len(),
{
    if parts.len() == 0 {
        Seq::empty()
    } else if parts.len() == 1 {
        parts[0]
    } else {
        join_seq(parts.drop_last(), sep) + sep + parts.last()
    }
}

/// Joins the strings of `parts` with `sep` between consecutive ones.
pub fn join(parts: &Vec<String>, sep: &str) -> (r: String)
    ensures
        r@ == join_seq(views(parts@), sep@),
{
    let mut r = String::new();
    let n = parts.len();
    let mut i: usize = 0;
    while i < n
        invariant
            i <= n,
            n == parts@.len(),
            r@ == join_seq(views(parts@.take(i as int)), sep@),
        decreases n - i,
    {
        let ghost prev = views(parts@.take(i as int));
        let ghost next = views(parts@.take(i + 1));
        assert(next.drop_last() =~= prev);
        assert(next.last() == parts@[i as int]@);
        if i > 0 {
            r.append(sep);
        }
        r.append(parts[i].as_str());
        assert(i == 0 ==> prev.len() == 0);
        i = i + 1;
    }
    assert(parts@.take(n as int) =~= parts@);
    r
}

// ---------------------------------------------------------------------
// Whitespace trimming
// ---------------------------------------------------------------------
/// The characters with the Unicode White_Space property, which
/// `char::is_whitespace` accepts.
pub open spec fn is_ws(c: char) -> bool {
    let u = c as u32;
    ||| (0x09 <= u && u <= 0x0D)
    ||| u == 0x20
    ||| u == 0x85
    ||| u == 0xA0
    ||| u == 0x1680
    ||| (0x2000 <= u && u <= 0x200A)
    ||| u == 0x2028
    ||| u == 0x2029
    ||| u == 0x202F
    ||| u == 0x205F
    ||| u == 0x3000
}

/// Whether `c` is whitespace.
pub fn is_whitespace(c: char) -> (b: bool)
    ensures
        b == is_ws(c),
{
    let u = c as u32;
    (0x09 <= u && u <= 0x0D) || u == 0x20 || u == 0x85 || u == 0xA0 || u == 0x1680 || (0x2000
        <= u && u <= 0x200A) || u == 0x2028 || u == 0x2029 || u == 0x202F || u == 0x205F || u
        == 0x3000
}

/// `s` without leading whitespace.
pub open spec fn trim_start_seq(s: Seq<char>) -> Seq<char>
    decreases s.len(),
{
    if s.len() > 0 && is_ws(s[0]) {
        trim_start_seq(s.drop_first())
    } else {
        s
    }
}

/// `s` without trailing whitespace.
pub open spec fn trim_end_seq(s: Seq<char>) -> Seq<char>
    decreases s.len(),
{
    if s.len() > 0 && is_ws(s.last()) {
        trim_end_seq(s.drop_last())
    } else {
        s
    }
}

/// `s` without leading and trailing whitespace, as `str::trim` gives it.
pub open spec fn trim_seq(s: Seq<char>) -> Seq<char> {
    trim_end_seq(trim_start_seq(s))
}

proof fn lemma_trim_start_skip(s: Seq<char>, i: int)
    requires
        0 <= i <= s.len(),
        forall|k: int| 0 <= k < i ==> is_ws(#[trigger] s[k]),
    ensures
        trim_start_seq(s) == trim_start_seq(s.subrange(i, s.len() as int)),
    decreases i,
{
    if i > 0 {
        lemma_trim_start_skip(s.drop_first(), i - 1);
        assert(s.drop_first().subrange(i - 1, s.drop_first().len() as int) =~= s.subrange(
            i,
            s.len() as int,
        ));
    } else {
        assert(s.subrange(0, s.len() as int) =~= s);
    }
}

proof fn lemma_trim_end_skip(s: Seq<char>, j: int)
    requires
        0 <= j <= s.len(),
        forall|k: int| j <= k < s.len() ==> is_ws(#[trigger] s[k]),
    ensures
        trim_end_seq(s) == trim_end_seq(s.subrange(0, j)),
    decreases s.len() - j,
{
    if j < s.len() {
        lemma_trim_end_skip(s.drop_last(), j);
        assert(s.drop_last().subrange(0, j) =~= s.subrange(0, j));
    } else {
        assert(s.subrange(0, j) =~= s);
    }
}

/// Removes leading and trailing whitespace from `s`.
pub fn trim(s: &str) -> (r: String)
    ensures
        r@ == trim_seq(s@),
{
    let cs = chars_of(s);
    let n = cs.len();
    let mut i: usize = 0;
    while i < n && is_whitespace(cs[i])
        invariant
            i <= n,
            n == cs@.len(),
            forall|k: int| 0 <= k < i ==> is_ws(#[trigger] cs@[k]),
        decreases n - i,
    {
        i = i + 1;
    }
    let mut j: usize = n;
    while j > i && is_whitespace(cs[j - 1])
        invariant
            i <= j <= n,
            n == cs@.len(),
            forall|k: int| j <= k < n ==> is_ws(#[trigger] cs@[k]),
        decreases j - i,
    {
        j = j - 1;
    }
    proof {
        let t = s@.subrange(i as int, n as int);
        lemma_trim_start_skip(s@, i as int);
        assert(i == n || !is_ws(t[0]));
        assert(trim_start_seq(t) == t);
        assert forall|k: int| (j - i) <= k < t.len() implies is_ws(#[trigger] t[k]) by {
            assert(t[k] == cs@[k + i]);
        }
        lemma_trim_end_skip(t, j - i);
        let u = t.subrange(0, j - i);
        assert(u.len() == 0 || !is_ws(u.last())) by {
            if u.len() > 0 {
                assert(u.last() == cs@[j - 1]);
            }
        }
        assert(trim_end_seq(u) == u);
        assert(u =~= s@.subrange(i as int, j as int));
    }
    owned(s.substring_char(i, j))
}

// ---------------------------------------------------------------------
// Splitting
// ---------------------------------------------------------------------
/// The pieces of `s` between occurrences of `sep`, as `str::split` with a
/// `char` pattern yields them (an empty `s` gives one empty piece).
pub open spec fn split_seq(s: Seq<char>, sep: char) -> Seq<Seq<char>>
    decreases s.len(),
{
    if s.len() == 0 {
        seq![Seq::empty()]
    } else {
        let prev = split_seq(s.drop_last(), sep);
        if s.last() == sep {
            prev.push(Seq::empty())
        } else {
            prev.update(prev.len() - 1, prev.last().push(s.last()))
        }
    }
}

pub proof fn lemma_split_nonempty(s: Seq<char>, sep: char)
    ensures
        split_seq(s, sep).len() >= 1,
    decreases s.len(),
{
    if s.len() > 0 {
        lemma_split_nonempty(s.drop_last(), sep);
    }
}

/// Splits `s` at every occurrence of `sep`.
pub fn split_on(s: &str, sep: char) -> (r: Vec<String>)
    ensures
        views(r@) == split_seq(s@, sep),
{
    let cs = chars_of(s);
    let n = cs.len();
    let mut pieces: Vec<String> = Vec::new();
    let mut start: usize = 0;
    let mut i: usize = 0;
    assert(s@.take(0) =~= Seq::<char>::empty());
    assert(views(pieces@).push(s@.subrange(0, 0)) =~= seq![Seq::<char>::empty()]);
    while i < n
        invariant
            start <= i <= n,
            n == cs@.len(),
            cs@ == s@,
            views(pieces@).push(s@.subrange(start as int, i as int)) == split_seq(
                s@.take(i as int),
                sep,
            ),
        decreases n - i,
    {
        let ghost before = split_seq(s@.take(i as int), sep);
        assert(s@.take(i + 1).drop_last() =~= s@.take(i as int));
        assert(s@.take(i + 1).last() == cs@[i as int]);
        let ghost old_views = views(pieces@);
        if cs[i] == sep {
            let piece = owned(s.substring_char(start, i));
            pieces.push(piece);
            assert(views(pieces@) =~= old_views.push(s@.subrange(start as int, i as int)));
            start = i + 1;
            assert(s@.subrange(start as int, (i + 1) as int) =~= Seq::<char>::empty());
            assert(views(pieces@).push(s@.subrange(start as int, (i + 1) as int))
                =~= before.push(Seq::empty()));
        } else {
            proof {
                lemma_split_nonempty(s@.take(i as int), sep);
                assert(s@.subrange(start as int, (i + 1) as int) =~= s@.subrange(
                    start as int,
                    i as int,
                ).push(cs@[i as int]));
                assert(views(pieces@).push(s@.subrange(start as int, (i + 1) as int))
                    =~= before.update(before.len() - 1, before.last().push(cs@[i as int])));
            }
        }
        i = i + 1;
    }
    let last = owned(s.substring_char(start, n));
    pieces.push(last);
    assert(s@.take(n as int) =~= s@);
    assert(views(pieces@) =~= split_seq(s@, sep));
    pieces
}

// ---------------------------------------------------------------------
// Ordering
// ---------------------------------------------------------------------
/// Lexicographic order on characters, the order of `str`'s `Ord`
/// (UTF-8 preserves the order of code points).
pub open spec fn lex_le(a: Seq<char>, b: Seq<char>) -> bool
    decreases a.len(),
{
    if a.len() == 0 {
        true
    } else if b.len() == 0 {
        false
    } else if a[0] == b[0] {
        lex_le(a.drop_first(), b.drop_first())
    } else {
        a[0] < b[0]
    }
}

/// Every string comes no later than itself.
pub proof fn lemma_lex_refl(a: Seq<char>)
    ensures
        lex_le(a, a),
    decreases a.len(),
{
    if a.len() > 0 {
        lemma_lex_refl(a.drop_first());
    }
}

/// Any two strings are ordered one way or the other.
pub proof fn lemma_lex_total(a: Seq<char>, b: Seq<char>)
    ensures
        lex_le(a, b) || lex_le(b, a),
    decreases a.len(),
{
    if a.len() > 0 && b.len() > 0 && a[0] == b[0] {
        lemma_lex_total(a.drop_first(), b.drop_first());
    }
}

/// The order is transitive.
pub proof fn lemma_lex_trans(a: Seq<char>, b: Seq<char>, c: Seq<char>)
    requires
        lex_le(a, b),
        lex_le(b, c),
    ensures
        lex_le(a, c),
    decreases a.len(),
{
    if a.len() > 0 && b.len() > 0 && c.len() > 0 && a[0] == b[0] && b[0] == c[0] {
        lemma_lex_trans(a.drop_first(), b.drop_first(), c.drop_first());
    }
}

/// The order is antisymmetric.
pub proof fn lemma_lex_antisym(a: Seq<char>, b: Seq<char>)
    requires
        lex_le(a, b),
        lex_le(b, a),
    ensures
        a == b,
    decreases a.len(),
{
    if a.len() > 0 && b.len() > 0 {
        lemma_lex_antisym(a.drop_first(), b.drop_first());
        assert(a[0] == b[0]);
        assert(a =~= seq![a[0]] + a.drop_first());
        assert(b =~= seq![b[0]] + b.drop_first());
    } else {
        assert(a.len() == 0 && b.len() == 0);
        assert(a =~= b);
    }
}

/// Whether `a` comes no later than `b` in lexicographic order.
pub fn str_le(a: &Vec<char>, b: &Vec<char>) -> (r: bool)
    ensures
        r == lex_le(a@, b@),
{
    let n = a.len();
    let m = b.len();
    let mut i: usize = 0;
    assert(a@.skip(0) =~= a@);
    assert(b@.skip(0) =~= b@);
    while i < n && i < m && a[i] == b[i]
        invariant
            i <= n,
            i <= m,
            n == a@.len(),
            m == b@.len(),
            lex_le(a@, b@) == lex_le(a@.skip(i as int), b@.skip(i as int)),
        decreases n - i,
    {
        assert(a@.skip(i as int).drop_first() =~= a@.skip(i + 1));
        assert(b@.skip(i as int).drop_first() =~= b@.skip(i + 1));
        i = i + 1;
    }
    if i == n {
        true
    } else if i == m {
        false
    } else {
        a[i] < b[i]
    }
}

/// Whether `s` is sorted in lexicographic order.
pub open spec fn sorted_seq(s: Seq<Seq<char>>) -> bool {
    forall|i: int, j: int| 0 <= i < j < s.len() ==> lex_le(#[trigger] s[i], #[trigger] s[j])
}

/// A sorted order of a collection of strings is unique: two sorted
/// sequences with the same elements are equal.
pub proof fn lemma_sorted_unique(a: Seq<Seq<char>>, b: Seq<Seq<char>>)
    requires
        sorted_seq(a),
        sorted_seq(b),
        a.to_multiset() == b.to_multiset(),
    ensures
        a == b,
    decreases a.len(),
{
    broadcast use vstd::seq_lib::group_to_multiset_ensures;

    a.to_multiset_ensures();
    b.to_multiset_ensures();
    assert(a.len() == b.len());
    if a.len() == 0 {
        assert(a =~= b);
    } else {
        let m = a[0];
        let n = b[0];
        assert(b.to_multiset().count(m) > 0) by {
            assert(a.contains(m));
        }
        assert(b.contains(m));
        let j = choose|j: int| 0 <= j < b.len() && b[j] == m;
        if j > 0 {
            assert(lex_le(b[0], b[j]));
        } else {
            lemma_lex_refl(m);
        }
        assert(lex_le(n, m));
        assert(a.contains(n)) by {
            assert(b.contains(n));
            assert(a.to_multiset().count(n) > 0);
        }
        let k = choose|k: int| 0 <= k < a.len() && a[k] == n;
        if k > 0 {
            assert(lex_le(a[0], a[k]));
        } else {
            lemma_lex_refl(n);
        }
        assert(lex_le(m, n));
        lemma_lex_antisym(m, n);
        let a1 = a.drop_first();
        let b1 = b.drop_first();
        assert(a.remove(0) =~= a1);
        assert(b.remove(0) =~= b1);
        assert(a1.to_multiset() =~= b1.to_multiset());
        assert forall|x: int, y: int| 0 <= x < y < a1.len() implies lex_le(
            #[trigger] a1[x],
            #[trigger] a1[y],
        ) by {
            assert(a1[x] == a[x + 1] && a1[y] == a[y + 1]);
        }
        assert forall|x: int, y: int| 0 <= x < y < b1.len() implies lex_le(
            #[trigger] b1[x],
            #[trigger] b1[y],
        ) by {
            assert(b1[x] == b[x + 1] && b1[y] == b[y + 1]);
        }
        lemma_sorted_unique(a1, b1);
        assert(a =~= b) by {
            assert forall|i: int| 0 <= i < a.len() implies a[i] == b[i] by {
                if i > 0 {
                    assert(a[i] == a1[i - 1]);
                    assert(b[i] == b1[i - 1]);
                }
            }
        }
    }
}

proof fn lemma_multiset_insert<A>(s: Seq<A>, i: int, x: A)
    requires
        0 <= i <= s.len(),
    ensures
        s.insert(i, x).to_multiset() =~= s.to_multiset().insert(x),
{
    broadcast use vstd::seq_lib::group_to_multiset_ensures;

    let t = s.insert(i, x);
    assert(t.remove(i) =~= s);
    assert(t[i] == x);
    assert(t.remove(i).to_multiset() =~= t.to_multiset().remove(x));
    assert(t.to_multiset().count(x) > 0) by {
        assert(t.contains(x));
    }
}

/// Sorts `names` in ascending lexicographic order, as `Vec::sort` does.
pub fn sort_strings(names: Vec<String>) -> (r: Vec<String>)
    ensures
        sorted_seq(views(r@)),
        views(r@).to_multiset() == views(names@).to_multiset(),
{
    let mut r: Vec<String> = Vec::new();
    let mut keys: Vec<Vec<char>> = Vec::new();
    let n = names.len();
    let mut i: usize = 0;
    assert(views(names@.take(0)) =~= views(r@));
    while i < n
        invariant
            i <= n,
            n == names@.len(),
            keys@.len() == r@.len(),
            forall|k: int| 0 <= k < r@.len() ==> (#[trigger] keys@[k])@ == r@[k]@,
            sorted_seq(views(r@)),
            views(r@).to_multiset() == views(names@.take(i as int)).to_multiset(),
        decreases n - i,
    {
        let x = names[i].clone();
        let xk = chars_of(x.as_str());
        let m = r.len();
        let mut p: usize = 0;
        while p < m && str_le(&keys[p], &xk)
            invariant
                p <= m,
                m == r@.len(),
                xk@ == x@,
                keys@.len() == r@.len(),
                forall|k: int| 0 <= k < r@.len() ==> (#[trigger] keys@[k])@ == r@[k]@,
                forall|k: int| 0 <= k < p ==> lex_le((#[trigger] r@[k])@, x@),
            decreases m - p,
        {
            assert(keys@[p as int]@ == r@[p as int]@);
            p = p + 1;
        }
        let ghost old_views = views(r@);
        let ghost old_keys = keys@;
        proof {
            if p < m {
                lemma_lex_total(x@, r@[p as int]@);
            }
            assert forall|k: int| p <= k < m implies lex_le(x@, #[trigger] old_views[k]) by {
                assert(lex_le(x@, old_views[p as int]));
                if k > p {
                    assert(lex_le(old_views[p as int], old_views[k]));
                    lemma_lex_trans(x@, old_views[p as int], old_views[k]);
                }
            }
        }
        r.insert(p, x);
        keys.insert(p, xk);
        proof {
            let nv = views(r@);
            assert(nv =~= old_views.insert(p as int, x@));
            assert forall|a: int, b: int| 0 <= a < b < nv.len() implies lex_le(
                #[trigger] nv[a],
                #[trigger] nv[b],
            ) by {
                if a < p && b < p {
                    assert(nv[a] == old_views[a] && nv[b] == old_views[b]);
                } else if a < p && b == p {
                } else if a < p && b > p {
                    assert(nv[a] == old_views[a] && nv[b] == old_views[b - 1]);
                    assert(lex_le(old_views[a], x@));
                    assert(lex_le(x@, old_views[b - 1]));
                    lemma_lex_trans(old_views[a], x@, old_views[b - 1]);
                } else if a == p {
                    assert(nv[b] == old_views[b - 1]);
                } else {
                    assert(nv[a] == old_views[a - 1] && nv[b] == old_views[b - 1]);
                }
            }
            lemma_multiset_insert(old_views, p as int, x@);
            assert(views(names@.take(i + 1)) =~= views(names@.take(i as int)).push(
                names@[i as int]@,
            ));
            vstd::seq_lib::to_multiset_build(views(names@.take(i as int)), names@[i as int]@);
            assert forall|k: int| 0 <= k < r@.len() implies (#[trigger] keys@[k])@ == r@[k]@ by {
                if k < p {
                } else if k > p {
                    assert(keys@[k] == old_keys[k - 1]);
                }
            }
        }
        i = i + 1;
    }
    assert(names@.take(n as int) =~= names@);
    r
}

} // verus!
