//! Small string utilities shared by the normalizers and the streaming
//! decoder: sequence concatenation and joining at the specification level,
//! and their executable counterparts.

use vstd::prelude::*;

verus! {

/// The concatenation of a sequence of sequences, in order.
pub open spec fn concat_all<A>(ss: Seq<Seq<A>>) -> Seq<A>
    decreases ss.len(),
{
    if ss.len() == 0 {
        Seq::<A>::empty()
    } else {
        ss.first() + concat_all(ss.drop_first())
    }
}

pub proof fn lemma_concat_all_push<A>(ss: Seq<Seq<A>>, s: Seq<A>)
    ensures
        concat_all(ss.push(s)) == concat_all(ss) + s,
    decreases ss.len(),
{
    if ss.len() == 0 {
        assert(ss.push(s).first() == s);
        assert(ss.push(s).drop_first() =~= Seq::<Seq<A>>::empty());
        assert(concat_all(ss.push(s).drop_first()) == Seq::<A>::empty());
        assert(concat_all(ss.push(s)) == s + Seq::<A>::empty());
        assert(s + Seq::<A>::empty() =~= s);
        assert(concat_all(ss) + s =~= s);
    } else {
        assert(ss.push(s).drop_first() =~= ss.drop_first().push(s));
        lemma_concat_all_push(ss.drop_first(), s);
        assert(concat_all(ss.push(s)) =~= concat_all(ss) + s);
    }
}

pub proof fn lemma_concat_all_append<A>(a: Seq<Seq<A>>, b: Seq<Seq<A>>)
    ensures
        concat_all(a + b) == concat_all(a) + concat_all(b),
    decreases a.len(),
{
    if a.len() == 0 {
        assert(a + b =~= b);
        assert(concat_all(a) + concat_all(b) =~= concat_all(b));
    } else {
        assert((a + b).first() == a.first());
        assert((a + b).drop_first() =~= a.drop_first() + b);
        lemma_concat_all_append(a.drop_first(), b);
        assert(concat_all(a + b) =~= concat_all(a) + concat_all(b));
    }
}

pub proof fn lemma_concat_all_all_empty<A>(ss: Seq<Seq<A>>)
    requires
        forall|i: int| 0 <= i < ss.len() ==> #[trigger] ss[i].len() == 0,
    ensures
        concat_all(ss) == Seq::<A>::empty(),
    decreases ss.len(),
{
    if ss.len() > 0 {
        lemma_concat_all_all_empty(ss.drop_first());
        assert(ss.first().len() == 0);
        assert(concat_all(ss) =~= Seq::<A>::empty());
    }
}

/// Concatenation is associative over nesting: concatenating each inner
/// list first and then the results equals flattening one level and
/// concatenating everything at once.
pub proof fn lemma_concat_all_nested<A>(xss: Seq<Seq<Seq<A>>>)
    ensures
        concat_all(xss.map_values(|xs: Seq<Seq<A>>| concat_all(xs))) == concat_all(
            concat_all(xss),
        ),
    decreases xss.len(),
{
    if xss.len() == 0 {
        assert(xss.map_values(|xs: Seq<Seq<A>>| concat_all(xs)) =~= Seq::<Seq<A>>::empty());
        assert(concat_all(xss) =~= Seq::<Seq<A>>::empty());
    } else {
        let rest = xss.drop_first();
        lemma_concat_all_nested(rest);
        let mapped = xss.map_values(|xs: Seq<Seq<A>>| concat_all(xs));
        assert(mapped.first() == concat_all(xss.first()));
        assert(mapped.drop_first() =~= rest.map_values(|xs: Seq<Seq<A>>| concat_all(xs)));
        lemma_concat_all_append(xss.first(), concat_all(rest));
        assert(concat_all(concat_all(xss)) =~= concat_all(xss.first()) + concat_all(
            concat_all(rest),
        ));
        assert(concat_all(mapped) =~= concat_all(concat_all(xss)));
    }
}

/// The views of a sequence of strings.
pub open spec fn string_views(vs: Seq<String>) -> Seq<Seq<char>> {
    vs.map_values(|s: String| s@)
}

/// String equality, decided at the view level.
pub fn str_eq(a: &str, b: &str) -> (r: bool)
    ensures
        r == (a@ == b@),
{
    let sa: String = a.to_owned();
    let sb: String = b.to_owned();
    sa == sb
}

/// Whether a character is horizontal or vertical whitespace.
pub open spec fn is_ws(c: char) -> bool {
    c == ' ' || c == '\t' || c == '\r' || c == '\n'
}

/// A sequence with its leading whitespace removed.
pub open spec fn spec_trim_start(s: Seq<char>) -> Seq<char>
    decreases s.len(),
{
    if s.len() > 0 && is_ws(s.first()) {
        spec_trim_start(s.drop_first())
    } else {
        s
    }
}

/// A sequence with its trailing whitespace removed.
pub open spec fn spec_trim_end(s: Seq<char>) -> Seq<char>
    decreases s.len(),
{
    if s.len() > 0 && is_ws(s.last()) {
        spec_trim_end(s.drop_last())
    } else {
        s
    }
}

/// A sequence with both leading and trailing whitespace removed.
pub open spec fn spec_trim(s: Seq<char>) -> Seq<char> {
    spec_trim_end(spec_trim_start(s))
}

/// Trimming the front keeps the subrange past the leading whitespace.
proof fn lemma_trim_start_range(s: Seq<char>, i: int)
    requires
        0 <= i <= s.len(),
        forall|k: int| 0 <= k < i ==> is_ws(s[k]),
        i < s.len() ==> !is_ws(s[i]),
    ensures
        spec_trim_start(s) == s.subrange(i, s.len() as int),
    decreases s.len(),
{
    if i == 0 {
        assert(s.subrange(0, s.len() as int) =~= s);
    } else {
        assert(is_ws(s.first()));
        let t = s.drop_first();
        assert forall|k: int| 0 <= k < i - 1 implies is_ws(t[k]) by {
            assert(t[k] == s[k + 1]);
        }
        assert(i - 1 < t.len() ==> t[i - 1] == s[i]);
        lemma_trim_start_range(t, i - 1);
        assert(t.subrange(i - 1, t.len() as int) =~= s.subrange(i, s.len() as int));
    }
}

/// Trimming the back keeps the subrange before the trailing whitespace.
proof fn lemma_trim_end_range(s: Seq<char>, j: int)
    requires
        0 <= j <= s.len(),
        forall|k: int| j <= k < s.len() ==> is_ws(s[k]),
        j > 0 ==> !is_ws(s[j - 1]),
    ensures
        spec_trim_end(s) == s.subrange(0, j),
    decreases s.len(),
{
    if j == s.len() {
        assert(s.subrange(0, j) =~= s);
    } else {
        assert(is_ws(s.last()));
        let t = s.drop_last();
        assert forall|k: int| j <= k < t.len() implies is_ws(t[k]) by {
            assert(t[k] == s[k]);
        }
        lemma_trim_end_range(t, j);
        assert(t.subrange(0, j) =~= s.subrange(0, j));
    }
}

fn char_is_ws(c: char) -> (r: bool)
    ensures
        r == is_ws(c),
{
    c == ' ' || c == '\t' || c == '\r' || c == '\n'
}

/// The string with leading and trailing whitespace removed.
pub fn str_trim(s: &str) -> (r: String)
    ensures
        r@ == spec_trim(s@),
{
    let l = s.unicode_len();
    let mut i: usize = 0;
    let mut scanning: usize = 1;
    while scanning == 1 && i < l
        invariant
            l == s@.len(),
            i <= l,
            scanning <= 1,
            forall|k: int| 0 <= k < i ==> is_ws(s@[k]),
            scanning == 0 ==> i < l && !is_ws(s@[i as int]),
        decreases l - i + scanning,
    {
        if char_is_ws(s.get_char(i)) {
            i = i + 1;
        } else {
            scanning = 0;
        }
    }
    proof {
        lemma_trim_start_range(s@, i as int);
    }
    let mut j: usize = l;
    let mut scanning: usize = 1;
    while scanning == 1 && j > i
        invariant
            l == s@.len(),
            i <= j <= l,
            scanning <= 1,
            forall|k: int| j <= k < l ==> is_ws(s@[k]),
            scanning == 0 ==> j > i && !is_ws(s@[j - 1]),
        decreases j - i + scanning,
    {
        if char_is_ws(s.get_char(j - 1)) {
            j = j - 1;
        } else {
            scanning = 0;
        }
    }
    let r = s.substring_char(i, j).to_owned();
    proof {
        let t = s@.subrange(i as int, l as int);
        assert forall|k: int| j - i <= k < t.len() implies is_ws(t[k]) by {
            assert(t[k] == s@[i + k]);
        }
        if j > i {
            assert(t[j - i - 1] == s@[j - 1]);
        }
        lemma_trim_end_range(t, j - i);
        assert(t.subrange(0, j - i) =~= s@.subrange(i as int, j as int));
    }
    r
}

/// The decimal digit characters of `n`, most significant first.
pub open spec fn dec_digits(n: nat) -> Seq<char>
    decreases n,
{
    let last = digit_char((n % 10) as nat);
    if n < 10 {
        seq![last]
    } else {
        dec_digits((n / 10) as nat).push(last)
    }
}

/// The character for one decimal digit.
pub open spec fn digit_char(d: nat) -> char {
    if d == 0 {
        '0'
    } else if d == 1 {
        '1'
    } else if d == 2 {
        '2'
    } else if d == 3 {
        '3'
    } else if d == 4 {
        '4'
    } else if d == 5 {
        '5'
    } else if d == 6 {
        '6'
    } else if d == 7 {
        '7'
    } else if d == 8 {
        '8'
    } else {
        '9'
    }
}

fn digit_str(d: u64) -> (r: &'static str)
    requires
        d < 10,
    ensures
        r@ == seq![digit_char(d as nat)],
{
    proof {
        reveal_strlit("0");
        reveal_strlit("1");
        reveal_strlit("2");
        reveal_strlit("3");
        reveal_strlit("4");
        reveal_strlit("5");
        reveal_strlit("6");
        reveal_strlit("7");
        reveal_strlit("8");
        reveal_strlit("9");
    }
    if d == 0 {
        "0"
    } else if d == 1 {
        "1"
    } else if d == 2 {
        "2"
    } else if d == 3 {
        "3"
    } else if d == 4 {
        "4"
    } else if d == 5 {
        "5"
    } else if d == 6 {
        "6"
    } else if d == 7 {
        "7"
    } else if d == 8 {
        "8"
    } else {
        "9"
    }
}

/// `n` rendered in decimal.
pub fn u64_to_string(n: u64) -> (s: String)
    ensures
        s@ == dec_digits(n as nat),
    decreases n,
{
    if n < 10 {
        digit_str(n).to_owned()
    } else {
        let prefix = u64_to_string(n / 10);
        prefix.concat(digit_str(n % 10))
    }
}

} // verus!
