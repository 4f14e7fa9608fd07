//! Character-level helpers shared by the rest of the library: string
//! equality, finding a character, and splitting a command line on
//! whitespace.

use vstd::prelude::*;

verus! {

/// Compares two string slices character by character.
pub fn str_eq(a: &str, b: &str) -> (r: bool)
    ensures
        r == (a@ == b@),
{
    let la = a.unicode_len();
    let lb = b.unicode_len();
    if la != lb {
        return false;
    }
    let mut i: usize = 0;
    while i < la
        invariant
            i <= la,
            la == a@.len(),
            la == b@.len(),
            forall|j: int| 0 <= j < i ==> a@[j] == b@[j],
        decreases la - i,
    {
        if a.get_char(i) != b.get_char(i) {
            return false;
        }
        i = i + 1;
    }
    proof {
        assert(a@ =~= b@);
    }
    true
}

/// Index of the first occurrence of `c` in `s`, or `s.len()` if `c`
/// does not occur.
pub open spec fn first_index_of(s: Seq<char>, c: char) -> nat
    decreases s.len(),
{
    if s.len() == 0 {
        0
    } else if s[0] == c {
        0
    } else {
        1 + first_index_of(s.skip(1), c)
    }
}

pub proof fn lemma_first_index_of(s: Seq<char>, c: char)
    ensures
        first_index_of(s, c) <= s.len(),
        forall|j: int| 0 <= j < first_index_of(s, c) ==> s[j] != c,
        first_index_of(s, c) < s.len() ==> s[first_index_of(s, c) as int] == c,
    decreases s.len(),
{
    if s.len() == 0 {
    } else if s[0] == c {
    } else {
        lemma_first_index_of(s.skip(1), c);
        assert forall|j: int| 0 <= j < first_index_of(s, c) implies s[j] != c by {
            if j > 0 {
                assert(s.skip(1)[j - 1] == s[j]);
            }
        }
        if first_index_of(s, c) < s.len() {
            assert(s.skip(1)[first_index_of(s, c) - 1] == s[first_index_of(s, c) as int]);
        }
    }
}

/// `first_index_of` is pinned down by its characteristic properties.
pub proof fn lemma_first_index_of_is(s: Seq<char>, c: char, i: int)
    requires
        0 <= i <= s.len(),
        forall|j: int| 0 <= j < i ==> s[j] != c,
        i < s.len() ==> s[i] == c,
    ensures
        first_index_of(s, c) == i,
    decreases s.len(),
{
    if s.len() == 0 {
    } else if s[0] == c {
        assert(i == 0);
    } else {
        assert(i >= 1);
        assert forall|j: int| 0 <= j < i - 1 implies s.skip(1)[j] != c by {
            assert(s.skip(1)[j] == s[j + 1]);
        }
        if i - 1 < s.skip(1).len() {
            assert(s.skip(1)[i - 1] == s[i]);
        }
        lemma_first_index_of_is(s.skip(1), c, i - 1);
    }
}

/// The characters a command line is split on: ASCII whitespace.
pub open spec fn is_cmd_ws(c: char) -> bool {
    c == ' ' || c == '\t' || c == '\n' || c == '\r' || c == '\u{c}'
}

/// Runtime test for `is_cmd_ws`.
pub fn cmd_ws_char(c: char) -> (r: bool)
    ensures
        r == is_cmd_ws(c),
{
    c == ' ' || c == '\t' || c == '\n' || c == '\r' || c == '\u{c}'
}

/// The maximal runs of non-whitespace characters in `s`, in order.
pub open spec fn split_ws(s: Seq<char>) -> Seq<Seq<char>>
    decreases s.len(),
{
    if s.len() == 0 {
        Seq::empty()
    } else if is_cmd_ws(s[0]) {
        split_ws(s.skip(1))
    } else {
        let rest = split_ws(s.skip(1));
        if 1 < s.len() && !is_cmd_ws(s[1]) {
            seq![seq![s[0]] + rest[0]] + rest.skip(1)
        } else {
            seq![seq![s[0]]] + rest
        }
    }
}

/// Peeling one whole token off the front of a string splits off exactly
/// that token.
pub proof fn lemma_split_ws_token(s: Seq<char>, k: int)
    requires
        1 <= k <= s.len(),
        forall|j: int| 0 <= j < k ==> !is_cmd_ws(s[j]),
        k < s.len() ==> is_cmd_ws(s[k]),
    ensures
        split_ws(s) == seq![s.take(k)] + split_ws(s.skip(k)),
    decreases k,
{
    if k == 1 {
        assert(s.take(1) =~= seq![s[0]]);
        if s.len() == 1 {
            assert(s.skip(1).len() == 0);
            assert(split_ws(s) =~~= seq![s.take(1)] + split_ws(s.skip(1)));
        } else {
            assert(is_cmd_ws(s[1]));
            assert(split_ws(s) =~~= seq![s.take(1)] + split_ws(s.skip(1)));
        }
    } else {
        let t = s.skip(1);
        assert forall|j: int| 0 <= j < k - 1 implies !is_cmd_ws(t[j]) by {
            assert(t[j] == s[j + 1]);
        }
        if k - 1 < t.len() {
            assert(t[k - 1] == s[k as int]);
        }
        lemma_split_ws_token(t, k - 1);
        let rest = split_ws(t);
        assert(rest[0] == t.take(k - 1));
        assert(rest.skip(1) =~~= split_ws(t.skip(k - 1)));
        assert(!is_cmd_ws(s[1]));
        assert(seq![s[0]] + t.take(k - 1) =~= s.take(k));
        assert(t.skip(k - 1) =~= s.skip(k));
        assert(split_ws(s) =~~= seq![s.take(k)] + split_ws(s.skip(k)));
    }
}

/// Splits a string into its whitespace-separated tokens.
pub fn split_ws_exec(s: &str) -> (r: Vec<String>)
    ensures
        r.deep_view() == split_ws(s@),
{
    let len = s.unicode_len();
    let mut toks: Vec<String> = Vec::new();
    let mut i: usize = 0;
    proof {
        assert(s@.skip(0) =~= s@);
        assert(toks.deep_view() =~~= Seq::<Seq<char>>::empty());
    }
    while i < len
        invariant
            i <= len,
            len == s@.len(),
            split_ws(s@) =~~= toks.deep_view() + split_ws(s@.skip(i as int)),
        decreases len - i,
    {
        let c = s.get_char(i);
        if cmd_ws_char(c) {
            proof {
                assert(s@.skip(i as int)[0] == s@[i as int]);
                assert(s@.skip(i as int).skip(1) =~= s@.skip(i + 1));
            }
            i = i + 1;
        } else {
            let ghost prev = toks.deep_view();
            let j = find_char_end_of_token(s, i);
            let tok = s.substring_char(i, j).to_owned();
            toks.push(tok);
            proof {
                let t = s@.skip(i as int);
                assert forall|m: int| 0 <= m < j - i implies !is_cmd_ws(t[m]) by {
                    assert(t[m] == s@[m + i]);
                }
                if j - i < t.len() {
                    assert(t[j - i] == s@[j as int]);
                }
                lemma_split_ws_token(t, j - i);
                assert(t.take(j - i) =~= s@.subrange(i as int, j as int));
                assert(t.skip(j - i) =~= s@.skip(j as int));
                assert(toks.deep_view() =~~= prev + seq![tok@]);
                assert(split_ws(s@) =~~= toks.deep_view() + split_ws(s@.skip(j as int)));
            }
            i = j;
        }
    }
    proof {
        assert(s@.skip(len as int).len() == 0);
        assert(toks.deep_view() =~~= split_ws(s@));
    }
    toks
}

/// The end of the non-whitespace run that starts at `from`.
fn find_char_end_of_token(s: &str, from: usize) -> (r: usize)
    requires
        from < s@.len(),
        !is_cmd_ws(s@[from as int]),
    ensures
        from < r <= s@.len(),
        forall|j: int| from <= j < r ==> !is_cmd_ws(s@[j]),
        r < s@.len() ==> is_cmd_ws(s@[r as int]),
{
    let len = s.unicode_len();
    let mut j: usize = from + 1;
    while j < len && !cmd_ws_char(s.get_char(j))
        invariant
            from < j <= len,
            len == s@.len(),
            forall|m: int| from <= m < j ==> !is_cmd_ws(s@[m]),
        decreases len - j,
    {
        j = j + 1;
    }
    j
}

/// The tokens joined back with single spaces.
pub open spec fn join_space(ts: Seq<Seq<char>>) -> Seq<char>
    decreases ts.len(),
{
    if ts.len() == 0 {
        Seq::empty()
    } else if ts.len() == 1 {
        ts[0]
    } else {
        ts[0] + seq![' '] + join_space(ts.skip(1))
    }
}

pub proof fn lemma_join_space_snoc(ts: Seq<Seq<char>>, x: Seq<char>)
    ensures
        join_space(ts.push(x)) == if ts.len() == 0 {
            x
        } else {
            join_space(ts) + seq![' '] + x
        },
    decreases ts.len(),
{
    let w = ts.push(x);
    if ts.len() == 0 {
        assert(w.len() == 1);
        assert(w[0] == x);
    } else {
        assert(w.len() >= 2);
        assert(w[0] == ts[0]);
        assert(w.skip(1) =~~= ts.skip(1).push(x));
        lemma_join_space_snoc(ts.skip(1), x);
        if ts.len() == 1 {
            assert(ts.skip(1).len() == 0);
            assert(join_space(w) =~= ts[0] + seq![' '] + x);
            assert(join_space(ts) == ts[0]);
        } else {
            assert(join_space(w) =~= join_space(ts) + seq![' '] + x);
        }
    }
}

/// Joins strings with single spaces between them.
pub fn join_with_space(ts: &Vec<String>) -> (r: String)
    ensures
        r@ == join_space(ts.deep_view()),
{
    let mut r = String::new();
    let mut i: usize = 0;
    while i < ts.len()
        invariant
            i <= ts.len(),
            r@ == join_space(ts.deep_view().take(i as int)),
        decreases ts.len() - i,
    {
        if i > 0 {
            r.append(" ");
        }
        r.append(ts[i].as_str());
        proof {
            let d = ts.deep_view();
            assert(d.take(i + 1) =~~= d.take(i as int).push(d[i as int]));
            lemma_join_space_snoc(d.take(i as int), d[i as int]);
            assert(d[i as int] == ts[i as int]@);
            proof_space_literal();
        }
        i = i + 1;
    }
    proof {
        assert(ts.deep_view().take(ts.len() as int) =~~= ts.deep_view());
    }
    r
}

/// The view of the one-space literal is the one-space sequence.
proof fn proof_space_literal()
    ensures
        " "@ =~= seq![' '],
{
    reveal_strlit(" ");
}

/// Finds the first occurrence of `c` in `s` at or after position
/// `from`, returning `s.len()` when there is none.
pub fn find_char_from(s: &str, c: char, from: usize) -> (r: usize)
    requires
        from <= s@.len(),
    ensures
        r == from + first_index_of(s@.skip(from as int), c),
        from <= r <= s@.len(),
        forall|j: int| from <= j < r ==> s@[j] != c,
        r < s@.len() ==> s@[r as int] == c,
{
    let len = s.unicode_len();
    let mut i: usize = from;
    while i < len
        invariant
            from <= i <= len,
            len == s@.len(),
            forall|j: int| from <= j < i ==> s@[j] != c,
        decreases len - i,
    {
        if s.get_char(i) == c {
            proof {
                assert forall|j: int| 0 <= j < i - from implies s@.skip(from as int)[j] != c by {
                    assert(s@.skip(from as int)[j] == s@[j + from]);
                }
                assert(s@.skip(from as int)[i - from] == s@[i as int]);
                lemma_first_index_of_is(s@.skip(from as int), c, i - from);
            }
            return i;
        }
        i = i + 1;
    }
    proof {
        assert forall|j: int| 0 <= j < len - from implies s@.skip(from as int)[j] != c by {
            assert(s@.skip(from as int)[j] == s@[j + from]);
        }
        lemma_first_index_of_is(s@.skip(from as int), c, len - from);
    }
    len
}

} // verus!
