//! Character-level text utilities: whitespace classification, trimming,
//! whitespace splitting, and joining, each specified over `Seq<char>`.

use vstd::prelude::*;

verus! {

/// The whitespace characters recognized when trimming task lines and when
/// splitting extra argument strings: the characters with the Unicode
/// `White_Space` property.
pub open spec fn is_space(c: char) -> bool {
    let v = c as u32;
    v == 0x20 || (0x09 <= v && v <= 0x0d) || v == 0x85 || v == 0xa0 || v == 0x1680 || (0x2000
        <= v && v <= 0x200a) || v == 0x2028 || v == 0x2029 || v == 0x202f || v == 0x205f
        || v == 0x3000
}

/// `s` with its leading whitespace removed.
pub open spec fn trim_start_spec(s: Seq<char>) -> Seq<char>
    decreases s.len(),
{
    if s.len() > 0 && is_space(s[0]) {
        trim_start_spec(s.drop_first())
    } else {
        s
    }
}

/// `s` with its trailing whitespace removed.
pub open spec fn trim_end_spec(s: Seq<char>) -> Seq<char>
    decreases s.len(),
{
    if s.len() > 0 && is_space(s.last()) {
        trim_end_spec(s.drop_last())
    } else {
        s
    }
}

/// `s` with leading and trailing whitespace removed.
pub open spec fn trim_spec(s: Seq<char>) -> Seq<char> {
    trim_end_spec(trim_start_spec(s))
}

proof fn lemma_trim_start_index(s: Seq<char>, a: int)
    requires
        0 <= a <= s.len(),
        forall|i: int| 0 <= i < a ==> is_space(s[i]),
        a == s.len() || !is_space(s[a]),
    ensures
        trim_start_spec(s) == s.subrange(a, s.len() as int),
    decreases a,
{
    if a == 0 {
        if s.len() > 0 && is_space(s[0]) {
            assert(false);
        }
        assert(s.subrange(0, s.len() as int) =~= s);
    } else {
        assert(is_space(s[0]));
        let t = s.drop_first();
        assert(forall|i: int| 0 <= i < a - 1 ==> is_space(t[i]));
        lemma_trim_start_index(t, a - 1);
        assert(t.subrange(a - 1, t.len() as int) =~= s.subrange(a, s.len() as int));
    }
}

proof fn lemma_trim_end_index(s: Seq<char>, b: int)
    requires
        0 <= b <= s.len(),
        forall|i: int| b <= i < s.len() ==> is_space(s[i]),
        b == 0 || !is_space(s[b - 1]),
    ensures
        trim_end_spec(s) == s.subrange(0, b),
    decreases s.len() - b,
{
    if b == s.len() {
        if s.len() > 0 && is_space(s.last()) {
            assert(false);
        }
        assert(s.subrange(0, s.len() as int) =~= s);
    } else {
        assert(is_space(s.last()));
        let t = s.drop_last();
        assert(forall|i: int| b <= i < t.len() ==> is_space(t[i]));
        lemma_trim_end_index(t, b);
        assert(t.subrange(0, b) =~= s.subrange(0, b));
    }
}

/// Whether `c` is one of the recognized whitespace characters.
pub fn is_space_char(c: char) -> (r: bool)
    ensures
        r == is_space(c),
{
    let v = c as u32;
    v == 0x20 || (0x09 <= v && v <= 0x0d) || v == 0x85 || v == 0xa0 || v == 0x1680 || (0x2000
        <= v && v <= 0x200a) || v == 0x2028 || v == 0x2029 || v == 0x202f || v == 0x205f
        || v == 0x3000
}

/// A copy of `s` with leading and trailing whitespace removed.
pub fn trim(s: &str) -> (r: String)
    ensures
        r@ == trim_spec(s@),
{
    let n = s.unicode_len();
    let mut a: usize = 0;
    while a < n && is_space_char(s.get_char(a))
        invariant
            0 <= a <= n,
            n == s@.len(),
            forall|i: int| 0 <= i < a ==> is_space(s@[i]),
        decreases n - a,
    {
        a += 1;
    }
    let mut b: usize = n;
    while b > a && is_space_char(s.get_char(b - 1))
        invariant
            a <= b <= n,
            n == s@.len(),
            forall|i: int| 0 <= i < a ==> is_space(s@[i]),
            a == n || !is_space(s@[a as int]),
            forall|i: int| b <= i < n ==> is_space(s@[i]),
        decreases b,
    {
        b -= 1;
    }
    proof {
        lemma_trim_start_index(s@, a as int);
        let t = s@.subrange(a as int, n as int);
        assert(forall|i: int| b - a <= i < t.len() ==> is_space(t[i]));
        lemma_trim_end_index(t, b - a);
        assert(t.subrange(0, b - a) =~= s@.subrange(a as int, b as int));
    }
    String::from_str(s.substring_char(a, b))
}

/// The maximal nonempty runs of non-whitespace characters in `s` from index
/// `i` on, with `cur` the run in progress just before `i`.
pub open spec fn split_ws_from(s: Seq<char>, i: int, cur: Seq<char>) -> Seq<Seq<char>>
    decreases s.len() - i,
        when 0 <= i <= s.len()
{
    if i >= s.len() {
        if cur.len() > 0 {
            seq![cur]
        } else {
            Seq::<Seq<char>>::empty()
        }
    } else if is_space(s[i]) {
        if cur.len() > 0 {
            seq![cur] + split_ws_from(s, i + 1, Seq::<char>::empty())
        } else {
            split_ws_from(s, i + 1, Seq::<char>::empty())
        }
    } else {
        split_ws_from(s, i + 1, cur.push(s[i]))
    }
}

/// The words of `s`: its maximal nonempty runs of non-whitespace characters,
/// in order.
pub open spec fn split_whitespace_spec(s: Seq<char>) -> Seq<Seq<char>> {
    split_ws_from(s, 0, Seq::<char>::empty())
}

/// Splits `s` into its whitespace-separated words.
pub fn split_whitespace_args(s: &str) -> (r: Vec<String>)
    ensures
        r.deep_view() == split_whitespace_spec(s@),
{
    let n = s.unicode_len();
    let mut r: Vec<String> = Vec::new();
    let mut i: usize = 0;
    let mut start: usize = 0;
    let mut in_word: bool = false;
    while i < n
        invariant
            0 <= i <= n,
            n == s@.len(),
            in_word ==> start < i,
            split_whitespace_spec(s@) == r.deep_view() + split_ws_from(
                s@,
                i as int,
                if in_word {
                    s@.subrange(start as int, i as int)
                } else {
                    Seq::<char>::empty()
                },
            ),
        decreases n - i,
    {
        let ghost cur = if in_word {
            s@.subrange(start as int, i as int)
        } else {
            Seq::<char>::empty()
        };
        let c = s.get_char(i);
        if is_space_char(c) {
            if in_word {
                let w = String::from_str(s.substring_char(start, i));
                let ghost r0 = r.deep_view();
                r.push(w);
                proof {
                    assert(r.deep_view() =~= r0 + seq![cur]);
                    assert(r0 + (seq![cur] + split_ws_from(s@, i + 1, Seq::<char>::empty()))
                        =~= (r0 + seq![cur]) + split_ws_from(s@, i + 1, Seq::<char>::empty()));
                }
                in_word = false;
            }
        } else {
            if !in_word {
                start = i;
                in_word = true;
            }
            proof {
                assert(cur.push(s@[i as int]) =~= s@.subrange(start as int, i + 1));
            }
        }
        i += 1;
    }
    if in_word {
        let ghost cur = s@.subrange(start as int, n as int);
        let w = String::from_str(s.substring_char(start, n));
        let ghost r0 = r.deep_view();
        r.push(w);
        proof {
            assert(r.deep_view() =~= r0 + seq![cur]);
        }
    } else {
        proof {
            assert(r.deep_view() + Seq::<Seq<char>>::empty() =~= r.deep_view());
        }
    }
    r
}

/// Whether `w` is a word: nonempty, with no whitespace character in it.
pub open spec fn ws_word(w: Seq<char>) -> bool {
    w.len() > 0 && forall|j: int| 0 <= j < w.len() ==> !is_space(#[trigger] w[j])
}

/// Whether every entry of `r` is a word.
pub open spec fn all_words(r: Seq<Seq<char>>) -> bool {
    forall|k: int| 0 <= k < r.len() ==> ws_word(#[trigger] r[k])
}

proof fn lemma_split_ws_from_words(s: Seq<char>, i: int, cur: Seq<char>)
    requires
        0 <= i <= s.len(),
        forall|j: int| 0 <= j < cur.len() ==> !is_space(#[trigger] cur[j]),
    ensures
        all_words(split_ws_from(s, i, cur)),
    decreases s.len() - i,
{
    let r = split_ws_from(s, i, cur);
    if i >= s.len() {
        if cur.len() > 0 {
            assert forall|k: int| 0 <= k < r.len() implies ws_word(#[trigger] r[k]) by {
                assert(r[k] == cur);
            }
        }
    } else if is_space(s[i]) {
        lemma_split_ws_from_words(s, i + 1, Seq::<char>::empty());
        let rest = split_ws_from(s, i + 1, Seq::<char>::empty());
        if cur.len() > 0 {
            assert(r == seq![cur] + rest);
            assert forall|k: int| 0 <= k < r.len() implies ws_word(#[trigger] r[k]) by {
                if k == 0 {
                    assert(r[k] == cur);
                } else {
                    assert(r[k] == rest[k - 1]);
                    assert(ws_word(rest[k - 1]));
                }
            }
        }
    } else {
        let next = cur.push(s[i]);
        assert(forall|j: int| 0 <= j < next.len() ==> !is_space(#[trigger] next[j]));
        lemma_split_ws_from_words(s, i + 1, next);
    }
}

/// Every word of a whitespace split is nonempty and holds no whitespace
/// character.
pub proof fn lemma_split_whitespace_words(s: Seq<char>)
    ensures
        all_words(split_whitespace_spec(s)),
{
    lemma_split_ws_from_words(s, 0, Seq::<char>::empty());
}

/// The elements of `parts` concatenated with `sep` between consecutive
/// elements.
pub open spec fn join_spec(parts: Seq<Seq<char>>, sep: Seq<char>) -> Seq<char>
    decreases parts.len(),
{
    if parts.len() == 0 {
        Seq::<char>::empty()
    } else if parts.len() == 1 {
        parts[0]
    } else {
        parts[0] + sep + join_spec(parts.drop_first(), sep)
    }
}

proof fn lemma_join_push(parts: Seq<Seq<char>>, sep: Seq<char>, x: Seq<char>)
    ensures
        join_spec(parts.push(x), sep) == if parts.len() == 0 {
            x
        } else {
            join_spec(parts, sep) + sep + x
        },
    decreases parts.len(),
{
    if parts.len() == 0 {
        assert(parts.push(x).len() == 1);
        assert(join_spec(parts.push(x), sep) == parts.push(x)[0]);
    } else if parts.len() == 1 {
        let p = parts.push(x);
        assert(p.len() == 2);
        assert(p.drop_first() =~= seq![x]);
        assert(join_spec(p, sep) == p[0] + sep + join_spec(p.drop_first(), sep));
        assert(join_spec(p.drop_first(), sep) == x);
    } else {
        let p = parts.push(x);
        assert(p.drop_first() =~= parts.drop_first().push(x));
        lemma_join_push(parts.drop_first(), sep, x);
    }
}

/// Concatenates the elements of `v` with `sep` between consecutive elements.
pub fn join_with(v: &Vec<String>, sep: &str) -> (r: String)
    ensures
        r@ == join_spec(v.deep_view(), sep@),
{
    let mut r = String::new();
    let mut i: usize = 0;
    while i < v.len()
        invariant
            0 <= i <= v@.len(),
            r@ == join_spec(v.deep_view().take(i as int), sep@),
        decreases v@.len() - i,
    {
        let ghost before = v.deep_view().take(i as int);
        if i > 0 {
            r.append(sep);
        }
        r.append(v[i].as_str());
        proof {
            assert(before.push(v.deep_view()[i as int]) =~= v.deep_view().take(i + 1));
            lemma_join_push(before, sep@, v.deep_view()[i as int]);
            assert(v.deep_view()[i as int] == v@[i as int]@);
        }
        i += 1;
    }
    proof {
        assert(v.deep_view().take(v@.len() as int) =~= v.deep_view());
    }
    r
}

} // verus!
