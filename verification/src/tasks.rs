//! Per-task argument lists for job arrays: an argument file is split into
//! lines, each line is trimmed, lines that become empty are dropped, and each
//! survivor is wrapped in double quotes for embedding in a shell array
//! literal.

use vstd::prelude::*;

use crate::text::{trim, trim_spec};

verus! {

/// `w` wrapped in double quotes.
pub open spec fn quote_spec(w: Seq<char>) -> Seq<char> {
    seq!['"'] + w + seq!['"']
}

/// The quoted surviving task lines of `s` from index `i` on, with `cur` the
/// line in progress just before `i`. A line survives when trimming leaves it
/// nonempty.
pub open spec fn tasks_from(s: Seq<char>, i: int, cur: Seq<char>) -> Seq<Seq<char>>
    decreases s.len() - i,
        when 0 <= i <= s.len()
{
    if i >= s.len() {
        if trim_spec(cur).len() > 0 {
            seq![quote_spec(trim_spec(cur))]
        } else {
            Seq::<Seq<char>>::empty()
        }
    } else if s[i] == '\n' {
        if trim_spec(cur).len() > 0 {
            seq![quote_spec(trim_spec(cur))] + tasks_from(s, i + 1, Seq::<char>::empty())
        } else {
            tasks_from(s, i + 1, Seq::<char>::empty())
        }
    } else {
        tasks_from(s, i + 1, cur.push(s[i]))
    }
}

/// The task list of an argument file with content `s`: each line trimmed,
/// empty lines dropped, each survivor wrapped in double quotes.
pub open spec fn task_list_spec(s: Seq<char>) -> Seq<Seq<char>> {
    tasks_from(s, 0, Seq::<char>::empty())
}

/// Whether `t` is a nonempty line wrapped in double quotes: at least three
/// characters, the first and last of them `"`.
pub open spec fn quoted_task(t: Seq<char>) -> bool {
    t.len() >= 3 && t[0] == '"' && t[t.len() - 1] == '"'
}

/// Whether every entry of `r` is a quoted task.
pub open spec fn all_quoted(r: Seq<Seq<char>>) -> bool {
    forall|k: int| 0 <= k < r.len() ==> quoted_task(#[trigger] r[k])
}

proof fn lemma_tasks_from_quoted(s: Seq<char>, i: int, cur: Seq<char>)
    requires
        0 <= i <= s.len(),
    ensures
        all_quoted(tasks_from(s, i, cur)),
    decreases s.len() - i,
{
    let r = tasks_from(s, i, cur);
    if i >= s.len() {
        if trim_spec(cur).len() > 0 {
            let q = quote_spec(trim_spec(cur));
            assert(quoted_task(q));
            assert forall|k: int| 0 <= k < r.len() implies quoted_task(#[trigger] r[k]) by {
                assert(r[k] == q);
            }
        }
    } else if s[i] == '\n' {
        lemma_tasks_from_quoted(s, i + 1, Seq::<char>::empty());
        let rest = tasks_from(s, i + 1, Seq::<char>::empty());
        if trim_spec(cur).len() > 0 {
            let q = quote_spec(trim_spec(cur));
            assert(quoted_task(q));
            assert(r == seq![q] + rest);
            assert forall|k: int| 0 <= k < r.len() implies quoted_task(#[trigger] r[k]) by {
                if k == 0 {
                    assert(r[k] == q);
                } else {
                    assert(r[k] == rest[k - 1]);
                    assert(quoted_task(rest[k - 1]));
                }
            }
        }
    } else {
        lemma_tasks_from_quoted(s, i + 1, cur.push(s[i]));
    }
}

/// Every entry of the task list is a nonempty line wrapped in double quotes.
pub proof fn lemma_task_list_quoted(s: Seq<char>)
    ensures
        all_quoted(task_list_spec(s)),
{
    lemma_tasks_from_quoted(s, 0, Seq::<char>::empty());
}

/// Wraps one trimmed line in double quotes.
fn quote_line(t: &str) -> (r: String)
    ensures
        r@ == quote_spec(t@),
{
    let mut r = String::from_str("\"");
    r.append(t);
    r.append("\"");
    proof {
        reveal_strlit("\"");
        assert(r@ =~= quote_spec(t@));
    }
    r
}

/// Builds the quoted task list from the content of an argument file.
pub fn quote_task_lines(content: &str) -> (r: Vec<String>)
    ensures
        r.deep_view() == task_list_spec(content@),
{
    let n = content.unicode_len();
    let mut r: Vec<String> = Vec::new();
    let mut i: usize = 0;
    let mut start: usize = 0;
    proof {
        assert(content@.subrange(0, 0) =~= Seq::<char>::empty());
        assert(r.deep_view() =~= Seq::<Seq<char>>::empty());
        assert(Seq::<Seq<char>>::empty() + task_list_spec(content@) =~= task_list_spec(
            content@,
        ));
    }
    while i < n
        invariant
            0 <= start <= i <= n,
            n == content@.len(),
            task_list_spec(content@) == r.deep_view() + tasks_from(
                content@,
                i as int,
                content@.subrange(start as int, i as int),
            ),
        decreases n - i,
    {
        let ghost cur = content@.subrange(start as int, i as int);
        let c = content.get_char(i);
        if c == '\n' {
            let t = trim(content.substring_char(start, i));
            if !t.as_str().is_empty() {
                let ghost r0 = r.deep_view();
                let q = quote_line(t.as_str());
                r.push(q);
                proof {
                    assert(r.deep_view() =~= r0 + seq![quote_spec(trim_spec(cur))]);
                    assert(r0 + (seq![quote_spec(trim_spec(cur))] + tasks_from(
                        content@,
                        i + 1,
                        Seq::<char>::empty(),
                    )) =~= (r0 + seq![quote_spec(trim_spec(cur))]) + tasks_from(
                        content@,
                        i + 1,
                        Seq::<char>::empty(),
                    ));
                }
            }
            start = i + 1;
            proof {
                assert(content@.subrange(i + 1, i + 1) =~= Seq::<char>::empty());
            }
        } else {
            proof {
                assert(cur.push(content@[i as int]) =~= content@.subrange(
                    start as int,
                    i + 1,
                ));
            }
        }
        i += 1;
    }
    let ghost cur = content@.subrange(start as int, n as int);
    let t = trim(content.substring_char(start, n));
    if !t.as_str().is_empty() {
        let ghost r0 = r.deep_view();
        let q = quote_line(t.as_str());
        r.push(q);
        proof {
            assert(r.deep_view() =~= r0 + seq![quote_spec(trim_spec(cur))]);
        }
    } else {
        proof {
            assert(r.deep_view() + Seq::<Seq<char>>::empty() =~= r.deep_view());
        }
    }
    r
}

} // verus!
