//! Resolution of the in-container command. A command argument that names an
//! existing local file with a shell-script extension is canonicalized by the
//! caller and becomes both the mounted entrypoint path and an extra bind
//! mount; anything else passes through unmodified as an in-container
//! executable.

use vstd::prelude::*;

verus! {

/// The final component of `s` after the last `/`; empty when `s` ends in `/`.
pub open spec fn file_name_spec(s: Seq<char>) -> Seq<char>
    decreases s.len(),
{
    if s.len() == 0 {
        s
    } else if s.last() == '/' {
        Seq::<char>::empty()
    } else {
        file_name_spec(s.drop_last()).push(s.last())
    }
}

/// Whether `s` names a shell script: its final component ends in `.sh` with
/// at least one character before the dot.
pub open spec fn has_sh_extension_spec(s: Seq<char>) -> bool {
    let name = file_name_spec(s);
    name.len() >= 4 && name.subrange(name.len() - 3, name.len() as int) == ".sh"@
}

proof fn lemma_file_name_suffix(s: Seq<char>, start: int)
    requires
        0 <= start <= s.len(),
        forall|i: int| start <= i < s.len() ==> s[i] != '/',
        start == 0 || s[start - 1] == '/',
    ensures
        file_name_spec(s) == s.subrange(start, s.len() as int),
    decreases s.len(),
{
    if s.len() == 0 {
        assert(s.subrange(0, 0) =~= s);
    } else if s.last() == '/' {
        assert(start == s.len());
        assert(s.subrange(start, s.len() as int) =~= Seq::<char>::empty());
    } else {
        assert(start < s.len());
        let t = s.drop_last();
        assert(forall|i: int| start <= i < t.len() ==> t[i] == s[i]);
        lemma_file_name_suffix(t, start);
        assert(t.subrange(start, t.len() as int).push(s.last()) =~= s.subrange(
            start,
            s.len() as int,
        ));
    }
}

/// Whether the command argument `s` has a shell-script extension.
pub fn has_sh_extension(s: &str) -> (r: bool)
    ensures
        r == has_sh_extension_spec(s@),
{
    let n = s.unicode_len();
    let mut i: usize = 0;
    let mut start: usize = 0;
    while i < n
        invariant
            0 <= start <= i <= n,
            n == s@.len(),
            forall|j: int| start <= j < i ==> s@[j] != '/',
            start == 0 || s@[start - 1] == '/',
        decreases n - i,
    {
        if s.get_char(i) == '/' {
            start = i + 1;
        }
        i += 1;
    }
    proof {
        lemma_file_name_suffix(s@, start as int);
    }
    let len = n - start;
    if len < 4 {
        return false;
    }
    proof {
        reveal_strlit(".sh");
    }
    let r = s.get_char(n - 3) == '.' && s.get_char(n - 2) == 's' && s.get_char(n - 1) == 'h';
    proof {
        let name = file_name_spec(s@);
        if r {
            assert(name.subrange(name.len() - 3, name.len() as int) =~= ".sh"@);
        } else {
            if name.subrange(name.len() - 3, name.len() as int) == ".sh"@ {
                assert(name.subrange(name.len() - 3, name.len() as int)[0] == '.');
                assert(name.subrange(name.len() - 3, name.len() as int)[1] == 's');
                assert(name.subrange(name.len() - 3, name.len() as int)[2] == 'h');
                assert(false);
            }
        }
    }
    r
}

/// The in-container entrypoint for a command with canonical script path
/// `canonical` (when the command names an existing shell script on the host)
/// or no such path.
pub open spec fn entrypoint_spec(command: Seq<char>, canonical: Option<Seq<char>>) -> Seq<char> {
    match canonical {
        Some(p) => p,
        None => command,
    }
}

/// The extra bind-mount argument for the command: the canonical script path
/// mounted at the same path in the container, or nothing.
pub open spec fn command_volume_spec(canonical: Option<Seq<char>>) -> Seq<char> {
    match canonical {
        Some(p) => "-v "@ + p + ":"@ + p,
        None => Seq::<char>::empty(),
    }
}

/// Resolves the command into the entrypoint and the extra bind-mount
/// argument. `canonical` is the canonicalized path of the command when it
/// names an existing shell script on the host, and `None` otherwise.
pub fn resolve_command(command: String, canonical: Option<String>) -> (r: (String, String))
    ensures
        r.0@ == entrypoint_spec(command@, canonical.deep_view()),
        r.1@ == command_volume_spec(canonical.deep_view()),
{
    match canonical {
        Some(p) => {
            let mut v = String::from_str("-v ");
            v.append(p.as_str());
            v.append(":");
            v.append(p.as_str());
            proof {
                assert(v@ =~= "-v "@ + p@ + ":"@ + p@);
            }
            (p, v)
        },
        None => {
            let empty = String::new();
            proof {
                assert(empty@ =~= Seq::<char>::empty());
            }
            (command, empty)
        },
    }
}

} // verus!
