//! Deriving a suite's name from the path of its specification file: the
//! path relative to the searched directory, with the file extension removed.
//!
//! Paths are plain strings here. A path is read as its components: the
//! pieces between `/` separators, ignoring empty pieces and bare `.` pieces.

use vstd::prelude::*;

verus! {

/// The index of the first `/` in a string, or its length when there is
/// none.
pub closed spec fn first_slash(s: Seq<char>) -> int
    decreases s.len(),
{
    if s.len() == 0 {
        0
    } else if s[0] == '/' {
        0
    } else {
        1 + first_slash(s.drop_first())
    }
}

proof fn lemma_first_slash_at(s: Seq<char>, k: int)
    requires
        0 <= k <= s.len(),
        forall|j: int| 0 <= j < k ==> s[j] != '/',
        k < s.len() ==> s[k] == '/',
        k == s.len() ==> forall|j: int| 0 <= j < s.len() ==> s[j] != '/',
    ensures
        first_slash(s) == k,
    decreases s.len(),
{
    if s.len() == 0 {
    } else if k == 0 && s[0] == '/' {
    } else {
        assert(s[0] != '/');
        assert(k >= 1 || k == s.len());
        lemma_first_slash_at(s.drop_first(), k - 1);
    }
}

/// Whether a piece of a path counts as a component: it is non-empty and is
/// not the bare current-directory piece `.`.
pub open spec fn keep_component(c: Seq<char>) -> bool {
    c.len() > 0 && c != seq!['.']
}

/// The component sequence a single piece contributes: itself, or nothing.
pub open spec fn component_seq(c: Seq<char>) -> Seq<Seq<char>> {
    if keep_component(c) {
        seq![c]
    } else {
        Seq::empty()
    }
}

/// The components of a path: the pieces between `/` separators, with empty
/// pieces and bare `.` pieces dropped.
pub closed spec fn spec_components(s: Seq<char>) -> Seq<Seq<char>>
    decreases s.len(),
{
    if s.len() == 0 {
        Seq::empty()
    } else {
        let i = first_slash(s);
        if 0 <= i && i < s.len() {
            component_seq(s.take(i)) + spec_components(s.skip(i + 1))
        } else {
            component_seq(s)
        }
    }
}

fn keep_component_exec(c: &str) -> (r: bool)
    ensures
        r == keep_component(c@),
{
    let n = c.unicode_len();
    if n == 0 {
        false
    } else if n == 1 && c.get_char(0) == '.' {
        assert(c@ =~= seq!['.']);
        false
    } else {
        assert(c@ != seq!['.']);
        true
    }
}

fn split_components(s: &str) -> (r: Vec<String>)
    ensures
        r@.map_values(|c: String| c@) == spec_components(s@),
{
    let n = s.unicode_len();
    let mut comps: Vec<String> = Vec::new();
    proof {
        assert(s@.skip(0) =~= s@);
        assert(comps@.map_values(|c: String| c@) + spec_components(s@) =~= spec_components(s@));
    }
    let mut start: usize = 0;
    let mut i: usize = 0;
    while i < n
        invariant
            n == s@.len(),
            start <= i <= n,
            forall|k: int| start <= k < i ==> s@[k] != '/',
            comps@.map_values(|c: String| c@) + spec_components(s@.skip(start as int))
                == spec_components(s@),
        decreases n - i,
    {
        if s.get_char(i) == '/' {
            let ghost pre = comps@;
            let piece = s.substring_char(start, i);
            if keep_component_exec(piece) {
                comps.push(String::from_str(piece));
            }
            proof {
                let t = s@.skip(start as int);
                lemma_first_slash_at(t, i - start);
                assert(t.take(i - start) =~= s@.subrange(start as int, i as int));
                assert(t.skip(i - start + 1) =~= s@.skip(i as int + 1));
                assert(spec_components(t) == component_seq(piece@) + spec_components(
                    s@.skip(i as int + 1),
                ));
                if keep_component(piece@) {
                    assert(comps@.map_values(|c: String| c@) =~= pre.map_values(
                        |c: String| c@,
                    ).push(piece@));
                }
                assert(comps@.map_values(|c: String| c@) + spec_components(s@.skip(i as int + 1))
                    =~= spec_components(s@));
            }
            start = i + 1;
        }
        i = i + 1;
    }
    let ghost pre = comps@;
    let piece = s.substring_char(start, n);
    if keep_component_exec(piece) {
        comps.push(String::from_str(piece));
    }
    proof {
        let t = s@.skip(start as int);
        assert(t =~= s@.subrange(start as int, n as int));
        if t.len() == 0 {
            assert(!keep_component(piece@));
            assert(spec_components(t) =~= Seq::<Seq<char>>::empty());
        } else {
            lemma_first_slash_at(t, t.len() as int);
            assert(spec_components(t) == component_seq(t));
        }
        if keep_component(piece@) {
            assert(comps@.map_values(|c: String| c@) =~= pre.map_values(|c: String| c@).push(
                piece@,
            ));
        }
        assert(comps@.map_values(|c: String| c@) =~= spec_components(s@));
    }
    comps
}

/// The index of the last `/` in a string, or `-1` when there is none.
pub closed spec fn last_slash(s: Seq<char>) -> int
    decreases s.len(),
{
    if s.len() == 0 {
        -1
    } else if s.last() == '/' {
        s.len() - 1
    } else {
        last_slash(s.drop_last())
    }
}

/// The index of the last `.` in a string, or `-1` when there is none.
pub closed spec fn last_dot(s: Seq<char>) -> int
    decreases s.len(),
{
    if s.len() == 0 {
        -1
    } else if s.last() == '.' {
        s.len() - 1
    } else {
        last_dot(s.drop_last())
    }
}

/// A path with the extension of its final component removed: everything
/// from the last `.` of the final component on is dropped, unless that `.`
/// starts the component, as it does in a hidden file's name.
pub closed spec fn spec_drop_extension(s: Seq<char>) -> Seq<char> {
    let fstart = last_slash(s) + 1;
    let d = last_dot(s.skip(fstart));
    if d <= 0 {
        s
    } else {
        s.take(fstart + d)
    }
}

fn drop_extension(s: &str) -> (r: String)
    ensures
        r@ == spec_drop_extension(s@),
{
    let n = s.unicode_len();
    let mut fstart: usize = 0;
    let mut i: usize = 0;
    while i < n
        invariant
            n == s@.len(),
            fstart <= i <= n,
            last_slash(s@.take(i as int)) == fstart - 1,
        decreases n - i,
    {
        let c = s.get_char(i);
        proof {
            assert(s@.take(i as int + 1).drop_last() =~= s@.take(i as int));
            assert(s@.take(i as int + 1).last() == s@[i as int]);
        }
        if c == '/' {
            fstart = i + 1;
        }
        i = i + 1;
    }
    proof {
        assert(s@.take(n as int) =~= s@);
    }
    let ghost t = s@.skip(fstart as int);
    let mut d_plus: usize = 0;
    let mut j: usize = fstart;
    while j < n
        invariant
            n == s@.len(),
            fstart <= j <= n,
            t == s@.skip(fstart as int),
            d_plus <= j - fstart,
            last_dot(t.take(j - fstart)) == d_plus - 1,
        decreases n - j,
    {
        let c = s.get_char(j);
        proof {
            assert(t.take(j - fstart + 1).drop_last() =~= t.take(j - fstart));
            assert(t.take(j - fstart + 1).last() == s@[j as int]);
        }
        if c == '.' {
            d_plus = j - fstart + 1;
        }
        j = j + 1;
    }
    proof {
        assert(t.take(n - fstart) =~= t);
    }
    if d_plus <= 1 {
        String::from_str(s)
    } else {
        let r = String::from_str(s.substring_char(0, fstart + d_plus - 1));
        assert(r@ =~= spec_drop_extension(s@));
        r
    }
}

/// Whether a path lies under a directory: the directory's components are a
/// prefix of the components of the path with its extension removed.
pub open spec fn spec_is_under(path: Seq<char>, dir: Seq<char>) -> bool {
    spec_components(dir).is_prefix_of(spec_components(spec_drop_extension(path)))
}

/// Path components joined with `/` separators.
pub closed spec fn spec_join(cs: Seq<Seq<char>>) -> Seq<char>
    decreases cs.len(),
{
    if cs.len() == 0 {
        Seq::empty()
    } else if cs.len() == 1 {
        cs[0]
    } else {
        spec_join(cs.drop_last()) + seq!['/'] + cs.last()
    }
}

/// The stem of a specification file's path: its components past the
/// searched directory's, the extension removed, joined with `/`.
pub open spec fn spec_stem(path: Seq<char>, dir: Seq<char>) -> Seq<char> {
    spec_join(
        spec_components(spec_drop_extension(path)).skip(spec_components(dir).len() as int),
    )
}

proof fn lemma_join_take_step(cs: Seq<Seq<char>>, m: int)
    requires
        0 <= m < cs.len(),
    ensures
        spec_join(cs.take(m + 1)) == if m == 0 {
            cs[0]
        } else {
            spec_join(cs.take(m)) + seq!['/'] + cs[m]
        },
{
    assert(cs.take(m + 1).drop_last() =~= cs.take(m));
    assert(cs.take(m + 1).last() == cs[m]);
    if m == 0 {
        assert(cs.take(1)[0] == cs[0]);
    }
}

/// Computes the stem of a specification file's path relative to the
/// searched directory.
pub fn get_stem(path: &str, search_dir: &str) -> (r: String)
    requires
        spec_is_under(path@, search_dir@),
    ensures
        r@ == spec_stem(path@, search_dir@),
{
    let trimmed = drop_extension(path);
    let comps = split_components(trimmed.as_str());
    let dir_comps = split_components(search_dir);
    let ghost cs = spec_components(spec_drop_extension(path@));
    let ghost tail = cs.skip(spec_components(search_dir@).len() as int);
    let k = dir_comps.len();
    assert(k <= comps.len()) by {
        assert(comps@.map_values(|c: String| c@).len() == cs.len());
    }
    let mut out = String::new();
    let mut i: usize = k;
    while i < comps.len()
        invariant
            k <= i <= comps.len(),
            comps@.map_values(|c: String| c@) == cs,
            k == spec_components(search_dir@).len(),
            tail == cs.skip(k as int),
            out@ == spec_join(tail.take(i - k)),
        decreases comps.len() - i,
    {
        if i > k {
            proof {
                reveal_strlit("/");
            }
            out.append("/");
        }
        out.append(comps[i].as_str());
        proof {
            lemma_join_take_step(tail, i - k);
            assert(tail[i - k] == cs[i as int]);
            assert(out@ =~= spec_join(tail.take(i - k + 1)));
        }
        i = i + 1;
    }
    proof {
        assert(tail.take(comps@.len() - k) =~= tail);
    }
    out
}

/// Computes the name a test file contributes: the stem of its path relative
/// to the searched directory.
pub fn get_testfile_name(search_dir: &str, path: &str) -> (r: String)
    requires
        spec_is_under(path@, search_dir@),
    ensures
        r@ == spec_stem(path@, search_dir@),
{
    get_stem(path, search_dir)
}

} // verus!
