//! Merging the required ignore patterns into the text of a `.gitignore`.
use vstd::prelude::*;
use vstd::string::*;
use crate::text::same_text;

verus! {

/// `l` without one final carriage return.
pub open spec fn strip_cr(l: Seq<char>) -> Seq<char> {
    if l.len() > 0 && l.last() == '\r' {
        l.drop_last()
    } else {
        l
    }
}

/// The lines of `s`, given that the current unfinished line holds `cur`: a
/// line ends at `\n` (a `\r` just before it is dropped), and a final line
/// without `\n` counts only when it is not empty.
pub open spec fn lines_after(s: Seq<char>, cur: Seq<char>) -> Seq<Seq<char>>
    decreases s.len(),
{
    if s.len() == 0 {
        if cur.len() == 0 {
            seq![]
        } else {
            seq![cur]
        }
    } else if s[0] == '\n' {
        seq![strip_cr(cur)] + lines_after(s.drop_first(), seq![])
    } else {
        lines_after(s.drop_first(), cur.push(s[0]))
    }
}

/// The lines of `s`, as `str::lines` splits them.
pub open spec fn lines_of(s: Seq<char>) -> Seq<Seq<char>> {
    lines_after(s, seq![])
}

/// Each line followed by `\n`, concatenated.
pub open spec fn join_terminated(ls: Seq<Seq<char>>) -> Seq<char>
    decreases ls.len(),
{
    if ls.len() == 0 {
        seq![]
    } else {
        ls[0] + seq!['\n'] + join_terminated(ls.drop_first())
    }
}

/// Whether the line `l` is exactly the pattern, with or without its slash.
pub open spec fn line_names(l: Seq<char>, slashed: Seq<char>, bare: Seq<char>) -> bool {
    l == slashed || l == bare
}

/// Whether some line of `ls` names the pattern.
pub open spec fn has_entry(ls: Seq<Seq<char>>, slashed: Seq<char>, bare: Seq<char>) -> bool {
    exists|k: int| 0 <= k < ls.len() && line_names(#[trigger] ls[k], slashed, bare)
}

/// Whether the lines already name both required patterns.
pub open spec fn ignore_satisfied(ls: Seq<Seq<char>>) -> bool {
    has_entry(ls, ".cursor/"@, ".cursor"@) && has_entry(ls, ".ai/"@, ".ai"@)
}

/// The patterns that must be appended to the lines `ls`, in order.
pub open spec fn missing_patterns(ls: Seq<Seq<char>>) -> Seq<Seq<char>> {
    (if has_entry(ls, ".cursor/"@, ".cursor"@) {
        seq![]
    } else {
        seq![".cursor/"@]
    }) + (if has_entry(ls, ".ai/"@, ".ai"@) {
        seq![]
    } else {
        seq![".ai/"@]
    })
}

/// The merged file text: the original lines, then the missing patterns, each
/// line ending in one `\n`.
pub open spec fn merged_text(s: Seq<char>) -> Seq<char> {
    join_terminated(lines_of(s) + missing_patterns(lines_of(s)))
}

/// The bounds of each line of `s`: line `k` is the characters from
/// `r[k].0` up to `r[k].1`.
pub fn line_bounds(s: &str) -> (r: Vec<(usize, usize)>)
    ensures
        r@.len() == lines_of(s@).len(),
        forall|k: int|
            #![trigger r@[k]]
            0 <= k < r@.len() ==> {
                &&& r@[k].0 <= r@[k].1
                &&& r@[k].1 <= s@.len()
                &&& s@.subrange(r@[k].0 as int, r@[k].1 as int) == lines_of(s@)[k]
            },
{
    let n = s.unicode_len();
    let mut r: Vec<(usize, usize)> = Vec::new();
    let mut start: usize = 0;
    let mut i: usize = 0;
    let ghost done: Seq<Seq<char>> = seq![];
    assert(s@.skip(0) == s@);
    assert(s@.subrange(0, 0) == Seq::<char>::empty());
    assert(done + lines_of(s@) == lines_of(s@));
    while i < n
        invariant
            n == s@.len(),
            start <= i <= n,
            r@.len() == done.len(),
            forall|k: int|
                0 <= k < r@.len() ==> {
                    &&& #[trigger] r@[k].0 <= r@[k].1
                &&& r@[k].1 <= s@.len()
                    &&& s@.subrange(r@[k].0 as int, r@[k].1 as int) == done[k]
                },
            lines_of(s@) == done + lines_after(s@.skip(i as int), s@.subrange(start as int, i as int)),
        decreases n - i,
    {
        let c = s.get_char(i);
        let ghost cur = s@.subrange(start as int, i as int);
        assert(s@.skip(i as int)[0] == c);
        assert(s@.skip(i as int).drop_first() == s@.skip(i + 1));
        if c == '\n' {
            let mut end = i;
            if i > start && s.get_char(i - 1) == '\r' {
                end = i - 1;
                assert(cur.last() == '\r');
                assert(cur.drop_last() == s@.subrange(start as int, end as int));
            }
            assert(s@.subrange(start as int, end as int) == strip_cr(cur));
            let ghost prev_r = r@;
            let ghost prev_done = done;
            r.push((start, end));
            proof {
                let rest = lines_after(s@.skip(i + 1), seq![]);
                assert(lines_after(s@.skip(i as int), cur) == seq![strip_cr(cur)] + rest);
                assert(done + (seq![strip_cr(cur)] + rest) == done.push(strip_cr(cur)) + rest);
                assert(s@.subrange(i + 1, i + 1) == Seq::<char>::empty());
                done = done.push(strip_cr(cur));
                assert forall|k: int| 0 <= k < r@.len() implies {
                    &&& r@[k].0 <= r@[k].1
                &&& r@[k].1 <= s@.len()
                    &&& s@.subrange(r@[k].0 as int, r@[k].1 as int) == done[k]
                } by {
                    if k < r@.len() - 1 {
                        assert(r@[k] == prev_r[k]);
                        assert(prev_r[k].0 <= prev_r[k].1);
                        assert(done[k] == prev_done[k]);
                    } else {
                        assert(r@[k] == (start, end));
                    }
                }
            }
            start = i + 1;
        } else {
            assert(cur.push(c) == s@.subrange(start as int, i + 1));
        }
        i = i + 1;
    }
    proof {
        let cur = s@.subrange(start as int, n as int);
        assert(s@.skip(n as int).len() == 0);
        if cur.len() != 0 {
            assert(lines_after(s@.skip(n as int), cur) == seq![cur]);
        } else {
            assert(lines_after(s@.skip(n as int), cur) == Seq::<Seq<char>>::empty());
        }
    }
    if start < n {
        let ghost prev_r = r@;
        let ghost prev_done = done;
        r.push((start, n));
        proof {
            done = done.push(s@.subrange(start as int, n as int));
            assert forall|k: int| 0 <= k < r@.len() implies {
                &&& r@[k].0 <= r@[k].1
                &&& r@[k].1 <= s@.len()
                &&& s@.subrange(r@[k].0 as int, r@[k].1 as int) == done[k]
            } by {
                if k < r@.len() - 1 {
                    assert(r@[k] == prev_r[k]);
                        assert(prev_r[k].0 <= prev_r[k].1);
                    assert(done[k] == prev_done[k]);
                } else {
                    assert(r@[k] == (start, n));
                }
            }
        }
    }
    assert(lines_of(s@) == done);
    assert forall|k: int| #![trigger r@[k]] 0 <= k < r@.len() implies {
        &&& r@[k].0 <= r@[k].1
                &&& r@[k].1 <= s@.len()
        &&& s@.subrange(r@[k].0 as int, r@[k].1 as int) == lines_of(s@)[k]
    } by {
        assert(done[k] == lines_of(s@)[k]);
    }
    r
}

/// Appending a line appends it, and its `\n`, to the joined text.
pub proof fn lemma_join_push(ls: Seq<Seq<char>>, x: Seq<char>)
    ensures
        join_terminated(ls.push(x)) == join_terminated(ls) + x + seq!['\n'],
    decreases ls.len(),
{
    if ls.len() == 0 {
        assert(ls.push(x).drop_first() == Seq::<Seq<char>>::empty());
        assert(ls.push(x)[0] == x);
        assert(join_terminated(Seq::<Seq<char>>::empty()) == Seq::<char>::empty());
        assert(join_terminated(ls.push(x)) =~= join_terminated(ls) + x + seq!['\n']);
    } else {
        lemma_join_push(ls.drop_first(), x);
        assert(ls.push(x).drop_first() == ls.drop_first().push(x));
        assert(ls.push(x)[0] == ls[0]);
        assert(join_terminated(ls.push(x)) =~= join_terminated(ls) + x + seq!['\n']);
    }
}

/// Whether the line `s[a..b]` is exactly `slashed` or `bare`.
fn line_names_pattern(s: &str, a: usize, b: usize, slashed: &str, bare: &str) -> (r: bool)
    requires
        a <= b <= s@.len(),
    ensures
        r == line_names(s@.subrange(a as int, b as int), slashed@, bare@),
{
    let t = s.substring_char(a, b);
    same_text(t, slashed) || same_text(t, bare)
}

/// Whether some line of `s`, whose bounds are `bounds`, names the pattern.
fn names_pattern(s: &str, bounds: &Vec<(usize, usize)>, slashed: &str, bare: &str) -> (r: bool)
    requires
        bounds@.len() == lines_of(s@).len(),
        forall|k: int|
            #![trigger bounds@[k]]
            0 <= k < bounds@.len() ==> {
                &&& bounds@[k].0 <= bounds@[k].1
                &&& bounds@[k].1 <= s@.len()
                &&& s@.subrange(bounds@[k].0 as int, bounds@[k].1 as int) == lines_of(s@)[k]
            },
    ensures
        r == has_entry(lines_of(s@), slashed@, bare@),
{
    let mut k: usize = 0;
    while k < bounds.len()
        invariant
            k <= bounds@.len(),
            bounds@.len() == lines_of(s@).len(),
            forall|j: int|
                #![trigger bounds@[j]]
                0 <= j < bounds@.len() ==> {
                    &&& bounds@[j].0 <= bounds@[j].1
                    &&& bounds@[j].1 <= s@.len()
                    &&& s@.subrange(bounds@[j].0 as int, bounds@[j].1 as int) == lines_of(s@)[j]
                },
            forall|j: int| 0 <= j < k ==> !line_names(#[trigger] lines_of(s@)[j], slashed@, bare@),
        decreases bounds@.len() - k,
    {
        let (a, b) = bounds[k];
        assert(bounds@[k as int] == (a, b));
        if line_names_pattern(s, a, b, slashed, bare) {
            return true;
        }
        k = k + 1;
    }
    false
}

/// The text of a `.gitignore` after merging in the required patterns
/// `.cursor/` and `.ai/`, or `None` when both are already there.
///
/// A line that is exactly the pattern, with or without its trailing slash,
/// counts as the pattern; a line with anything more, white space included,
/// does not. Missing patterns are appended after the
/// existing lines, in the order `.cursor/`, `.ai/`, and every line of the
/// result ends in a single `\n`.
pub fn merged_gitignore(content: &str) -> (r: Option<String>)
    ensures
        r is None <==> ignore_satisfied(lines_of(content@)),
        r is Some ==> r->0@ == merged_text(content@),
{
    let bounds = line_bounds(content);
    let has_cursor = names_pattern(content, &bounds, ".cursor/", ".cursor");
    let has_ai = names_pattern(content, &bounds, ".ai/", ".ai");
    if has_cursor && has_ai {
        return None;
    }
    let ghost ls = lines_of(content@);
    let mut out = String::new();
    let mut k: usize = 0;
    proof {
        reveal_strlit("\n");
    }
    assert(ls.take(0) == Seq::<Seq<char>>::empty());
    while k < bounds.len()
        invariant
            k <= bounds@.len(),
            ls == lines_of(content@),
            bounds@.len() == ls.len(),
            forall|j: int|
                #![trigger bounds@[j]]
                0 <= j < bounds@.len() ==> {
                    &&& bounds@[j].0 <= bounds@[j].1
                    &&& bounds@[j].1 <= content@.len()
                    &&& content@.subrange(bounds@[j].0 as int, bounds@[j].1 as int) == ls[j]
                },
            out@ == join_terminated(ls.take(k as int)),
            "\n"@ == seq!['\n'],
        decreases bounds@.len() - k,
    {
        let (a, b) = bounds[k];
        assert(bounds@[k as int] == (a, b));
        out.append(content.substring_char(a, b));
        out.append("\n");
        proof {
            lemma_join_push(ls.take(k as int), ls[k as int]);
            assert(ls.take(k + 1) == ls.take(k as int).push(ls[k as int]));
        }
        k = k + 1;
    }
    assert(ls.take(ls.len() as int) == ls);
    let ghost acc = ls;
    if !has_cursor {
        out.append(".cursor/");
        out.append("\n");
        proof {
            lemma_join_push(acc, ".cursor/"@);
            acc = acc.push(".cursor/"@);
        }
    }
    if !has_ai {
        out.append(".ai/");
        out.append("\n");
        proof {
            lemma_join_push(acc, ".ai/"@);
            acc = acc.push(".ai/"@);
        }
    }
    assert(acc == ls + missing_patterns(ls));
    Some(out)
}

/// Whether `l` holds no line break.
pub open spec fn single_line(l: Seq<char>) -> bool {
    !l.contains('\n')
}

/// Reading past characters that hold no line break only extends the current line.
proof fn lemma_lines_skip_text(a: Seq<char>, b: Seq<char>, cur: Seq<char>)
    requires
        single_line(a),
    ensures
        lines_after(a + b, cur) == lines_after(b, cur + a),
    decreases a.len(),
{
    if a.len() == 0 {
        assert(a + b == b);
        assert(cur + a == cur);
    } else {
        assert(a[0] != '\n') by {
            if a[0] == '\n' {
                assert(a.contains('\n'));
            }
        }
        assert((a + b)[0] == a[0]);
        assert((a + b).drop_first() == a.drop_first() + b);
        assert(single_line(a.drop_first())) by {
            if a.drop_first().contains('\n') {
                let j = choose|j: int| 0 <= j < a.drop_first().len() && a.drop_first()[j] == '\n';
                assert(a[j + 1] == '\n');
            }
        }
        lemma_lines_skip_text(a.drop_first(), b, cur.push(a[0]));
        assert(cur.push(a[0]) + a.drop_first() == cur + a);
    }
}

/// Splitting joined lines gives the lines back, each without one final `\r`.
pub proof fn lemma_lines_of_join(ls: Seq<Seq<char>>)
    requires
        forall|k: int| 0 <= k < ls.len() ==> single_line(#[trigger] ls[k]),
    ensures
        lines_of(join_terminated(ls)) == ls.map_values(|l: Seq<char>| strip_cr(l)),
    decreases ls.len(),
{
    if ls.len() == 0 {
        assert(ls.map_values(|l: Seq<char>| strip_cr(l)) == Seq::<Seq<char>>::empty());
    } else {
        let rest = join_terminated(ls.drop_first());
        let nl_rest = seq!['\n'] + rest;
        assert(join_terminated(ls) == ls[0] + nl_rest);
        lemma_lines_skip_text(ls[0], nl_rest, seq![]);
        assert(Seq::<char>::empty() + ls[0] == ls[0]);
        assert(nl_rest[0] == '\n');
        assert(nl_rest.drop_first() == rest);
        assert(lines_after(nl_rest, ls[0]) == seq![strip_cr(ls[0])] + lines_after(rest, seq![]));
        assert(forall|k: int|
            0 <= k < ls.drop_first().len() ==> #[trigger] ls.drop_first()[k] == ls[k + 1]);
        lemma_lines_of_join(ls.drop_first());
        assert(ls.map_values(|l: Seq<char>| strip_cr(l)) =~= seq![strip_cr(ls[0])]
            + ls.drop_first().map_values(|l: Seq<char>| strip_cr(l)));
    }
}

/// No line that splitting produces holds a line break.
pub proof fn lemma_lines_single(s: Seq<char>, cur: Seq<char>)
    requires
        single_line(cur),
    ensures
        forall|k: int|
            0 <= k < lines_after(s, cur).len() ==> single_line(#[trigger] lines_after(s, cur)[k]),
    decreases s.len(),
{
    if s.len() == 0 {
        if cur.len() != 0 {
            assert(lines_after(s, cur) == seq![cur]);
        } else {
            assert(lines_after(s, cur) == Seq::<Seq<char>>::empty());
        }
    } else if s[0] == '\n' {
        assert(single_line(strip_cr(cur))) by {
            if strip_cr(cur).contains('\n') {
                let j = choose|j: int| 0 <= j < strip_cr(cur).len() && strip_cr(cur)[j] == '\n';
                assert(cur[j] == '\n');
            }
        }
        lemma_lines_single(s.drop_first(), seq![]);
        let tail = lines_after(s.drop_first(), seq![]);
        assert forall|k: int| 0 <= k < lines_after(s, cur).len() implies single_line(
            #[trigger] lines_after(s, cur)[k],
        ) by {
            if k > 0 {
                assert(lines_after(s, cur)[k] == tail[k - 1]);
            }
        }
    } else {
        assert(single_line(cur.push(s[0]))) by {
            if cur.push(s[0]).contains('\n') {
                let j = choose|j: int| 0 <= j < cur.push(s[0]).len() && cur.push(s[0])[j] == '\n';
                if j < cur.len() {
                    assert(cur[j] == '\n');
                }
            }
        }
        lemma_lines_single(s.drop_first(), cur.push(s[0]));
        assert(lines_after(s, cur) == lines_after(s.drop_first(), cur.push(s[0])));
    }
}

/// After a merge the file names both required patterns, so merging its text
/// again changes nothing; its lines are the original lines followed by the
/// appended patterns, each without one final `\r`.
pub proof fn lemma_merge_settles(s: Seq<char>)
    ensures
        ignore_satisfied(lines_of(merged_text(s))),
        lines_of(merged_text(s)) == (lines_of(s) + missing_patterns(lines_of(s))).map_values(
            |l: Seq<char>| strip_cr(l),
        ),
{
    reveal_strlit(".cursor/");
    reveal_strlit(".ai/");
    let ls = lines_of(s);
    let miss = missing_patterns(ls);
    let all = ls + miss;
    reveal_strlit(".cursor");
    reveal_strlit(".ai");
    assert(single_line(".cursor/"@)) by {
        assert(forall|j: int| 0 <= j < ".cursor/"@.len() ==> ".cursor/"@[j] != '\n');
    }
    assert(single_line(".ai/"@)) by {
        assert(forall|j: int| 0 <= j < ".ai/"@.len() ==> ".ai/"@[j] != '\n');
    }
    lemma_lines_single(s, seq![]);
    assert forall|k: int| 0 <= k < all.len() implies single_line(#[trigger] all[k]) by {
        if k < ls.len() {
            assert(all[k] == ls[k]);
        } else {
            assert(all[k] == miss[k - ls.len()]);
        }
    }
    lemma_lines_of_join(all);
    let out = all.map_values(|l: Seq<char>| strip_cr(l));
    assert(lines_of(merged_text(s)) == out);
    if has_entry(ls, ".cursor/"@, ".cursor"@) {
        let k = choose|k: int| 0 <= k < ls.len() && line_names(#[trigger] ls[k], ".cursor/"@, ".cursor"@);
        assert(out[k] == strip_cr(ls[k]));
        assert(strip_cr(ls[k]) == ls[k]);
        assert(line_names(out[k], ".cursor/"@, ".cursor"@));
    } else {
        let k = ls.len() as int;
        assert(all[k] == ".cursor/"@);
        assert(strip_cr(".cursor/"@) == ".cursor/"@);
        assert(out[k] == ".cursor/"@);
        assert(line_names(out[k], ".cursor/"@, ".cursor"@));
    }
    if has_entry(ls, ".ai/"@, ".ai"@) {
        let k = choose|k: int| 0 <= k < ls.len() && line_names(#[trigger] ls[k], ".ai/"@, ".ai"@);
        assert(out[k] == strip_cr(ls[k]));
        assert(strip_cr(ls[k]) == ls[k]);
        assert(line_names(out[k], ".ai/"@, ".ai"@));
    } else {
        let k = all.len() - 1;
        assert(all[k] == ".ai/"@);
        assert(strip_cr(".ai/"@) == ".ai/"@);
        assert(out[k] == ".ai/"@);
        assert(line_names(out[k], ".ai/"@, ".ai"@));
    }
}

} // verus!
