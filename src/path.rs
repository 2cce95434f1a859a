use vstd::prelude::*;

verus! {

/// A character that ends a line of text.
pub open spec fn is_line_end(c: char) -> bool {
    c == '\n' || c == '\r'
}

/// `line` without the line-ending characters at its end.
pub open spec fn strip_line_end(line: Seq<char>) -> Seq<char>
    decreases line.len(),
{
    if line.len() > 0 && is_line_end(line.last()) {
        strip_line_end(line.drop_last())
    } else {
        line
    }
}

/// Whether `p` starts at the root of the filesystem.
pub open spec fn is_rooted(p: Seq<char>) -> bool {
    p.len() > 0 && p[0] == '/'
}

/// Whether `p` ends in a separator.
pub open spec fn ends_with_separator(p: Seq<char>) -> bool {
    p.len() > 0 && p.last() == '/'
}

/// `rel` appended to `base` as a path: a rooted `rel` takes the place of `base`,
/// and otherwise one separator stands between the two where `base` lacks it.
pub open spec fn joined(base: Seq<char>, rel: Seq<char>) -> Seq<char> {
    if is_rooted(rel) {
        rel
    } else if base.len() == 0 || ends_with_separator(base) {
        base + rel
    } else {
        base + seq!['/'] + rel
    }
}

/// The segments already closed, and the one being read, after the first `n`
/// characters of `p`; empty segments and `.` segments are dropped.
pub open spec fn scan_segments(p: Seq<char>, n: nat) -> (Seq<Seq<char>>, Seq<char>)
    decreases n,
{
    if n == 0 || n > p.len() {
        (seq![], seq![])
    } else {
        let prev = scan_segments(p, (n - 1) as nat);
        if p[n - 1] == '/' {
            (close_segment(prev.0, prev.1), seq![])
        } else {
            (prev.0, prev.1.push(p[n - 1]))
        }
    }
}

/// `done` with `seg` added, unless `seg` is empty or the current directory.
pub open spec fn close_segment(done: Seq<Seq<char>>, seg: Seq<char>) -> Seq<Seq<char>> {
    if seg.len() == 0 || seg == seq!['.'] {
        done
    } else {
        done.push(seg)
    }
}

/// The names between the separators of `p`, with empty and `.` names left out.
pub open spec fn segments(p: Seq<char>) -> Seq<Seq<char>> {
    let s = scan_segments(p, p.len());
    close_segment(s.0, s.1)
}

/// Whether `p` is `root` or lies below it, comparing whole segments.
pub open spec fn within(root: Seq<char>, p: Seq<char>) -> bool {
    let r = segments(root);
    let s = segments(p);
    &&& is_rooted(root) == is_rooted(p)
    &&& r.len() <= s.len()
    &&& s.subrange(0, r.len() as int) == r
}

/// Joining keeps pathnames apart: two relative pathnames that land on the
/// same path under one root are the same pathname, so the files extracted
/// under a root are exactly the declared ones, one for each.
pub proof fn lemma_join_injective(root: Seq<char>, a: Seq<char>, b: Seq<char>)
    requires
        !is_rooted(a),
        !is_rooted(b),
        joined(root, a) == joined(root, b),
    ensures
        a == b,
{
    let pre = if root.len() == 0 || ends_with_separator(root) {
        root
    } else {
        root + seq!['/']
    };
    assert(joined(root, a) == pre + a);
    assert(joined(root, b) == pre + b);
    assert(a =~= (pre + a).subrange(pre.len() as int, (pre + a).len() as int));
    assert(b =~= (pre + b).subrange(pre.len() as int, (pre + b).len() as int));
}

/// The declared pathname held by the first line of a `pathname` file.
pub fn declared_pathname(line: &str) -> (r: String)
    ensures
        r@ == strip_line_end(line@),
{
    let mut end = line.unicode_len();
    assert(line@.subrange(0, end as int) =~= line@);
    while end > 0 && (line.get_char(end - 1) == '\n' || line.get_char(end - 1) == '\r')
        invariant
            end <= line@.len(),
            strip_line_end(line@) == strip_line_end(line@.subrange(0, end as int)),
        decreases end,
    {
        assert(line@.subrange(0, end as int).drop_last() =~= line@.subrange(0, end - 1));
        end = end - 1;
    }
    let kept = line.substring_char(0, end);
    kept.to_owned()
}

/// Appends `rel` to `base` as the platform joins paths.
pub fn join_path(base: &str, rel: &str) -> (r: String)
    ensures
        r@ == joined(base@, rel@),
{
    let base_len = base.unicode_len();
    let rel_len = rel.unicode_len();
    if rel_len > 0 && rel.get_char(0) == '/' {
        return rel.to_owned();
    }
    let mut out = base.to_owned();
    if base_len > 0 && base.get_char(base_len - 1) != '/' {
        proof {
            reveal_strlit("/");
        }
        out.append("/");
    }
    out.append(rel);
    out
}

/// Whether two segments hold the same characters.
fn same_segment(a: &Vec<char>, b: &Vec<char>) -> (r: bool)
    ensures
        r == (a@ == b@),
{
    if a.len() != b.len() {
        return false;
    }
    let mut i: usize = 0;
    while i < a.len()
        invariant
            a.len() == b.len(),
            i <= a.len(),
            forall|j: int| 0 <= j < i ==> a@[j] == b@[j],
        decreases a.len() - i,
    {
        if a[i] != b[i] {
            return false;
        }
        i = i + 1;
    }
    assert(a@ =~= b@);
    true
}

/// Splits `p` into its segments, leaving out empty and `.` names.
pub fn split_segments(p: &str) -> (r: Vec<Vec<char>>)
    ensures
        r@.map_values(|v: Vec<char>| v@) == segments(p@),
{
    let n = p.unicode_len();
    let mut done: Vec<Vec<char>> = Vec::new();
    let mut cur: Vec<char> = Vec::new();
    let mut i: usize = 0;
    while i < n
        invariant
            n == p@.len(),
            i <= n,
            done@.map_values(|v: Vec<char>| v@) == scan_segments(p@, i as nat).0,
            cur@ == scan_segments(p@, i as nat).1,
        decreases n - i,
    {
        let c = p.get_char(i);
        if c == '/' {
            close_into(&mut done, cur);
            cur = Vec::new();
        } else {
            cur.push(c);
        }
        i = i + 1;
    }
    close_into(&mut done, cur);
    done
}

/// Adds `seg` to `done` as `close_segment` does.
fn close_into(done: &mut Vec<Vec<char>>, seg: Vec<char>)
    ensures
        final(done)@.map_values(|v: Vec<char>| v@) == close_segment(
            old(done)@.map_values(|v: Vec<char>| v@),
            seg@,
        ),
{
    let dot = seg.len() == 1 && seg[0] == '.';
    if seg.len() == 0 || dot {
        proof {
            if seg@.len() == 1 {
                assert(dot == (seg@ == seq!['.'])) by {
                    if seg@[0] == '.' {
                        assert(seg@ =~= seq!['.']);
                    }
                }
            }
        }
        return;
    }
    assert(seg@ != seq!['.']) by {
        if seg@ == seq!['.'] {
            assert(seg@[0] == '.');
        }
    }
    let ghost before = done@;
    done.push(seg);
    assert(done@.map_values(|v: Vec<char>| v@) =~= before.map_values(|v: Vec<char>| v@).push(
        seg@,
    ));
}

/// Whether `p` is `root` or lies below it, comparing whole segments.
pub fn is_within(root: &str, p: &str) -> (r: bool)
    ensures
        r == within(root@, p@),
{
    let root_rooted = root.unicode_len() > 0 && root.get_char(0) == '/';
    let p_rooted = p.unicode_len() > 0 && p.get_char(0) == '/';
    let rs = split_segments(root);
    let ps = split_segments(p);
    let ghost r = rs@.map_values(|v: Vec<char>| v@);
    let ghost s = ps@.map_values(|v: Vec<char>| v@);
    if root_rooted != p_rooted || rs.len() > ps.len() {
        return false;
    }
    let mut i: usize = 0;
    while i < rs.len()
        invariant
            rs.len() <= ps.len(),
            i <= rs.len(),
            r == rs@.map_values(|v: Vec<char>| v@),
            s == ps@.map_values(|v: Vec<char>| v@),
            r == segments(root@),
            s == segments(p@),
            is_rooted(root@) == is_rooted(p@),
            forall|j: int| 0 <= j < i ==> s[j] == r[j],
        decreases rs.len() - i,
    {
        if !same_segment(&rs[i], &ps[i]) {
            assert(s.subrange(0, r.len() as int)[i as int] != r[i as int]);
            return false;
        }
        i = i + 1;
    }
    assert(s.subrange(0, r.len() as int) =~= r);
    true
}

} // verus!
