//! Text helpers: joining string lists and assembling newline-terminated lines.

use vstd::prelude::*;
use vstd::string::*;

verus! {

/// The character sequences held by a list of strings.
pub open spec fn texts(v: Seq<String>) -> Seq<Seq<char>> {
    v.map_values(|s: String| s@)
}

/// `parts` joined with `sep` between consecutive parts.
pub open spec fn join(parts: Seq<Seq<char>>, sep: Seq<char>) -> Seq<char>
    decreases parts.len(),
{
    if parts.len() == 0 {
        Seq::empty()
    } else if parts.len() == 1 {
        parts[0]
    } else {
        join(parts.drop_last(), sep) + sep + parts.last()
    }
}

/// The text made of `lines`, each followed by a newline.
pub open spec fn terminated(lines: Seq<Seq<char>>) -> Seq<char>
    decreases lines.len(),
{
    if lines.len() == 0 {
        Seq::empty()
    } else {
        terminated(lines.drop_last()) + lines.last() + seq!['\n']
    }
}

/// Whether `s` begins with `p`.
pub open spec fn starts_with(s: Seq<char>, p: Seq<char>) -> bool {
    p.len() <= s.len() && s.subrange(0, p.len() as int) =~= p
}

/// Line `i` of `lines` is the one and only line that begins with `key`.
pub open spec fn only_line_starting(lines: Seq<Seq<char>>, key: Seq<char>, i: int) -> bool {
    &&& 0 <= i < lines.len()
    &&& forall|j: int| 0 <= j < lines.len() ==> (starts_with(#[trigger] lines[j], key) <==> j == i)
}

pub proof fn lemma_terminated_push(lines: Seq<Seq<char>>, line: Seq<char>)
    ensures
        terminated(lines.push(line)) == terminated(lines) + line + seq!['\n'],
{
    assert(lines.push(line).drop_last() =~= lines);
}

/// Joins `parts` with `sep` between consecutive parts.
pub fn join_strings(parts: &Vec<String>, sep: &str) -> (r: String)
    ensures
        r@ == join(texts(parts@), sep@),
{
    let ghost whole = texts(parts@);
    let mut out = String::new();
    let n = parts.len();
    let mut i: usize = 0;
    while i < n
        invariant
            n == parts.len(),
            i <= n,
            whole == texts(parts@),
            out@ == join(whole.take(i as int), sep@),
        decreases n - i,
    {
        proof {
            assert(whole.take(i + 1).drop_last() =~= whole.take(i as int));
        }
        if i > 0 {
            out.append(sep);
        }
        out.append(parts[i].as_str());
        proof {
            if i == 0 {
                assert(out@ =~= whole.take(1)[0]);
            }
        }
        i = i + 1;
    }
    assert(whole.take(n as int) =~= whole);
    out
}

/// Appends the line `key` `value` and its newline to `out`, which holds `lines`.
pub(crate) fn push_line(out: &mut String, key: &str, value: &str, Ghost(lines): Ghost<Seq<Seq<char>>>)
    requires
        old(out)@ == terminated(lines),
    ensures
        final(out)@ == terminated(lines.push(key@ + value@)),
{
    out.append(key);
    out.append(value);
    out.append("\n");
    proof {
        reveal_strlit("\n");
        lemma_terminated_push(lines, key@ + value@);
    }
    assert(out@ =~= terminated(lines) + (key@ + value@) + seq!['\n']);
}

} // verus!
