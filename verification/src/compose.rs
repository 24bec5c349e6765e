//! Assembly of the prompt: joining positional arguments with spaces,
//! trimming piped context, and composing the two into the final prompt.
use vstd::prelude::*;

verus! {

/// Whether `c` has the Unicode White_Space property, the set of characters
/// that `str::trim` removes.
pub open spec fn is_space_char(c: char) -> bool {
    let u = c as u32;
    (0x09 <= u && u <= 0x0D) || u == 0x20 || u == 0x85 || u == 0xA0 || u == 0x1680 || (0x2000
        <= u && u <= 0x200A) || u == 0x2028 || u == 0x2029 || u == 0x202F || u == 0x205F || u
        == 0x3000
}

fn is_space(c: char) -> (r: bool)
    ensures
        r == is_space_char(c),
{
    let u = c as u32;
    (0x09 <= u && u <= 0x0D) || u == 0x20 || u == 0x85 || u == 0xA0 || u == 0x1680 || (0x2000 <= u
        && u <= 0x200A) || u == 0x2028 || u == 0x2029 || u == 0x202F || u == 0x205F || u == 0x3000
}

pub open spec fn trim_front(s: Seq<char>) -> Seq<char>
    decreases s.len(),
{
    if s.len() > 0 && is_space_char(s[0]) {
        trim_front(s.drop_first())
    } else {
        s
    }
}

pub open spec fn trim_back(s: Seq<char>) -> Seq<char>
    decreases s.len(),
{
    if s.len() > 0 && is_space_char(s.last()) {
        trim_back(s.drop_last())
    } else {
        s
    }
}

/// `s` without leading and trailing whitespace.
pub open spec fn trimmed(s: Seq<char>) -> Seq<char> {
    trim_back(trim_front(s))
}

pub fn trim_str(s: &str) -> (r: String)
    ensures
        r@ == trimmed(s@),
{
    let n = s.unicode_len();
    proof {
        assert(s@.skip(0) =~= s@);
    }
    let mut i: usize = 0;
    while i < n && is_space(s.get_char(i))
        invariant
            n == s@.len(),
            i <= n,
            trim_front(s@) == trim_front(s@.skip(i as int)),
        decreases n - i,
    {
        proof {
            assert(s@.skip(i as int).drop_first() =~= s@.skip(i as int + 1));
        }
        i = i + 1;
    }
    proof {
        assert(trim_front(s@) == s@.skip(i as int));
    }
    let mut j: usize = n;
    while j > i && is_space(s.get_char(j - 1))
        invariant
            n == s@.len(),
            i <= j <= n,
            trim_front(s@) == s@.skip(i as int),
            trim_back(s@.skip(i as int)) == trim_back(s@.subrange(i as int, j as int)),
        decreases j,
    {
        proof {
            assert(s@.subrange(i as int, j as int).last() == s@[j - 1]);
            assert(s@.subrange(i as int, j as int).drop_last() =~= s@.subrange(
                i as int,
                j as int - 1,
            ));
        }
        j = j - 1;
    }
    proof {
        if j > i {
            assert(s@.subrange(i as int, j as int).last() == s@[j - 1]);
        }
        assert(trim_back(s@.subrange(i as int, j as int)) == s@.subrange(i as int, j as int));
    }
    let sub = s.substring_char(i, j);
    String::from_str(sub)
}

/// The piped context kept for composition: the trimmed stream contents when
/// they are not blank, nothing otherwise.
pub fn piped_context(raw: &str) -> (r: Option<String>)
    ensures
        trimmed(raw@).len() == 0 ==> r is None,
        trimmed(raw@).len() > 0 ==> r is Some && r->0@ == trimmed(raw@),
{
    let t = trim_str(raw);
    if t.as_str().is_empty() {
        None
    } else {
        Some(t)
    }
}

/// The views of a sequence of strings.
pub open spec fn views(parts: Seq<String>) -> Seq<Seq<char>> {
    Seq::new(parts.len(), |i: int| parts[i]@)
}

/// The parts joined with a single space between each pair of neighbours.
pub open spec fn join_spaced(parts: Seq<Seq<char>>) -> Seq<char>
    decreases parts.len(),
{
    if parts.len() == 0 {
        Seq::empty()
    } else if parts.len() == 1 {
        parts[0]
    } else {
        join_spaced(parts.drop_last()) + seq![' '] + parts.last()
    }
}

pub fn join_args(args: &Vec<String>) -> (r: String)
    ensures
        r@ == join_spaced(views(args@)),
{
    let mut out = String::new();
    let mut k: usize = 0;
    while k < args.len()
        invariant
            k <= args@.len(),
            out@ == join_spaced(views(args@).take(k as int)),
        decreases args@.len() - k,
    {
        if k > 0 {
            out.append(" ");
        }
        out.append(args[k].as_str());
        proof {
            reveal_strlit(" ");
            assert(" "@ =~= seq![' ']);
            assert(views(args@).take(k + 1).drop_last() =~= views(args@).take(k as int));
            assert(views(args@).take(k + 1).last() == args@[k as int]@);
        }
        k = k + 1;
    }
    proof {
        assert(views(args@).take(args@.len() as int) =~= views(args@));
    }
    out
}

/// The line that introduces piped context in the composed prompt.
pub open spec fn context_header() -> Seq<char> {
    "\n\nContext:\n"@
}

/// The composition rule for the final prompt: the primary prompt alone when
/// there is no context, the context alone when the primary prompt is empty,
/// and otherwise the primary prompt, a blank line, the `Context:` line and
/// the context.
pub open spec fn composed(primary: Seq<char>, context: Option<Seq<char>>) -> Seq<char> {
    match context {
        None => primary,
        Some(c) => if primary.len() == 0 {
            c
        } else {
            primary + context_header() + c
        },
    }
}

pub open spec fn opt_str_view(s: Option<&str>) -> Option<Seq<char>> {
    match s {
        None => None,
        Some(c) => Some(c@),
    }
}

pub fn compose_prompt(primary: &str, context: Option<&str>) -> (r: String)
    ensures
        r@ == composed(primary@, opt_str_view(context)),
{
    match context {
        None => String::from_str(primary),
        Some(c) => {
            if primary.is_empty() {
                String::from_str(c)
            } else {
                let mut out = String::from_str(primary);
                out.append("\n\nContext:\n");
                out.append(c);
                out
            }
        },
    }
}

/// With no piped context the composed prompt is exactly the positional
/// arguments joined by single spaces.
pub proof fn lemma_prompt_is_joined_args(parts: Seq<Seq<char>>)
    ensures
        composed(join_spaced(parts), None) == join_spaced(parts),
{
}

/// With no positional arguments the composed prompt is exactly the piped
/// context.
pub proof fn lemma_prompt_is_piped_context(context: Seq<char>)
    ensures
        composed(Seq::<char>::empty(), Some(context)) == context,
{
}

} // verus!
