//! The model listing: the model records, their order by name, a sort that
//! realises it, and the rendered listing text.
use vstd::multiset::Multiset;
use vstd::prelude::*;

use crate::text::{dec_rep, left_justified, make_spaces, push_char, right_justified, u64_to_dec};

verus! {

/// One model as the listing endpoint reports it: a name and an optional
/// size in bytes.
pub struct ModelInfo {
    pub name: String,
    pub size: Option<u64>,
}

/// Lexicographic order on texts by Unicode scalar value; on the names the
/// endpoint serves this coincides with byte order.
pub open spec fn lex_le(a: Seq<char>, b: Seq<char>) -> bool
    decreases a.len(),
{
    if a.len() == 0 {
        true
    } else if b.len() == 0 {
        false
    } else if (a[0] as u32) < (b[0] as u32) {
        true
    } else if (a[0] as u32) > (b[0] as u32) {
        false
    } else {
        lex_le(a.drop_first(), b.drop_first())
    }
}

/// The order is total.
pub proof fn lemma_lex_le_total(a: Seq<char>, b: Seq<char>)
    ensures
        lex_le(a, b) || lex_le(b, a),
    decreases a.len(),
{
    if a.len() == 0 || b.len() == 0 {
    } else if (a[0] as u32) == (b[0] as u32) {
        lemma_lex_le_total(a.drop_first(), b.drop_first());
    }
}

/// The order is transitive.
pub proof fn lemma_lex_le_trans(a: Seq<char>, b: Seq<char>, c: Seq<char>)
    requires
        lex_le(a, b),
        lex_le(b, c),
    ensures
        lex_le(a, c),
    decreases a.len(),
{
    if a.len() == 0 {
    } else {
        if (a[0] as u32) == (b[0] as u32) && (b[0] as u32) == (c[0] as u32) {
            lemma_lex_le_trans(a.drop_first(), b.drop_first(), c.drop_first());
        }
    }
}

pub fn lex_le_str(a: &str, b: &str) -> (r: bool)
    ensures
        r == lex_le(a@, b@),
{
    let an = a.unicode_len();
    let bn = b.unicode_len();
    proof {
        assert(a@.skip(0) =~= a@);
        assert(b@.skip(0) =~= b@);
    }
    let mut i: usize = 0;
    while i < an && i < bn
        invariant
            an == a@.len(),
            bn == b@.len(),
            i <= an,
            i <= bn,
            lex_le(a@, b@) == lex_le(a@.skip(i as int), b@.skip(i as int)),
            lex_le(b@, a@) == lex_le(b@.skip(i as int), a@.skip(i as int)),
        decreases an - i,
    {
        let ca = a.get_char(i);
        let cb = b.get_char(i);
        if (ca as u32) < (cb as u32) {
            return true;
        }
        if (ca as u32) > (cb as u32) {
            return false;
        }
        proof {
            assert(a@.skip(i as int).drop_first() =~= a@.skip(i as int + 1));
            assert(b@.skip(i as int).drop_first() =~= b@.skip(i as int + 1));
        }
        i = i + 1;
    }
    an <= bn
}

/// The listing is sorted when every name is at or before every later name.
pub open spec fn sorted_names(ms: Seq<ModelInfo>) -> bool {
    forall|i: int, j: int|
        0 <= i < j < ms.len() ==> lex_le(#[trigger] ms[i].name@, #[trigger] ms[j].name@)
}

proof fn lemma_insert_keeps_multiset(s: Seq<ModelInfo>, p: int, m: ModelInfo)
    requires
        0 <= p <= s.len(),
    ensures
        s.insert(p, m).to_multiset() == s.to_multiset().insert(m),
{
    broadcast use vstd::seq_lib::group_to_multiset_ensures;

    let t = s.insert(p, m);
    t.to_multiset_ensures();
    assert(t.remove(p) =~= s);
    assert(t[p] == m);
    assert(t.remove(p).to_multiset() =~= t.to_multiset().remove(t[p]));
    assert(t.to_multiset().contains(m));
    assert(t.to_multiset() =~= s.to_multiset().insert(m));
}

/// Sorts the listing by name, ascending; the records themselves are kept,
/// only their order changes.
pub fn sort_models(models: &mut Vec<ModelInfo>)
    ensures
        sorted_names(final(models)@),
        final(models)@.to_multiset() == old(models)@.to_multiset(),
{
    broadcast use vstd::seq_lib::group_to_multiset_ensures;

    let mut out: Vec<ModelInfo> = Vec::new();
    proof {
        assert(out@.to_multiset().add(models@.to_multiset()) =~= old(models)@.to_multiset());
    }
    while models.len() > 0
        invariant
            sorted_names(out@),
            out@.to_multiset().add(models@.to_multiset()) == old(models)@.to_multiset(),
        decreases models@.len(),
    {
        let ghost before = models@;
        let ghost out_before = out@;
        let m = models.remove(0);
        let mut p: usize = 0;
        while p < out.len() && lex_le_str(out[p].name.as_str(), m.name.as_str())
            invariant
                p <= out@.len(),
                sorted_names(out@),
                forall|k: int| 0 <= k < p ==> lex_le(#[trigger] out@[k].name@, m.name@),
            decreases out@.len() - p,
        {
            p = p + 1;
        }
        proof {
            if p < out@.len() {
                lemma_lex_le_total(out@[p as int].name@, m.name@);
            }
            assert forall|k: int| p <= k < out@.len() implies lex_le(
                m.name@,
                #[trigger] out@[k].name@,
            ) by {
                lemma_lex_le_total(out@[p as int].name@, m.name@);
                if k > p {
                    lemma_lex_le_trans(m.name@, out@[p as int].name@, out@[k].name@);
                }
            }
        }
        let ghost out_pre_insert = out@;
        out.insert(p, m);
        proof {
            lemma_insert_keeps_multiset(out_pre_insert, p as int, m);
            before.to_multiset_ensures();
            assert(models@ == before.remove(0));
            assert(before.remove(0).to_multiset() =~= before.to_multiset().remove(before[0]));
            assert(before.contains(m)) by {
                assert(before[0] == m);
            }
            assert(before.to_multiset().count(m) > 0);
            assert(out@.to_multiset().add(models@.to_multiset()) =~= out_before.to_multiset().add(
                before.to_multiset(),
            ));
            assert forall|i: int, j: int| 0 <= i < j < out@.len() implies lex_le(
                #[trigger] out@[i].name@,
                #[trigger] out@[j].name@,
            ) by {
                if j < p {
                } else if i < p && j == p {
                } else if i < p && j > p {
                    assert(out@[j] == out_pre_insert[j - 1]);
                } else if i == p {
                    assert(out@[j] == out_pre_insert[j - 1]);
                } else {
                    assert(out@[i] == out_pre_insert[i - 1]);
                    assert(out@[j] == out_pre_insert[j - 1]);
                }
            }
        }
    }
    proof {
        assert(models@.to_multiset() =~= Multiset::<ModelInfo>::empty());
        assert(out@.to_multiset().add(Multiset::<ModelInfo>::empty()) =~= out@.to_multiset());
    }
    *models = out;
}

/// The size a record stands for: its byte count, zero when it carries none.
pub open spec fn size_bytes(size: Option<u64>) -> nat {
    match size {
        Some(n) => n as nat,
        None => 0,
    }
}

/// Gigabytes in tenths: the byte count divided by 1024^3, scaled by ten and
/// rounded to the nearest tenth (half away from zero).
pub open spec fn gb_tenths(bytes: nat) -> nat {
    (bytes * 10 + 0x20000000) / 0x40000000
}

pub fn gb_tenths_of(size: Option<u64>) -> (t: u64)
    ensures
        t as nat == gb_tenths(size_bytes(size)),
{
    let bytes: u64 = match size {
        Some(n) => n,
        None => 0,
    };
    let wide: u128 = (bytes as u128) * 10 + 0x20000000;
    let t: u128 = wide / 0x40000000;
    proof {
        assert(t <= u64::MAX as u128) by (nonlinear_arith)
            requires
                wide == (bytes as u128) * 10 + 0x20000000,
                t == wide / 0x40000000,
                bytes <= u64::MAX,
        ;
    }
    t as u64
}

/// The size column: the whole gigabytes, a point, and the tenths digit.
pub open spec fn gb_text(tenths: nat) -> Seq<char> {
    dec_rep(tenths / 10) + seq!['.'] + dec_rep(tenths % 10)
}

pub fn format_gb_tenths(tenths: u64) -> (r: String)
    ensures
        r@ == gb_text(tenths as nat),
{
    let mut out = u64_to_dec(tenths / 10);
    push_char(&mut out, '.');
    let frac = u64_to_dec(tenths % 10);
    out.append(frac.as_str());
    proof {
        assert(out@ =~= gb_text(tenths as nat));
    }
    out
}

/// One listing line: two leading spaces, the name left-justified to 35
/// columns, one space, the size right-justified to 5 columns, and the unit.
pub open spec fn model_line(m: ModelInfo) -> Seq<char> {
    "  "@ + left_justified(m.name@, 35) + " "@ + right_justified(
        gb_text(gb_tenths(size_bytes(m.size))),
        5,
    ) + "GB\n"@
}

pub fn render_model_line(m: &ModelInfo) -> (r: String)
    ensures
        r@ == model_line(*m),
{
    let mut out = String::from_str("  ");
    out.append(m.name.as_str());
    let len = m.name.as_str().unicode_len();
    if len < 35 {
        let sp = make_spaces(35 - len);
        out.append(sp.as_str());
    }
    proof {
        assert(out@ =~= "  "@ + left_justified(m.name@, 35));
    }
    out.append(" ");
    let t = gb_tenths_of(m.size);
    let g = format_gb_tenths(t);
    let glen = g.as_str().unicode_len();
    if glen < 5 {
        let sp = make_spaces(5 - glen);
        out.append(sp.as_str());
    }
    out.append(g.as_str());
    out.append("GB\n");
    proof {
        assert(out@ =~= model_line(*m));
    }
    out
}

/// The lines of the listing, in the order the records stand in.
pub open spec fn model_lines(ms: Seq<ModelInfo>) -> Seq<char>
    decreases ms.len(),
{
    if ms.len() == 0 {
        Seq::empty()
    } else {
        model_lines(ms.drop_last()) + model_line(ms.last())
    }
}

/// The whole listing text: the header, a blank line, then one line per
/// record.
pub open spec fn listing_text(ms: Seq<ModelInfo>) -> Seq<char> {
    "Available models:\n\n"@ + model_lines(ms)
}

pub fn render_listing(models: &Vec<ModelInfo>) -> (r: String)
    ensures
        r@ == listing_text(models@),
{
    let mut out = String::from_str("Available models:\n\n");
    proof {
        assert(out@ =~= "Available models:\n\n"@ + model_lines(models@.take(0)));
    }
    let mut k: usize = 0;
    while k < models.len()
        invariant
            k <= models@.len(),
            out@ == "Available models:\n\n"@ + model_lines(models@.take(k as int)),
        decreases models@.len() - k,
    {
        let line = render_model_line(&models[k]);
        out.append(line.as_str());
        proof {
            assert(models@.take(k + 1).drop_last() =~= models@.take(k as int));
            assert(models@.take(k + 1).last() == models@[k as int]);
            assert(out@ =~= "Available models:\n\n"@ + model_lines(models@.take(k + 1)));
        }
        k = k + 1;
    }
    proof {
        assert(models@.take(models@.len() as int) =~= models@);
    }
    out
}

} // verus!
