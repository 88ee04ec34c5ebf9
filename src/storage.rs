//! Ordering and selection rules for stored requests and runs.
use vstd::prelude::*;
use crate::domain::{Request, RunEntry};
use crate::error::ErrorChain;

verus! {

/// How many runs a bootstrap asks the history for.
pub const RECENT_RUNS_LIMIT: usize = 200;

/// The lowercase form of a text, as `str::to_lowercase` gives it.
pub uninterp spec fn lower_of(s: Seq<char>) -> Seq<char>;

/// Relies on `str::to_lowercase`: the Unicode lowercase mapping, which
/// depends on the text alone.
#[verifier::external_body]
fn to_lowercase(s: &str) -> (r: String)
    ensures
        r@ == lower_of(s@),
{
    s.to_lowercase()
}

/// Lexicographic order on characters by code point, as `str` orders text.
pub open spec fn chars_le(a: Seq<char>, b: Seq<char>) -> bool
    decreases a.len(),
{
    if a.len() == 0 {
        true
    } else if b.len() == 0 {
        false
    } else if a[0] != b[0] {
        (a[0] as int) < (b[0] as int)
    } else {
        chars_le(a.drop_first(), b.drop_first())
    }
}

pub proof fn lemma_chars_le_reflexive(a: Seq<char>)
    ensures
        chars_le(a, a),
    decreases a.len(),
{
    if a.len() > 0 {
        lemma_chars_le_reflexive(a.drop_first());
    }
}

pub proof fn lemma_chars_le_total(a: Seq<char>, b: Seq<char>)
    ensures
        chars_le(a, b) || chars_le(b, a),
    decreases a.len(),
{
    if a.len() > 0 && b.len() > 0 {
        if a[0] == b[0] {
            lemma_chars_le_total(a.drop_first(), b.drop_first());
        } else {
            assert((a[0] as int) != (b[0] as int));
        }
    }
}

pub proof fn lemma_chars_le_antisymmetric(a: Seq<char>, b: Seq<char>)
    requires
        chars_le(a, b),
        chars_le(b, a),
    ensures
        a == b,
    decreases a.len(),
{
    if a.len() > 0 && b.len() > 0 {
        lemma_chars_le_antisymmetric(a.drop_first(), b.drop_first());
        assert(a =~= seq![a[0]] + a.drop_first());
        assert(b =~= seq![b[0]] + b.drop_first());
    } else {
        assert(a =~= b);
    }
}

pub proof fn lemma_chars_le_transitive(a: Seq<char>, b: Seq<char>, c: Seq<char>)
    requires
        chars_le(a, b),
        chars_le(b, c),
    ensures
        chars_le(a, c),
    decreases a.len(),
{
    if a.len() > 0 && b.len() > 0 && c.len() > 0 && a[0] == b[0] && b[0] == c[0] {
        lemma_chars_le_transitive(a.drop_first(), b.drop_first(), c.drop_first());
    }
}

/// Decides `chars_le` on two texts.
fn text_le(a: &str, b: &str) -> (r: bool)
    ensures
        r == chars_le(a@, b@),
{
    let na = a.unicode_len();
    let nb = b.unicode_len();
    let mut i: usize = 0;
    assert(a@.skip(0) =~= a@);
    assert(b@.skip(0) =~= b@);
    while i < na && i < nb
        invariant
            na == a@.len(),
            nb == b@.len(),
            i <= na,
            i <= nb,
            chars_le(a@, b@) == chars_le(a@.skip(i as int), b@.skip(i as int)),
        decreases na - i,
    {
        let ca = a.get_char(i);
        let cb = b.get_char(i);
        if ca != cb {
            return (ca as u32) < (cb as u32);
        }
        assert(a@.skip(i as int).drop_first() =~= a@.skip(i as int + 1));
        assert(b@.skip(i as int).drop_first() =~= b@.skip(i as int + 1));
        i = i + 1;
    }
    i == na
}

/// The key requests are ordered by: the lowercase form of the name.
pub open spec fn name_key(r: Request) -> Seq<char> {
    lower_of(r.name@)
}

/// Ordered by name, ignoring case, ascending.
pub open spec fn sorted_by_name(s: Seq<Request>) -> bool {
    forall|k: int, l: int|
        0 <= k < l < s.len() ==> chars_le(#[trigger] name_key(s[k]), #[trigger] name_key(s[l]))
}

/// `output[k]` is `input[idx[k]]`, every input position is used once, and
/// requests with the same key keep their relative order.
pub open spec fn stable_reordering(input: Seq<Request>, output: Seq<Request>, idx: Seq<int>) -> bool {
    &&& idx.len() == input.len()
    &&& output.len() == input.len()
    &&& forall|k: int| 0 <= k < idx.len() ==> 0 <= #[trigger] idx[k] < input.len()
    &&& forall|k: int| 0 <= k < idx.len() ==> output[k] == input[#[trigger] idx[k]]
    &&& forall|k: int, l: int| 0 <= k < l < idx.len() ==> #[trigger] idx[k] != #[trigger] idx[l]
    &&& forall|k: int, l: int|
        0 <= k < l < idx.len() && name_key(output[k]) == name_key(output[l]) ==> #[trigger] idx[k]
            < #[trigger] idx[l]
}

/// `output` is `input` sorted by name ignoring case, equal names in their
/// original order.
pub open spec fn is_stable_name_sort(input: Seq<Request>, output: Seq<Request>) -> bool {
    &&& sorted_by_name(output)
    &&& exists|idx: Seq<int>| stable_reordering(input, output, idx)
}

/// Sorts requests by name, case-insensitively and stably.
pub fn sort_requests_by_name(requests: Vec<Request>) -> (r: Vec<Request>)
    ensures
        is_stable_name_sort(requests@, r@),
{
    let ghost input = requests@;
    let n = requests.len();
    let mut rest = requests;
    let mut out: Vec<Request> = Vec::new();
    let mut keys: Vec<String> = Vec::new();
    let ghost mut idx: Seq<int> = Seq::empty();
    let mut i: usize = 0;
    while i < n
        invariant
            n == input.len(),
            i <= n,
            rest@ == input.subrange(i as int, n as int),
            out@.len() == i,
            keys@.len() == i,
            idx.len() == i,
            forall|k: int| 0 <= k < i ==> (#[trigger] keys@[k])@ == name_key(out@[k]),
            sorted_by_name(out@),
            forall|k: int| 0 <= k < i ==> 0 <= #[trigger] idx[k] < i,
            forall|k: int| 0 <= k < i ==> out@[k] == input[#[trigger] idx[k]],
            forall|k: int, l: int| 0 <= k < l < i ==> #[trigger] idx[k] != #[trigger] idx[l],
            forall|k: int, l: int|
                0 <= k < l < i && name_key(out@[k]) == name_key(out@[l]) ==> #[trigger] idx[k]
                    < #[trigger] idx[l],
        decreases n - i,
    {
        let item = rest.remove(0);
        assert(item == input[i as int]);
        let key = to_lowercase(item.name.as_str());
        let ghost kx = key@;
        let mut p: usize = 0;
        let mut found = false;
        while !found && p < out.len()
            invariant
                key@ == kx,
                p <= out@.len(),
                found ==> p < out@.len() && !chars_le(name_key(out@[p as int]), kx),
                out@.len() == keys@.len(),
                forall|k: int| 0 <= k < out@.len() ==> (#[trigger] keys@[k])@ == name_key(out@[k]),
                forall|k: int| 0 <= k < p ==> chars_le(#[trigger] name_key(out@[k]), kx),
            decreases out@.len() - p + (if found { 0int } else { 1int }),
        {
            assert(keys@[p as int]@ == name_key(out@[p as int]));
            if text_le(keys[p].as_str(), key.as_str()) {
                p = p + 1;
            } else {
                found = true;
            }
        }
        proof {
            assert forall|k: int| p <= k < out@.len() implies !chars_le(
                #[trigger] name_key(out@[k]),
                kx,
            ) by {
                if chars_le(name_key(out@[k]), kx) {
                    if k > p {
                        lemma_chars_le_transitive(name_key(out@[p as int]), name_key(out@[k]), kx);
                    }
                }
            }
        }
        let ghost old_out = out@;
        let ghost old_idx = idx;
        out.insert(p, item);
        keys.insert(p, key);
        proof {
            idx = old_idx.insert(p as int, i as int);
            assert(name_key(item) == kx);
            assert forall|k: int, l: int| 0 <= k < l < out@.len() implies chars_le(
                #[trigger] name_key(out@[k]),
                #[trigger] name_key(out@[l]),
            ) by {
                if l == p {
                    assert(out@[k] == old_out[k]);
                } else if k == p {
                    assert(out@[l] == old_out[l - 1]);
                    lemma_chars_le_total(kx, name_key(old_out[l - 1]));
                } else {
                    let ok = if k < p { k } else { k - 1 };
                    let ol = if l < p { l } else { l - 1 };
                    assert(out@[k] == old_out[ok]);
                    assert(out@[l] == old_out[ol]);
                }
            }
            assert forall|k: int| 0 <= k < i + 1 implies (#[trigger] keys@[k])@ == name_key(out@[k]) by {
                if k < p {
                } else if k == p {
                } else {
                    assert(out@[k] == old_out[k - 1]);
                }
            }
            assert forall|k: int| 0 <= k < i + 1 implies 0 <= #[trigger] idx[k] < i + 1
                && out@[k] == input[idx[k]] by {
                if k < p {
                } else if k == p {
                } else {
                    assert(out@[k] == old_out[k - 1]);
                }
            }
            assert forall|k: int, l: int| 0 <= k < l < i + 1 implies #[trigger] idx[k]
                != #[trigger] idx[l] by {
                let ok = if k < p { k } else { k - 1 };
                let ol = if l < p { l } else { l - 1 };
                if k != p && l != p {
                    assert(idx[k] == old_idx[ok]);
                    assert(idx[l] == old_idx[ol]);
                }
            }
            assert forall|k: int, l: int|
                0 <= k < l < i + 1 && name_key(out@[k]) == name_key(out@[l]) implies #[trigger] idx[k]
                < #[trigger] idx[l] by {
                let ok = if k < p { k } else { k - 1 };
                let ol = if l < p { l } else { l - 1 };
                if k == p {
                    assert(out@[l] == old_out[ol]);
                    lemma_chars_le_reflexive(kx);
                } else if l == p {
                } else {
                    assert(idx[k] == old_idx[ok]);
                    assert(idx[l] == old_idx[ol]);
                    assert(out@[k] == old_out[ok]);
                    assert(out@[l] == old_out[ol]);
                }
            }
        }
        i = i + 1;
    }
    assert(stable_reordering(input, out@, idx));
    out
}

/// Whether a directory entry's file name marks a stored request: a
/// `.json` extension after a non-empty stem.
pub open spec fn is_request_file_name_spec(name: Seq<char>) -> bool {
    name.len() > 5 && name.subrange(name.len() - 5, name.len() as int) == ".json"@
}

/// Decides whether a directory entry's file name marks a stored request.
pub fn is_request_file_name(name: &str) -> (r: bool)
    ensures
        r == is_request_file_name_spec(name@),
{
    proof {
        reveal_strlit(".json");
    }
    let n = name.unicode_len();
    if n <= 5 {
        return false;
    }
    let r = name.get_char(n - 5) == '.' && name.get_char(n - 4) == 'j' && name.get_char(n - 3)
        == 's' && name.get_char(n - 2) == 'o' && name.get_char(n - 1) == 'n';
    proof {
        let tail = name@.subrange(n - 5, n as int);
        if r {
            assert(tail =~= ".json"@);
        } else {
            if tail == ".json"@ {
                assert(tail[0] == name@[n - 5]);
                assert(tail[1] == name@[n - 4]);
                assert(tail[2] == name@[n - 3]);
                assert(tail[3] == name@[n - 2]);
                assert(tail[4] == name@[n - 1]);
            }
        }
    }
    r
}

/// Loads the most recent runs of the history, newest first, at most `limit`
/// of them. No history store is kept yet, so the history is empty.
pub fn load_recent_runs(_history_db: &str, _limit: usize) -> (r: Result<Vec<RunEntry>, ErrorChain>)
    ensures
        r matches Ok(runs) && runs@.len() == 0,
{
    Ok(Vec::new())
}

} // verus!
