//! Normalisation of raw recognised text: control codes are dropped, then
//! whitespace is trimmed from both ends.

use vstd::prelude::*;
use vstd::std_specs::iter::IteratorSpec;

verus! {

broadcast use vstd::string::group_string_axioms;

/// Whether `c` is a control code (general category Cc): the code points
/// U+0000..=U+001F and U+007F..=U+009F.
pub open spec fn is_control(c: char) -> bool {
    c as u32 <= 0x1F || 0x7F <= c as u32 <= 0x9F
}

/// Whether `c` is whitespace as Unicode defines it (White_Space).
pub open spec fn is_whitespace(c: char) -> bool {
    let n = c as u32;
    ||| 0x09 <= n <= 0x0D
    ||| n == 0x20
    ||| n == 0x85
    ||| n == 0xA0
    ||| n == 0x1680
    ||| 0x2000 <= n <= 0x200A
    ||| n == 0x2028
    ||| n == 0x2029
    ||| n == 0x202F
    ||| n == 0x205F
    ||| n == 0x3000
}

/// `s` without its control codes, the other characters in their order.
pub open spec fn strip_controls(s: Seq<char>) -> Seq<char> {
    s.filter(|c: char| !is_control(c))
}

/// `s` without its leading whitespace.
pub open spec fn trim_start(s: Seq<char>) -> Seq<char>
    decreases s.len(),
{
    if s.len() > 0 && is_whitespace(s.first()) {
        trim_start(s.drop_first())
    } else {
        s
    }
}

/// `s` without its trailing whitespace.
pub open spec fn trim_end(s: Seq<char>) -> Seq<char>
    decreases s.len(),
{
    if s.len() > 0 && is_whitespace(s.last()) {
        trim_end(s.drop_last())
    } else {
        s
    }
}

/// `s` without leading and trailing whitespace.
pub open spec fn trim(s: Seq<char>) -> Seq<char> {
    trim_end(trim_start(s))
}

/// The normal form of recognised text: control codes removed, then trimmed.
pub open spec fn normalize(s: Seq<char>) -> Seq<char> {
    trim(strip_controls(s))
}

/// Text in normal form holds no control code and neither starts nor ends
/// with whitespace.
pub open spec fn is_normalized(s: Seq<char>) -> bool {
    &&& forall|i: int| 0 <= i < s.len() ==> !is_control(#[trigger] s[i])
    &&& s.len() > 0 ==> !is_whitespace(s.first()) && !is_whitespace(s.last())
}

/// Tells whether `c` is a control code.
pub fn char_is_control(c: char) -> (r: bool)
    ensures
        r == is_control(c),
{
    let n: u32 = c as u32;
    n <= 0x1F || (0x7F <= n && n <= 0x9F)
}

/// Tells whether `c` is whitespace.
pub fn char_is_whitespace(c: char) -> (r: bool)
    ensures
        r == is_whitespace(c),
{
    let n: u32 = c as u32;
    (0x09 <= n && n <= 0x0D) || n == 0x20 || n == 0x85 || n == 0xA0 || n == 0x1680 || (0x2000 <= n
        && n <= 0x200A) || n == 0x2028 || n == 0x2029 || n == 0x202F || n == 0x205F || n == 0x3000
}

/// The whitespace run that `s` starts with ends at the returned index, and
/// trimming at the front drops exactly that run.
pub proof fn lemma_trim_start_cut(s: Seq<char>) -> (k: int)
    ensures
        0 <= k <= s.len(),
        trim_start(s) == s.skip(k),
        forall|j: int| 0 <= j < k ==> is_whitespace(#[trigger] s[j]),
        k < s.len() ==> !is_whitespace(s[k]),
    decreases s.len(),
{
    if s.len() > 0 && is_whitespace(s.first()) {
        let t = s.drop_first();
        let k = lemma_trim_start_cut(t);
        assert(t.skip(k) =~= s.skip(k + 1));
        assert forall|j: int| 0 <= j < k + 1 implies is_whitespace(#[trigger] s[j]) by {
            if j > 0 {
                assert(s[j] == t[j - 1]);
            }
        }
        if k + 1 < s.len() {
            assert(s[k + 1] == t[k]);
        }
        k + 1
    } else {
        assert(s.skip(0) =~= s);
        0
    }
}

/// The whitespace run that `s` ends with starts at the returned index, and
/// trimming at the back drops exactly that run.
pub proof fn lemma_trim_end_cut(s: Seq<char>) -> (e: int)
    ensures
        0 <= e <= s.len(),
        trim_end(s) == s.take(e),
        forall|j: int| e <= j < s.len() ==> is_whitespace(#[trigger] s[j]),
        e > 0 ==> !is_whitespace(s[e - 1]),
    decreases s.len(),
{
    if s.len() > 0 && is_whitespace(s.last()) {
        let t = s.drop_last();
        let e = lemma_trim_end_cut(t);
        assert(t.take(e) =~= s.take(e));
        assert forall|j: int| e <= j < s.len() implies is_whitespace(#[trigger] s[j]) by {
            if j < t.len() {
                assert(s[j] == t[j]);
            }
        }
        if e > 0 {
            assert(s[e - 1] == t[e - 1]);
        }
        e
    } else {
        assert(s.take(s.len() as int) =~= s);
        s.len() as int
    }
}

/// Filtering keeps a sequence as it is where every element passes.
proof fn lemma_filter_keeps_all(s: Seq<char>, pred: spec_fn(char) -> bool)
    requires
        forall|i: int| 0 <= i < s.len() ==> pred(#[trigger] s[i]),
    ensures
        s.filter(pred) == s,
    decreases s.len(),
{
    reveal(Seq::filter);
    if s.len() > 0 {
        let t = s.drop_last();
        assert forall|i: int| 0 <= i < t.len() implies pred(#[trigger] t[i]) by {
            assert(t[i] == s[i]);
        }
        lemma_filter_keeps_all(t, pred);
        assert(t.push(s.last()) =~= s);
    }
}

/// What normalisation returns is in normal form: it holds no control code
/// and has no whitespace at either end.
pub proof fn lemma_normalize_is_normalized(s: Seq<char>)
    ensures
        is_normalized(normalize(s)),
{
    let pred = |c: char| !is_control(c);
    let kept = strip_controls(s);
    let k = lemma_trim_start_cut(kept);
    let tail = kept.skip(k);
    let e = lemma_trim_end_cut(tail);
    let out = normalize(s);
    assert(out == tail.take(e));
    assert forall|i: int| 0 <= i < out.len() implies !is_control(#[trigger] out[i]) by {
        assert(out[i] == kept[i + k]);
        s.lemma_filter_pred(pred, i + k);
    }
    if out.len() > 0 {
        assert(out.first() == kept[k]);
        assert(out.last() == tail[e - 1]);
    }
}

/// Text in normal form is left as it is.
pub proof fn lemma_normalized_is_fixed(s: Seq<char>)
    requires
        is_normalized(s),
    ensures
        normalize(s) == s,
{
    let pred = |c: char| !is_control(c);
    lemma_filter_keeps_all(s, pred);
    assert(strip_controls(s) == s);
    assert(trim_start(s) == s);
    assert(trim_end(s) == s);
}

/// Normalisation is idempotent: a second pass changes nothing.
pub proof fn lemma_normalize_idempotent(s: Seq<char>)
    ensures
        normalize(normalize(s)) == normalize(s),
{
    lemma_normalize_is_normalized(s);
    lemma_normalized_is_fixed(normalize(s));
}

/// Appends one character to a `String`: `String::push` of std, which adds
/// `c` at the end and leaves the rest as it was.
#[verifier::external_body]
pub(crate) fn push_char(s: &mut String, c: char)
    ensures
        final(s)@ == old(s)@.push(c),
{
    s.push(c);
}

/// The characters of `text` that are no control codes, in their order.
fn without_controls(text: &str) -> (kept: Vec<char>)
    ensures
        kept@ == strip_controls(text@),
{
    let mut kept: Vec<char> = Vec::new();
    let mut it = text.chars();
    let ghost pred = |c: char| !is_control(c);
    proof {
        assert(it.remaining() == text@);
        assert(kept@ + it.remaining().filter(pred) =~= text@.filter(pred));
    }
    loop
        invariant
            text@.filter(pred) == kept@ + it.remaining().filter(pred),
            pred == (|c: char| !is_control(c)),
            it.decrease() is Some,
        ensures
            text@.filter(pred) == kept@,
        decreases it.decrease()->0,
    {
        let ghost before = it.remaining();
        match it.next() {
            Some(c) => {
                proof {
                    let rest = it.remaining();
                    assert(before =~= seq![c] + rest);
                    Seq::filter_distributes_over_add(seq![c], rest, pred);
                    reveal_with_fuel(Seq::filter, 2);
                    assert(seq![c].drop_last() =~= Seq::<char>::empty());
                    assert(seq![c].filter(pred) =~= if pred(c) {
                        seq![c]
                    } else {
                        Seq::<char>::empty()
                    });
                }
                if !char_is_control(c) {
                    kept.push(c);
                }
                assert(text@.filter(pred) =~= kept@ + it.remaining().filter(pred));
            },
            None => {
                proof {
                    reveal_with_fuel(Seq::filter, 1);
                    assert(before.len() == 0);
                    assert(it.remaining().filter(pred) =~= Seq::<char>::empty());
                    assert(kept@ + Seq::<char>::empty() =~= kept@);
                }
                break ;
            },
        }
    }
    kept
}

/// Normalises raw recognised text: removes every control code, then trims
/// whitespace from both ends.
pub fn clean_ocr_text(text: &str) -> (cleaned: String)
    ensures
        cleaned@ == normalize(text@),
        is_normalized(cleaned@),
{
    proof {
        lemma_normalize_is_normalized(text@);
    }
    let kept = without_controls(text);
    let n = kept.len();
    let mut start: usize = 0;
    while start < n && char_is_whitespace(kept[start])
        invariant
            n == kept.len(),
            start <= n,
            forall|j: int| 0 <= j < start ==> is_whitespace(#[trigger] kept@[j]),
        decreases n - start,
    {
        start += 1;
    }
    let mut end: usize = n;
    while end > start && char_is_whitespace(kept[end - 1])
        invariant
            n == kept.len(),
            start <= end <= n,
            forall|j: int| end <= j < n ==> is_whitespace(#[trigger] kept@[j]),
        decreases end,
    {
        end -= 1;
    }
    proof {
        let tail = kept@.skip(start as int);
        let k = lemma_trim_start_cut(kept@);
        assert(k == start);
        assert forall|j: int| end - start <= j < tail.len() implies is_whitespace(
            #[trigger] tail[j],
        ) by {
            assert(tail[j] == kept@[j + start]);
        }
        if end > start {
            assert(tail[end - start - 1] == kept@[end - 1]);
        }
        let e = lemma_trim_end_cut(tail);
        assert(e == end - start);
        assert(tail.take(end - start) =~= kept@.subrange(start as int, end as int));
    }
    let mut cleaned = String::new();
    let mut i: usize = start;
    while i < end
        invariant
            start <= i <= end <= kept.len(),
            cleaned@ == kept@.subrange(start as int, i as int),
        decreases end - i,
    {
        push_char(&mut cleaned, kept[i]);
        i += 1;
        assert(cleaned@ =~= kept@.subrange(start as int, i as int));
    }
    cleaned
}

} // verus!
