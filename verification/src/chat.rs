//! Chat aggregation: ordering of strings and responses, snippets and the
//! summary that a chat task stores.
use crate::text::{decimal, push_char, trim, trimmed, write_decimal};
use crate::types::ChatResponse;
use vstd::prelude::*;

verus! {

/// Lexicographic order of character sequences (a proper prefix comes first).
pub open spec fn lex_lt(a: Seq<char>, b: Seq<char>) -> bool
    decreases a.len(),
{
    if a.len() == 0 {
        b.len() > 0
    } else if b.len() == 0 {
        false
    } else if a[0] != b[0] {
        a[0] < b[0]
    } else {
        lex_lt(a.drop_first(), b.drop_first())
    }
}

/// No text is before itself.
pub proof fn lemma_lex_irreflexive(a: Seq<char>)
    ensures
        !lex_lt(a, a),
    decreases a.len(),
{
    if a.len() > 0 {
        lemma_lex_irreflexive(a.drop_first());
    }
}

/// The order is transitive.
pub proof fn lemma_lex_transitive(a: Seq<char>, b: Seq<char>, c: Seq<char>)
    requires
        lex_lt(a, b),
        lex_lt(b, c),
    ensures
        lex_lt(a, c),
    decreases a.len(),
{
    if a.len() > 0 && b.len() > 0 && c.len() > 0 {
        if a[0] == b[0] && b[0] == c[0] {
            lemma_lex_transitive(a.drop_first(), b.drop_first(), c.drop_first());
        }
    }
}

/// Two different texts are ordered one way or the other.
pub proof fn lemma_lex_total(a: Seq<char>, b: Seq<char>)
    requires
        a != b,
    ensures
        lex_lt(a, b) || lex_lt(b, a),
    decreases a.len(),
{
    if a.len() > 0 && b.len() > 0 && a[0] == b[0] {
        if a.drop_first() == b.drop_first() {
            assert(a.drop_first().len() == a.len() - 1);
            assert(b.drop_first().len() == b.len() - 1);
            assert(a =~= b) by {
                assert forall|i: int| 0 <= i < a.len() implies a[i] == b[i] by {
                    if i > 0 {
                        assert(a[i] == a.drop_first()[i - 1]);
                        assert(b[i] == b.drop_first()[i - 1]);
                    }
                }
            }
        }
        lemma_lex_total(a.drop_first(), b.drop_first());
    } else if a.len() == 0 && b.len() == 0 {
        assert(a =~= b);
    }
}

proof fn lemma_lex_skip(a: Seq<char>, b: Seq<char>, i: int)
    requires
        0 <= i <= a.len(),
        i <= b.len(),
        forall|j: int| 0 <= j < i ==> a[j] == b[j],
    ensures
        lex_lt(a, b) == lex_lt(a.subrange(i, a.len() as int), b.subrange(i, b.len() as int)),
    decreases i,
{
    if i > 0 {
        let a1 = a.drop_first();
        let b1 = b.drop_first();
        assert forall|j: int| 0 <= j < i - 1 implies a1[j] == b1[j] by {
            assert(a1[j] == a[j + 1]);
            assert(b1[j] == b[j + 1]);
        }
        lemma_lex_skip(a1, b1, i - 1);
        assert(a1.subrange(i - 1, a1.len() as int) =~= a.subrange(i, a.len() as int));
        assert(b1.subrange(i - 1, b1.len() as int) =~= b.subrange(i, b.len() as int));
    } else {
        assert(a.subrange(0, a.len() as int) =~= a);
        assert(b.subrange(0, b.len() as int) =~= b);
    }
}

/// Whether `a` comes before `b` in lexicographic order.
pub fn str_less(a: &str, b: &str) -> (r: bool)
    ensures
        r == lex_lt(a@, b@),
{
    let na = a.unicode_len();
    let nb = b.unicode_len();
    let mut i: usize = 0;
    while i < na && i < nb
        invariant
            na == a@.len(),
            nb == b@.len(),
            i <= na,
            i <= nb,
            forall|j: int| 0 <= j < i ==> a@[j] == b@[j],
        decreases na - i,
    {
        let ca = a.get_char(i);
        let cb = b.get_char(i);
        if ca != cb {
            proof {
                lemma_lex_skip(a@, b@, i as int);
                let sa = a@.subrange(i as int, na as int);
                let sb = b@.subrange(i as int, nb as int);
                assert(sa[0] == ca);
                assert(sb[0] == cb);
            }
            return ca < cb;
        }
        i = i + 1;
    }
    proof {
        lemma_lex_skip(a@, b@, i as int);
    }
    na < nb
}

/// The texts of a list of strings.
pub open spec fn texts(v: Seq<String>) -> Seq<Seq<char>> {
    v.map_values(|s: String| s@)
}

/// Every text is before every later one.
pub open spec fn strictly_sorted(s: Seq<Seq<char>>) -> bool {
    forall|i: int, j: int| 0 <= i < j < s.len() ==> lex_lt(#[trigger] s[i], #[trigger] s[j])
}

/// A strictly sorted list holds no text twice.
pub proof fn lemma_sorted_no_duplicates(s: Seq<Seq<char>>)
    requires
        strictly_sorted(s),
    ensures
        s.no_duplicates(),
{
    assert forall|i: int, j: int| 0 <= i < s.len() && 0 <= j < s.len() && i != j implies s[i]
        != s[j] by {
        if i < j {
            assert(lex_lt(s[i], s[j]));
            if s[i] == s[j] {
                lemma_lex_irreflexive(s[i]);
            }
        } else {
            assert(lex_lt(s[j], s[i]));
            if s[i] == s[j] {
                lemma_lex_irreflexive(s[i]);
            }
        }
    }
}

proof fn lemma_insert_to_set(s: Seq<Seq<char>>, k: int, x: Seq<char>)
    requires
        0 <= k <= s.len(),
    ensures
        s.insert(k, x).to_set() =~= s.to_set().insert(x),
{
    let t = s.insert(k, x);
    assert forall|y: Seq<char>| #[trigger] t.to_set().contains(y) <==> s.to_set().insert(
        x,
    ).contains(y) by {
        if t.contains(y) {
            let j = choose|j: int| 0 <= j < t.len() && t[j] == y;
            if j < k {
                assert(s[j] == y);
            } else if j > k {
                assert(s[j - 1] == y);
            }
        }
        if s.contains(y) {
            let j = choose|j: int| 0 <= j < s.len() && s[j] == y;
            if j < k {
                assert(t[j] == y);
            } else {
                assert(t[j + 1] == y);
            }
        }
        if y == x {
            assert(t[k] == x);
        }
    }
}

/// The distinct strings of `items`, sorted.
pub fn sorted_distinct(items: &Vec<String>) -> (r: Vec<String>)
    ensures
        strictly_sorted(texts(r@)),
        texts(r@).to_set() == texts(items@).to_set(),
{
    let mut out: Vec<String> = Vec::new();
    let n = items.len();
    let mut i: usize = 0;
    proof {
        assert(texts(out@).to_set() =~= texts(items@.subrange(0, 0)).to_set());
    }
    while i < n
        invariant
            n == items@.len(),
            i <= n,
            strictly_sorted(texts(out@)),
            texts(out@).to_set() == texts(items@.subrange(0, i as int)).to_set(),
        decreases n - i,
    {
        let x = &items[i];
        let m = out.len();
        let mut k: usize = 0;
        while k < m && str_less(out[k].as_str(), x.as_str())
            invariant
                m == out@.len(),
                k <= m,
                forall|j: int| 0 <= j < k ==> lex_lt(#[trigger] texts(out@)[j], x@),
            decreases m - k,
        {
            k = k + 1;
        }
        let ghost before = out@;
        let present = k < m && crate::table::str_eq(out[k].as_str(), x.as_str());
        if !present {
            out.insert(k, x.clone());
            proof {
                let t = texts(out@);
                let tb = texts(before);
                assert(t =~= tb.insert(k as int, x@));
                assert forall|a: int, b: int| 0 <= a < b < t.len() implies lex_lt(
                    #[trigger] t[a],
                    #[trigger] t[b],
                ) by {
                    if b < k {
                        assert(t[a] == tb[a] && t[b] == tb[b]);
                    } else if b == k {
                        assert(t[a] == tb[a]);
                    } else if a == k {
                        assert(t[b] == tb[b - 1]);
                        if k < m {
                            assert(tb[k as int] != x@);
                            lemma_lex_total(tb[k as int], x@);
                            if b - 1 > k {
                                lemma_lex_transitive(x@, tb[k as int], tb[b - 1]);
                            }
                        }
                    } else if a < k {
                        assert(t[a] == tb[a] && t[b] == tb[b - 1]);
                    } else {
                        assert(t[a] == tb[a - 1] && t[b] == tb[b - 1]);
                    }
                }
            }
        }
        proof {
            let s2 = items@.subrange(0, i + 1);
            assert(texts(s2) =~= texts(items@.subrange(0, i as int)).push(x@));
            texts(items@.subrange(0, i as int)).lemma_push_to_set_commute(x@);
            if present {
                assert(texts(before)[k as int] == x@);
                assert(texts(before).to_set().contains(x@));
                assert(texts(out@).to_set() =~= texts(before).to_set().insert(x@));
            } else {
                assert(texts(out@) =~= texts(before).insert(k as int, x@));
                lemma_insert_to_set(texts(before), k as int, x@);
            }
        }
        i = i + 1;
    }
    proof {
        assert(items@.subrange(0, n as int) =~= items@);
    }
    out
}

/// The number of UTF-8 bytes of a character.
pub open spec fn utf8_width(c: char) -> nat {
    if (c as u32) < 0x80 {
        1
    } else if (c as u32) < 0x800 {
        2
    } else if (c as u32) < 0x10000 {
        3
    } else {
        4
    }
}

/// The number of UTF-8 bytes of a text.
pub open spec fn utf8_len(s: Seq<char>) -> nat
    decreases s.len(),
{
    if s.len() == 0 {
        0
    } else {
        utf8_len(s.drop_last()) + utf8_width(s.last())
    }
}

/// The longest a chat snippet may be, in bytes, before it is cut.
pub const SNIPPET_MAX: usize = 240;

/// A response fragment shortened for a summary: trimmed, and cut to its
/// first 240 characters followed by an ellipsis when longer than 240 bytes.
pub open spec fn chat_snippet(text: Seq<char>) -> Seq<char> {
    let t = trim(text);
    if utf8_len(t) <= 240 {
        t
    } else if t.len() <= 240 {
        t.push('…')
    } else {
        t.take(240).push('…')
    }
}

/// Returns the summary snippet of a response fragment.
pub fn truncate_chat_snippet(text: &str) -> (s: String)
    ensures
        s@ == chat_snippet(text@),
{
    let t = trimmed(text);
    let n = t.unicode_len();
    let mut bytes: usize = 0;
    let mut i: usize = 0;
    while i < n && bytes <= SNIPPET_MAX
        invariant
            n == t@.len(),
            i <= n,
            bytes == utf8_len(t@.subrange(0, i as int)),
            bytes <= SNIPPET_MAX + 4,
        decreases n - i,
    {
        let c = t.as_str().get_char(i);
        let code = c as u32;
        let w: usize = if code < 0x80 {
            1
        } else if code < 0x800 {
            2
        } else if code < 0x10000 {
            3
        } else {
            4
        };
        proof {
            let p = t@.subrange(0, i + 1);
            assert(p.drop_last() =~= t@.subrange(0, i as int));
        }
        bytes = bytes + w;
        i = i + 1;
    }
    proof {
        lemma_utf8_len_prefix(t@, i as int);
    }
    if bytes <= SNIPPET_MAX {
        proof {
            assert(t@.subrange(0, n as int) =~= t@);
        }
        return t;
    }
    let mut out = if n <= SNIPPET_MAX {
        t
    } else {
        let head = t.as_str().substring_char(0, SNIPPET_MAX);
        String::from_str(head)
    };
    push_char(&mut out, '…');
    out
}

proof fn lemma_utf8_len_prefix(s: Seq<char>, i: int)
    requires
        0 <= i <= s.len(),
    ensures
        utf8_len(s.subrange(0, i)) <= utf8_len(s),
    decreases s.len() - i,
{
    if i < s.len() {
        lemma_utf8_len_prefix(s.drop_last(), i);
        assert(s.drop_last().subrange(0, i) =~= s.subrange(0, i));
    } else {
        assert(s.subrange(0, i) =~= s);
    }
}

/// Where a response with latency `lat` goes in a list sorted by latency:
/// after every entry that is not slower.
pub open spec fn latency_slot(t: Seq<ChatResponse>, lat: u64) -> int
    decreases t.len(),
{
    if t.len() == 0 {
        0
    } else if t[0].latency_ms > lat {
        0
    } else {
        1 + latency_slot(t.drop_first(), lat)
    }
}

/// The responses in order of latency, equal latencies keeping their order.
pub open spec fn sort_by_latency(s: Seq<ChatResponse>) -> Seq<ChatResponse>
    decreases s.len(),
{
    if s.len() == 0 {
        Seq::empty()
    } else {
        let t = sort_by_latency(s.drop_last());
        t.insert(latency_slot(t, s.last().latency_ms), s.last())
    }
}

proof fn lemma_latency_slot(t: Seq<ChatResponse>, lat: u64, p: int)
    requires
        0 <= p <= t.len(),
        forall|j: int| 0 <= j < p ==> t[j].latency_ms <= lat,
        p == t.len() || t[p].latency_ms > lat,
    ensures
        latency_slot(t, lat) == p,
    decreases p,
{
    if p > 0 {
        let t1 = t.drop_first();
        assert forall|j: int| 0 <= j < p - 1 implies t1[j].latency_ms <= lat by {
            assert(t1[j] == t[j + 1]);
        }
        if p < t.len() {
            assert(t1[p - 1] == t[p]);
        }
        lemma_latency_slot(t1, lat, p - 1);
    }
}

proof fn lemma_sorted_len(s: Seq<ChatResponse>)
    ensures
        sort_by_latency(s).len() == s.len(),
        0 <= latency_slot(sort_by_latency(s), 0) <= s.len(),
    decreases s.len(),
{
    if s.len() > 0 {
        lemma_sorted_len(s.drop_last());
        lemma_slot_range(sort_by_latency(s.drop_last()), s.last().latency_ms);
    }
    lemma_slot_range(sort_by_latency(s), 0);
}

proof fn lemma_slot_range(t: Seq<ChatResponse>, lat: u64)
    ensures
        0 <= latency_slot(t, lat) <= t.len(),
    decreases t.len(),
{
    if t.len() > 0 {
        lemma_slot_range(t.drop_first(), lat);
    }
}

/// Clones the responses into latency order (stable).
pub fn sorted_by_latency(responses: &Vec<ChatResponse>) -> (r: Vec<ChatResponse>)
    ensures
        r@ == sort_by_latency(responses@),
{
    let mut out: Vec<ChatResponse> = Vec::new();
    let n = responses.len();
    let mut i: usize = 0;
    proof {
        assert(responses@.subrange(0, 0) =~= Seq::<ChatResponse>::empty());
    }
    while i < n
        invariant
            n == responses@.len(),
            i <= n,
            out@ == sort_by_latency(responses@.subrange(0, i as int)),
        decreases n - i,
    {
        let lat = responses[i].latency_ms;
        let m = out.len();
        let mut p: usize = 0;
        while p < m && out[p].latency_ms <= lat
            invariant
                m == out@.len(),
                p <= m,
                forall|j: int| 0 <= j < p ==> #[trigger] out@[j].latency_ms <= lat,
            decreases m - p,
        {
            p = p + 1;
        }
        proof {
            lemma_latency_slot(out@, lat, p as int);
            let s2 = responses@.subrange(0, i + 1);
            assert(s2.drop_last() =~= responses@.subrange(0, i as int));
            assert(s2.last() == responses@[i as int]);
        }
        out.insert(p, responses[i].clone());
        i = i + 1;
    }
    proof {
        assert(responses@.subrange(0, n as int) =~= responses@);
    }
    out
}

/// One highlighted response of a summary.
pub open spec fn chat_line(position: nat, r: ChatResponse) -> Seq<char> {
    decimal(position + 1) + ". ["@ + decimal(r.latency_ms as nat) + " ms | "@ + decimal(
        r.tokens as nat,
    ) + " tok | "@ + r.provider_id@ + "] "@ + chat_snippet(r.response_fragment@)
}

/// The first `k` responses as highlight lines, one per line.
pub open spec fn chat_lines(s: Seq<ChatResponse>, k: nat) -> Seq<char>
    decreases k,
{
    if k == 0 {
        Seq::empty()
    } else if k == 1 {
        chat_line(0, s[0])
    } else {
        chat_lines(s, (k - 1) as nat) + "\n"@ + chat_line((k - 1) as nat, s[k - 1])
    }
}

/// `s` for a count other than one.
pub open spec fn plural(n: nat) -> Seq<char> {
    if n == 1 {
        Seq::empty()
    } else {
        "s"@
    }
}

/// The provider of each response, in order.
pub open spec fn provider_ids(s: Seq<ChatResponse>) -> Seq<Seq<char>> {
    s.map_values(|r: ChatResponse| r.provider_id@)
}

/// The number of different providers among the responses.
pub open spec fn distinct_providers(s: Seq<ChatResponse>) -> nat {
    provider_ids(s).to_set().len()
}

/// The summary of a chat task's responses: counts, then the three fastest
/// responses.
pub open spec fn chat_summary(s: Seq<ChatResponse>) -> Seq<char> {
    if s.len() == 0 {
        Seq::empty()
    } else {
        let k: nat = if s.len() < 3 {
            s.len()
        } else {
            3
        };
        "Aggregated "@ + decimal(s.len()) + " chat response"@ + plural(s.len()) + " from "@
            + decimal(distinct_providers(s)) + " provider"@ + plural(distinct_providers(s)) + "."@
            + "\n"@ + chat_lines(sort_by_latency(s), k)
    }
}

fn write_chat_line(out: &mut String, position: u64, r: &ChatResponse)
    requires
        position < u64::MAX,
    ensures
        final(out)@ == old(out)@ + chat_line(position as nat, *r),
{
    let ghost start = out@;
    write_decimal(out, position + 1);
    out.append(". [");
    write_decimal(out, r.latency_ms);
    out.append(" ms | ");
    write_decimal(out, r.tokens);
    out.append(" tok | ");
    out.append(r.provider_id.as_str());
    out.append("] ");
    let snippet = truncate_chat_snippet(r.response_fragment.as_str());
    out.append(snippet.as_str());
    proof {
        assert(final(out)@ =~= start + chat_line(position as nat, *r));
    }
}

/// The provider of each response, in order.
pub fn response_providers(responses: &Vec<ChatResponse>) -> (ids: Vec<String>)
    ensures
        texts(ids@) == provider_ids(responses@),
{
    let n = responses.len();
    let mut ids: Vec<String> = Vec::new();
    let mut i: usize = 0;
    while i < n
        invariant
            n == responses@.len(),
            i <= n,
            ids@.len() == i,
            texts(ids@) == provider_ids(responses@.subrange(0, i as int)),
        decreases n - i,
    {
        let ghost prev = ids@;
        let id = responses[i].provider_id.clone();
        ids.push(id);
        proof {
            let sub = responses@.subrange(0, i + 1);
            let before = responses@.subrange(0, i as int);
            assert(ids@ == prev.push(id));
            assert forall|j: int| 0 <= j < i + 1 implies #[trigger] texts(ids@)[j] == provider_ids(
                sub,
            )[j] by {
                if j < i {
                    assert(texts(prev)[j] == provider_ids(before)[j]);
                    assert(sub[j] == before[j]);
                }
            }
            assert(texts(ids@) =~= provider_ids(sub));
        }
        i = i + 1;
    }
    proof {
        assert(responses@.subrange(0, n as int) =~= responses@);
    }
    ids
}

/// Summarizes a chat task's responses.
pub fn aggregate_chat_responses(responses: &Vec<ChatResponse>) -> (s: String)
    ensures
        s@ == chat_summary(responses@),
{
    let n = responses.len();
    if n == 0 {
        return String::new();
    }
    let sorted = sorted_by_latency(responses);
    proof {
        lemma_sorted_len(responses@);
    }
    let ids = response_providers(responses);
    let distinct = sorted_distinct(&ids);
    proof {
        lemma_sorted_no_duplicates(texts(distinct@));
        texts(distinct@).unique_seq_to_set();
    }
    let u = distinct.len();
    let mut out = String::from_str("Aggregated ");
    write_decimal(&mut out, n as u64);
    out.append(" chat response");
    if n != 1 {
        out.append("s");
    }
    out.append(" from ");
    write_decimal(&mut out, u as u64);
    out.append(" provider");
    if u != 1 {
        out.append("s");
    }
    out.append(".");
    out.append("\n");
    let ghost head = out@;
    let k: usize = if n < 3 {
        n
    } else {
        3
    };
    let mut j: usize = 0;
    while j < k
        invariant
            k <= 3,
            k <= sorted@.len(),
            j <= k,
            out@ == head + chat_lines(sorted@, j as nat),
        decreases k - j,
    {
        let ghost before = out@;
        if j > 0 {
            out.append("\n");
        }
        write_chat_line(&mut out, j as u64, &sorted[j]);
        proof {
            if j == 0 {
                assert(out@ =~= head + chat_lines(sorted@, 1));
            } else {
                assert(out@ =~= head + chat_lines(sorted@, (j + 1) as nat));
            }
        }
        j = j + 1;
    }
    proof {
        let k2: nat = if responses@.len() < 3 {
            responses@.len()
        } else {
            3
        };
        assert(k2 == k);
        assert(out@ =~= chat_summary(responses@));
    }
    out
}

} // verus!
