//! Properties of the backend that span its functions or all of its inputs.
use vstd::prelude::*;

use crate::json::{items_of, json_text, member, str_of, JsonModel};
use crate::searxng::{
    array_member, expected_results, expected_warnings, field_text, min_nat, result_fields,
    result_items, search_params, string_msgs, strings_in, tuple_msg, tuple_msgs,
};
use crate::status::status_is_success;
use crate::text::{labelled, trim_trailing_slashes};

verus! {

/// `w` starts with `label` followed by `": "`.
pub open spec fn has_label(w: Seq<char>, label: Seq<char>) -> bool {
    (label + ": "@).is_prefix_of(w)
}

/// A labelled text starts with its label.
pub proof fn lemma_labelled_has_label(label: Seq<char>, t: Seq<char>)
    ensures
        has_label(labelled(label, t), label),
{
    let w = labelled(label, t);
    let p = label + ": "@;
    assert(p =~= w.subrange(0, p.len() as int));
}

/// Trimming is idempotent: a base URL that was trimmed once is not changed
/// by trimming it again.
pub proof fn law_trim_idempotent(url: Seq<char>)
    ensures
        trim_trailing_slashes(trim_trailing_slashes(url)) == trim_trailing_slashes(url),
    decreases url.len(),
{
    if url.len() > 0 && url.last() == '/' {
        law_trim_idempotent(url.drop_last());
    }
}

/// A trailing slash on the configured URL makes no difference: the URLs `u`
/// and `u/` give backends with the same base URL.
pub proof fn law_trailing_slash_ignored(url: Seq<char>)
    ensures
        trim_trailing_slashes(url.push('/')) == trim_trailing_slashes(url),
{
    assert(url.push('/').drop_last() =~= url);
}

/// Asking for fewer hits gives a prefix of the hits: for `k <= n`, the first
/// `k` hits are the hits when at most `k` are wanted, and there are never
/// more hits than wanted.
pub proof fn law_results_prefix(m: JsonModel, k: nat, n: nat)
    requires
        k <= n,
    ensures
        expected_results(m, k).len() <= k,
        expected_results(m, n).len() <= n,
        expected_results(m, k).is_prefix_of(expected_results(m, n)),
{
    let xs = result_items(m);
    let a = expected_results(m, k);
    let b = expected_results(m, n);
    assert(a.len() == min_nat(k, xs.len()));
    assert(b.len() == min_nat(n, xs.len()));
    assert forall|i: int| 0 <= i < a.len() implies #[trigger] a[i] == b.subrange(0, a.len() as int)[i] by {
        assert(a[i] == result_fields(xs[i]));
        assert(b[i] == result_fields(xs[i]));
    }
    assert(a =~= b.subrange(0, a.len() as int));
}

/// Every hit comes from the result item at the same position: its title,
/// URL and snippet are that item's `title`, `url` and `content`.
pub proof fn law_results_in_order(m: JsonModel, n: nat, i: int)
    requires
        0 <= i < expected_results(m, n).len(),
    ensures
        i < result_items(m).len(),
        expected_results(m, n)[i] == result_fields(result_items(m)[i]),
{
}

/// Every entry of a `[name, reason]` list gives exactly one message, in
/// order, and that message starts with the label.
pub proof fn law_one_message_per_entry(m: JsonModel, key: Seq<char>, label: Seq<char>)
    ensures
        array_member(m, key) matches Some(xs) ==> tuple_msgs(m, key, label).len() == xs.len(),
        array_member(m, key) matches Some(xs) ==> forall|i: int|
            0 <= i < xs.len() ==> #[trigger] tuple_msgs(m, key, label)[i] == tuple_msg(label, xs[i]),
        array_member(m, key) is None ==> tuple_msgs(m, key, label).len() == 0,
{
}

/// The message of any entry starts with the label and `": "`.
pub proof fn law_tuple_msg_labelled(label: Seq<char>, e: JsonModel)
    ensures
        has_label(tuple_msg(label, e), label),
{
    match e {
        JsonModel::Array(parts) => {
            let strs = strings_in(parts);
            if strs.len() == 2 {
                lemma_labelled_has_label(label, strs[0] + ": "@ + strs[1]);
            } else if strs.len() == 1 {
                lemma_labelled_has_label(label, strs[0]);
            } else {
                lemma_labelled_has_label(label, json_text(e));
            }
        },
        JsonModel::Str(s) => {
            lemma_labelled_has_label(label, s);
        },
        _ => {
            lemma_labelled_has_label(label, json_text(e));
        },
    }
}

/// Every message gathered from a list of strings starts with the label and
/// `": "`, and there is one per string of the list.
pub proof fn law_string_msgs_labelled(m: JsonModel, key: Seq<char>, label: Seq<char>)
    ensures
        forall|i: int|
            0 <= i < string_msgs(m, key, label).len() ==> has_label(
                #[trigger] string_msgs(m, key, label)[i],
                label,
            ),
        array_member(m, key) matches Some(xs) ==> string_msgs(m, key, label).len() == strings_in(xs).len(),
{
    assert forall|i: int| 0 <= i < string_msgs(m, key, label).len() implies has_label(
        #[trigger] string_msgs(m, key, label)[i],
        label,
    ) by {
        let xs = array_member(m, key).unwrap();
        let t = strings_in(xs)[i];
        assert(string_msgs(m, key, label)[i] == labelled(label, t));
        lemma_labelled_has_label(label, t);
    }
}

/// Every warning starts with `searxng unresponsive: ` or `searxng engine error: `.
pub proof fn law_warnings_labelled(m: JsonModel, i: int)
    requires
        0 <= i < expected_warnings(m).len(),
    ensures
        has_label(expected_warnings(m)[i], "searxng unresponsive"@) || has_label(
            expected_warnings(m)[i],
            "searxng engine error"@,
        ),
{
    let a = tuple_msgs(m, "unresponsive_engines"@, "searxng unresponsive"@);
    let b = tuple_msgs(m, "errors"@, "searxng engine error"@);
    let c = string_msgs(m, "error_msgs"@, "searxng engine error"@);
    let d = string_msgs(m, "unresponsive_msgs"@, "searxng unresponsive"@);
    let w = expected_warnings(m);
    assert(w == a + b + c + d);
    law_string_msgs_labelled(m, "error_msgs"@, "searxng engine error"@);
    law_string_msgs_labelled(m, "unresponsive_msgs"@, "searxng unresponsive"@);
    if i < a.len() {
        let xs = array_member(m, "unresponsive_engines"@).unwrap();
        law_tuple_msg_labelled("searxng unresponsive"@, xs[i]);
        assert(w[i] == a[i]);
    } else if i < a.len() + b.len() {
        let xs = array_member(m, "errors"@).unwrap();
        law_tuple_msg_labelled("searxng engine error"@, xs[i - a.len()]);
        assert(w[i] == b[i - a.len()]);
    } else if i < a.len() + b.len() + c.len() {
        assert(w[i] == c[i - a.len() - b.len()]);
    } else {
        assert(w[i] == d[i - a.len() - b.len() - c.len()]);
    }
}

/// An answer that holds none of the four failure lists gives no warnings.
pub proof fn law_no_failure_lists_no_warnings(m: JsonModel)
    requires
        array_member(m, "unresponsive_engines"@) is None,
        array_member(m, "errors"@) is None,
        array_member(m, "error_msgs"@) is None,
        array_member(m, "unresponsive_msgs"@) is None,
    ensures
        expected_warnings(m).len() == 0,
{
}

/// The hits depend on the `results` list alone, and the warnings do not
/// depend on how many hits are wanted: two answers with the same `results`
/// member give the same hits.
pub proof fn law_results_only_from_results_list(m1: JsonModel, m2: JsonModel, n: nat)
    requires
        array_member(m1, "results"@) == array_member(m2, "results"@),
    ensures
        expected_results(m1, n) == expected_results(m2, n),
{
}


// ---------------------------------------------------------------------------
// Laws stated over the JSON tree itself

/// Reading a JSON tree: an object's member is its entry under the key, a
/// string's text is its text, an array's items are its items; every other
/// shape gives nothing.
pub proof fn law_json_reading(m: JsonModel, key: Seq<char>)
    ensures
        m matches JsonModel::Object(fields) ==> member(m, key) == (if fields.contains_key(key) {
            Some(fields[key])
        } else {
            None::<JsonModel>
        }),
        !(m is Object) ==> member(m, key) is None,
        m matches JsonModel::Str(s) ==> str_of(m) == Some(s),
        !(m is Str) ==> str_of(m) is None,
        m matches JsonModel::Array(xs) ==> items_of(m) == Some(xs),
        !(m is Array) ==> items_of(m) is None,
{
}

/// A labelled message is the label, `": "`, and the text, in that order.
pub proof fn law_labelled(label: Seq<char>, t: Seq<char>)
    ensures
        labelled(label, t) == label + ": "@ + t,
        labelled(label, t).len() == label.len() + 2 + t.len(),
{
    reveal_strlit(": ");
}

/// A field is read whole: a string member gives exactly its text, and any
/// other member (or none) gives the empty text.
pub proof fn law_field_read_whole(m: JsonModel, key: Seq<char>)
    ensures
        member(m, key) matches Some(x) ==> (x is Str ==> field_text(m, key) == x->Str_0),
        !(member(m, key) matches Some(x) && x is Str) ==> field_text(m, key) == Seq::<char>::empty(),
{
}

/// How many of `xs` are strings.
pub open spec fn num_strings(xs: Seq<JsonModel>) -> nat
    decreases xs.len(),
{
    if xs.len() == 0 {
        0
    } else {
        num_strings(xs.drop_last()) + if xs.last() is Str {
            1nat
        } else {
            0nat
        }
    }
}

/// The strings of a list are all kept, in order: there are as many as the
/// list holds strings, and the string at index `i` of the list is the one
/// after the strings that precede it.
pub proof fn law_strings_all_kept(xs: Seq<JsonModel>)
    ensures
        strings_in(xs).len() == num_strings(xs),
        forall|i: int|
            0 <= i < xs.len() && (#[trigger] xs[i]) is Str ==> num_strings(xs.take(i))
                < num_strings(xs) && strings_in(xs)[num_strings(xs.take(i)) as int] == xs[i]->Str_0,
    decreases xs.len(),
{
    if xs.len() > 0 {
        let dl = xs.drop_last();
        law_strings_all_kept(dl);
        assert(xs.take(xs.len() - 1) =~= dl);
        assert forall|i: int|
            0 <= i < xs.len() && (#[trigger] xs[i]) is Str implies num_strings(xs.take(i))
                < num_strings(xs) && strings_in(xs)[num_strings(xs.take(i)) as int] == xs[i]->Str_0 by {
            if i < xs.len() - 1 {
                assert(xs.take(i) =~= dl.take(i));
                assert(dl[i] == xs[i]);
            }
        }
    }
}

/// The messages of a flat string list: one `label: s` for every string `s`
/// of the list, in the list's order, and nothing else.
pub proof fn law_string_msgs_exact(m: JsonModel, key: Seq<char>, label: Seq<char>)
    ensures
        array_member(m, key) matches Some(xs) ==> string_msgs(m, key, label).len() == num_strings(xs),
        array_member(m, key) matches Some(xs) ==> forall|i: int|
            0 <= i < xs.len() && (#[trigger] xs[i]) is Str ==> num_strings(xs.take(i))
                < num_strings(xs) && string_msgs(m, key, label)[num_strings(xs.take(i)) as int]
                == label + ": "@ + xs[i]->Str_0,
        array_member(m, key) is None ==> string_msgs(m, key, label).len() == 0,
{
    if let Some(xs) = array_member(m, key) {
        law_strings_all_kept(xs);
        assert forall|i: int|
            0 <= i < xs.len() && (#[trigger] xs[i]) is Str implies num_strings(xs.take(i))
                < num_strings(xs) && string_msgs(m, key, label)[num_strings(xs.take(i)) as int]
                == label + ": "@ + xs[i]->Str_0 by {
            assert(strings_in(xs)[num_strings(xs.take(i)) as int] == xs[i]->Str_0);
        }
    }
}

/// The message of one entry of a `[name, reason]` list: a bare string `s`
/// gives `label: s`; an array whose strings are exactly `a` then `b` gives
/// `label: a: b`; an array with exactly one string `a` gives `label: a`; an
/// array with another number of strings, or any other value, gives `label:`
/// and its JSON text.
pub proof fn law_tuple_msg_shapes(label: Seq<char>, e: JsonModel)
    ensures
        e is Str ==> tuple_msg(label, e) == label + ": "@ + e->Str_0,
        e matches JsonModel::Array(parts) ==> forall|i: int, j: int|
            num_strings(parts) == 2 && 0 <= i < parts.len() && 0 <= j < parts.len()
                && (#[trigger] parts[i]) is Str && num_strings(parts.take(i)) == 0
                && (#[trigger] parts[j]) is Str && num_strings(parts.take(j)) == 1
                ==> tuple_msg(label, e) == label + ": "@ + parts[i]->Str_0 + ": "@ + parts[j]->Str_0,
        e matches JsonModel::Array(parts) ==> forall|i: int|
            num_strings(parts) == 1 && 0 <= i < parts.len() && (#[trigger] parts[i]) is Str
                ==> tuple_msg(label, e) == label + ": "@ + parts[i]->Str_0,
        e matches JsonModel::Array(parts) ==> (num_strings(parts) != 1 && num_strings(parts) != 2
            ==> tuple_msg(label, e) == label + ": "@ + json_text(e)),
        !(e is Str) && !(e is Array) ==> tuple_msg(label, e) == label + ": "@ + json_text(e),
{
    if let JsonModel::Array(parts) = e {
        law_strings_all_kept(parts);
        assert forall|i: int, j: int|
            num_strings(parts) == 2 && 0 <= i < parts.len() && 0 <= j < parts.len()
                && (#[trigger] parts[i]) is Str && num_strings(parts.take(i)) == 0
                && (#[trigger] parts[j]) is Str && num_strings(parts.take(j)) == 1
                implies tuple_msg(label, e) == label + ": "@ + parts[i]->Str_0 + ": "@ + parts[j]->Str_0 by {
            assert(strings_in(parts)[0] == parts[i]->Str_0);
            assert(strings_in(parts)[1] == parts[j]->Str_0);
            assert(tuple_msg(label, e) =~= label + ": "@ + parts[i]->Str_0 + ": "@ + parts[j]->Str_0);
        }
        assert forall|i: int|
            num_strings(parts) == 1 && 0 <= i < parts.len() && (#[trigger] parts[i]) is Str
                implies tuple_msg(label, e) == label + ": "@ + parts[i]->Str_0 by {
            assert(num_strings(parts.take(i)) < 1);
            assert(strings_in(parts)[0] == parts[i]->Str_0);
        }
    }
}

/// The entries of the list member `key` (none when it is no list).
pub open spec fn listed(m: JsonModel, key: Seq<char>) -> Seq<JsonModel> {
    match array_member(m, key) {
        Some(xs) => xs,
        None => Seq::empty(),
    }
}

/// The warnings of an answer, position by position: first one message per
/// entry of `unresponsive_engines`, then one per entry of `errors`, then one
/// per string of `error_msgs`, then one per string of `unresponsive_msgs`,
/// with their labels.
pub proof fn law_warnings_layout(m: JsonModel)
    ensures
        ({
            let a = listed(m, "unresponsive_engines"@);
            let b = listed(m, "errors"@);
            let c = listed(m, "error_msgs"@);
            let d = listed(m, "unresponsive_msgs"@);
            let w = expected_warnings(m);
            &&& w.len() == a.len() + b.len() + num_strings(c) + num_strings(d)
            &&& forall|i: int| 0 <= i < a.len() ==> #[trigger] w[i] == tuple_msg("searxng unresponsive"@, a[i])
            &&& forall|i: int| 0 <= i < b.len() ==> #[trigger] w[a.len() + i] == tuple_msg("searxng engine error"@, b[i])
            &&& forall|i: int| 0 <= i < c.len() && (#[trigger] c[i]) is Str
                ==> w[(a.len() + b.len() + num_strings(c.take(i))) as int] == "searxng engine error"@ + ": "@ + c[i]->Str_0
            &&& forall|i: int| 0 <= i < d.len() && (#[trigger] d[i]) is Str
                ==> w[(a.len() + b.len() + num_strings(c) + num_strings(d.take(i))) as int]
                == "searxng unresponsive"@ + ": "@ + d[i]->Str_0
        }),
{
    let a = listed(m, "unresponsive_engines"@);
    let b = listed(m, "errors"@);
    let c = listed(m, "error_msgs"@);
    let d = listed(m, "unresponsive_msgs"@);
    let ta = tuple_msgs(m, "unresponsive_engines"@, "searxng unresponsive"@);
    let tb = tuple_msgs(m, "errors"@, "searxng engine error"@);
    let sc = string_msgs(m, "error_msgs"@, "searxng engine error"@);
    let sd = string_msgs(m, "unresponsive_msgs"@, "searxng unresponsive"@);
    let w = expected_warnings(m);
    assert(w == ta + tb + sc + sd);
    assert(ta.len() == a.len());
    assert(tb.len() == b.len());
    law_string_msgs_exact(m, "error_msgs"@, "searxng engine error"@);
    law_string_msgs_exact(m, "unresponsive_msgs"@, "searxng unresponsive"@);
    assert(sc.len() == num_strings(c));
    assert(sd.len() == num_strings(d));
    assert forall|i: int| 0 <= i < a.len() implies #[trigger] w[i] == tuple_msg("searxng unresponsive"@, a[i]) by {
        assert(w[i] == ta[i]);
    }
    assert forall|i: int| 0 <= i < b.len() implies #[trigger] w[a.len() + i] == tuple_msg("searxng engine error"@, b[i]) by {
        assert(w[a.len() + i] == tb[i]);
    }
    assert forall|i: int| 0 <= i < c.len() && (#[trigger] c[i]) is Str
        implies w[(a.len() + b.len() + num_strings(c.take(i))) as int] == "searxng engine error"@ + ": "@ + c[i]->Str_0 by {
        assert(w[(a.len() + b.len() + num_strings(c.take(i))) as int] == sc[num_strings(c.take(i)) as int]);
    }
    assert forall|i: int| 0 <= i < d.len() && (#[trigger] d[i]) is Str
        implies w[(a.len() + b.len() + num_strings(c) + num_strings(d.take(i))) as int]
        == "searxng unresponsive"@ + ": "@ + d[i]->Str_0 by {
        assert(w[(a.len() + b.len() + num_strings(c) + num_strings(d.take(i))) as int] == sd[num_strings(d.take(i)) as int]);
    }
}

/// The hits of an answer: exactly `min(n, |items|)` of them for a `results`
/// list `items` (none without such a list), hit `i` made of item `i`'s
/// `title`, `url` and `content` texts, each read whole.
pub proof fn law_hits_exact(m: JsonModel, n: nat)
    ensures
        array_member(m, "results"@) is None ==> expected_results(m, n).len() == 0,
        array_member(m, "results"@) matches Some(items) ==> expected_results(m, n).len() == (if n
            < items.len() {
            n
        } else {
            items.len()
        }),
        array_member(m, "results"@) matches Some(items) ==> forall|i: int|
            0 <= i < expected_results(m, n).len() && member(items[i], "title"@) is Some && member(items[i], "title"@)->Some_0 is Str
                ==> (#[trigger] expected_results(m, n)[i]).0 == member(items[i], "title"@)->Some_0->Str_0,
        array_member(m, "results"@) matches Some(items) ==> forall|i: int|
            0 <= i < expected_results(m, n).len() && member(items[i], "url"@) is Some && member(items[i], "url"@)->Some_0 is Str
                ==> (#[trigger] expected_results(m, n)[i]).1 == member(items[i], "url"@)->Some_0->Str_0,
        array_member(m, "results"@) matches Some(items) ==> forall|i: int|
            0 <= i < expected_results(m, n).len() && member(items[i], "content"@) is Some && member(items[i], "content"@)->Some_0 is Str
                ==> (#[trigger] expected_results(m, n)[i]).2 == member(items[i], "content"@)->Some_0->Str_0,
{
}

/// The query parameters: `q` with the query unchanged, `format=json`,
/// `pageno=1`, and `language` with the language exactly when one is given.
pub proof fn law_search_params(query: Seq<char>, lang: Option<Seq<char>>)
    ensures
        search_params(query, lang)[0] == ("q"@, query),
        search_params(query, lang)[1] == ("format"@, "json"@),
        search_params(query, lang)[2] == ("pageno"@, "1"@),
        lang is None ==> search_params(query, lang).len() == 3,
        lang matches Some(l) ==> search_params(query, lang).len() == 4 && search_params(query, lang)[3]
            == ("language"@, l),
{
}

/// A status counts as success exactly when it lies in `200..300`.
pub proof fn law_success_range(code: u16)
    ensures
        status_is_success(code) <==> 200 <= code && code < 300,
{
}

} // verus!
