//! What holds between a filter's text and the filter that parsing that text gives.
use vstd::prelude::*;
use super::state::{filter_view, App};
use super::filter::{
    apply_word, apply_words, filter_parts, filter_text, is_destination_key,
    is_length_key, is_protocol_key, is_source_key, length_part, list_part, exact_word, range_word, above_word, below_word, parse_length, address_values,
    spec_parse, spec_matches, term_found, FilterView, apply_length, protocol_values,
};
use super::packet_info::PacketInfoView;
use crate::text::{
    decimal, find_char, is_ws, join, lemma_find_char_at, lemma_join_front, lemma_parse_decimal,
    lemma_split_join, lemma_words_join, lemma_decimal_digits, lowercase, none_holds, plain_words,
    split_on, trim, trim_end, trim_start, is_digit, words, lemma_words_split_at_ws, lemma_words_trim,
    all_ascii, ascii_lowercase, ascii_lower_char, lemma_word_len_ends, lemma_word_len_bounds, lemma_find_char,
    word_len,
};

verus! {

/// The words of a list applied in turn to `g`, stopping at the first refusal.
pub open spec fn apply_all(g: FilterView, ws: Seq<Seq<char>>) -> Result<FilterView, Seq<char>>
    decreases ws.len(),
{
    if ws.len() == 0 {
        Ok(g)
    } else {
        match apply_all(g, ws.drop_last()) {
            Ok(h) => apply_word(h, ws.last()),
            Err(e) => Err(e),
        }
    }
}

/// `apply_words` over the first `n` words applies them to the empty filter.
proof fn lemma_apply_words_all(ws: Seq<Seq<char>>, n: int)
    requires
        0 <= n <= ws.len(),
    ensures
        apply_words(ws, n) == apply_all(FilterView::empty(), ws.take(n)),
    decreases n,
{
    if n > 0 {
        lemma_apply_words_all(ws, n - 1);
        assert(ws.take(n).drop_last() =~= ws.take(n - 1));
        assert(ws.take(n).last() == ws[n - 1]);
    } else {
        assert(ws.take(0).len() == 0);
    }
}

/// Applying `a + b` applies `a`, then `b` to what came of it.
proof fn lemma_apply_all_concat(g: FilterView, a: Seq<Seq<char>>, b: Seq<Seq<char>>)
    ensures
        apply_all(g, a + b) == match apply_all(g, a) {
            Ok(h) => apply_all(h, b),
            Err(e) => Err(e),
        },
    decreases b.len(),
{
    if b.len() == 0 {
        assert(a + b =~= a);
    } else {
        lemma_apply_all_concat(g, a, b.drop_last());
        assert((a + b).drop_last() =~= a + b.drop_last());
        assert((a + b).last() == b.last());
    }
}

/// Applying one word.
proof fn lemma_apply_all_one(g: FilterView, w: Seq<char>)
    ensures
        apply_all(g, seq![w]) == apply_word(g, w),
{
    assert(seq![w].drop_last() =~= Seq::<Seq<char>>::empty());
    assert(apply_all(g, seq![w].drop_last()) == Ok::<FilterView, Seq<char>>(g));
    assert(seq![w].last() == w);
}

/// Words without a colon are search terms, appended in order.
proof fn lemma_apply_terms(g: FilterView, ts: Seq<Seq<char>>)
    requires
        none_holds(ts, ':'),
    ensures
        apply_all(g, ts) == Ok::<FilterView, Seq<char>>(
            FilterView { search_terms: g.search_terms + ts, ..g },
        ),
    decreases ts.len(),
{
    if ts.len() == 0 {
        assert(g.search_terms + ts =~= g.search_terms);
    } else {
        let init = ts.drop_last();
        assert forall|i: int, j: int| 0 <= i < init.len() && 0 <= j < init[i].len() implies init[i][j]
            != ':' by {
            assert(init[i] == ts[i]);
        }
        lemma_apply_terms(g, init);
        let w = ts.last();
        assert forall|k: int| 0 <= k < w.len() implies w[k] != ':' by {
            assert(w == ts[ts.len() - 1]);
        }
        lemma_find_char_at(w, ':', w.len() as int);
        assert((g.search_terms + init).push(w) =~= g.search_terms + ts);
    }
}

/// In `key` followed by `value`, where `key` ends in its only colon, the first colon ends
/// the key.
proof fn lemma_split_key(key: Seq<char>, value: Seq<char>)
    requires
        key.len() > 0,
        key.last() == ':',
        forall|k: int| 0 <= k < key.len() - 1 ==> key[k] != ':',
    ensures
        find_char(key + value, ':') == Some(key.len() - 1),
        (key + value).take(key.len() - 1) == key.drop_last(),
        (key + value).skip(key.len() as int) == value,
{
    let s = key + value;
    assert forall|k: int| 0 <= k < key.len() - 1 implies s[k] != ':' by {
        assert(s[k] == key[k]);
    }
    lemma_find_char_at(s, ':', key.len() - 1);
    assert(s.take(key.len() - 1) =~= key.drop_last());
    assert(s.skip(key.len() as int) =~= value);
}

/// The comma-separated values of a list part, trimmed, are the list's values.
proof fn lemma_values_back(vals: Seq<Seq<char>>)
    requires
        vals.len() > 0,
        none_holds(vals, ','),
        forall|i: int, j: int| 0 <= i < vals.len() && 0 <= j < vals[i].len() ==> !is_ws(vals[i][j]),
    ensures
        split_on(join(vals, ","@), ',') == vals,
        forall|i: int| 0 <= i < vals.len() ==> trim(#[trigger] vals[i]) == vals[i],
{
    reveal_strlit(",");
    assert(","@ =~= seq![',']);
    lemma_split_join(vals, ',');
    assert forall|i: int| 0 <= i < vals.len() implies trim(#[trigger] vals[i]) == vals[i] by {
        lemma_trim_plain(vals[i]);
    }
}

/// A text without white space is its own trim.
pub proof fn lemma_trim_plain(s: Seq<char>)
    requires
        forall|j: int| 0 <= j < s.len() ==> !is_ws(s[j]),
    ensures
        trim(s) == s,
{
    if s.len() > 0 {
        assert(!is_ws(s[0]));
        assert(trim_start(s) == s);
        assert(!is_ws(s.last()));
        assert(trim_end(s) == s);
    }
}

/// A list item holds no white space.
pub open spec fn items_plain(vals: Seq<Seq<char>>) -> bool {
    forall|i: int, j: int| 0 <= i < vals.len() && 0 <= j < vals[i].len() ==> !is_ws(vals[i][j])
}

/// The `protocol:` part of a filter's text gives back its protocols.
proof fn lemma_protocols_word(g: FilterView, vals: Seq<Seq<char>>)
    requires
        vals.len() > 0,
        none_holds(vals, ','),
        items_plain(vals),
        forall|i: int| 0 <= i < vals.len() ==> lowercase(#[trigger] vals[i]) == vals[i],
        lowercase("protocol"@) == "protocol"@,
    ensures
        apply_word(g, "protocol:"@ + join(vals, ","@)) == Ok::<FilterView, Seq<char>>(
            FilterView { protocols: g.protocols + vals, ..g },
        ),
{
    reveal_strlit("protocol:");
    reveal_strlit("protocol");
    reveal_strlit("proto");
    let key = "protocol:"@;
    let value = join(vals, ","@);
    assert forall|k: int| 0 <= k < key.len() - 1 implies key[k] != ':' by {}
    lemma_split_key(key, value);
    assert(key.drop_last() =~= "protocol"@);
    assert(is_protocol_key(lowercase(key.drop_last())));
    lemma_values_back(vals);
    assert(split_on(value, ',').map_values(|p: Seq<char>| lowercase(trim(p))) =~= vals);
}

/// The `source:` part of a filter's text gives back its sources.
proof fn lemma_sources_word(g: FilterView, vals: Seq<Seq<char>>)
    requires
        vals.len() > 0,
        none_holds(vals, ','),
        items_plain(vals),
        lowercase("source"@) == "source"@,
    ensures
        apply_word(g, "source:"@ + join(vals, ","@)) == Ok::<FilterView, Seq<char>>(
            FilterView { sources: g.sources + vals, ..g },
        ),
{
    reveal_strlit("source:");
    reveal_strlit("source");
    reveal_strlit("protocol");
    reveal_strlit("proto");
    reveal_strlit("src");
    let key = "source:"@;
    let value = join(vals, ","@);
    assert forall|k: int| 0 <= k < key.len() - 1 implies key[k] != ':' by {}
    lemma_split_key(key, value);
    assert(key.drop_last() =~= "source"@);
    assert(!is_protocol_key("source"@));
    assert(is_source_key(lowercase(key.drop_last())));
    lemma_values_back(vals);
    assert(address_values(value) =~= vals);
}

/// The `dest:` part of a filter's text gives back its destinations.
proof fn lemma_destinations_word(g: FilterView, vals: Seq<Seq<char>>)
    requires
        vals.len() > 0,
        none_holds(vals, ','),
        items_plain(vals),
        lowercase("dest"@) == "dest"@,
    ensures
        apply_word(g, "dest:"@ + join(vals, ","@)) == Ok::<FilterView, Seq<char>>(
            FilterView { destinations: g.destinations + vals, ..g },
        ),
{
    reveal_strlit("dest:");
    reveal_strlit("dest");
    reveal_strlit("protocol");
    reveal_strlit("proto");
    reveal_strlit("source");
    reveal_strlit("src");
    reveal_strlit("destination");
    let key = "dest:"@;
    let value = join(vals, ","@);
    assert forall|k: int| 0 <= k < key.len() - 1 implies key[k] != ':' by {}
    lemma_split_key(key, value);
    assert(key.drop_last() =~= "dest"@);
    assert(!is_protocol_key("dest"@));
    assert(!is_source_key("dest"@));
    assert(is_destination_key(lowercase(key.drop_last())));
    lemma_values_back(vals);
    assert(address_values(value) =~= vals);
}

/// The key `length` is none of the list keys.
proof fn lemma_length_key(key: Seq<char>)
    requires
        key == "length:"@,
        lowercase("length"@) == "length"@,
    ensures
        key.drop_last() == "length"@,
        is_length_key(lowercase(key.drop_last())),
        !is_protocol_key(lowercase(key.drop_last())),
        !is_source_key(lowercase(key.drop_last())),
        !is_destination_key(lowercase(key.drop_last())),
        key.len() > 0,
        key.last() == ':',
        forall|k: int| 0 <= k < key.len() - 1 ==> key[k] != ':',
{
    reveal_strlit("length:");
    reveal_strlit("length");
    reveal_strlit("protocol");
    reveal_strlit("proto");
    reveal_strlit("source");
    reveal_strlit("src");
    reveal_strlit("destination");
    reveal_strlit("dest");
    reveal_strlit("dst");
    assert(key.drop_last() =~= "length"@);
    assert("length"@[0] != "source"@[0]);
    assert forall|k: int| 0 <= k < key.len() - 1 implies key[k] != ':' by {}
}

/// A number's decimal text holds neither white space nor any of `-`, `>`, `<`, and reads
/// back as the number.
proof fn lemma_number_text(n: usize)
    ensures
        decimal(n as nat).len() > 0,
        forall|j: int| 0 <= j < decimal(n as nat).len() ==> {
            &&& !is_ws(#[trigger] decimal(n as nat)[j])
            &&& decimal(n as nat)[j] != '-'
            &&& decimal(n as nat)[j] != '>'
            &&& decimal(n as nat)[j] != '<'
        },
        parse_length(decimal(n as nat)) == Some(n as nat),
        trim(decimal(n as nat)) == decimal(n as nat),
{
    lemma_decimal_digits(n as nat);
    lemma_parse_decimal(n as nat, usize::MAX as nat);
    assert forall|j: int| 0 <= j < decimal(n as nat).len() implies {
        &&& !is_ws(#[trigger] decimal(n as nat)[j])
        &&& decimal(n as nat)[j] != '-'
        &&& decimal(n as nat)[j] != '>'
        &&& decimal(n as nat)[j] != '<'
    } by {
        assert(is_digit(decimal(n as nat)[j]));
    }
    lemma_trim_plain(decimal(n as nat));
}

/// `length:N` gives the inclusive bounds N and N.
proof fn lemma_length_exact(g: FilterView, a: usize)
    requires
        lowercase("length"@) == "length"@,
    ensures
        apply_word(g, exact_word(a)) == Ok::<FilterView, Seq<char>>(
            FilterView {
                min_length: Some(a),
                max_length: Some(a),
                min_exclusive: false,
                max_exclusive: false,
                ..g
            },
        ),
{
    let key = "length:"@;
    lemma_length_key(key);
    lemma_number_text(a);
    let value = decimal(a as nat);
    lemma_split_key(key, value);
    lemma_find_char_at(value, '-', value.len() as int);
}

/// `length:A-B` gives the inclusive bounds A and B when A is at most B.
#[verifier::spinoff_prover]
#[verifier::rlimit(50)]
proof fn lemma_length_range(g: FilterView, a: usize, b: usize)
    requires
        a <= b,
        lowercase("length"@) == "length"@,
    ensures
        apply_word(g, range_word(a, b)) == Ok::<FilterView, Seq<char>>(
            FilterView {
                min_length: Some(a),
                max_length: Some(b),
                min_exclusive: false,
                max_exclusive: false,
                ..g
            },
        ),
{
    reveal_strlit("-");
    let key = "length:"@;
    lemma_length_key(key);
    lemma_number_text(a);
    lemma_number_text(b);
    let da = decimal(a as nat);
    let db = decimal(b as nat);
    let value = da + "-"@ + db;
    assert("length:"@ + da + "-"@ + db =~= key + value);
    lemma_split_key(key, value);
    assert forall|j: int| 0 <= j < value.len() implies !is_ws(value[j]) by {
        if j < da.len() {
            assert(value[j] == da[j]);
        } else if j > da.len() {
            assert(value[j] == db[j - da.len() - 1]);
        }
    }
    lemma_trim_plain(value);
    assert forall|k: int| 0 <= k < da.len() implies value[k] != '-' by {
        assert(value[k] == da[k]);
    }
    lemma_find_char_at(value, '-', da.len() as int);
    let list = seq![da, db];
    assert forall|i: int, j: int| 0 <= i < list.len() && 0 <= j < list[i].len() implies list[i][j]
        != '-' by {}
    assert(list.drop_last() =~= seq![da]);
    assert("-"@ =~= seq!['-']);
    assert(join(seq![da], seq!['-']) == da);
    assert(join(list, seq!['-']) =~= value);
    lemma_split_join(list, '-');
    assert(value[0] == da[0]);
}

/// `length:>A` (or `length:<A` when `below`) gives that one strict bound.
proof fn lemma_length_one_side(g: FilterView, a: usize, below: bool)
    requires
        lowercase("length"@) == "length"@,
    ensures
        !below ==> apply_word(g, above_word(a)) == Ok::<FilterView, Seq<char>>(
            FilterView { min_length: Some(a), min_exclusive: true, ..g },
        ),
        below ==> apply_word(g, below_word(a)) == Ok::<FilterView, Seq<char>>(
            FilterView { max_length: Some(a), max_exclusive: true, ..g },
        ),
{
    reveal_strlit("length:>");
    reveal_strlit("length:<");
    reveal_strlit("length:");
    let key = "length:"@;
    lemma_length_key(key);
    lemma_number_text(a);
    let da = decimal(a as nat);
    let value = if below {
        seq!['<'] + da
    } else {
        seq!['>'] + da
    };
    if below {
        assert("length:<"@ + da =~= key + value);
    } else {
        assert("length:>"@ + da =~= key + value);
    }
    lemma_split_key(key, value);
    assert forall|j: int| 0 <= j < value.len() implies !is_ws(value[j]) by {
        if j > 0 {
            assert(value[j] == da[j - 1]);
        }
    }
    lemma_trim_plain(value);
    assert(value.drop_first() =~= da);
}

/// Two words applied in turn.
proof fn lemma_apply_all_two(g: FilterView, w1: Seq<char>, w2: Seq<char>)
    ensures
        apply_all(g, seq![w1, w2]) == match apply_word(g, w1) {
            Ok(h) => apply_word(h, w2),
            Err(e) => Err(e),
        },
{
    assert(seq![w1, w2].drop_last() =~= seq![w1]);
    lemma_apply_all_one(g, w1);
    assert(seq![w1, w2].last() == w2);
}

/// The length bounds are those that the `length:` words of the filter's text can give:
/// a bound alone is strict, a flag stands only beside its bound, and two inclusive bounds
/// are in order.
pub open spec fn length_ok(f: FilterView) -> bool {
    &&& (f.min_length is None ==> !f.min_exclusive)
    &&& (f.max_length is None ==> !f.max_exclusive)
    &&& (f.min_length is Some && f.max_length is None ==> f.min_exclusive)
    &&& (f.min_length is None && f.max_length is Some ==> f.max_exclusive)
    &&& (!f.min_exclusive && !f.max_exclusive && f.min_length is Some && f.max_length is Some
        ==> f.min_length->Some_0 <= f.max_length->Some_0)
}

/// The `length:` parts of a filter's text give back its length bounds.
#[verifier::rlimit(30)]
proof fn lemma_length_word(g: FilterView, f: FilterView)
    requires
        length_ok(f),
        g.min_length is None,
        g.max_length is None,
        !g.min_exclusive,
        !g.max_exclusive,
        lowercase("length"@) == "length"@,
    ensures
        apply_all(g, length_part(f)) == Ok::<FilterView, Seq<char>>(
            FilterView {
                min_length: f.min_length,
                max_length: f.max_length,
                min_exclusive: f.min_exclusive,
                max_exclusive: f.max_exclusive,
                ..g
            },
        ),
{
    let lp = length_part(f);
    match (f.min_length, f.max_length) {
        (Some(a), Some(b)) => {
            if f.min_exclusive && f.max_exclusive {
                lemma_length_one_side(g, a, false);
                let h = FilterView { min_length: Some(a), min_exclusive: true, ..g };
                lemma_length_one_side(h, b, true);
                lemma_apply_all_two(g, above_word(a), below_word(b));
            } else if f.min_exclusive {
                lemma_length_exact(g, b);
                let h = FilterView {
                    min_length: Some(b),
                    max_length: Some(b),
                    min_exclusive: false,
                    max_exclusive: false,
                    ..g
                };
                lemma_length_one_side(h, a, false);
                lemma_apply_all_two(g, exact_word(b), above_word(a));
            } else if f.max_exclusive {
                lemma_length_exact(g, a);
                let h = FilterView {
                    min_length: Some(a),
                    max_length: Some(a),
                    min_exclusive: false,
                    max_exclusive: false,
                    ..g
                };
                lemma_length_one_side(h, b, true);
                lemma_apply_all_two(g, exact_word(a), below_word(b));
            } else if a == b {
                lemma_length_exact(g, a);
                lemma_apply_all_one(g, exact_word(a));
            } else {
                lemma_length_range(g, a, b);
                lemma_apply_all_one(g, range_word(a, b));
            }
        },
        (Some(a), None) => {
            lemma_length_one_side(g, a, false);
            lemma_apply_all_one(g, above_word(a));
        },
        (None, Some(b)) => {
            lemma_length_one_side(g, b, true);
            lemma_apply_all_one(g, below_word(b));
        },
        (None, None) => {
            assert(lp.len() == 0);
        },
    }
}

/// No character of the strings of `list`, joined by `sep`, is white space when none of
/// theirs and none of the separator's is.
proof fn lemma_join_plain(list: Seq<Seq<char>>, sep: Seq<char>)
    requires
        items_plain(list),
        forall|j: int| 0 <= j < sep.len() ==> !is_ws(sep[j]),
    ensures
        forall|j: int| 0 <= j < join(list, sep).len() ==> !is_ws(#[trigger] join(list, sep)[j]),
    decreases list.len(),
{
    if list.len() >= 2 {
        let dl = list.drop_last();
        assert forall|i: int, j: int| 0 <= i < dl.len() && 0 <= j < dl[i].len() implies !is_ws(dl[i][j]) by {
            assert(dl[i] == list[i]);
        }
        lemma_join_plain(dl, sep);
        let a = join(dl, sep);
        let l = list.last();
        assert(join(list, sep) == a + sep + l);
        assert forall|j: int| 0 <= j < join(list, sep).len() implies !is_ws(#[trigger] join(list, sep)[j]) by {
            if j < a.len() {
                assert(join(list, sep)[j] == a[j]);
            } else if j < a.len() + sep.len() {
                assert(join(list, sep)[j] == sep[j - a.len()]);
            } else {
                assert(join(list, sep)[j] == l[j - a.len() - sep.len()]);
                assert(l == list[list.len() - 1]);
            }
        }
    } else if list.len() == 1 {
        assert(join(list, sep) == list[0]);
        assert forall|j: int| 0 <= j < join(list, sep).len() implies !is_ws(#[trigger] join(list, sep)[j]) by {
            assert(join(list, sep)[j] == list[0][j]);
        }
    }
}

/// The first and last characters of a join are those of the first and last strings.
proof fn lemma_join_ends(list: Seq<Seq<char>>, sep: Seq<char>)
    requires
        list.len() >= 1,
        list[0].len() > 0,
        list.last().len() > 0,
    ensures
        join(list, sep).len() > 0,
        join(list, sep)[0] == list[0][0],
        join(list, sep).last() == list.last().last(),
{
    if list.len() == 1 {
        assert(join(list, sep) == list[0]);
    } else {
        lemma_join_front(list, sep);
        assert(join(list, sep) == join(list.drop_last(), sep) + sep + list.last());
    }
}

/// A list part holds no white space and is not empty, when its key and values hold none.
proof fn lemma_list_part_plain(key: Seq<char>, vals: Seq<Seq<char>>)
    requires
        key.len() > 0,
        forall|j: int| 0 <= j < key.len() ==> !is_ws(key[j]),
        items_plain(vals),
    ensures
        plain_words(list_part(key, vals)),
{
    if vals.len() > 0 {
        reveal_strlit(",");
        lemma_join_plain(vals, ","@);
        let w = key + join(vals, ","@);
        assert forall|j: int| 0 <= j < w.len() implies !is_ws(#[trigger] w[j]) by {
            if j < key.len() {
                assert(w[j] == key[j]);
            } else {
                assert(w[j] == join(vals, ","@)[j - key.len()]);
            }
        }
        assert(list_part(key, vals) == seq![w]);
    }
}

/// The filter's text describes it exactly: list items hold no white space and no comma,
/// search terms are non-empty and hold neither white space nor a colon, every protocol is
/// already in lower case, and the length bounds are as `length_ok` says.
pub open spec fn text_describes(f: FilterView) -> bool {
    &&& items_plain(f.protocols)
    &&& none_holds(f.protocols, ',')
    &&& items_plain(f.sources)
    &&& none_holds(f.sources, ',')
    &&& items_plain(f.destinations)
    &&& none_holds(f.destinations, ',')
    &&& plain_words(f.search_terms)
    &&& none_holds(f.search_terms, ':')
    &&& forall|i: int| 0 <= i < f.protocols.len() ==> lowercase(#[trigger] f.protocols[i]) == f.protocols[i]
    &&& length_ok(f)
}

/// `to_lowercase` leaves the key names that a filter's text uses as they are.
pub open spec fn keys_lower_case() -> bool {
    &&& lowercase("protocol"@) == "protocol"@
    &&& lowercase("source"@) == "source"@
    &&& lowercase("dest"@) == "dest"@
    &&& lowercase("length"@) == "length"@
}

/// The filter after the list parts of `f`'s text: its three lists.
pub open spec fn lists_of(f: FilterView) -> FilterView {
    FilterView {
        protocols: f.protocols,
        sources: f.sources,
        destinations: f.destinations,
        ..FilterView::empty()
    }
}

/// The list parts of a filter's text give back its three lists.
proof fn lemma_list_parts(f: FilterView)
    requires
        text_describes(f),
        keys_lower_case(),
    ensures
        apply_all(
            FilterView::empty(),
            list_part("protocol:"@, f.protocols) + list_part("source:"@, f.sources) + list_part(
                "dest:"@,
                f.destinations,
            ),
        ) == Ok::<FilterView, Seq<char>>(lists_of(f)),
{
    let e = FilterView::empty();
    let lp = list_part("protocol:"@, f.protocols);
    let ls = list_part("source:"@, f.sources);
    let ld = list_part("dest:"@, f.destinations);
    let v1 = FilterView { protocols: f.protocols, ..e };
    let v2 = FilterView { sources: f.sources, ..v1 };
    let v3 = FilterView { destinations: f.destinations, ..v2 };
    if f.protocols.len() > 0 {
        lemma_protocols_word(e, f.protocols);
        lemma_apply_all_one(e, lp[0]);
        assert(lp == seq![lp[0]]);
        assert(e.protocols + f.protocols =~= f.protocols);
    } else {
        assert(lp.len() == 0);
        assert(f.protocols =~= e.protocols);
    }
    assert(apply_all(e, lp) == Ok::<FilterView, Seq<char>>(v1));
    if f.sources.len() > 0 {
        lemma_sources_word(v1, f.sources);
        lemma_apply_all_one(v1, ls[0]);
        assert(ls == seq![ls[0]]);
        assert(v1.sources + f.sources =~= f.sources);
    } else {
        assert(ls.len() == 0);
        assert(f.sources =~= v1.sources);
    }
    assert(apply_all(v1, ls) == Ok::<FilterView, Seq<char>>(v2));
    if f.destinations.len() > 0 {
        lemma_destinations_word(v2, f.destinations);
        lemma_apply_all_one(v2, ld[0]);
        assert(ld == seq![ld[0]]);
        assert(v2.destinations + f.destinations =~= f.destinations);
    } else {
        assert(ld.len() == 0);
        assert(f.destinations =~= v2.destinations);
    }
    assert(apply_all(v2, ld) == Ok::<FilterView, Seq<char>>(v3));
    lemma_apply_all_concat(e, lp, ls);
    lemma_apply_all_concat(e, lp + ls, ld);
    assert(v3 == lists_of(f));
}

/// A non-empty word without white space.
spec fn word_plain(w: Seq<char>) -> bool {
    w.len() > 0 && forall|j: int| 0 <= j < w.len() ==> !is_ws(#[trigger] w[j])
}

/// The four kinds of `length:` word are non-empty and hold no white space.
proof fn lemma_length_words_plain(a: usize, b: usize)
    ensures
        word_plain(exact_word(a)),
        word_plain(range_word(a, b)),
        word_plain(above_word(a)),
        word_plain(below_word(b)),
        word_plain(exact_word(b)),
        word_plain(above_word(b)),
        word_plain(below_word(a)),
{
    reveal_strlit("length:");
    reveal_strlit("length:>");
    reveal_strlit("length:<");
    reveal_strlit("-");
    lemma_number_text(a);
    lemma_number_text(b);
    let da = decimal(a as nat);
    let db = decimal(b as nat);
    let list = seq![exact_word(a), range_word(a, b), above_word(a), below_word(b)];
    assert forall|i: int| 0 <= i < list.len() implies #[trigger] list[i].len() > 0 && forall|j: int|
        0 <= j < list[i].len() ==> !is_ws(#[trigger] list[i][j]) by {
        assert forall|j: int| 0 <= j < list[i].len() implies !is_ws(#[trigger] list[i][j]) by {
            if i == 0 {
                if j >= 7 {
                    assert(list[i][j] == da[j - 7]);
                }
            } else if i == 1 {
                if j >= 7 && j < 7 + da.len() {
                    assert(list[i][j] == da[j - 7]);
                } else if j > 7 + da.len() {
                    assert(list[i][j] == db[j - 8 - da.len()]);
                }
            } else if i == 2 {
                if j >= 8 {
                    assert(list[i][j] == da[j - 8]);
                }
            } else {
                if j >= 8 {
                    assert(list[i][j] == db[j - 8]);
                }
            }
        }
    }
    assert(word_plain(list[0]));
    assert(word_plain(list[1]));
    assert(word_plain(list[2]));
    assert(word_plain(list[3]));
    assert(word_plain(exact_word(b))) by {
        assert forall|j: int| 0 <= j < exact_word(b).len() implies !is_ws(#[trigger] exact_word(b)[j]) by {
            if j >= 7 {
                assert(exact_word(b)[j] == db[j - 7]);
            }
        }
    }
    assert(word_plain(above_word(b))) by {
        assert forall|j: int| 0 <= j < above_word(b).len() implies !is_ws(#[trigger] above_word(b)[j]) by {
            if j >= 8 {
                assert(above_word(b)[j] == db[j - 8]);
            }
        }
    }
    assert(word_plain(below_word(a))) by {
        assert forall|j: int| 0 <= j < below_word(a).len() implies !is_ws(#[trigger] below_word(a)[j]) by {
            if j >= 8 {
                assert(below_word(a)[j] == da[j - 8]);
            }
        }
    }
}

/// Every part of a filter's text is a non-empty word without white space.
proof fn lemma_parts_plain(f: FilterView)
    requires
        text_describes(f),
    ensures
        plain_words(filter_parts(f)),
{
    reveal_strlit("protocol:");
    reveal_strlit("source:");
    reveal_strlit("dest:");
    reveal_strlit("length:");
    reveal_strlit("length:>");
    reveal_strlit("length:<");
    reveal_strlit("-");
    lemma_list_part_plain("protocol:"@, f.protocols);
    lemma_list_part_plain("source:"@, f.sources);
    lemma_list_part_plain("dest:"@, f.destinations);
    let lp = length_part(f);
    assert(plain_words(lp)) by {
        match (f.min_length, f.max_length) {
            (Some(a), Some(b)) => {
                lemma_length_words_plain(a, b);
            },
            (Some(a), None) => {
                lemma_length_words_plain(a, a);
            },
            (None, Some(b)) => {
                lemma_length_words_plain(b, b);
            },
            (None, None) => {},
        }
        assert forall|i: int| 0 <= i < lp.len() implies word_plain(#[trigger] lp[i]) by {}
    }
    let parts = filter_parts(f);
    let a = list_part("protocol:"@, f.protocols) + list_part("source:"@, f.sources) + list_part(
        "dest:"@,
        f.destinations,
    );
    assert forall|i: int| 0 <= i < parts.len() implies #[trigger] parts[i].len() > 0 && forall|j: int|
        0 <= j < parts[i].len() ==> !is_ws(#[trigger] parts[i][j]) by {
        let l1 = list_part("protocol:"@, f.protocols);
        let l2 = list_part("source:"@, f.sources);
        let l3 = list_part("dest:"@, f.destinations);
        if i < l1.len() {
            assert(parts[i] == l1[i]);
        } else if i < l1.len() + l2.len() {
            assert(parts[i] == l2[i - l1.len()]);
        } else if i < l1.len() + l2.len() + l3.len() {
            assert(parts[i] == l3[i - l1.len() - l2.len()]);
        } else if i < a.len() + lp.len() {
            assert(parts[i] == lp[i - a.len()]);
        } else {
            assert(parts[i] == f.search_terms[i - a.len() - lp.len()]);
        }
    }
}

/// Reading back the text of a filter gives the same filter, whenever the text describes it
/// (see `text_describes`).
pub proof fn law_filter_text_parses_back(f: FilterView)
    requires
        text_describes(f),
    ensures
        spec_parse(filter_text(f)) == Ok::<FilterView, Seq<char>>(f),
        trim(filter_text(f)) == filter_text(f),
{
    lemma_keys_lower_case();
    reveal_strlit(" ");
    let e = FilterView::empty();
    let parts = filter_parts(f);
    let lists = list_part("protocol:"@, f.protocols) + list_part("source:"@, f.sources) + list_part(
        "dest:"@,
        f.destinations,
    );
    let lp = length_part(f);
    assert(parts == lists + lp + f.search_terms);
    assert(" "@ =~= seq![' ']);
    let text = filter_text(f);
    lemma_list_parts(f);
    let v3 = lists_of(f);
    let v4 = FilterView {
        min_length: f.min_length,
        max_length: f.max_length,
        min_exclusive: f.min_exclusive,
        max_exclusive: f.max_exclusive,
        ..v3
    };
    lemma_length_word(v3, f);
    assert(apply_all(v3, lp) == Ok::<FilterView, Seq<char>>(v4));
    lemma_apply_terms(v4, f.search_terms);
    assert(v4.search_terms + f.search_terms =~= f.search_terms);
    lemma_apply_all_concat(e, lists, lp);
    lemma_apply_all_concat(e, lists + lp, f.search_terms);
    assert(apply_all(e, parts) == Ok::<FilterView, Seq<char>>(f));
    if parts.len() == 0 {
        assert(text == Seq::<char>::empty());
        assert(f.protocols =~= e.protocols);
        assert(f.sources =~= e.sources);
        assert(f.destinations =~= e.destinations);
        assert(f.search_terms =~= e.search_terms);
        assert(trim(text) =~= Seq::<char>::empty());
    } else {
        lemma_parts_plain(f);
        assert(parts[0].len() > 0);
        assert(parts.last().len() > 0);
        lemma_join_ends(parts, seq![' ']);
        assert(!is_ws(parts[0][0]));
        assert(!is_ws(parts.last().last()));
        assert(trim_start(text) == text);
        assert(trim_end(text) == text);
        lemma_words_join(parts);
        lemma_apply_words_all(parts, parts.len() as int);
        assert(parts.take(parts.len() as int) =~= parts);
    }
}

/// Editing the active filter and applying its text unchanged keeps the filter, when the
/// text describes it and names at least one condition.
pub proof fn law_reapplied_filter_text_keeps_filter(before: App, editing: App, after: App)
    requires
        before.filter matches Some(f) && text_describes(f@) && filter_text(f@).len() > 0,
        editing.filter_input@ == filter_text(before.filter->0@),
        filter_view(editing.filter) == filter_view(before.filter),
        after.applied_input(editing),
    ensures
        filter_view(after.filter) == filter_view(before.filter),
        after.filter_error is None,
        !after.filter_mode,
{
    law_filter_text_parses_back(before.filter->0@);
}

/// Parsing applies the words of the input, in order, to the empty filter.
pub proof fn lemma_parse_words(input: Seq<char>)
    ensures
        spec_parse(input) == apply_all(FilterView::empty(), words(input)),
{
    let t = trim(input);
    lemma_words_trim(input);
    if t.len() == 0 {
        assert(words(t) == Seq::<Seq<char>>::empty());
    } else {
        lemma_apply_words_all(words(t), words(t).len() as int);
        assert(words(t).take(words(t).len() as int) =~= words(t));
    }
}

/// A non-empty word without white space or a colon is a search term of its own.
proof fn lemma_term_word(g: FilterView, t: Seq<char>)
    requires
        t.len() > 0,
        forall|j: int| 0 <= j < t.len() ==> !is_ws(#[trigger] t[j]) && t[j] != ':',
    ensures
        words(t) == seq![t],
        apply_all(g, seq![t]) == Ok::<FilterView, Seq<char>>(
            FilterView { search_terms: g.search_terms.push(t), ..g },
        ),
{
    assert(plain_words(seq![t])) by {
        assert forall|i: int| 0 <= i < seq![t].len() implies #[trigger] seq![t][i].len() > 0 && forall|j: int|
            0 <= j < seq![t][i].len() ==> !is_ws(#[trigger] seq![t][i][j]) by {
            assert(seq![t][i] == t);
        }
    }
    lemma_words_join(seq![t]);
    assert(join(seq![t], seq![' ']) == t);
    lemma_find_char_at(t, ':', t.len() as int);
    lemma_apply_all_one(g, t);
}

/// Search terms combine with AND: adding a term (a non-empty word without white space or a
/// colon) to a valid filter's text keeps the filter's other conditions and terms and adds the
/// term, so a packet matches the longer text exactly when it matches the filter and the term
/// alone.
pub proof fn law_search_term_narrows(s: Seq<char>, t: Seq<char>, p: PacketInfoView)
    requires
        spec_parse(s) is Ok,
        t.len() > 0,
        forall|j: int| 0 <= j < t.len() ==> !is_ws(#[trigger] t[j]) && t[j] != ':',
    ensures
        spec_parse(t) == Ok::<FilterView, Seq<char>>(
            FilterView { search_terms: seq![t], ..FilterView::empty() },
        ),
        spec_parse(s + " "@ + t) == Ok::<FilterView, Seq<char>>(
            FilterView { search_terms: spec_parse(s)->Ok_0.search_terms.push(t), ..spec_parse(s)->Ok_0 },
        ),
        spec_matches(spec_parse(t)->Ok_0, p) == term_found(t, p),
        spec_matches(spec_parse(s + " "@ + t)->Ok_0, p) == (spec_matches(spec_parse(s)->Ok_0, p)
            && spec_matches(spec_parse(t)->Ok_0, p)),
{
    reveal_strlit(" ");
    let e = FilterView::empty();
    let f = spec_parse(s)->Ok_0;
    lemma_term_word(e, t);
    lemma_parse_words(t);
    assert(e.search_terms.push(t) =~= seq![t]);
    let h = FilterView { search_terms: seq![t], ..e };
    assert(spec_matches(h, p) == term_found(t, p)) by {
        if term_found(t, p) {
            assert forall|i: int| 0 <= i < h.search_terms.len() implies term_found(
                #[trigger] h.search_terms[i],
                p,
            ) by {
                assert(h.search_terms[i] == t);
            }
        } else {
            assert(h.search_terms[0] == t);
        }
    }
    assert(" "@ =~= seq![' ']);
    lemma_words_split_at_ws(s, ' ', t);
    assert(s + " "@ + t =~= s + seq![' '] + t);
    lemma_parse_words(s);
    lemma_parse_words(s + " "@ + t);
    lemma_apply_all_concat(e, words(s), seq![t]);
    lemma_term_word(f, t);
    let g = FilterView { search_terms: f.search_terms.push(t), ..f };
    assert(spec_parse(s + " "@ + t) == Ok::<FilterView, Seq<char>>(g));
    assert(spec_matches(g, p) == (spec_matches(f, p) && term_found(t, p))) by {
        let n = f.search_terms.len();
        if spec_matches(g, p) {
            assert(g.search_terms[n as int] == t);
            assert forall|i: int| 0 <= i < n implies term_found(#[trigger] f.search_terms[i], p) by {
                assert(g.search_terms[i] == f.search_terms[i]);
            }
        }
        if spec_matches(f, p) && term_found(t, p) {
            assert forall|i: int| 0 <= i < g.search_terms.len() implies term_found(
                #[trigger] g.search_terms[i],
                p,
            ) by {
                if i < n {
                    assert(g.search_terms[i] == f.search_terms[i]);
                } else {
                    assert(g.search_terms[i] == t);
                }
            }
        }
    }
}

/// Lowering ASCII text keeps its length and its characters other than the upper-case
/// letters, turns those into lower-case letters, and gives ASCII text that lowering keeps.
pub proof fn lemma_ascii_lower(s: Seq<char>)
    requires
        all_ascii(s),
    ensures
        lowercase(s).len() == s.len(),
        all_ascii(lowercase(s)),
        lowercase(lowercase(s)) == lowercase(s),
        forall|j: int| 0 <= j < s.len() ==> #[trigger] lowercase(s)[j] == s[j] || ('a' <= lowercase(s)[j]
            && lowercase(s)[j] <= 'z'),
{
    let l = lowercase(s);
    assert(l == ascii_lowercase(s));
    assert forall|j: int| 0 <= j < s.len() implies (#[trigger] l[j] as u32) < 128 && (l[j] == s[j] || ('a'
        <= l[j] && l[j] <= 'z')) by {
        assert(l[j] == ascii_lower_char(s[j]));
        assert((s[j] as u32) < 128);
    }
    assert(all_ascii(l));
    assert(lowercase(l) =~= l) by {
        assert forall|j: int| 0 <= j < l.len() implies #[trigger] lowercase(l)[j] == l[j] by {
            assert(lowercase(l)[j] == ascii_lower_char(l[j]));
            assert(l[j] == ascii_lower_char(s[j]));
        }
    }
}

/// `to_lowercase` leaves the key names that a filter's text uses as they are.
pub proof fn lemma_keys_lower_case()
    ensures
        keys_lower_case(),
{
    reveal_strlit("protocol");
    reveal_strlit("source");
    reveal_strlit("dest");
    reveal_strlit("length");
    assert(lowercase("protocol"@) =~= "protocol"@);
    assert(lowercase("source"@) =~= "source"@);
    assert(lowercase("dest"@) =~= "dest"@);
    assert(lowercase("length"@) =~= "length"@);
}

/// The words of an ASCII text are non-empty ASCII strings without white space.
proof fn lemma_words_plain_ascii(s: Seq<char>)
    requires
        all_ascii(s),
    ensures
        plain_words(words(s)),
        forall|i: int| 0 <= i < words(s).len() ==> all_ascii(#[trigger] words(s)[i]),
    decreases s.len(),
{
    if s.len() > 0 {
        if is_ws(s[0]) {
            assert(all_ascii(s.drop_first())) by {
                assert forall|k: int| 0 <= k < s.drop_first().len() implies (#[trigger] s.drop_first()[k] as u32)
                    < 128 by {
                    assert(s.drop_first()[k] == s[k + 1]);
                }
            }
            lemma_words_plain_ascii(s.drop_first());
        } else {
            let n = word_len(s) as int;
            lemma_word_len_ends(s);
            lemma_word_len_bounds(s);
            let w = s.take(n);
            let rest = s.skip(n);
            assert(all_ascii(rest)) by {
                assert forall|k: int| 0 <= k < rest.len() implies (#[trigger] rest[k] as u32) < 128 by {
                    assert(rest[k] == s[k + n]);
                }
            }
            lemma_words_plain_ascii(rest);
            let ws = words(s);
            assert(ws == seq![w] + words(rest));
            assert forall|i: int| 0 <= i < ws.len() implies #[trigger] ws[i].len() > 0 && (forall|j: int|
                0 <= j < ws[i].len() ==> !is_ws(#[trigger] ws[i][j])) && all_ascii(ws[i]) by {
                if i == 0 {
                    assert(ws[i] == w);
                    assert forall|j: int| 0 <= j < w.len() implies !is_ws(#[trigger] w[j]) && (w[j] as u32)
                        < 128 by {
                        assert(w[j] == s[j]);
                    }
                } else {
                    assert(ws[i] == words(rest)[i - 1]);
                }
            }
        }
    }
}

/// The pieces of an ASCII text without white space, split at `c`, are ASCII strings
/// without white space or `c`.
proof fn lemma_split_pieces(s: Seq<char>, c: char)
    requires
        all_ascii(s),
        forall|k: int| 0 <= k < s.len() ==> !is_ws(#[trigger] s[k]),
    ensures
        items_plain(split_on(s, c)),
        none_holds(split_on(s, c), c),
        forall|i: int| 0 <= i < split_on(s, c).len() ==> all_ascii(#[trigger] split_on(s, c)[i]),
    decreases s.len(),
{
    lemma_find_char(s, c);
    let ps = split_on(s, c);
    match find_char(s, c) {
        Some(i) => {
            let rest = s.skip(i + 1);
            assert forall|k: int| 0 <= k < rest.len() implies !is_ws(#[trigger] rest[k]) && (rest[k] as u32)
                < 128 by {
                assert(rest[k] == s[k + i + 1]);
            }
            lemma_split_pieces(rest, c);
            let head = s.take(i);
            assert(ps == seq![head] + split_on(rest, c));
            assert forall|a: int| 0 <= a < ps.len() implies (forall|j: int|
                0 <= j < ps[a].len() ==> !is_ws(#[trigger] ps[a][j]) && ps[a][j] != c) && all_ascii(
                #[trigger] ps[a],
            ) by {
                if a == 0 {
                    assert(ps[a] == head);
                    assert forall|j: int| 0 <= j < head.len() implies !is_ws(#[trigger] head[j]) && head[j]
                        != c && (head[j] as u32) < 128 by {
                        assert(head[j] == s[j]);
                    }
                } else {
                    assert(ps[a] == split_on(rest, c)[a - 1]);
                }
            }
        },
        None => {
            assert(ps == seq![s]);
            assert forall|a: int| 0 <= a < ps.len() implies (forall|j: int|
                0 <= j < ps[a].len() ==> !is_ws(#[trigger] ps[a][j]) && ps[a][j] != c) && all_ascii(
                #[trigger] ps[a],
            ) by {
                assert(ps[a] == s);
            }
        },
    }
}

/// The values of a `protocol:` word of ASCII text are lower-case strings without white
/// space or a comma.
proof fn lemma_protocol_values_ok(value: Seq<char>)
    requires
        all_ascii(value),
        forall|k: int| 0 <= k < value.len() ==> !is_ws(#[trigger] value[k]),
    ensures
        items_plain(protocol_values(value)),
        none_holds(protocol_values(value), ','),
        forall|i: int| 0 <= i < protocol_values(value).len() ==> lowercase(#[trigger] protocol_values(value)[i])
            == protocol_values(value)[i],
{
    let ps = split_on(value, ',');
    lemma_split_pieces(value, ',');
    let vals = protocol_values(value);
    assert forall|i: int| 0 <= i < vals.len() implies (forall|j: int|
        0 <= j < vals[i].len() ==> !is_ws(#[trigger] vals[i][j]) && vals[i][j] != ',') && lowercase(
        #[trigger] vals[i],
    ) == vals[i] by {
        let p = ps[i];
        assert(all_ascii(p));
        lemma_trim_plain(p);
        assert(vals[i] == lowercase(p));
        lemma_ascii_lower(p);
        assert forall|j: int| 0 <= j < vals[i].len() implies !is_ws(#[trigger] vals[i][j]) && vals[i][j]
            != ',' by {
            assert(lowercase(p)[j] == p[j] || ('a' <= lowercase(p)[j] && lowercase(p)[j] <= 'z'));
        }
    }
}

/// The values of a `source:` or `destination:` word of ASCII text hold no white space and no
/// comma.
proof fn lemma_address_values_ok(value: Seq<char>)
    requires
        all_ascii(value),
        forall|k: int| 0 <= k < value.len() ==> !is_ws(#[trigger] value[k]),
    ensures
        items_plain(address_values(value)),
        none_holds(address_values(value), ','),
{
    let ps = split_on(value, ',');
    lemma_split_pieces(value, ',');
    let vals = address_values(value);
    assert forall|i: int, j: int| 0 <= i < vals.len() && 0 <= j < vals[i].len() implies !is_ws(
        #[trigger] vals[i][j],
    ) && vals[i][j] != ',' by {
        lemma_trim_plain(ps[i]);
        assert(vals[i] == ps[i]);
    }
}

/// Lists whose strings hold no white space and no comma, and stay so when joined.
proof fn lemma_lists_join(a: Seq<Seq<char>>, b: Seq<Seq<char>>)
    requires
        items_plain(a),
        none_holds(a, ','),
        items_plain(b),
        none_holds(b, ','),
    ensures
        items_plain(a + b),
        none_holds(a + b, ','),
{
    let ab = a + b;
    assert forall|i: int, j: int| 0 <= i < ab.len() && 0 <= j < ab[i].len() implies !is_ws(
        #[trigger] ab[i][j],
    ) && ab[i][j] != ',' by {
        if i < a.len() {
            assert(ab[i] == a[i]);
        } else {
            assert(ab[i] == b[i - a.len()]);
        }
    }
}

/// A `length:` value that applies keeps the length bounds in the forms that `length_ok`
/// allows, and changes nothing else.
proof fn lemma_apply_length_ok(g: FilterView, value: Seq<char>)
    requires
        length_ok(g),
        apply_length(g, value) is Ok,
    ensures
        length_ok(apply_length(g, value)->Ok_0),
        apply_length(g, value)->Ok_0.protocols == g.protocols,
        apply_length(g, value)->Ok_0.sources == g.sources,
        apply_length(g, value)->Ok_0.destinations == g.destinations,
        apply_length(g, value)->Ok_0.search_terms == g.search_terms,
{
}

/// One word of ASCII text without white space, applied to a filter that its text describes,
/// gives a filter that its text describes.
#[verifier::rlimit(40)]
proof fn lemma_apply_word_describes(g: FilterView, w: Seq<char>)
    requires
        text_describes(g),
        w.len() > 0,
        all_ascii(w),
        forall|j: int| 0 <= j < w.len() ==> !is_ws(#[trigger] w[j]),
        apply_word(g, w) is Ok,
    ensures
        text_describes(apply_word(g, w)->Ok_0),
{
    lemma_find_char(w, ':');
    let h = apply_word(g, w)->Ok_0;
    match find_char(w, ':') {
        Some(i) => {
            let value = w.skip(i + 1);
            assert forall|k: int| 0 <= k < value.len() implies !is_ws(#[trigger] value[k]) && (value[k] as u32)
                < 128 by {
                assert(value[k] == w[k + i + 1]);
            }
            assert(all_ascii(value));
            let k = lowercase(w.take(i));
            if is_protocol_key(k) {
                lemma_protocol_values_ok(value);
                let vals = protocol_values(value);
                lemma_lists_join(g.protocols, vals);
                assert(h.protocols == g.protocols + vals);
                assert forall|a: int| 0 <= a < h.protocols.len() implies lowercase(#[trigger] h.protocols[a])
                    == h.protocols[a] by {
                    if a < g.protocols.len() {
                        assert(h.protocols[a] == g.protocols[a]);
                    } else {
                        assert(h.protocols[a] == vals[a - g.protocols.len()]);
                    }
                }
            } else if is_source_key(k) {
                lemma_address_values_ok(value);
                lemma_lists_join(g.sources, address_values(value));
            } else if is_destination_key(k) {
                lemma_address_values_ok(value);
                lemma_lists_join(g.destinations, address_values(value));
            } else if is_length_key(k) {
                lemma_apply_length_ok(g, value);
            }
        },
        None => {
            let ts = h.search_terms;
            assert(ts == g.search_terms.push(w));
            assert forall|a: int| 0 <= a < ts.len() implies #[trigger] ts[a].len() > 0 && (forall|j: int|
                0 <= j < ts[a].len() ==> !is_ws(#[trigger] ts[a][j]) && ts[a][j] != ':') by {
                if a < g.search_terms.len() {
                    assert(ts[a] == g.search_terms[a]);
                } else {
                    assert(ts[a] == w);
                }
            }
        },
    }
}

/// Words of ASCII text without white space, applied in turn to the empty filter, give a
/// filter that its text describes.
proof fn lemma_apply_all_describes(ws: Seq<Seq<char>>)
    requires
        plain_words(ws),
        forall|i: int| 0 <= i < ws.len() ==> all_ascii(#[trigger] ws[i]),
        apply_all(FilterView::empty(), ws) is Ok,
    ensures
        text_describes(apply_all(FilterView::empty(), ws)->Ok_0),
    decreases ws.len(),
{
    if ws.len() > 0 {
        let d = ws.drop_last();
        assert forall|i: int| 0 <= i < d.len() implies #[trigger] d[i].len() > 0 && (forall|j: int|
            0 <= j < d[i].len() ==> !is_ws(#[trigger] d[i][j])) && all_ascii(d[i]) by {
            assert(d[i] == ws[i]);
        }
        lemma_apply_all_describes(d);
        let w = ws.last();
        assert(w == ws[ws.len() - 1]);
        lemma_apply_word_describes(apply_all(FilterView::empty(), d)->Ok_0, w);
    } else {
        let e = FilterView::empty();
        assert(apply_all(e, ws) == Ok::<FilterView, Seq<char>>(e));
        assert(text_describes(e));
    }
}

/// Reading back the text of a filter parsed from ASCII input gives the same filter.
pub proof fn law_parsed_filter_text_parses_back(input: Seq<char>)
    requires
        all_ascii(input),
        spec_parse(input) is Ok,
    ensures
        spec_parse(filter_text(spec_parse(input)->Ok_0)) == spec_parse(input),
{
    lemma_parse_words(input);
    lemma_words_plain_ascii(input);
    lemma_apply_all_describes(words(input));
    law_filter_text_parses_back(spec_parse(input)->Ok_0);
}

/// A word made of a key name, a colon and a value without white space or commas is a single
/// word that parsing applies alone, and its value lists exactly itself.
proof fn lemma_named_word(name: Seq<char>, a: Seq<char>)
    requires
        name.len() > 0,
        forall|k: int| 0 <= k < name.len() ==> #[trigger] name[k] != ':' && !is_ws(name[k]),
        forall|j: int| 0 <= j < a.len() ==> !is_ws(#[trigger] a[j]) && a[j] != ',',
    ensures
        find_char(name + ":"@ + a, ':') == Some(name.len() as int),
        (name + ":"@ + a).take(name.len() as int) == name,
        (name + ":"@ + a).skip(name.len() as int + 1) == a,
        address_values(a) == seq![a],
        split_on(a, ',') == seq![a],
        trim(a) == a,
        spec_parse(name + ":"@ + a) == apply_word(FilterView::empty(), name + ":"@ + a),
{
    reveal_strlit(":");
    reveal_strlit(",");
    let key = name + ":"@;
    let w = key + a;
    assert(name + ":"@ + a == w);
    assert forall|k: int| 0 <= k < key.len() - 1 implies key[k] != ':' by {
        assert(key[k] == name[k]);
    }
    lemma_split_key(key, a);
    assert(key.drop_last() =~= name);
    assert forall|j: int| 0 <= j < w.len() implies !is_ws(#[trigger] w[j]) by {
        if j < name.len() {
            assert(w[j] == name[j]);
        } else if j > name.len() {
            assert(w[j] == a[j - name.len() - 1]);
        }
    }
    let list = seq![w];
    assert(plain_words(list)) by {
        assert forall|i: int| 0 <= i < list.len() implies #[trigger] list[i].len() > 0 && forall|j: int|
            0 <= j < list[i].len() ==> !is_ws(#[trigger] list[i][j]) by {
            assert(list[i] == w);
        }
    }
    lemma_words_join(list);
    assert(join(list, seq![' ']) == w);
    lemma_parse_words(w);
    lemma_apply_all_one(FilterView::empty(), w);
    let vals = seq![a];
    assert(none_holds(vals, ',')) by {
        assert forall|i: int, j: int| 0 <= i < vals.len() && 0 <= j < vals[i].len() implies vals[i][j]
            != ',' by {
            assert(vals[i] == a);
        }
    }
    assert(items_plain(vals)) by {
        assert forall|i: int, j: int| 0 <= i < vals.len() && 0 <= j < vals[i].len() implies !is_ws(
            vals[i][j],
        ) by {
            assert(vals[i] == a);
        }
    }
    lemma_values_back(vals);
    assert(join(vals, ","@) == a);
    assert(address_values(a) =~= vals);
}

/// The filter whose only condition is the list of sources `s`.
pub open spec fn sources_only(s: Seq<Seq<char>>) -> FilterView {
    FilterView { sources: s, ..FilterView::empty() }
}

/// The filter whose only condition is the list of destinations `d`.
pub open spec fn destinations_only(d: Seq<Seq<char>>) -> FilterView {
    FilterView { destinations: d, ..FilterView::empty() }
}

/// The key `name` (one of `source` and `src` when `source`, else one of `destination`,
/// `dest` and `dst`) followed by a colon and `a` gives the filter whose only condition is `a`
/// in the list that the key names.
proof fn lemma_address_key(name: Seq<char>, a: Seq<char>, source: bool)
    requires
        forall|j: int| 0 <= j < a.len() ==> !is_ws(#[trigger] a[j]) && a[j] != ',',
        source ==> name == "source"@ || name == "src"@,
        !source ==> name == "destination"@ || name == "dest"@ || name == "dst"@,
    ensures
        spec_parse(name + ":"@ + a) == Ok::<FilterView, Seq<char>>(
            if source {
                sources_only(seq![a])
            } else {
                destinations_only(seq![a])
            },
        ),
{
    reveal_strlit("source");
    reveal_strlit("src");
    reveal_strlit("destination");
    reveal_strlit("dest");
    reveal_strlit("dst");
    reveal_strlit("protocol");
    reveal_strlit("proto");
    assert(name.len() > 0);
    assert(forall|k: int| 0 <= k < name.len() ==> #[trigger] name[k] != ':' && !is_ws(name[k]));
    lemma_named_word(name, a);
    assert(lowercase(name) =~= name);
    assert(!is_protocol_key(name));
    assert(source == is_source_key(name));
    assert(!source ==> is_destination_key(name));
    let e = FilterView::empty();
    assert(e.sources + seq![a] =~= seq![a]);
    assert(e.destinations + seq![a] =~= seq![a]);
}

/// `source:A` and `src:A` give the filter whose only condition is the source `A`;
/// `destination:A`, `dest:A` and `dst:A` give the filter whose only condition is the
/// destination `A` (for an address `A` without white space or commas).
pub proof fn law_address_keys(a: Seq<char>)
    requires
        forall|j: int| 0 <= j < a.len() ==> !is_ws(#[trigger] a[j]) && a[j] != ',',
    ensures
        spec_parse("source:"@ + a) == Ok::<FilterView, Seq<char>>(sources_only(seq![a])),
        spec_parse("src:"@ + a) == Ok::<FilterView, Seq<char>>(sources_only(seq![a])),
        spec_parse("destination:"@ + a) == Ok::<FilterView, Seq<char>>(destinations_only(seq![a])),
        spec_parse("dest:"@ + a) == Ok::<FilterView, Seq<char>>(destinations_only(seq![a])),
        spec_parse("dst:"@ + a) == Ok::<FilterView, Seq<char>>(destinations_only(seq![a])),
{
    reveal_strlit(":");
    reveal_strlit("source");
    reveal_strlit("src");
    reveal_strlit("destination");
    reveal_strlit("dest");
    reveal_strlit("dst");
    reveal_strlit("source:");
    reveal_strlit("src:");
    reveal_strlit("destination:");
    reveal_strlit("dest:");
    reveal_strlit("dst:");
    assert("source:"@ =~= "source"@ + ":"@);
    assert("src:"@ =~= "src"@ + ":"@);
    assert("destination:"@ =~= "destination"@ + ":"@);
    assert("dest:"@ =~= "dest"@ + ":"@);
    assert("dst:"@ =~= "dst"@ + ":"@);
    lemma_address_key("source"@, a, true);
    lemma_address_key("src"@, a, true);
    lemma_address_key("destination"@, a, false);
    lemma_address_key("dest"@, a, false);
    lemma_address_key("dst"@, a, false);
}

/// A filter that lists only source addresses lets a packet through exactly when the packet's
/// source address is one of them, whatever its destination.
pub proof fn law_source_filter(s: Seq<Seq<char>>, p: PacketInfoView)
    requires
        s.len() > 0,
    ensures
        spec_matches(sources_only(s), p) == s.contains(p.source),
{
}

/// A filter that lists only destination addresses lets a packet through exactly when the
/// packet's destination address is one of them, whatever its source.
pub proof fn law_destination_filter(d: Seq<Seq<char>>, p: PacketInfoView)
    requires
        d.len() > 0,
    ensures
        spec_matches(destinations_only(d), p) == d.contains(p.destination),
{
}

/// Each condition of a filter holds of every packet it lets through: its source is listed
/// when sources are, its destination when destinations are, its lower-cased protocol holds a
/// listed protocol when protocols are, its length is above a lower bound (strictly for
/// `length:>`) and below an upper one (strictly for `length:<`), and every search term occurs
/// in it; and a packet that meets all of these is let through.
pub proof fn law_filter_conditions(f: FilterView, p: PacketInfoView)
    ensures
        spec_matches(f, p) == {
            &&& (f.sources.len() > 0 ==> f.sources.contains(p.source))
            &&& (f.destinations.len() > 0 ==> f.destinations.contains(p.destination))
            &&& (f.protocols.len() > 0 ==> exists|q: Seq<char>| #[trigger] f.protocols.contains(q) && crate::text::contains(lowercase(p.protocol), q))
            &&& (f.min_length is Some && f.min_exclusive ==> p.length > f.min_length->Some_0)
            &&& (f.min_length is Some && !f.min_exclusive ==> p.length >= f.min_length->Some_0)
            &&& (f.max_length is Some && f.max_exclusive ==> p.length < f.max_length->Some_0)
            &&& (f.max_length is Some && !f.max_exclusive ==> p.length <= f.max_length->Some_0)
            &&& (forall|t: Seq<char>| #[trigger] f.search_terms.contains(t) ==> term_found(t, p))
        },
{
    if f.protocols.len() > 0 {
        if exists|q: Seq<char>| #[trigger] f.protocols.contains(q) && crate::text::contains(lowercase(p.protocol), q) {
            let q = choose|q: Seq<char>| #[trigger] f.protocols.contains(q) && crate::text::contains(lowercase(p.protocol), q);
            let i = choose|i: int| 0 <= i < f.protocols.len() && f.protocols[i] == q;
            assert(crate::text::contains(lowercase(p.protocol), f.protocols[i]));
        }
        if exists|i: int| 0 <= i < f.protocols.len() && crate::text::contains(lowercase(p.protocol), #[trigger] f.protocols[i]) {
            let i = choose|i: int| 0 <= i < f.protocols.len() && crate::text::contains(lowercase(p.protocol), #[trigger] f.protocols[i]);
            assert(f.protocols.contains(f.protocols[i]));
        }
    }
    if forall|t: Seq<char>| #[trigger] f.search_terms.contains(t) ==> term_found(t, p) {
        assert forall|i: int| 0 <= i < f.search_terms.len() implies term_found(#[trigger] f.search_terms[i], p) by {
            assert(f.search_terms.contains(f.search_terms[i]));
        }
    }
    if forall|i: int| 0 <= i < f.search_terms.len() ==> term_found(#[trigger] f.search_terms[i], p) {
        assert forall|t: Seq<char>| #[trigger] f.search_terms.contains(t) implies term_found(t, p) by {
            let i = choose|i: int| 0 <= i < f.search_terms.len() && f.search_terms[i] == t;
        }
    }
}

/// Parsing `src:A` (or another source key) and matching: a packet is let through exactly when
/// its source address is `A`; for `dst:A` (or another destination key), exactly when its
/// destination address is `A`.
pub proof fn law_address_filter_text(a: Seq<char>, p: PacketInfoView)
    requires
        forall|j: int| 0 <= j < a.len() ==> !is_ws(#[trigger] a[j]) && a[j] != ',',
    ensures
        spec_parse("src:"@ + a) matches Ok(f) && spec_matches(f, p) == (p.source == a),
        spec_parse("source:"@ + a) matches Ok(f) && spec_matches(f, p) == (p.source == a),
        spec_parse("dst:"@ + a) matches Ok(f) && spec_matches(f, p) == (p.destination == a),
        spec_parse("dest:"@ + a) matches Ok(f) && spec_matches(f, p) == (p.destination == a),
        spec_parse("destination:"@ + a) matches Ok(f) && spec_matches(f, p) == (p.destination == a),
{
    law_address_keys(a);
    law_source_filter(seq![a], p);
    law_destination_filter(seq![a], p);
    assert(seq![a].contains(p.source) == (p.source == a)) by {
        if p.source == a {
            assert(seq![a][0] == a);
        }
    }
    assert(seq![a].contains(p.destination) == (p.destination == a)) by {
        if p.destination == a {
            assert(seq![a][0] == a);
        }
    }
}

/// `protocol:P` and `proto:P` give the filter whose only condition is the protocol `P` in
/// lower case (for ASCII `P` without white space or commas).
pub proof fn law_protocol_keys(a: Seq<char>)
    requires
        all_ascii(a),
        forall|j: int| 0 <= j < a.len() ==> !is_ws(#[trigger] a[j]) && a[j] != ',',
    ensures
        spec_parse("protocol:"@ + a) == Ok::<FilterView, Seq<char>>(
            FilterView { protocols: seq![ascii_lowercase(a)], ..FilterView::empty() },
        ),
        spec_parse("proto:"@ + a) == Ok::<FilterView, Seq<char>>(
            FilterView { protocols: seq![ascii_lowercase(a)], ..FilterView::empty() },
        ),
{
    reveal_strlit(":");
    reveal_strlit("protocol");
    reveal_strlit("proto");
    reveal_strlit("protocol:");
    reveal_strlit("proto:");
    assert("protocol:"@ =~= "protocol"@ + ":"@);
    assert("proto:"@ =~= "proto"@ + ":"@);
    lemma_named_word("protocol"@, a);
    lemma_named_word("proto"@, a);
    assert(lowercase("protocol"@) =~= "protocol"@);
    assert(lowercase("proto"@) =~= "proto"@);
    assert(protocol_values(a) =~= seq![ascii_lowercase(a)]) by {
        assert(protocol_values(a)[0] == lowercase(trim(a)));
    }
    assert(FilterView::empty().protocols + seq![ascii_lowercase(a)] =~= seq![ascii_lowercase(a)]);
}

/// The characters of a number's decimal text are digits: no white space and no comma.
proof fn lemma_number_chars(n: usize)
    ensures
        forall|j: int| 0 <= j < decimal(n as nat).len() ==> !is_ws(#[trigger] decimal(n as nat)[j])
            && decimal(n as nat)[j] != ',',
{
    lemma_decimal_digits(n as nat);
    assert forall|j: int| 0 <= j < decimal(n as nat).len() implies !is_ws(#[trigger] decimal(n as nat)[j])
        && decimal(n as nat)[j] != ',' by {
        assert(is_digit(decimal(n as nat)[j]));
    }
}

/// `length:` followed by a sign and a number, or by a number, or by two numbers and a dash,
/// is a single word that parsing applies alone.
proof fn lemma_length_text(value: Seq<char>)
    requires
        forall|j: int| 0 <= j < value.len() ==> !is_ws(#[trigger] value[j]) && value[j] != ',',
    ensures
        spec_parse("length:"@ + value) == apply_word(FilterView::empty(), "length:"@ + value),
{
    reveal_strlit("length:");
    reveal_strlit("length");
    reveal_strlit(":");
    assert("length:"@ =~= "length"@ + ":"@);
    lemma_named_word("length"@, value);
}

/// `length:>N` lets through exactly the packets longer than `N` bytes, `length:<N` exactly
/// those shorter than `N`, `length:N` exactly those of `N` bytes, and `length:A-B` (with
/// `A <= B`) exactly those of `A` to `B` bytes, both included.
#[verifier::rlimit(30)]
pub proof fn law_length_filter_text(a: usize, b: usize, p: PacketInfoView)
    ensures
        spec_parse(above_word(a)) matches Ok(f) && spec_matches(f, p) == (p.length > a),
        spec_parse(below_word(a)) matches Ok(f) && spec_matches(f, p) == (p.length < a),
        spec_parse(exact_word(a)) matches Ok(f) && spec_matches(f, p) == (p.length == a),
        a <= b ==> (spec_parse(range_word(a, b)) matches Ok(f) && spec_matches(f, p) == (a <= p.length
            <= b)),
{
    reveal_strlit("length:");
    reveal_strlit("length:>");
    reveal_strlit("length:<");
    reveal_strlit("-");
    lemma_keys_lower_case();
    let e = FilterView::empty();
    let da = decimal(a as nat);
    let db = decimal(b as nat);
    lemma_number_chars(a);
    lemma_number_chars(b);
    let above = seq!['>'] + da;
    let below = seq!['<'] + da;
    assert forall|j: int| 0 <= j < above.len() implies !is_ws(#[trigger] above[j]) && above[j] != ',' by {
        if j > 0 {
            assert(above[j] == da[j - 1]);
        }
    }
    assert forall|j: int| 0 <= j < below.len() implies !is_ws(#[trigger] below[j]) && below[j] != ',' by {
        if j > 0 {
            assert(below[j] == da[j - 1]);
        }
    }
    assert(above_word(a) =~= "length:"@ + above);
    assert(below_word(a) =~= "length:"@ + below);
    lemma_length_text(above);
    lemma_length_text(below);
    lemma_length_text(da);
    lemma_length_one_side(e, a, false);
    lemma_length_one_side(e, a, true);
    lemma_length_exact(e, a);
    if a <= b {
        let r = da + "-"@ + db;
        assert forall|j: int| 0 <= j < r.len() implies !is_ws(#[trigger] r[j]) && r[j] != ',' by {
            if j < da.len() {
                assert(r[j] == da[j]);
            } else if j > da.len() {
                assert(r[j] == db[j - da.len() - 1]);
            }
        }
        assert(range_word(a, b) =~= "length:"@ + r);
        lemma_length_text(r);
        lemma_length_range(e, a, b);
    }
}

/// A search term is looked for in three places, and found in any of them: the packet's
/// summary and its protocol name, both compared in lower case, and its raw bytes, where ASCII
/// letters match in either case.
pub proof fn law_search_term_found(t: Seq<char>, p: PacketInfoView)
    ensures
        term_found(t, p) == (crate::text::contains(lowercase(p.info), lowercase(t))
            || crate::text::contains(lowercase(p.protocol), lowercase(t))
            || crate::text::contains_ignore_ascii_case(p.raw, vstd::utf8::encode_utf8(t))),
{
}

} // verus!
