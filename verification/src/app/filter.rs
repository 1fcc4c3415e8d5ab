//! Packet filtering with a GitHub-like `key:value` syntax.
use vstd::prelude::*;
use crate::app::packet_info::{clone_strings, PacketInfo, PacketInfoView};
use crate::text::{
    chars_eq, chars_of, contains, contains_chars, contains_ignore_ascii_case, bytes_contain_ignore_ascii_case,
    decimal, decimal_string, find_char, find_char_in, lowercase, parse_unsigned, parse_unsigned_in,
    split_bounds, split_on, string_from_chars, to_lowercase, trim, trim_bounds, word_bounds, words,
    strings_view, join, join_strings, push_str, push_radix_digits, string_of,
};
use vstd::utf8::encode_utf8;
use vstd::string::{StringExecFns, StringSliceAdditionalSpecFns};

verus! {

/// Packet filter supporting GitHub-like syntax.
///
/// - `HTTP` - Search for "HTTP" in packet data
/// - `protocol:tcp` - Filter by protocol
/// - `protocol:tcp,udp` - Multiple protocols (OR)
/// - `source:192.168.1.1` - Exact source IP
/// - `dest:8.8.8.8` - Destination IP
/// - `length:>1000` - Longer than 1000 bytes
/// - `length:<500` - Shorter than 500 bytes
/// - `length:100-1500` - Length range
/// - `HTTP proto:tcp` - Search for "HTTP" in TCP packets
///
/// Multiple filters are combined with AND logic.
#[derive(Debug)]
pub struct PacketFilter {
    /// Protocols to match (OR logic within this list)
    protocols: Vec<String>,
    /// Source addresses to match (OR logic)
    sources: Vec<String>,
    /// Destination addresses to match (OR logic)
    destinations: Vec<String>,
    /// Lower bound on the packet length
    min_length: Option<usize>,
    /// Upper bound on the packet length
    max_length: Option<usize>,
    /// Whether a packet must be strictly longer than `min_length`
    min_exclusive: bool,
    /// Whether a packet must be strictly shorter than `max_length`
    max_exclusive: bool,
    /// Search terms (text to find in packet data or summary)
    search_terms: Vec<String>,
}

/// The conditions a filter holds.
pub struct FilterView {
    /// Protocols to match, lower case.
    pub protocols: Seq<Seq<char>>,
    /// Source addresses to match.
    pub sources: Seq<Seq<char>>,
    /// Destination addresses to match.
    pub destinations: Seq<Seq<char>>,
    /// Lower bound on the packet length.
    pub min_length: Option<usize>,
    /// Upper bound on the packet length.
    pub max_length: Option<usize>,
    /// Whether the lower bound is strict (`length:>N`).
    pub min_exclusive: bool,
    /// Whether the upper bound is strict (`length:<N`).
    pub max_exclusive: bool,
    /// Search terms.
    pub search_terms: Seq<Seq<char>>,
}

impl View for PacketFilter {
    type V = FilterView;

    closed spec fn view(&self) -> FilterView {
        FilterView {
            protocols: strings_view(self.protocols@),
            sources: strings_view(self.sources@),
            destinations: strings_view(self.destinations@),
            min_length: self.min_length,
            max_length: self.max_length,
            min_exclusive: self.min_exclusive,
            max_exclusive: self.max_exclusive,
            search_terms: strings_view(self.search_terms@),
        }
    }
}

impl FilterView {
    /// The filter that lets every packet through.
    pub open spec fn empty() -> FilterView {
        FilterView {
            protocols: seq![],
            sources: seq![],
            destinations: seq![],
            min_length: None,
            max_length: None,
            min_exclusive: false,
            max_exclusive: false,
            search_terms: seq![],
        }
    }

    /// Every search term has at least one character.
    pub open spec fn wf(self) -> bool {
        forall|i: int| 0 <= i < self.search_terms.len() ==> #[trigger] self.search_terms[i].len() > 0
    }
}

/// The message for a key that the filter does not know.
pub open spec fn unknown_key_message(key: Seq<char>) -> Seq<char> {
    "Unknown filter key: '"@ + key + "'. Supported: protocol, source, destination, length"@
}

/// The message for a length that is not a number.
pub open spec fn invalid_length_message(value: Seq<char>) -> Seq<char> {
    "Invalid length value: '"@ + value + "'"@
}

/// The message for a range bound that is not a number.
pub open spec fn invalid_range_message(value: Seq<char>) -> Seq<char> {
    "Invalid length range: '"@ + value + "'"@
}

/// The message for a range with other than two bounds.
pub open spec fn range_shape_message(value: Seq<char>) -> Seq<char> {
    "Invalid length range: '"@ + value + "'. Expected 'min-max'"@
}

/// The message for a range whose lower bound exceeds its upper bound.
pub open spec fn reversed_range_message(min: nat, max: nat) -> Seq<char> {
    "Invalid range: min ("@ + decimal(min) + ") > max ("@ + decimal(max) + ")"@
}

/// A length written in a filter, as a `usize`.
pub open spec fn parse_length(s: Seq<char>) -> Option<nat> {
    parse_unsigned(s, usize::MAX as nat)
}

/// The filter after applying a `length:` value to `f`.
pub open spec fn apply_length(f: FilterView, value: Seq<char>) -> Result<FilterView, Seq<char>> {
    let v = trim(value);
    if v.len() > 0 && v[0] == '>' {
        match parse_length(trim(v.drop_first())) {
            Some(n) => Ok(FilterView { min_length: Some(n as usize), min_exclusive: true, ..f }),
            None => Err(invalid_length_message(v)),
        }
    } else if v.len() > 0 && v[0] == '<' {
        match parse_length(trim(v.drop_first())) {
            Some(n) => Ok(FilterView { max_length: Some(n as usize), max_exclusive: true, ..f }),
            None => Err(invalid_length_message(v)),
        }
    } else if find_char(v, '-') is Some {
        let parts = split_on(v, '-');
        if parts.len() == 2 {
            match parse_length(trim(parts[0])) {
                None => Err(invalid_range_message(v)),
                Some(min) => match parse_length(trim(parts[1])) {
                    None => Err(invalid_range_message(v)),
                    Some(max) => if min > max {
                        Err(reversed_range_message(min, max))
                    } else {
                        Ok(
                            FilterView {
                                min_length: Some(min as usize),
                                max_length: Some(max as usize),
                                min_exclusive: false,
                                max_exclusive: false,
                                ..f
                            },
                        )
                    },
                },
            }
        } else {
            Err(range_shape_message(v))
        }
    } else {
        match parse_length(v) {
            Some(n) => Ok(
                FilterView {
                    min_length: Some(n as usize),
                    max_length: Some(n as usize),
                    min_exclusive: false,
                    max_exclusive: false,
                    ..f
                },
            ),
            None => Err(invalid_length_message(v)),
        }
    }
}

/// The protocol names that a `protocol:` value lists, lower case.
pub open spec fn protocol_values(value: Seq<char>) -> Seq<Seq<char>> {
    split_on(value, ',').map_values(|p: Seq<char>| lowercase(trim(p)))
}

/// The addresses that a `source:` or `destination:` value lists.
pub open spec fn address_values(value: Seq<char>) -> Seq<Seq<char>> {
    split_on(value, ',').map_values(|p: Seq<char>| trim(p))
}

/// Whether a lower-cased key names the protocol filter.
pub open spec fn is_protocol_key(k: Seq<char>) -> bool {
    k == "protocol"@ || k == "proto"@
}

/// Whether a lower-cased key names the source filter.
pub open spec fn is_source_key(k: Seq<char>) -> bool {
    k == "source"@ || k == "src"@
}

/// Whether a lower-cased key names the destination filter.
pub open spec fn is_destination_key(k: Seq<char>) -> bool {
    k == "destination"@ || k == "dest"@ || k == "dst"@
}

/// Whether a lower-cased key names the length filter.
pub open spec fn is_length_key(k: Seq<char>) -> bool {
    k == "length"@ || k == "len"@
}

/// The filter after applying one word of the input to `f`.
pub open spec fn apply_word(f: FilterView, w: Seq<char>) -> Result<FilterView, Seq<char>> {
    match find_char(w, ':') {
        Some(i) => {
            let key = w.take(i);
            let value = w.skip(i + 1);
            let k = lowercase(key);
            if is_protocol_key(k) {
                Ok(FilterView { protocols: f.protocols + protocol_values(value), ..f })
            } else if is_source_key(k) {
                Ok(FilterView { sources: f.sources + address_values(value), ..f })
            } else if is_destination_key(k) {
                Ok(FilterView { destinations: f.destinations + address_values(value), ..f })
            } else if is_length_key(k) {
                apply_length(f, value)
            } else {
                Err(unknown_key_message(key))
            }
        },
        None => Ok(FilterView { search_terms: f.search_terms.push(w), ..f }),
    }
}

/// The filter after applying the first `n` words, starting from the empty filter.
pub open spec fn apply_words(ws: Seq<Seq<char>>, n: int) -> Result<FilterView, Seq<char>>
    decreases n,
{
    if n <= 0 {
        Ok(FilterView::empty())
    } else {
        match apply_words(ws, n - 1) {
            Ok(f) => apply_word(f, ws[n - 1]),
            Err(e) => Err(e),
        }
    }
}

/// What `PacketFilter::parse` gives for an input with the characters `input`.
pub open spec fn spec_parse(input: Seq<char>) -> Result<FilterView, Seq<char>> {
    let t = trim(input);
    if t.len() == 0 {
        Ok(FilterView::empty())
    } else {
        apply_words(words(t), words(t).len() as int)
    }
}

/// Once a word is refused, the refusal stands whatever words follow.
pub proof fn lemma_apply_words_err(ws: Seq<Seq<char>>, n: int, m: int)
    requires
        0 <= n <= m,
        apply_words(ws, n) is Err,
    ensures
        apply_words(ws, m) == apply_words(ws, n),
    decreases m - n,
{
    if m > n {
        lemma_apply_words_err(ws, n, m - 1);
    }
}

/// Whether a search term occurs in the packet: in its summary or protocol ignoring case,
/// or in its raw bytes ignoring ASCII case.
pub open spec fn term_found(term: Seq<char>, p: PacketInfoView) -> bool {
    ||| contains(lowercase(p.info), lowercase(term))
    ||| contains(lowercase(p.protocol), lowercase(term))
    ||| contains_ignore_ascii_case(p.raw, encode_utf8(term))
}

/// Whether a packet satisfies every condition of a filter.
pub open spec fn spec_matches(f: FilterView, p: PacketInfoView) -> bool {
    &&& (f.protocols.len() > 0 ==> exists|i: int|
        0 <= i < f.protocols.len() && contains(lowercase(p.protocol), #[trigger] f.protocols[i]))
    &&& (f.sources.len() > 0 ==> exists|i: int|
        0 <= i < f.sources.len() && p.source == #[trigger] f.sources[i])
    &&& (f.destinations.len() > 0 ==> exists|i: int|
        0 <= i < f.destinations.len() && p.destination == #[trigger] f.destinations[i])
    &&& (f.min_length matches Some(m) ==> if f.min_exclusive { p.length > m } else { p.length >= m })
    &&& (f.max_length matches Some(m) ==> if f.max_exclusive { p.length < m } else { p.length <= m })
    &&& forall|i: int| 0 <= i < f.search_terms.len() ==> term_found(#[trigger] f.search_terms[i], p)
}

/// `prefix`, then the characters `cs[lo..hi]`, then `suffix`.
fn quoted_message(prefix: &str, cs: &[char], lo: usize, hi: usize, suffix: &str) -> (m: String)
    requires
        lo <= hi <= cs@.len(),
    ensures
        m@ == prefix@ + cs@.subrange(lo as int, hi as int) + suffix@,
{
    let mut m = String::from_str(prefix);
    let mid = string_from_chars(cs, lo, hi);
    m.append(mid.as_str());
    m.append(suffix);
    m
}

impl Clone for PacketFilter {
    fn clone(&self) -> (r: Self)
        ensures
            r@ == self@,
    {
        PacketFilter {
            protocols: clone_strings(&self.protocols),
            sources: clone_strings(&self.sources),
            destinations: clone_strings(&self.destinations),
            min_length: self.min_length,
            max_length: self.max_length,
            min_exclusive: self.min_exclusive,
            max_exclusive: self.max_exclusive,
            search_terms: clone_strings(&self.search_terms),
        }
    }
}

impl Default for PacketFilter {
    fn default() -> (f: Self)
        ensures
            f@ == FilterView::empty(),
    {
        let f = PacketFilter {
            protocols: Vec::new(),
            sources: Vec::new(),
            destinations: Vec::new(),
            min_length: None,
            max_length: None,
            min_exclusive: false,
            max_exclusive: false,
            search_terms: Vec::new(),
        };
        assert(f@.protocols =~= seq![]);
        assert(f@.sources =~= seq![]);
        assert(f@.destinations =~= seq![]);
        assert(f@.search_terms =~= seq![]);
        f
    }
}

/// Appends to `out` the strings `map(cs[lo..hi])` for each piece of `cs[lo..hi]` between commas,
/// trimmed, and lower-cased when `lower` holds.
fn push_comma_values(out: &mut Vec<String>, cs: &[char], lo: usize, hi: usize, lower: bool)
    requires
        lo <= hi <= cs@.len(),
    ensures
        strings_view(final(out)@) == strings_view(old(out)@) + (if lower {
            protocol_values(cs@.subrange(lo as int, hi as int))
        } else {
            address_values(cs@.subrange(lo as int, hi as int))
        }),
{
    let ghost value = cs@.subrange(lo as int, hi as int);
    let ghost target = if lower {
        protocol_values(value)
    } else {
        address_values(value)
    };
    let pieces = split_bounds(cs, lo, hi, ',');
    let ghost start = strings_view(out@);
    let mut i: usize = 0;
    while i < pieces.len()
        invariant
            lo <= hi <= cs@.len(),
            value == cs@.subrange(lo as int, hi as int),
            target == (if lower {
                protocol_values(value)
            } else {
                address_values(value)
            }),
            pieces@.len() == split_on(value, ',').len(),
            forall|k: int|
                0 <= k < pieces@.len() ==> lo <= (#[trigger] pieces@[k]).0 <= pieces@[k].1 <= hi
                    && cs@.subrange(pieces@[k].0 as int, pieces@[k].1 as int) == split_on(
                    value,
                    ',',
                )[k],
            i <= pieces@.len(),
            strings_view(out@) == start + target.take(i as int),
        decreases pieces@.len() - i,
    {
        let (a, b) = pieces[i];
        let (x, y) = trim_bounds(cs, a, b);
        let s = if lower {
            let low = to_lowercase(cs, x, y);
            string_from_chars(low.as_slice(), 0, low.len())
        } else {
            string_from_chars(cs, x, y)
        };
        proof {
            assert(cs@.subrange(a as int, b as int) == split_on(value, ',')[i as int]);
            if lower {
                assert(target[i as int] == lowercase(trim(split_on(value, ',')[i as int])));
                assert(s@ =~= target[i as int]);
            } else {
                assert(target[i as int] == trim(split_on(value, ',')[i as int]));
            }
        }
        let ghost before = out@;
        out.push(s);
        i = i + 1;
        assert(strings_view(out@) =~= strings_view(before).push(s@));
        assert(strings_view(out@) =~= start + target.take(i as int));
    }
    assert(target.take(i as int) =~= target);
}

impl PacketFilter {
    /// Protocols to match (OR logic), lower case.
    pub fn protocols(&self) -> (r: &Vec<String>)
        ensures
            strings_view(r@) == self@.protocols,
    {
        &self.protocols
    }

    /// Source addresses to match (OR logic).
    pub fn sources(&self) -> (r: &Vec<String>)
        ensures
            strings_view(r@) == self@.sources,
    {
        &self.sources
    }

    /// Destination addresses to match (OR logic).
    pub fn destinations(&self) -> (r: &Vec<String>)
        ensures
            strings_view(r@) == self@.destinations,
    {
        &self.destinations
    }

    /// Lower bound on the packet length: `N` for `length:>N`, `length:N` and `length:N-M`.
    pub fn min_length(&self) -> (r: Option<usize>)
        ensures
            r == self@.min_length,
    {
        self.min_length
    }

    /// Upper bound on the packet length: `N` for `length:<N`, `length:N` and `length:M-N`.
    pub fn max_length(&self) -> (r: Option<usize>)
        ensures
            r == self@.max_length,
    {
        self.max_length
    }

    /// Whether packets must be strictly longer than `min_length` (`length:>N`).
    pub fn min_exclusive(&self) -> (r: bool)
        ensures
            r == self@.min_exclusive,
    {
        self.min_exclusive
    }

    /// Whether packets must be strictly shorter than `max_length` (`length:<N`).
    pub fn max_exclusive(&self) -> (r: bool)
        ensures
            r == self@.max_exclusive,
    {
        self.max_exclusive
    }

    /// Search terms (AND logic).
    pub fn search_terms(&self) -> (r: &Vec<String>)
        ensures
            strings_view(r@) == self@.search_terms,
    {
        &self.search_terms
    }

    /// Parse length filter syntax held in `cs[lo..hi]`:
    /// `>100` longer than, `<500` shorter than, `100-500` inclusive range, `100` exact length.
    fn parse_length_filter(cs: &[char], lo: usize, hi: usize, filter: &mut Self) -> (res: Result<(), String>)
        requires
            lo <= hi <= cs@.len(),
        ensures
            match apply_length(old(filter)@, cs@.subrange(lo as int, hi as int)) {
                Ok(f) => res is Ok && final(filter)@ == f,
                Err(e) => res matches Err(m) && m@ == e && final(filter)@ == old(filter)@,
            },
    {
        let (a, b) = trim_bounds(cs, lo, hi);
        let ghost v = cs@.subrange(a as int, b as int);
        if a < b && cs[a] == '>' {
            let (x, y) = trim_bounds(cs, a + 1, b);
            assert(v.drop_first() =~= cs@.subrange(a + 1, b as int));
            match parse_unsigned_in(cs, x, y, usize::MAX as u64) {
                Some(n) => {
                    filter.min_length = Some(n as usize);
                    filter.min_exclusive = true;
                    Ok(())
                },
                None => Err(quoted_message("Invalid length value: '", cs, a, b, "'")),
            }
        } else if a < b && cs[a] == '<' {
            let (x, y) = trim_bounds(cs, a + 1, b);
            assert(v.drop_first() =~= cs@.subrange(a + 1, b as int));
            match parse_unsigned_in(cs, x, y, usize::MAX as u64) {
                Some(n) => {
                    filter.max_length = Some(n as usize);
                    filter.max_exclusive = true;
                    Ok(())
                },
                None => Err(quoted_message("Invalid length value: '", cs, a, b, "'")),
            }
        } else if find_char_in(cs, a, b, '-').is_some() {
            let parts = split_bounds(cs, a, b, '-');
            if parts.len() == 2 {
                let (p0, q0) = parts[0];
                let (p1, q1) = parts[1];
                let (x0, y0) = trim_bounds(cs, p0, q0);
                let min = match parse_unsigned_in(cs, x0, y0, usize::MAX as u64) {
                    Some(n) => n,
                    None => return Err(quoted_message("Invalid length range: '", cs, a, b, "'")),
                };
                let (x1, y1) = trim_bounds(cs, p1, q1);
                let max = match parse_unsigned_in(cs, x1, y1, usize::MAX as u64) {
                    Some(n) => n,
                    None => return Err(quoted_message("Invalid length range: '", cs, a, b, "'")),
                };
                if min > max {
                    let mut m = String::from_str("Invalid range: min (");
                    let smin = decimal_string(min);
                    m.append(smin.as_str());
                    m.append(") > max (");
                    let smax = decimal_string(max);
                    m.append(smax.as_str());
                    m.append(")");
                    return Err(m);
                }
                filter.min_length = Some(min as usize);
                filter.max_length = Some(max as usize);
                filter.min_exclusive = false;
                filter.max_exclusive = false;
                Ok(())
            } else {
                Err(quoted_message("Invalid length range: '", cs, a, b, "'. Expected 'min-max'"))
            }
        } else {
            match parse_unsigned_in(cs, a, b, usize::MAX as u64) {
                Some(n) => {
                    filter.min_length = Some(n as usize);
                    filter.max_length = Some(n as usize);
                    filter.min_exclusive = false;
                    filter.max_exclusive = false;
                    Ok(())
                },
                None => Err(quoted_message("Invalid length value: '", cs, a, b, "'")),
            }
        }
    }
}

impl PacketFilter {
    /// Parse a filter from user input string.
    ///
    /// Format: `key:value key:value ... searchterm`
    ///
    /// Supported keys:
    /// - `protocol`, `proto`: Protocol name(s)
    /// - `source`, `src`: Source address(es)
    /// - `destination`, `dest`, `dst`: Destination address(es)
    /// - `length`, `len`: Packet length (supports >, <, ranges)
    ///
    /// Any word without a colon is treated as a search term.
    ///
    /// # Errors
    ///
    /// A message naming the first word that is not a valid filter.
    pub fn parse(input: &str) -> (res: Result<Self, String>)
        ensures
            match spec_parse(input@) {
                Ok(f) => res matches Ok(p) && p@ == f,
                Err(e) => res matches Err(m) && m@ == e,
            },
            res matches Ok(p) ==> p@.wf(),
    {
        let cs = chars_of(input);
        let (a, b) = trim_bounds(cs.as_slice(), 0, cs.len());
        assert(cs@.subrange(0, cs@.len() as int) =~= input@);
        let mut filter = PacketFilter::default();
        if a == b {
            return Ok(filter);
        }
        let ghost t = cs@.subrange(a as int, b as int);
        let ghost ws = words(t);
        let bounds = word_bounds(cs.as_slice(), a, b);
        let mut i: usize = 0;
        while i < bounds.len()
            invariant
                a < b <= cs@.len(),
                t == cs@.subrange(a as int, b as int),
                t == trim(input@),
                ws == words(t),
                bounds@.len() == ws.len(),
                forall|k: int|
                    0 <= k < bounds@.len() ==> a <= (#[trigger] bounds@[k]).0 < bounds@[k].1 <= b
                        && cs@.subrange(bounds@[k].0 as int, bounds@[k].1 as int) == ws[k],
                i <= bounds@.len(),
                apply_words(ws, i as int) == Ok::<FilterView, Seq<char>>(filter@),
                filter@.wf(),
            decreases bounds@.len() - i,
        {
            let (lo, hi) = bounds[i];
            let ghost w = cs@.subrange(lo as int, hi as int);
            assert(w == ws[i as int]);
            match find_char_in(cs.as_slice(), lo, hi, ':') {
                Some(c) => {
                    assert(w.take(c - lo) =~= cs@.subrange(lo as int, c as int));
                    assert(w.skip(c - lo + 1) =~= cs@.subrange(c + 1, hi as int));
                    let key = to_lowercase(cs.as_slice(), lo, c);
                    let k = key.as_slice();
                    if chars_eq(k, 0, key.len(), "protocol") || chars_eq(k, 0, key.len(), "proto") {
                        assert(key@.subrange(0, key@.len() as int) =~= key@);
                        push_comma_values(&mut filter.protocols, cs.as_slice(), c + 1, hi, true);
                    } else if chars_eq(k, 0, key.len(), "source") || chars_eq(k, 0, key.len(), "src") {
                        assert(key@.subrange(0, key@.len() as int) =~= key@);
                        push_comma_values(&mut filter.sources, cs.as_slice(), c + 1, hi, false);
                    } else if chars_eq(k, 0, key.len(), "destination") || chars_eq(k, 0, key.len(), "dest")
                        || chars_eq(k, 0, key.len(), "dst") {
                        assert(key@.subrange(0, key@.len() as int) =~= key@);
                        push_comma_values(&mut filter.destinations, cs.as_slice(), c + 1, hi, false);
                    } else if chars_eq(k, 0, key.len(), "length") || chars_eq(k, 0, key.len(), "len") {
                        assert(key@.subrange(0, key@.len() as int) =~= key@);
                        let ghost f0 = filter@;
                        proof {
                            assert(find_char(w, ':') == Some((c - lo) as int));
                            assert(is_length_key(lowercase(w.take(c - lo))));
                            assert(!is_protocol_key(lowercase(w.take(c - lo))));
                            assert(!is_source_key(lowercase(w.take(c - lo))));
                            assert(!is_destination_key(lowercase(w.take(c - lo))));
                            assert(apply_word(f0, w) == apply_length(f0, w.skip(c - lo + 1)));
                            assert(apply_words(ws, i + 1) == apply_word(f0, w));
                        }
                        let r = Self::parse_length_filter(cs.as_slice(), c + 1, hi, &mut filter);
                        if let Err(m) = r {
                            assert(apply_words(ws, i + 1) == Err::<FilterView, Seq<char>>(m@));
                            proof {
                                lemma_apply_words_err(ws, i + 1, ws.len() as int);
                            }
                            return Err(m);
                        }
                    } else {
                        assert(key@.subrange(0, key@.len() as int) =~= key@);
                        proof {
                            lemma_apply_words_err(ws, i + 1, ws.len() as int);
                        }
                        return Err(
                            quoted_message(
                                "Unknown filter key: '",
                                cs.as_slice(),
                                lo,
                                c,
                                "'. Supported: protocol, source, destination, length",
                            ),
                        );
                    }
                },
                None => {
                    let term = string_from_chars(cs.as_slice(), lo, hi);
                    let ghost before = filter.search_terms@;
                    filter.search_terms.push(term);
                    assert(strings_view(filter.search_terms@) =~= strings_view(before).push(w));
                },
            }
            i = i + 1;
        }
        Ok(filter)
    }
}

/// Whether some string of `list` occurs in `hay`.
fn any_contained(hay: &[char], list: &Vec<String>) -> (r: bool)
    ensures
        r == exists|i: int| 0 <= i < list@.len() && contains(hay@, #[trigger] strings_view(list@)[i]),
{
    let mut i: usize = 0;
    while i < list.len()
        invariant
            i <= list@.len(),
            forall|k: int| 0 <= k < i ==> !contains(hay@, #[trigger] strings_view(list@)[k]),
        decreases list@.len() - i,
    {
        let p = chars_of(list[i].as_str());
        if contains_chars(hay, p.as_slice()) {
            assert(contains(hay@, strings_view(list@)[i as int]));
            return true;
        }
        i = i + 1;
    }
    false
}

/// Whether some string of `list` equals `s`.
fn any_equal(s: &String, list: &Vec<String>) -> (r: bool)
    ensures
        r == exists|i: int| 0 <= i < list@.len() && s@ == #[trigger] strings_view(list@)[i],
{
    let mut i: usize = 0;
    while i < list.len()
        invariant
            i <= list@.len(),
            forall|k: int| 0 <= k < i ==> s@ != #[trigger] strings_view(list@)[k],
        decreases list@.len() - i,
    {
        if *s == list[i] {
            assert(s@ == strings_view(list@)[i as int]);
            return true;
        }
        i = i + 1;
    }
    false
}

/// A non-empty text has a non-empty UTF-8 encoding.
proof fn lemma_encode_nonempty(t: Seq<char>)
    requires
        t.len() > 0,
    ensures
        encode_utf8(t).len() > 0,
{
    reveal_with_fuel(encode_utf8, 1);
}

/// The lower-case characters of a string.
fn lower_chars(s: &String) -> (r: Vec<char>)
    ensures
        r@ == lowercase(s@),
{
    let cs = chars_of(s.as_str());
    assert(cs@.subrange(0, cs@.len() as int) =~= s@);
    to_lowercase(cs.as_slice(), 0, cs.len())
}

impl PacketFilter {
    /// Check if a packet matches this filter.
    ///
    /// All filter conditions must be satisfied (AND logic).
    /// Within a condition (e.g., multiple protocols), any match is accepted (OR logic).
    pub fn matches(&self, packet: &PacketInfo) -> (r: bool)
        requires
            self@.wf(),
        ensures
            r == spec_matches(self@, packet@),
    {
        let proto_lower = lower_chars(&packet.protocol);
        if self.protocols.len() > 0 {
            if !any_contained(proto_lower.as_slice(), &self.protocols) {
                return false;
            }
        }
        if self.sources.len() > 0 {
            if !any_equal(&packet.source, &self.sources) {
                return false;
            }
        }
        if self.destinations.len() > 0 {
            if !any_equal(&packet.destination, &self.destinations) {
                return false;
            }
        }
        if let Some(min) = self.min_length {
            if packet.length < min || (self.min_exclusive && packet.length == min) {
                return false;
            }
        }
        if let Some(max) = self.max_length {
            if packet.length > max || (self.max_exclusive && packet.length == max) {
                return false;
            }
        }
        let info_lower = lower_chars(&packet.info);
        let mut i: usize = 0;
        while i < self.search_terms.len()
            invariant
                i <= self.search_terms@.len(),
                self@.wf(),
                proto_lower@ == lowercase(packet.protocol@),
                info_lower@ == lowercase(packet.info@),
                forall|k: int| 0 <= k < i ==> term_found(#[trigger] self@.search_terms[k], packet@),
            decreases self.search_terms@.len() - i,
        {
            let term = &self.search_terms[i];
            assert(term@ == self@.search_terms[i as int]);
            let term_lower = lower_chars(term);
            let found_in_summary = contains_chars(info_lower.as_slice(), term_lower.as_slice())
                || contains_chars(proto_lower.as_slice(), term_lower.as_slice());
            let term_bytes = term.as_str().as_bytes();
            proof {
                assert(self@.search_terms[i as int].len() > 0);
                lemma_encode_nonempty(term@);
            }
            let found_in_raw = bytes_contain_ignore_ascii_case(packet.raw.as_slice(), term_bytes);
            if !found_in_summary && !found_in_raw {
                assert(!term_found(self@.search_terms[i as int], packet@));
                return false;
            }
            i = i + 1;
        }
        true
    }
}

/// The word `length:N`.
pub open spec fn exact_word(n: usize) -> Seq<char> {
    "length:"@ + decimal(n as nat)
}

/// The word `length:A-B`.
pub open spec fn range_word(a: usize, b: usize) -> Seq<char> {
    "length:"@ + decimal(a as nat) + "-"@ + decimal(b as nat)
}

/// The word `length:>N`.
pub open spec fn above_word(n: usize) -> Seq<char> {
    "length:>"@ + decimal(n as nat)
}

/// The word `length:<N`.
pub open spec fn below_word(n: usize) -> Seq<char> {
    "length:<"@ + decimal(n as nat)
}

/// The `length:` parts of a filter's text, if it limits lengths. An inclusive bound beside a
/// strict one is written as an exact length that the strict bound then replaces.
pub open spec fn length_part(f: FilterView) -> Seq<Seq<char>> {
    match (f.min_length, f.max_length) {
        (Some(a), Some(b)) => if f.min_exclusive && f.max_exclusive {
            seq![above_word(a), below_word(b)]
        } else if f.min_exclusive {
            seq![exact_word(b), above_word(a)]
        } else if f.max_exclusive {
            seq![exact_word(a), below_word(b)]
        } else if a == b {
            seq![exact_word(a)]
        } else {
            seq![range_word(a, b)]
        },
        (Some(a), None) => seq![above_word(a)],
        (None, Some(b)) => seq![below_word(b)],
        (None, None) => seq![],
    }
}

/// A `key:v1,v2` part for a non-empty list of values.
pub open spec fn list_part(key: Seq<char>, values: Seq<Seq<char>>) -> Seq<Seq<char>> {
    if values.len() > 0 {
        seq![key + join(values, ","@)]
    } else {
        seq![]
    }
}

/// The space-separated parts of a filter's text.
pub open spec fn filter_parts(f: FilterView) -> Seq<Seq<char>> {
    list_part("protocol:"@, f.protocols) + list_part("source:"@, f.sources) + list_part(
        "dest:"@,
        f.destinations,
    ) + length_part(f) + f.search_terms
}

/// The text of a filter, as `Display` writes it.
pub open spec fn filter_text(f: FilterView) -> Seq<char> {
    join(filter_parts(f), " "@)
}

/// Appends `key` and the values of `list` joined by commas, when `list` is not empty.
fn push_list_part(parts: &mut Vec<String>, key: &str, list: &Vec<String>)
    ensures
        strings_view(final(parts)@) == strings_view(old(parts)@) + list_part(key@, strings_view(list@)),
{
    if list.len() > 0 {
        let mut cs: Vec<char> = Vec::new();
        push_str(&mut cs, key);
        let joined = join_strings(list, ",");
        push_str(&mut cs, joined.as_str());
        let part = string_of(&cs);
        let ghost before = parts@;
        parts.push(part);
        assert(strings_view(parts@) =~= strings_view(before) + list_part(key@, strings_view(list@)));
    } else {
        assert(strings_view(parts@) =~= strings_view(old(parts)@) + list_part(key@, strings_view(list@)));
    }
}

/// `prefix` followed by the decimal text of `n`, then `rest` and the decimal text of `m` when given.
fn number_part(prefix: &str, n: usize, rest: Option<(&str, usize)>) -> (r: String)
    ensures
        r@ == match rest {
            Some((s, m)) => prefix@ + decimal(n as nat) + s@ + decimal(m as nat),
            None => prefix@ + decimal(n as nat),
        },
{
    let mut cs: Vec<char> = Vec::new();
    push_str(&mut cs, prefix);
    push_radix_digits(&mut cs, n as u64, 10);
    if let Some((s, m)) = rest {
        push_str(&mut cs, s);
        push_radix_digits(&mut cs, m as u64, 10);
    }
    assert(decimal(n as nat) == crate::text::radix_digits(n as nat, 10));
    string_of(&cs)
}

/// Appends one string to a list of strings.
fn push_part(parts: &mut Vec<String>, part: String)
    ensures
        strings_view(final(parts)@) == strings_view(old(parts)@).push(part@),
{
    let ghost before = parts@;
    parts.push(part);
    assert(strings_view(parts@) =~= strings_view(before).push(part@));
}

impl PacketFilter {
    /// Appends the `length:` parts of the filter's text.
    fn push_length_parts(&self, parts: &mut Vec<String>)
        ensures
            strings_view(final(parts)@) == strings_view(old(parts)@) + length_part(self@),
    {
        let ghost before = strings_view(parts@);
        match (self.min_length, self.max_length) {
            (Some(min), Some(max)) => {
                if self.min_exclusive && self.max_exclusive {
                    push_part(parts, number_part("length:>", min, None));
                    push_part(parts, number_part("length:<", max, None));
                } else if self.min_exclusive {
                    push_part(parts, number_part("length:", max, None));
                    push_part(parts, number_part("length:>", min, None));
                } else if self.max_exclusive {
                    push_part(parts, number_part("length:", min, None));
                    push_part(parts, number_part("length:<", max, None));
                } else if min == max {
                    push_part(parts, number_part("length:", min, None));
                } else {
                    push_part(parts, number_part("length:", min, Some(("-", max))));
                }
            },
            (Some(min), None) => push_part(parts, number_part("length:>", min, None)),
            (None, Some(max)) => push_part(parts, number_part("length:<", max, None)),
            (None, None) => {},
        }
        assert(strings_view(parts@) =~= before + length_part(self@));
    }
}

impl PacketFilter {
    /// The filter in the syntax that `parse` reads (what `Display` writes).
    pub fn to_text(&self) -> (r: String)
        ensures
            r@ == filter_text(self@),
    {
        let mut parts: Vec<String> = Vec::new();
        assert(strings_view(parts@) =~= seq![]);
        push_list_part(&mut parts, "protocol:", &self.protocols);
        push_list_part(&mut parts, "source:", &self.sources);
        push_list_part(&mut parts, "dest:", &self.destinations);
        self.push_length_parts(&mut parts);
        let mut i: usize = 0;
        let ghost mid = strings_view(parts@);
        while i < self.search_terms.len()
            invariant
                i <= self.search_terms@.len(),
                strings_view(parts@) == mid + strings_view(self.search_terms@).take(i as int),
            decreases self.search_terms@.len() - i,
        {
            let t = self.search_terms[i].clone();
            let ghost b = parts@;
            parts.push(t);
            i = i + 1;
            assert(strings_view(parts@) =~= strings_view(b).push(t@));
            assert(strings_view(parts@) =~= mid + strings_view(self.search_terms@).take(i as int));
        }
        assert(strings_view(self.search_terms@).take(i as int) =~= strings_view(self.search_terms@));
        join_strings(&parts, " ")
    }
}

} // verus!
