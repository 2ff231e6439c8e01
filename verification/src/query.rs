//! The query strings of listing addresses.

use crate::filter::{Mode, Sort};
use crate::text::{join, joined, texts};
use vstd::prelude::*;
use vstd::string::StringExecFns;
use vstd::utf8::encode_utf8;

verus! {

/// Whether a character of a query component is written as it is.
pub open spec fn is_unreserved(c: char) -> bool {
    ||| 'a' <= c <= 'z'
    ||| 'A' <= c <= 'Z'
    ||| '0' <= c <= '9'
    ||| c == '-'
    ||| c == '_'
    ||| c == '.'
    ||| c == '!'
    ||| c == '~'
    ||| c == '*'
    ||| c == '\''
    ||| c == '('
    ||| c == ')'
}

/// The upper-case hexadecimal digit of a value below sixteen.
pub open spec fn hex_digit(d: int) -> char
    recommends
        0 <= d < 16,
{
    if d < 10 {
        ((48 + d) as u8) as char
    } else {
        ((55 + d) as u8) as char
    }
}

/// One byte of a query component: itself where it is unreserved, else `%`
/// and its two hexadecimal digits.
pub open spec fn escaped(b: u8) -> Seq<char> {
    if is_unreserved(b as char) {
        seq![b as char]
    } else {
        seq!['%', hex_digit(b as int / 16), hex_digit(b as int % 16)]
    }
}

/// The percent-encoding of a byte string.
pub open spec fn percent_encoded(bytes: Seq<u8>) -> Seq<char> {
    bytes.flat_map(|b: u8| escaped(b))
}

/// The percent-encoding of the UTF-8 form of a text.
pub open spec fn component(text: Seq<char>) -> Seq<char> {
    percent_encoded(encode_utf8(text))
}

/// The upper-case hexadecimal digit of a value below sixteen.
fn hex(d: u8) -> (c: char)
    requires
        d < 16,
    ensures
        c == hex_digit(d as int),
{
    if d < 10 {
        (48 + d) as char
    } else {
        (55 + d) as char
    }
}

/// Whether a character of a query component is written as it is.
fn unreserved(c: char) -> (keep: bool)
    ensures
        keep == is_unreserved(c),
{
    ('a' <= c && c <= 'z') || ('A' <= c && c <= 'Z') || ('0' <= c && c <= '9') || c == '-' || c
        == '_' || c == '.' || c == '!' || c == '~' || c == '*' || c == '\'' || c == '(' || c == ')'
}

/// Percent-encodes one component of a query: every byte of the text's UTF-8
/// form but letters, digits and `-_.!~*'()` becomes `%` and two upper-case
/// hexadecimal digits.
pub fn encode_uri_component(text: &str) -> (out: String)
    ensures
        out@ == component(text@),
{
    let bytes = text.as_bytes();
    let mut out = String::new();
    let mut i: usize = 0;
    while i < bytes.len()
        invariant
            i <= bytes.len(),
            bytes@ == encode_utf8(text@),
            out@ == percent_encoded(bytes@.take(i as int)),
        decreases bytes.len() - i,
    {
        let b = bytes[i];
        proof {
            bytes@.lemma_flat_map_take_append(|b: u8| escaped(b), i as int);
        }
        if unreserved(b as char) {
            out.push(b as char);
        } else {
            out.push('%');
            out.push(hex(b / 16));
            out.push(hex(b % 16));
        }
        i += 1;
    }
    assert(bytes@.take(bytes.len() as int) == bytes@);
    out
}

/// The tag and order part of a listing address.
#[derive(Debug, Clone, PartialEq, Eq)]
pub struct FiltersQuery {
    pub tags: Vec<String>,
    pub mode: Mode,
    pub sort_by: Sort,
}

/// The mathematical content of a [`FiltersQuery`].
pub struct FiltersQueryView {
    pub tags: Seq<Seq<char>>,
    pub mode: Mode,
    pub sort_by: Sort,
}

impl View for FiltersQuery {
    type V = FiltersQueryView;

    open spec fn view(&self) -> FiltersQueryView {
        FiltersQueryView { tags: texts(self.tags@), mode: self.mode, sort_by: self.sort_by }
    }
}

/// The text of the parameters `key=value`, in order, with `&` between them.
pub open spec fn query_string(parameters: Seq<(Seq<char>, Seq<char>)>) -> Seq<char> {
    joined(parameters.map_values(|p: (Seq<char>, Seq<char>)| p.0 + "="@ + p.1), "&"@)
}

impl FiltersQueryView {
    /// The value of the `tag` parameter: the encoded tags with the mode's
    /// separator between them.
    pub open spec fn tag_value(self) -> Seq<char> {
        joined(self.tags.map_values(|t: Seq<char>| component(t)), self.mode.separator())
    }

    /// The parameters of the query, in the order they are written: `tag`
    /// unless there is no tag, then `sort` unless the order is the default.
    pub open spec fn parameters(self) -> Seq<(Seq<char>, Seq<char>)> {
        let tag = if self.tags.len() == 0 {
            seq![]
        } else {
            seq![("tag"@, self.tag_value())]
        };
        let sort = if self.sort_by == Sort::LastUpdated {
            seq![]
        } else {
            seq![("sort"@, self.sort_by.code())]
        };
        tag + sort
    }

    /// The query as it stands in an address.
    pub open spec fn rendered(self) -> Seq<char> {
        query_string(self.parameters())
    }
}

/// `key=value`, as one parameter of a query.
fn parameter(key: &str, value: &str) -> (out: String)
    ensures
        out@ == key@ + "="@ + value@,
{
    let mut out = String::from_str(key);
    out.append("=");
    out.append(value);
    out
}

impl FiltersQuery {
    /// The query for the given tags, combined by `mode` and ordered by
    /// `sort_by`.
    pub fn new(tags: Vec<String>, mode: Mode, sort_by: Sort) -> (query: FiltersQuery)
        ensures
            query.tags == tags,
            query.mode == mode,
            query.sort_by == sort_by,
    {
        FiltersQuery { tags, mode, sort_by }
    }

    /// The query as it stands in an address.
    pub fn to_string(&self) -> (out: String)
        ensures
            out@ == self@.rendered(),
    {
        let mut parameters: Vec<String> = Vec::new();
        let ghost shown = |p: (Seq<char>, Seq<char>)| p.0 + "="@ + p.1;
        if self.tags.len() > 0 {
            let mut encoded: Vec<String> = Vec::new();
            let mut i: usize = 0;
            while i < self.tags.len()
                invariant
                    i <= self.tags.len(),
                    texts(encoded@) == self@.tags.take(i as int).map_values(
                        |t: Seq<char>| component(t),
                    ),
                decreases self.tags.len() - i,
            {
                let tag = encode_uri_component(self.tags[i].as_str());
                proof {
                    let before = self@.tags.take(i as int);
                    assert(self@.tags.take(i + 1) == before.push(self.tags@[i as int]@));
                    assert(texts(encoded@.push(tag)) == texts(encoded@).push(tag@));
                }
                encoded.push(tag);
                i += 1;
            }
            assert(self@.tags.take(self.tags.len() as int) == self@.tags);
            let value = join(&encoded, self.mode.as_str());
            parameters.push(parameter("tag", value.as_str()));
        }
        if self.sort_by != Sort::LastUpdated {
            parameters.push(parameter("sort", self.sort_by.as_str()));
        }
        assert(texts(parameters@) == self@.parameters().map_values(shown));
        join(&parameters, "&")
    }
}

/// What a query is written as depends on its content alone.
pub proof fn law_rendering_repeats(first: FiltersQuery, second: FiltersQuery)
    requires
        first@ == second@,
    ensures
        first@.rendered() == second@.rendered(),
        encode_utf8(first@.rendered()) == encode_utf8(second@.rendered()),
{
}

/// A query never writes `tag` for an empty tag list nor `sort` for the
/// default order, and where it writes both, `tag` stands first.
pub proof fn law_parameters_are_ordered_and_omitted(query: FiltersQueryView)
    ensures
        query.tags.len() == 0 ==> forall|k: int|
            0 <= k < query.parameters().len() ==> (#[trigger] query.parameters()[k]).0 != "tag"@,
        query.sort_by == Sort::LastUpdated ==> forall|k: int|
            0 <= k < query.parameters().len() ==> (#[trigger] query.parameters()[k]).0 != "sort"@,
        forall|k: int, l: int|
            0 <= k < query.parameters().len() && 0 <= l < query.parameters().len()
                && (#[trigger] query.parameters()[k]).0 == "tag"@
                && (#[trigger] query.parameters()[l]).0 == "sort"@ ==> k < l,
        query.rendered() == (if query.tags.len() == 0 {
            if query.sort_by == Sort::LastUpdated {
                Seq::<char>::empty()
            } else {
                "sort="@ + query.sort_by.code()
            }
        } else {
            if query.sort_by == Sort::LastUpdated {
                "tag="@ + query.tag_value()
            } else {
                "tag="@ + query.tag_value() + "&"@ + "sort="@ + query.sort_by.code()
            }
        }),
{
    reveal_strlit("tag");
    reveal_strlit("sort");
    reveal_strlit("tag=");
    reveal_strlit("sort=");
    reveal_strlit("=");
    assert("tag"@ != "sort"@) by {
        assert("tag"@.len() != "sort"@.len());
    }
    let shown = |p: (Seq<char>, Seq<char>)| p.0 + "="@ + p.1;
    let lines = query.parameters().map_values(shown);
    assert("tag"@ + "="@ == "tag="@);
    assert("sort"@ + "="@ == "sort="@);
    if lines.len() == 2 {
        assert(lines.drop_last().len() == 1);
        assert(joined(lines.drop_last(), "&"@) == lines[0]);
        assert(lines[0] + "&"@ + lines[1] == "tag="@ + query.tag_value() + "&"@ + "sort="@
            + query.sort_by.code());
    }
}

/// Two tags are written with the separator of the mode between them: `+`
/// where all tags are asked for, `,` where any of them is.
pub proof fn law_tags_are_joined_by_the_mode(
    first: Seq<char>,
    second: Seq<char>,
    mode: Mode,
    sort_by: Sort,
)
    ensures
        (FiltersQueryView { tags: seq![first, second], mode, sort_by }).tag_value() == component(
            first,
        ) + mode.separator() + component(second),
        Mode::And.separator() == seq!['+'],
        Mode::Or.separator() == seq![','],
{
    reveal_strlit("+");
    reveal_strlit(",");
    assert(Mode::And.separator() == seq!['+']);
    assert(Mode::Or.separator() == seq![',']);
    let encoded = seq![first, second].map_values(|t: Seq<char>| component(t));
    assert(encoded.drop_last().len() == 1);
    assert(joined(encoded.drop_last(), mode.separator()) == encoded[0]);
}

/// The free-text part of a search address.
#[derive(Debug, Clone, PartialEq, Eq)]
pub struct SearchQuery {
    pub keyword: String,
}

/// The query of a search for `keyword`: the single parameter `s`, whose
/// value is the keyword as given.
pub open spec fn search_query(keyword: Seq<char>) -> Seq<char> {
    query_string(seq![("s"@, keyword)])
}

impl View for SearchQuery {
    type V = Seq<char>;

    open spec fn view(&self) -> Seq<char> {
        self.keyword@
    }
}

impl SearchQuery {
    /// The query of a search for `keyword`.
    pub fn new(keyword: String) -> (query: SearchQuery)
        ensures
            query.keyword == keyword,
    {
        SearchQuery { keyword }
    }

    /// The query as it stands in an address.
    pub fn to_string(&self) -> (out: String)
        ensures
            out@ == search_query(self@),
    {
        let mut parameters: Vec<String> = Vec::new();
        let ghost shown = |p: (Seq<char>, Seq<char>)| p.0 + "="@ + p.1;
        parameters.push(parameter("s", self.keyword.as_str()));
        assert(texts(parameters@) == seq![("s"@, self@)].map_values(shown));
        join(&parameters, "&")
    }
}

} // verus!
