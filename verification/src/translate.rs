//! From the reader's generic filters to an address.
//!
//! The filters are read once, in the order given. A title filter that holds
//! a text turns the request into a search and nothing else counts. Without
//! one, each axis is decided by the last filter that speaks of it, and the
//! tags are the switched-on genre toggles in the order they came.

use crate::filter::{
    Filter, FilterKind, FilterView, Genre, Mode, Sort, Status, ValueView, filter_views,
};
use crate::query::FiltersQueryView;
use crate::text::{same_text, texts};
use crate::url::{Address, Url};
use vstd::prelude::*;

verus! {

/// A title filter that holds a text.
pub open spec fn is_keyword() -> spec_fn(FilterView) -> bool {
    |f: FilterView| f.kind == FilterKind::Title && f.value is Text
}

/// A select filter of the given name.
pub open spec fn is_select(name: Seq<char>) -> spec_fn(FilterView) -> bool {
    |f: FilterView| f.kind == FilterKind::Select && f.name == name
}

/// A filter that chooses the order.
pub open spec fn is_sort() -> spec_fn(FilterView) -> bool {
    |f: FilterView| f.kind == FilterKind::Sort
}

/// A genre toggle that is switched on.
pub open spec fn is_checked() -> spec_fn(FilterView) -> bool {
    |f: FilterView| f.kind == FilterKind::Genre && f.value.as_int() == Some(1int)
}

/// The ordinal a filter carries: for a sort filter the `index` field of its
/// value, for any other the value itself.
pub open spec fn ordinal_of(f: FilterView) -> Option<int> {
    if f.kind == FilterKind::Sort {
        f.value.index()
    } else {
        f.value.as_int()
    }
}

/// The ordinal carried by the last filter that `speaks` of an axis; `None`
/// where no filter does, or where the last one carries none.
pub open spec fn last_ordinal(filters: Seq<FilterView>, speaks: spec_fn(FilterView) -> bool)
    -> Option<int> {
    let picks = filters.filter(speaks);
    if picks.len() == 0 {
        None
    } else {
        ordinal_of(picks.last())
    }
}

/// The section chosen: by the last select filter named "類型".
pub open spec fn genre_of(filters: Seq<FilterView>) -> Genre {
    Genre::selected(last_ordinal(filters, is_select("類型"@)))
}

/// The state chosen: by the last select filter named "連載情形".
pub open spec fn status_of(filters: Seq<FilterView>) -> Status {
    Status::selected(last_ordinal(filters, is_select("連載情形"@)))
}

/// The mode chosen: by the last select filter named "模式".
pub open spec fn mode_of(filters: Seq<FilterView>) -> Mode {
    Mode::selected(last_ordinal(filters, is_select("模式"@)))
}

/// The order chosen: by the last sort filter.
pub open spec fn sort_of(filters: Seq<FilterView>) -> Sort {
    Sort::selected(last_ordinal(filters, is_sort()))
}

/// The names of the switched-on genre toggles, in the order they came.
pub open spec fn tags_of(filters: Seq<FilterView>) -> Seq<Seq<char>> {
    filters.filter(is_checked()).map_values(|f: FilterView| f.name)
}

/// The text of the first title filter that holds one.
pub open spec fn keyword_of(filters: Seq<FilterView>) -> Option<Seq<char>> {
    let titles = filters.filter(is_keyword());
    if titles.len() == 0 {
        None
    } else {
        titles.first().value.as_text()
    }
}

/// The address a list of filters and a page number stand for.
pub open spec fn translated(filters: Seq<FilterView>, page: int) -> Address {
    match keyword_of(filters) {
        Some(keyword) => Address::Search { page, keyword },
        None => Address::Filters {
            genre: genre_of(filters),
            status: status_of(filters),
            page,
            query: FiltersQueryView {
                tags: tags_of(filters),
                mode: mode_of(filters),
                sort_by: sort_of(filters),
            },
        },
    }
}

/// The three names of select filters are three different texts.
proof fn lemma_labels_differ()
    ensures
        "類型"@ != "連載情形"@,
        "類型"@ != "模式"@,
        "連載情形"@ != "模式"@,
{
    reveal_strlit("類型");
    reveal_strlit("連載情形");
    reveal_strlit("模式");
    assert("類型"@[0] != "模式"@[0]);
}

impl Url {
    /// Translates the reader's filters and a page number into an address.
    pub fn from_filters(filters: Vec<Filter>, page: i32) -> (url: Url)
        ensures
            url@ == translated(filter_views(filters@), page as int),
    {
        let mut genre = Genre::default();
        let mut status = Status::default();
        let mut mode = Mode::default();
        let mut sort_by = Sort::default();
        let mut tags: Vec<String> = Vec::new();
        let ghost all = filter_views(filters@);
        proof {
            lemma_labels_differ();
            lemma_filter_none(all.take(0), is_keyword());
            lemma_filter_none(all.take(0), is_select("類型"@));
            lemma_filter_none(all.take(0), is_select("連載情形"@));
            lemma_filter_none(all.take(0), is_select("模式"@));
            lemma_filter_none(all.take(0), is_sort());
            lemma_filter_none(all.take(0), is_checked());
        }
        let mut i: usize = 0;
        while i < filters.len()
            invariant
                i <= filters.len(),
                all == filter_views(filters@),
                "類型"@ != "連載情形"@,
                "類型"@ != "模式"@,
                "連載情形"@ != "模式"@,
                all.take(i as int).filter(is_keyword()).len() == 0,
                genre == genre_of(all.take(i as int)),
                status == status_of(all.take(i as int)),
                mode == mode_of(all.take(i as int)),
                sort_by == sort_of(all.take(i as int)),
                texts(tags@) == tags_of(all.take(i as int)),
            decreases filters.len() - i,
        {
            let filter = &filters[i];
            let ghost before = all.take(i as int);
            proof {
                assert(all.take(i + 1) == before.push(filter@));
                before.lemma_filter_push(filter@, is_keyword());
                before.lemma_filter_push(filter@, is_select("類型"@));
                before.lemma_filter_push(filter@, is_select("連載情形"@));
                before.lemma_filter_push(filter@, is_select("模式"@));
                before.lemma_filter_push(filter@, is_sort());
                before.lemma_filter_push(filter@, is_checked());
            }
            match filter.kind {
                FilterKind::Select => {
                    let name = filter.name.as_str();
                    if same_text(name, "類型") {
                        genre = Genre::decode(filter.value.as_int());
                    } else if same_text(name, "連載情形") {
                        status = Status::decode(filter.value.as_int());
                    } else if same_text(name, "模式") {
                        mode = Mode::decode(filter.value.as_int());
                    }
                },
                FilterKind::Sort => {
                    sort_by = Sort::decode(filter.value.index());
                },
                FilterKind::Title => {
                    match filter.value.as_string() {
                        Some(keyword) => {
                            proof {
                                let upto = all.take(i + 1);
                                assert(all == upto + all.skip(i + 1));
                                Seq::filter_distributes_over_add(
                                    upto,
                                    all.skip(i + 1),
                                    is_keyword(),
                                );
                                assert(upto.filter(is_keyword()) == seq![filter@]);
                            }
                            return Url::search(keyword.as_str(), page);
                        },
                        None => {},
                    }
                },
                FilterKind::Genre => {
                    match filter.value.as_int() {
                        Some(1) => {
                            proof {
                                assert(texts(tags@.push(filter.name)) == texts(tags@).push(
                                    filter.name@,
                                ));
                            }
                            tags.push(filter.name.clone());
                        },
                        _ => {},
                    }
                },
                FilterKind::Other => {},
            }
            i += 1;
        }
        assert(all.take(filters.len() as int) == all);
        Url::filters(genre, status, tags, mode, sort_by, page)
    }
}

/// A title filter that holds a text makes the request a search for that
/// text, whatever else the list holds and in whatever order, as long as no
/// title filter in front of it holds another text.
pub proof fn law_title_makes_search(
    filters: Seq<FilterView>,
    page: int,
    i: int,
    keyword: Seq<char>,
)
    requires
        0 <= i < filters.len(),
        filters[i].kind == FilterKind::Title,
        filters[i].value == ValueView::Text(keyword),
        forall|j: int|
            0 <= j < i && is_keyword()(#[trigger] filters[j]) ==> filters[j].value
                == ValueView::Text(keyword),
    ensures
        translated(filters, page) == (Address::Search { page, keyword }),
{
    let first = least_wanted(filters, is_keyword(), i);
    lemma_filter_first(filters, is_keyword(), first);
}

/// Every request is a search or a filtered listing, never both: a search
/// exactly where some title filter holds a text.
pub proof fn law_search_or_listing(filters: Seq<FilterView>, page: int)
    ensures
        translated(filters, page) is Search || translated(filters, page) is Filters,
        translated(filters, page) is Search <==> exists|i: int|
            0 <= i < filters.len() && is_keyword()(#[trigger] filters[i]),
{
    if exists|i: int| 0 <= i < filters.len() && is_keyword()(#[trigger] filters[i]) {
        let i = choose|i: int| 0 <= i < filters.len() && is_keyword()(#[trigger] filters[i]);
        let first = least_wanted(filters, is_keyword(), i);
        lemma_filter_first(filters, is_keyword(), first);
    } else {
        lemma_filter_none(filters, is_keyword());
    }
}

/// Without any title filter the request is a filtered listing, each axis
/// of which is decoded from the ordinal of the last filter that speaks of it.
pub proof fn law_no_title_makes_listing(filters: Seq<FilterView>, page: int)
    requires
        forall|j: int| 0 <= j < filters.len() ==> (#[trigger] filters[j]).kind != FilterKind::Title,
    ensures
        translated(filters, page) == (Address::Filters {
            genre: Genre::selected(last_ordinal(filters, is_select("類型"@))),
            status: Status::selected(last_ordinal(filters, is_select("連載情形"@))),
            page,
            query: FiltersQueryView {
                tags: tags_of(filters),
                mode: Mode::selected(last_ordinal(filters, is_select("模式"@))),
                sort_by: Sort::selected(last_ordinal(filters, is_sort())),
            },
        }),
{
    lemma_filter_none(filters, is_keyword());
}

/// An axis that no filter speaks of has no ordinal.
pub proof fn law_absent_axis_has_no_ordinal(
    filters: Seq<FilterView>,
    speaks: spec_fn(FilterView) -> bool,
)
    requires
        forall|j: int| 0 <= j < filters.len() ==> !speaks(#[trigger] filters[j]),
    ensures
        last_ordinal(filters, speaks) is None,
{
    lemma_filter_none(filters, speaks);
}

/// The ordinal of an axis is the one carried by the last filter that speaks
/// of the axis.
pub proof fn law_last_filter_decides_axis(
    filters: Seq<FilterView>,
    speaks: spec_fn(FilterView) -> bool,
    i: int,
)
    requires
        0 <= i < filters.len(),
        speaks(filters[i]),
        forall|j: int| i < j < filters.len() ==> !speaks(#[trigger] filters[j]),
    ensures
        last_ordinal(filters, speaks) == ordinal_of(filters[i]),
{
    lemma_filter_last(filters, speaks, i);
}

/// Every axis decodes a missing ordinal, and one out of range, to its
/// default, and an ordinal in range to the variant that stands there.
pub proof fn law_ordinals_decode(index: Option<int>)
    ensures
        Genre::selected(index) == (match index {
            Some(i) if i == 0 => Genre::Yaoi,
            Some(i) if i == 1 => Genre::Yuri,
            _ => Genre::Yaoi,
        }),
        Status::selected(index) == (match index {
            Some(i) if i == 0 => Status::Completed,
            Some(i) if i == 1 => Status::Ongoing,
            _ => Status::Completed,
        }),
        Mode::selected(index) == (match index {
            Some(i) if i == 0 => Mode::And,
            Some(i) if i == 1 => Mode::Or,
            _ => Mode::And,
        }),
        Sort::selected(index) == (match index {
            Some(i) if i == 0 => Sort::Likes,
            Some(i) if i == 1 => Sort::LastUpdated,
            _ => Sort::LastUpdated,
        }),
{
}

/// The least position up to `i` that holds a wanted member.
proof fn least_wanted<A>(s: Seq<A>, wanted: spec_fn(A) -> bool, i: int) -> (first: int)
    requires
        0 <= i < s.len(),
        wanted(s[i]),
    ensures
        0 <= first <= i,
        wanted(s[first]),
        forall|j: int| 0 <= j < first ==> !wanted(#[trigger] s[j]),
    decreases i,
{
    if exists|j: int| 0 <= j < i && wanted(#[trigger] s[j]) {
        let j = choose|j: int| 0 <= j < i && wanted(#[trigger] s[j]);
        least_wanted(s, wanted, j)
    } else {
        i
    }
}

/// Nothing is kept of a sequence no member of which is wanted.
proof fn lemma_filter_none<A>(s: Seq<A>, wanted: spec_fn(A) -> bool)
    requires
        forall|j: int| 0 <= j < s.len() ==> !wanted(#[trigger] s[j]),
    ensures
        s.filter(wanted).len() == 0,
    decreases s.len(),
{
    if s.len() > 0 {
        lemma_filter_none(s.drop_last(), wanted);
        s.drop_last().lemma_filter_push(s.last(), wanted);
        assert(s.drop_last().push(s.last()) == s);
    } else {
        s.lemma_filter_len(wanted);
    }
}

/// The first member kept is the first wanted member.
proof fn lemma_filter_first<A>(s: Seq<A>, wanted: spec_fn(A) -> bool, i: int)
    requires
        0 <= i < s.len(),
        wanted(s[i]),
        forall|j: int| 0 <= j < i ==> !wanted(#[trigger] s[j]),
    ensures
        s.filter(wanted).len() > 0,
        s.filter(wanted).first() == s[i],
    decreases s.len(),
{
    let front = s.drop_last();
    front.lemma_filter_push(s.last(), wanted);
    assert(front.push(s.last()) == s);
    if i == s.len() - 1 {
        lemma_filter_none(front, wanted);
    } else {
        lemma_filter_first(front, wanted, i);
    }
}

/// The last member kept is the last wanted member.
proof fn lemma_filter_last<A>(s: Seq<A>, wanted: spec_fn(A) -> bool, i: int)
    requires
        0 <= i < s.len(),
        wanted(s[i]),
        forall|j: int| i < j < s.len() ==> !wanted(#[trigger] s[j]),
    ensures
        s.filter(wanted).len() > 0,
        s.filter(wanted).last() == s[i],
    decreases s.len(),
{
    let front = s.drop_last();
    front.lemma_filter_push(s.last(), wanted);
    assert(front.push(s.last()) == s);
    if i < s.len() - 1 {
        lemma_filter_last(front, wanted, i);
    }
}

} // verus!
