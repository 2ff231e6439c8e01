//! The filter axes of the catalogue and the reader's generic filter values.
//!
//! A reader hands over a list of generic filters. Each carries a kind, a
//! name and a loosely typed value. The four axes below are what the site
//! understands; every axis has a default and a decode table from ordinals.

use vstd::prelude::*;

verus! {

/// The catalogue section a listing is taken from.
#[derive(Debug, Clone, Copy, PartialEq, Eq, Structural)]
pub enum Genre {
    Yaoi,
    Yuri,
}

/// The serialisation state a listing is restricted to.
#[derive(Debug, Clone, Copy, PartialEq, Eq, Structural)]
pub enum Status {
    Completed,
    Ongoing,
}

/// How several tags combine: all of them, or any of them.
#[derive(Debug, Clone, Copy, PartialEq, Eq, Structural)]
pub enum Mode {
    And,
    Or,
}

/// The order of a listing.
#[derive(Debug, Clone, Copy, PartialEq, Eq, Structural)]
pub enum Sort {
    Likes,
    LastUpdated,
}

impl Genre {
    /// The variant at an ordinal, where there is one.
    pub open spec fn at(index: int) -> Option<Genre> {
        if index == 0 {
            Some(Genre::Yaoi)
        } else if index == 1 {
            Some(Genre::Yuri)
        } else {
            None
        }
    }

    /// The variant a decoded filter value selects: the one at the ordinal,
    /// the default where the value held no integer or none in range.
    pub open spec fn selected(index: Option<int>) -> Genre {
        match index {
            Some(i) if Genre::at(i) is Some => Genre::at(i)->0,
            _ => Genre::Yaoi,
        }
    }

    /// The path segment that stands for the section.
    pub open spec fn code(self) -> Seq<char> {
        match self {
            Genre::Yaoi => "bl"@,
            Genre::Yuri => "bg"@,
        }
    }

    /// The variant at an ordinal, where there is one.
    pub fn from_repr(index: usize) -> (genre: Option<Genre>)
        ensures
            genre == Genre::at(index as int),
    {
        match index {
            0 => Some(Genre::Yaoi),
            1 => Some(Genre::Yuri),
            _ => None,
        }
    }

    /// The variant that the integer read from a filter selects.
    pub fn decode(index: Option<i64>) -> (genre: Genre)
        ensures
            genre == Genre::selected(integer(index)),
    {
        match ordinal(index) {
            Some(i) => match Genre::from_repr(i) {
                Some(genre) => genre,
                None => Genre::default(),
            },
            None => Genre::default(),
        }
    }

    /// The path segment that stands for the section.
    pub fn as_str(self) -> (code: &'static str)
        ensures
            code@ == self.code(),
    {
        match self {
            Genre::Yaoi => "bl",
            Genre::Yuri => "bg",
        }
    }
}

impl Default for Genre {
    /// The section the site shows when none is chosen.
    fn default() -> (genre: Genre)
        ensures
            genre == Genre::Yaoi,
    {
        Genre::Yaoi
    }
}

impl Status {
    /// The variant at an ordinal, where there is one.
    pub open spec fn at(index: int) -> Option<Status> {
        if index == 0 {
            Some(Status::Completed)
        } else if index == 1 {
            Some(Status::Ongoing)
        } else {
            None
        }
    }

    /// The variant a decoded filter value selects: the one at the ordinal,
    /// the default where the value held no integer or none in range.
    pub open spec fn selected(index: Option<int>) -> Status {
        match index {
            Some(i) if Status::at(i) is Some => Status::at(i)->0,
            _ => Status::Completed,
        }
    }

    /// The path segment that stands for the state.
    pub open spec fn code(self) -> Seq<char> {
        match self {
            Status::Completed => "wj"@,
            Status::Ongoing => "lz"@,
        }
    }

    /// The variant at an ordinal, where there is one.
    pub fn from_repr(index: usize) -> (status: Option<Status>)
        ensures
            status == Status::at(index as int),
    {
        match index {
            0 => Some(Status::Completed),
            1 => Some(Status::Ongoing),
            _ => None,
        }
    }

    /// The variant that the integer read from a filter selects.
    pub fn decode(index: Option<i64>) -> (status: Status)
        ensures
            status == Status::selected(integer(index)),
    {
        match ordinal(index) {
            Some(i) => match Status::from_repr(i) {
                Some(status) => status,
                None => Status::default(),
            },
            None => Status::default(),
        }
    }

    /// The path segment that stands for the state.
    pub fn as_str(self) -> (code: &'static str)
        ensures
            code@ == self.code(),
    {
        match self {
            Status::Completed => "wj",
            Status::Ongoing => "lz",
        }
    }
}

impl Default for Status {
    /// The state the site shows when none is chosen.
    fn default() -> (status: Status)
        ensures
            status == Status::Completed,
    {
        Status::Completed
    }
}

impl Mode {
    /// The variant at an ordinal, where there is one.
    pub open spec fn at(index: int) -> Option<Mode> {
        if index == 0 {
            Some(Mode::And)
        } else if index == 1 {
            Some(Mode::Or)
        } else {
            None
        }
    }

    /// The variant a decoded filter value selects: the one at the ordinal,
    /// the default where the value held no integer or none in range.
    pub open spec fn selected(index: Option<int>) -> Mode {
        match index {
            Some(i) if Mode::at(i) is Some => Mode::at(i)->0,
            _ => Mode::And,
        }
    }

    /// The separator written between the tags of a query.
    pub open spec fn separator(self) -> Seq<char> {
        match self {
            Mode::And => "+"@,
            Mode::Or => ","@,
        }
    }

    /// The variant at an ordinal, where there is one.
    pub fn from_repr(index: usize) -> (mode: Option<Mode>)
        ensures
            mode == Mode::at(index as int),
    {
        match index {
            0 => Some(Mode::And),
            1 => Some(Mode::Or),
            _ => None,
        }
    }

    /// The variant that the integer read from a filter selects.
    pub fn decode(index: Option<i64>) -> (mode: Mode)
        ensures
            mode == Mode::selected(integer(index)),
    {
        match ordinal(index) {
            Some(i) => match Mode::from_repr(i) {
                Some(mode) => mode,
                None => Mode::default(),
            },
            None => Mode::default(),
        }
    }

    /// The separator written between the tags of a query.
    pub fn as_str(self) -> (separator: &'static str)
        ensures
            separator@ == self.separator(),
    {
        match self {
            Mode::And => "+",
            Mode::Or => ",",
        }
    }
}

impl Default for Mode {
    /// The mode the site shows when none is chosen.
    fn default() -> (mode: Mode)
        ensures
            mode == Mode::And,
    {
        Mode::And
    }
}

impl Sort {
    /// The variant at an ordinal, where there is one.
    pub open spec fn at(index: int) -> Option<Sort> {
        if index == 0 {
            Some(Sort::Likes)
        } else if index == 1 {
            Some(Sort::LastUpdated)
        } else {
            None
        }
    }

    /// The variant a decoded filter value selects: the one at the ordinal,
    /// the default where the value held no integer or none in range.
    pub open spec fn selected(index: Option<int>) -> Sort {
        match index {
            Some(i) if Sort::at(i) is Some => Sort::at(i)->0,
            _ => Sort::LastUpdated,
        }
    }

    /// The value of the query's `sort` parameter; empty for the default
    /// order, which the site applies when the parameter is missing.
    pub open spec fn code(self) -> Seq<char> {
        match self {
            Sort::Likes => "like"@,
            Sort::LastUpdated => ""@,
        }
    }

    /// The variant at an ordinal, where there is one.
    pub fn from_repr(index: usize) -> (sort: Option<Sort>)
        ensures
            sort == Sort::at(index as int),
    {
        match index {
            0 => Some(Sort::Likes),
            1 => Some(Sort::LastUpdated),
            _ => None,
        }
    }

    /// The variant that the integer read from a filter selects.
    pub fn decode(index: Option<i64>) -> (sort: Sort)
        ensures
            sort == Sort::selected(integer(index)),
    {
        match ordinal(index) {
            Some(i) => match Sort::from_repr(i) {
                Some(sort) => sort,
                None => Sort::default(),
            },
            None => Sort::default(),
        }
    }

    /// The value of the query's `sort` parameter.
    pub fn as_str(self) -> (code: &'static str)
        ensures
            code@ == self.code(),
    {
        match self {
            Sort::Likes => "like",
            Sort::LastUpdated => "",
        }
    }
}

impl Default for Sort {
    /// The order the site shows when none is chosen.
    fn default() -> (sort: Sort)
        ensures
            sort == Sort::LastUpdated,
    {
        Sort::LastUpdated
    }
}

/// An optional machine integer as a mathematical one.
pub open spec fn integer(value: Option<i64>) -> Option<int> {
    match value {
        Some(i) => Some(i as int),
        None => None,
    }
}

/// The integer as an ordinal, unless it is missing, negative or too large
/// to index anything.
pub fn ordinal(value: Option<i64>) -> (index: Option<usize>)
    ensures
        index == match value {
            Some(v) if 0 <= v <= usize::MAX => Some(v as usize),
            _ => None,
        },
{
    match value {
        Some(v) => match usize::try_from(v) {
            Ok(i) => Some(i),
            Err(_) => None,
        },
        None => None,
    }
}

/// What kind of control a generic filter is.
#[derive(Debug, Clone, Copy, PartialEq, Eq, Structural)]
pub enum FilterKind {
    /// One choice out of a named list.
    Select,
    /// The choice of an order.
    Sort,
    /// Free text searched in titles.
    Title,
    /// A tag that is switched on or off.
    Genre,
    /// Any control this catalogue has no use for.
    Other,
}

/// The loosely typed value of a generic filter.
#[derive(Debug, Clone, PartialEq, Eq)]
pub enum FilterValue {
    /// A value that reads as an integer.
    Int(i64),
    /// A value that reads as a string.
    Text(String),
    /// A structured value, with its `index` field where that reads as an
    /// integer.
    Object { index: Option<i64> },
    /// Nothing, or a value of any other shape.
    Other,
}

/// A generic filter as the reader hands it over.
#[derive(Debug, Clone, PartialEq, Eq)]
pub struct Filter {
    pub kind: FilterKind,
    pub name: String,
    pub value: FilterValue,
}

/// The mathematical content of a [`FilterValue`].
pub enum ValueView {
    Int(int),
    Text(Seq<char>),
    Object { index: Option<int> },
    Other,
}

/// The mathematical content of a [`Filter`].
pub struct FilterView {
    pub kind: FilterKind,
    pub name: Seq<char>,
    pub value: ValueView,
}

impl ValueView {
    /// The integer the value reads as, if it does.
    pub open spec fn as_int(self) -> Option<int> {
        match self {
            ValueView::Int(i) => Some(i),
            _ => None,
        }
    }

    /// The text the value reads as, if it does.
    pub open spec fn as_text(self) -> Option<Seq<char>> {
        match self {
            ValueView::Text(t) => Some(t),
            _ => None,
        }
    }

    /// The integer in the `index` field of a structured value.
    pub open spec fn index(self) -> Option<int> {
        match self {
            ValueView::Object { index } => index,
            _ => None,
        }
    }
}

impl View for FilterValue {
    type V = ValueView;

    open spec fn view(&self) -> ValueView {
        match self {
            FilterValue::Int(i) => ValueView::Int(*i as int),
            FilterValue::Text(t) => ValueView::Text(t@),
            FilterValue::Object { index } => ValueView::Object { index: integer(*index) },
            FilterValue::Other => ValueView::Other,
        }
    }
}

impl View for Filter {
    type V = FilterView;

    open spec fn view(&self) -> FilterView {
        FilterView { kind: self.kind, name: self.name@, value: self.value@ }
    }
}

impl FilterValue {
    /// The integer the value reads as, if it does.
    pub fn as_int(&self) -> (number: Option<i64>)
        ensures
            integer(number) == self@.as_int(),
    {
        match self {
            FilterValue::Int(i) => Some(*i),
            _ => None,
        }
    }

    /// The text the value reads as, if it does.
    pub fn as_string(&self) -> (text: Option<&String>)
        ensures
            match text {
                Some(t) => self@.as_text() == Some(t@),
                None => self@.as_text() is None,
            },
    {
        match self {
            FilterValue::Text(t) => Some(t),
            _ => None,
        }
    }

    /// The integer in the `index` field of a structured value.
    pub fn index(&self) -> (index: Option<i64>)
        ensures
            integer(index) == self@.index(),
    {
        match self {
            FilterValue::Object { index } => *index,
            _ => None,
        }
    }
}

/// The filters of a list, each by its content.
pub open spec fn filter_views(filters: Seq<Filter>) -> Seq<FilterView> {
    filters.map_values(|f: Filter| f@)
}

} // verus!
