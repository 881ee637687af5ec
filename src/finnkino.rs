//! The feed's records and the pipeline's own error value.
use vstd::prelude::*;

verus! {

/// One entry of the feed: the `ID` and `Name` elements of a `TheatreArea`.
#[derive(Debug, PartialEq, Eq)]
pub struct TheatreArea {
    pub id: String,
    pub name: String,
}

impl View for TheatreArea {
    type V = (Seq<char>, Seq<char>);

    open spec fn view(&self) -> (Seq<char>, Seq<char>) {
        (self.id@, self.name@)
    }
}

/// The feed's envelope: its entries in document order.
#[derive(Debug)]
pub struct TheatreAreas {
    pub theatre_areas: Vec<TheatreArea>,
}

/// The entries of a list of areas, as (id, name) pairs in order.
pub open spec fn areas_view(v: Seq<TheatreArea>) -> Seq<(Seq<char>, Seq<char>)> {
    v.map_values(|a: TheatreArea| a@)
}

/// Builds a record from its two fields.
pub fn theatre_area(id: &str, name: &str) -> (r: TheatreArea)
    ensures
        r@ == (id@, name@),
{
    TheatreArea { id: id.to_owned(), name: name.to_owned() }
}

impl TheatreAreas {
    /// Unwraps the envelope; the entries keep their order.
    pub fn into_areas(self) -> (r: Vec<TheatreArea>)
        ensures
            r@ == self.theatre_areas@,
    {
        self.theatre_areas
    }
}

/// The text of an optional string field.
pub open spec fn opt_view(o: Option<String>) -> Option<Seq<char>> {
    match o {
        Some(s) => Some(s@),
        None => None,
    }
}

/// What an error holds: each field present or absent.
pub struct ErrorView {
    pub status: Option<Seq<char>>,
    pub code: Option<Seq<char>>,
    pub title: Option<Seq<char>>,
    pub detail: Option<Seq<char>>,
}

/// The error with every field absent.
pub open spec fn absent() -> ErrorView {
    ErrorView { status: None, code: None, title: None, detail: None }
}

/// An error with a title and a detail and nothing else.
pub open spec fn titled(title: Seq<char>, detail: Seq<char>) -> ErrorView {
    ErrorView { status: None, code: None, title: Some(title), detail: Some(detail) }
}

/// A failure of the pipeline. Absent fields are left out when it is written.
#[derive(Clone, Debug, PartialEq, Eq)]
pub struct Error {
    pub status: Option<String>,
    pub code: Option<String>,
    pub title: Option<String>,
    pub detail: Option<String>,
}

impl View for Error {
    type V = ErrorView;

    open spec fn view(&self) -> ErrorView {
        ErrorView {
            status: opt_view(self.status),
            code: opt_view(self.code),
            title: opt_view(self.title),
            detail: opt_view(self.detail),
        }
    }
}

fn copy_opt(o: &Option<String>) -> (r: Option<String>)
    ensures
        opt_view(r) == opt_view(*o),
{
    match o {
        Some(s) => Some(s.clone()),
        None => None,
    }
}

/// Collects the fields of an [`Error`] one by one. Each setter overwrites
/// what was set before; building never fails.
pub struct ErrorBuilder {
    status: Option<String>,
    code: Option<String>,
    title: Option<String>,
    detail: Option<String>,
}

impl View for ErrorBuilder {
    type V = ErrorView;

    closed spec fn view(&self) -> ErrorView {
        ErrorView {
            status: opt_view(self.status),
            code: opt_view(self.code),
            title: opt_view(self.title),
            detail: opt_view(self.detail),
        }
    }
}

impl Default for ErrorBuilder {
    fn default() -> (r: Self)
        ensures
            r@ == absent(),
    {
        ErrorBuilder { status: None, code: None, title: None, detail: None }
    }
}

impl ErrorBuilder {
    pub fn status(self, status: &str) -> (r: Self)
        ensures
            r@ == (ErrorView { status: Some(status@), ..self@ }),
    {
        ErrorBuilder { status: Some(status.to_owned()), ..self }
    }

    pub fn code(self, code: &str) -> (r: Self)
        ensures
            r@ == (ErrorView { code: Some(code@), ..self@ }),
    {
        ErrorBuilder { code: Some(code.to_owned()), ..self }
    }

    pub fn title(self, title: &str) -> (r: Self)
        ensures
            r@ == (ErrorView { title: Some(title@), ..self@ }),
    {
        ErrorBuilder { title: Some(title.to_owned()), ..self }
    }

    pub fn detail(self, detail: &str) -> (r: Self)
        ensures
            r@ == (ErrorView { detail: Some(detail@), ..self@ }),
    {
        ErrorBuilder { detail: Some(detail.to_owned()), ..self }
    }

    /// The error holding exactly the fields that were set.
    pub fn build(&self) -> (r: Error)
        ensures
            r@ == self@,
    {
        Error {
            status: copy_opt(&self.status),
            code: copy_opt(&self.code),
            title: copy_opt(&self.title),
            detail: copy_opt(&self.detail),
        }
    }
}

} // verus!
