//! Error documents in the shape of JSON:API error objects.
use std::collections::HashMap;

use vstd::prelude::*;

use crate::finnkino;
use crate::finnkino::{opt_view, ErrorView};

verus! {

/// A link that leads to further details about a particular occurrence of the problem.
#[derive(Clone, Debug, PartialEq, Eq)]
pub struct ErrorLink {
    pub about: String,
}

/// What in the request the error points at.
#[derive(Clone, Debug, PartialEq, Eq)]
pub struct ErrorSource {
    pub pointer: Option<String>,
    pub parameter: Option<String>,
}

/// An error source as (pointer, parameter).
pub open spec fn source_view(s: ErrorSource) -> (Option<Seq<char>>, Option<Seq<char>>) {
    (opt_view(s.pointer), opt_view(s.parameter))
}

/// What an error object holds: each member present or absent.
pub struct ObjectView {
    pub id: Option<Seq<char>>,
    pub about: Option<Seq<char>>,
    pub status: Option<Seq<char>>,
    pub code: Option<Seq<char>>,
    pub title: Option<Seq<char>>,
    pub detail: Option<Seq<char>>,
    pub source: Option<(Option<Seq<char>>, Option<Seq<char>>)>,
    pub meta: Option<Map<String, String>>,
}

/// The error object with every member absent.
pub open spec fn empty_object() -> ObjectView {
    ObjectView {
        id: None,
        about: None,
        status: None,
        code: None,
        title: None,
        detail: None,
        source: None,
        meta: None,
    }
}

/// One error object. Absent members are left out when it is written.
#[derive(Clone, Debug, PartialEq)]
pub struct Error {
    pub id: Option<String>,
    pub links: Option<ErrorLink>,
    pub status: Option<String>,
    pub code: Option<String>,
    pub title: Option<String>,
    pub detail: Option<String>,
    pub source: Option<ErrorSource>,
    pub meta: Option<HashMap<String, String>>,
}

impl View for Error {
    type V = ObjectView;

    open spec fn view(&self) -> ObjectView {
        ObjectView {
            id: opt_view(self.id),
            about: match self.links {
                Some(l) => Some(l.about@),
                None => None,
            },
            status: opt_view(self.status),
            code: opt_view(self.code),
            title: opt_view(self.title),
            detail: opt_view(self.detail),
            source: match self.source {
                Some(s) => Some(source_view(s)),
                None => None,
            },
            meta: match self.meta {
                Some(m) => Some(m@),
                None => None,
            },
        }
    }
}

/// `name` as a one-member list where the member is present, else nothing.
pub open spec fn member_if(present: bool, name: Seq<char>) -> Seq<Seq<char>> {
    if present {
        seq![name]
    } else {
        seq![]
    }
}

/// The names of the members that an error object is written with, in order.
pub open spec fn members(o: ObjectView) -> Seq<Seq<char>> {
    member_if(o.id is Some, "id"@) + member_if(o.about is Some, "links"@) + member_if(
        o.status is Some,
        "status"@,
    ) + member_if(o.code is Some, "code"@) + member_if(o.title is Some, "title"@) + member_if(
        o.detail is Some,
        "detail"@,
    ) + member_if(o.source is Some, "source"@) + member_if(o.meta is Some, "meta"@)
}

/// The texts of a list of static strings.
pub open spec fn texts(v: Seq<&'static str>) -> Seq<Seq<char>> {
    v.map_values(|s: &'static str| s@)
}

fn push_if(v: &mut Vec<&'static str>, present: bool, name: &'static str)
    ensures
        texts(final(v)@) == texts(old(v)@) + member_if(present, name@),
{
    if present {
        v.push(name);
    }
    assert(texts(final(v)@) =~= texts(old(v)@) + member_if(present, name@));
}

impl Error {
    /// The names of the members this object is written with: exactly the
    /// present ones, in declaration order.
    pub fn member_names(&self) -> (r: Vec<&'static str>)
        ensures
            texts(r@) == members(self@),
    {
        let mut v: Vec<&'static str> = Vec::new();
        assert(texts(v@) =~= seq![]);
        push_if(&mut v, self.id.is_some(), "id");
        push_if(&mut v, self.links.is_some(), "links");
        push_if(&mut v, self.status.is_some(), "status");
        push_if(&mut v, self.code.is_some(), "code");
        push_if(&mut v, self.title.is_some(), "title");
        push_if(&mut v, self.detail.is_some(), "detail");
        push_if(&mut v, self.source.is_some(), "source");
        push_if(&mut v, self.meta.is_some(), "meta");
        assert(texts(v@) =~= members(self@));
        v
    }
}

/// An error object built with nothing but a title is written with exactly
/// one member, `title`.
pub proof fn title_only_has_one_member(title: Seq<char>)
    ensures
        members(ObjectView { title: Some(title), ..empty_object() }) == seq!["title"@],
{
    assert(members(ObjectView { title: Some(title), ..empty_object() }) =~= seq!["title"@]);
}

/// Collects the members of an [`Error`] one by one. Each setter overwrites
/// what was set before; building never fails.
pub struct ErrorBuilder {
    object: Error,
}

impl View for ErrorBuilder {
    type V = ObjectView;

    closed spec fn view(&self) -> ObjectView {
        self.object@
    }
}

impl Default for ErrorBuilder {
    fn default() -> (r: Self)
        ensures
            r@ == empty_object(),
    {
        ErrorBuilder {
            object: Error {
                id: None,
                links: None,
                status: None,
                code: None,
                title: None,
                detail: None,
                source: None,
                meta: None,
            },
        }
    }
}

impl ErrorBuilder {
    pub fn id(self, id: &str) -> (r: Self)
        ensures
            r@ == (ObjectView { id: Some(id@), ..self@ }),
    {
        ErrorBuilder { object: Error { id: Some(id.to_owned()), ..self.object } }
    }

    pub fn links(self, links: ErrorLink) -> (r: Self)
        ensures
            r@ == (ObjectView { about: Some(links.about@), ..self@ }),
    {
        ErrorBuilder { object: Error { links: Some(links), ..self.object } }
    }

    pub fn status(self, status: &str) -> (r: Self)
        ensures
            r@ == (ObjectView { status: Some(status@), ..self@ }),
    {
        ErrorBuilder { object: Error { status: Some(status.to_owned()), ..self.object } }
    }

    pub fn code(self, code: &str) -> (r: Self)
        ensures
            r@ == (ObjectView { code: Some(code@), ..self@ }),
    {
        ErrorBuilder { object: Error { code: Some(code.to_owned()), ..self.object } }
    }

    pub fn title(self, title: &str) -> (r: Self)
        ensures
            r@ == (ObjectView { title: Some(title@), ..self@ }),
    {
        ErrorBuilder { object: Error { title: Some(title.to_owned()), ..self.object } }
    }

    pub fn detail(self, detail: &str) -> (r: Self)
        ensures
            r@ == (ObjectView { detail: Some(detail@), ..self@ }),
    {
        ErrorBuilder { object: Error { detail: Some(detail.to_owned()), ..self.object } }
    }

    pub fn source(self, source: ErrorSource) -> (r: Self)
        ensures
            r@ == (ObjectView { source: Some(source_view(source)), ..self@ }),
    {
        ErrorBuilder { object: Error { source: Some(source), ..self.object } }
    }

    pub fn meta(self, meta: HashMap<String, String>) -> (r: Self)
        ensures
            r@ == (ObjectView { meta: Some(meta@), ..self@ }),
    {
        ErrorBuilder { object: Error { meta: Some(meta), ..self.object } }
    }

    /// The error object holding exactly the members that were set.
    pub fn build(self) -> (r: Error)
        ensures
            r@ == self@,
    {
        self.object
    }
}

/// The error object that carries a pipeline error's fields.
pub open spec fn object_of(e: ErrorView) -> ObjectView {
    ObjectView { status: e.status, code: e.code, title: e.title, detail: e.detail, ..empty_object() }
}

/// A document of error objects: `{"errors": [...]}`.
#[derive(Debug, PartialEq)]
pub struct Errors {
    pub errors: Vec<Error>,
}

impl Errors {
    /// The document holds a single error object, as the pipeline stops at
    /// its first failure.
    pub open spec fn single(&self) -> bool {
        self.errors@.len() == 1
    }

    /// The document for a pipeline error: one object with the fields that
    /// the error has, and no others.
    pub fn from_error(error: finnkino::Error) -> (r: Errors)
        ensures
            r.single(),
            r.errors@[0]@ == object_of(error@),
    {
        let mut b = ErrorBuilder::default();
        if let Some(status) = &error.status {
            b = b.status(status.as_str());
        }
        if let Some(code) = &error.code {
            b = b.code(code.as_str());
        }
        if let Some(title) = &error.title {
            b = b.title(title.as_str());
        }
        if let Some(detail) = &error.detail {
            b = b.detail(detail.as_str());
        }
        let object = b.build();
        assert(object@ == object_of(error@));
        Errors { errors: vec![object] }
    }
}

impl From<finnkino::Error> for Errors {
    fn from(error: finnkino::Error) -> (r: Errors)
        ensures
            r.single(),
            r.errors@[0]@ == object_of(error@),
    {
        Errors::from_error(error)
    }
}

impl vstd::std_specs::convert::FromSpecImpl<finnkino::Error> for Errors {
    open spec fn obeys_from_spec() -> bool {
        false
    }

    open spec fn from_spec(v: finnkino::Error) -> Errors {
        choose|r: Errors| r.single() && r.errors@[0]@ == object_of(v@)
    }
}

} // verus!
