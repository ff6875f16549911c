use vstd::prelude::*;
use crate::results::{SearchResult, ContextOption};

verus! {

/// A request from the launcher to the search backend.
#[derive(Debug, Clone, PartialEq, Eq)]
pub enum Request {
    Close,
    Search(String),
    Activate(u32),
    Context(u32),
    ActivateContext(u32, u32),
}

/// A response of the search backend; responses carry no correlation id.
#[derive(Debug, PartialEq, Eq)]
pub enum Response {
    Update(Vec<SearchResult>),
    Context { id: u32, options: Vec<ContextOption> },
    Fill(String),
    DesktopEntry(String),
    Close,
}

/// What the backend task reports to the launcher.
#[derive(Debug, PartialEq, Eq)]
pub enum LauncherEvent {
    /// The backend is ready and requests may now be sent to it.
    Started,
    Response(Response),
}

/// The mathematical form of a request.
pub enum RequestModel {
    Close,
    Search(Seq<char>),
    Activate(u32),
    Context(u32),
    ActivateContext(u32, u32),
}

impl View for Request {
    type V = RequestModel;

    open spec fn view(&self) -> RequestModel {
        match self {
            Request::Close => RequestModel::Close,
            Request::Search(q) => RequestModel::Search(q@),
            Request::Activate(id) => RequestModel::Activate(*id),
            Request::Context(id) => RequestModel::Context(*id),
            Request::ActivateContext(id, o) => RequestModel::ActivateContext(*id, *o),
        }
    }
}

/// The mathematical form of a response.
pub enum ResponseModel {
    Update(Seq<SearchResult>),
    Context { id: u32, options: Seq<ContextOption> },
    Fill(Seq<char>),
    DesktopEntry(Seq<char>),
    Close,
}

impl View for Response {
    type V = ResponseModel;

    open spec fn view(&self) -> ResponseModel {
        match self {
            Response::Update(l) => ResponseModel::Update(l@),
            Response::Context { id, options } => ResponseModel::Context {
                id: *id,
                options: options@,
            },
            Response::Fill(t) => ResponseModel::Fill(t@),
            Response::DesktopEntry(p) => ResponseModel::DesktopEntry(p@),
            Response::Close => ResponseModel::Close,
        }
    }
}

} // verus!
