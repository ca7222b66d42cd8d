//! The notes service as the client sees it: the note itself, and for each
//! operation the request that asks for it. Sending a request and reading the
//! answer is left to the caller.

use vstd::prelude::*;

verus! {

/// A note. `id` is given by the server and absent until then.
#[derive(Debug, PartialEq, Eq)]
pub struct Memcell {
    pub id: Option<u32>,
    pub task: String,
}

/// A note as a mathematical value.
pub struct MemcellView {
    pub id: Option<u32>,
    pub task: Seq<char>,
}

impl View for Memcell {
    type V = MemcellView;

    open spec fn view(&self) -> MemcellView {
        MemcellView { id: self.id, task: self.task@ }
    }
}

impl Clone for Memcell {
    fn clone(&self) -> (copy: Self)
        ensures
            copy == *self,
    {
        Memcell { id: self.id, task: self.task.clone() }
    }
}

/// The views of the notes of `cells`, in order.
pub open spec fn memcell_views(cells: Seq<Memcell>) -> Seq<MemcellView> {
    Seq::new(cells.len(), |i: int| cells[i]@)
}

/// Why a call of the notes service failed.
#[derive(Clone, Copy, Debug, PartialEq, Eq, Structural)]
pub enum ClientError {
    /// The connection or the transport failed.
    Network,
    /// The answer's body did not have the expected JSON shape.
    Decode,
}

/// The method of a request.
#[derive(Clone, Copy, Debug, PartialEq, Eq, Structural)]
pub enum Method {
    Get,
    Post,
    Patch,
    Delete,
}

/// What a request carries as its JSON body, by member.
#[derive(Debug, PartialEq, Eq)]
pub enum Body {
    /// No body.
    Empty,
    /// An object with the members `phone` and `task`.
    Create { phone: String, task: String },
    /// An object with the member `task`.
    Update { task: String },
}

/// A body as a mathematical value.
pub enum BodyView {
    Empty,
    Create { phone: Seq<char>, task: Seq<char> },
    Update { task: Seq<char> },
}

impl View for Body {
    type V = BodyView;

    open spec fn view(&self) -> BodyView {
        match self {
            Body::Empty => BodyView::Empty,
            Body::Create { phone, task } => BodyView::Create { phone: phone@, task: task@ },
            Body::Update { task } => BodyView::Update { task: task@ },
        }
    }
}

/// One call of the notes service, ready to be sent.
#[derive(Debug, PartialEq, Eq)]
pub struct Request {
    pub method: Method,
    pub url: String,
    pub body: Body,
}

/// A request as a mathematical value.
pub struct RequestView {
    pub method: Method,
    pub url: Seq<char>,
    pub body: BodyView,
}

impl View for Request {
    type V = RequestView;

    open spec fn view(&self) -> RequestView {
        RequestView { method: self.method, url: self.url@, body: self.body@ }
    }
}

/// The character of the decimal digit `d`.
pub open spec fn digit_char(d: int) -> char
    recommends
        0 <= d < 10,
{
    (48 + d) as char
}

/// The decimal numeral of `n`, without leading zeros.
pub open spec fn decimal(n: nat) -> Seq<char>
    decreases n,
{
    if n < 10 {
        seq![digit_char(n as int)]
    } else {
        decimal(n / 10).push(digit_char((n % 10) as int))
    }
}

/// The path of the collection of notes.
pub open spec fn collection_path() -> Seq<char> {
    "/memcells"@
}

/// The address of the collection of notes below `base`.
pub open spec fn collection_url(base: Seq<char>) -> Seq<char> {
    base + collection_path()
}

/// The address of the note `id` below `base`.
pub open spec fn memcell_url(base: Seq<char>, id: u32) -> Seq<char> {
    base + collection_path() + seq!['/'] + decimal(id as nat)
}

/// Appends the decimal numeral of `n` to `out`.
fn push_decimal(out: &mut String, n: u32)
    ensures
        final(out)@ == old(out)@ + decimal(n as nat),
    decreases n,
{
    if n >= 10 {
        push_decimal(out, n / 10);
    }
    let d: u8 = (n % 10) as u8;
    out.push((48u8 + d) as char);
}

/// The address of the collection below `base`, as text.
fn collection_address(base: &str) -> (url: String)
    ensures
        url@ == collection_url(base@),
{
    let mut url = String::from_str(base);
    url.append("/memcells");
    url
}

/// The address of the note `mem_id` below `base`, as text.
fn memcell_address(base: &str, mem_id: u32) -> (url: String)
    ensures
        url@ == memcell_url(base@, mem_id),
{
    let mut url = collection_address(base);
    url.push('/');
    assert(url@ == collection_url(base@) + seq!['/']);
    push_decimal(&mut url, mem_id);
    url
}

/// The request that lists all notes.
pub fn get_all_memcells(base: &str) -> (request: Request)
    ensures
        request@ == (RequestView {
            method: Method::Get,
            url: collection_url(base@),
            body: BodyView::Empty,
        }),
{
    let url = collection_address(base);
    Request { method: Method::Get, url, body: Body::Empty }
}

/// The request that creates a note with the text `task` for the owner `phone`.
pub fn create_memcell(base: &str, phone: &str, task: &str) -> (request: Request)
    ensures
        request@ == (RequestView {
            method: Method::Post,
            url: collection_url(base@),
            body: BodyView::Create { phone: phone@, task: task@ },
        }),
{
    let url = collection_address(base);
    Request {
        method: Method::Post,
        url,
        body: Body::Create { phone: String::from_str(phone), task: String::from_str(task) },
    }
}

/// The request that replaces the text of the note `mem_id` by `task`.
pub fn update_memcell(base: &str, mem_id: u32, task: &str) -> (request: Request)
    ensures
        request@ == (RequestView {
            method: Method::Patch,
            url: memcell_url(base@, mem_id),
            body: BodyView::Update { task: task@ },
        }),
{
    let url = memcell_address(base, mem_id);
    Request { method: Method::Patch, url, body: Body::Update { task: String::from_str(task) } }
}

/// The request that deletes the note `mem_id`.
pub fn delete_memcell(base: &str, mem_id: u32) -> (request: Request)
    ensures
        request@ == (RequestView {
            method: Method::Delete,
            url: memcell_url(base@, mem_id),
            body: BodyView::Empty,
        }),
{
    let url = memcell_address(base, mem_id);
    Request { method: Method::Delete, url, body: Body::Empty }
}

} // verus!
