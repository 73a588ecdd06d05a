//! The HTTP request that each command stands for.
use vstd::prelude::*;

use crate::command::{opt_view, string_views, CommandView, Commands};
use crate::text::{append_u16, decimal};

verus! {

/// The address the client talks to when none other is given.
pub const DEFAULT_BASE: &'static str = "http://localhost:7955";

/// The HTTP method of a request.
#[derive(PartialEq, Eq, Structural, Clone, Copy, Debug)]
pub enum Method {
    Get,
    Put,
    Post,
}

/// How the reply to a request is shown.
#[derive(Clone, Debug, PartialEq, Eq)]
pub enum Reply {
    /// The response itself, in its debug form.
    Response,
    /// The response's body text, in its debug form.
    BodyText,
    /// A status report of the server with this id; see `render_status`.
    Status { id: String },
    /// A list of servers; see `render_list`.
    List,
    /// The body as a stream of chunks, each written out as it is.
    RawStream,
    /// The body as a stream of chunks, each decoded as UTF-8 text.
    TextStream,
}

/// How a reply is shown, as plain values.
pub enum ReplyView {
    Response,
    BodyText,
    Status { id: Seq<char> },
    List,
    RawStream,
    TextStream,
}

impl View for Reply {
    type V = ReplyView;

    open spec fn view(&self) -> ReplyView {
        match self {
            Reply::Response => ReplyView::Response,
            Reply::BodyText => ReplyView::BodyText,
            Reply::Status { id } => ReplyView::Status { id: id@ },
            Reply::List => ReplyView::List,
            Reply::RawStream => ReplyView::RawStream,
            Reply::TextStream => ReplyView::TextStream,
        }
    }
}

/// The one HTTP call of a command, with the line shown before it is made
/// and how its reply is shown.
#[derive(Clone, Debug, PartialEq, Eq)]
pub struct Request {
    pub method: Method,
    pub url: String,
    pub body: Option<String>,
    pub notice: Option<String>,
    pub reply: Reply,
}

/// A request as plain values.
pub struct RequestView {
    pub method: Method,
    pub url: Seq<char>,
    pub body: Option<Seq<char>>,
    pub notice: Option<Seq<char>>,
    pub reply: ReplyView,
}

impl View for Request {
    type V = RequestView;

    open spec fn view(&self) -> RequestView {
        RequestView {
            method: self.method,
            url: self.url@,
            body: opt_view(self.body),
            notice: opt_view(self.notice),
            reply: self.reply@,
        }
    }
}

/// What serde_json writes for a string, or `None` where it reports an error.
pub uninterp spec fn json_string_of(s: Seq<char>) -> Option<Seq<char>>;

/// Relies on serde_json::to_string applied to a `str`: the JSON string that
/// writes it, quotes and escapes included, determined by the text alone.
#[verifier::external_body]
fn json_string(s: &str) -> (r: Option<String>)
    ensures
        match r {
            Some(j) => json_string_of(s@) == Some(j@),
            None => json_string_of(s@) is None,
        },
{
    serde_json::to_string(s).ok()
}

/// The address of one server: `base/name/id`.
pub open spec fn server_url(base: Seq<char>, name: Seq<char>, id: Seq<char>) -> Seq<char> {
    base + "/"@ + name + "/"@ + id
}

/// The address of a name under which servers are grouped: `base/name`.
pub open spec fn group_url(base: Seq<char>, name: Seq<char>) -> Seq<char> {
    base + "/"@ + name
}

/// Each argument in double quotes, the first preceded by a space and every
/// later one by a comma.
pub open spec fn quoted_list(args: Seq<Seq<char>>) -> Seq<char>
    decreases args.len(),
{
    if args.len() == 0 {
        seq![]
    } else {
        let sep = if args.len() == 1 { " "@ } else { ","@ };
        quoted_list(args.drop_last()) + sep + "\""@ + args.last() + "\""@
    }
}

/// The body of an `exec` request: `{"args":[ "a","b"]}`, the arguments
/// taken as they are.
pub open spec fn exec_body_spec(args: Seq<Seq<char>>) -> Seq<char> {
    "{\"args\":["@ + quoted_list(args) + "]}"@
}

/// An optional JSON value: the value, or `null`.
pub open spec fn json_or_null(o: Option<Seq<char>>) -> Seq<char> {
    match o {
        Some(j) => j,
        None => "null"@,
    }
}

/// An optional port as JSON: its decimal writing, or `null`.
pub open spec fn port_json(p: Option<u16>) -> Seq<char> {
    match p {
        Some(n) => decimal(n as nat),
        None => "null"@,
    }
}

/// The JSON object of a `new` request, from its fields already written as
/// JSON strings.
pub open spec fn new_body_frame(
    name: Seq<char>,
    id: Seq<char>,
    path: Option<Seq<char>>,
    port: Option<u16>,
    version: Option<Seq<char>>,
    server_type: Option<Seq<char>>,
) -> Seq<char> {
    "{\"name\":"@ + name + ",\"id\":"@ + id + ",\"path\":"@ + json_or_null(path) + ",\"port\":"@
        + port_json(port) + ",\"version\":"@ + json_or_null(version) + ",\"server_type\":"@
        + json_or_null(server_type) + "}"@
}

/// An optional string written as JSON: `Some(None)` where there is none,
/// `None` where writing it fails.
pub open spec fn json_opt(o: Option<Seq<char>>) -> Option<Option<Seq<char>>> {
    match o {
        None => Some(None),
        Some(s) => match json_string_of(s) {
            Some(j) => Some(Some(j)),
            None => None,
        },
    }
}

/// The body of a `new` request, or `None` where a field cannot be written
/// as JSON.
pub open spec fn new_body_spec(
    name: Seq<char>,
    id: Seq<char>,
    path: Option<Seq<char>>,
    port: Option<u16>,
    version: Option<Seq<char>>,
    server_type: Option<Seq<char>>,
) -> Option<Seq<char>> {
    match (
        json_string_of(name),
        json_string_of(id),
        json_opt(path),
        json_opt(version),
        json_opt(server_type),
    ) {
        (Some(n), Some(i), Some(p), Some(v), Some(t)) => Some(
            new_body_frame(n, i, p, port, v, t),
        ),
        _ => None,
    }
}

/// The request that a command stands for, against the address `base`.
pub open spec fn request_spec(c: CommandView, base: Seq<char>) -> Option<RequestView> {
    match c {
        CommandView::Start { name, id } => Some(
            RequestView {
                method: Method::Put,
                url: server_url(base, name, id),
                body: None,
                notice: Some("Starting "@ + name + " "@ + id),
                reply: ReplyView::Response,
            },
        ),
        CommandView::Stop { name, id } => Some(
            RequestView {
                method: Method::Put,
                url: server_url(base, name, id),
                body: None,
                notice: Some("Stopping "@ + name + " "@ + id),
                reply: ReplyView::Response,
            },
        ),
        CommandView::Exec { name, id, cmd } => Some(
            RequestView {
                method: Method::Post,
                url: server_url(base, name, id),
                body: Some(exec_body_spec(cmd)),
                notice: Some("exec "@ + exec_body_spec(cmd)),
                reply: ReplyView::Response,
            },
        ),
        CommandView::Output { name, id } => Some(
            RequestView {
                method: Method::Get,
                url: server_url(base, name, id),
                body: None,
                notice: None,
                reply: ReplyView::RawStream,
            },
        ),
        CommandView::Status { name, id } => Some(
            RequestView {
                method: Method::Get,
                url: server_url(base, name, id),
                body: None,
                notice: None,
                reply: ReplyView::Status { id },
            },
        ),
        CommandView::New { name, id, path, port, version, server_type } => match new_body_spec(
            name,
            id,
            path,
            port,
            version,
            server_type,
        ) {
            Some(b) => Some(
                RequestView {
                    method: Method::Post,
                    url: group_url(base, name),
                    body: Some(b),
                    notice: Some("Sending..."@),
                    reply: ReplyView::BodyText,
                },
            ),
            None => None,
        },
        CommandView::List { name } => Some(
            RequestView {
                method: Method::Get,
                url: group_url(base, name),
                body: None,
                notice: None,
                reply: ReplyView::List,
            },
        ),
        CommandView::CleanOutput { name, id } => Some(
            RequestView {
                method: Method::Get,
                url: server_url(base, name, id),
                body: None,
                notice: None,
                reply: ReplyView::TextStream,
            },
        ),
    }
}

/// The body of an `exec` request for the arguments `args`.
pub fn exec_body(args: &Vec<String>) -> (r: String)
    ensures
        r@ == exec_body_spec(string_views(args@)),
{
    let ghost a = string_views(args@);
    let mut out = "{\"args\":[".to_owned();
    let mut i: usize = 0;
    while i < args.len()
        invariant
            a == string_views(args@),
            i <= args.len(),
            out@ == "{\"args\":["@ + quoted_list(a.subrange(0, i as int)),
        decreases args.len() - i,
    {
        if i == 0 {
            out.append(" ");
        } else {
            out.append(",");
        }
        out.append("\"");
        out.append(args[i].as_str());
        out.append("\"");
        proof {
            let next = a.subrange(0, i + 1);
            assert(next.drop_last() =~= a.subrange(0, i as int));
            assert(next.last() == args@[i as int]@);
        }
        i = i + 1;
        assert(out@ =~= "{\"args\":["@ + quoted_list(a.subrange(0, i as int)));
    }
    out.append("]}");
    assert(a.subrange(0, i as int) =~= a);
    assert(out@ =~= exec_body_spec(a));
    out
}

fn append_json_or_null(out: &mut String, o: &Option<String>)
    ensures
        final(out)@ == old(out)@ + json_or_null(opt_view(*o)),
{
    match o {
        Some(j) => out.append(j.as_str()),
        None => out.append("null"),
    }
}

/// Frames the JSON object of a `new` request from its fields, each string
/// already written as JSON.
pub fn new_body_from_encoded(
    name: &String,
    id: &String,
    path: &Option<String>,
    port: Option<u16>,
    version: &Option<String>,
    server_type: &Option<String>,
) -> (r: String)
    ensures
        r@ == new_body_frame(
            name@,
            id@,
            opt_view(*path),
            port,
            opt_view(*version),
            opt_view(*server_type),
        ),
{
    let mut out = "{\"name\":".to_owned();
    out.append(name.as_str());
    out.append(",\"id\":");
    out.append(id.as_str());
    out.append(",\"path\":");
    append_json_or_null(&mut out, path);
    out.append(",\"port\":");
    match port {
        Some(p) => append_u16(&mut out, p),
        None => out.append("null"),
    }
    out.append(",\"version\":");
    append_json_or_null(&mut out, version);
    out.append(",\"server_type\":");
    append_json_or_null(&mut out, server_type);
    out.append("}");
    out
}

fn json_optional(o: &Option<String>) -> (r: Option<Option<String>>)
    ensures
        match r {
            Some(x) => json_opt(opt_view(*o)) == Some(opt_view(x)),
            None => json_opt(opt_view(*o)) is None,
        },
{
    match o {
        None => Some(None),
        Some(s) => match json_string(s.as_str()) {
            Some(j) => Some(Some(j)),
            None => None,
        },
    }
}

/// The body of a `new` request: the server's settings as a JSON object,
/// absent ones as `null`; `None` where serde_json cannot write a field.
pub fn new_body(
    name: &String,
    id: &String,
    path: &Option<String>,
    port: Option<u16>,
    version: &Option<String>,
    server_type: &Option<String>,
) -> (r: Option<String>)
    ensures
        opt_view(r) == new_body_spec(
            name@,
            id@,
            opt_view(*path),
            port,
            opt_view(*version),
            opt_view(*server_type),
        ),
{
    let n = match json_string(name.as_str()) {
        Some(j) => j,
        None => return None,
    };
    let i = match json_string(id.as_str()) {
        Some(j) => j,
        None => return None,
    };
    let p = match json_optional(path) {
        Some(x) => x,
        None => return None,
    };
    let v = match json_optional(version) {
        Some(x) => x,
        None => return None,
    };
    let t = match json_optional(server_type) {
        Some(x) => x,
        None => return None,
    };
    Some(new_body_from_encoded(&n, &i, &p, port, &v, &t))
}

fn concat3(a: &str, b: &str, c: &str) -> (r: String)
    ensures
        r@ == a@ + b@ + c@,
{
    let mut out = a.to_owned();
    out.append(b);
    out.append(c);
    out
}

impl Commands {
    /// The one HTTP request that this command stands for, against the
    /// address `base`; `None` only where the body of `new` cannot be written.
    pub fn request(&self, base: &str) -> (r: Option<Request>)
        ensures
            match r {
                Some(q) => request_spec(self@, base@) == Some(q@),
                None => request_spec(self@, base@) is None,
            },
    {
        match self {
            Commands::Start { name, id } => Some(
                Request {
                    method: Method::Put,
                    url: server_address(base, name, id),
                    body: None,
                    notice: Some(concat3("Starting ", name.as_str(), " ").concat(id.as_str())),
                    reply: Reply::Response,
                },
            ),
            Commands::Stop { name, id } => Some(
                Request {
                    method: Method::Put,
                    url: server_address(base, name, id),
                    body: None,
                    notice: Some(concat3("Stopping ", name.as_str(), " ").concat(id.as_str())),
                    reply: Reply::Response,
                },
            ),
            Commands::Exec { name, id, cmd } => {
                let body = exec_body(cmd);
                let notice = "exec ".to_owned().concat(body.as_str());
                Some(
                    Request {
                        method: Method::Post,
                        url: server_address(base, name, id),
                        body: Some(body),
                        notice: Some(notice),
                        reply: Reply::Response,
                    },
                )
            },
            Commands::Output { name, id } => Some(
                Request {
                    method: Method::Get,
                    url: server_address(base, name, id),
                    body: None,
                    notice: None,
                    reply: Reply::RawStream,
                },
            ),
            Commands::Status { name, id } => Some(
                Request {
                    method: Method::Get,
                    url: server_address(base, name, id),
                    body: None,
                    notice: None,
                    reply: Reply::Status { id: id.clone() },
                },
            ),
            Commands::New { name, id, path, port, version, server_type } => {
                match new_body(name, id, path, *port, version, server_type) {
                    Some(b) => Some(
                        Request {
                            method: Method::Post,
                            url: concat3(base, "/", name.as_str()),
                            body: Some(b),
                            notice: Some("Sending...".to_owned()),
                            reply: Reply::BodyText,
                        },
                    ),
                    None => None,
                }
            },
            Commands::List { name } => Some(
                Request {
                    method: Method::Get,
                    url: concat3(base, "/", name.as_str()),
                    body: None,
                    notice: None,
                    reply: Reply::List,
                },
            ),
            Commands::CleanOutput { name, id } => Some(
                Request {
                    method: Method::Get,
                    url: server_address(base, name, id),
                    body: None,
                    notice: None,
                    reply: Reply::TextStream,
                },
            ),
        }
    }
}

fn server_address(base: &str, name: &String, id: &String) -> (r: String)
    ensures
        r@ == server_url(base@, name@, id@),
{
    concat3(base, "/", name.as_str()).concat("/").concat(id.as_str())
}

} // verus!
