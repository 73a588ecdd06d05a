//! The text shown for the server's replies to `status` and `list`.
use vstd::prelude::*;

use crate::command::string_views;
use crate::text::{append_u16, decimal};

verus! {

/// A player that a status report lists.
#[derive(Clone, Debug, PartialEq, Eq)]
pub struct Player {
    pub name: String,
    pub id: String,
}

/// A server's status report.
#[derive(Clone, Debug, PartialEq, Eq)]
pub struct StatusResponse {
    pub version: String,
    pub max_players: u16,
    pub online_players: u16,
    /// Some of the players online, where the server names them.
    pub sample: Option<Vec<Player>>,
}

/// The servers under a name.
#[derive(Clone, Debug, PartialEq, Eq)]
pub struct ListResponse {
    pub servers: Vec<String>,
}

/// The names of the players, in order.
pub open spec fn player_names(ps: Seq<Player>) -> Seq<Seq<char>> {
    ps.map_values(|p: Player| p.name@)
}

/// One line for each name, each a tab, the name and a line break.
pub open spec fn sample_lines(names: Seq<Seq<char>>) -> Seq<char>
    decreases names.len(),
{
    if names.len() == 0 {
        seq![]
    } else {
        sample_lines(names.drop_last()) + "\t"@ + names.last() + "\n"@
    }
}

/// What follows the counts in a status report: a colon and the sample's
/// lines where there is a sample, else a bare line break.
pub open spec fn status_tail(sample: Option<Seq<Seq<char>>>) -> Seq<char> {
    match sample {
        Some(names) => ":\n"@ + sample_lines(names),
        None => "\n"@,
    }
}

/// The sample's player names, if there is a sample.
pub open spec fn sample_names(s: StatusResponse) -> Option<Seq<Seq<char>>> {
    match s.sample {
        Some(ps) => Some(player_names(ps@)),
        None => None,
    }
}

/// A status report as shown: `id [version] [online/max]` and its tail.
pub open spec fn status_text(id: Seq<char>, s: StatusResponse) -> Seq<char> {
    id + " ["@ + s.version@ + "] ["@ + decimal(s.online_players as nat) + "/"@ + decimal(
        s.max_players as nat,
    ) + "]"@ + status_tail(sample_names(s))
}

/// Each server on a line of its own, in order.
pub open spec fn server_lines(servers: Seq<Seq<char>>) -> Seq<char>
    decreases servers.len(),
{
    if servers.len() == 0 {
        seq![]
    } else {
        server_lines(servers.drop_last()) + servers.last() + "\n"@
    }
}

/// A server list as shown: a `Servers:` line, then one line per server.
pub open spec fn list_text(servers: Seq<Seq<char>>) -> Seq<char> {
    "Servers:\n"@ + server_lines(servers)
}

fn append_sample(out: &mut String, ps: &Vec<Player>)
    ensures
        final(out)@ == old(out)@ + sample_lines(player_names(ps@)),
{
    let ghost start = out@;
    let ghost names = player_names(ps@);
    let mut i: usize = 0;
    while i < ps.len()
        invariant
            names == player_names(ps@),
            i <= ps.len(),
            out@ == start + sample_lines(names.subrange(0, i as int)),
        decreases ps.len() - i,
    {
        out.append("\t");
        out.append(ps[i].name.as_str());
        out.append("\n");
        proof {
            let next = names.subrange(0, i + 1);
            assert(next.drop_last() =~= names.subrange(0, i as int));
            assert(next.last() == ps@[i as int].name@);
        }
        i = i + 1;
        assert(out@ =~= start + sample_lines(names.subrange(0, i as int)));
    }
    assert(names.subrange(0, i as int) =~= names);
}

/// The status report of the server `id` as shown.
pub fn render_status(id: &str, s: &StatusResponse) -> (r: String)
    ensures
        r@ == status_text(id@, *s),
{
    let mut out = id.to_owned();
    out.append(" [");
    out.append(s.version.as_str());
    out.append("] [");
    append_u16(&mut out, s.online_players);
    out.append("/");
    append_u16(&mut out, s.max_players);
    out.append("]");
    match &s.sample {
        Some(ps) => {
            out.append(":\n");
            append_sample(&mut out, ps);
        },
        None => {
            out.append("\n");
        },
    }
    assert(out@ =~= status_text(id@, *s));
    out
}

/// The server list as shown.
pub fn render_list(l: &ListResponse) -> (r: String)
    ensures
        r@ == list_text(string_views(l.servers@)),
{
    let ghost names = string_views(l.servers@);
    let mut out = "Servers:\n".to_owned();
    let mut i: usize = 0;
    while i < l.servers.len()
        invariant
            names == string_views(l.servers@),
            i <= l.servers.len(),
            out@ == "Servers:\n"@ + server_lines(names.subrange(0, i as int)),
        decreases l.servers.len() - i,
    {
        out.append(l.servers[i].as_str());
        out.append("\n");
        proof {
            let next = names.subrange(0, i + 1);
            assert(next.drop_last() =~= names.subrange(0, i as int));
            assert(next.last() == l.servers@[i as int]@);
        }
        i = i + 1;
        assert(out@ =~= "Servers:\n"@ + server_lines(names.subrange(0, i as int)));
    }
    assert(names.subrange(0, i as int) =~= names);
    out
}

} // verus!
