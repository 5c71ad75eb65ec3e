//! Connections between agents: the handle sent to the server and the lines
//! that show requests and connections.
use vstd::prelude::*;
use vstd::string::*;
use crate::text::{owned, push_char, strip_ats, occurs_in, lemma_occurs_in_self, lemma_occurs_in_middle};
use crate::commands::msg::{paren_name, name_suffix};

verus! {

/// A pending connection request.
pub struct ConnectionRequest {
    pub from_handle: String,
    pub from_name: String,
    pub message: String,
}

/// The line that shows a pending request: handle, name, and message.
pub open spec fn request_line(r: ConnectionRequest) -> Seq<char> {
    seq!['@'] + r.from_handle@ + paren_name(r.from_name@) + if r.message@.len() != 0 {
        ": \""@ + r.message@ + seq!['"']
    } else {
        Seq::empty()
    }
}

/// The line that shows a pending request.
pub fn format_request(r: &ConnectionRequest) -> (line: String)
    ensures
        line@ == request_line(*r),
{
    let mut s = String::new();
    push_char(&mut s, '@');
    s.append(r.from_handle.as_str());
    let n = name_suffix(r.from_name.as_str());
    s.append(n.as_str());
    if !r.message.as_str().is_empty() {
        s.append(": \"");
        s.append(r.message.as_str());
        push_char(&mut s, '"');
    }
    assert(s@ =~= request_line(*r));
    s
}

/// The line that shows a connection: `@handle (name)`.
pub fn format_connection(handle: &str, name: &str) -> (line: String)
    ensures
        line@ == seq!['@'] + handle@ + paren_name(name@),
{
    let mut s = String::new();
    push_char(&mut s, '@');
    s.append(handle);
    let n = name_suffix(name);
    s.append(n.as_str());
    assert(s@ =~= seq!['@'] + handle@ + paren_name(name@));
    s
}

/// What was done with a connection.
#[derive(Debug, Clone, Copy, PartialEq, Eq, Structural)]
pub enum ConnectAction {
    Sent,
    Accepted,
    Declined,
    Removed,
}

/// The words in front of the handle in a confirmation.
pub open spec fn action_words(a: ConnectAction) -> Seq<char> {
    match a {
        ConnectAction::Sent => "Connection request sent to @"@,
        ConnectAction::Accepted => "Connected with @"@,
        ConnectAction::Declined => "Declined connection request from @"@,
        ConnectAction::Removed => "Disconnected from @"@,
    }
}

/// The confirmation of a connection command, for the handle as typed (its
/// leading `@` signs are dropped, as they are in the request sent).
pub fn connect_confirmation(a: ConnectAction, handle: &str) -> (line: String)
    ensures
        line@ == action_words(a) + strip_ats(handle@),
{
    let mut s = match a {
        ConnectAction::Sent => owned("Connection request sent to @"),
        ConnectAction::Accepted => owned("Connected with @"),
        ConnectAction::Declined => owned("Declined connection request from @"),
        ConnectAction::Removed => owned("Disconnected from @"),
    };
    let h = crate::text::strip_at_prefix(handle);
    s.append(h.as_str());
    s
}

/// The lines of the first `n` pending requests.
pub open spec fn request_rows(reqs: Seq<ConnectionRequest>, n: nat) -> Seq<Seq<char>>
    decreases n,
{
    if n == 0 {
        Seq::empty()
    } else {
        request_rows(reqs, (n - 1) as nat).push(request_line(reqs[n - 1]))
    }
}

/// What `connect requests` shows: a notice when nothing is pending, else a
/// heading, one line per request, and how to answer.
pub open spec fn requests_view_lines(reqs: Seq<ConnectionRequest>) -> Seq<Seq<char>> {
    if reqs.len() == 0 {
        seq!["No pending connection requests."@]
    } else {
        seq!["Pending connection requests:\n"@] + request_rows(reqs, reqs.len()) + seq![
            "\nUse 'kuren accept <handle>' or 'kuren decline <handle>' to respond."@,
        ]
    }
}

/// What `connect requests` shows.
pub fn requests_view(reqs: &Vec<ConnectionRequest>) -> (lines: Vec<String>)
    ensures
        crate::text::texts(lines@) == requests_view_lines(reqs@),
{
    if reqs.len() == 0 {
        return crate::text::single_line(owned("No pending connection requests."));
    }
    let mut lines = crate::text::single_line(owned("Pending connection requests:\n"));
    let ghost head = crate::text::texts(lines@);
    assert(head + request_rows(reqs@, 0) =~= head);
    let mut i: usize = 0;
    while i < reqs.len()
        invariant
            i <= reqs.len(),
            crate::text::texts(lines@) == head + request_rows(reqs@, i as nat),
        decreases reqs.len() - i,
    {
        let l = format_request(&reqs[i]);
        let ghost before = crate::text::texts(lines@);
        let ghost lv = l@;
        lines.push(l);
        assert(crate::text::texts(lines@) =~= before.push(lv));
        assert(crate::text::texts(lines@) =~= head + request_rows(reqs@, (i + 1) as nat));
        i = i + 1;
    }
    let ghost body = crate::text::texts(lines@);
    lines.push(owned("\nUse 'kuren accept <handle>' or 'kuren decline <handle>' to respond."));
    assert(crate::text::texts(lines@) =~= body.push("\nUse 'kuren accept <handle>' or 'kuren decline <handle>' to respond."@));
    lines
}

/// A connection as listed.
pub struct Connection {
    pub handle: String,
    pub name: String,
}

/// The lines of the first `n` connections.
pub open spec fn connection_rows(conns: Seq<Connection>, n: nat) -> Seq<Seq<char>>
    decreases n,
{
    if n == 0 {
        Seq::empty()
    } else {
        connection_rows(conns, (n - 1) as nat).push(seq!['@'] + conns[n - 1].handle@ + paren_name(conns[n - 1].name@))
    }
}

/// What `connect list` shows: a notice when there are none, else a heading
/// and one line per connection.
pub open spec fn connections_view_lines(conns: Seq<Connection>) -> Seq<Seq<char>> {
    if conns.len() == 0 {
        seq!["No connections yet."@]
    } else {
        seq!["Your connections:\n"@] + connection_rows(conns, conns.len())
    }
}

/// What `connect list` shows.
pub fn connections_view(conns: &Vec<Connection>) -> (lines: Vec<String>)
    ensures
        crate::text::texts(lines@) == connections_view_lines(conns@),
{
    if conns.len() == 0 {
        return crate::text::single_line(owned("No connections yet."));
    }
    let mut lines = crate::text::single_line(owned("Your connections:\n"));
    let ghost head = crate::text::texts(lines@);
    assert(head + connection_rows(conns@, 0) =~= head);
    let mut i: usize = 0;
    while i < conns.len()
        invariant
            i <= conns.len(),
            crate::text::texts(lines@) == head + connection_rows(conns@, i as nat),
        decreases conns.len() - i,
    {
        let l = format_connection(conns[i].handle.as_str(), conns[i].name.as_str());
        let ghost before = crate::text::texts(lines@);
        let ghost lv = l@;
        lines.push(l);
        assert(crate::text::texts(lines@) =~= before.push(lv));
        assert(crate::text::texts(lines@) =~= head + connection_rows(conns@, (i + 1) as nat));
        i = i + 1;
    }
    lines
}

/// A pending request shows `@handle`, the name in brackets when there is one,
/// and the message in quotes exactly when there is one; the handle is at the
/// start and the message appears in the line.
pub proof fn law_request_line(r: ConnectionRequest)
    ensures
        request_line(r).subrange(0, r.from_handle@.len() as int + 1) == seq!['@'] + r.from_handle@,
        r.message@.len() == 0 ==> request_line(r) == seq!['@'] + r.from_handle@ + paren_name(r.from_name@),
        r.message@.len() != 0 ==> request_line(r) == seq!['@'] + r.from_handle@ + paren_name(r.from_name@) + ": \""@
            + r.message@ + seq!['"'],
        occurs_in(request_line(r), r.message@),
{
    let head = seq!['@'] + r.from_handle@ + paren_name(r.from_name@);
    assert(request_line(r).subrange(0, r.from_handle@.len() as int + 1) =~= seq!['@'] + r.from_handle@);
    if r.message@.len() != 0 {
        lemma_occurs_in_self(r.message@);
        lemma_occurs_in_middle(head + ": \""@, r.message@, seq!['"'], r.message@);
        assert(head + ": \""@ + r.message@ + seq!['"'] =~= request_line(r));
    } else {
        assert(request_line(r).subrange(0, 0 + r.message@.len() as int) =~= r.message@);
    }
}

/// The four confirmations of a connection command are told apart: no two
/// actions open with the same words, and each ends in the `@` before the
/// handle.
pub proof fn law_action_words_distinct(a: ConnectAction, b: ConnectAction)
    ensures
        action_words(a).last() == '@',
        a != b ==> action_words(a) != action_words(b),
{
    reveal_strlit("Connection request sent to @");
    reveal_strlit("Connected with @");
    reveal_strlit("Declined connection request from @");
    reveal_strlit("Disconnected from @");
    if a != b && action_words(a) == action_words(b) {
        assert(action_words(a)[3] == action_words(b)[3]);
        assert(action_words(a).len() == action_words(b).len());
    }
}

/// The pending requests listed are the requests given, one line each, in
/// order.
pub proof fn lemma_request_rows(reqs: Seq<ConnectionRequest>, n: nat)
    requires
        n <= reqs.len(),
    ensures
        request_rows(reqs, n).len() == n,
        forall|i: int| 0 <= i < n ==> #[trigger] request_rows(reqs, n)[i] == request_line(reqs[i]),
    decreases n,
{
    if n > 0 {
        lemma_request_rows(reqs, (n - 1) as nat);
    }
}

/// `connect requests` shows a heading, then one line per pending request in
/// the order given, then how to answer; with nothing pending it says so.
pub proof fn law_requests_view(reqs: Seq<ConnectionRequest>, i: int)
    requires
        0 <= i < reqs.len(),
    ensures
        requests_view_lines(reqs).len() == reqs.len() + 2,
        requests_view_lines(reqs)[0] == "Pending connection requests:\n"@,
        requests_view_lines(reqs)[i + 1] == request_line(reqs[i]),
        requests_view_lines(Seq::empty()) == seq!["No pending connection requests."@],
{
    lemma_request_rows(reqs, reqs.len());
    assert(requests_view_lines(reqs)[i + 1] == request_rows(reqs, reqs.len())[i]);
}

/// The connections listed are the connections given, one line each, in
/// order.
pub proof fn lemma_connection_rows(conns: Seq<Connection>, n: nat)
    requires
        n <= conns.len(),
    ensures
        connection_rows(conns, n).len() == n,
        forall|i: int| 0 <= i < n ==> #[trigger] connection_rows(conns, n)[i] == seq!['@'] + conns[i].handle@
            + paren_name(conns[i].name@),
    decreases n,
{
    if n > 0 {
        lemma_connection_rows(conns, (n - 1) as nat);
    }
}

/// `connect list` shows a heading and then `@handle (name)` for each
/// connection in the order given; with none it says so.
pub proof fn law_connections_view(conns: Seq<Connection>, i: int)
    requires
        0 <= i < conns.len(),
    ensures
        connections_view_lines(conns).len() == conns.len() + 1,
        connections_view_lines(conns)[i + 1] == seq!['@'] + conns[i].handle@ + paren_name(conns[i].name@),
        connections_view_lines(Seq::empty()) == seq!["No connections yet."@],
{
    lemma_connection_rows(conns, conns.len());
    assert(connections_view_lines(conns)[i + 1] == connection_rows(conns, conns.len())[i]);
}

} // verus!
