//! Notification subscriptions: which categories and event types to ask for,
//! and the line shown for each event that arrives.
use vstd::prelude::*;
use vstd::string::*;
use crate::text::{owned, same_text, texts, occurs_in, lemma_occurs_in_self, lemma_occurs_in_middle, lemma_occurs_in_prefix};

verus! {

/// What to subscribe to.
pub struct SubscribeFilter {
    pub include_categories: Vec<String>,
    pub exclude_categories: Vec<String>,
    pub include_types: Vec<String>,
    pub exclude_types: Vec<String>,
}

/// Each type filter written in full as `category.type`.
pub open spec fn qualified_types(category: Seq<char>, types: Seq<Seq<char>>) -> Seq<Seq<char>> {
    types.map_values(|t: Seq<char>| category + seq!['.'] + t)
}

/// The texts of an optional list, an absent list counting as empty.
pub open spec fn opt_texts(v: Option<Vec<String>>) -> Seq<Seq<char>> {
    match v {
        Some(v) => texts(v@),
        None => Seq::empty(),
    }
}

/// `category.t` for each `t` in `types`.
pub fn qualify_types(category: &str, types: Option<Vec<String>>) -> (res: Vec<String>)
    ensures
        texts(res@) == qualified_types(category@, opt_texts(types)),
{
    let mut res: Vec<String> = Vec::new();
    match types {
        None => {
            assert(texts(res@) =~= qualified_types(category@, opt_texts(types)));
        },
        Some(v) => {
            let mut i: usize = 0;
            while i < v.len()
                invariant
                    i <= v.len(),
                    texts(res@) =~= qualified_types(category@, texts(v@.take(i as int))),
                decreases v.len() - i,
            {
                let mut t = owned(category);
                crate::text::push_char(&mut t, '.');
                t.append(v[i].as_str());
                assert(t@ =~= category@ + seq!['.'] + v@[i as int]@);
                let ghost before = res@;
                res.push(t);
                assert(texts(res@) =~= texts(before).push(category@ + seq!['.'] + v@[i as int]@));
                assert(texts(v@.take(i + 1)) =~= texts(v@.take(i as int)).push(v@[i as int]@));
                assert(qualified_types(category@, texts(v@.take(i + 1))) =~= qualified_types(
                    category@,
                    texts(v@.take(i as int)),
                ).push(category@ + seq!['.'] + v@[i as int]@));
                i = i + 1;
            }
            assert(v@.take(v.len() as int) =~= v@);
        },
    }
    res
}

/// A list of owned strings, left as it is or emptied when absent.
pub fn or_empty(v: Option<Vec<String>>) -> (res: Vec<String>)
    ensures
        texts(res@) == opt_texts(v),
{
    match v {
        Some(v) => v,
        None => {
            let e: Vec<String> = Vec::new();
            assert(texts(e@) =~= Seq::<Seq<char>>::empty());
            e
        },
    }
}

/// The filter for all notifications, by category.
pub fn listen(only: Option<Vec<String>>, exclude: Option<Vec<String>>) -> (f: SubscribeFilter)
    ensures
        texts(f.include_categories@) == opt_texts(only),
        texts(f.exclude_categories@) == opt_texts(exclude),
        f.include_types@.len() == 0,
        f.exclude_types@.len() == 0,
{
    SubscribeFilter {
        include_categories: or_empty(only),
        exclude_categories: or_empty(exclude),
        include_types: Vec::new(),
        exclude_types: Vec::new(),
    }
}

/// The filter for direct messages only.
pub fn listen_dm() -> (f: SubscribeFilter)
    ensures
        texts(f.include_categories@) == seq!["dm"@],
        f.exclude_categories@.len() == 0,
        f.include_types@.len() == 0,
        f.exclude_types@.len() == 0,
{
    let mut only: Vec<String> = Vec::new();
    only.push(owned("dm"));
    let f = listen(Some(only), None);
    assert(texts(f.include_categories@) =~= seq!["dm"@]);
    f
}

/// The filter for one category, narrowed to some of its event types: the
/// category itself is asked for only when no type is named.
pub open spec fn category_filter_holds(
    f: SubscribeFilter,
    category: Seq<char>,
    only: Seq<Seq<char>>,
    exclude: Seq<Seq<char>>,
) -> bool {
    &&& texts(f.include_types@) == qualified_types(category, only)
    &&& texts(f.exclude_types@) == qualified_types(category, exclude)
    &&& texts(f.include_categories@) == (if only.len() == 0 { seq![category] } else { Seq::empty() })
    &&& f.exclude_categories@.len() == 0
}

/// The filter for one category and some of its event types.
pub fn category_filter(category: &str, only: Option<Vec<String>>, exclude: Option<Vec<String>>) -> (f: SubscribeFilter)
    ensures
        category_filter_holds(f, category@, opt_texts(only), opt_texts(exclude)),
{
    let include_types = qualify_types(category, only);
    let exclude_types = qualify_types(category, exclude);
    let mut include_categories: Vec<String> = Vec::new();
    assert(texts(include_types@).len() == include_types@.len());
    assert(qualified_types(category@, opt_texts(only)).len() == opt_texts(only).len());
    if include_types.len() == 0 {
        include_categories.push(owned(category));
    }
    assert(texts(include_categories@) =~= (if opt_texts(only).len() == 0 { seq![category@] } else { Seq::empty() }));
    SubscribeFilter { include_categories, exclude_categories: Vec::new(), include_types, exclude_types }
}

/// The filter for connection events (`request`, `accepted`, `declined`).
pub fn listen_connection(only: Option<Vec<String>>, exclude: Option<Vec<String>>) -> (f: SubscribeFilter)
    ensures
        category_filter_holds(f, "connection"@, opt_texts(only), opt_texts(exclude)),
{
    category_filter("connection", only, exclude)
}

/// The filter for group events.
pub fn listen_group(only: Option<Vec<String>>, exclude: Option<Vec<String>>) -> (f: SubscribeFilter)
    ensures
        category_filter_holds(f, "group"@, opt_texts(only), opt_texts(exclude)),
{
    category_filter("group", only, exclude)
}

/// The filter for email events (`received`, `sent`, `bounced`, ...).
pub fn listen_email(only: Option<Vec<String>>, exclude: Option<Vec<String>>) -> (f: SubscribeFilter)
    ensures
        category_filter_holds(f, "email"@, opt_texts(only), opt_texts(exclude)),
{
    category_filter("email", only, exclude)
}

// ---------------------------------------------------------------------------
// Events
// ---------------------------------------------------------------------------

/// A new direct message.
pub struct DmNotification {
    pub from_handle: String,
    pub from_name: String,
    pub preview: String,
}

/// A connection request or its answer.
pub struct ConnectionNotification {
    pub kind: String,
    pub from_handle: String,
    pub from_name: String,
    pub message: String,
}

/// Something that happened in a group.
pub struct GroupNotification {
    pub kind: String,
    pub group_name: String,
    pub from_handle: String,
    pub from_name: String,
    pub preview: String,
}

/// Something that happened to an email.
pub struct EmailNotification {
    pub kind: String,
    pub from_address: String,
    pub from_name: String,
    pub from_handle: String,
    pub subject: String,
    pub snippet: String,
    pub has_attachments: bool,
    pub error_message: String,
}

/// An event from the notification stream.
pub enum Event {
    Dm(DmNotification),
    Connection(ConnectionNotification),
    Group(GroupNotification),
    Email(EmailNotification),
}

/// `name (@handle)`, or `@handle` when the name is empty.
pub open spec fn sender_text(name: Seq<char>, handle: Seq<char>) -> Seq<char> {
    if name.len() == 0 {
        seq!['@'] + handle
    } else {
        name + " (@"@ + handle + seq![')']
    }
}

/// `name (@handle)`, or `@handle` when the name is empty.
pub fn sender(name: &str, handle: &str) -> (res: String)
    ensures
        res@ == sender_text(name@, handle@),
{
    if name.is_empty() {
        let mut r = String::new();
        crate::text::push_char(&mut r, '@');
        r.append(handle);
        assert(r@ =~= seq!['@'] + handle@);
        r
    } else {
        let mut r = owned(name);
        r.append(" (@");
        r.append(handle);
        crate::text::push_char(&mut r, ')');
        r
    }
}

/// The line for a direct message.
pub open spec fn dm_line(dm: DmNotification) -> Seq<char> {
    "[DM] "@ + sender_text(dm.from_name@, dm.from_handle@) + ": \""@ + dm.preview@ + seq!['"']
}

/// The line for a connection event.
pub open spec fn connection_line(c: ConnectionNotification) -> Seq<char> {
    let name = sender_text(c.from_name@, c.from_handle@);
    if c.kind@ == "request"@ {
        if c.message@.len() == 0 {
            "[Connection] "@ + name + " sent you a connection request"@
        } else {
            "[Connection] "@ + name + " sent you a connection request: \""@ + c.message@ + seq!['"']
        }
    } else if c.kind@ == "accepted"@ {
        "[Connection] "@ + name + " accepted your connection request"@
    } else if c.kind@ == "declined"@ {
        "[Connection] "@ + name + " declined your connection request"@
    } else {
        "[Connection] "@ + name + " - "@ + c.kind@
    }
}

/// The line for a group event.
pub open spec fn group_line(g: GroupNotification) -> Seq<char> {
    let name = sender_text(g.from_name@, g.from_handle@);
    if g.kind@ == "message"@ {
        "[Group: "@ + g.group_name@ + "] "@ + name + ": \""@ + g.preview@ + seq!['"']
    } else if g.kind@ == "added"@ {
        "[Group] "@ + name + " added you to \""@ + g.group_name@ + seq!['"']
    } else if g.kind@ == "renamed"@ {
        "[Group] "@ + name + " renamed the group to \""@ + g.group_name@ + seq!['"']
    } else {
        "[Group: "@ + g.group_name@ + "] "@ + name + " - "@ + g.kind@
    }
}

/// `name <address>`, or the address alone when the name is empty.
pub open spec fn mailbox_text(name: Seq<char>, address: Seq<char>) -> Seq<char> {
    if name.len() == 0 {
        address
    } else {
        name + " <"@ + address + seq!['>']
    }
}

/// The subject, or `(no subject)` when it is empty.
pub open spec fn subject_text(subject: Seq<char>) -> Seq<char> {
    if subject.len() == 0 {
        "(no subject)"@
    } else {
        subject
    }
}

/// The text (two lines for a received email) for an email event.
pub open spec fn email_line(e: EmailNotification) -> Seq<char> {
    let from = mailbox_text(e.from_name@, e.from_address@);
    let handle_info = if e.from_handle@.len() != 0 {
        " (@"@ + e.from_handle@ + seq![')']
    } else {
        Seq::empty()
    };
    if e.kind@ == "received"@ {
        let attachment = if e.has_attachments { " [+]"@ } else { Seq::empty() };
        "[Email] From "@ + from + handle_info + ": \""@ + subject_text(e.subject@) + seq!['"']
            + attachment + "\n  "@ + e.snippet@
    } else if e.kind@ == "sent"@ {
        "[Email] Sent successfully"@
    } else if e.kind@ == "bounced"@ {
        "[Email] Bounce: "@ + e.from_address@ + " - "@ + e.error_message@
    } else if e.kind@ == "complaint"@ {
        "[Email] Complaint from "@ + e.from_address@
    } else {
        "[Email] "@ + from + " - "@ + e.kind@
    }
}

/// The text shown for an event, if any.
pub open spec fn event_text(event: Option<Event>) -> Option<Seq<char>> {
    match event {
        Some(Event::Dm(d)) => Some(dm_line(d)),
        Some(Event::Connection(c)) => Some(connection_line(c)),
        Some(Event::Group(g)) => Some(group_line(g)),
        Some(Event::Email(e)) => Some(email_line(e)),
        None => None,
    }
}

/// The view of an optional line.
pub open spec fn opt_line(o: Option<String>) -> Option<Seq<char>> {
    match o {
        Some(s) => Some(s@),
        None => None,
    }
}

/// `name <address>`, or the address alone when the name is empty.
pub fn mailbox(name: &str, address: &str) -> (res: String)
    ensures
        res@ == mailbox_text(name@, address@),
{
    if name.is_empty() {
        owned(address)
    } else {
        let mut r = owned(name);
        r.append(" <");
        r.append(address);
        crate::text::push_char(&mut r, '>');
        r
    }
}

/// The subject, or `(no subject)` when it is empty.
pub fn subject_or_placeholder(subject: &str) -> (res: String)
    ensures
        res@ == subject_text(subject@),
{
    if subject.is_empty() {
        owned("(no subject)")
    } else {
        owned(subject)
    }
}

/// The line for a direct message.
pub fn print_dm(dm: &DmNotification) -> (line: String)
    ensures
        line@ == dm_line(*dm),
{
    let mut r = owned("[DM] ");
    let name = sender(dm.from_name.as_str(), dm.from_handle.as_str());
    r.append(name.as_str());
    r.append(": \"");
    r.append(dm.preview.as_str());
    crate::text::push_char(&mut r, '"');
    r
}

/// The line for a connection event.
pub fn print_connection(c: &ConnectionNotification) -> (line: String)
    ensures
        line@ == connection_line(*c),
{
    let name = sender(c.from_name.as_str(), c.from_handle.as_str());
    let mut r = owned("[Connection] ");
    r.append(name.as_str());
    if same_text(c.kind.as_str(), "request") {
        if c.message.as_str().is_empty() {
            r.append(" sent you a connection request");
        } else {
            r.append(" sent you a connection request: \"");
            r.append(c.message.as_str());
            crate::text::push_char(&mut r, '"');
        }
    } else if same_text(c.kind.as_str(), "accepted") {
        r.append(" accepted your connection request");
    } else if same_text(c.kind.as_str(), "declined") {
        r.append(" declined your connection request");
    } else {
        r.append(" - ");
        r.append(c.kind.as_str());
    }
    r
}

/// The line for a group event.
pub fn print_group(g: &GroupNotification) -> (line: String)
    ensures
        line@ == group_line(*g),
{
    let name = sender(g.from_name.as_str(), g.from_handle.as_str());
    if same_text(g.kind.as_str(), "message") {
        let mut r = owned("[Group: ");
        r.append(g.group_name.as_str());
        r.append("] ");
        r.append(name.as_str());
        r.append(": \"");
        r.append(g.preview.as_str());
        crate::text::push_char(&mut r, '"');
        r
    } else if same_text(g.kind.as_str(), "added") {
        let mut r = owned("[Group] ");
        r.append(name.as_str());
        r.append(" added you to \"");
        r.append(g.group_name.as_str());
        crate::text::push_char(&mut r, '"');
        r
    } else if same_text(g.kind.as_str(), "renamed") {
        let mut r = owned("[Group] ");
        r.append(name.as_str());
        r.append(" renamed the group to \"");
        r.append(g.group_name.as_str());
        crate::text::push_char(&mut r, '"');
        r
    } else {
        let mut r = owned("[Group: ");
        r.append(g.group_name.as_str());
        r.append("] ");
        r.append(name.as_str());
        r.append(" - ");
        r.append(g.kind.as_str());
        r
    }
}

/// The text for an email event.
pub fn print_email(e: &EmailNotification) -> (line: String)
    ensures
        line@ == email_line(*e),
{
    let from = mailbox(e.from_name.as_str(), e.from_address.as_str());
    if same_text(e.kind.as_str(), "received") {
        let mut r = owned("[Email] From ");
        r.append(from.as_str());
        if !e.from_handle.as_str().is_empty() {
            r.append(" (@");
            r.append(e.from_handle.as_str());
            crate::text::push_char(&mut r, ')');
        }
        r.append(": \"");
        let subject = subject_or_placeholder(e.subject.as_str());
        r.append(subject.as_str());
        crate::text::push_char(&mut r, '"');
        if e.has_attachments {
            r.append(" [+]");
        }
        r.append("\n  ");
        r.append(e.snippet.as_str());
        r
    } else if same_text(e.kind.as_str(), "sent") {
        owned("[Email] Sent successfully")
    } else if same_text(e.kind.as_str(), "bounced") {
        let mut r = owned("[Email] Bounce: ");
        r.append(e.from_address.as_str());
        r.append(" - ");
        r.append(e.error_message.as_str());
        r
    } else if same_text(e.kind.as_str(), "complaint") {
        let mut r = owned("[Email] Complaint from ");
        r.append(e.from_address.as_str());
        r
    } else {
        let mut r = owned("[Email] ");
        r.append(from.as_str());
        r.append(" - ");
        r.append(e.kind.as_str());
        r
    }
}

/// The text shown for an event from the stream; nothing for an empty event.
pub fn print_event(event: &Option<Event>) -> (line: Option<String>)
    ensures
        opt_line(line) == event_text(*event),
{
    match event {
        Some(Event::Dm(d)) => Some(print_dm(d)),
        Some(Event::Connection(c)) => Some(print_connection(c)),
        Some(Event::Group(g)) => Some(print_group(g)),
        Some(Event::Email(e)) => Some(print_email(e)),
        None => None,
    }
}

// ---------------------------------------------------------------------------
// Laws
// ---------------------------------------------------------------------------

/// The sender as shown names the sender's handle.
pub proof fn lemma_sender_shows_handle(name: Seq<char>, handle: Seq<char>)
    ensures
        occurs_in(sender_text(name, handle), handle),
{
    lemma_occurs_in_self(handle);
    if name.len() == 0 {
        lemma_occurs_in_middle(seq!['@'], handle, Seq::empty(), handle);
        assert(seq!['@'] + handle + Seq::<char>::empty() =~= seq!['@'] + handle);
    } else {
        lemma_occurs_in_middle(name + " (@"@, handle, seq![')'], handle);
    }
}

/// Each line for a direct message, a connection event or a group event
/// starts with its category tag and names the sender's handle; the preview of
/// a message, the note sent with a connection request and the name of the
/// group concerned appear in the line too.
pub proof fn law_event_lines_name_sender(dm: DmNotification, c: ConnectionNotification, g: GroupNotification)
    ensures
        dm_line(dm).subrange(0, 5) == "[DM] "@,
        occurs_in(dm_line(dm), dm.from_handle@),
        occurs_in(dm_line(dm), dm.preview@),
        connection_line(c).subrange(0, 13) == "[Connection] "@,
        occurs_in(connection_line(c), c.from_handle@),
        c.kind@ == "request"@ ==> occurs_in(connection_line(c), c.message@),
        group_line(g).subrange(0, 6) == "[Group"@,
        occurs_in(group_line(g), g.from_handle@),
        occurs_in(group_line(g), g.group_name@),
        g.kind@ == "message"@ ==> occurs_in(group_line(g), g.preview@),
{
    reveal_strlit("[DM] ");
    reveal_strlit("[Connection] ");
    reveal_strlit("[Group");
    reveal_strlit("[Group: ");
    reveal_strlit("[Group] ");
    let quote = seq!['"'];
    // direct message
    let ds = sender_text(dm.from_name@, dm.from_handle@);
    lemma_sender_shows_handle(dm.from_name@, dm.from_handle@);
    lemma_occurs_in_middle("[DM] "@, ds, ": \""@, dm.from_handle@);
    lemma_occurs_in_prefix("[DM] "@ + ds + ": \""@, dm.preview@ + quote, dm.from_handle@);
    assert("[DM] "@ + ds + ": \""@ + (dm.preview@ + quote) =~= dm_line(dm));
    lemma_occurs_in_self(dm.preview@);
    lemma_occurs_in_middle("[DM] "@ + ds + ": \""@, dm.preview@, quote, dm.preview@);
    assert(dm_line(dm).subrange(0, 5) =~= "[DM] "@);
    // connection
    let cs = sender_text(c.from_name@, c.from_handle@);
    lemma_sender_shows_handle(c.from_name@, c.from_handle@);
    let tail = connection_line(c).subrange(13 + cs.len() as int, connection_line(c).len() as int);
    assert(connection_line(c) =~= "[Connection] "@ + cs + tail);
    lemma_occurs_in_middle("[Connection] "@, cs, tail, c.from_handle@);
    assert(connection_line(c).subrange(0, 13) =~= "[Connection] "@);
    if c.kind@ == "request"@ && c.message@.len() != 0 {
        lemma_occurs_in_self(c.message@);
        lemma_occurs_in_middle(
            "[Connection] "@ + cs + " sent you a connection request: \""@,
            c.message@,
            quote,
            c.message@,
        );
    } else if c.message@.len() == 0 {
        assert(connection_line(c).subrange(0, 0 + c.message@.len() as int) =~= c.message@);
    }
    // group
    let gs = sender_text(g.from_name@, g.from_handle@);
    lemma_sender_shows_handle(g.from_name@, g.from_handle@);
    lemma_occurs_in_self(g.group_name@);
    if g.kind@ == "message"@ {
        let a = "[Group: "@ + g.group_name@ + "] "@;
        lemma_occurs_in_middle("[Group: "@, g.group_name@, "] "@, g.group_name@);
        lemma_occurs_in_prefix(a, gs + ": \""@ + g.preview@ + quote, g.group_name@);
        assert(a + (gs + ": \""@ + g.preview@ + quote) =~= group_line(g));
        lemma_occurs_in_middle(a, gs, ": \""@ + g.preview@ + quote, g.from_handle@);
        assert(a + gs + (": \""@ + g.preview@ + quote) =~= group_line(g));
        lemma_occurs_in_self(g.preview@);
        lemma_occurs_in_middle(a + gs + ": \""@, g.preview@, quote, g.preview@);
    } else if g.kind@ == "added"@ || g.kind@ == "renamed"@ {
        let mid = if g.kind@ == "added"@ { " added you to \""@ } else { " renamed the group to \""@ };
        assert(group_line(g) =~= "[Group] "@ + gs + mid + g.group_name@ + quote);
        lemma_occurs_in_middle("[Group] "@, gs, mid + g.group_name@ + quote, g.from_handle@);
        assert("[Group] "@ + gs + (mid + g.group_name@ + quote) =~= group_line(g));
        lemma_occurs_in_middle("[Group] "@ + gs + mid, g.group_name@, quote, g.group_name@);
    } else {
        let a = "[Group: "@ + g.group_name@ + "] "@;
        lemma_occurs_in_middle("[Group: "@, g.group_name@, "] "@, g.group_name@);
        lemma_occurs_in_prefix(a, gs + " - "@ + g.kind@, g.group_name@);
        assert(a + (gs + " - "@ + g.kind@) =~= group_line(g));
        lemma_occurs_in_middle(a, gs, " - "@ + g.kind@, g.from_handle@);
        assert(a + gs + (" - "@ + g.kind@) =~= group_line(g));
    }
    assert(group_line(g).subrange(0, 6) =~= "[Group"@);
}

/// The line for a received email carries the attachment marker ` [+]`,
/// right after the quoted subject, exactly when the email has attachments.
/// Without attachments the closing quote is followed directly by the newline
/// and the indented snippet; with them the line is four characters longer
/// and the marker occurs in it.
pub proof fn law_attachment_marker(e: EmailNotification)
    requires
        e.kind@ == "received"@,
    ensures
        ({
            let handle_info = if e.from_handle@.len() != 0 {
                " (@"@ + e.from_handle@ + seq![')']
            } else {
                Seq::empty()
            };
            let head = "[Email] From "@ + mailbox_text(e.from_name@, e.from_address@) + handle_info
                + ": \""@ + subject_text(e.subject@) + seq!['"'];
            &&& !e.has_attachments ==> email_line(e) == head + "\n  "@ + e.snippet@
            &&& e.has_attachments ==> email_line(e) == head + " [+]"@ + "\n  "@ + e.snippet@
            &&& email_line(e).len() == head.len() + 3 + e.snippet@.len() + if e.has_attachments {
                4int
            } else {
                0int
            }
            &&& e.has_attachments ==> occurs_in(email_line(e), " [+]"@)
        }),
{
    reveal_strlit(" [+]");
    reveal_strlit("\n  ");
    let handle_info = if e.from_handle@.len() != 0 {
        " (@"@ + e.from_handle@ + seq![')']
    } else {
        Seq::empty()
    };
    let head = "[Email] From "@ + mailbox_text(e.from_name@, e.from_address@) + handle_info
        + ": \""@ + subject_text(e.subject@) + seq!['"'];
    if e.has_attachments {
        lemma_occurs_in_self(" [+]"@);
        lemma_occurs_in_middle(head, " [+]"@, "\n  "@ + e.snippet@, " [+]"@);
        assert(head + " [+]"@ + ("\n  "@ + e.snippet@) =~= head + " [+]"@ + "\n  "@ + e.snippet@);
    }
}

/// Naming event types replaces the whole category: the category is asked for
/// exactly when no type is named, and every named type stays in that category.
pub proof fn law_types_stay_in_category(
    f: SubscribeFilter,
    category: Seq<char>,
    only: Seq<Seq<char>>,
    exclude: Seq<Seq<char>>,
    i: int,
)
    requires
        category_filter_holds(f, category, only, exclude),
        0 <= i < only.len(),
    ensures
        f.include_categories@.len() == 0,
        texts(f.include_types@)[i] == category + seq!['.'] + only[i],
        texts(f.include_types@)[i].subrange(0, category.len() as int + 1) == category + seq!['.'],
{
    assert(texts(f.include_types@)[i].subrange(0, category.len() as int + 1) =~= category + seq!['.']);
    assert(texts(f.include_categories@).len() == 0);
}

} // verus!
