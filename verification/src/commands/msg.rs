//! Direct and group messages: where a message goes, which threads are
//! listed, and how threads and messages are shown.
use vstd::prelude::*;
use vstd::string::*;
use crate::text::{owned, push_char, strip_ats, truncated, can_truncate};
use crate::commands::listen::{sender, sender_text};

verus! {

/// Where a message is sent: to a handle (a direct message) or to a thread.
pub enum MessageTarget {
    Handle(String),
    ThreadId(String),
}

/// Whether `target` names a handle (it starts with `@`).
pub open spec fn names_handle(target: Seq<char>) -> bool {
    target.len() > 0 && target[0] == '@'
}

/// The target named by the text the user typed: `@handle` is a handle
/// (without its `@` signs), anything else a thread ID.
pub fn message_target(target: &str) -> (t: MessageTarget)
    ensures
        match t {
            MessageTarget::Handle(h) => names_handle(target@) && h@ == strip_ats(target@),
            MessageTarget::ThreadId(id) => !names_handle(target@) && id@ == target@,
        },
{
    if crate::text::starts_with_at(target) {
        MessageTarget::Handle(crate::text::strip_at_prefix(target))
    } else {
        MessageTarget::ThreadId(owned(target))
    }
}

/// The confirmation shown once a message is sent.
pub fn sent_confirmation(target: &str, thread_id: &str) -> (line: String)
    ensures
        line@ == if names_handle(target@) {
            "Message sent to "@ + target@
        } else {
            "Message sent to thread "@ + thread_id@
        },
{
    if crate::text::starts_with_at(target) {
        let mut r = owned("Message sent to ");
        r.append(target);
        r
    } else {
        let mut r = owned("Message sent to thread ");
        r.append(thread_id);
        r
    }
}

/// The kind of a thread.
#[derive(Debug, Clone, Copy, PartialEq, Eq, Structural)]
pub enum ThreadKind {
    Unspecified,
    Dm,
    Group,
}

/// The kind of thread that a `--filter` value asks for.
pub open spec fn filter_kind(filter: Option<Seq<char>>) -> ThreadKind {
    match filter {
        Some(f) => if f == "dm"@ || f == "dms"@ {
            ThreadKind::Dm
        } else if f == "group"@ || f == "groups"@ {
            ThreadKind::Group
        } else {
            ThreadKind::Unspecified
        },
        None => ThreadKind::Unspecified,
    }
}

/// The kind of thread to list for a `--filter` value (`dm`, `dms`, `group`,
/// `groups`); any other value or none lists every thread.
pub fn thread_filter(filter: Option<&str>) -> (k: ThreadKind)
    ensures
        k == filter_kind(match filter { Some(f) => Some(f@), None => None }),
{
    match filter {
        Some(f) => {
            if crate::text::same_text(f, "dm") || crate::text::same_text(f, "dms") {
                ThreadKind::Dm
            } else if crate::text::same_text(f, "group") || crate::text::same_text(f, "groups") {
                ThreadKind::Group
            } else {
                ThreadKind::Unspecified
            }
        },
        None => ThreadKind::Unspecified,
    }
}

/// The label of a thread kind.
pub open spec fn kind_label(k: ThreadKind) -> Seq<char> {
    match k {
        ThreadKind::Dm => "DM"@,
        ThreadKind::Group => "Group"@,
        ThreadKind::Unspecified => "Unknown"@,
    }
}

/// The label of a thread kind.
pub fn thread_kind_label(k: ThreadKind) -> (l: String)
    ensures
        l@ == kind_label(k),
{
    match k {
        ThreadKind::Dm => owned("DM"),
        ThreadKind::Group => owned("Group"),
        ThreadKind::Unspecified => owned("Unknown"),
    }
}

/// A thread as listed.
pub struct ThreadSummary {
    pub id: String,
    pub kind: ThreadKind,
    pub name: String,
    pub other_handle: String,
    pub last_message: String,
    pub last_message_at: String,
    pub is_admin: bool,
}

/// The name a thread is shown by: the other party's handle for a direct
/// message, the group name for a group, the thread ID when that is empty.
pub open spec fn thread_display_name(t: ThreadSummary) -> Seq<char> {
    if t.kind == ThreadKind::Dm {
        if t.other_handle@.len() != 0 { seq!['@'] + t.other_handle@ } else { t.id@ }
    } else {
        if t.name@.len() != 0 { t.name@ } else { t.id@ }
    }
}

/// The last message cut to 50 bytes, or `(no messages)`.
pub open spec fn preview_text(last_message: Seq<char>) -> Seq<char> {
    if last_message.len() == 0 {
        "(no messages)"@
    } else {
        truncated(last_message, 50)
    }
}

/// The lines that show a listed thread.
pub open spec fn thread_summary_lines(t: ThreadSummary) -> Seq<Seq<char>> {
    let badge = if t.is_admin && t.kind == ThreadKind::Group { " [admin]"@ } else { Seq::empty() };
    let head = seq!['['] + kind_label(t.kind) + "] "@ + thread_display_name(t) + " - "@ + t.id@ + badge;
    let preview = "  \""@ + preview_text(t.last_message@) + seq!['"'];
    let lines = seq![head, preview];
    let lines = if t.last_message_at@.len() != 0 { lines.push("  "@ + t.last_message_at@) } else { lines };
    lines.push(Seq::empty())
}

/// The texts of a list of lines.
pub open spec fn line_texts(v: Vec<String>) -> Seq<Seq<char>> {
    crate::text::texts(v@)
}

/// The name a thread is shown by.
pub fn thread_name(t: &ThreadSummary) -> (n: String)
    ensures
        n@ == thread_display_name(*t),
{
    if t.kind == ThreadKind::Dm {
        if !t.other_handle.as_str().is_empty() {
            let mut r = String::new();
            push_char(&mut r, '@');
            r.append(t.other_handle.as_str());
            assert(r@ =~= seq!['@'] + t.other_handle@);
            r
        } else {
            owned(t.id.as_str())
        }
    } else {
        if !t.name.as_str().is_empty() {
            owned(t.name.as_str())
        } else {
            owned(t.id.as_str())
        }
    }
}

/// The lines that show a listed thread; a long last message must be cut on
/// a character boundary (byte slicing of a `str` panics elsewhere).
pub fn format_thread_summary(t: &ThreadSummary) -> (lines: Vec<String>)
    requires
        can_truncate(t.last_message@, 50),
    ensures
        line_texts(lines) == thread_summary_lines(*t),
{
    let label = thread_kind_label(t.kind);
    let shown = thread_name(t);
    let mut head = String::new();
    push_char(&mut head, '[');
    head.append(label.as_str());
    head.append("] ");
    head.append(shown.as_str());
    head.append(" - ");
    head.append(t.id.as_str());
    if t.is_admin && t.kind == ThreadKind::Group {
        head.append(" [admin]");
    }
    assert(head@ =~= seq!['['] + kind_label(t.kind) + "] "@ + thread_display_name(*t) + " - "@ + t.id@ + if t.is_admin && t.kind == ThreadKind::Group { " [admin]"@ } else { Seq::empty() });
    let mut preview = owned("  \"");
    if t.last_message.as_str().is_empty() {
        preview.append("(no messages)");
    } else {
        let cut = crate::commands::payments::truncate(t.last_message.as_str(), 50);
        preview.append(cut.as_str());
    }
    push_char(&mut preview, '"');
    assert(preview@ =~= "  \""@ + preview_text(t.last_message@) + seq!['"']);
    let mut lines: Vec<String> = Vec::new();
    lines.push(head);
    lines.push(preview);
    if !t.last_message_at.as_str().is_empty() {
        let mut at = owned("  ");
        at.append(t.last_message_at.as_str());
        lines.push(at);
    }
    lines.push(String::new());
    assert(line_texts(lines) =~= thread_summary_lines(*t));
    lines
}

/// A message in a thread.
pub struct ThreadMessage {
    pub from_handle: String,
    pub from_name: String,
    pub text: String,
    pub created_at: String,
}

/// Who a message is shown as coming from: `You` for one's own messages.
pub open spec fn message_sender(m: ThreadMessage, my_handle: Seq<char>) -> Seq<char> {
    if m.from_handle@ == my_handle {
        "You"@
    } else {
        sender_text(m.from_name@, m.from_handle@)
    }
}

/// The line that shows a message: `[time] sender: text`.
pub open spec fn message_line(m: ThreadMessage, my_handle: Seq<char>) -> Seq<char> {
    seq!['['] + m.created_at@ + "] "@ + message_sender(m, my_handle) + ": "@ + m.text@
}

/// The line that shows a message.
pub fn format_message(m: &ThreadMessage, my_handle: &str) -> (line: String)
    ensures
        line@ == message_line(*m, my_handle@),
{
    let who = if crate::text::same_text(m.from_handle.as_str(), my_handle) {
        owned("You")
    } else {
        sender(m.from_name.as_str(), m.from_handle.as_str())
    };
    let mut r = String::new();
    push_char(&mut r, '[');
    r.append(m.created_at.as_str());
    r.append("] ");
    r.append(who.as_str());
    r.append(": ");
    r.append(m.text.as_str());
    r
}

/// The messages in chronological order: the server sends the newest first.
pub fn chronological(messages: Vec<ThreadMessage>) -> (res: Vec<ThreadMessage>)
    ensures
        res@ == messages@.reverse(),
{
    let mut rest = messages;
    let ghost all = rest@;
    let mut res: Vec<ThreadMessage> = Vec::new();
    while rest.len() > 0
        invariant
            rest@ == all.take(rest@.len() as int),
            res@ == all.skip(rest@.len() as int).reverse(),
            rest@.len() <= all.len(),
        decreases rest.len(),
    {
        let ghost before = rest@;
        let m = rest.pop().unwrap();
        assert(all.skip(rest@.len() as int) =~= seq![m] + all.skip(before.len() as int));
        res.push(m);
        assert(res@ =~= all.skip(rest@.len() as int).reverse());
        assert(rest@ =~= all.take(rest@.len() as int));
    }
    assert(all.skip(0) =~= all);
    res
}

/// The mode of a group: whether only admins may add members.
pub fn group_mode(permissioned: bool) -> (m: String)
    ensures
        m@ == if permissioned { "Permissioned"@ } else { "Open"@ },
{
    if permissioned { owned("Permissioned") } else { owned("Open") }
}

/// A member of a thread.
pub struct ThreadMember {
    pub handle: String,
    pub name: String,
    pub is_admin: bool,
}

/// ` (name)`, or nothing when the name is empty.
pub open spec fn paren_name(name: Seq<char>) -> Seq<char> {
    if name.len() == 0 { Seq::empty() } else { " ("@ + name + seq![')'] }
}

/// ` (name)`, or nothing when the name is empty.
pub fn name_suffix(name: &str) -> (res: String)
    ensures
        res@ == paren_name(name@),
{
    if name.is_empty() {
        String::new()
    } else {
        let mut r = owned(" (");
        r.append(name);
        push_char(&mut r, ')');
        r
    }
}

/// The line that shows a member: `  @handle (name) [admin]`.
pub open spec fn member_line(m: ThreadMember) -> Seq<char> {
    "  @"@ + m.handle@ + paren_name(m.name@) + if m.is_admin { " [admin]"@ } else { Seq::empty() }
}

/// A member's line ends with ` [admin]` exactly for an admin; for any other
/// member it is `  @handle` followed by the name in brackets when there is
/// one, so the admin's line is eight characters longer.
pub proof fn law_admin_marker(m: ThreadMember)
    ensures
        !m.is_admin ==> member_line(m) == "  @"@ + m.handle@ + paren_name(m.name@),
        m.is_admin ==> member_line(m) == "  @"@ + m.handle@ + paren_name(m.name@) + " [admin]"@,
        member_line(m).len() == 3 + m.handle@.len() + paren_name(m.name@).len() + if m.is_admin {
            8int
        } else {
            0int
        },
{
    reveal_strlit("  @");
    reveal_strlit(" [admin]");
}

/// The line that shows a member of a thread.
pub fn format_member(m: &ThreadMember) -> (line: String)
    ensures
        line@ == member_line(*m),
{
    let mut r = owned("  @");
    r.append(m.handle.as_str());
    let n = name_suffix(m.name.as_str());
    r.append(n.as_str());
    if m.is_admin {
        r.append(" [admin]");
    }
    r
}

/// A thread as shown by `msg info`.
pub struct ThreadInfo {
    pub kind: ThreadKind,
    pub name: String,
    pub is_permissioned: bool,
    pub created_at: String,
}

/// The lines that describe a thread before its members: ID, type, name when
/// it has one, mode for a group, creation time, then the members heading.
pub open spec fn thread_info_lines(thread_id: Seq<char>, t: ThreadInfo) -> Seq<Seq<char>> {
    let lines = seq!["Thread: "@ + thread_id, "Type: "@ + kind_label(t.kind)];
    let lines = if t.name@.len() != 0 { lines.push("Name: "@ + t.name@) } else { lines };
    let lines = if t.kind == ThreadKind::Group {
        lines.push("Mode: "@ + if t.is_permissioned { "Permissioned"@ } else { "Open"@ })
    } else {
        lines
    };
    lines.push("Created: "@ + t.created_at@).push("\nMembers:"@)
}

/// The lines that describe a thread before its members.
pub fn format_thread_info(thread_id: &str, t: &ThreadInfo) -> (lines: Vec<String>)
    ensures
        crate::text::texts(lines@) == thread_info_lines(thread_id@, *t),
{
    let mut lines: Vec<String> = Vec::new();
    let mut a = owned("Thread: ");
    a.append(thread_id);
    lines.push(a);
    let mut b = owned("Type: ");
    let label = thread_kind_label(t.kind);
    b.append(label.as_str());
    lines.push(b);
    if !t.name.as_str().is_empty() {
        let mut n = owned("Name: ");
        n.append(t.name.as_str());
        lines.push(n);
    }
    if t.kind == ThreadKind::Group {
        let mut m = owned("Mode: ");
        let mode = group_mode(t.is_permissioned);
        m.append(mode.as_str());
        lines.push(m);
    }
    let mut c = owned("Created: ");
    c.append(t.created_at.as_str());
    lines.push(c);
    lines.push(owned("\nMembers:"));
    assert(crate::text::texts(lines@) =~= thread_info_lines(thread_id@, *t));
    lines
}

/// A group thread shows its mode right after its name (after its type when
/// it has no name): `Mode: Permissioned` when only admins may add members and
/// `Mode: Open` otherwise, the word that `group_mode` gives; an open group is
/// never shown as permissioned.
pub proof fn law_group_mode_line(thread_id: Seq<char>, t: ThreadInfo)
    requires
        t.kind == ThreadKind::Group,
    ensures
        ({
            let k: int = if t.name@.len() != 0 { 3 } else { 2 };
            &&& thread_info_lines(thread_id, t).len() == k + 3
            &&& thread_info_lines(thread_id, t)[k] == "Mode: "@ + if t.is_permissioned {
                "Permissioned"@
            } else {
                "Open"@
            }
            &&& !t.is_permissioned ==> thread_info_lines(thread_id, t)[k] != "Mode: Permissioned"@
        }),
{
    reveal_strlit("Mode: ");
    reveal_strlit("Open");
    reveal_strlit("Mode: Permissioned");
    reveal_strlit("Permissioned");
    let k: int = if t.name@.len() != 0 { 3 } else { 2 };
    let lines = thread_info_lines(thread_id, t);
    assert(lines.len() == k + 3);
    assert(lines[k] == "Mode: "@ + if t.is_permissioned { "Permissioned"@ } else { "Open"@ });
    assert(!t.is_permissioned ==> lines[k].len() != "Mode: Permissioned"@.len());
}

/// Two group threads that differ only in who may add members are shown
/// differently: the mode line tells an open group from a permissioned one.
pub proof fn law_mode_follows_permission(thread_id: Seq<char>, t: ThreadInfo, u: ThreadInfo)
    requires
        t.kind == ThreadKind::Group,
        u.kind == ThreadKind::Group,
        t.name@ == u.name@,
        t.created_at@ == u.created_at@,
        t.is_permissioned != u.is_permissioned,
    ensures
        thread_info_lines(thread_id, t) != thread_info_lines(thread_id, u),
{
    reveal_strlit("Permissioned");
    reveal_strlit("Open");
    let k: int = if t.name@.len() != 0 { 3 } else { 2 };
    assert(thread_info_lines(thread_id, t)[k].len() != thread_info_lines(thread_id, u)[k].len());
}

/// The confirmation shown once a member is added (`handle` as typed).
pub fn member_added(thread_id: &str, handle: &str, as_admin: bool) -> (line: String)
    ensures
        line@ == "Added @"@ + strip_ats(handle@) + " to thread "@ + thread_id@ + if as_admin {
            " as admin"@
        } else {
            Seq::empty()
        },
{
    let h = crate::text::strip_at_prefix(handle);
    let mut r = owned("Added @");
    r.append(h.as_str());
    r.append(" to thread ");
    r.append(thread_id);
    if as_admin {
        r.append(" as admin");
    }
    r
}

/// The lines of the first `n` listed threads.
pub open spec fn thread_blocks(threads: Seq<ThreadSummary>, n: nat) -> Seq<Seq<char>>
    decreases n,
{
    if n == 0 {
        Seq::empty()
    } else {
        thread_blocks(threads, (n - 1) as nat) + thread_summary_lines(threads[n - 1])
    }
}

/// What `msg list` shows: a notice when there are no threads, else a
/// heading and each thread.
pub open spec fn threads_view_lines(threads: Seq<ThreadSummary>) -> Seq<Seq<char>> {
    if threads.len() == 0 {
        seq!["No threads yet."@]
    } else {
        seq!["Your threads:\n"@] + thread_blocks(threads, threads.len())
    }
}

/// What `msg list` shows; long last messages must be cut on a character
/// boundary (byte slicing of a `str` panics elsewhere).
pub fn threads_view(threads: &Vec<ThreadSummary>) -> (lines: Vec<String>)
    requires
        forall|i: int| 0 <= i < threads@.len() ==> can_truncate(#[trigger] threads@[i].last_message@, 50),
    ensures
        crate::text::texts(lines@) == threads_view_lines(threads@),
{
    if threads.len() == 0 {
        return crate::text::single_line(owned("No threads yet."));
    }
    let mut lines = crate::text::single_line(owned("Your threads:\n"));
    let ghost head = crate::text::texts(lines@);
    assert(head + thread_blocks(threads@, 0) =~= head);
    let mut i: usize = 0;
    while i < threads.len()
        invariant
            i <= threads.len(),
            forall|j: int| 0 <= j < threads@.len() ==> can_truncate(#[trigger] threads@[j].last_message@, 50),
            head == seq!["Your threads:\n"@],
            crate::text::texts(lines@) == head + thread_blocks(threads@, i as nat),
        decreases threads.len() - i,
    {
        let block = format_thread_summary(&threads[i]);
        crate::text::append_lines(&mut lines, block);
        assert(crate::text::texts(lines@) =~= head + thread_blocks(threads@, (i + 1) as nat));
        i = i + 1;
    }
    lines
}

/// The number of messages asked for when reading a thread: 50 when none is given.
pub fn messages_limit(limit: Option<i32>) -> (l: i32)
    ensures
        l == match limit { Some(n) => n, None => 50 },
{
    match limit {
        Some(n) => n,
        None => 50,
    }
}

/// The lines of the first `n` messages.
pub open spec fn message_lines(msgs: Seq<ThreadMessage>, my_handle: Seq<char>, n: nat) -> Seq<Seq<char>>
    decreases n,
{
    if n == 0 {
        Seq::empty()
    } else {
        message_lines(msgs, my_handle, (n - 1) as nat).push(message_line(msgs[n - 1], my_handle))
    }
}

/// What `msg read` shows for the target typed by the user and the thread
/// read: a notice when there are no messages, else a heading and the
/// messages oldest first (`newest_first` is the order the server sends).
pub open spec fn messages_view_lines(
    target: Seq<char>,
    thread_id: Seq<char>,
    newest_first: Seq<ThreadMessage>,
    my_handle: Seq<char>,
) -> Seq<Seq<char>> {
    if newest_first.len() == 0 {
        if names_handle(target) {
            seq!["No messages with "@ + target + " yet."@]
        } else {
            seq!["No messages in thread "@ + target + " yet."@]
        }
    } else {
        seq![
            if names_handle(target) {
                "Conversation with "@ + target + ":\n"@
            } else {
                "Messages in thread "@ + thread_id + ":\n"@
            },
        ] + message_lines(newest_first.reverse(), my_handle, newest_first.len())
    }
}

/// What `msg read` shows.
pub fn messages_view(target: &str, thread_id: &str, newest_first: Vec<ThreadMessage>, my_handle: &str) -> (lines: Vec<String>)
    ensures
        crate::text::texts(lines@) == messages_view_lines(target@, thread_id@, newest_first@, my_handle@),
{
    let at = crate::text::starts_with_at(target);
    if newest_first.len() == 0 {
        let mut n = if at { owned("No messages with ") } else { owned("No messages in thread ") };
        n.append(target);
        n.append(" yet.");
        return crate::text::single_line(n);
    }
    let mut h = if at { owned("Conversation with ") } else { owned("Messages in thread ") };
    if at {
        h.append(target);
    } else {
        h.append(thread_id);
    }
    h.append(":\n");
    let mut lines = crate::text::single_line(h);
    let ghost head = crate::text::texts(lines@);
    let ghost all = newest_first@;
    let msgs = chronological(newest_first);
    assert(head + message_lines(msgs@, my_handle@, 0) =~= head);
    let mut i: usize = 0;
    while i < msgs.len()
        invariant
            i <= msgs.len(),
            crate::text::texts(lines@) == head + message_lines(msgs@, my_handle@, i as nat),
        decreases msgs.len() - i,
    {
        let l = format_message(&msgs[i], my_handle);
        let ghost before = crate::text::texts(lines@);
        let ghost lv = l@;
        lines.push(l);
        assert(crate::text::texts(lines@) =~= before.push(lv));
        assert(crate::text::texts(lines@) =~= head + message_lines(msgs@, my_handle@, (i + 1) as nat));
        i = i + 1;
    }
    assert(msgs@.len() == all.len());
    lines
}

} // verus!
