//! Email: what the list, read and thread views show, the defaults sent with
//! queries, and the choices the commands make before calling the server.
use vstd::prelude::*;
use vstd::string::*;
use vstd::utf8::*;
use crate::text::{owned, push_char, texts, joined, byte_prefix, decimal, signed_decimal, i64_text, occurs_in, lemma_occurs_in_self, lemma_occurs_in_middle, lemma_occurs_in_joined};
use crate::commands::listen::{mailbox, mailbox_text, subject_text, subject_or_placeholder};

verus! {

/// An address with its display name.
pub struct Mailbox {
    pub name: String,
    pub address: String,
}

/// The sender as shown: `name <address>`, the address alone, or `(unknown)`.
pub open spec fn from_text(from: Option<Mailbox>) -> Seq<char> {
    match from {
        Some(m) => mailbox_text(m.name@, m.address@),
        None => "(unknown)"@,
    }
}

/// The sender as shown.
pub fn format_from(from: &Option<Mailbox>) -> (res: String)
    ensures
        res@ == from_text(*from),
{
    match from {
        Some(m) => mailbox(m.name.as_str(), m.address.as_str()),
        None => owned("(unknown)"),
    }
}

/// The folder listed when none is named.
pub const DEFAULT_FOLDER: &'static str = "inbox";

/// The number of items listed when no limit is given.
pub const DEFAULT_LIMIT: i32 = 20;

/// The folder and limit of an email listing, defaults filled in.
pub fn list_query(folder: Option<String>, limit: Option<i32>) -> (q: (String, i32))
    ensures
        q.0@ == match folder { Some(f) => f@, None => DEFAULT_FOLDER@ },
        q.1 == match limit { Some(l) => l, None => DEFAULT_LIMIT },
{
    let f = match folder {
        Some(f) => f,
        None => owned(DEFAULT_FOLDER),
    };
    let l = match limit {
        Some(l) => l,
        None => DEFAULT_LIMIT,
    };
    (f, l)
}

/// An email as listed.
pub struct EmailSummary {
    pub id: String,
    pub from: Option<Mailbox>,
    pub subject: String,
    pub is_read: bool,
    pub is_starred: bool,
    pub has_attachments: bool,
    pub received_at: String,
    pub sent_at: String,
}

/// The date shown in a listing: the first ten bytes of the receive time, or
/// of the send time when there is none, or nothing.
pub open spec fn list_date(received_at: Seq<char>, sent_at: Seq<char>) -> Seq<char> {
    if received_at.len() != 0 {
        byte_prefix(received_at, 10)
    } else if sent_at.len() != 0 {
        byte_prefix(sent_at, 10)
    } else {
        Seq::empty()
    }
}

/// The listed date can be cut: the time it is cut from has a character
/// boundary at byte ten (so at least ten bytes) (byte slicing of a `str` panics elsewhere).
pub open spec fn list_date_cuttable(received_at: Seq<char>, sent_at: Seq<char>) -> bool {
    if received_at.len() != 0 {
        is_char_boundary(encode_utf8(received_at), 10)
    } else if sent_at.len() != 0 {
        is_char_boundary(encode_utf8(sent_at), 10)
    } else {
        true
    }
}

/// The line that lists an email: unread, starred and attachment marks, date,
/// sender, subject and ID.
pub open spec fn summary_line(e: EmailSummary) -> Seq<char> {
    seq![if e.is_read { ' ' } else { '*' }, if e.is_starred { '!' } else { ' ' }, if e.has_attachments { '@' } else { ' ' }, ' ']
        + list_date(e.received_at@, e.sent_at@) + seq![' '] + from_text(e.from) + " - "@ + subject_text(e.subject@)
        + " ["@ + e.id@ + seq![']']
}

/// The first four characters of a listed email are its marks: `*` exactly
/// when it is unread, `!` exactly when it is starred, `@` exactly when it has
/// attachments (a space in place of each mark that does not apply), then a
/// space.
pub proof fn law_summary_marks(e: EmailSummary)
    ensures
        summary_line(e)[0] == if e.is_read { ' ' } else { '*' },
        summary_line(e)[1] == if e.is_starred { '!' } else { ' ' },
        summary_line(e)[2] == if e.has_attachments { '@' } else { ' ' },
        summary_line(e)[3] == ' ',
{
}

/// The date shown in a listing.
pub fn format_list_date(received_at: &str, sent_at: &str) -> (d: String)
    requires
        list_date_cuttable(received_at@, sent_at@),
    ensures
        d@ == list_date(received_at@, sent_at@),
{
    if !received_at.is_empty() {
        crate::text::prefix_bytes(received_at, 10)
    } else if !sent_at.is_empty() {
        crate::text::prefix_bytes(sent_at, 10)
    } else {
        String::new()
    }
}

/// The line that lists an email.
pub fn format_summary(e: &EmailSummary) -> (line: String)
    requires
        list_date_cuttable(e.received_at@, e.sent_at@),
    ensures
        line@ == summary_line(*e),
{
    let mut r = String::new();
    push_char(&mut r, if e.is_read { ' ' } else { '*' });
    push_char(&mut r, if e.is_starred { '!' } else { ' ' });
    push_char(&mut r, if e.has_attachments { '@' } else { ' ' });
    push_char(&mut r, ' ');
    let date = format_list_date(e.received_at.as_str(), e.sent_at.as_str());
    r.append(date.as_str());
    push_char(&mut r, ' ');
    let from = format_from(&e.from);
    r.append(from.as_str());
    r.append(" - ");
    let subject = subject_or_placeholder(e.subject.as_str());
    r.append(subject.as_str());
    r.append(" [");
    r.append(e.id.as_str());
    push_char(&mut r, ']');
    assert(r@ =~= summary_line(*e));
    r
}

/// The closing line of a listing that has unread messages.
pub fn unread_count_line(unread: i64) -> (line: Option<String>)
    ensures
        match line {
            Some(l) => unread > 0 && l@ == seq!['\n'] + signed_decimal(unread as int) + " unread messages"@,
            None => unread <= 0,
        },
{
    if unread > 0 {
        let mut r = String::new();
        push_char(&mut r, '\n');
        let n = i64_text(unread);
        r.append(n.as_str());
        r.append(" unread messages");
        assert(r@ =~= seq!['\n'] + signed_decimal(unread as int) + " unread messages"@);
        Some(r)
    } else {
        None
    }
}

/// The texts of a list of mailboxes, as shown.
pub open spec fn mailbox_texts(v: Seq<Mailbox>) -> Seq<Seq<char>> {
    v.map_values(|m: Mailbox| mailbox_text(m.name@, m.address@))
}

/// A list of mailboxes as shown: comma separated.
pub fn format_mailboxes(v: &Vec<Mailbox>) -> (res: String)
    ensures
        res@ == joined(mailbox_texts(v@), ", "@),
{
    let mut parts: Vec<String> = Vec::new();
    let mut i: usize = 0;
    while i < v.len()
        invariant
            i <= v.len(),
            texts(parts@) =~= mailbox_texts(v@.take(i as int)),
        decreases v.len() - i,
    {
        let t = mailbox(v[i].name.as_str(), v[i].address.as_str());
        let ghost before = parts@;
        parts.push(t);
        assert(texts(parts@) =~= texts(before).push(t@));
        assert(mailbox_texts(v@.take(i + 1)) =~= mailbox_texts(v@.take(i as int)).push(
            mailbox_text(v@[i as int].name@, v@[i as int].address@),
        ));
        i = i + 1;
    }
    assert(v@.take(v.len() as int) =~= v@);
    crate::text::join(&parts, ", ")
}

/// An attachment of an email.
pub struct Attachment {
    pub id: String,
    pub filename: String,
    pub size_bytes: i64,
}

/// The line that shows an attachment.
pub open spec fn attachment_line(a: Attachment) -> Seq<char> {
    "  - "@ + a.filename@ + " ("@ + signed_decimal(a.size_bytes as int) + " bytes) ["@ + a.id@ + seq![']']
}

/// The line that shows an attachment.
pub fn format_attachment(a: &Attachment) -> (line: String)
    ensures
        line@ == attachment_line(*a),
{
    let mut r = owned("  - ");
    r.append(a.filename.as_str());
    r.append(" (");
    let n = i64_text(a.size_bytes);
    r.append(n.as_str());
    r.append(" bytes) [");
    r.append(a.id.as_str());
    push_char(&mut r, ']');
    r
}

/// The date shown when reading an email: the receive time, else the send
/// time, else nothing.
pub open spec fn read_date(received_at: Seq<char>, sent_at: Seq<char>) -> Seq<char> {
    if received_at.len() != 0 {
        received_at
    } else if sent_at.len() != 0 {
        sent_at
    } else {
        Seq::empty()
    }
}

/// The date shown when reading an email.
pub fn format_read_date(received_at: &str, sent_at: &str) -> (d: String)
    ensures
        d@ == read_date(received_at@, sent_at@),
{
    if !received_at.is_empty() {
        owned(received_at)
    } else if !sent_at.is_empty() {
        owned(sent_at)
    } else {
        String::new()
    }
}

/// An email being read.
pub struct EmailDetail {
    pub from: Option<Mailbox>,
    pub to: Vec<Mailbox>,
    pub cc: Vec<Mailbox>,
    pub subject: String,
    pub received_at: String,
    pub sent_at: String,
    pub attachments: Vec<Attachment>,
    pub body_text: String,
}

/// The header lines shown when reading an email: From, To, Cc when there is
/// a copy, Subject, Date when there is one.
pub open spec fn header_lines(e: EmailDetail) -> Seq<Seq<char>> {
    let lines = seq!["From: "@ + from_text(e.from), "To: "@ + joined(mailbox_texts(e.to@), ", "@)];
    let lines = if e.cc@.len() != 0 { lines.push("Cc: "@ + joined(mailbox_texts(e.cc@), ", "@)) } else { lines };
    let lines = lines.push("Subject: "@ + subject_text(e.subject@));
    let date = read_date(e.received_at@, e.sent_at@);
    if date.len() != 0 { lines.push("Date: "@ + date) } else { lines }
}

/// All lines shown when reading an email: the headers, the attachments when
/// there are any, a separator and the body.
pub open spec fn detail_lines(e: EmailDetail) -> Seq<Seq<char>> {
    let lines = header_lines(e);
    let lines = if e.attachments@.len() != 0 {
        lines.push("\nAttachments:"@) + e.attachments@.map_values(|a: Attachment| attachment_line(a))
    } else {
        lines
    };
    lines.push("\n---\n"@).push(e.body_text@)
}

/// A text with a label in front of it.
fn labelled(label: &str, value: &str) -> (res: String)
    ensures
        res@ == label@ + value@,
{
    let mut r = owned(label);
    r.append(value);
    r
}

/// The lines shown when reading an email.
pub fn format_email(e: &EmailDetail) -> (lines: Vec<String>)
    ensures
        texts(lines@) == detail_lines(*e),
{
    let mut lines: Vec<String> = Vec::new();
    let from = format_from(&e.from);
    lines.push(labelled("From: ", from.as_str()));
    let to = format_mailboxes(&e.to);
    lines.push(labelled("To: ", to.as_str()));
    if e.cc.len() != 0 {
        let cc = format_mailboxes(&e.cc);
        lines.push(labelled("Cc: ", cc.as_str()));
    }
    let subject = subject_or_placeholder(e.subject.as_str());
    lines.push(labelled("Subject: ", subject.as_str()));
    let date = format_read_date(e.received_at.as_str(), e.sent_at.as_str());
    if !date.as_str().is_empty() {
        lines.push(labelled("Date: ", date.as_str()));
    }
    assert(texts(lines@) =~= header_lines(*e));
    if e.attachments.len() != 0 {
        lines.push(owned("\nAttachments:"));
        let ghost base = texts(lines@);
        let mut i: usize = 0;
        while i < e.attachments.len()
            invariant
                i <= e.attachments.len(),
                texts(lines@) =~= base + e.attachments@.take(i as int).map_values(|a: Attachment| attachment_line(a)),
            decreases e.attachments.len() - i,
        {
            let l = format_attachment(&e.attachments[i]);
            let ghost before = lines@;
            lines.push(l);
            assert(texts(lines@) =~= texts(before).push(l@));
            assert(e.attachments@.take(i + 1).map_values(|a: Attachment| attachment_line(a)) =~= e.attachments@.take(i as int).map_values(|a: Attachment| attachment_line(a)).push(attachment_line(e.attachments@[i as int])));
            i = i + 1;
        }
        assert(e.attachments@.take(e.attachments@.len() as int) =~= e.attachments@);
    }
    let ghost before_tail = texts(lines@);
    lines.push(owned("\n---\n"));
    lines.push(owned(e.body_text.as_str()));
    assert(texts(lines@) =~= before_tail.push("\n---\n"@).push(e.body_text@));
    lines
}

/// The address of a mailbox appears in the mailbox as shown.
pub proof fn lemma_address_shown(name: Seq<char>, address: Seq<char>)
    ensures
        occurs_in(mailbox_text(name, address), address),
{
    lemma_occurs_in_self(address);
    if name.len() != 0 {
        lemma_occurs_in_middle(name + " <"@, address, seq!['>'], address);
    }
}

/// When an email has copy recipients, the line right after the To line is
/// `Cc: ` followed by the copy mailboxes (`name <address>` or the address)
/// joined by `, `, and the address of every copy recipient appears in it.
pub proof fn law_cc_line(e: EmailDetail, i: int)
    requires
        e.cc@.len() != 0,
        0 <= i < e.cc@.len(),
    ensures
        detail_lines(e)[0] == "From: "@ + from_text(e.from),
        detail_lines(e)[1] == "To: "@ + joined(mailbox_texts(e.to@), ", "@),
        detail_lines(e)[2] == "Cc: "@ + joined(mailbox_texts(e.cc@), ", "@),
        occurs_in(detail_lines(e)[2], e.cc@[i].address@),
{
    let h = header_lines(e);
    assert(h.len() >= 4);
    assert(detail_lines(e)[2] == h[2]);
    assert(detail_lines(e)[1] == h[1]);
    assert(detail_lines(e)[0] == h[0]);
    let m = e.cc@[i];
    lemma_address_shown(m.name@, m.address@);
    assert(mailbox_texts(e.cc@)[i] == mailbox_text(m.name@, m.address@));
    lemma_occurs_in_joined(mailbox_texts(e.cc@), ", "@, i, m.address@);
    let j = joined(mailbox_texts(e.cc@), ", "@);
    lemma_occurs_in_middle("Cc: "@, j, Seq::empty(), m.address@);
    assert("Cc: "@ + j + Seq::<char>::empty() =~= "Cc: "@ + j);
}

/// An email within a thread.
pub struct ThreadEmail {
    pub from: Option<Mailbox>,
    pub received_at: String,
    pub sent_at: String,
    pub body_text: String,
}

/// The lines that show the email at `index` (from zero) in a thread: a
/// separator before all but the first, then sender and date, then the body.
pub open spec fn thread_email_lines(e: ThreadEmail, index: nat) -> Seq<Seq<char>> {
    let head = seq![seq!['['] + decimal(index + 1) + "] From: "@ + from_text(e.from) + " at "@ + read_date(e.received_at@, e.sent_at@), e.body_text@];
    if index > 0 { seq!["\n---\n"@] + head } else { head }
}

/// When an email is read, its date is the time it was received when that is
/// known, else the time it was sent; the Date line is shown exactly when one
/// of the two is known, right after the Subject line.
pub proof fn law_read_date(e: EmailDetail)
    ensures
        read_date(e.received_at@, e.sent_at@) == if e.received_at@.len() != 0 {
            e.received_at@
        } else {
            e.sent_at@
        },
        header_lines(e).len() == 3 + (if e.cc@.len() != 0 { 1int } else { 0int }) + if e.received_at@.len()
            != 0 || e.sent_at@.len() != 0 {
            1int
        } else {
            0int
        },
        (e.received_at@.len() != 0 || e.sent_at@.len() != 0) ==> header_lines(e).last() == "Date: "@
            + read_date(e.received_at@, e.sent_at@),
{
}

/// In a thread the emails are numbered from one, and every email but the
/// first is set off by a separator line.
pub proof fn law_thread_numbering(e: ThreadEmail, index: nat)
    ensures
        thread_email_lines(e, index).len() == if index > 0 { 3int } else { 2int },
        index > 0 ==> thread_email_lines(e, index)[0] == "\n---\n"@,
        thread_email_lines(e, index)[if index > 0 { 1int } else { 0int }].subrange(
            0,
            decimal(index + 1).len() as int + 1,
        ) == seq!['['] + decimal(index + 1),
        thread_email_lines(e, index).last() == e.body_text@,
{
    let k: int = if index > 0 { 1 } else { 0 };
    let line = thread_email_lines(e, index)[k];
    assert(line.subrange(0, decimal(index + 1).len() as int + 1) =~= seq!['['] + decimal(index + 1));
}

/// The lines that show one email of a thread.
pub fn format_thread_email(e: &ThreadEmail, index: u64) -> (lines: Vec<String>)
    requires
        index < u64::MAX,
    ensures
        texts(lines@) == thread_email_lines(*e, index as nat),
{
    let mut lines: Vec<String> = Vec::new();
    if index > 0 {
        lines.push(owned("\n---\n"));
    }
    let mut head = String::new();
    push_char(&mut head, '[');
    let n = crate::text::u64_text(index + 1);
    head.append(n.as_str());
    head.append("] From: ");
    let from = format_from(&e.from);
    head.append(from.as_str());
    head.append(" at ");
    let date = format_read_date(e.received_at.as_str(), e.sent_at.as_str());
    head.append(date.as_str());
    lines.push(head);
    lines.push(owned(e.body_text.as_str()));
    assert(texts(lines@) =~= thread_email_lines(*e, index as nat));
    lines
}

/// The heading of a thread view.
pub fn thread_heading(subject: &str) -> (line: String)
    ensures
        line@ == "Thread: "@ + subject_text(subject@) + seq!['\n'],
{
    let s = subject_or_placeholder(subject);
    let mut r = labelled("Thread: ", s.as_str());
    push_char(&mut r, '\n');
    r
}

/// An address owned by the user.
pub struct EmailAddress {
    pub full_address: String,
    pub is_primary: bool,
}

/// The line that lists an address, starred when primary.
pub fn format_address(a: &EmailAddress) -> (line: String)
    ensures
        line@ == a.full_address@ + if a.is_primary { " *"@ } else { Seq::empty() },
{
    let mut r = owned(a.full_address.as_str());
    if a.is_primary {
        r.append(" *");
    }
    r
}

/// A mail folder.
pub struct Folder {
    pub name: String,
    pub total_count: i64,
    pub unread_count: i64,
}

/// The line that lists a folder: its message count, and its unread count
/// when there are unread messages.
pub open spec fn folder_line(f: Folder) -> Seq<char> {
    f.name@ + ": "@ + signed_decimal(f.total_count as int) + " messages"@ + if f.unread_count > 0 {
        " ("@ + signed_decimal(f.unread_count as int) + " unread)"@
    } else {
        Seq::empty()
    }
}

/// The line that lists a folder.
pub fn format_folder(f: &Folder) -> (line: String)
    ensures
        line@ == folder_line(*f),
{
    let mut r = owned(f.name.as_str());
    r.append(": ");
    let total = i64_text(f.total_count);
    r.append(total.as_str());
    r.append(" messages");
    if f.unread_count > 0 {
        r.append(" (");
        let unread = i64_text(f.unread_count);
        r.append(unread.as_str());
        r.append(" unread)");
    }
    r
}

/// A contact known from past mail.
pub struct Contact {
    pub email_address: String,
    pub display_name: String,
    pub handle: String,
    pub contact_count: i64,
}

/// The line that lists a contact.
pub open spec fn contact_line(c: Contact) -> Seq<char> {
    c.email_address@ + (if c.display_name@.len() == 0 { Seq::empty() } else { " ("@ + c.display_name@ + seq![')'] })
        + (if c.handle@.len() == 0 { Seq::empty() } else { " @"@ + c.handle@ }) + " - "@
        + signed_decimal(c.contact_count as int) + " contacts"@
}

/// The line that lists a contact.
pub fn format_contact(c: &Contact) -> (line: String)
    ensures
        line@ == contact_line(*c),
{
    let mut r = owned(c.email_address.as_str());
    let name = crate::commands::msg::name_suffix(c.display_name.as_str());
    r.append(name.as_str());
    if !c.handle.as_str().is_empty() {
        r.append(" @");
        r.append(c.handle.as_str());
    }
    r.append(" - ");
    let n = i64_text(c.contact_count);
    r.append(n.as_str());
    r.append(" contacts");
    assert(r@ =~= contact_line(*c));
    r
}

/// An email waiting to be sent at a set time.
pub struct ScheduledEmail {
    pub id: String,
    pub scheduled_for: String,
    pub from_address: Option<String>,
    pub to_addresses: Vec<String>,
    pub subject: String,
}

/// The line that lists a scheduled email: time, sender, recipients, subject.
pub open spec fn scheduled_line(e: ScheduledEmail) -> Seq<char> {
    e.scheduled_for@ + " | "@ + (match e.from_address { Some(a) => a@, None => "(unknown)"@ }) + " -> "@
        + joined(texts(e.to_addresses@), ", "@) + " | "@ + subject_text(e.subject@)
}

/// The line that lists a scheduled email.
pub fn format_scheduled(e: &ScheduledEmail) -> (line: String)
    ensures
        line@ == scheduled_line(*e),
{
    let mut r = owned(e.scheduled_for.as_str());
    r.append(" | ");
    match &e.from_address {
        Some(a) => r.append(a.as_str()),
        None => r.append("(unknown)"),
    }
    r.append(" -> ");
    let to = crate::text::join(&e.to_addresses, ", ");
    r.append(to.as_str());
    r.append(" | ");
    let s = subject_or_placeholder(e.subject.as_str());
    r.append(s.as_str());
    r
}

/// Why `email mark` was refused.
#[derive(Debug, Clone, Copy, PartialEq, Eq, Structural)]
pub enum MarkError {
    /// Neither `--read` nor `--unread` was given.
    NoChoice,
}

impl MarkError {
    /// The message shown to the user.
    pub fn message(&self) -> (m: String)
        ensures
            m@ == "Specify either --read or --unread"@,
    {
        owned("Specify either --read or --unread")
    }
}

/// The read state to set: `--read` wins, then `--unread`; one is required.
pub fn mark_choice(read: bool, unread: bool) -> (res: Result<bool, MarkError>)
    ensures
        res == if read {
            Ok::<bool, MarkError>(true)
        } else if unread {
            Ok(false)
        } else {
            Err(MarkError::NoChoice)
        },
{
    if read {
        Ok(true)
    } else if unread {
        Ok(false)
    } else {
        Err(MarkError::NoChoice)
    }
}

/// The confirmation of a bulk change: `N email(s) <what>.`
pub open spec fn count_line(count: i64, what: Seq<char>) -> Seq<char> {
    signed_decimal(count as int) + " email(s) "@ + what + seq!['.']
}

/// The confirmation of a bulk change.
pub fn format_count(count: i64, what: &str) -> (line: String)
    ensures
        line@ == count_line(count, what@),
{
    let mut r = i64_text(count);
    r.append(" email(s) ");
    r.append(what);
    push_char(&mut r, '.');
    r
}

/// What starring did: `starred` or `unstarred`.
pub fn star_action(unstar: bool) -> (a: String)
    ensures
        a@ == if unstar { "unstarred"@ } else { "starred"@ },
{
    if unstar { owned("unstarred") } else { owned("starred") }
}

/// What marking did: `marked as read` or `marked as unread`.
pub fn mark_action(is_read: bool) -> (a: String)
    ensures
        a@ == if is_read { "marked as read"@ } else { "marked as unread"@ },
{
    if is_read { owned("marked as read") } else { owned("marked as unread") }
}

/// What moving did: `moved to <folder>`.
pub fn move_action(folder: &str) -> (a: String)
    ensures
        a@ == "moved to "@ + folder@,
{
    labelled("moved to ", folder)
}

/// The lower-case form of `s` as `str::to_lowercase` gives it (Unicode case
/// mapping; it depends on the text alone).
pub uninterp spec fn unicode_lowercase(s: Seq<char>) -> Seq<char>;

/// `str::to_lowercase`.
#[verifier::external_body]
fn to_lowercase(s: &str) -> (res: String)
    ensures
        res@ == unicode_lowercase(s@),
{
    s.to_lowercase()
}

/// The local part of an address to claim, in lower case as it is sent.
pub fn claim_local_part(local_part: &str) -> (res: String)
    ensures
        res@ == unicode_lowercase(local_part@),
{
    to_lowercase(local_part)
}

/// The lines of the first `n` listed emails.
pub open spec fn summary_rows(emails: Seq<EmailSummary>, n: nat) -> Seq<Seq<char>>
    decreases n,
{
    if n == 0 {
        Seq::empty()
    } else {
        summary_rows(emails, (n - 1) as nat).push(summary_line(emails[n - 1]))
    }
}

/// What `email list` shows: a notice when the folder is empty, else one line
/// per email and, when some are unread, their count.
pub open spec fn email_list_lines(emails: Seq<EmailSummary>, unread: i64) -> Seq<Seq<char>> {
    if emails.len() == 0 {
        seq!["No emails."@]
    } else {
        summary_rows(emails, emails.len()) + if unread > 0 {
            seq![seq!['\n'] + signed_decimal(unread as int) + " unread messages"@]
        } else {
            Seq::empty()
        }
    }
}

/// What `email list` shows; listed dates must be cut on a character boundary
/// (byte slicing of a `str` panics elsewhere).
pub fn email_list_view(emails: &Vec<EmailSummary>, unread: i64) -> (lines: Vec<String>)
    requires
        forall|i: int| 0 <= i < emails@.len() ==> list_date_cuttable(#[trigger] emails@[i].received_at@, emails@[i].sent_at@),
    ensures
        texts(lines@) == email_list_lines(emails@, unread),
{
    if emails.len() == 0 {
        return crate::text::single_line(owned("No emails."));
    }
    let mut lines: Vec<String> = Vec::new();
    assert(texts(lines@) =~= summary_rows(emails@, 0));
    let mut i: usize = 0;
    while i < emails.len()
        invariant
            i <= emails.len(),
            forall|j: int| 0 <= j < emails@.len() ==> list_date_cuttable(#[trigger] emails@[j].received_at@, emails@[j].sent_at@),
            texts(lines@) == summary_rows(emails@, i as nat),
        decreases emails.len() - i,
    {
        let row = format_summary(&emails[i]);
        let ghost before = texts(lines@);
        lines.push(row);
        assert(texts(lines@) =~= before.push(row@));
        i = i + 1;
    }
    let ghost rows = texts(lines@);
    match unread_count_line(unread) {
        Some(l) => {
            let ghost lv = l@;
            lines.push(l);
            assert(texts(lines@) =~= rows + seq![lv]);
        },
        None => {
            assert(texts(lines@) =~= rows + Seq::<Seq<char>>::empty());
        },
    }
    lines
}

/// The lines of the first `n` scheduled emails: each one's line, then its ID.
pub open spec fn scheduled_blocks(emails: Seq<ScheduledEmail>, n: nat) -> Seq<Seq<char>>
    decreases n,
{
    if n == 0 {
        Seq::empty()
    } else {
        scheduled_blocks(emails, (n - 1) as nat) + seq![scheduled_line(emails[n - 1]), "  ID: "@ + emails[n - 1].id@]
    }
}

/// What `email scheduled list` shows: a notice when nothing is scheduled,
/// else each email's line followed by its ID.
pub open spec fn scheduled_view_lines(emails: Seq<ScheduledEmail>) -> Seq<Seq<char>> {
    if emails.len() == 0 {
        seq!["No scheduled emails."@]
    } else {
        scheduled_blocks(emails, emails.len())
    }
}

/// What `email scheduled list` shows.
pub fn scheduled_view(emails: &Vec<ScheduledEmail>) -> (lines: Vec<String>)
    ensures
        texts(lines@) == scheduled_view_lines(emails@),
{
    if emails.len() == 0 {
        return crate::text::single_line(owned("No scheduled emails."));
    }
    let mut lines: Vec<String> = Vec::new();
    assert(texts(lines@) =~= scheduled_blocks(emails@, 0));
    let mut i: usize = 0;
    while i < emails.len()
        invariant
            i <= emails.len(),
            texts(lines@) == scheduled_blocks(emails@, i as nat),
        decreases emails.len() - i,
    {
        let a = format_scheduled(&emails[i]);
        let b = labelled("  ID: ", emails[i].id.as_str());
        let ghost before = texts(lines@);
        let ghost av = a@;
        let ghost bv = b@;
        lines.push(a);
        lines.push(b);
        assert(texts(lines@) =~= before + seq![av, bv]);
        i = i + 1;
    }
    lines
}

} // verus!
