use kuren::commands::reply::{require_item, MissingItem};
use kuren::commands::connect::{connect_confirmation, format_connection, format_request, ConnectAction, ConnectionRequest};
use kuren::commands::email::{self, Attachment, Contact, EmailAddress, EmailDetail, EmailSummary, Folder, Mailbox, MarkError, ScheduledEmail, ThreadEmail};
use kuren::commands::listen::{self, ConnectionNotification, DmNotification, EmailNotification, Event, GroupNotification};
use kuren::commands::msg::{self, MessageTarget, ThreadKind, ThreadMember, ThreadMessage, ThreadSummary};
use kuren::commands::notes::{format_note, format_note_summary, notes_limit, Note, NoteSummary};
use kuren::commands::org::{format_org_member, format_organization, OrgMember, Organization};
use kuren::commands::pay::{self, PayError, Transaction, WalletRequest};
use kuren::commands::payments::{self, PaymentRequest, PurchaseEntry, Subscription};
use kuren::commands::profile::{self, Profile, ProfileError};
use kuren::commands::wallet::{self, Wallet};

fn s(x: &str) -> String {
    x.to_string()
}

#[test]
fn listen_filters() {
    let f = listen::listen(Some(vec![s("dm"), s("email")]), None);
    assert_eq!(f.include_categories, vec!["dm", "email"]);
    assert!(f.exclude_categories.is_empty() && f.include_types.is_empty() && f.exclude_types.is_empty());
    let d = listen::listen_dm();
    assert_eq!(d.include_categories, vec!["dm"]);
    let c = listen::listen_connection(None, Some(vec![s("declined")]));
    assert_eq!(c.include_categories, vec!["connection"]);
    assert_eq!(c.exclude_types, vec!["connection.declined"]);
    assert!(c.include_types.is_empty());
    let g = listen::listen_group(Some(vec![s("message"), s("added")]), None);
    assert!(g.include_categories.is_empty());
    assert_eq!(g.include_types, vec!["group.message", "group.added"]);
    let e = listen::listen_email(Some(vec![]), None);
    assert_eq!(e.include_categories, vec!["email"]);
}

#[test]
fn event_lines() {
    let dm = Event::Dm(DmNotification { from_handle: s("bob"), from_name: s("Bob"), preview: s("hi") });
    assert_eq!(listen::print_event(&Some(dm)).unwrap(), "[DM] Bob (@bob): \"hi\"");
    let dm2 = Event::Dm(DmNotification { from_handle: s("bob"), from_name: s(""), preview: s("yo") });
    assert_eq!(listen::print_event(&Some(dm2)).unwrap(), "[DM] @bob: \"yo\"");
    assert!(listen::print_event(&None).is_none());
    let req = ConnectionNotification { kind: s("request"), from_handle: s("ann"), from_name: s(""), message: s("hello") };
    assert_eq!(listen::print_connection(&req), "[Connection] @ann sent you a connection request: \"hello\"");
    let req2 = ConnectionNotification { kind: s("request"), from_handle: s("ann"), from_name: s(""), message: s("") };
    assert_eq!(listen::print_connection(&req2), "[Connection] @ann sent you a connection request");
    let acc = ConnectionNotification { kind: s("accepted"), from_handle: s("ann"), from_name: s("Ann"), message: s("") };
    assert_eq!(listen::print_connection(&acc), "[Connection] Ann (@ann) accepted your connection request");
    let dec = ConnectionNotification { kind: s("declined"), from_handle: s("ann"), from_name: s(""), message: s("") };
    assert_eq!(listen::print_connection(&dec), "[Connection] @ann declined your connection request");
    let other = ConnectionNotification { kind: s("removed"), from_handle: s("ann"), from_name: s(""), message: s("") };
    assert_eq!(listen::print_connection(&other), "[Connection] @ann - removed");
}

#[test]
fn group_and_email_event_lines() {
    let g = |kind: &str| GroupNotification { kind: s(kind), group_name: s("team"), from_handle: s("c"), from_name: s(""), preview: s("p") };
    assert_eq!(listen::print_group(&g("message")), "[Group: team] @c: \"p\"");
    assert_eq!(listen::print_group(&g("added")), "[Group] @c added you to \"team\"");
    assert_eq!(listen::print_group(&g("renamed")), "[Group] @c renamed the group to \"team\"");
    assert_eq!(listen::print_group(&g("left")), "[Group: team] @c - left");
    let e = |kind: &str| EmailNotification {
        kind: s(kind),
        from_address: s("x@y.com"),
        from_name: s("X"),
        from_handle: s("xh"),
        subject: s(""),
        snippet: s("body"),
        has_attachments: true,
        error_message: s("mailbox full"),
    };
    assert_eq!(listen::print_email(&e("received")), "[Email] From X <x@y.com> (@xh): \"(no subject)\" [+]\n  body");
    assert_eq!(listen::print_email(&e("sent")), "[Email] Sent successfully");
    assert_eq!(listen::print_email(&e("bounced")), "[Email] Bounce: x@y.com - mailbox full");
    assert_eq!(listen::print_email(&e("complaint")), "[Email] Complaint from x@y.com");
    assert_eq!(listen::print_email(&e("other")), "[Email] X <x@y.com> - other");
}

#[test]
fn message_targets_and_filters() {
    match msg::message_target("@@alice") {
        MessageTarget::Handle(h) => assert_eq!(h, "alice"),
        _ => panic!("expected a handle"),
    }
    match msg::message_target("thr_1") {
        MessageTarget::ThreadId(t) => assert_eq!(t, "thr_1"),
        _ => panic!("expected a thread"),
    }
    assert_eq!(msg::sent_confirmation("@alice", "t9"), "Message sent to @alice");
    assert_eq!(msg::sent_confirmation("t1", "t9"), "Message sent to thread t9");
    assert_eq!(msg::thread_filter(Some("dms")), ThreadKind::Dm);
    assert_eq!(msg::thread_filter(Some("group")), ThreadKind::Group);
    assert_eq!(msg::thread_filter(Some("all")), ThreadKind::Unspecified);
    assert_eq!(msg::thread_filter(None), ThreadKind::Unspecified);
}

#[test]
fn thread_summaries() {
    let t = ThreadSummary {
        id: s("t1"),
        kind: ThreadKind::Group,
        name: s("team"),
        other_handle: s(""),
        last_message: "x".repeat(60),
        last_message_at: s("2025-01-01"),
        is_admin: true,
    };
    let lines = msg::format_thread_summary(&t);
    assert_eq!(lines, vec![s("[Group] team - t1 [admin]"), format!("  \"{}...\"", "x".repeat(47)), s("  2025-01-01"), s("")]);
    let d = ThreadSummary {
        id: s("t2"),
        kind: ThreadKind::Dm,
        name: s(""),
        other_handle: s("bob"),
        last_message: s(""),
        last_message_at: s(""),
        is_admin: true,
    };
    assert_eq!(msg::format_thread_summary(&d), vec![s("[DM] @bob - t2"), s("  \"(no messages)\""), s("")]);
}

#[test]
fn messages_and_members() {
    let m = ThreadMessage { from_handle: s("me"), from_name: s("Me"), text: s("hi"), created_at: s("10:00") };
    assert_eq!(msg::format_message(&m, "me"), "[10:00] You: hi");
    assert_eq!(msg::format_message(&m, "other"), "[10:00] Me (@me): hi");
    let list = vec![
        ThreadMessage { from_handle: s("a"), from_name: s(""), text: s("3"), created_at: s("3") },
        ThreadMessage { from_handle: s("a"), from_name: s(""), text: s("2"), created_at: s("2") },
        ThreadMessage { from_handle: s("a"), from_name: s(""), text: s("1"), created_at: s("1") },
    ];
    let ordered: Vec<String> = msg::chronological(list).into_iter().map(|m| m.text).collect();
    assert_eq!(ordered, vec!["1", "2", "3"]);
    let member = ThreadMember { handle: s("ann"), name: s("Ann"), is_admin: true };
    assert_eq!(msg::format_member(&member), "  @ann (Ann) [admin]");
    assert_eq!(msg::member_added("t1", "@bob", true), "Added @bob to thread t1 as admin");
    assert_eq!(msg::group_mode(false), "Open");
}

#[test]
fn email_listing() {
    let e = EmailSummary {
        id: s("e1"),
        from: Some(Mailbox { name: s("Ann"), address: s("ann@x.io") }),
        subject: s("Hello"),
        is_read: false,
        is_starred: true,
        has_attachments: false,
        received_at: s("2025-02-15T10:00:00Z"),
        sent_at: s(""),
    };
    assert_eq!(email::format_summary(&e), "*!  2025-02-15 Ann <ann@x.io> - Hello [e1]");
    let f = EmailSummary { id: s("e2"), from: None, subject: s(""), is_read: true, is_starred: false, has_attachments: true, received_at: s(""), sent_at: s("") };
    assert_eq!(email::format_summary(&f), "  @  (unknown) - (no subject) [e2]");
    assert_eq!(email::unread_count_line(3).unwrap(), "\n3 unread messages");
    assert!(email::unread_count_line(0).is_none());
    let (folder, limit) = email::list_query(None, None);
    assert_eq!(folder, "inbox");
    assert_eq!(limit, 20);
}

#[test]
fn email_reading() {
    let e = EmailDetail {
        from: Some(Mailbox { name: s(""), address: s("a@b.c") }),
        to: vec![Mailbox { name: s("X"), address: s("x@y") }, Mailbox { name: s(""), address: s("z@y") }],
        cc: vec![],
        subject: s("S"),
        received_at: s(""),
        sent_at: s("2025"),
        attachments: vec![Attachment { id: s("at1"), filename: s("f.pdf"), size_bytes: 1024 }],
        body_text: s("Body"),
    };
    assert_eq!(
        email::format_email(&e),
        vec![s("From: a@b.c"), s("To: X <x@y>, z@y"), s("Subject: S"), s("Date: 2025"), s("\nAttachments:"), s("  - f.pdf (1024 bytes) [at1]"), s("\n---\n"), s("Body")]
    );
    let t = ThreadEmail { from: None, received_at: s("r"), sent_at: s("s"), body_text: s("b") };
    assert_eq!(email::format_thread_email(&t, 0), vec![s("[1] From: (unknown) at r"), s("b")]);
    assert_eq!(email::format_thread_email(&t, 1), vec![s("\n---\n"), s("[2] From: (unknown) at r"), s("b")]);
    assert_eq!(email::thread_heading(""), "Thread: (no subject)\n");
}

#[test]
fn email_small_views() {
    assert_eq!(email::format_address(&EmailAddress { full_address: s("me@agent.kuren.ai"), is_primary: true }), "me@agent.kuren.ai *");
    assert_eq!(email::format_folder(&Folder { name: s("inbox"), total_count: 12, unread_count: 2 }), "inbox: 12 messages (2 unread)");
    assert_eq!(email::format_folder(&Folder { name: s("sent"), total_count: 0, unread_count: 0 }), "sent: 0 messages");
    assert_eq!(
        email::format_contact(&Contact { email_address: s("a@b"), display_name: s("A"), handle: s("ah"), contact_count: 4 }),
        "a@b (A) @ah - 4 contacts"
    );
    let sch = ScheduledEmail { id: s("1"), scheduled_for: s("2025"), from_address: None, to_addresses: vec![s("a"), s("b")], subject: s("") };
    assert_eq!(email::format_scheduled(&sch), "2025 | (unknown) -> a, b | (no subject)");
    assert_eq!(email::mark_choice(true, false), Ok(true));
    assert_eq!(email::mark_choice(false, true), Ok(false));
    assert_eq!(email::mark_choice(false, false), Err(MarkError::NoChoice));
    assert_eq!(MarkError::NoChoice.message(), "Specify either --read or --unread");
    assert_eq!(email::format_count(2, &email::star_action(true)), "2 email(s) unstarred.");
    assert_eq!(email::format_count(5, &email::mark_action(true)), "5 email(s) marked as read.");
    assert_eq!(email::format_count(1, &email::move_action("archive")), "1 email(s) moved to archive.");
    assert_eq!(email::claim_local_part("Ryan.McWhorter"), "ryan.mcwhorter");
}

#[test]
fn connections() {
    let r = ConnectionRequest { from_handle: s("ann"), from_name: s("Ann"), message: s("hi") };
    assert_eq!(format_request(&r), "@ann (Ann): \"hi\"");
    let r2 = ConnectionRequest { from_handle: s("ann"), from_name: s(""), message: s("") };
    assert_eq!(format_request(&r2), "@ann");
    assert_eq!(format_connection("bob", "Bob"), "@bob (Bob)");
    assert_eq!(connect_confirmation(ConnectAction::Sent, "@bob"), "Connection request sent to @bob");
    assert_eq!(connect_confirmation(ConnectAction::Accepted, "bob"), "Connected with @bob");
    assert_eq!(connect_confirmation(ConnectAction::Declined, "bob"), "Declined connection request from @bob");
    assert_eq!(connect_confirmation(ConnectAction::Removed, "@@bob"), "Disconnected from @bob");
}

#[test]
fn profiles() {
    assert_eq!(profile::visibility(true, false), Some(true));
    assert_eq!(profile::visibility(false, true), Some(false));
    assert_eq!(profile::visibility(false, false), None);
    assert_eq!(profile::check_update(&None, &None, None), Err(ProfileError::NothingToUpdate));
    assert_eq!(profile::check_update(&Some(s("n")), &None, None), Ok(()));
    assert_eq!(profile::profile_handle(Some(s("@bob"))), "bob");
    assert_eq!(profile::profile_handle(None), "");
    let p = Profile { handle: s("bob"), name: s(""), bio: s("hi"), is_public: false, created_at: s("2025") };
    assert_eq!(
        profile::format_profile(&p, true),
        vec![s("Name: (not set)"), s("Handle: @bob"), s("Bio: hi"), s("Account: Private"), s("Member since: 2025")]
    );
    assert_eq!(profile::format_profile(&p, false).len(), 4);
}

#[test]
fn orgs_and_notes() {
    let o = Organization { id: s("o1"), name: s("Acme"), money_enabled: true, created_at: s("2024") };
    assert_eq!(format_organization(&o), vec![s("  o1 - Acme [money enabled]"), s("    Created: 2024"), s("")]);
    let m = OrgMember { handle: s("a"), agent_id: s("id"), joined_at: s("j") };
    assert_eq!(format_org_member(&m), vec![s("  @a"), s("    Agent ID: id"), s("    Joined: j"), s("")]);
    let n = NoteSummary { id: s("n1"), title: s("T"), snippet: "y".repeat(90), updated_at: s("u") };
    assert_eq!(format_note_summary(&n, true), vec![s("T - n1"), format!("  {}...", "y".repeat(77)), s("  u"), s("")]);
    assert_eq!(format_note_summary(&n, false).len(), 3);
    let full = Note { id: s("n1"), title: s("T"), content: s(""), created_at: s("c"), updated_at: s("u") };
    assert_eq!(format_note(&full), vec![s("# T"), s(""), s("ID: n1"), s("Created: c"), s("Updated: u")]);
    assert_eq!(notes_limit(None), 0);
    assert_eq!(notes_limit(Some(7)), 7);
}

#[test]
fn payments_between_agents() {
    assert_eq!(pay::check_usdc_amount(0), Err(PayError::TooSmall));
    assert_eq!(pay::check_usdc_amount(1), Ok(1));
    assert_eq!(PayError::NotPositive.message(), "Amount must be positive");
    let tx = Transaction { from_handle: s(""), to_handle: s("me"), provider: s("kuren"), status: s("done"), settlement_status: s("settled"), memo: s("m") };
    assert_eq!(
        pay::format_transaction_row(&tx, "me", "1.500000"),
        format!("{:<8} {:<8} {:<12} {:<12} {:>14} {:<10} {}", "DEPOSIT", "kuren", "-", "@me", "1.500000", "done/settled", "m")
    );
    let tx2 = Transaction { from_handle: s("me"), to_handle: s("bob"), provider: s("k"), status: s("ok"), settlement_status: s(""), memo: s("") };
    assert_eq!(
        pay::format_transaction_row(&tx2, "me", "2.000000"),
        format!("{:<8} {:<8} {:<12} {:<12} {:>14} {:<10} {}", "SENT", "k", "@me", "@bob", "2.000000", "ok", "")
    );
    assert_eq!(pay::transaction_kind("bob", "me"), "RECEIVED");
    assert_eq!(pay::format_requests_heading(true), vec![s("Sent Requests"), "=".repeat(13), s("")]);
    let r = WalletRequest { id: s("r1"), requester_handle: s("a"), recipient_handle: s("b"), provider: s("p"), status: s("pending"), memo: s("") };
    assert_eq!(
        pay::format_request(&r, false, "3.000000"),
        vec![s("ID: r1"), s("  From: @a"), s("  Amount: 3.000000 USDC"), s("  Provider: p"), s("  Status: pending"), s("")]
    );
    assert_eq!(pay::settle_action(true), "Rejecting");
    assert_eq!(pay::payments_limit(None), 20);
    assert_eq!(pay::payments_limit(Some(u32::MAX)), -1);
}

#[test]
fn merchant_payments() {
    let r = PaymentRequest { id: s("id"), merchant_name: s("A very long merchant name"), product_name: s(""), is_subscription: true, billing_interval: s("month") };
    assert_eq!(
        payments::format_payment_request_row(&r, "9.990000"),
        format!("{:<36} {:<20} {:<20} {:>14} {:<12}", "id", "A very long mer...", "-", "9.990000", "Subscription (month)")
    );
    let sub = Subscription { id: s("s"), merchant_name: s("m"), product_name: s("p"), status: s("active"), cancel_at_period_end: true };
    assert_eq!(
        payments::format_subscription_row(&sub, "1.000000"),
        format!("{:<36} {:<20} {:<20} {:>14} {:<10}", "s", "m", "p", "1.000000", "active (canceling)")
    );
    let e = PurchaseEntry { merchant_name: s("m"), product_name: s("p"), kind: s("subscription_renewal"), created_at: s("d") };
    assert_eq!(
        payments::format_purchase_row(&e, "1.000000"),
        format!("{:<20} {:<20} {:>14} {:<20} {:<25}", "m", "p", "1.000000", "Renewal", "d")
    );
    assert_eq!(payments::entry_type_label("gift"), "gift");
    assert_eq!(payments::entry_type_label("one_time"), "One-time");
}

#[test]
fn wallets() {
    let p = wallet::parse_permissions(" send, view ,");
    assert_eq!(p, vec!["send", "view", ""]);
    assert_eq!(wallet::member_added("w1", "@bob", &p), "Added @bob to wallet w1 with permissions: [send, view, ].");
    let w = Wallet { id: s("w1"), provider: s("circle"), display_name: s(""), is_default: true, network: s("") };
    assert_eq!(
        wallet::format_wallet_row(&w, "0.000000"),
        format!("{:<38} {:<8} {:<12} {:>13} {:<8} {}", "w1", "circle", "-", "0.000000", "*", "-")
    );
}

#[test]
fn subscription_details() {
    let d = payments::SubscriptionDetail {
        id: s("sub1"),
        merchant_name: s("M"),
        product_name: s("P"),
        status: s("active"),
        current_period_start: s("a"),
        current_period_end: s("b"),
        trial_end: s(""),
        next_billing_at: s("c"),
        cancel_at_period_end: true,
        canceled_at: s(""),
    };
    assert_eq!(
        payments::format_subscription_detail(&d, "4.000000"),
        vec![
            s("Subscription Details"),
            "=".repeat(40),
            s("ID: sub1"),
            s("Merchant: M"),
            s("Product: P"),
            s("Amount: 4.000000 USDC"),
            s("Status: active"),
            s(""),
            s("Current Period:"),
            s("  Start: a"),
            s("  End: b"),
            s("  Next billing: c"),
            s(""),
            s("Note: This subscription will be canceled at the end of the current period."),
        ]
    );
}

#[test]
fn wallet_creation_and_balance() {
    let w = wallet::CreatedWallet { id: s("w9"), provider: s("solana"), display_name: s(""), solana_address: s("So1"), network: s("devnet") };
    assert_eq!(
        wallet::format_created_wallet(&w),
        vec![s("Wallet created!"), s("  ID: w9"), s("  Provider: solana"), s("  Solana address: So1"), s("  Network: devnet"), s(""), s("Set as default: kuren wallet default w9")]
    );
    assert_eq!(wallet::format_balance_details("w9", ""), vec![s("Wallet: w9")]);
    assert!(wallet::format_balance_details("", "").is_empty());
}

#[test]
fn thread_info() {
    let t = msg::ThreadInfo { kind: ThreadKind::Group, name: s("team"), is_permissioned: true, created_at: s("2025") };
    assert_eq!(
        msg::format_thread_info("t1", &t),
        vec![s("Thread: t1"), s("Type: Group"), s("Name: team"), s("Mode: Permissioned"), s("Created: 2025"), s("\nMembers:")]
    );
    let d = msg::ThreadInfo { kind: ThreadKind::Dm, name: s(""), is_permissioned: true, created_at: s("x") };
    assert_eq!(msg::format_thread_info("t2", &d), vec![s("Thread: t2"), s("Type: DM"), s("Created: x"), s("\nMembers:")]);
}

#[test]
fn empty_list_notices() {
    assert_eq!(pay::history_view(&vec![], "me", &vec![]), vec![s("No transactions found.")]);
    assert_eq!(pay::requests_view(&vec![], true, &vec![]), vec![s("No sent requests found.")]);
    assert_eq!(pay::requests_view(&vec![], false, &vec![]), vec![s("No pending requests.")]);
    assert_eq!(msg::threads_view(&vec![]), vec![s("No threads yet.")]);
    assert_eq!(kuren::commands::notes::notes_view(&vec![]), vec![s("No notes yet.")]);
    assert_eq!(kuren::commands::notes::search_view("api", &vec![]), vec![s("No notes matching \"api\".")]);
    assert_eq!(email::email_list_view(&vec![], 4), vec![s("No emails.")]);
    assert_eq!(payments::pending_view(&vec![], &vec![]), vec![s("No pending payment requests.")]);
    assert_eq!(payments::subscriptions_view(&vec![], &vec![]), vec![s("No subscriptions found.")]);
    assert_eq!(payments::purchases_view(&vec![], &vec![]), vec![s("No purchase history found.")]);
}

#[test]
fn full_list_views() {
    let tx = Transaction { from_handle: s("a"), to_handle: s("me"), provider: s("k"), status: s("ok"), settlement_status: s(""), memo: s("") };
    let v = pay::history_view(&vec![tx], "me", &vec![s("1.000000")]);
    assert_eq!(v[0], format!("{:<8} {:<8} {:<12} {:<12} {:<15} {:<10} {}", "Type", "Provider", "From", "To", "Amount", "Status", "Memo"));
    assert_eq!(v[1], "-".repeat(85));
    assert_eq!(v.len(), 3);
    let r = WalletRequest { id: s("r1"), requester_handle: s("a"), recipient_handle: s("b"), provider: s("p"), status: s("pending"), memo: s("") };
    let pending = pay::requests_view(&vec![r], false, &vec![s("1.000000")]);
    assert_eq!(pending[0], "Pending Requests");
    assert_eq!(pending.last().unwrap(), "Use 'kuren pay request approve <id>' or 'kuren pay request deny <id>' to respond.");
    let e = EmailSummary { id: s("e"), from: None, subject: s("x"), is_read: true, is_starred: false, has_attachments: false, received_at: s(""), sent_at: s("") };
    assert_eq!(email::email_list_view(&vec![e], 2), vec![s("     (unknown) - x [e]"), s("\n2 unread messages")]);
    let n = NoteSummary { id: s("n1"), title: s("T"), snippet: s(""), updated_at: s("u") };
    assert_eq!(kuren::commands::notes::search_view("q", &vec![n]), vec![s("Results for \"q\":\n"), s("T - n1"), s("")]);
    let p = PaymentRequest { id: s("id"), merchant_name: s("m"), product_name: s("p"), is_subscription: false, billing_interval: s("") };
    let pv = payments::pending_view(&vec![p], &vec![s("1.000000")]);
    assert_eq!(pv[0], format!("{:<36} {:<20} {:<20} {:<15} {:<12}", "ID", "Merchant", "Product", "Amount", "Type"));
    assert_eq!(pv.len(), 6);
    let t = ThreadSummary { id: s("t"), kind: ThreadKind::Dm, name: s(""), other_handle: s("b"), last_message: s("hi"), last_message_at: s(""), is_admin: false };
    assert_eq!(msg::threads_view(&vec![t]), vec![s("Your threads:\n"), s("[DM] @b - t"), s("  \"hi\""), s("")]);
}

#[test]
fn missing_reply_items() {
    assert_eq!(require_item(Some(3), MissingItem::Email), Ok(3));
    assert_eq!(require_item::<i32>(None, MissingItem::Thread), Err(MissingItem::Thread));
    assert_eq!(MissingItem::Profile.message(), "No profile returned");
    assert_eq!(MissingItem::Email.message(), "No email returned");
}

#[test]
fn read_messages_view() {
    assert_eq!(msg::messages_limit(None), 50);
    assert_eq!(msg::messages_limit(Some(5)), 5);
    assert_eq!(msg::messages_view("@bob", "t1", vec![], "me"), vec![s("No messages with @bob yet.")]);
    assert_eq!(msg::messages_view("t1", "t1", vec![], "me"), vec![s("No messages in thread t1 yet.")]);
    let newest_first = vec![
        ThreadMessage { from_handle: s("bob"), from_name: s(""), text: s("second"), created_at: s("2") },
        ThreadMessage { from_handle: s("me"), from_name: s(""), text: s("first"), created_at: s("1") },
    ];
    assert_eq!(
        msg::messages_view("@bob", "t9", newest_first, "me"),
        vec![s("Conversation with @bob:\n"), s("[1] You: first"), s("[2] @bob: second")]
    );
    let one = vec![ThreadMessage { from_handle: s("a"), from_name: s("A"), text: s("x"), created_at: s("0") }];
    assert_eq!(msg::messages_view("t9", "t9", one, "me"), vec![s("Messages in thread t9:\n"), s("[0] A (@a): x")]);
}

#[test]
fn connection_lists() {
    let none: Vec<ConnectionRequest> = vec![];
    assert_eq!(kuren::commands::connect::requests_view(&none), vec![s("No pending connection requests.")]);
    let r = ConnectionRequest { from_handle: s("ann"), from_name: s(""), message: s("") };
    assert_eq!(
        kuren::commands::connect::requests_view(&vec![r]),
        vec![s("Pending connection requests:\n"), s("@ann"), s("\nUse 'kuren accept <handle>' or 'kuren decline <handle>' to respond.")]
    );
    assert_eq!(kuren::commands::connect::connections_view(&vec![]), vec![s("No connections yet.")]);
    let c = kuren::commands::connect::Connection { handle: s("bob"), name: s("Bob") };
    assert_eq!(kuren::commands::connect::connections_view(&vec![c]), vec![s("Your connections:\n"), s("@bob (Bob)")]);
}

#[test]
fn scheduled_list_view() {
    assert_eq!(email::scheduled_view(&vec![]), vec![s("No scheduled emails.")]);
    let e = ScheduledEmail { id: s("42"), scheduled_for: s("2025"), from_address: Some(s("me@x")), to_addresses: vec![s("a")], subject: s("Hi") };
    assert_eq!(email::scheduled_view(&vec![e]), vec![s("2025 | me@x -> a | Hi"), s("  ID: 42")]);
}
