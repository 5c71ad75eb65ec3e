//! Purchases from merchants: the rows that list payment requests,
//! subscriptions and purchases.
use vstd::prelude::*;
use vstd::string::*;
use vstd::utf8::*;
use crate::text::{owned, push_char, byte_len, ellipsis, Cell, push_cell, format_row, row_text, cell_views, truncated, can_truncate};

verus! {

/// The widest merchant or product name shown in a table, in bytes.
pub const NAME_WIDTH: usize = 18;

/// A merchant's request for payment.
pub struct PaymentRequest {
    pub id: String,
    pub merchant_name: String,
    pub product_name: String,
    pub is_subscription: bool,
    pub billing_interval: String,
}

/// The kind of payment asked for.
pub open spec fn payment_type_text(r: PaymentRequest) -> Seq<char> {
    if r.is_subscription {
        "Subscription ("@ + r.billing_interval@ + seq![')']
    } else {
        "One-time"@
    }
}

/// A name, or `-` when it is empty.
pub open spec fn or_dash(s: Seq<char>) -> Seq<char> {
    if s.len() == 0 { "-"@ } else { s }
}

/// The row that lists a payment request; `amount` is the amount already
/// written with six decimals.
pub open spec fn payment_request_row(r: PaymentRequest, amount: Seq<char>) -> Seq<char> {
    row_text(seq![
        (r.id@, 36, false),
        (truncated(r.merchant_name@, 18), 20, false),
        (truncated(or_dash(r.product_name@), 18), 20, false),
        (amount, 14, true),
        (payment_type_text(r), 12, false),
    ])
}

/// A name, or `-` when it is empty.
pub fn dash_if_empty(s: &str) -> (res: String)
    ensures
        res@ == or_dash(s@),
{
    if s.is_empty() { owned("-") } else { owned(s) }
}

/// The row that lists a payment request; long names must be cut on a
/// character boundary (byte slicing of a `str` panics elsewhere).
pub fn format_payment_request_row(r: &PaymentRequest, amount: &str) -> (line: String)
    requires
        can_truncate(r.merchant_name@, 18),
        can_truncate(or_dash(r.product_name@), 18),
    ensures
        line@ == payment_request_row(*r, amount@),
{
    let mut cells: Vec<Cell> = Vec::new();
    push_cell(&mut cells, owned(r.id.as_str()), 36, false);
    push_cell(&mut cells, truncate(r.merchant_name.as_str(), NAME_WIDTH), 20, false);
    let product = dash_if_empty(r.product_name.as_str());
    push_cell(&mut cells, truncate(product.as_str(), NAME_WIDTH), 20, false);
    push_cell(&mut cells, owned(amount), 14, true);
    let kind = if r.is_subscription {
        let mut k = owned("Subscription (");
        k.append(r.billing_interval.as_str());
        crate::text::push_char(&mut k, ')');
        assert(k@ =~= "Subscription ("@ + r.billing_interval@ + seq![')']);
        k
    } else {
        owned("One-time")
    };
    push_cell(&mut cells, kind, 12, false);
    assert(cell_views(cells@) =~= seq![
        (r.id@, 36nat, false),
        (truncated(r.merchant_name@, 18), 20nat, false),
        (truncated(or_dash(r.product_name@), 18), 20nat, false),
        (amount@, 14nat, true),
        (payment_type_text(*r), 12nat, false),
    ]);
    format_row(&cells)
}

/// `s` cut to `max_len` bytes: unchanged when it fits, else its first
/// `max_len - 3` bytes followed by `...`.
pub fn truncate(s: &str, max_len: usize) -> (res: String)
    requires
        can_truncate(s@, max_len as nat),
    ensures
        res@ == truncated(s@, max_len as nat),
        byte_len(s@) <= max_len ==> res@ == s@,
{
    let bytes = s.as_bytes();
    if bytes.len() <= max_len {
        owned(s)
    } else {
        let (head, _rest) = s.split_at(max_len - 3);
        let mut r = owned(head);
        proof {
            assert(head.spec_bytes() == encode_utf8(head@));
            assert(encode_utf8(head@) == encode_utf8(s@).subrange(0, max_len - 3));
            encode_utf8_decode_utf8(head@);
            assert(decode_utf8(encode_utf8(s@).subrange(0, max_len - 3)) == head@);
        }
        push_char(&mut r, '.');
        push_char(&mut r, '.');
        push_char(&mut r, '.');
        assert(r@ =~= head@ + ellipsis());
        r
    }
}

/// A subscription to a merchant's product.
pub struct Subscription {
    pub id: String,
    pub merchant_name: String,
    pub product_name: String,
    pub status: String,
    pub cancel_at_period_end: bool,
}

/// The status column: `(canceling)` follows when it ends with the period.
pub open spec fn subscription_status_text(s: Subscription) -> Seq<char> {
    if s.cancel_at_period_end { s.status@ + " (canceling)"@ } else { s.status@ }
}

/// The row that lists a subscription; `amount` is the price already written
/// with six decimals.
pub open spec fn subscription_row(s: Subscription, amount: Seq<char>) -> Seq<char> {
    row_text(seq![
        (s.id@, 36, false),
        (truncated(s.merchant_name@, 18), 20, false),
        (truncated(s.product_name@, 18), 20, false),
        (amount, 14, true),
        (subscription_status_text(s), 10, false),
    ])
}

/// The row that lists a subscription.
pub fn format_subscription_row(s: &Subscription, amount: &str) -> (line: String)
    requires
        can_truncate(s.merchant_name@, 18),
        can_truncate(s.product_name@, 18),
    ensures
        line@ == subscription_row(*s, amount@),
{
    let mut cells: Vec<Cell> = Vec::new();
    push_cell(&mut cells, owned(s.id.as_str()), 36, false);
    push_cell(&mut cells, truncate(s.merchant_name.as_str(), NAME_WIDTH), 20, false);
    push_cell(&mut cells, truncate(s.product_name.as_str(), NAME_WIDTH), 20, false);
    push_cell(&mut cells, owned(amount), 14, true);
    let mut status = owned(s.status.as_str());
    if s.cancel_at_period_end {
        status.append(" (canceling)");
    }
    push_cell(&mut cells, status, 10, false);
    assert(cell_views(cells@) =~= seq![
        (s.id@, 36nat, false),
        (truncated(s.merchant_name@, 18), 20nat, false),
        (truncated(s.product_name@, 18), 20nat, false),
        (amount@, 14nat, true),
        (subscription_status_text(*s), 10nat, false),
    ]);
    format_row(&cells)
}

/// The status column of a subscription row is the status followed by
/// ` (canceling)` exactly when the subscription ends with its period, and the
/// status alone otherwise: the status always comes first, and the column is
/// longer than the status exactly for a subscription being canceled.
pub proof fn law_canceling_marker(s: Subscription, amount: Seq<char>)
    ensures
        !s.cancel_at_period_end ==> subscription_status_text(s) == s.status@,
        s.cancel_at_period_end ==> subscription_status_text(s) == s.status@ + " (canceling)"@,
        subscription_status_text(s).subrange(0, s.status@.len() as int) == s.status@,
        (subscription_status_text(s).len() > s.status@.len()) == s.cancel_at_period_end,
        subscription_row(s, amount) == row_text(seq![
            (s.id@, 36nat, false),
            (truncated(s.merchant_name@, 18), 20nat, false),
            (truncated(s.product_name@, 18), 20nat, false),
            (amount, 14nat, true),
            (if s.cancel_at_period_end { s.status@ + " (canceling)"@ } else { s.status@ }, 10nat, false),
        ]),
{
    reveal_strlit(" (canceling)");
    assert(subscription_status_text(s).subrange(0, s.status@.len() as int) =~= s.status@);
}

/// The label of a purchase history entry type; unknown types show as they are.
pub open spec fn entry_type_text(t: Seq<char>) -> Seq<char> {
    if t == "one_time"@ {
        "One-time"@
    } else if t == "subscription_start"@ {
        "Subscription Start"@
    } else if t == "subscription_renewal"@ {
        "Renewal"@
    } else if t == "refund"@ {
        "Refund"@
    } else {
        t
    }
}

/// The label of a purchase history entry type.
pub fn entry_type_label(t: &str) -> (l: String)
    ensures
        l@ == entry_type_text(t@),
{
    if crate::text::same_text(t, "one_time") {
        owned("One-time")
    } else if crate::text::same_text(t, "subscription_start") {
        owned("Subscription Start")
    } else if crate::text::same_text(t, "subscription_renewal") {
        owned("Renewal")
    } else if crate::text::same_text(t, "refund") {
        owned("Refund")
    } else {
        owned(t)
    }
}

/// An entry of the purchase history.
pub struct PurchaseEntry {
    pub merchant_name: String,
    pub product_name: String,
    pub kind: String,
    pub created_at: String,
}

/// The row that lists a purchase; `amount` is the amount already written
/// with six decimals.
pub open spec fn purchase_row(e: PurchaseEntry, amount: Seq<char>) -> Seq<char> {
    row_text(seq![
        (truncated(e.merchant_name@, 18), 20, false),
        (truncated(e.product_name@, 18), 20, false),
        (amount, 14, true),
        (entry_type_text(e.kind@), 20, false),
        (e.created_at@, 25, false),
    ])
}

/// The row that lists a purchase.
pub fn format_purchase_row(e: &PurchaseEntry, amount: &str) -> (line: String)
    requires
        can_truncate(e.merchant_name@, 18),
        can_truncate(e.product_name@, 18),
    ensures
        line@ == purchase_row(*e, amount@),
{
    let mut cells: Vec<Cell> = Vec::new();
    push_cell(&mut cells, truncate(e.merchant_name.as_str(), NAME_WIDTH), 20, false);
    push_cell(&mut cells, truncate(e.product_name.as_str(), NAME_WIDTH), 20, false);
    push_cell(&mut cells, owned(amount), 14, true);
    push_cell(&mut cells, entry_type_label(e.kind.as_str()), 20, false);
    push_cell(&mut cells, owned(e.created_at.as_str()), 25, false);
    assert(cell_views(cells@) =~= seq![
        (truncated(e.merchant_name@, 18), 20nat, false),
        (truncated(e.product_name@, 18), 20nat, false),
        (amount@, 14nat, true),
        (entry_type_text(e.kind@), 20nat, false),
        (e.created_at@, 25nat, false),
    ]);
    format_row(&cells)
}

/// A subscription as shown by `payments subscriptions info`.
pub struct SubscriptionDetail {
    pub id: String,
    pub merchant_name: String,
    pub product_name: String,
    pub status: String,
    pub current_period_start: String,
    pub current_period_end: String,
    pub trial_end: String,
    pub next_billing_at: String,
    pub cancel_at_period_end: bool,
    pub canceled_at: String,
}

/// The lines that show a subscription; `amount` is the price already written
/// with six decimals. Trial end, next billing, the cancellation note and the
/// cancellation time appear only when they apply.
pub open spec fn subscription_detail_lines(d: SubscriptionDetail, amount: Seq<char>) -> Seq<Seq<char>> {
    let lines = seq![
        "Subscription Details"@,
        crate::text::repeated('=', 40),
        "ID: "@ + d.id@,
        "Merchant: "@ + d.merchant_name@,
        "Product: "@ + d.product_name@,
        "Amount: "@ + amount + " USDC"@,
        "Status: "@ + d.status@,
        Seq::empty(),
        "Current Period:"@,
        "  Start: "@ + d.current_period_start@,
        "  End: "@ + d.current_period_end@,
    ];
    let lines = if d.trial_end@.len() != 0 { lines.push("  Trial ends: "@ + d.trial_end@) } else { lines };
    let lines = if d.next_billing_at@.len() != 0 { lines.push("  Next billing: "@ + d.next_billing_at@) } else { lines };
    let lines = if d.cancel_at_period_end {
        lines.push(Seq::empty()).push("Note: This subscription will be canceled at the end of the current period."@)
    } else {
        lines
    };
    if d.canceled_at@.len() != 0 { lines.push(Seq::empty()).push("Canceled at: "@ + d.canceled_at@) } else { lines }
}

/// `label` followed by `value`.
fn labelled(label: &str, value: &str) -> (res: String)
    ensures
        res@ == label@ + value@,
{
    let mut r = owned(label);
    r.append(value);
    r
}

/// The lines that show a subscription.
pub fn format_subscription_detail(d: &SubscriptionDetail, amount: &str) -> (lines: Vec<String>)
    ensures
        crate::text::texts(lines@) == subscription_detail_lines(*d, amount@),
{
    let mut lines: Vec<String> = Vec::new();
    lines.push(owned("Subscription Details"));
    lines.push(crate::text::repeat_char('=', 40));
    lines.push(labelled("ID: ", d.id.as_str()));
    lines.push(labelled("Merchant: ", d.merchant_name.as_str()));
    lines.push(labelled("Product: ", d.product_name.as_str()));
    let mut a = labelled("Amount: ", amount);
    a.append(" USDC");
    lines.push(a);
    lines.push(labelled("Status: ", d.status.as_str()));
    lines.push(String::new());
    lines.push(owned("Current Period:"));
    lines.push(labelled("  Start: ", d.current_period_start.as_str()));
    lines.push(labelled("  End: ", d.current_period_end.as_str()));
    if !d.trial_end.as_str().is_empty() {
        lines.push(labelled("  Trial ends: ", d.trial_end.as_str()));
    }
    if !d.next_billing_at.as_str().is_empty() {
        lines.push(labelled("  Next billing: ", d.next_billing_at.as_str()));
    }
    if d.cancel_at_period_end {
        lines.push(String::new());
        lines.push(owned("Note: This subscription will be canceled at the end of the current period."));
    }
    if !d.canceled_at.as_str().is_empty() {
        lines.push(String::new());
        lines.push(labelled("Canceled at: ", d.canceled_at.as_str()));
    }
    assert(crate::text::texts(lines@) =~= subscription_detail_lines(*d, amount@));
    lines
}

/// The names of a payment request can be cut for the table.
pub open spec fn request_names_fit(r: PaymentRequest) -> bool {
    can_truncate(r.merchant_name@, 18) && can_truncate(or_dash(r.product_name@), 18)
}

/// The names of a subscription can be cut for the table.
pub open spec fn subscription_names_fit(s: Subscription) -> bool {
    can_truncate(s.merchant_name@, 18) && can_truncate(s.product_name@, 18)
}

/// The names of a purchase can be cut for the table.
pub open spec fn purchase_names_fit(e: PurchaseEntry) -> bool {
    can_truncate(e.merchant_name@, 18) && can_truncate(e.product_name@, 18)
}

/// A heading row of five left-aligned cells.
pub open spec fn heading_row(names: Seq<Seq<char>>, widths: Seq<nat>) -> Seq<char> {
    row_text(Seq::new(5, |i: int| (names[i], widths[i], false)))
}

/// A heading row of five left-aligned cells.
fn format_heading(a: &str, b: &str, c: &str, d: &str, e: &str, w: [usize; 5]) -> (line: String)
    ensures
        line@ == heading_row(seq![a@, b@, c@, d@, e@], seq![w[0] as nat, w[1] as nat, w[2] as nat, w[3] as nat, w[4] as nat]),
{
    let mut cells: Vec<Cell> = Vec::new();
    push_cell(&mut cells, owned(a), w[0], false);
    push_cell(&mut cells, owned(b), w[1], false);
    push_cell(&mut cells, owned(c), w[2], false);
    push_cell(&mut cells, owned(d), w[3], false);
    push_cell(&mut cells, owned(e), w[4], false);
    assert(cell_views(cells@) =~= Seq::new(
        5,
        |i: int| (seq![a@, b@, c@, d@, e@][i], seq![w[0] as nat, w[1] as nat, w[2] as nat, w[3] as nat, w[4] as nat][i], false),
    ));
    format_row(&cells)
}

/// The rows of the first `n` payment requests.
pub open spec fn payment_request_rows(reqs: Seq<PaymentRequest>, amounts: Seq<Seq<char>>, n: nat) -> Seq<Seq<char>>
    decreases n,
{
    if n == 0 {
        Seq::empty()
    } else {
        payment_request_rows(reqs, amounts, (n - 1) as nat).push(payment_request_row(reqs[n - 1], amounts[n - 1]))
    }
}

/// What `payments pending` shows: a notice when there are none, else the
/// table (heading, rule, one row per request) and how to answer.
pub open spec fn pending_view_lines(reqs: Seq<PaymentRequest>, amounts: Seq<Seq<char>>) -> Seq<Seq<char>> {
    if reqs.len() == 0 {
        seq!["No pending payment requests."@]
    } else {
        seq![
            heading_row(seq!["ID"@, "Merchant"@, "Product"@, "Amount"@, "Type"@], seq![36nat, 20, 20, 15, 12]),
            crate::text::repeated('-', 110),
        ] + payment_request_rows(reqs, amounts, reqs.len()) + seq![
            Seq::empty(),
            "Use 'kuren payments approve <id>' to approve a request."@,
            "Use 'kuren payments deny <id>' to deny a request."@,
        ]
    }
}

/// What `payments pending` shows.
pub fn pending_view(reqs: &Vec<PaymentRequest>, amounts: &Vec<String>) -> (lines: Vec<String>)
    requires
        amounts@.len() == reqs@.len(),
        forall|i: int| 0 <= i < reqs@.len() ==> request_names_fit(#[trigger] reqs@[i]),
    ensures
        crate::text::texts(lines@) == pending_view_lines(reqs@, crate::text::texts(amounts@)),
{
    if reqs.len() == 0 {
        return crate::text::single_line(owned("No pending payment requests."));
    }
    let mut lines: Vec<String> = Vec::new();
    lines.push(format_heading("ID", "Merchant", "Product", "Amount", "Type", [36, 20, 20, 15, 12]));
    lines.push(crate::text::repeat_char('-', 110));
    let ghost head = crate::text::texts(lines@);
    assert(head + payment_request_rows(reqs@, crate::text::texts(amounts@), 0) =~= head);
    let mut i: usize = 0;
    while i < reqs.len()
        invariant
            i <= reqs.len() == amounts.len(),
            forall|j: int| 0 <= j < reqs@.len() ==> request_names_fit(#[trigger] reqs@[j]),
            crate::text::texts(lines@) == head + payment_request_rows(reqs@, crate::text::texts(amounts@), i as nat),
        decreases reqs.len() - i,
    {
        assert(request_names_fit(reqs@[i as int]));
        let row = format_payment_request_row(&reqs[i], amounts[i].as_str());
        let ghost before = crate::text::texts(lines@);
        let ghost rv = row@;
        lines.push(row);
        assert(crate::text::texts(lines@) =~= before.push(rv));
        assert(crate::text::texts(amounts@)[i as int] == amounts@[i as int]@);
        assert(crate::text::texts(lines@) =~= head + payment_request_rows(reqs@, crate::text::texts(amounts@), (i + 1) as nat));
        i = i + 1;
    }
    let ghost body = crate::text::texts(lines@);
    lines.push(String::new());
    lines.push(owned("Use 'kuren payments approve <id>' to approve a request."));
    lines.push(owned("Use 'kuren payments deny <id>' to deny a request."));
    assert(crate::text::texts(lines@) =~= body + seq![
        Seq::empty(),
        "Use 'kuren payments approve <id>' to approve a request."@,
        "Use 'kuren payments deny <id>' to deny a request."@,
    ]);
    assert(crate::text::texts(lines@) =~= pending_view_lines(reqs@, crate::text::texts(amounts@)));
    lines
}

/// The rows of the first `n` subscriptions.
pub open spec fn subscription_rows(subs: Seq<Subscription>, amounts: Seq<Seq<char>>, n: nat) -> Seq<Seq<char>>
    decreases n,
{
    if n == 0 {
        Seq::empty()
    } else {
        subscription_rows(subs, amounts, (n - 1) as nat).push(subscription_row(subs[n - 1], amounts[n - 1]))
    }
}

/// What `payments subscriptions` shows: a notice when there are none, else
/// the table and how to cancel.
pub open spec fn subscriptions_view_lines(subs: Seq<Subscription>, amounts: Seq<Seq<char>>) -> Seq<Seq<char>> {
    if subs.len() == 0 {
        seq!["No subscriptions found."@]
    } else {
        seq![
            heading_row(seq!["ID"@, "Merchant"@, "Product"@, "Amount"@, "Status"@], seq![36nat, 20, 20, 15, 10]),
            crate::text::repeated('-', 105),
        ] + subscription_rows(subs, amounts, subs.len()) + seq![
            Seq::empty(),
            "Use 'kuren payments subscriptions cancel <id>' to cancel a subscription."@,
        ]
    }
}

/// What `payments subscriptions` shows.
pub fn subscriptions_view(subs: &Vec<Subscription>, amounts: &Vec<String>) -> (lines: Vec<String>)
    requires
        amounts@.len() == subs@.len(),
        forall|i: int| 0 <= i < subs@.len() ==> subscription_names_fit(#[trigger] subs@[i]),
    ensures
        crate::text::texts(lines@) == subscriptions_view_lines(subs@, crate::text::texts(amounts@)),
{
    if subs.len() == 0 {
        return crate::text::single_line(owned("No subscriptions found."));
    }
    let mut lines: Vec<String> = Vec::new();
    lines.push(format_heading("ID", "Merchant", "Product", "Amount", "Status", [36, 20, 20, 15, 10]));
    lines.push(crate::text::repeat_char('-', 105));
    let ghost head = crate::text::texts(lines@);
    assert(head + subscription_rows(subs@, crate::text::texts(amounts@), 0) =~= head);
    let mut i: usize = 0;
    while i < subs.len()
        invariant
            i <= subs.len() == amounts.len(),
            forall|j: int| 0 <= j < subs@.len() ==> subscription_names_fit(#[trigger] subs@[j]),
            crate::text::texts(lines@) == head + subscription_rows(subs@, crate::text::texts(amounts@), i as nat),
        decreases subs.len() - i,
    {
        assert(subscription_names_fit(subs@[i as int]));
        let row = format_subscription_row(&subs[i], amounts[i].as_str());
        let ghost before = crate::text::texts(lines@);
        let ghost rv = row@;
        lines.push(row);
        assert(crate::text::texts(lines@) =~= before.push(rv));
        assert(crate::text::texts(amounts@)[i as int] == amounts@[i as int]@);
        assert(crate::text::texts(lines@) =~= head + subscription_rows(subs@, crate::text::texts(amounts@), (i + 1) as nat));
        i = i + 1;
    }
    let ghost body = crate::text::texts(lines@);
    lines.push(String::new());
    lines.push(owned("Use 'kuren payments subscriptions cancel <id>' to cancel a subscription."));
    assert(crate::text::texts(lines@) =~= body + seq![
        Seq::empty(),
        "Use 'kuren payments subscriptions cancel <id>' to cancel a subscription."@,
    ]);
    assert(crate::text::texts(lines@) =~= subscriptions_view_lines(subs@, crate::text::texts(amounts@)));
    lines
}

/// The rows of the first `n` purchases.
pub open spec fn purchase_rows(entries: Seq<PurchaseEntry>, amounts: Seq<Seq<char>>, n: nat) -> Seq<Seq<char>>
    decreases n,
{
    if n == 0 {
        Seq::empty()
    } else {
        purchase_rows(entries, amounts, (n - 1) as nat).push(purchase_row(entries[n - 1], amounts[n - 1]))
    }
}

/// What `payments history` shows: a notice when there is nothing, else the table.
pub open spec fn purchases_view_lines(entries: Seq<PurchaseEntry>, amounts: Seq<Seq<char>>) -> Seq<Seq<char>> {
    if entries.len() == 0 {
        seq!["No purchase history found."@]
    } else {
        seq![
            heading_row(seq!["Merchant"@, "Product"@, "Amount"@, "Type"@, "Date"@], seq![20nat, 20, 15, 20, 25]),
            crate::text::repeated('-', 105),
        ] + purchase_rows(entries, amounts, entries.len())
    }
}

/// What `payments history` shows.
pub fn purchases_view(entries: &Vec<PurchaseEntry>, amounts: &Vec<String>) -> (lines: Vec<String>)
    requires
        amounts@.len() == entries@.len(),
        forall|i: int| 0 <= i < entries@.len() ==> purchase_names_fit(#[trigger] entries@[i]),
    ensures
        crate::text::texts(lines@) == purchases_view_lines(entries@, crate::text::texts(amounts@)),
{
    if entries.len() == 0 {
        return crate::text::single_line(owned("No purchase history found."));
    }
    let mut lines: Vec<String> = Vec::new();
    lines.push(format_heading("Merchant", "Product", "Amount", "Type", "Date", [20, 20, 15, 20, 25]));
    lines.push(crate::text::repeat_char('-', 105));
    let ghost head = crate::text::texts(lines@);
    assert(head + purchase_rows(entries@, crate::text::texts(amounts@), 0) =~= head);
    let mut i: usize = 0;
    while i < entries.len()
        invariant
            i <= entries.len() == amounts.len(),
            forall|j: int| 0 <= j < entries@.len() ==> purchase_names_fit(#[trigger] entries@[j]),
            crate::text::texts(lines@) == head + purchase_rows(entries@, crate::text::texts(amounts@), i as nat),
        decreases entries.len() - i,
    {
        assert(purchase_names_fit(entries@[i as int]));
        let row = format_purchase_row(&entries[i], amounts[i].as_str());
        let ghost before = crate::text::texts(lines@);
        let ghost rv = row@;
        lines.push(row);
        assert(crate::text::texts(lines@) =~= before.push(rv));
        assert(crate::text::texts(amounts@)[i as int] == amounts@[i as int]@);
        assert(crate::text::texts(lines@) =~= head + purchase_rows(entries@, crate::text::texts(amounts@), (i + 1) as nat));
        i = i + 1;
    }
    assert(crate::text::texts(lines@) =~= purchases_view_lines(entries@, crate::text::texts(amounts@)));
    lines
}

} // verus!
