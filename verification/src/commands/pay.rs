//! Payments between agents: the amount check, and the lines that show
//! transactions and payment requests.
use vstd::prelude::*;
use vstd::string::*;
use crate::text::{owned, push_char, texts, Cell, push_cell, format_row, row_text, repeated, cell_views, occurs_in};

verus! {

/// Why a payment was refused before it was sent.
#[derive(Debug, Clone, Copy, PartialEq, Eq, Structural)]
pub enum PayError {
    /// The amount given is zero or negative.
    NotPositive,
    /// The amount is less than one millionth of a USDC.
    TooSmall,
}

impl PayError {
    /// The message shown to the user.
    pub fn message(&self) -> (m: String)
        ensures
            m@ == match self {
                PayError::NotPositive => "Amount must be positive"@,
                PayError::TooSmall => "Amount too small"@,
            },
    {
        match self {
            PayError::NotPositive => owned("Amount must be positive"),
            PayError::TooSmall => owned("Amount too small"),
        }
    }
}

/// An amount in millionths of a USDC, refused when it is not positive.
pub fn check_usdc_amount(usdc_amount: i64) -> (res: Result<i64, PayError>)
    ensures
        res == if usdc_amount <= 0 {
            Err::<i64, PayError>(PayError::TooSmall)
        } else {
            Ok(usdc_amount)
        },
{
    if usdc_amount <= 0 {
        Err(PayError::TooSmall)
    } else {
        Ok(usdc_amount)
    }
}

/// A transaction in the payment history.
pub struct Transaction {
    pub from_handle: String,
    pub to_handle: String,
    pub provider: String,
    pub status: String,
    pub settlement_status: String,
    pub memo: String,
}

/// The kind of a transaction as seen by `my_handle`.
pub open spec fn tx_kind_text(from: Seq<char>, my_handle: Seq<char>) -> Seq<char> {
    if from.len() == 0 {
        "DEPOSIT"@
    } else if from == my_handle {
        "SENT"@
    } else {
        "RECEIVED"@
    }
}

/// The sender column: `-` for a deposit.
pub open spec fn tx_from_text(from: Seq<char>) -> Seq<char> {
    if from.len() == 0 { "-"@ } else { seq!['@'] + from }
}

/// The status column: the settlement status follows a `/` when there is one.
pub open spec fn tx_status_text(status: Seq<char>, settlement: Seq<char>) -> Seq<char> {
    if settlement.len() != 0 { status + seq!['/'] + settlement } else { status }
}

/// The row that shows a transaction; `amount` is the amount already written
/// with six decimals.
pub open spec fn transaction_row(tx: Transaction, my_handle: Seq<char>, amount: Seq<char>) -> Seq<char> {
    row_text(seq![
        (tx_kind_text(tx.from_handle@, my_handle), 8, false),
        (tx.provider@, 8, false),
        (tx_from_text(tx.from_handle@), 12, false),
        (seq!['@'] + tx.to_handle@, 12, false),
        (amount, 14, true),
        (tx_status_text(tx.status@, tx.settlement_status@), 10, false),
        (tx.memo@, 0, false),
    ])
}

/// A transaction is a deposit exactly when it has no sender, sent exactly
/// when the user is its sender, and received otherwise; the three kinds are
/// told apart.
pub proof fn law_transaction_kind(from: Seq<char>, my_handle: Seq<char>)
    ensures
        (tx_kind_text(from, my_handle) == "DEPOSIT"@) == (from.len() == 0),
        (tx_kind_text(from, my_handle) == "SENT"@) == (from.len() != 0 && from == my_handle),
        (tx_kind_text(from, my_handle) == "RECEIVED"@) == (from.len() != 0 && from != my_handle),
{
    reveal_strlit("DEPOSIT");
    reveal_strlit("SENT");
    reveal_strlit("RECEIVED");
    assert("DEPOSIT"@.len() == 7 && "SENT"@.len() == 4 && "RECEIVED"@.len() == 8);
}

/// The status column shows the status, followed by `/` and the settlement
/// status exactly when there is one.
pub proof fn law_status_with_settlement(status: Seq<char>, settlement: Seq<char>)
    ensures
        tx_status_text(status, settlement).subrange(0, status.len() as int) == status,
        (tx_status_text(status, settlement).len() == status.len()) == (settlement.len() == 0),
        settlement.len() != 0 ==> tx_status_text(status, settlement)[status.len() as int] == '/',
        settlement.len() != 0 ==> tx_status_text(status, settlement).subrange(
            status.len() as int + 1,
            tx_status_text(status, settlement).len() as int,
        ) == settlement,
{
    let t = tx_status_text(status, settlement);
    assert(t.subrange(0, status.len() as int) =~= status);
    if settlement.len() != 0 {
        assert(t.subrange(status.len() as int + 1, t.len() as int) =~= settlement);
    }
}

/// The kind of a transaction as seen by `my_handle`.
pub fn transaction_kind(from: &str, my_handle: &str) -> (k: String)
    ensures
        k@ == tx_kind_text(from@, my_handle@),
{
    if from.is_empty() {
        owned("DEPOSIT")
    } else if crate::text::same_text(from, my_handle) {
        owned("SENT")
    } else {
        owned("RECEIVED")
    }
}

/// `@handle`.
fn at_handle(h: &str) -> (res: String)
    ensures
        res@ == seq!['@'] + h@,
{
    let mut r = String::new();
    push_char(&mut r, '@');
    r.append(h);
    assert(r@ =~= seq!['@'] + h@);
    r
}

/// The row that shows a transaction.
pub fn format_transaction_row(tx: &Transaction, my_handle: &str, amount: &str) -> (line: String)
    ensures
        line@ == transaction_row(*tx, my_handle@, amount@),
{
    let mut cells: Vec<Cell> = Vec::new();
    push_cell(&mut cells, transaction_kind(tx.from_handle.as_str(), my_handle), 8, false);
    push_cell(&mut cells, owned(tx.provider.as_str()), 8, false);
    let from = if tx.from_handle.as_str().is_empty() { owned("-") } else { at_handle(tx.from_handle.as_str()) };
    push_cell(&mut cells, from, 12, false);
    push_cell(&mut cells, at_handle(tx.to_handle.as_str()), 12, false);
    push_cell(&mut cells, owned(amount), 14, true);
    let status = if !tx.settlement_status.as_str().is_empty() {
        let mut s = owned(tx.status.as_str());
        push_char(&mut s, '/');
        s.append(tx.settlement_status.as_str());
        assert(s@ =~= tx.status@ + seq!['/'] + tx.settlement_status@);
        s
    } else {
        owned(tx.status.as_str())
    };
    push_cell(&mut cells, status, 10, false);
    push_cell(&mut cells, owned(tx.memo.as_str()), 0, false);
    assert(cell_views(cells@) =~= seq![
        (tx_kind_text(tx.from_handle@, my_handle@), 8nat, false),
        (tx.provider@, 8nat, false),
        (tx_from_text(tx.from_handle@), 12nat, false),
        (seq!['@'] + tx.to_handle@, 12nat, false),
        (amount@, 14nat, true),
        (tx_status_text(tx.status@, tx.settlement_status@), 10nat, false),
        (tx.memo@, 0nat, false),
    ]);
    format_row(&cells)
}

/// The heading and rule of a list of payment requests.
pub open spec fn requests_heading(sent: bool) -> Seq<Seq<char>> {
    let header = if sent { "Sent Requests"@ } else { "Pending Requests"@ };
    seq![header, repeated('=', header.len()), Seq::empty()]
}

/// The heading and rule of a list of payment requests.
pub fn format_requests_heading(sent: bool) -> (lines: Vec<String>)
    ensures
        crate::text::texts(lines@) == requests_heading(sent),
{
    let header = if sent { owned("Sent Requests") } else { owned("Pending Requests") };
    let n = crate::text::chars_of(header.as_str()).len();
    let rule = crate::text::repeat_char('=', n);
    let mut lines: Vec<String> = Vec::new();
    lines.push(header);
    lines.push(rule);
    lines.push(String::new());
    assert(crate::text::texts(lines@) =~= requests_heading(sent));
    lines
}

/// A payment request between agents.
pub struct WalletRequest {
    pub id: String,
    pub requester_handle: String,
    pub recipient_handle: String,
    pub provider: String,
    pub status: String,
    pub memo: String,
}

/// The lines that show a payment request; `amount` is the amount already
/// written with six decimals. Sent requests show the recipient, received
/// ones the requester.
pub open spec fn request_lines(r: WalletRequest, sent: bool, amount: Seq<char>) -> Seq<Seq<char>> {
    let lines = seq![
        "ID: "@ + r.id@,
        if sent { "  To: @"@ + r.recipient_handle@ } else { "  From: @"@ + r.requester_handle@ },
        "  Amount: "@ + amount + " USDC"@,
        "  Provider: "@ + r.provider@,
        "  Status: "@ + r.status@,
    ];
    let lines = if r.memo@.len() != 0 { lines.push("  Memo: "@ + r.memo@) } else { lines };
    lines.push(Seq::empty())
}

/// `label` followed by `value`.
fn labelled(label: &str, value: &str) -> (res: String)
    ensures
        res@ == label@ + value@,
{
    let mut r = owned(label);
    r.append(value);
    r
}

/// The lines that show a payment request.
pub fn format_request(r: &WalletRequest, sent: bool, amount: &str) -> (lines: Vec<String>)
    ensures
        crate::text::texts(lines@) == request_lines(*r, sent, amount@),
{
    let mut lines: Vec<String> = Vec::new();
    lines.push(labelled("ID: ", r.id.as_str()));
    if sent {
        lines.push(labelled("  To: @", r.recipient_handle.as_str()));
    } else {
        lines.push(labelled("  From: @", r.requester_handle.as_str()));
    }
    let mut a = labelled("  Amount: ", amount);
    a.append(" USDC");
    lines.push(a);
    lines.push(labelled("  Provider: ", r.provider.as_str()));
    lines.push(labelled("  Status: ", r.status.as_str()));
    if !r.memo.as_str().is_empty() {
        lines.push(labelled("  Memo: ", r.memo.as_str()));
    }
    lines.push(String::new());
    assert(crate::text::texts(lines@) =~= request_lines(*r, sent, amount@));
    lines
}

/// The line after the ID of a request block names the other party: the
/// recipient (`  To: @handle`) for a request the user sent, the requester
/// (`  From: @handle`) for one the user received. So the block of a sent
/// request always names its recipient, and the blocks of one request shown
/// as sent and as received differ on that line.
pub proof fn law_request_names_other_party(r: WalletRequest, sent: bool, amount: Seq<char>)
    ensures
        request_lines(r, sent, amount)[0] == "ID: "@ + r.id@,
        sent ==> request_lines(r, sent, amount)[1] == "  To: @"@ + r.recipient_handle@,
        !sent ==> request_lines(r, sent, amount)[1] == "  From: @"@ + r.requester_handle@,
        sent ==> occurs_in(request_lines(r, sent, amount)[1], r.recipient_handle@),
        request_lines(r, true, amount)[1] != request_lines(r, false, amount)[1],
{
    reveal_strlit("  To: @");
    reveal_strlit("  From: @");
    if sent {
        crate::text::lemma_occurs_in_self(r.recipient_handle@);
        crate::text::lemma_occurs_in_middle("  To: @"@, r.recipient_handle@, Seq::empty(), r.recipient_handle@);
        assert("  To: @"@ + r.recipient_handle@ + Seq::<char>::empty() =~= "  To: @"@ + r.recipient_handle@);
    }
    assert(request_lines(r, true, amount)[1][2] == 'T');
    assert(request_lines(r, false, amount)[1][2] == 'F');
}

/// The word that opens a settlement answer: `Rejecting` or `Confirming`.
pub fn settle_action(reject: bool) -> (w: String)
    ensures
        w@ == if reject { "Rejecting"@ } else { "Confirming"@ },
{
    if reject { owned("Rejecting") } else { owned("Confirming") }
}

/// The limit sent with a payments query: 20 when none is given, converted
/// to the server's `i32` as `as` does (wrapping above `i32::MAX`).
pub fn payments_limit(limit: Option<u32>) -> (l: i32)
    ensures
        l == (match limit { Some(x) => x, None => 20u32 }) as i32,
{
    let x: u32 = match limit {
        Some(x) => x,
        None => 20,
    };
    x as i32
}

/// The heading row of the transaction table.
pub open spec fn history_header_row() -> Seq<char> {
    row_text(seq![
        ("Type"@, 8, false),
        ("Provider"@, 8, false),
        ("From"@, 12, false),
        ("To"@, 12, false),
        ("Amount"@, 15, false),
        ("Status"@, 10, false),
        ("Memo"@, 0, false),
    ])
}

/// The rows of the first `n` transactions.
pub open spec fn transaction_rows(txs: Seq<Transaction>, my_handle: Seq<char>, amounts: Seq<Seq<char>>, n: nat) -> Seq<Seq<char>>
    decreases n,
{
    if n == 0 {
        Seq::empty()
    } else {
        transaction_rows(txs, my_handle, amounts, (n - 1) as nat).push(
            transaction_row(txs[n - 1], my_handle, amounts[n - 1]),
        )
    }
}

/// What `pay history` shows: a notice when there are no transactions, else
/// the heading, a rule, and one row per transaction (`amounts[i]` is the
/// amount of `txs[i]` already written with six decimals).
pub open spec fn history_view_lines(txs: Seq<Transaction>, my_handle: Seq<char>, amounts: Seq<Seq<char>>) -> Seq<Seq<char>> {
    if txs.len() == 0 {
        seq!["No transactions found."@]
    } else {
        seq![history_header_row(), repeated('-', 85)] + transaction_rows(txs, my_handle, amounts, txs.len())
    }
}

/// The heading row of the transaction table.
pub fn history_header() -> (line: String)
    ensures
        line@ == history_header_row(),
{
    let mut cells: Vec<Cell> = Vec::new();
    push_cell(&mut cells, owned("Type"), 8, false);
    push_cell(&mut cells, owned("Provider"), 8, false);
    push_cell(&mut cells, owned("From"), 12, false);
    push_cell(&mut cells, owned("To"), 12, false);
    push_cell(&mut cells, owned("Amount"), 15, false);
    push_cell(&mut cells, owned("Status"), 10, false);
    push_cell(&mut cells, owned("Memo"), 0, false);
    assert(cell_views(cells@) =~= seq![
        ("Type"@, 8nat, false),
        ("Provider"@, 8nat, false),
        ("From"@, 12nat, false),
        ("To"@, 12nat, false),
        ("Amount"@, 15nat, false),
        ("Status"@, 10nat, false),
        ("Memo"@, 0nat, false),
    ]);
    format_row(&cells)
}

/// What `pay history` shows.
pub fn history_view(txs: &Vec<Transaction>, my_handle: &str, amounts: &Vec<String>) -> (lines: Vec<String>)
    requires
        amounts@.len() == txs@.len(),
    ensures
        texts(lines@) == history_view_lines(txs@, my_handle@, texts(amounts@)),
{
    if txs.len() == 0 {
        return crate::text::single_line(owned("No transactions found."));
    }
    let mut lines: Vec<String> = Vec::new();
    lines.push(history_header());
    lines.push(crate::text::repeat_char('-', 85));
    let ghost head = texts(lines@);
    assert(head =~= seq![history_header_row(), repeated('-', 85)]);
    let mut i: usize = 0;
    while i < txs.len()
        invariant
            i <= txs.len() == amounts.len(),
            texts(lines@) == head + transaction_rows(txs@, my_handle@, texts(amounts@), i as nat),
        decreases txs.len() - i,
    {
        let row = format_transaction_row(&txs[i], my_handle, amounts[i].as_str());
        let ghost before = texts(lines@);
        lines.push(row);
        assert(texts(lines@) =~= before.push(row@));
        assert(texts(amounts@)[i as int] == amounts@[i as int]@);
        assert(texts(lines@) =~= head + transaction_rows(txs@, my_handle@, texts(amounts@), (i + 1) as nat));
        i = i + 1;
    }
    lines
}

/// The lines of the first `n` payment requests.
pub open spec fn request_blocks(reqs: Seq<WalletRequest>, sent: bool, amounts: Seq<Seq<char>>, n: nat) -> Seq<Seq<char>>
    decreases n,
{
    if n == 0 {
        Seq::empty()
    } else {
        request_blocks(reqs, sent, amounts, (n - 1) as nat) + request_lines(reqs[n - 1], sent, amounts[n - 1])
    }
}

/// The hint shown after the received requests.
pub open spec fn respond_hint() -> Seq<char> {
    "Use 'kuren pay request approve <id>' or 'kuren pay request deny <id>' to respond."@
}

/// What `pay request list` shows: a notice when there are none (which one
/// depends on `sent`), else the heading, each request, and for received
/// requests a hint on how to answer them.
pub open spec fn requests_view_lines(reqs: Seq<WalletRequest>, sent: bool, amounts: Seq<Seq<char>>) -> Seq<Seq<char>> {
    if reqs.len() == 0 {
        seq![if sent { "No sent requests found."@ } else { "No pending requests."@ }]
    } else {
        requests_heading(sent) + request_blocks(reqs, sent, amounts, reqs.len()) + if sent {
            Seq::empty()
        } else {
            seq![respond_hint()]
        }
    }
}

/// A list of sent requests is headed `Sent Requests` and a list of received
/// ones `Pending Requests`, underlined with as many `=`; an empty list says
/// which of the two it is; only the received requests end with the hint on
/// how to answer them.
pub proof fn law_requests_view_kind(reqs: Seq<WalletRequest>, sent: bool, amounts: Seq<Seq<char>>)
    ensures
        reqs.len() == 0 ==> requests_view_lines(reqs, sent, amounts) == seq![
            if sent { "No sent requests found."@ } else { "No pending requests."@ },
        ],
        reqs.len() != 0 ==> requests_view_lines(reqs, sent, amounts)[0] == if sent {
            "Sent Requests"@
        } else {
            "Pending Requests"@
        },
        reqs.len() != 0 ==> requests_view_lines(reqs, sent, amounts)[1] == repeated(
            '=',
            requests_view_lines(reqs, sent, amounts)[0].len(),
        ),
        reqs.len() != 0 && !sent ==> requests_view_lines(reqs, sent, amounts).last() == respond_hint(),
        reqs.len() != 0 && sent ==> requests_view_lines(reqs, sent, amounts).last() != respond_hint(),
{
    reveal_strlit("Use 'kuren pay request approve <id>' or 'kuren pay request deny <id>' to respond.");
    if reqs.len() != 0 {
        let n = reqs.len();
        let blocks = request_blocks(reqs, sent, amounts, n);
        let last = request_lines(reqs[n - 1], sent, amounts[n - 1]);
        assert(blocks == request_blocks(reqs, sent, amounts, (n - 1) as nat) + last);
        assert(last.last().len() == 0);
        assert(blocks.last() == last.last());
        if sent {
            assert(requests_view_lines(reqs, sent, amounts) =~= requests_heading(sent) + blocks);
            assert(requests_view_lines(reqs, sent, amounts).last() == blocks.last());
        }
    }
}

/// What `pay request list` shows.
pub fn requests_view(reqs: &Vec<WalletRequest>, sent: bool, amounts: &Vec<String>) -> (lines: Vec<String>)
    requires
        amounts@.len() == reqs@.len(),
    ensures
        texts(lines@) == requests_view_lines(reqs@, sent, texts(amounts@)),
{
    if reqs.len() == 0 {
        let notice = if sent { owned("No sent requests found.") } else { owned("No pending requests.") };
        return crate::text::single_line(notice);
    }
    let mut lines = format_requests_heading(sent);
    let ghost head = texts(lines@);
    assert(head + request_blocks(reqs@, sent, texts(amounts@), 0) =~= head);
    let mut i: usize = 0;
    while i < reqs.len()
        invariant
            i <= reqs.len() == amounts.len(),
            head == requests_heading(sent),
            texts(lines@) == head + request_blocks(reqs@, sent, texts(amounts@), i as nat),
        decreases reqs.len() - i,
    {
        let block = format_request(&reqs[i], sent, amounts[i].as_str());
        let ghost b = texts(block@);
        let ghost before = texts(lines@);
        crate::text::append_lines(&mut lines, block);
        assert(texts(amounts@)[i as int] == amounts@[i as int]@);
        assert(texts(lines@) =~= head + request_blocks(reqs@, sent, texts(amounts@), (i + 1) as nat));
        i = i + 1;
    }
    if !sent {
        let ghost before = texts(lines@);
        lines.push(owned("Use 'kuren pay request approve <id>' or 'kuren pay request deny <id>' to respond."));
        assert(texts(lines@) =~= before.push(respond_hint()));
    }
    assert(texts(lines@) =~= requests_view_lines(reqs@, sent, texts(amounts@)));
    lines
}

} // verus!
