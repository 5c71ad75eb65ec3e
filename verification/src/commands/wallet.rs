//! Wallets: the permissions granted to a member, and the rows that list wallets.
use vstd::prelude::*;
use vstd::string::*;
use crate::text::{owned, texts, trimmed, split_on, joined, strip_ats, Cell, push_cell, format_row, row_text, cell_views};
use crate::commands::payments::{or_dash, dash_if_empty};

verus! {

/// The permissions named in a comma-separated list, each trimmed of white space.
pub open spec fn permission_list(s: Seq<char>) -> Seq<Seq<char>> {
    split_on(s, ',').map_values(|p: Seq<char>| trimmed(p))
}

/// The permissions named in a comma-separated list (`split(',')`, each `trim`med).
pub fn parse_permissions(permission: &str) -> (res: Vec<String>)
    ensures
        texts(res@) == permission_list(permission@),
{
    let parts = crate::text::split_on_char(permission, ',');
    let mut res: Vec<String> = Vec::new();
    let mut i: usize = 0;
    while i < parts.len()
        invariant
            i <= parts.len(),
            parts@.len() == split_on(permission@, ',').len(),
            forall|j: int| 0 <= j < parts@.len() ==> #[trigger] parts@[j]@ == split_on(permission@, ',')[j],
            texts(res@) =~= split_on(permission@, ',').take(i as int).map_values(|p: Seq<char>| trimmed(p)),
        decreases parts.len() - i,
    {
        let t = crate::text::trim(parts[i].as_str());
        let ghost before = res@;
        res.push(t);
        assert(texts(res@) =~= texts(before).push(trimmed(split_on(permission@, ',')[i as int])));
        assert(split_on(permission@, ',').take(i + 1).map_values(|p: Seq<char>| trimmed(p)) =~= split_on(
            permission@,
            ',',
        ).take(i as int).map_values(|p: Seq<char>| trimmed(p)).push(trimmed(split_on(permission@, ',')[i as int])));
        i = i + 1;
    }
    assert(split_on(permission@, ',').take(parts.len() as int) =~= split_on(permission@, ','));
    res
}

/// The confirmation once a member is added to a wallet, for the handle as
/// typed and the permissions as parsed.
pub open spec fn member_added_line(wallet_id: Seq<char>, handle: Seq<char>, permissions: Seq<Seq<char>>) -> Seq<char> {
    "Added @"@ + strip_ats(handle) + " to wallet "@ + wallet_id + " with permissions: ["@ + joined(permissions, ", "@)
        + "]."@
}

/// The confirmation once a member is added to a wallet.
pub fn member_added(wallet_id: &str, handle: &str, permissions: &Vec<String>) -> (line: String)
    ensures
        line@ == member_added_line(wallet_id@, handle@, texts(permissions@)),
{
    let h = crate::text::strip_at_prefix(handle);
    let mut r = owned("Added @");
    r.append(h.as_str());
    r.append(" to wallet ");
    r.append(wallet_id);
    r.append(" with permissions: [");
    let p = crate::text::join(permissions, ", ");
    r.append(p.as_str());
    r.append("].");
    r
}

/// A wallet as listed.
pub struct Wallet {
    pub id: String,
    pub provider: String,
    pub display_name: String,
    pub is_default: bool,
    pub network: String,
}

/// The row that lists a wallet; `balance` is the balance already written
/// with six decimals.
pub open spec fn wallet_row(w: Wallet, balance: Seq<char>) -> Seq<char> {
    row_text(seq![
        (w.id@, 38, false),
        (w.provider@, 8, false),
        (or_dash(w.display_name@), 12, false),
        (balance, 13, true),
        (if w.is_default { "*"@ } else { Seq::empty() }, 8, false),
        (or_dash(w.network@), 0, false),
    ])
}

/// The default column of a wallet row holds `*` for the default wallet and
/// nothing for any other.
pub proof fn law_default_marker(w: Wallet, balance: Seq<char>)
    ensures
        wallet_row(w, balance) == row_text(seq![
            (w.id@, 38nat, false),
            (w.provider@, 8nat, false),
            (or_dash(w.display_name@), 12nat, false),
            (balance, 13nat, true),
            (if w.is_default { seq!['*'] } else { Seq::empty() }, 8nat, false),
            (or_dash(w.network@), 0nat, false),
        ]),
{
    reveal_strlit("*");
    assert("*"@ =~= seq!['*']);
}

/// The row that lists a wallet.
pub fn format_wallet_row(w: &Wallet, balance: &str) -> (line: String)
    ensures
        line@ == wallet_row(*w, balance@),
{
    let mut cells: Vec<Cell> = Vec::new();
    push_cell(&mut cells, owned(w.id.as_str()), 38, false);
    push_cell(&mut cells, owned(w.provider.as_str()), 8, false);
    push_cell(&mut cells, dash_if_empty(w.display_name.as_str()), 12, false);
    push_cell(&mut cells, owned(balance), 13, true);
    let marker = if w.is_default { owned("*") } else { String::new() };
    push_cell(&mut cells, marker, 8, false);
    push_cell(&mut cells, dash_if_empty(w.network.as_str()), 0, false);
    assert(cell_views(cells@) =~= seq![
        (w.id@, 38nat, false),
        (w.provider@, 8nat, false),
        (or_dash(w.display_name@), 12nat, false),
        (balance@, 13nat, true),
        (if w.is_default { "*"@ } else { Seq::empty() }, 8nat, false),
        (or_dash(w.network@), 0nat, false),
    ]);
    format_row(&cells)
}

/// A wallet just created.
pub struct CreatedWallet {
    pub id: String,
    pub provider: String,
    pub display_name: String,
    pub solana_address: String,
    pub network: String,
}

/// The lines shown once a wallet is created: the name and the on-chain
/// address and network only when there are any.
pub open spec fn created_wallet_lines(w: CreatedWallet) -> Seq<Seq<char>> {
    let lines = seq!["Wallet created!"@, "  ID: "@ + w.id@, "  Provider: "@ + w.provider@];
    let lines = if w.display_name@.len() != 0 { lines.push("  Name: "@ + w.display_name@) } else { lines };
    let lines = if w.solana_address@.len() != 0 {
        lines.push("  Solana address: "@ + w.solana_address@).push("  Network: "@ + w.network@)
    } else {
        lines
    };
    lines.push(Seq::empty()).push("Set as default: kuren wallet default "@ + w.id@)
}

/// `label` followed by `value`.
fn labelled(label: &str, value: &str) -> (res: String)
    ensures
        res@ == label@ + value@,
{
    let mut r = owned(label);
    r.append(value);
    r
}

/// The lines shown once a wallet is created.
pub fn format_created_wallet(w: &CreatedWallet) -> (lines: Vec<String>)
    ensures
        texts(lines@) == created_wallet_lines(*w),
{
    let mut lines: Vec<String> = Vec::new();
    lines.push(owned("Wallet created!"));
    lines.push(labelled("  ID: ", w.id.as_str()));
    lines.push(labelled("  Provider: ", w.provider.as_str()));
    if !w.display_name.as_str().is_empty() {
        lines.push(labelled("  Name: ", w.display_name.as_str()));
    }
    if !w.solana_address.as_str().is_empty() {
        lines.push(labelled("  Solana address: ", w.solana_address.as_str()));
        lines.push(labelled("  Network: ", w.network.as_str()));
    }
    lines.push(String::new());
    lines.push(labelled("Set as default: kuren wallet default ", w.id.as_str()));
    assert(texts(lines@) =~= created_wallet_lines(*w));
    lines
}

/// The lines after the balance: the wallet and the deposit address when known.
pub open spec fn balance_detail_lines(wallet_id: Seq<char>, solana_address: Seq<char>) -> Seq<Seq<char>> {
    let lines = if wallet_id.len() != 0 { seq!["Wallet: "@ + wallet_id] } else { Seq::empty() };
    if solana_address.len() != 0 { lines.push("Deposit address: "@ + solana_address) } else { lines }
}

/// The lines after the balance.
pub fn format_balance_details(wallet_id: &str, solana_address: &str) -> (lines: Vec<String>)
    ensures
        texts(lines@) == balance_detail_lines(wallet_id@, solana_address@),
{
    let mut lines: Vec<String> = Vec::new();
    if !wallet_id.is_empty() {
        lines.push(labelled("Wallet: ", wallet_id));
    }
    if !solana_address.is_empty() {
        lines.push(labelled("Deposit address: ", solana_address));
    }
    assert(texts(lines@) =~= balance_detail_lines(wallet_id@, solana_address@));
    lines
}

} // verus!
