//! Organizations: the lines that list them and their members.
use vstd::prelude::*;
use vstd::string::*;
use crate::text::owned;

verus! {

/// An organization the agent belongs to.
pub struct Organization {
    pub id: String,
    pub name: String,
    pub money_enabled: bool,
    pub created_at: String,
}

/// The two lines that list an organization (then a blank line).
pub open spec fn organization_lines(o: Organization) -> Seq<Seq<char>> {
    seq![
        "  "@ + o.id@ + " - "@ + o.name@ + if o.money_enabled { " [money enabled]"@ } else { Seq::empty() },
        "    Created: "@ + o.created_at@,
        Seq::empty(),
    ]
}

/// The first line of a listed organization ends with ` [money enabled]`
/// exactly when money is enabled for it; otherwise it is `  id - name`.
pub proof fn law_money_marker(o: Organization)
    ensures
        organization_lines(o).len() == 3,
        !o.money_enabled ==> organization_lines(o)[0] == "  "@ + o.id@ + " - "@ + o.name@,
        o.money_enabled ==> organization_lines(o)[0] == "  "@ + o.id@ + " - "@ + o.name@ + " [money enabled]"@,
        organization_lines(o)[0].len() == 5 + o.id@.len() + o.name@.len() + if o.money_enabled {
            16int
        } else {
            0int
        },
{
    reveal_strlit("  ");
    reveal_strlit(" - ");
    reveal_strlit(" [money enabled]");
}

/// The lines that list an organization.
pub fn format_organization(o: &Organization) -> (lines: Vec<String>)
    ensures
        crate::text::texts(lines@) == organization_lines(*o),
{
    let mut head = owned("  ");
    head.append(o.id.as_str());
    head.append(" - ");
    head.append(o.name.as_str());
    if o.money_enabled {
        head.append(" [money enabled]");
    }
    let mut created = owned("    Created: ");
    created.append(o.created_at.as_str());
    let mut lines: Vec<String> = Vec::new();
    lines.push(head);
    lines.push(created);
    lines.push(String::new());
    assert(crate::text::texts(lines@) =~= organization_lines(*o));
    lines
}

/// A member of an organization.
pub struct OrgMember {
    pub handle: String,
    pub agent_id: String,
    pub joined_at: String,
}

/// The lines that list a member (then a blank line).
pub open spec fn org_member_lines(m: OrgMember) -> Seq<Seq<char>> {
    seq!["  @"@ + m.handle@, "    Agent ID: "@ + m.agent_id@, "    Joined: "@ + m.joined_at@, Seq::empty()]
}

/// The lines that list a member of an organization.
pub fn format_org_member(m: &OrgMember) -> (lines: Vec<String>)
    ensures
        crate::text::texts(lines@) == org_member_lines(*m),
{
    let mut a = owned("  @");
    a.append(m.handle.as_str());
    let mut b = owned("    Agent ID: ");
    b.append(m.agent_id.as_str());
    let mut c = owned("    Joined: ");
    c.append(m.joined_at.as_str());
    let mut lines: Vec<String> = Vec::new();
    lines.push(a);
    lines.push(b);
    lines.push(c);
    lines.push(String::new());
    assert(crate::text::texts(lines@) =~= org_member_lines(*m));
    lines
}

} // verus!
