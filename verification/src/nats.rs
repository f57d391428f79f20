//! Subject names under which the organization domain's messages travel.
//!
//! The transport itself is an external collaborator; the library only fixes
//! the names: commands are addressed per aggregate, events are published per
//! aggregate and event type so subscribers can filter, and queries and
//! snapshots have rooted subjects of their own.

use vstd::prelude::*;
use vstd::string::StringExecFns;

verus! {

/// Subject pattern under which every organization command is received.
pub fn command_subject_pattern() -> (r: &'static str)
    ensures
        r@ == "organization.commands.>"@,
{
    "organization.commands.>"
}

/// Subject pattern under which every organization event is published.
pub fn event_subject_pattern() -> (r: &'static str)
    ensures
        r@ == "organization.events.>"@,
{
    "organization.events.>"
}

/// Subject patterns for the organization domain.
pub struct OrganizationSubjects;

impl OrganizationSubjects {
    /// Commands subject pattern.
    pub fn commands() -> (r: &'static str)
        ensures
            r@ == "organization.commands.>"@,
    {
        "organization.commands.>"
    }

    /// Events subject pattern.
    pub fn events() -> (r: &'static str)
        ensures
            r@ == "organization.events.>"@,
    {
        "organization.events.>"
    }
}

/// Subject for one kind of organization command.
pub fn organization_command_subject(command_type: &str) -> (r: String)
    ensures
        r@ == "organization.commands."@ + command_type@,
{
    let mut s = String::new();
    s.append("organization.commands.");
    s.append(command_type);
    proof {
        assert(s@ =~= "organization.commands."@ + command_type@);
    }
    s
}

/// Subject for one kind of organization event.
pub fn organization_event_subject(event_type: &str) -> (r: String)
    ensures
        r@ == "organization.events."@ + event_type@,
{
    let mut s = String::new();
    s.append("organization.events.");
    s.append(event_type);
    proof {
        assert(s@ =~= "organization.events."@ + event_type@);
    }
    s
}

/// Subject for one kind of organization query.
pub fn organization_query_subject(query_type: &str) -> (r: String)
    ensures
        r@ == "organization.queries."@ + query_type@,
{
    let mut s = String::new();
    s.append("organization.queries.");
    s.append(query_type);
    proof {
        assert(s@ =~= "organization.queries."@ + query_type@);
    }
    s
}

/// Subject for an organization's snapshots.
pub fn organization_snapshot_subject(organization: &str) -> (r: String)
    ensures
        r@ == "organization.snapshots."@ + organization@,
{
    let mut s = String::new();
    s.append("organization.snapshots.");
    s.append(organization);
    proof {
        assert(s@ =~= "organization.snapshots."@ + organization@);
    }
    s
}

} // verus!
