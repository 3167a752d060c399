//! The identity of the host: the name of the device and of the current user.
//!
//! The host is asked outside this library. What came back is handed in as
//! two options, `None` standing for a lookup that failed.

use vstd::prelude::*;
use crate::config::ConfigError;
use crate::json::{member_views, object_text, render_object, Json, Member, MemberView, Scalar};

verus! {

/// The device name and the account name of the current user.
#[derive(Clone, Debug, PartialEq, Eq)]
pub struct Identity {
    pub machine: String,
    pub user: String,
}

/// The mathematical value of an [`Identity`].
pub struct IdentityView {
    pub machine: Seq<char>,
    pub user: Seq<char>,
}

impl View for Identity {
    type V = IdentityView;

    open spec fn view(&self) -> IdentityView {
        IdentityView { machine: self.machine@, user: self.user@ }
    }
}

/// The members written for an identity.
pub open spec fn identity_members(identity: IdentityView) -> Seq<MemberView> {
    seq![
        MemberView { name: "machine"@, value: Json::Text(identity.machine) },
        MemberView { name: "user"@, value: Json::Text(identity.user) },
    ]
}

/// The text written for an identity.
pub open spec fn identity_text(identity: IdentityView) -> Seq<char> {
    object_text(identity_members(identity))
}

/// The identity that two host lookups gave: both names where both lookups
/// succeeded, an I/O error where either failed. No name is made up for a
/// lookup that failed.
pub fn identify(machine: Option<String>, user: Option<String>) -> (r: Result<
    Identity,
    ConfigError,
>)
    ensures
        match r {
            Ok(identity) => machine is Some && user is Some && identity.machine@ == machine->0@
                && identity.user@ == user->0@,
            Err(e) => e == ConfigError::IoError && (machine is None || user is None),
        },
{
    match (machine, user) {
        (Some(machine), Some(user)) => Ok(Identity { machine, user }),
        _ => Err(ConfigError::IoError),
    }
}

/// Writes an identity as a JSON object with the members `machine` and
/// `user`.
pub fn identity_json(identity: &Identity) -> (text: String)
    ensures
        text@ == identity_text(identity@),
{
    let mut members: Vec<Member> = Vec::new();
    members.push(
        Member { name: "machine".to_owned(), value: Scalar::Text(identity.machine.clone()) },
    );
    members.push(Member { name: "user".to_owned(), value: Scalar::Text(identity.user.clone()) });
    assert(member_views(members@) =~= identity_members(identity@));
    render_object(&members)
}

/// The identity of the host as JSON text, from what two host lookups gave;
/// an I/O error where either lookup failed.
pub fn check_user(machine: Option<String>, user: Option<String>) -> (r: Result<
    String,
    ConfigError,
>)
    ensures
        match r {
            Ok(text) => machine is Some && user is Some && text@ == identity_text(
                (IdentityView { machine: machine->0@, user: user->0@ }),
            ),
            Err(e) => e == ConfigError::IoError && (machine is None || user is None),
        },
{
    match identify(machine, user) {
        Ok(identity) => Ok(identity_json(&identity)),
        Err(e) => Err(e),
    }
}

} // verus!
