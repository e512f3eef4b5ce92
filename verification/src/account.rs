use vstd::prelude::*;
use crate::strutil::concat2;

verus! {

/// How the run obtains its ACME account: by rehydrating a session from the
/// persisted credential file, or by registering a new account with the
/// authority. Registration happens only when no credential file exists.
pub enum AccountPlan {
    /// A credential file exists; its contents are reused unchanged and no
    /// registration request is made.
    Reuse { credentials: String },
    /// No credential file exists; register a new account with the given
    /// contact and agreed terms of service.
    Register { contact: String, terms_of_service_agreed: bool },
}

/// What `plan_account` returns: reuse of the exact file contents when a
/// credential file exists, else a registration for `mailto:<contact>` with
/// the terms of service agreed.
pub open spec fn plan_ensures(existing: Option<String>, contact: &str, plan: AccountPlan) -> bool {
    match existing {
        Some(credentials) => plan == (AccountPlan::Reuse { credentials }),
        None => {
            &&& plan matches AccountPlan::Register { contact: c, terms_of_service_agreed: t }
            &&& c@ == "mailto:"@ + contact@
            &&& t == true
        },
    }
}

/// Decides account bootstrap from the credential file's contents, if any.
pub fn plan_account(existing: Option<String>, contact: &str) -> (plan: AccountPlan)
    ensures
        plan_ensures(existing, contact, plan),
{
    match existing {
        Some(credentials) => AccountPlan::Reuse { credentials },
        None => AccountPlan::Register {
            contact: concat2("mailto:", contact),
            terms_of_service_agreed: true,
        },
    }
}

/// Idempotent bootstrap: with a pre-existing credential file, any two
/// account plans reuse exactly its contents — the same identity both times —
/// and neither is a registration.
pub proof fn lemma_bootstrap_idempotent(
    credentials: String,
    contact1: &str,
    contact2: &str,
    plan1: AccountPlan,
    plan2: AccountPlan,
)
    requires
        plan_ensures(Some(credentials), contact1, plan1),
        plan_ensures(Some(credentials), contact2, plan2),
    ensures
        plan1 == plan2,
        plan1 == (AccountPlan::Reuse { credentials }),
        !(plan1 matches AccountPlan::Register { .. }),
{
}

} // verus!
