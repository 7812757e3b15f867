use vstd::prelude::*;

use crate::strutil::{ascii_lower, ascii_lowercase, push_char};
use vstd::string::StringExecFns;

verus! {

/// The step of device provisioning at which a failure occurred; its name is
/// shown to the user in a stage-qualified error message.
#[derive(Clone, Copy, PartialEq, Eq, Structural, Debug)]
pub enum ProvisioningStage {
    /// Authenticating against the backend panel failed.
    ServerPanel,
    /// Submitting the new client record failed.
    AddingConnection,
}

/// The human-readable name of a provisioning stage.
pub open spec fn stage_name_spec(stage: ProvisioningStage) -> Seq<char> {
    match stage {
        ProvisioningStage::ServerPanel => "server panel"@,
        ProvisioningStage::AddingConnection => "adding connection"@,
    }
}

impl ProvisioningStage {
    /// The human-readable stage name used in error messages.
    pub fn text(&self) -> (r: String)
        ensures
            r@ == stage_name_spec(*self),
    {
        match self {
            ProvisioningStage::ServerPanel => "server panel".to_owned(),
            ProvisioningStage::AddingConnection => "adding connection".to_owned(),
        }
    }
}

/// A provisioning failure, carrying only the stage name for message formatting;
/// raw backend errors are never surfaced to the user.
#[derive(Clone, Copy, PartialEq, Eq, Structural, Debug)]
pub struct ProvisioningError {
    pub stage: ProvisioningStage,
}

/// What a successful provisioning step hands back for presentation.
#[derive(Debug)]
pub struct SubscriptionInfo {
    pub client_id: String,
    pub subscription_url: String,
}

/// The client identifier built for one enrollment step: the user identity,
/// the lowercased platform name and a per-attempt token, joined by underscores.
pub open spec fn client_id_spec(user: Seq<char>, platform: Seq<char>, token: Seq<char>) -> Seq<char> {
    user + seq!['_'] + ascii_lower(platform) + seq!['_'] + token
}

/// Builds the client identifier for one enrollment step.
pub fn build_client_id(user: &str, platform: &str, token: &str) -> (r: String)
    ensures
        r@ == client_id_spec(user@, platform@, token@),
{
    let mut r = user.to_owned();
    push_char(&mut r, '_');
    let low = ascii_lowercase(platform);
    r.append(low.as_str());
    push_char(&mut r, '_');
    r.append(token);
    assert(r@ =~= client_id_spec(user@, platform@, token@));
    r
}

/// The subscription URL derived for a client: the base URL, a slash, the client id.
pub open spec fn subscription_url_spec(base: Seq<char>, client_id: Seq<char>) -> Seq<char> {
    base + seq!['/'] + client_id
}

/// Derives the subscription URL for a freshly provisioned client.
pub fn subscription_url(base: &str, client_id: &str) -> (r: String)
    ensures
        r@ == subscription_url_spec(base@, client_id@),
{
    let mut r = base.to_owned();
    push_char(&mut r, '/');
    r.append(client_id);
    assert(r@ =~= subscription_url_spec(base@, client_id@));
    r
}

/// Folds the outcomes of the two outside steps of provisioning — panel
/// authentication and client submission — into the result of the whole step:
/// the first failed step aborts with its stage name, and only full success
/// yields the subscription info for the identifier that was submitted.
pub fn provision_outcome(
    auth_ok: bool,
    add_ok: bool,
    base: &str,
    user: &str,
    platform: &str,
    token: &str,
) -> (r: Result<SubscriptionInfo, ProvisioningError>)
    ensures
        !auth_ok ==> (r matches Err(e) && e.stage is ServerPanel),
        auth_ok && !add_ok ==> (r matches Err(e) && e.stage is AddingConnection),
        auth_ok && add_ok ==> (r matches Ok(info)
            && info.client_id@ == client_id_spec(user@, platform@, token@)
            && info.subscription_url@ == subscription_url_spec(
            base@,
            client_id_spec(user@, platform@, token@),
        )),
{
    if !auth_ok {
        Err(ProvisioningError { stage: ProvisioningStage::ServerPanel })
    } else if !add_ok {
        Err(ProvisioningError { stage: ProvisioningStage::AddingConnection })
    } else {
        let client_id = build_client_id(user, platform, token);
        let url = subscription_url(base, client_id.as_str());
        Ok(SubscriptionInfo { client_id, subscription_url: url })
    }
}

/// Distinct per-attempt tokens give distinct client identifiers for the same
/// user and platform, so repeated provisioning attempts never collide on
/// backend identity.
pub proof fn lemma_client_id_distinct(
    user: Seq<char>,
    platform: Seq<char>,
    t1: Seq<char>,
    t2: Seq<char>,
)
    requires
        t1 != t2,
    ensures
        client_id_spec(user, platform, t1) != client_id_spec(user, platform, t2),
{
    let p = user + seq!['_'] + ascii_lower(platform) + seq!['_'];
    assert(client_id_spec(user, platform, t1) =~= p + t1);
    assert(client_id_spec(user, platform, t2) =~= p + t2);
    if p + t1 == p + t2 {
        assert(t1.len() == t2.len());
        assert forall|i: int| 0 <= i < t1.len() implies t1[i] == t2[i] by {
            assert((p + t1)[p.len() + i] == t1[i]);
            assert((p + t2)[p.len() + i] == t2[i]);
        }
        assert(t1 =~= t2);
    }
    assert(p + t1 != p + t2);
}

} // verus!
