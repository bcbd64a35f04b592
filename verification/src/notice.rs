//! The lines that tell the operator what is being done. Each function builds
//! one notice; whoever prints it ends it with a line break.

use vstd::prelude::*;
use crate::expire::Expire;

verus! {

/// The warning for an instance id that no registered client carries.
pub open spec fn unregistered_text(id: Seq<char>) -> Seq<char> {
    "WARNING: instance ID \""@ + id + "\" not associated with Sensu client ID\n"@
        + "If you recently provisioned an instance, please wait for it to register with Sensu\n"@
}

pub fn unregistered(id: &str) -> (s: String)
    ensures
        s@ == unregistered_text(id@),
{
    String::from_str("WARNING: instance ID \"").concat(id).concat(
        "\" not associated with Sensu client ID\n",
    ).concat(
        "If you recently provisioned an instance, please wait for it to register with Sensu\n",
    )
}

/// The notice that subscriptions go unvalidated.
pub open spec fn subscriptions_unchecked_text() -> Seq<char> {
    "Failed to pull data from API for subscriptions\nProceeding without subscription validation"@
}

pub fn subscriptions_unchecked() -> (s: String)
    ensures
        s@ == subscriptions_unchecked_text(),
{
    String::from_str(
        "Failed to pull data from API for subscriptions\nProceeding without subscription validation",
    )
}

/// The notice that checks go unvalidated.
pub open spec fn checks_unchecked_text() -> Seq<char> {
    "Failed to pull data from API for check results\nProceeding without check validation"@
}

pub fn checks_unchecked() -> (s: String)
    ensures
        s@ == checks_unchecked_text(),
{
    String::from_str(
        "Failed to pull data from API for check results\nProceeding without check validation",
    )
}

/// The notice for a subscription that no client holds.
pub open spec fn subscription_filtered_text(name: Seq<char>) -> Seq<char> {
    "Subscription "@ + name + " does not exist - filtering..."@
}

pub fn subscription_filtered(name: &str) -> (s: String)
    ensures
        s@ == subscription_filtered_text(name@),
{
    String::from_str("Subscription ").concat(name).concat(" does not exist - filtering...")
}

/// The notice for a check that has no result.
pub open spec fn check_filtered_text(name: Seq<char>) -> Seq<char> {
    "Check "@ + name + " does not exist - filtering..."@
}

pub fn check_filtered(name: &str) -> (s: String)
    ensures
        s@ == check_filtered_text(name@),
{
    String::from_str("Check ").concat(name).concat(" does not exist - filtering...")
}

/// The line before the request that silences one check on one resource.
pub open spec fn silencing_pair_text(resource: Seq<char>, check: Seq<char>, expire: Expire) -> Seq<
    char,
> {
    "Silencing check "@ + check + " on resource "@ + resource + " and will "@ + expire.text_view()
}

pub fn silencing_pair(resource: &str, check: &str, expire: Expire) -> (s: String)
    ensures
        s@ == silencing_pair_text(resource@, check@, expire),
{
    String::from_str("Silencing check ").concat(check).concat(" on resource ").concat(
        resource,
    ).concat(" and will ").concat(expire.text().as_str())
}

/// The line before the request that silences every check on one resource.
pub open spec fn silencing_resource_text(resource: Seq<char>, expire: Expire) -> Seq<char> {
    "Silencing all checks on resource "@ + resource + " and will "@ + expire.text_view()
}

pub fn silencing_resource(resource: &str, expire: Expire) -> (s: String)
    ensures
        s@ == silencing_resource_text(resource@, expire),
{
    String::from_str("Silencing all checks on resource ").concat(resource).concat(
        " and will ",
    ).concat(expire.text().as_str())
}

/// The line before the request that silences one check on every resource.
pub open spec fn silencing_check_text(check: Seq<char>, expire: Expire) -> Seq<char> {
    "Silencing checks "@ + check + " on all resources and will "@ + expire.text_view()
}

pub fn silencing_check(check: &str, expire: Expire) -> (s: String)
    ensures
        s@ == silencing_check_text(check@, expire),
{
    String::from_str("Silencing checks ").concat(check).concat(
        " on all resources and will ",
    ).concat(expire.text().as_str())
}

/// The line before the request that clears one check on one resource.
pub open spec fn clearing_pair_text(resource: Seq<char>, check: Seq<char>) -> Seq<char> {
    "Clearing silences on checks "@ + check + " on resources "@ + resource
}

pub fn clearing_pair(resource: &str, check: &str) -> (s: String)
    ensures
        s@ == clearing_pair_text(resource@, check@),
{
    String::from_str("Clearing silences on checks ").concat(check).concat(" on resources ").concat(
        resource,
    )
}

/// The line before the request that clears every check on one resource.
pub open spec fn clearing_resource_text(resource: Seq<char>) -> Seq<char> {
    "Clearing silences on all checks on resources "@ + resource
}

pub fn clearing_resource(resource: &str) -> (s: String)
    ensures
        s@ == clearing_resource_text(resource@),
{
    String::from_str("Clearing silences on all checks on resources ").concat(resource)
}

/// The line before the request that clears one check on every resource.
pub open spec fn clearing_check_text(check: Seq<char>) -> Seq<char> {
    "Clearing silences on checks "@ + check + " on all resources"@
}

pub fn clearing_check(check: &str) -> (s: String)
    ensures
        s@ == clearing_check_text(check@),
{
    String::from_str("Clearing silences on checks ").concat(check).concat(" on all resources")
}

/// The notice that neither a resource nor a check was named.
pub open spec fn no_targets_text() -> Seq<char> {
    "No targets specified - Exiting..."@
}

pub fn no_targets() -> (s: String)
    ensures
        s@ == no_targets_text(),
{
    String::from_str("No targets specified - Exiting...")
}

/// The dump of a response body that is no JSON.
pub open spec fn response_body_text(body: Seq<char>) -> Seq<char> {
    "Response: "@ + body
}

pub fn response_body(body: &str) -> (s: String)
    ensures
        s@ == response_body_text(body@),
{
    String::from_str("Response: ").concat(body)
}

} // verus!
