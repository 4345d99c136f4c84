//! Types of other crates that the device carries along without looking inside.
use vstd::prelude::*;

verus! {

/// `vhost::Error`: why a request to the daemon failed. Carried into the device's own errors.
#[verifier::external_type_specification]
#[verifier::external_body]
pub struct ExVhostError(vhost::Error);

/// `vhost::vhost_user::Error`: why the server for the daemon's requests could not be created.
#[verifier::external_type_specification]
#[verifier::external_body]
pub struct ExVhostUserError(vhost::vhost_user::Error);

/// `seccompiler::SeccompAction`: what the filter of the device's thread does to a system call
/// that is not allowed.
#[verifier::external_type_specification]
#[verifier::external_body]
pub struct ExSeccompAction(seccompiler::SeccompAction);

/// `vmm_sys_util::eventfd::EventFd`: the event by which the device's thread asks the VMM to exit.
#[verifier::external_type_specification]
#[verifier::external_body]
pub struct ExEventFd(vmm_sys_util::eventfd::EventFd);

} // verus!
