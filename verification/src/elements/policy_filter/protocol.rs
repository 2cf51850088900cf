//! The commands to a policy filter, what it tells about itself, and the sources
//! of its policies.

use std::path::PathBuf;
use tokio::sync::{mpsc, oneshot};
use vstd::prelude::*;

use crate::Ack;

verus! {

/// The handle by which commands reach a policy filter.
pub type PolicyFilterApi<E> = mpsc::UnboundedSender<PolicyFilterCmd<E>>;

/// A command to a policy filter, with the channel for its answer.
#[derive(Debug)]
#[verifier::reject_recursive_types(E)]
pub enum PolicyFilterCmd<E> {
    ReplacePolicy { new_policy: PolicySource, tx: oneshot::Sender<Ack> },
    AppendPolicy { policy: PolicySource, tx: oneshot::Sender<Ack> },
    ResetPolicy(oneshot::Sender<Ack>),
    Inspect(oneshot::Sender<PolicyFilterDetail<E>>),
}

impl<E> PolicyFilterCmd<E> {
    /// The command that puts `new_policy` in the place of what is loaded, and
    /// the channel on which it is confirmed.
    pub fn replace_policy(new_policy: PolicySource) -> (r: (
        PolicyFilterCmd<E>,
        oneshot::Receiver<Ack>,
    ))
        ensures
            r.0 matches PolicyFilterCmd::ReplacePolicy { new_policy: p, tx } && {
                &&& p == new_policy
                &&& crate::channel::one_answer_channel(tx, r.1)
            },
    {
        let (tx, rx) = oneshot::channel();
        (PolicyFilterCmd::ReplacePolicy { new_policy, tx }, rx)
    }

    /// The command that adds `policy` to what is loaded, and the channel on
    /// which it is confirmed.
    pub fn append_policy(policy: PolicySource) -> (r: (PolicyFilterCmd<E>, oneshot::Receiver<Ack>))
        ensures
            r.0 matches PolicyFilterCmd::AppendPolicy { policy: p, tx } && {
                &&& p == policy
                &&& crate::channel::one_answer_channel(tx, r.1)
            },
    {
        let (tx, rx) = oneshot::channel();
        (PolicyFilterCmd::AppendPolicy { policy, tx }, rx)
    }

    /// The command that goes back to the initial policy, and the channel on
    /// which it is confirmed.
    pub fn reset_policy() -> (r: (PolicyFilterCmd<E>, oneshot::Receiver<Ack>))
        ensures
            r.0 matches PolicyFilterCmd::ResetPolicy(tx) && crate::channel::one_answer_channel(
                tx,
                r.1,
            ),
    {
        let (tx, rx) = oneshot::channel();
        (PolicyFilterCmd::ResetPolicy(tx), rx)
    }

    /// The request for the detail of the filter, and the channel on which it is
    /// answered.
    pub fn inspect() -> (r: (PolicyFilterCmd<E>, oneshot::Receiver<PolicyFilterDetail<E>>))
        ensures
            r.0 matches PolicyFilterCmd::Inspect(tx) && crate::channel::one_answer_channel(tx, r.1),
    {
        let (tx, rx) = oneshot::channel();
        (PolicyFilterCmd::Inspect(tx), rx)
    }
}

/// What a policy filter tells about itself.
#[derive(Debug)]
pub struct PolicyFilterDetail<E> {
    pub name: String,
    pub environment: Option<E>,
}

/// What happens in a policy filter.
#[derive(Debug, Clone)]
pub enum PolicyFilterEvent<T, E> {
    EnvironmentChanged(Option<E>),
    ItemBlocked(T),
}

/// `std::path::PathBuf`, a path of the file system.
#[verifier::external_type_specification]
#[verifier::external_body]
pub struct ExPathBuf(PathBuf);

/// `oso::OsoError`, why the policy engine refused something.
#[verifier::external_type_specification]
#[verifier::external_body]
pub struct ExOsoError(oso::OsoError);

/// Where a policy is found.
#[derive(Debug)]
pub enum PolicySource {
    /// The policy itself.
    String(String),
    /// The file that holds it.
    File(PathBuf),
}

/// What the policy engine is to be given for a policy to be loaded.
#[derive(Debug)]
pub enum PolicyLoad<'a> {
    /// This text, which is the policy.
    Text(&'a String),
    /// This file, which holds the policy.
    InFile(&'a PathBuf),
}

/// Why a policy could not be loaded.
#[derive(Debug)]
pub enum PolicyError {
    /// The engine refused it.
    Refused(oso::OsoError),
}

impl PolicySource {
    /// The policy that is written in `policy`.
    pub fn from_string<S: Into<String>>(policy: S) -> (source: PolicySource)
        ensures
            source matches PolicySource::String(text) && crate::text::is_text_of(policy, text),
    {
        PolicySource::String(policy.into())
    }

    /// The policy in the file `policy_path`.
    pub fn from_path(policy_path: PathBuf) -> (source: PolicySource)
        ensures
            source == PolicySource::File(policy_path),
    {
        PolicySource::File(policy_path)
    }

    /// What the policy engine is to be given for this policy to be loaded. The
    /// engine runs queries of the policy as it loads it, with whatever code is
    /// registered for them, so the load itself is left to the caller.
    pub fn load_into(&self) -> (load: PolicyLoad<'_>)
        ensures
            load == match *self {
                PolicySource::String(text) => PolicyLoad::Text(&text),
                PolicySource::File(path) => PolicyLoad::InFile(&path),
            },
    {
        match self {
            PolicySource::String(text) => PolicyLoad::Text(text),
            PolicySource::File(path) => PolicyLoad::InFile(path),
        }
    }
}

/// What the engine's answer means for the load: a policy that it refuses is not
/// loaded, for the reason that it gives.
pub fn load_outcome(loaded: Result<(), oso::OsoError>) -> (outcome: Result<(), PolicyError>)
    ensures
        outcome == match loaded {
            Ok(()) => Ok(()),
            Err(why) => Err(PolicyError::Refused(why)),
        },
{
    match loaded {
        Ok(()) => Ok(()),
        Err(why) => Err(PolicyError::Refused(why)),
    }
}

/// Each command to a policy filter holds what it was made with, and one half of a
/// channel of which the caller has the other.
pub proof fn law_commands<E>(
    policy: PolicySource,
    replace: (PolicyFilterCmd<E>, oneshot::Receiver<Ack>),
    append: (PolicyFilterCmd<E>, oneshot::Receiver<Ack>),
    reset: (PolicyFilterCmd<E>, oneshot::Receiver<Ack>),
    inspect: (PolicyFilterCmd<E>, oneshot::Receiver<PolicyFilterDetail<E>>),
)
    requires
        call_ensures(PolicyFilterCmd::<E>::replace_policy, (policy,), replace),
        call_ensures(PolicyFilterCmd::<E>::append_policy, (policy,), append),
        call_ensures(PolicyFilterCmd::<E>::reset_policy, (), reset),
        call_ensures(PolicyFilterCmd::<E>::inspect, (), inspect),
    ensures
        replace.0 matches PolicyFilterCmd::ReplacePolicy { new_policy, tx } && new_policy == policy
            && call_ensures(oneshot::channel::<Ack>, (), (tx, replace.1)),
        append.0 matches PolicyFilterCmd::AppendPolicy { policy: p, tx } && p == policy
            && call_ensures(oneshot::channel::<Ack>, (), (tx, append.1)),
        reset.0 matches PolicyFilterCmd::ResetPolicy(tx) && call_ensures(
            oneshot::channel::<Ack>,
            (),
            (tx, reset.1),
        ),
        inspect.0 matches PolicyFilterCmd::Inspect(tx) && call_ensures(
            oneshot::channel::<PolicyFilterDetail<E>>,
            (),
            (tx, inspect.1),
        ),
{
}

/// A policy that is given as a text is loaded as that very text.
pub proof fn law_text_is_loaded_as_given(policy: &str, source: PolicySource, load: PolicyLoad<'_>)
    requires
        call_ensures(PolicySource::from_string::<&str>, (policy,), source),
        call_ensures(PolicySource::load_into, (&source,), load),
    ensures
        load matches PolicyLoad::Text(text) && text@ == policy@,
{
}

/// A policy that is given as an owned text is loaded as that very text.
pub proof fn law_owned_text_is_loaded_as_given(
    policy: String,
    source: PolicySource,
    load: PolicyLoad<'_>,
)
    requires
        call_ensures(PolicySource::from_string::<String>, (policy,), source),
        call_ensures(PolicySource::load_into, (&source,), load),
    ensures
        load matches PolicyLoad::Text(text) && text@ == policy@,
{
}

/// A policy that is given as a file is loaded from that very file.
pub proof fn law_file_is_loaded_as_given(path: PathBuf, source: PolicySource, load: PolicyLoad<'_>)
    requires
        call_ensures(PolicySource::from_path, (path,), source),
        call_ensures(PolicySource::load_into, (&source,), load),
    ensures
        load matches PolicyLoad::InFile(file) && *file == path,
{
}

/// A load succeeds if and only if the engine took the policy, and otherwise fails
/// for the reason that the engine gives.
pub proof fn law_load_outcome(loaded: Result<(), oso::OsoError>, outcome: Result<(), PolicyError>)
    requires
        call_ensures(load_outcome, (loaded,), outcome),
    ensures
        outcome is Ok <==> loaded is Ok,
        outcome matches Err(PolicyError::Refused(why)) ==> loaded == Err::<(), oso::OsoError>(why),
{
}

} // verus!
