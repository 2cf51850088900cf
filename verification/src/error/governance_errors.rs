//! The errors of governance.

use vstd::prelude::*;

verus! {

/// Why governance failed. `P` is the error of a port, `T` that of telemetry and
/// `S` that of any other stage; each speaks for itself.
#[derive(Debug)]
pub enum GovernanceError<P, T, S> {
    Port(P),
    Telemetry(T),
    Binding { key: String, value: String },
    Stage(S),
}

/// How the label of an error goes on after its slug.
#[derive(Debug)]
pub enum NextLabel<'a, P, T> {
    /// The last part of the label.
    Leaf(String),
    /// The label of the port's error follows.
    Port(&'a P),
    /// The label of the telemetry error follows.
    Telemetry(&'a T),
}

impl<P, T, S> GovernanceError<P, T, S> {
    /// The first part of the label under which errors of this kind are counted.
    pub fn slug(&self) -> (slug: String)
        ensures
            slug@ == "governance"@,
    {
        String::from("governance")
    }

    /// What follows the slug in the label of this error.
    pub fn next(&self) -> (label: NextLabel<'_, P, T>)
        ensures
            match *self {
                GovernanceError::Port(e) => label == NextLabel::<P, T>::Port(&e),
                GovernanceError::Telemetry(e) => label == NextLabel::<P, T>::Telemetry(&e),
                GovernanceError::Binding { key, value } => label matches NextLabel::Leaf(text)
                    && text@ == "binding"@,
                GovernanceError::Stage(e) => label matches NextLabel::Leaf(text) && text@
                    == "stage"@,
            },
    {
        match self {
            GovernanceError::Port(e) => NextLabel::Port(e),
            GovernanceError::Telemetry(e) => NextLabel::Telemetry(e),
            GovernanceError::Binding { .. } => NextLabel::Leaf(String::from("binding")),
            GovernanceError::Stage(_) => NextLabel::Leaf(String::from("stage")),
        }
    }

    /// What is told about a failed binding; any other error is told in the words
    /// of the error that it holds.
    pub fn message(&self) -> (message: Option<String>)
        ensures
            match *self {
                GovernanceError::Binding { key, value } => message matches Some(text) && text@
                    == "failed to handle policy binding: "@ + key@ + " = "@ + value@,
                _ => message is None,
            },
    {
        match self {
            GovernanceError::Binding { key, value } => {
                let mut text = String::from("failed to handle policy binding: ");
                text.append(key.as_str());
                text.append(" = ");
                text.append(value.as_str());
                Some(text)
            },
            _ => None,
        }
    }
}

/// Every error of governance is labelled as such; one of a port or of telemetry
/// goes on with the label of the error that it holds, and the others end in the
/// name of their kind.
pub proof fn law_labels<P, T, S>(
    error: &GovernanceError<P, T, S>,
    slug: String,
    label: NextLabel<'_, P, T>,
)
    requires
        call_ensures(GovernanceError::<P, T, S>::slug, (error,), slug),
        call_ensures(GovernanceError::<P, T, S>::next, (error,), label),
    ensures
        slug@ == "governance"@,
        error is Port ==> label == NextLabel::<P, T>::Port(&error->Port_0),
        error is Telemetry ==> label == NextLabel::<P, T>::Telemetry(&error->Telemetry_0),
        error is Binding ==> label is Leaf && label->Leaf_0@ == "binding"@,
        error is Stage ==> label is Leaf && label->Leaf_0@ == "stage"@,
{
}

/// What is told about a failed binding names its key and its value in full; there
/// is no such text for any other error.
pub proof fn law_message<P, T, S>(error: &GovernanceError<P, T, S>, message: Option<String>)
    requires
        call_ensures(GovernanceError::<P, T, S>::message, (error,), message),
    ensures
        message is Some <==> error is Binding,
        message is Some ==> message->Some_0@ == "failed to handle policy binding: "@ + error->key@
            + " = "@ + error->value@,
{
}

} // verus!
