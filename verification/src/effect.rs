//! Effects: declarative instructions for the host to perform, in emission
//! order.
//!
//! The dispatcher never performs a side effect itself; it only describes
//! them.  The host applies effects strictly in emission order, so a later
//! effect may refer to the identity produced by an earlier one (the
//! navigation target may embed a placeholder for a document identifier that
//! the host resolves once the earlier creation effect has run).

use vstd::prelude::*;

use crate::value::{Object, ObjectView};

verus! {

/// Severity of a toast notification shown by the host.
#[derive(Clone, Copy, Debug, PartialEq, Eq, Structural)]
pub enum ToastLevel {
    Info,
    Success,
    Warning,
    Error,
}

/// One host-side side effect, as a tagged value.
#[derive(Clone, Debug, PartialEq, Eq)]
pub enum Effect {
    /// Create a document with the given title and document type.
    CreateDocument { title: String, doc_type: String },
    /// Write a structured value under a key in a named host storage scope.
    PutKv { scope: String, key: String, value: Object },
    /// Show a notification to the user.
    ShowToast { level: ToastLevel, message: String },
    /// Navigate to a path; it may embed placeholder tokens the host resolves
    /// after earlier effects have run.
    Navigate { to: String },
}

/// The mathematical model of an [`Effect`].
#[verifier::ext_equal]
pub enum EffectView {
    CreateDocument { title: Seq<char>, doc_type: Seq<char> },
    PutKv { scope: Seq<char>, key: Seq<char>, value: ObjectView },
    ShowToast { level: ToastLevel, message: Seq<char> },
    Navigate { to: Seq<char> },
}

impl View for Effect {
    type V = EffectView;

    open spec fn view(&self) -> EffectView {
        match self {
            Effect::CreateDocument { title, doc_type } => EffectView::CreateDocument {
                title: title@,
                doc_type: doc_type@,
            },
            Effect::PutKv { scope, key, value } => EffectView::PutKv {
                scope: scope@,
                key: key@,
                value: value@,
            },
            Effect::ShowToast { level, message } => EffectView::ShowToast {
                level: *level,
                message: message@,
            },
            Effect::Navigate { to } => EffectView::Navigate { to: to@ },
        }
    }
}

} // verus!
