//! The action dispatcher: the single entry point of the library.
//!
//! [`handle`] receives a request (action name, payload, context), resolves
//! behaviour by action name, and builds a response: a success flag, optional
//! data, an ordered sequence of effects for the host to apply, and an
//! optional error.  It performs no side effect itself and never fails out of
//! band: every outcome is a well-formed [`Response`].

use vstd::prelude::*;

use crate::effect::{Effect, EffectView, ToastLevel};
use crate::value::{lookup, Object, ObjectView, Value, ValueView};

verus! {

/// A request from the host: which action to run, with what payload, in what
/// context.
#[derive(Clone, Debug, PartialEq, Eq)]
pub struct Request {
    /// The name of the requested action.
    pub action: String,
    /// Action-specific input; fields the action does not recognize are
    /// ignored, and malformed optional fields fall back to defaults.
    pub payload: Object,
    /// Host-supplied ambient information, opaque to the dispatcher.
    pub ctx: Object,
}

/// The mathematical model of a [`Request`].
#[verifier::ext_equal]
pub struct RequestView {
    pub action: Seq<char>,
    pub payload: ObjectView,
    pub ctx: ObjectView,
}

impl View for Request {
    type V = RequestView;

    open spec fn view(&self) -> RequestView {
        RequestView { action: self.action@, payload: self.payload@, ctx: self.ctx@ }
    }
}

/// The dispatcher's answer to one request.
#[derive(Clone, Debug, PartialEq, Eq)]
pub struct Response {
    /// Whether the action was recognized and its effects were emitted.
    pub ok: bool,
    /// Optional result data; reserved, no current action fills it.
    pub data: Option<Object>,
    /// The effects for the host to apply, strictly in this order.
    pub effects: Vec<Effect>,
    /// On failure, a structured error with at least a `code` field.
    pub error: Option<Object>,
}

/// The mathematical model of a [`Response`].
#[verifier::ext_equal]
pub struct ResponseView {
    pub ok: bool,
    pub data: Option<ObjectView>,
    pub effects: Seq<EffectView>,
    pub error: Option<ObjectView>,
}

impl View for Response {
    type V = ResponseView;

    open spec fn view(&self) -> ResponseView {
        ResponseView {
            ok: self.ok,
            data: match self.data {
                Option::Some(o) => Option::Some(o@),
                Option::None => Option::None,
            },
            effects: self.effects@.map_values(|e: Effect| e@),
            error: match self.error {
                Option::Some(o) => Option::Some(o@),
                Option::None => Option::None,
            },
        }
    }
}

/// The one recognized action name: create a fresh slide deck.
pub open spec fn deck_action() -> Seq<char> {
    "create-deck"@
}

/// The payload field that may carry the deck title.
pub open spec fn title_key() -> Seq<char> {
    "title"@
}

/// The title used when the payload carries no usable `title` field.
pub open spec fn default_title() -> Seq<char> {
    "Marp Slides"@
}

/// The initial body of a fresh deck: front matter, a heading, and a line of
/// instructions.
pub open spec fn default_template() -> Seq<char> {
    "---\nmarp: true\ntheme: default\npaginate: true\nclass: lead\n---\n\n# Welcome to Marp\n\nUse the left pane to edit Markdown.\n"@
}

/// The error object for an unrecognized action.
pub open spec fn unknown_action_error() -> ObjectView {
    seq![("code"@, ValueView::Str("UNKNOWN_ACTION"@))]
}

/// The title the deck action resolves from a payload: the payload's `title`
/// field if it is a string, the default title otherwise (absent, null or
/// mistyped fields never fail; they fall back).
pub open spec fn resolved_title(payload: ObjectView) -> Seq<char> {
    match lookup(payload, title_key()) {
        Option::Some(ValueView::Str(s)) => s,
        _ => default_title(),
    }
}

/// The effects of the deck action, in the order the host must apply them:
/// create the document, mark it as a deck, seed its state with the default
/// template, confirm with a toast, then navigate to the new document (whose
/// identifier the host substitutes for the placeholder).
pub open spec fn deck_effects(title: Seq<char>) -> Seq<EffectView> {
    seq![
        EffectView::CreateDocument { title: title, doc_type: "document"@ },
        EffectView::PutKv {
            scope: "doc"@,
            key: "meta"@,
            value: seq![("isMarp"@, ValueView::Bool(true))],
        },
        EffectView::PutKv {
            scope: "doc"@,
            key: "marpState"@,
            value: seq![("markdown"@, ValueView::Str(default_template()))],
        },
        EffectView::ShowToast { level: ToastLevel::Success, message: "Marp slide deck created"@ },
        EffectView::Navigate { to: "/marp/:createdDocId"@ },
    ]
}

/// What the dispatcher returns for each request: the deck action succeeds
/// with its five effects; any other action fails with `UNKNOWN_ACTION` and
/// no effects.
pub open spec fn dispatch(req: RequestView) -> ResponseView {
    if req.action == deck_action() {
        ResponseView {
            ok: true,
            data: Option::None,
            effects: deck_effects(resolved_title(req.payload)),
            error: Option::None,
        }
    } else {
        ResponseView {
            ok: false,
            data: Option::None,
            effects: Seq::empty(),
            error: Option::Some(unknown_action_error()),
        }
    }
}

/// The resolved deck title as an owned string.
pub fn resolve_title(payload: &Object) -> (title: String)
    ensures
        title@ == resolved_title(payload@),
{
    let key = "title".to_owned();
    match payload.get(&key) {
        Option::Some(Value::Str(s)) => s.clone(),
        _ => "Marp Slides".to_owned(),
    }
}

/// Handle one request: the whole observable behaviour of the dispatcher is
/// [`dispatch`] of the request's model.
pub fn handle(req: &Request) -> (res: Response)
    ensures
        res@ == dispatch(req@),
{
    if req.action == "create-deck".to_owned() {
        let title = resolve_title(&req.payload);
        let mut effects: Vec<Effect> = Vec::new();
        effects.push(Effect::CreateDocument { title, doc_type: "document".to_owned() });

        let mut meta: Vec<(String, Value)> = Vec::new();
        meta.push(("isMarp".to_owned(), Value::Bool(true)));
        effects.push(Effect::PutKv {
            scope: "doc".to_owned(),
            key: "meta".to_owned(),
            value: Object { entries: meta },
        });

        let mut state: Vec<(String, Value)> = Vec::new();
        state.push(("markdown".to_owned(), Value::Str(default_template_text())));
        effects.push(Effect::PutKv {
            scope: "doc".to_owned(),
            key: "marpState".to_owned(),
            value: Object { entries: state },
        });

        effects.push(Effect::ShowToast {
            level: ToastLevel::Success,
            message: "Marp slide deck created".to_owned(),
        });
        effects.push(Effect::Navigate { to: "/marp/:createdDocId".to_owned() });

        let res = Response { ok: true, data: Option::None, effects, error: Option::None };
        proof {
            assert(res@ =~~= dispatch(req@));
        }
        res
    } else {
        let mut err: Vec<(String, Value)> = Vec::new();
        err.push(("code".to_owned(), Value::Str("UNKNOWN_ACTION".to_owned())));
        let res = Response {
            ok: false,
            data: Option::None,
            effects: Vec::new(),
            error: Option::Some(Object { entries: err }),
        };
        proof {
            assert(res@ =~~= dispatch(req@));
        }
        res
    }
}

/// The default template as an owned string.
pub fn default_template_text() -> (s: String)
    ensures
        s@ == default_template(),
{
    "---\nmarp: true\ntheme: default\npaginate: true\nclass: lead\n---\n\n# Welcome to Marp\n\nUse the left pane to edit Markdown.\n".to_owned()
}

} // verus!
