//! The dispatcher's guarantees, stated and proved once for all requests.
//!
//! Each lemma here speaks over [`dispatch`], the model that [`handle`]'s
//! contract ties every call to, so what is proved of the model holds of
//! every actual response.

use vstd::prelude::*;

use crate::dispatch::{
    deck_action, default_title, dispatch, RequestView, ResponseView, title_key,
};
use crate::effect::EffectView;
use crate::value::{lookup, ValueView};

verus! {

/// A well-formed response: on success the error is absent; on failure no
/// effect is emitted and an error is present.
pub open spec fn response_wf(r: ResponseView) -> bool {
    &&& r.ok ==> r.error is None
    &&& !r.ok ==> r.effects.len() == 0 && r.error is Some
}

/// Every response the dispatcher returns is well formed: the host never sees
/// effects alongside a failure, nor a success alongside an error.
pub proof fn lemma_dispatch_wf(req: RequestView)
    ensures
        response_wf(dispatch(req)),
{
}

/// A deck request whose payload has no `title` field succeeds, and its first
/// effect creates a document carrying the default title.
pub proof fn lemma_default_title(req: RequestView)
    requires
        req.action == deck_action(),
        lookup(req.payload, title_key()) is None,
    ensures
        dispatch(req).ok,
        dispatch(req).effects[0] == (EffectView::CreateDocument {
            title: default_title(),
            doc_type: "document"@,
        }),
{
}

/// A deck request whose payload carries a string `title` keeps it exactly:
/// the first effect creates a document with that very title.
pub proof fn lemma_title_kept(req: RequestView, t: Seq<char>)
    requires
        req.action == deck_action(),
        lookup(req.payload, title_key()) == Some(ValueView::Str(t)),
    ensures
        dispatch(req).ok,
        dispatch(req).effects[0] == (EffectView::CreateDocument {
            title: t,
            doc_type: "document"@,
        }),
{
}

/// Every deck request emits exactly five effects, tagged in this order:
/// create the document, put the `meta` key, put the `marpState` key, show a
/// toast, navigate.
pub proof fn lemma_deck_effect_shape(req: RequestView)
    requires
        req.action == deck_action(),
    ensures
        dispatch(req).effects.len() == 5,
        dispatch(req).effects[0] is CreateDocument,
        dispatch(req).effects[1] is PutKv,
        dispatch(req).effects[1]->PutKv_key == "meta"@,
        dispatch(req).effects[2] is PutKv,
        dispatch(req).effects[2]->PutKv_key == "marpState"@,
        dispatch(req).effects[3] is ShowToast,
        dispatch(req).effects[4] is Navigate,
{
}

/// Every request with an unrecognized action fails: the response is not ok,
/// carries no effect, and its error's `code` field is `UNKNOWN_ACTION`.
pub proof fn lemma_unknown_action(req: RequestView)
    requires
        req.action != deck_action(),
    ensures
        !dispatch(req).ok,
        dispatch(req).effects.len() == 0,
        dispatch(req).error is Some,
        lookup(dispatch(req).error->Some_0, "code"@) == Some(ValueView::Str("UNKNOWN_ACTION"@)),
{
}

/// The dispatcher is a pure function of the request: structurally equal
/// requests yield structurally equal responses, with no hidden counters or
/// minted identifiers.  Together with [`crate::dispatch::handle`]'s
/// contract, two calls on identical input return identical responses.
pub proof fn lemma_deterministic(r1: RequestView, r2: RequestView)
    requires
        r1 == r2,
    ensures
        dispatch(r1) == dispatch(r2),
{
}

} // verus!
