//! The pipeline around one invocation: the client value holding the
//! caller's arguments, the verified computation from a response body to a
//! rendered entity, and the stage policy — which stage runs next, and that
//! any failure is terminal and fail-fast.

use vstd::prelude::*;
use crate::decode::{body_wellformed, spec_decoded};
use crate::error::PipelineError;
use crate::model::{spec_map, Args, Comic, ComicResponse};
use crate::render::spec_render;
use crate::resolve::{spec_url, resolve_url, RequestTarget};

verus! {

/// One invocation of the client, holding the caller's arguments.
pub struct XkcdCli {
    pub args: Args,
}

impl XkcdCli {
    /// Creates a client for the given arguments.
    pub fn new(args: Args) -> (c: XkcdCli)
        ensures
            c.args == args,
    {
        XkcdCli { args }
    }

    /// The request target of this invocation: the latest entry when the
    /// caller supplied no identifier (conventionally zero), the specific
    /// entry otherwise.
    pub fn target(&self) -> (t: RequestTarget)
        ensures
            t.wf(),
            self.args.num == 0 <==> t is Latest,
            self.args.num > 0 ==> t == RequestTarget::Specific(self.args.num),
    {
        RequestTarget::from_num(self.args.num)
    }

    /// The resource URL this invocation requests.
    pub fn url(&self) -> (u: String)
        ensures
            u@ == spec_url(
                if self.args.num == 0 {
                    RequestTarget::Latest
                } else {
                    RequestTarget::Specific(self.args.num)
                },
            ),
    {
        let t = self.target();
        resolve_url(&t)
    }

    /// The verified tail of the pipeline, for any response body the
    /// transport handed back: decodes the body, maps the record to the
    /// display entity, and renders it in this invocation's output format.
    /// Succeeds exactly on well-formed bodies; on every other body it fails
    /// with the decode error and produces no partial output.
    pub fn process_body(&self, body: &str) -> (r: Result<(Comic, String), PipelineError>)
        ensures
            r is Ok <==> body_wellformed(body@),
            r matches Ok((c, out)) ==> c@ == spec_map(spec_decoded(body@)) && out@ == spec_render(
                c@,
                self.args.output,
            ),
            r matches Err(e) ==> e == PipelineError::Decode,
    {
        let record = match ComicResponse::decode(body) {
            Ok(record) => record,
            Err(e) => { return Err(e) },
        };
        let comic = Comic::from_response(record);
        let out = comic.render(self.args.output);
        Ok((comic, out))
    }
}

/// The stages of one invocation. `Done` and `Failed` are terminal.
#[derive(Clone, Copy, Debug, PartialEq, Eq, Structural)]
pub enum Stage {
    Start,
    Resolving,
    Requesting,
    Decoding,
    Mapping,
    Persisting,
    Rendering,
    Done,
    Failed,
}

/// The stage that follows `s` when `s` completed successfully: the linear
/// order of the pipeline, with the persisting stage taken exactly when the
/// caller requested persistence.
pub open spec fn spec_success_step(s: Stage, save: bool) -> Stage {
    match s {
        Stage::Start => Stage::Resolving,
        Stage::Resolving => Stage::Requesting,
        Stage::Requesting => Stage::Decoding,
        Stage::Decoding => Stage::Mapping,
        Stage::Mapping => if save {
            Stage::Persisting
        } else {
            Stage::Rendering
        },
        Stage::Persisting => Stage::Rendering,
        Stage::Rendering => Stage::Done,
        Stage::Done => Stage::Done,
        Stage::Failed => Stage::Failed,
    }
}

/// The stage that follows `s` when the work of `s` reported `ok`: a failure
/// of any stage moves to the terminal failed stage, with no further stage
/// executed.
pub open spec fn spec_advance(s: Stage, save: bool, ok: bool) -> Stage {
    if ok {
        spec_success_step(s, save)
    } else {
        Stage::Failed
    }
}

/// Advances the pipeline by one stage. `save` is the caller's persistence
/// flag; `ok` says whether the work of the current stage succeeded.
pub fn advance(s: Stage, save: bool, ok: bool) -> (t: Stage)
    ensures
        t == spec_advance(s, save, ok),
{
    if !ok {
        return Stage::Failed;
    }
    match s {
        Stage::Start => Stage::Resolving,
        Stage::Resolving => Stage::Requesting,
        Stage::Requesting => Stage::Decoding,
        Stage::Decoding => Stage::Mapping,
        Stage::Mapping => if save {
            Stage::Persisting
        } else {
            Stage::Rendering
        },
        Stage::Persisting => Stage::Rendering,
        Stage::Rendering => Stage::Done,
        Stage::Done => Stage::Done,
        Stage::Failed => Stage::Failed,
    }
}

/// Law: a persistence failure aborts the pipeline before any rendering. A
/// failed persisting stage moves to the terminal failed stage, the failed
/// stage never leaves itself, and the rendering stage is reachable only by
/// the success of the persisting stage or — when no persistence was
/// requested — of the mapping stage.
pub proof fn lemma_persist_failure_blocks_render()
    ensures
        forall|save: bool| spec_advance(Stage::Persisting, save, false) is Failed,
        forall|save: bool, ok: bool| spec_advance(Stage::Failed, save, ok) !is Rendering,
        forall|save: bool, ok: bool|
            #[trigger] spec_advance(Stage::Failed, save, ok) is Failed,
        forall|s: Stage, save: bool, ok: bool|
            #[trigger] spec_advance(s, save, ok) is Rendering ==> ok && (s is Persisting || (
            s is Mapping && !save)),
{
}

} // verus!
