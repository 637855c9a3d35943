use vstd::prelude::*;

use crate::context::{
    expect_revert, mock_call, mock_effect, revert_effect, skip, skip_effect, ContextModel,
    ExecutionContext, HintMetadata, MetaModel,
};
use crate::error::HintError;
use crate::table::KeyedTable;

verus! {

/// What runs at a hint site. Handlers hold no run state: the builtins keep
/// theirs in the `ExecutionContext`, and a user-defined handler records its
/// code there for the test harness to act on.
#[derive(Clone, Copy, Debug, PartialEq, Eq, Structural)]
pub enum HintHandler {
    Skip,
    MockCall,
    ExpectRevert,
    UserDefined(u64),
}

impl View for HintHandler {
    type V = HintHandler;

    open spec fn view(&self) -> HintHandler {
        *self
    }
}

/// What running handler `h` at a hint site does.
pub open spec fn handler_effect(h: HintHandler, c: ContextModel, m: MetaModel) -> (
    ContextModel,
    Result<(), HintError>,
) {
    match h {
        HintHandler::Skip => skip_effect(c, m),
        HintHandler::MockCall => mock_effect(c, m),
        HintHandler::ExpectRevert => revert_effect(c, m),
        HintHandler::UserDefined(code) => (
            ContextModel { user_log: c.user_log.push(code), ..c },
            Ok(()),
        ),
    }
}

/// Runs one handler on the context.
pub fn run_handler(h: HintHandler, ctx: &mut ExecutionContext, meta: &HintMetadata) -> (r: Result<
    (),
    HintError,
>)
    requires
        old(ctx).wf(),
    ensures
        final(ctx).wf(),
        (final(ctx)@, r) == handler_effect(h, old(ctx)@, meta@),
{
    match h {
        HintHandler::Skip => skip(ctx, meta),
        HintHandler::MockCall => mock_call(ctx, meta),
        HintHandler::ExpectRevert => expect_revert(ctx, meta),
        HintHandler::UserDefined(code) => {
            ctx.user_log.push(code);
            Ok(())
        },
    }
}

/// What dispatching `id` does: an unknown identifier fails and changes
/// nothing; a known one runs its handler.
pub open spec fn dispatch_effect(
    registry: Map<Seq<char>, HintHandler>,
    id: Seq<char>,
    c: ContextModel,
    m: MetaModel,
) -> (ContextModel, Result<(), HintError>) {
    if registry.contains_key(id) {
        handler_effect(registry[id], c, m)
    } else {
        (c, Err(HintError::UnknownHint))
    }
}

/// The registry of hint handlers, keyed by identifier, and the dispatcher
/// that the VM calls at each hint site. It is assembled before a run and
/// only read during it.
pub struct HintProcessor {
    handlers: KeyedTable<HintHandler>,
}

impl View for HintProcessor {
    type V = Map<Seq<char>, HintHandler>;

    closed spec fn view(&self) -> Map<Seq<char>, HintHandler> {
        self.handlers@
    }
}

impl HintProcessor {
    pub closed spec fn wf(&self) -> bool {
        self.handlers.wf()
    }

    /// Identifiers in the order they were first registered.
    pub closed spec fn identifiers(&self) -> Seq<Seq<char>> {
        self.handlers.key_order()
    }

    /// An empty registry.
    pub fn new_registry() -> (p: HintProcessor)
        ensures
            p.wf(),
            p@ == Map::<Seq<char>, HintHandler>::empty(),
            p.identifiers().len() == 0,
    {
        HintProcessor { handlers: KeyedTable::new() }
    }

    /// Registers `handler` under `id`. An identifier that is already
    /// registered is silently overridden.
    pub fn register(&mut self, id: String, handler: HintHandler)
        requires
            old(self).wf(),
        ensures
            final(self).wf(),
            final(self)@ == old(self)@.insert(id@, handler),
            old(self)@.contains_key(id@) ==> final(self).identifiers() == old(self).identifiers(),
            !old(self)@.contains_key(id@) ==> final(self).identifiers() == old(self).identifiers().push(id@),
    {
        self.handlers.insert(id, handler);
    }

    /// Registers `handler` under `id`, refusing an identifier that is already
    /// registered.
    pub fn register_unique(&mut self, id: String, handler: HintHandler) -> (r: Result<
        (),
        HintError,
    >)
        requires
            old(self).wf(),
        ensures
            final(self).wf(),
            r is Err <==> old(self)@.contains_key(id@),
            r is Err ==> r == Err::<(), HintError>(HintError::DuplicateHint) && final(self)@ == old(self)@ && final(self).identifiers() == old(self).identifiers(),
            r is Ok ==> final(self)@ == old(self)@.insert(id@, handler) && final(self).identifiers()
                == old(self).identifiers().push(id@),
    {
        if self.handlers.contains(id.as_str()) {
            return Err(HintError::DuplicateHint);
        }
        self.handlers.insert(id, handler);
        Ok(())
    }

    /// Whether `id` has a handler.
    pub fn is_registered(&self, id: &str) -> (r: bool)
        requires
            self.wf(),
        ensures
            r == self@.contains_key(id@),
    {
        self.handlers.contains(id)
    }

    /// The handler registered under `id`.
    pub fn lookup(&self, id: &str) -> (r: Option<HintHandler>)
        requires
            self.wf(),
        ensures
            r == (if self@.contains_key(id@) {
                Some(self@[id@])
            } else {
                None
            }),
    {
        match self.handlers.get(id) {
            Some(h) => Some(*h),
            None => None,
        }
    }

    /// Number of registered identifiers.
    pub fn len(&self) -> (n: usize)
        requires
            self.wf(),
        ensures
            n == self.identifiers().len(),
    {
        self.handlers.len()
    }

    /// Called by the VM at each hint site: resolves `id` and runs its
    /// handler, passing its result on unchanged. An unknown identifier fails
    /// with `UnknownHint` and leaves the context as it was.
    pub fn dispatch(&self, id: &str, ctx: &mut ExecutionContext, meta: &HintMetadata) -> (r: Result<
        (),
        HintError,
    >)
        requires
            self.wf(),
            old(ctx).wf(),
        ensures
            final(ctx).wf(),
            (final(ctx)@, r) == dispatch_effect(self@, id@, old(ctx)@, meta@),
            !self@.contains_key(id@) ==> r == Err::<(), HintError>(HintError::UnknownHint) && *final(ctx) == *old(ctx),
    {
        match self.handlers.get(id) {
            Some(h) => run_handler(*h, ctx, meta),
            None => Err(HintError::UnknownHint),
        }
    }
}

/// The registry of the three builtin hints, under the identifiers `"skip"`,
/// `"expect_revert"` and `"mock_call"`, registered in that order.
pub fn setup_hint_processor() -> (p: HintProcessor)
    ensures
        p.wf(),
        p@ == map![
            "skip"@ => HintHandler::Skip,
            "expect_revert"@ => HintHandler::ExpectRevert,
            "mock_call"@ => HintHandler::MockCall,
        ],
        p.identifiers() == seq!["skip"@, "expect_revert"@, "mock_call"@],
{
    let mut p = HintProcessor::new_registry();
    proof {
        reveal_strlit("skip");
        reveal_strlit("expect_revert");
        reveal_strlit("mock_call");
        assert("skip"@.len() == 4 && "expect_revert"@.len() == 13 && "mock_call"@.len() == 9);
        assert("skip"@ != "expect_revert"@ && "skip"@ != "mock_call"@);
        assert("expect_revert"@ != "mock_call"@);
    }
    p.register(String::from_str("skip"), HintHandler::Skip);
    assert(!p@.contains_key("expect_revert"@));
    p.register(String::from_str("expect_revert"), HintHandler::ExpectRevert);
    assert(!p@.contains_key("mock_call"@));
    p.register(String::from_str("mock_call"), HintHandler::MockCall);
    assert(p@ =~= map![
        "skip"@ => HintHandler::Skip,
        "expect_revert"@ => HintHandler::ExpectRevert,
        "mock_call"@ => HintHandler::MockCall,
    ]);
    assert(p.identifiers() =~= seq!["skip"@, "expect_revert"@, "mock_call"@]);
    p
}

} // verus!
