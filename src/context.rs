use vstd::prelude::*;

use crate::error::HintError;
use crate::table::KeyedTable;
use crate::text::{contains_seq, contains_text};

verus! {

/// The state of an `expect_revert` region, as the handlers see it.
pub enum RevertState {
    Unarmed,
    /// A region is open; a failure inside it must match the pattern, if any.
    Armed(Option<Seq<char>>),
}

/// Whether a revert is currently expected, and with which pattern.
///
/// Regions do not nest: arming while armed replaces the pattern.
#[derive(Debug)]
pub enum RevertExpectation {
    Unarmed,
    Armed(Option<String>),
}

pub open spec fn pattern_view(p: Option<String>) -> Option<Seq<char>> {
    match p {
        Some(s) => Some(s@),
        None => None,
    }
}

impl View for RevertExpectation {
    type V = RevertState;

    open spec fn view(&self) -> RevertState {
        match self {
            RevertExpectation::Unarmed => RevertState::Unarmed,
            RevertExpectation::Armed(p) => RevertState::Armed(pattern_view(*p)),
        }
    }
}

/// What the failure path of the VM does with a failure.
#[derive(Clone, Copy, Debug, PartialEq, Eq, Structural)]
pub enum FailureOutcome {
    /// The failure was expected: the run continues after the region.
    Caught,
    /// No revert was expected: the failure propagates as usual.
    Propagate,
}

/// What a hint site hands to its handler.
pub struct MetaModel {
    pub skip_to: int,
    pub target: Seq<char>,
    pub payload: Seq<u64>,
    pub return_len: int,
    pub pattern: Option<Seq<char>>,
    pub region_end: bool,
}

/// The arguments resolved at a hint site. Each handler reads only its own
/// fields: `skip` the boundary, `mock_call` the target, payload and the
/// callee's return length, `expect_revert` the pattern and whether the site
/// opens or closes the region.
#[derive(Debug)]
pub struct HintMetadata {
    pub skip_to: usize,
    pub target: String,
    pub payload: Vec<u64>,
    pub return_len: usize,
    pub pattern: Option<String>,
    pub region_end: bool,
}

impl View for HintMetadata {
    type V = MetaModel;

    open spec fn view(&self) -> MetaModel {
        MetaModel {
            skip_to: self.skip_to as int,
            target: self.target@,
            payload: self.payload@,
            return_len: self.return_len as int,
            pattern: pattern_view(self.pattern),
            region_end: self.region_end,
        }
    }
}

impl HintMetadata {
    /// Metadata for a `skip` site whose range ends at `to`.
    pub fn skip_to(to: usize) -> (m: HintMetadata)
        ensures
            m@.skip_to == to,
            m@.target.len() == 0,
            m@.payload.len() == 0,
            m@.return_len == 0,
            m@.pattern is None,
            !m@.region_end,
    {
        HintMetadata {
            skip_to: to,
            target: String::new(),
            payload: Vec::new(),
            return_len: 0,
            pattern: None,
            region_end: false,
        }
    }

    /// Metadata for a `mock_call` site: calls to `target`, whose callee
    /// returns `return_len` values, are to return `payload`.
    pub fn mock(target: String, payload: Vec<u64>, return_len: usize) -> (m: HintMetadata)
        ensures
            m@.skip_to == 0,
            m@.target == target@,
            m@.payload == payload@,
            m@.return_len == return_len,
            m@.pattern is None,
            !m@.region_end,
    {
        HintMetadata { skip_to: 0, target, payload, return_len, pattern: None, region_end: false }
    }

    /// Metadata for the entry of an `expect_revert` region.
    pub fn revert_entry(pattern: Option<String>) -> (m: HintMetadata)
        ensures
            m@.skip_to == 0,
            m@.target.len() == 0,
            m@.payload.len() == 0,
            m@.return_len == 0,
            m@.pattern == pattern_view(pattern),
            !m@.region_end,
    {
        HintMetadata {
            skip_to: 0,
            target: String::new(),
            payload: Vec::new(),
            return_len: 0,
            pattern,
            region_end: false,
        }
    }

    /// Metadata for the exit of an `expect_revert` region.
    pub fn revert_exit() -> (m: HintMetadata)
        ensures
            m@.skip_to == 0,
            m@.target.len() == 0,
            m@.payload.len() == 0,
            m@.return_len == 0,
            m@.pattern is None,
            m@.region_end,
    {
        HintMetadata {
            skip_to: 0,
            target: String::new(),
            payload: Vec::new(),
            return_len: 0,
            pattern: None,
            region_end: true,
        }
    }
}

/// The execution state that hints read and change.
pub struct ContextModel {
    pub pc: int,
    pub frame_start: int,
    pub frame_end: int,
    pub registers: Seq<u64>,
    pub memory: Seq<u64>,
    pub stack_depth: int,
    pub mocks: Map<Seq<char>, Seq<u64>>,
    pub revert: RevertState,
    pub call_result: Seq<u64>,
    pub user_log: Seq<u64>,
}

/// The state of one run: instruction pointer, the bounds of the current
/// function frame (`frame_start <= a < frame_end`), registers, memory, call
/// stack depth, the calls mocked so far, the revert expectation, the result
/// of the last intercepted call, and the codes of user-defined hints hit.
pub struct ExecutionContext {
    pub pc: usize,
    pub frame_start: usize,
    pub frame_end: usize,
    pub registers: Vec<u64>,
    pub memory: Vec<u64>,
    pub stack_depth: usize,
    pub mocks: KeyedTable<Vec<u64>>,
    pub revert: RevertExpectation,
    pub call_result: Vec<u64>,
    pub user_log: Vec<u64>,
}

impl View for ExecutionContext {
    type V = ContextModel;

    open spec fn view(&self) -> ContextModel {
        ContextModel {
            pc: self.pc as int,
            frame_start: self.frame_start as int,
            frame_end: self.frame_end as int,
            registers: self.registers@,
            memory: self.memory@,
            stack_depth: self.stack_depth as int,
            mocks: self.mocks@,
            revert: self.revert@,
            call_result: self.call_result@,
            user_log: self.user_log@,
        }
    }
}

/// `skip`: move the pointer to a boundary inside the current frame and touch
/// nothing else.
pub open spec fn skip_effect(c: ContextModel, m: MetaModel) -> (ContextModel, Result<(), HintError>) {
    if c.frame_start <= m.skip_to < c.frame_end {
        (ContextModel { pc: m.skip_to, ..c }, Ok(()))
    } else {
        (c, Err(HintError::InvalidSkipTarget))
    }
}

/// `mock_call`: install (or replace) the payload for the target.
pub open spec fn mock_effect(c: ContextModel, m: MetaModel) -> (ContextModel, Result<(), HintError>) {
    if m.payload.len() == m.return_len {
        (ContextModel { mocks: c.mocks.insert(m.target, m.payload), ..c }, Ok(()))
    } else {
        (c, Err(HintError::MalformedMockPayload))
    }
}

/// `expect_revert`: arm on entry; on exit, an armed region never failed.
pub open spec fn revert_effect(c: ContextModel, m: MetaModel) -> (ContextModel, Result<(), HintError>) {
    if !m.region_end {
        (ContextModel { revert: RevertState::Armed(m.pattern), ..c }, Ok(()))
    } else {
        match c.revert {
            RevertState::Armed(_) => (
                ContextModel { revert: RevertState::Unarmed, ..c },
                Err(HintError::ExpectedRevertNotRaised),
            ),
            RevertState::Unarmed => (c, Ok(())),
        }
    }
}

/// The call-resolution step: a mocked target yields its payload as the
/// call's result, and the callee's body is not run.
pub open spec fn call_effect(c: ContextModel, target: Seq<char>) -> (ContextModel, bool) {
    if c.mocks.contains_key(target) {
        (ContextModel { call_result: c.mocks[target], ..c }, true)
    } else {
        (c, false)
    }
}

/// The failure path: inside an armed region the failure is caught when its
/// message matches the pattern (or there is none), and is a mismatch
/// otherwise; either way the region is closed.
pub open spec fn failure_effect(c: ContextModel, message: Seq<char>) -> (
    ContextModel,
    Result<FailureOutcome, HintError>,
) {
    match c.revert {
        RevertState::Unarmed => (c, Ok(FailureOutcome::Propagate)),
        RevertState::Armed(p) => {
            let d = ContextModel { revert: RevertState::Unarmed, ..c };
            match p {
                Some(pat) => if contains_seq(message, pat) {
                    (d, Ok(FailureOutcome::Caught))
                } else {
                    (d, Err(HintError::RevertPatternMismatch))
                },
                None => (d, Ok(FailureOutcome::Caught)),
            }
        },
    }
}

fn copy_values(v: &Vec<u64>) -> (r: Vec<u64>)
    ensures
        r@ == v@,
{
    let mut r: Vec<u64> = Vec::new();
    let mut i: usize = 0;
    while i < v.len()
        invariant
            i <= v@.len(),
            r@ == v@.subrange(0, i as int),
        decreases v@.len() - i,
    {
        r.push(v[i]);
        i = i + 1;
    }
    assert(r@ =~= v@);
    r
}

impl ExecutionContext {
    /// The mock table is well formed.
    pub open spec fn wf(&self) -> bool {
        self.mocks.wf()
    }

    /// A fresh run: nothing mocked, no revert expected.
    pub fn new(
        pc: usize,
        frame_start: usize,
        frame_end: usize,
        registers: Vec<u64>,
        memory: Vec<u64>,
        stack_depth: usize,
    ) -> (c: ExecutionContext)
        ensures
            c.wf(),
            c@ == (ContextModel {
                pc: pc as int,
                frame_start: frame_start as int,
                frame_end: frame_end as int,
                registers: registers@,
                memory: memory@,
                stack_depth: stack_depth as int,
                mocks: Map::empty(),
                revert: RevertState::Unarmed,
                call_result: Seq::empty(),
                user_log: Seq::empty(),
            }),
    {
        ExecutionContext {
            pc,
            frame_start,
            frame_end,
            registers,
            memory,
            stack_depth,
            mocks: KeyedTable::new(),
            revert: RevertExpectation::Unarmed,
            call_result: Vec::new(),
            user_log: Vec::new(),
        }
    }

    /// Whether a revert is expected right now.
    pub fn is_armed(&self) -> (r: bool)
        ensures
            r == (self.revert@ is Armed),
    {
        match self.revert {
            RevertExpectation::Armed(_) => true,
            RevertExpectation::Unarmed => false,
        }
    }

    /// Whether calls to `target` are mocked.
    pub fn is_mocked(&self, target: &str) -> (r: bool)
        requires
            self.wf(),
        ensures
            r == self@.mocks.contains_key(target@),
    {
        self.mocks.contains(target)
    }

    /// Call-resolution hook, consulted before a call to `target` runs. On a
    /// hit the mocked payload becomes the call's result and `true` tells the
    /// VM to skip the callee's body; frames and pointer are left to the VM's
    /// usual return bookkeeping.
    pub fn intercept_call(&mut self, target: &str) -> (hit: bool)
        requires
            old(self).wf(),
        ensures
            final(self).wf(),
            (final(self)@, hit) == call_effect(old(self)@, target@),
    {
        match self.mocks.get(target) {
            Some(p) => {
                self.call_result = copy_values(p);
                true
            },
            None => false,
        }
    }

    /// Failure-propagation hook, called when the guarded code fails with
    /// `message`.
    pub fn handle_failure(&mut self, message: &str) -> (r: Result<FailureOutcome, HintError>)
        requires
            old(self).wf(),
        ensures
            final(self).wf(),
            (final(self)@, r) == failure_effect(old(self)@, message@),
    {
        let outcome = match &self.revert {
            RevertExpectation::Unarmed => {
                return Ok(FailureOutcome::Propagate);
            },
            RevertExpectation::Armed(Some(p)) => {
                if contains_text(message, p.as_str()) {
                    Ok(FailureOutcome::Caught)
                } else {
                    Err(HintError::RevertPatternMismatch)
                }
            },
            RevertExpectation::Armed(None) => Ok(FailureOutcome::Caught),
        };
        self.revert = RevertExpectation::Unarmed;
        outcome
    }
}

/// The `skip` hint: jump to `meta.skip_to`, executing none of the
/// instructions in between.
pub fn skip(ctx: &mut ExecutionContext, meta: &HintMetadata) -> (r: Result<(), HintError>)
    requires
        old(ctx).wf(),
    ensures
        final(ctx).wf(),
        (final(ctx)@, r) == skip_effect(old(ctx)@, meta@),
{
    if ctx.frame_start <= meta.skip_to && meta.skip_to < ctx.frame_end {
        ctx.pc = meta.skip_to;
        Ok(())
    } else {
        Err(HintError::InvalidSkipTarget)
    }
}

/// The `mock_call` hint: from now on, calls to `meta.target` return
/// `meta.payload`. A mock lasts for the rest of the run; there is no
/// un-mocking, and a later mock of the same target replaces it.
pub fn mock_call(ctx: &mut ExecutionContext, meta: &HintMetadata) -> (r: Result<(), HintError>)
    requires
        old(ctx).wf(),
    ensures
        final(ctx).wf(),
        (final(ctx)@, r) == mock_effect(old(ctx)@, meta@),
{
    if meta.payload.len() != meta.return_len {
        return Err(HintError::MalformedMockPayload);
    }
    let target = meta.target.clone();
    let payload = copy_values(&meta.payload);
    ctx.mocks.insert(target, payload);
    Ok(())
}

/// The `expect_revert` hint, at the entry or at the exit of its region.
pub fn expect_revert(ctx: &mut ExecutionContext, meta: &HintMetadata) -> (r: Result<(), HintError>)
    requires
        old(ctx).wf(),
    ensures
        final(ctx).wf(),
        (final(ctx)@, r) == revert_effect(old(ctx)@, meta@),
{
    if !meta.region_end {
        let pattern = match &meta.pattern {
            Some(p) => Some(p.clone()),
            None => None,
        };
        ctx.revert = RevertExpectation::Armed(pattern);
        Ok(())
    } else if ctx.is_armed() {
        ctx.revert = RevertExpectation::Unarmed;
        Err(HintError::ExpectedRevertNotRaised)
    } else {
        Ok(())
    }
}

} // verus!
