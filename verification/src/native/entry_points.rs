//! Which groups of commands a driver offers.

use vstd::prelude::*;
use crate::api::extension::GlKnownExtension;
use crate::api::gl::GlFamilyProfile;

verus! {

/// A group of commands that not every context has. A group is named by what
/// it is for: one loaded symbol does not prove every related call.
#[derive(Clone, Copy, Debug, PartialEq, Eq, Structural)]
pub enum NativeEntryPoint {
    Compute,
    StorageBuffer,
    StorageImage,
    IndirectDispatch,
    DrawIndirect,
    TimerQuery,
    DebugOutput,
    Robustness,
}

/// One question for a symbol, and whether it was there.
pub struct SymbolStep {
    pub name: &'static str,
    pub found: bool,
}

/// What finds the symbols of the context that is current.
pub trait SymbolLoader {
    /// Whether the context has a symbol.
    fn load(&mut self, name: &'static str) -> bool;
}

/// A loader with the record of what it was asked.
pub struct SymbolLink<L> {
    loader: L,
    log: Ghost<Seq<SymbolStep>>,
}

impl<L> View for SymbolLink<L> {
    type V = Seq<SymbolStep>;

    closed spec fn view(&self) -> Seq<SymbolStep> {
        self.log@
    }
}

impl<L: SymbolLoader> SymbolLink<L> {
    /// The loader that is asked.
    pub closed spec fn spec_loader(&self) -> L {
        self.loader
    }

    pub fn new(loader: L) -> (result: Self)
        ensures
            result.spec_loader() == loader,
            result@.len() == 0,
    {
        SymbolLink { loader, log: Ghost(Seq::empty()) }
    }

    pub fn load(&mut self, name: &'static str) -> (found: bool)
        ensures
            exists|asked: &mut L|
                {
                    &&& *asked == old(self).spec_loader()
                    &&& *final(asked) == final(self).spec_loader()
                    &&& #[trigger] call_ensures(L::load, (asked, name), found)
                },
            final(self)@ == old(self)@.push(SymbolStep { name, found }),
    {
        let found = self.loader.load(name);
        proof {
            self.log@ = self.log@.push(SymbolStep { name, found });
        }
        found
    }
}

/// Whether the second record begins with the first.
pub open spec fn grows(before: Seq<SymbolStep>, after: Seq<SymbolStep>) -> bool {
    before.len() <= after.len() && forall|i: int|
        0 <= i < before.len() ==> before[i] == #[trigger] after[i]
}

/// The symbols of a group. There is no route to robustness.
pub open spec fn symbols(point: NativeEntryPoint) -> Seq<&'static str> {
    match point {
        NativeEntryPoint::Compute => seq!["glDispatchCompute"],
        NativeEntryPoint::StorageBuffer => seq!["glBindBufferRange"],
        NativeEntryPoint::StorageImage => seq!["glBindImageTexture", "glMemoryBarrier"],
        NativeEntryPoint::IndirectDispatch => seq!["glDispatchComputeIndirect"],
        NativeEntryPoint::DrawIndirect => seq!["glDrawArraysIndirect", "glDrawElementsIndirect"],
        NativeEntryPoint::TimerQuery => seq!["glQueryCounter", "glGetQueryObjectui64v"],
        NativeEntryPoint::DebugOutput => seq!["glPushDebugGroup", "glPopDebugGroup"],
        NativeEntryPoint::Robustness => Seq::empty(),
    }
}

fn list_symbols(point: NativeEntryPoint) -> (result: Vec<&'static str>)
    ensures
        result@ == symbols(point),
{
    let mut result: Vec<&'static str> = Vec::new();
    match point {
        NativeEntryPoint::Compute => {
            result.push("glDispatchCompute");
        },
        NativeEntryPoint::StorageBuffer => {
            result.push("glBindBufferRange");
        },
        NativeEntryPoint::StorageImage => {
            result.push("glBindImageTexture");
            result.push("glMemoryBarrier");
        },
        NativeEntryPoint::IndirectDispatch => {
            result.push("glDispatchComputeIndirect");
        },
        NativeEntryPoint::DrawIndirect => {
            result.push("glDrawArraysIndirect");
            result.push("glDrawElementsIndirect");
        },
        NativeEntryPoint::TimerQuery => {
            result.push("glQueryCounter");
            result.push("glGetQueryObjectui64v");
        },
        NativeEntryPoint::DebugOutput => {
            result.push("glPushDebugGroup");
            result.push("glPopDebugGroup");
        },
        NativeEntryPoint::Robustness => {},
    }
    assert(result@ =~= symbols(point));
    result
}

/// Looks for symbols, one after the other, until one is missing.
pub open spec fn looked_up(
    log: Seq<SymbolStep>,
    names: Seq<&'static str>,
    o: Seq<SymbolStep>,
) -> (Seq<SymbolStep>, bool)
    decreases names.len(),
{
    if names.len() == 0 {
        (log, true)
    } else {
        let found = o[log.len() as int].found;
        let after = log.push(SymbolStep { name: names[0], found });
        if found {
            looked_up(after, names.skip(1), o)
        } else {
            (after, false)
        }
    }
}

fn look_up<L: SymbolLoader>(link: &mut SymbolLink<L>, point: NativeEntryPoint) -> (result: bool)
    ensures
        grows(old(link)@, final(link)@),
        forall|o: Seq<SymbolStep>|
            grows(final(link)@, o) ==> #[trigger] looked_up(old(link)@, symbols(point), o) == (
                final(link)@,
                result,
            ),
{
    let names = list_symbols(point);
    let mut at: usize = 0;
    assert(names@.skip(0) =~= names@);
    while at < names.len()
        invariant
            at <= names@.len(),
            names@ == symbols(point),
            grows(old(link)@, link@),
            forall|o: Seq<SymbolStep>|
                grows(link@, o) ==> #[trigger] looked_up(old(link)@, symbols(point), o)
                    == looked_up(link@, names@.skip(at as int), o),
        decreases names@.len() - at,
    {
        assert(names@.skip(at as int).skip(1) =~= names@.skip(at + 1));
        let ghost before = link@;
        let name = names[at];
        if !link.load(name) {
            proof {
                assert forall|o: Seq<SymbolStep>| grows(link@, o) implies #[trigger] looked_up(
                    old(link)@,
                    symbols(point),
                    o,
                ) == (link@, false) by {
                    assert(grows(before, o));
                }
            }
            return false;
        }
        proof {
            assert forall|o: Seq<SymbolStep>| grows(link@, o) implies #[trigger] looked_up(
                old(link)@,
                symbols(point),
                o,
            ) == looked_up(link@, names@.skip(at + 1), o) by {
                assert(grows(before, o));
            }
        }
        at += 1;
    }
    true
}

/// The groups that the driver of one context offers.
#[derive(Clone, Copy, Debug, PartialEq, Eq, Structural)]
pub struct NativeEntryPoints {
    pub compute: bool,
    pub storage_buffer: bool,
    pub storage_image: bool,
    pub indirect_dispatch: bool,
    pub draw_indirect: bool,
    pub timer_query: bool,
    pub debug_output: bool,
    pub robustness: bool,
}

impl Default for NativeEntryPoints {
    /// No group at all.
    fn default() -> (result: Self)
        ensures
            forall|point: NativeEntryPoint| !result.spec_has(point),
    {
        NativeEntryPoints {
            compute: false,
            storage_buffer: false,
            storage_image: false,
            indirect_dispatch: false,
            draw_indirect: false,
            timer_query: false,
            debug_output: false,
            robustness: false,
        }
    }
}

/// The groups that a loader finds, in the order in which they are asked for.
pub open spec fn loaded(log: Seq<SymbolStep>, o: Seq<SymbolStep>) -> (
    Seq<SymbolStep>,
    NativeEntryPoints,
) {
    let (l1, compute) = looked_up(log, symbols(NativeEntryPoint::Compute), o);
    let (l2, storage_buffer) = looked_up(l1, symbols(NativeEntryPoint::StorageBuffer), o);
    let (l3, storage_image) = looked_up(l2, symbols(NativeEntryPoint::StorageImage), o);
    let (l4, indirect_dispatch) = looked_up(l3, symbols(NativeEntryPoint::IndirectDispatch), o);
    let (l5, draw_indirect) = looked_up(l4, symbols(NativeEntryPoint::DrawIndirect), o);
    let (l6, timer_query) = looked_up(l5, symbols(NativeEntryPoint::TimerQuery), o);
    let (l7, debug_output) = looked_up(l6, symbols(NativeEntryPoint::DebugOutput), o);
    (
        l7,
        NativeEntryPoints {
            compute,
            storage_buffer,
            storage_image,
            indirect_dispatch,
            draw_indirect,
            timer_query,
            debug_output,
            robustness: false,
        },
    )
}

impl NativeEntryPoints {
    /// Whether a group is there.
    pub open spec fn spec_has(self, point: NativeEntryPoint) -> bool {
        match point {
            NativeEntryPoint::Compute => self.compute,
            NativeEntryPoint::StorageBuffer => self.storage_buffer,
            NativeEntryPoint::StorageImage => self.storage_image,
            NativeEntryPoint::IndirectDispatch => self.indirect_dispatch,
            NativeEntryPoint::DrawIndirect => self.draw_indirect,
            NativeEntryPoint::TimerQuery => self.timer_query,
            NativeEntryPoint::DebugOutput => self.debug_output,
            NativeEntryPoint::Robustness => self.robustness,
        }
    }

    /// Looks for every group. A missing symbol closes its own group only.
    pub fn load<L: SymbolLoader>(link: &mut SymbolLink<L>) -> (result: Self)
        ensures
            grows(old(link)@, final(link)@),
            forall|o: Seq<SymbolStep>|
                grows(final(link)@, o) ==> #[trigger] loaded(old(link)@, o) == (
                    final(link)@,
                    result,
                ),
    {
        let compute = look_up(link, NativeEntryPoint::Compute);
        let storage_buffer = look_up(link, NativeEntryPoint::StorageBuffer);
        let storage_image = look_up(link, NativeEntryPoint::StorageImage);
        let indirect_dispatch = look_up(link, NativeEntryPoint::IndirectDispatch);
        let draw_indirect = look_up(link, NativeEntryPoint::DrawIndirect);
        let timer_query = look_up(link, NativeEntryPoint::TimerQuery);
        let debug_output = look_up(link, NativeEntryPoint::DebugOutput);
        NativeEntryPoints {
            compute,
            storage_buffer,
            storage_image,
            indirect_dispatch,
            draw_indirect,
            timer_query,
            debug_output,
            robustness: false,
        }
    }

    pub fn has(self, point: NativeEntryPoint) -> (result: bool)
        ensures
            result == self.spec_has(point),
    {
        match point {
            NativeEntryPoint::Compute => self.compute,
            NativeEntryPoint::StorageBuffer => self.storage_buffer,
            NativeEntryPoint::StorageImage => self.storage_image,
            NativeEntryPoint::IndirectDispatch => self.indirect_dispatch,
            NativeEntryPoint::DrawIndirect => self.draw_indirect,
            NativeEntryPoint::TimerQuery => self.timer_query,
            NativeEntryPoint::DebugOutput => self.debug_output,
            NativeEntryPoint::Robustness => self.robustness,
        }
    }

    /// Whether a context may use a group: all its commands are there, and a
    /// version or an acquired extension of the right family brings it. An
    /// extension that was only reported is no extension here.
    pub open spec fn spec_admits(
        self,
        point: NativeEntryPoint,
        profile: GlFamilyProfile,
        core: bool,
        acquired_extension: Option<GlKnownExtension>,
    ) -> bool {
        self.spec_has(point) && (core || (acquired_extension is Some
            && acquired_extension->0.spec_is_legal_for(profile)))
    }

    pub fn admits(
        self,
        point: NativeEntryPoint,
        profile: GlFamilyProfile,
        core: bool,
        acquired_extension: Option<GlKnownExtension>,
    ) -> (result: bool)
        ensures
            result == self.spec_admits(point, profile, core, acquired_extension),
    {
        if !self.has(point) {
            return false;
        }
        core || match acquired_extension {
            Some(extension) => extension.is_legal_for(profile),
            None => false,
        }
    }
}

/// A group is open exactly if each of its symbols was found in turn.
pub proof fn groups_need_every_symbol(
    log: Seq<SymbolStep>,
    names: Seq<&'static str>,
    o: Seq<SymbolStep>,
)
    ensures
        looked_up(log, names, o).1 <==> forall|i: int|
            0 <= i < names.len() ==> (#[trigger] o[log.len() + i]).found,
    decreases names.len(),
{
    if names.len() > 0 {
        let found = o[log.len() as int].found;
        let after = log.push(SymbolStep { name: names[0], found });
        if found {
            groups_need_every_symbol(after, names.skip(1), o);
            if looked_up(log, names, o).1 {
                assert forall|i: int| 0 <= i < names.len() implies (
                #[trigger] o[log.len() + i]).found by {
                    if i > 0 {
                        assert(o[after.len() + (i - 1)].found);
                    }
                }
            } else {
                let i = choose|i: int|
                    0 <= i < names.skip(1).len() && !(#[trigger] o[after.len() + i]).found;
                assert(!o[log.len() + (i + 1)].found);
            }
        } else {
            assert(!o[log.len() + 0int].found);
        }
    }
}

} // verus!
