//! Asking a context about itself.
//!
//! The library assumes nothing of the answers, and records what it asked.

use vstd::prelude::*;
use crate::api::extension::{GlExtensionSet, LedgerModel};
use crate::api::gl::GlFamilyProfile;
use crate::native::probes::ProbeReport;

verus! {

/// One question, and its answer.
#[allow(inconsistent_fields)]
pub enum QueryStep {
    /// In this step one pending error was taken.
    TakeError { reply: bool },
    /// In this step a text was asked for.
    Text { name: u32, reply: Option<String> },
    /// In this step a number was asked for.
    Integer { name: u32, reply: Option<i64> },
    /// In this step two numbers were asked for.
    Pair { name: u32, reply: Option<(i64, i64)> },
    /// In this step one of several numbers was asked for.
    Indexed { name: u32, index: u32, reply: Option<i64> },
    /// In this step a floating-point number was asked for.
    Float { name: u32, reply: Option<u32> },
    /// In this step one of several texts was asked for.
    IndexedText { name: u32, index: u32, reply: Option<String> },
    /// In this step an attachment of the draw framebuffer was asked about.
    Attachment { attachment: u32, name: u32, reply: Option<i64> },
    /// In this step operations were tried.
    Probes { profile: GlFamilyProfile, extensions: LedgerModel, reply: ProbeReport },
}

/// Whether the second record begins with the first.
pub open spec fn grows(before: Seq<QueryStep>, after: Seq<QueryStep>) -> bool {
    before.len() <= after.len() && forall|i: int|
        0 <= i < before.len() ==> before[i] == #[trigger] after[i]
}

/// The questions that discovery puts to a current context.
pub trait NativeGlQuery {
    /// Takes one pending error. Whether there was one.
    fn take_error(&mut self) -> bool;

    /// A text, or nothing if the driver refused.
    fn string(&mut self, name: u32) -> Option<String>;

    /// A number, or nothing if the driver refused.
    fn integer(&mut self, name: u32) -> Option<i64>;

    /// Two numbers, or nothing if the driver refused.
    fn integer_pair(&mut self, name: u32) -> Option<(i64, i64)>;

    /// One of several numbers, or nothing if the driver refused.
    fn indexed_integer(&mut self, name: u32, index: u32) -> Option<i64>;

    /// The bits of a floating-point number, or nothing if the driver refused.
    fn float(&mut self, name: u32) -> Option<u32>;

    /// One of several texts, or nothing if the driver refused.
    fn indexed_string(&mut self, name: u32, index: u32) -> Option<String>;

    /// A parameter of an attachment of the draw framebuffer, or nothing if the driver
    /// refused.
    fn drawable_attachment(&mut self, attachment: u32, name: u32) -> Option<i64>;
}

/// The operations that can be tried on a current context.
pub trait NativeGlProbes {
    /// Tries all operations that this profile and these extensions allow.
    fn run_operation_probes(
        &mut self,
        profile: GlFamilyProfile,
        extensions: &GlExtensionSet,
    ) -> ProbeReport;
}

/// What was asked so far, by value.
#[verifier::ext_equal]
pub struct Inspection {
    pub log: Seq<QueryStep>,
}

impl Inspection {
    /// The answer to the next question, according to a record.
    pub open spec fn next(self, o: Seq<QueryStep>) -> QueryStep {
        o[self.log.len() as int]
    }

    /// The record after one more question.
    pub open spec fn asked(self, step: QueryStep) -> Inspection {
        Inspection { log: self.log.push(step) }
    }

    pub open spec fn take_error(self, o: Seq<QueryStep>) -> (Inspection, bool) {
        let reply = self.next(o)->TakeError_reply;
        (self.asked(QueryStep::TakeError { reply }), reply)
    }

    pub open spec fn string(self, name: u32, o: Seq<QueryStep>) -> (Inspection, Option<String>) {
        let reply = self.next(o)->Text_reply;
        (self.asked(QueryStep::Text { name, reply }), reply)
    }

    pub open spec fn integer(self, name: u32, o: Seq<QueryStep>) -> (Inspection, Option<i64>) {
        let reply = self.next(o)->Integer_reply;
        (self.asked(QueryStep::Integer { name, reply }), reply)
    }

    pub open spec fn integer_pair(self, name: u32, o: Seq<QueryStep>) -> (Inspection, Option<(i64, i64)>) {
        let reply = self.next(o)->Pair_reply;
        (self.asked(QueryStep::Pair { name, reply }), reply)
    }

    pub open spec fn indexed_integer(self, name: u32, index: u32, o: Seq<QueryStep>) -> (Inspection, Option<i64>) {
        let reply = self.next(o)->Indexed_reply;
        (self.asked(QueryStep::Indexed { name, index, reply }), reply)
    }

    pub open spec fn float(self, name: u32, o: Seq<QueryStep>) -> (Inspection, Option<u32>) {
        let reply = self.next(o)->Float_reply;
        (self.asked(QueryStep::Float { name, reply }), reply)
    }

    pub open spec fn indexed_string(self, name: u32, index: u32, o: Seq<QueryStep>) -> (Inspection, Option<String>) {
        let reply = self.next(o)->IndexedText_reply;
        (self.asked(QueryStep::IndexedText { name, index, reply }), reply)
    }

    pub open spec fn drawable_attachment(self, attachment: u32, name: u32, o: Seq<QueryStep>) -> (Inspection, Option<i64>) {
        let reply = self.next(o)->Attachment_reply;
        (self.asked(QueryStep::Attachment { attachment, name, reply }), reply)
    }

    pub open spec fn run_operation_probes(
        self,
        profile: GlFamilyProfile,
        extensions: LedgerModel,
        o: Seq<QueryStep>,
    ) -> (Inspection, ProbeReport) {
        let reply = self.next(o)->Probes_reply;
        (self.asked(QueryStep::Probes { profile, extensions, reply }), reply)
    }
}

/// A context with the record of what it was asked.
pub struct QueryLink<Q, P> {
    query: Q,
    probes: P,
    log: Ghost<Seq<QueryStep>>,
}

impl<Q, P> View for QueryLink<Q, P> {
    type V = Inspection;

    closed spec fn view(&self) -> Inspection {
        Inspection { log: self.log@ }
    }
}

impl<Q: NativeGlQuery, P: NativeGlProbes> QueryLink<Q, P> {
    /// The context that is asked.
    pub closed spec fn spec_query(&self) -> Q {
        self.query
    }

    /// What runs the probes.
    pub closed spec fn spec_probes(&self) -> P {
        self.probes
    }

    pub fn new(query: Q, probes: P) -> (result: Self)
        ensures
            result.spec_query() == query,
            result.spec_probes() == probes,
            result@.log.len() == 0,
    {
        QueryLink { query, probes, log: Ghost(Seq::empty()) }
    }

    pub open spec fn wf(&self) -> bool {
        true
    }

    pub fn take_error(&mut self) -> (reply: bool)
        ensures
            exists|asked: &mut Q|
                {
                    &&& *asked == old(self).spec_query()
                    &&& *final(asked) == final(self).spec_query()
                    &&& #[trigger] call_ensures(Q::take_error, (asked,), reply)
                },
            final(self).spec_probes() == old(self).spec_probes(),
            final(self)@ == old(self)@.asked(QueryStep::TakeError { reply }),
    {
        let reply = self.query.take_error();
        proof {
            self.log@ = self.log@.push(QueryStep::TakeError { reply });
        }
        reply
    }

    pub fn string(&mut self, name: u32) -> (reply: Option<String>)
        ensures
            exists|asked: &mut Q|
                {
                    &&& *asked == old(self).spec_query()
                    &&& *final(asked) == final(self).spec_query()
                    &&& #[trigger] call_ensures(Q::string, (asked, name), reply)
                },
            final(self).spec_probes() == old(self).spec_probes(),
            final(self)@ == old(self)@.asked(QueryStep::Text { name, reply }),
    {
        let reply = self.query.string(name);
        proof {
            self.log@ = self.log@.push(QueryStep::Text { name, reply });
        }
        reply
    }

    pub fn integer(&mut self, name: u32) -> (reply: Option<i64>)
        ensures
            exists|asked: &mut Q|
                {
                    &&& *asked == old(self).spec_query()
                    &&& *final(asked) == final(self).spec_query()
                    &&& #[trigger] call_ensures(Q::integer, (asked, name), reply)
                },
            final(self).spec_probes() == old(self).spec_probes(),
            final(self)@ == old(self)@.asked(QueryStep::Integer { name, reply }),
    {
        let reply = self.query.integer(name);
        proof {
            self.log@ = self.log@.push(QueryStep::Integer { name, reply });
        }
        reply
    }

    pub fn integer_pair(&mut self, name: u32) -> (reply: Option<(i64, i64)>)
        ensures
            exists|asked: &mut Q|
                {
                    &&& *asked == old(self).spec_query()
                    &&& *final(asked) == final(self).spec_query()
                    &&& #[trigger] call_ensures(Q::integer_pair, (asked, name), reply)
                },
            final(self).spec_probes() == old(self).spec_probes(),
            final(self)@ == old(self)@.asked(QueryStep::Pair { name, reply }),
    {
        let reply = self.query.integer_pair(name);
        proof {
            self.log@ = self.log@.push(QueryStep::Pair { name, reply });
        }
        reply
    }

    pub fn indexed_integer(&mut self, name: u32, index: u32) -> (reply: Option<i64>)
        ensures
            exists|asked: &mut Q|
                {
                    &&& *asked == old(self).spec_query()
                    &&& *final(asked) == final(self).spec_query()
                    &&& #[trigger] call_ensures(Q::indexed_integer, (asked, name, index), reply)
                },
            final(self).spec_probes() == old(self).spec_probes(),
            final(self)@ == old(self)@.asked(QueryStep::Indexed { name, index, reply }),
    {
        let reply = self.query.indexed_integer(name, index);
        proof {
            self.log@ = self.log@.push(QueryStep::Indexed { name, index, reply });
        }
        reply
    }

    pub fn float(&mut self, name: u32) -> (reply: Option<u32>)
        ensures
            exists|asked: &mut Q|
                {
                    &&& *asked == old(self).spec_query()
                    &&& *final(asked) == final(self).spec_query()
                    &&& #[trigger] call_ensures(Q::float, (asked, name), reply)
                },
            final(self).spec_probes() == old(self).spec_probes(),
            final(self)@ == old(self)@.asked(QueryStep::Float { name, reply }),
    {
        let reply = self.query.float(name);
        proof {
            self.log@ = self.log@.push(QueryStep::Float { name, reply });
        }
        reply
    }

    pub fn indexed_string(&mut self, name: u32, index: u32) -> (reply: Option<String>)
        ensures
            exists|asked: &mut Q|
                {
                    &&& *asked == old(self).spec_query()
                    &&& *final(asked) == final(self).spec_query()
                    &&& #[trigger] call_ensures(Q::indexed_string, (asked, name, index), reply)
                },
            final(self).spec_probes() == old(self).spec_probes(),
            final(self)@ == old(self)@.asked(QueryStep::IndexedText { name, index, reply }),
    {
        let reply = self.query.indexed_string(name, index);
        proof {
            self.log@ = self.log@.push(QueryStep::IndexedText { name, index, reply });
        }
        reply
    }

    pub fn drawable_attachment(&mut self, attachment: u32, name: u32) -> (reply: Option<i64>)
        ensures
            exists|asked: &mut Q|
                {
                    &&& *asked == old(self).spec_query()
                    &&& *final(asked) == final(self).spec_query()
                    &&& #[trigger] call_ensures(Q::drawable_attachment, (asked, attachment, name), reply)
                },
            final(self).spec_probes() == old(self).spec_probes(),
            final(self)@ == old(self)@.asked(QueryStep::Attachment { attachment, name, reply }),
    {
        let reply = self.query.drawable_attachment(attachment, name);
        proof {
            self.log@ = self.log@.push(QueryStep::Attachment { attachment, name, reply });
        }
        reply
    }

    pub fn run_operation_probes(
        &mut self,
        profile: GlFamilyProfile,
        extensions: &GlExtensionSet,
    ) -> (reply: ProbeReport)
        ensures
            exists|asked: &mut P|
                {
                    &&& *asked == old(self).spec_probes()
                    &&& *final(asked) == final(self).spec_probes()
                    &&& #[trigger] call_ensures(
                        P::run_operation_probes,
                        (asked, profile, extensions),
                        reply,
                    )
                },
            final(self).spec_query() == old(self).spec_query(),
            final(self)@ == old(self)@.asked(
                QueryStep::Probes { profile, extensions: extensions@, reply },
            ),
    {
        let reply = self.probes.run_operation_probes(profile, extensions);
        proof {
            self.log@ = self.log@.push(
                QueryStep::Probes { profile, extensions: extensions@, reply },
            );
        }
        reply
    }
}

} // verus!
