//! The questions about addresses, each with its record.
//!
//! Nothing is assumed of the answers. A step is recorded exactly when its question
//! was asked.

use vstd::prelude::*;
use crate::native::wgl_symbols::{AddressStep, WglAddresses};

verus! {

/// The source of addresses with the record of what it was asked.
pub struct AddressRecorder<A> {
    calls: A,
    log: Ghost<Seq<AddressStep>>,
}

impl<A> View for AddressRecorder<A> {
    type V = Seq<AddressStep>;

    closed spec fn view(&self) -> Seq<AddressStep> {
        self.log@
    }
}

impl<A: WglAddresses> AddressRecorder<A> {
    /// The source that is asked.
    pub closed spec fn spec_calls(&self) -> A {
        self.calls
    }

    pub fn new(calls: A) -> (result: Self)
        ensures
            result.spec_calls() == calls,
            result@ == Seq::<AddressStep>::empty(),
    {
        AddressRecorder { calls, log: Ghost(Seq::empty()) }
    }

    pub fn get_proc_address(&mut self, symbol: &str) -> (reply: i64)
        ensures
            exists|asked: &mut A|
                {
                    &&& *asked == old(self).spec_calls()
                    &&& *final(asked) == final(self).spec_calls()
                    &&& #[trigger] call_ensures(A::get_proc_address, (asked, symbol), reply)
                },
            final(self)@ == old(self)@.push(AddressStep::Wgl { symbol: symbol@, reply }),
    {
        let reply = self.calls.get_proc_address(symbol);
        proof {
            self.log@ = self.log@.push(AddressStep::Wgl { symbol: symbol@, reply });
        }
        reply
    }

    pub fn opengl32_module(&mut self) -> (reply: i64)
        ensures
            exists|asked: &mut A|
                {
                    &&& *asked == old(self).spec_calls()
                    &&& *final(asked) == final(self).spec_calls()
                    &&& #[trigger] call_ensures(A::opengl32_module, (asked,), reply)
                },
            final(self)@ == old(self)@.push(AddressStep::Module { reply }),
    {
        let reply = self.calls.opengl32_module();
        proof {
            self.log@ = self.log@.push(AddressStep::Module { reply });
        }
        reply
    }

    pub fn module_proc_address(&mut self, module: i64, symbol: &str) -> (reply: i64)
        ensures
            exists|asked: &mut A|
                {
                    &&& *asked == old(self).spec_calls()
                    &&& *final(asked) == final(self).spec_calls()
                    &&& #[trigger] call_ensures(A::module_proc_address, (asked, module, symbol), reply)
                },
            final(self)@ == old(self)@.push(AddressStep::Exported { module, symbol: symbol@, reply }),
    {
        let reply = self.calls.module_proc_address(module, symbol);
        proof {
            self.log@ = self.log@.push(AddressStep::Exported { module, symbol: symbol@, reply });
        }
        reply
    }
}

} // verus!
