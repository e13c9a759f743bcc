//! Finding the functions of OpenGL on Windows.
//!
//! WGL does not hand out the functions of OpenGL 1.1. They come from the system
//! module, which is already loaded.

use vstd::prelude::*;
use vstd::string::*;
use crate::native::address_recorder::AddressRecorder;
use crate::native::wgl;
use crate::native::wgl::usable_wgl_proc;

verus! {

/// One question about an address, and its answer. Zero is no address.
#[allow(inconsistent_fields)]
pub enum AddressStep {
    /// In this step WGL was asked.
    Wgl { symbol: Seq<char>, reply: i64 },
    /// In this step the system module was asked for.
    Module { reply: i64 },
    /// In this step the system module was asked.
    Exported { module: i64, symbol: Seq<char>, reply: i64 },
}

/// Whether the second record begins with the first.
pub open spec fn grows(before: Seq<AddressStep>, after: Seq<AddressStep>) -> bool {
    before.len() <= after.len() && forall|i: int|
        0 <= i < before.len() ==> before[i] == #[trigger] after[i]
}

/// Where addresses come from.
pub trait WglAddresses {
    fn get_proc_address(&mut self, symbol: &str) -> i64;

    fn opengl32_module(&mut self) -> i64;

    fn module_proc_address(&mut self, module: i64, symbol: &str) -> i64;
}

/// What was asked so far, by value.
#[verifier::ext_equal]
pub struct Search {
    pub log: Seq<AddressStep>,
}

/// Whether a name cannot be handed to C.
pub open spec fn has_nul(symbol: Seq<char>) -> bool {
    exists|i: int| 0 <= i < symbol.len() && #[trigger] symbol[i] == '\0'
}

impl Search {
    /// The next step, according to a record.
    pub open spec fn next(self, o: Seq<AddressStep>) -> AddressStep {
        o[self.log.len() as int]
    }

    /// The record after one more step.
    pub open spec fn asked(self, step: AddressStep) -> Search {
        Search { log: self.log.push(step) }
    }

    /// The address of a function, or zero.
    pub open spec fn load(self, symbol: Seq<char>, o: Seq<AddressStep>) -> (Search, i64) {
        if has_nul(symbol) {
            (self, 0)
        } else {
            let found = self.next(o)->Wgl_reply;
            let m1 = self.asked(AddressStep::Wgl { symbol, reply: found });
            if wgl::usable(found) {
                (m1, found)
            } else {
                let module = m1.next(o)->Module_reply;
                let m2 = m1.asked(AddressStep::Module { reply: module });
                if module == 0 {
                    (m2, 0)
                } else {
                    let exported = m2.next(o)->Exported_reply;
                    (
                        m2.asked(AddressStep::Exported { module, symbol, reply: exported }),
                        exported,
                    )
                }
            }
        }
    }
}

/// The values with which WGL says that it has no function are never taken for
/// one: such an answer leads to the system module.
pub proof fn refusals_are_no_addresses(search: Search, symbol: Seq<char>, o: Seq<AddressStep>)
    requires
        !has_nul(symbol),
        !wgl::usable(search.next(o)->Wgl_reply),
    ensures
        ({
            let (after, address) = search.load(symbol, o);
            &&& after.log.len() >= search.log.len() + 2
            &&& address != 0 ==> after.log.last() is Exported
        }),
{
}

/// The addresses with the record of what was asked.
pub struct AddressLink<A> {
    link: AddressRecorder<A>,
}

impl<A> View for AddressLink<A> {
    type V = Search;

    closed spec fn view(&self) -> Search {
        Search { log: self.link@ }
    }
}

fn contains_nul(symbol: &str) -> (result: bool)
    ensures
        result == has_nul(symbol@),
{
    let n: usize = symbol.unicode_len();
    let mut at: usize = 0;
    while at < n
        invariant
            n == symbol@.len(),
            at <= n,
            forall|i: int| 0 <= i < at ==> #[trigger] symbol@[i] != '\0',
        decreases n - at,
    {
        if symbol.get_char(at) == '\0' {
            assert(symbol@[at as int] == '\0');
            return true;
        }
        at += 1;
    }
    false
}

impl<A: WglAddresses> AddressLink<A> {
    pub fn new(addresses: A) -> (result: Self)
        ensures
            result@.log == Seq::<AddressStep>::empty(),
    {
        AddressLink { link: AddressRecorder::new(addresses) }
    }

    /// The address of a function, or zero.
    pub fn load_wgl_symbol(&mut self, symbol: &str) -> (result: i64)
        ensures
            grows(old(self)@.log, final(self)@.log),
            forall|o: Seq<AddressStep>|
                grows(final(self)@.log, o) ==> #[trigger] old(self)@.load(symbol@, o) == (
                    final(self)@,
                    result,
                ),
    {
        if contains_nul(symbol) {
            return 0;
        }
        let found: i64 = self.link.get_proc_address(symbol);
        if usable_wgl_proc(found) {
            return found;
        }
        let module: i64 = self.link.opengl32_module();
        if module == 0 {
            return 0;
        }
        let exported: i64 = self.link.module_proc_address(module, symbol);
        exported
    }
}

} // verus!
